# uhid_virt_ng

A verified Verus library for Linux UHID (user-space HID transport drivers,
`/dev/uhid`): it encodes the events that user space writes, decodes the events
that the kernel delivers, and drives a device over any byte stream.

- `src/sys.rs`: the kernel structures, their packed little-endian layout, and
  the event payload union held as raw bytes.
- `src/codec.rs`: `InputEvent` encoding, `OutputEvent` decoding, flags, report
  and bus types, errors; each with a contract over byte sequences.
- `src/uhid_device.rs`: `UHIDDevice` over an `EventStream`, recording in ghost
  state the events it sends and receives.
- `src/layout.rs`: byte-level helpers and their round-trip lemmas.
- `src/laws.rs`: properties relating the operations (read back of what was
  written, flag and report-type round trips, payload member round trips).
- `app/`: opening `/dev/uhid`, the `Read + Write` adapter, `Display` and
  `Error` for the error type, and the interactive mouse example.
