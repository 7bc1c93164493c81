//! Definitions matching the Linux kernel UHID interface (`<linux/uhid.h>`).
//!
//! Every payload structure is packed: its fields follow one another without
//! padding. Multi-byte integers are stored little-endian; the kernel reads them
//! in host byte order, so this is the kernel's layout on little-endian hosts.
//! The event payload is a union of these structures; it is held here as its
//! raw bytes, and each structure is read from and written to those bytes at
//! offset zero.
#![allow(non_camel_case_types, non_upper_case_globals)]

use vstd::prelude::*;

use crate::codec::UHID_EVENT_SIZE;
use crate::layout::{
    lemma_u16_bytes_round_trip, lemma_u32_bytes_round_trip, lemma_u64_bytes_round_trip,
    get_array, get_u16, get_u32, get_u64, le16, le32, le64, put_bytes, put_u16, put_u32, put_u64, put_u8,
    splice, u16_at, u32_at, u64_at, zeros,
};

verus! {

/// Maximum size of HID report descriptor supported by the Linux kernel HID subsystem (4096 bytes).
pub const HID_MAX_DESCRIPTOR_SIZE: usize = 4096;

/// Maximum data payload size for UHID input/output reports (4096 bytes).
pub const UHID_DATA_MAX: usize = 4096;

/// Size in bytes of the event payload union (its largest member, `uhid_create2_req`).
pub const UHID_PAYLOAD_SIZE: usize = 4372;

/// Raw UHID event type identifier.
pub type UhidEventType = u32;

/// Raw UHID report type identifier.
pub type UhidReportType = u8;

/// Destroy virtual HID device event type.
pub const UHID_EVENT_TYPE_UHID_DESTROY: u32 = 1;

/// Start event received when the kernel opens the device.
pub const UHID_EVENT_TYPE_UHID_START: u32 = 2;

/// Stop event received when the kernel stops the device.
pub const UHID_EVENT_TYPE_UHID_STOP: u32 = 3;

/// Open event received when first user space client opens hidraw.
pub const UHID_EVENT_TYPE_UHID_OPEN: u32 = 4;

/// Close event received when last user space client closes hidraw.
pub const UHID_EVENT_TYPE_UHID_CLOSE: u32 = 5;

/// Output event carrying an output report sent from the kernel to the device.
pub const UHID_EVENT_TYPE_UHID_OUTPUT: u32 = 6;

/// Legacy output event carrying input events.
pub const UHID_EVENT_TYPE_UHID_OUTPUT_EV: u32 = 7;

/// Request sent from the kernel to get a report.
pub const UHID_EVENT_TYPE_UHID_GET_REPORT: u32 = 9;

/// Response sent from user space for a `GET_REPORT` request.
pub const UHID_EVENT_TYPE_UHID_GET_REPORT_REPLY: u32 = 10;

/// Event sent from user space to create a virtual device (v2).
pub const UHID_EVENT_TYPE_UHID_CREATE2: u32 = 11;

/// Input event carrying an input report from user space to the kernel (v2).
pub const UHID_EVENT_TYPE_UHID_INPUT2: u32 = 12;

/// Request sent from the kernel to set a report on the device.
pub const UHID_EVENT_TYPE_UHID_SET_REPORT: u32 = 13;

/// Response sent from user space for a `SET_REPORT` request.
pub const UHID_EVENT_TYPE_UHID_SET_REPORT_REPLY: u32 = 14;

/// Legacy feature report request event type.
pub const UHID_LEGACY_EVENT_TYPE_UHID_FEATURE: u32 = 9;

/// Legacy feature answer event type.
pub const UHID_LEGACY_EVENT_TYPE_UHID_FEATURE_ANSWER: u32 = 10;

/// Legacy output event type.
pub const UHID_LEGACY_EVENT_TYPE_UHID_OUTPUT_EV: u32 = 7;

/// Feature report type.
pub const UHID_REPORT_TYPE_UHID_FEATURE_REPORT: u8 = 0;

/// Output report type.
pub const UHID_REPORT_TYPE_UHID_OUTPUT_REPORT: u8 = 1;

/// Input report type.
pub const UHID_REPORT_TYPE_UHID_INPUT_REPORT: u8 = 2;

/// Device flag indicating feature reports use report IDs.
pub const UHID_DEV_NUMBERED_FEATURE_REPORTS: u64 = 1;

/// Device flag indicating output reports use report IDs.
pub const UHID_DEV_NUMBERED_OUTPUT_REPORTS: u64 = 2;

/// Device flag indicating input reports use report IDs.
pub const UHID_DEV_NUMBERED_INPUT_REPORTS: u64 = 4;

/// Payload for `UHID_CREATE2` event to register a new virtual device.
#[derive(Copy, Clone, Debug, PartialEq, Eq)]
pub struct uhid_create2_req {
    /// Device name (null-terminated or zero-padded UTF-8 string).
    pub name: [u8; 128],
    /// Physical device path (null-terminated or zero-padded string).
    pub phys: [u8; 64],
    /// Unique identifier for the device (null-terminated or zero-padded string).
    pub uniq: [u8; 64],
    /// Size of the report descriptor in bytes.
    pub rd_size: u16,
    /// Bus type identifier (e.g. USB = 3, Bluetooth = 5).
    pub bus: u16,
    /// Vendor identifier.
    pub vendor: u32,
    /// Product identifier.
    pub product: u32,
    /// Version number.
    pub version: u32,
    /// Country code.
    pub country: u32,
    /// Report descriptor raw bytes.
    pub rd_data: [u8; HID_MAX_DESCRIPTOR_SIZE],
}

impl uhid_create2_req {
    /// The packed bytes of this structure.
    pub open spec fn spec_bytes(self) -> Seq<u8> {
        self.name@ + self.phys@ + self.uniq@ + le16(self.rd_size) + le16(self.bus) + le32(
            self.vendor,
        ) + le32(self.product) + le32(self.version) + le32(self.country) + self.rd_data@
    }

    /// Reads this structure from the start of a payload.
    pub fn read_from(raw: &[u8; UHID_PAYLOAD_SIZE]) -> (r: Self)
        ensures
            r.name@ == raw@.subrange(0, 128),
            r.phys@ == raw@.subrange(128, 192),
            r.uniq@ == raw@.subrange(192, 256),
            r.rd_size == u16_at(raw@, 256),
            r.bus == u16_at(raw@, 258),
            r.vendor == u32_at(raw@, 260),
            r.product == u32_at(raw@, 264),
            r.version == u32_at(raw@, 268),
            r.country == u32_at(raw@, 272),
            r.rd_data@ == raw@.subrange(276, 4372),
            r.spec_bytes() == raw@.subrange(0, 4372),
    {
        let r = uhid_create2_req {
            name: get_array(raw, 0),
            phys: get_array(raw, 128),
            uniq: get_array(raw, 192),
            rd_size: get_u16(raw, 256),
            bus: get_u16(raw, 258),
            vendor: get_u32(raw, 260),
            product: get_u32(raw, 264),
            version: get_u32(raw, 268),
            country: get_u32(raw, 272),
            rd_data: get_array(raw, 276),
        };
        proof {
            lemma_u16_bytes_round_trip(raw@, 256);
            lemma_u16_bytes_round_trip(raw@, 258);
            lemma_u32_bytes_round_trip(raw@, 260);
            lemma_u32_bytes_round_trip(raw@, 264);
            lemma_u32_bytes_round_trip(raw@, 268);
            lemma_u32_bytes_round_trip(raw@, 272);
        }
        assert(r.spec_bytes() =~= raw@.subrange(0, 4372));
        r
    }

    /// Writes this structure at the start of a payload.
    pub fn write_to(&self, raw: &mut [u8; UHID_PAYLOAD_SIZE])
        ensures
            final(raw)@ == splice(old(raw)@, 0, self.spec_bytes()),
    {
        put_bytes(raw, 0, &self.name, 128);
        put_bytes(raw, 128, &self.phys, 64);
        put_bytes(raw, 192, &self.uniq, 64);
        put_u16(raw, 256, self.rd_size);
        put_u16(raw, 258, self.bus);
        put_u32(raw, 260, self.vendor);
        put_u32(raw, 264, self.product);
        put_u32(raw, 268, self.version);
        put_u32(raw, 272, self.country);
        put_bytes(raw, 276, &self.rd_data, 4096);
        assert(self.name@.take(128) =~= self.name@);
        assert(self.phys@.take(64) =~= self.phys@);
        assert(self.uniq@.take(64) =~= self.uniq@);
        assert(self.rd_data@.take(4096) =~= self.rd_data@);
        assert(raw@ =~= splice(old(raw)@, 0, self.spec_bytes()));
    }
}

/// Payload for `UHID_START` event containing device flags.
#[derive(Copy, Clone, Debug, PartialEq, Eq)]
pub struct uhid_start_req {
    /// Bitmask of device flags (`UHID_DEV_NUMBERED_*`).
    pub dev_flags: u64,
}

impl uhid_start_req {
    /// The packed bytes of this structure.
    pub open spec fn spec_bytes(self) -> Seq<u8> {
        le64(self.dev_flags)
    }

    /// Reads this structure from the start of a payload.
    pub fn read_from(raw: &[u8; UHID_PAYLOAD_SIZE]) -> (r: Self)
        ensures
            r.dev_flags == u64_at(raw@, 0),
            r.spec_bytes() == raw@.subrange(0, 8),
    {
        let r = uhid_start_req { dev_flags: get_u64(raw, 0) };
        proof {
            lemma_u64_bytes_round_trip(raw@, 0);
        }
        assert(r.spec_bytes() =~= raw@.subrange(0, 8));
        r
    }

    /// Writes this structure at the start of a payload.
    pub fn write_to(&self, raw: &mut [u8; UHID_PAYLOAD_SIZE])
        ensures
            final(raw)@ == splice(old(raw)@, 0, self.spec_bytes()),
    {
        put_u64(raw, 0, self.dev_flags);
    }
}

/// Payload for `UHID_INPUT2` event to deliver input reports to the kernel.
#[derive(Copy, Clone, Debug, PartialEq, Eq)]
pub struct uhid_input2_req {
    /// Size of the data payload in bytes.
    pub size: u16,
    /// Raw input report data.
    pub data: [u8; UHID_DATA_MAX],
}

impl uhid_input2_req {
    /// The packed bytes of this structure.
    pub open spec fn spec_bytes(self) -> Seq<u8> {
        le16(self.size) + self.data@
    }

    /// Reads this structure from the start of a payload.
    pub fn read_from(raw: &[u8; UHID_PAYLOAD_SIZE]) -> (r: Self)
        ensures
            r.size == u16_at(raw@, 0),
            r.data@ == raw@.subrange(2, 4098),
            r.spec_bytes() == raw@.subrange(0, 4098),
    {
        let r = uhid_input2_req { size: get_u16(raw, 0), data: get_array(raw, 2) };
        proof {
            lemma_u16_bytes_round_trip(raw@, 0);
        }
        assert(r.spec_bytes() =~= raw@.subrange(0, 4098));
        r
    }

    /// Writes this structure at the start of a payload.
    pub fn write_to(&self, raw: &mut [u8; UHID_PAYLOAD_SIZE])
        ensures
            final(raw)@ == splice(old(raw)@, 0, self.spec_bytes()),
    {
        put_u16(raw, 0, self.size);
        put_bytes(raw, 2, &self.data, 4096);
        assert(self.data@.take(4096) =~= self.data@);
        assert(raw@ =~= splice(old(raw)@, 0, self.spec_bytes()));
    }
}

/// Payload for `UHID_OUTPUT` event carrying output reports from the kernel.
#[derive(Copy, Clone, Debug, PartialEq, Eq)]
pub struct uhid_output_req {
    /// Raw output report data buffer.
    pub data: [u8; UHID_DATA_MAX],
    /// Size of the valid output data in bytes.
    pub size: u16,
    /// Report type (`UHID_OUTPUT_REPORT`).
    pub rtype: u8,
}

impl uhid_output_req {
    /// The packed bytes of this structure.
    pub open spec fn spec_bytes(self) -> Seq<u8> {
        self.data@ + le16(self.size) + seq![self.rtype]
    }

    /// Reads this structure from the start of a payload.
    pub fn read_from(raw: &[u8; UHID_PAYLOAD_SIZE]) -> (r: Self)
        ensures
            r.data@ == raw@.subrange(0, 4096),
            r.size == u16_at(raw@, 4096),
            r.rtype == raw@[4098],
            r.spec_bytes() == raw@.subrange(0, 4099),
    {
        let r = uhid_output_req { data: get_array(raw, 0), size: get_u16(raw, 4096), rtype: raw[4098] };
        proof {
            lemma_u16_bytes_round_trip(raw@, 4096);
        }
        assert(r.spec_bytes() =~= raw@.subrange(0, 4099));
        r
    }

    /// Writes this structure at the start of a payload.
    pub fn write_to(&self, raw: &mut [u8; UHID_PAYLOAD_SIZE])
        ensures
            final(raw)@ == splice(old(raw)@, 0, self.spec_bytes()),
    {
        put_bytes(raw, 0, &self.data, 4096);
        put_u16(raw, 4096, self.size);
        put_u8(raw, 4098, self.rtype);
        assert(self.data@.take(4096) =~= self.data@);
        assert(raw@ =~= splice(old(raw)@, 0, self.spec_bytes()));
    }
}

/// Payload for legacy `UHID_OUTPUT_EV` event.
#[derive(Copy, Clone, Debug, PartialEq, Eq)]
pub struct uhid_output_ev_req {
    /// Event type (Linux input subsystem event type).
    pub type_: u16,
    /// Event code.
    pub code: u16,
    /// Event value.
    pub value: i32,
}

impl uhid_output_ev_req {
    /// The packed bytes of this structure.
    pub open spec fn spec_bytes(self) -> Seq<u8> {
        le16(self.type_) + le16(self.code) + le32(self.value as u32)
    }

    /// Reads this structure from the start of a payload.
    pub fn read_from(raw: &[u8; UHID_PAYLOAD_SIZE]) -> (r: Self)
        ensures
            r.type_ == u16_at(raw@, 0),
            r.code == u16_at(raw@, 2),
            r.value == u32_at(raw@, 4) as i32,
            r.spec_bytes() == raw@.subrange(0, 8),
    {
        let r = uhid_output_ev_req {
            type_: get_u16(raw, 0),
            code: get_u16(raw, 2),
            value: get_u32(raw, 4) as i32,
        };
        proof {
            lemma_u16_bytes_round_trip(raw@, 0);
            lemma_u16_bytes_round_trip(raw@, 2);
            lemma_u32_bytes_round_trip(raw@, 4);
            let x = u32_at(raw@, 4);
            assert((x as i32) as u32 == x) by (bit_vector);
        }
        assert(r.spec_bytes() =~= raw@.subrange(0, 8));
        r
    }

    /// Writes this structure at the start of a payload.
    pub fn write_to(&self, raw: &mut [u8; UHID_PAYLOAD_SIZE])
        ensures
            final(raw)@ == splice(old(raw)@, 0, self.spec_bytes()),
    {
        put_u16(raw, 0, self.type_);
        put_u16(raw, 2, self.code);
        put_u32(raw, 4, self.value as u32);
        assert(raw@ =~= splice(old(raw)@, 0, self.spec_bytes()));
    }
}

/// Payload for `UHID_GET_REPORT` event requesting a report from user space.
#[derive(Copy, Clone, Debug, PartialEq, Eq)]
pub struct uhid_get_report_req {
    /// Unique request ID.
    pub id: u32,
    /// Report number requested.
    pub rnum: u8,
    /// Report type requested.
    pub rtype: u8,
}

impl uhid_get_report_req {
    /// The packed bytes of this structure.
    pub open spec fn spec_bytes(self) -> Seq<u8> {
        le32(self.id) + seq![self.rnum, self.rtype]
    }

    /// Reads this structure from the start of a payload.
    pub fn read_from(raw: &[u8; UHID_PAYLOAD_SIZE]) -> (r: Self)
        ensures
            r.id == u32_at(raw@, 0),
            r.rnum == raw@[4],
            r.rtype == raw@[5],
            r.spec_bytes() == raw@.subrange(0, 6),
    {
        let r = uhid_get_report_req { id: get_u32(raw, 0), rnum: raw[4], rtype: raw[5] };
        proof {
            lemma_u32_bytes_round_trip(raw@, 0);
        }
        assert(r.spec_bytes() =~= raw@.subrange(0, 6));
        r
    }

    /// Writes this structure at the start of a payload.
    pub fn write_to(&self, raw: &mut [u8; UHID_PAYLOAD_SIZE])
        ensures
            final(raw)@ == splice(old(raw)@, 0, self.spec_bytes()),
    {
        put_u32(raw, 0, self.id);
        put_u8(raw, 4, self.rnum);
        put_u8(raw, 5, self.rtype);
        assert(raw@ =~= splice(old(raw)@, 0, self.spec_bytes()));
    }
}

/// Payload for `UHID_GET_REPORT_REPLY` response sent back to the kernel.
#[derive(Copy, Clone, Debug, PartialEq, Eq)]
pub struct uhid_get_report_reply_req {
    /// Request ID matching the `GET_REPORT` request.
    pub id: u32,
    /// Error code (0 on success, or standard errno on failure).
    pub err: u16,
    /// Size of the returned data.
    pub size: u16,
    /// Returned report data.
    pub data: [u8; UHID_DATA_MAX],
}

impl uhid_get_report_reply_req {
    /// The packed bytes of this structure.
    pub open spec fn spec_bytes(self) -> Seq<u8> {
        le32(self.id) + le16(self.err) + le16(self.size) + self.data@
    }

    /// Reads this structure from the start of a payload.
    pub fn read_from(raw: &[u8; UHID_PAYLOAD_SIZE]) -> (r: Self)
        ensures
            r.id == u32_at(raw@, 0),
            r.err == u16_at(raw@, 4),
            r.size == u16_at(raw@, 6),
            r.data@ == raw@.subrange(8, 4104),
            r.spec_bytes() == raw@.subrange(0, 4104),
    {
        let r = uhid_get_report_reply_req {
            id: get_u32(raw, 0),
            err: get_u16(raw, 4),
            size: get_u16(raw, 6),
            data: get_array(raw, 8),
        };
        proof {
            lemma_u32_bytes_round_trip(raw@, 0);
            lemma_u16_bytes_round_trip(raw@, 4);
            lemma_u16_bytes_round_trip(raw@, 6);
        }
        assert(r.spec_bytes() =~= raw@.subrange(0, 4104));
        r
    }

    /// Writes this structure at the start of a payload.
    pub fn write_to(&self, raw: &mut [u8; UHID_PAYLOAD_SIZE])
        ensures
            final(raw)@ == splice(old(raw)@, 0, self.spec_bytes()),
    {
        put_u32(raw, 0, self.id);
        put_u16(raw, 4, self.err);
        put_u16(raw, 6, self.size);
        put_bytes(raw, 8, &self.data, 4096);
        assert(self.data@.take(4096) =~= self.data@);
        assert(raw@ =~= splice(old(raw)@, 0, self.spec_bytes()));
    }
}

/// Payload for `UHID_SET_REPORT` event instructing user space to set a report on the device.
#[derive(Copy, Clone, Debug, PartialEq, Eq)]
pub struct uhid_set_report_req {
    /// Unique request ID.
    pub id: u32,
    /// Report number.
    pub rnum: u8,
    /// Report type.
    pub rtype: u8,
    /// Size of the data payload.
    pub size: u16,
    /// Data payload to set.
    pub data: [u8; UHID_DATA_MAX],
}

impl uhid_set_report_req {
    /// The packed bytes of this structure.
    pub open spec fn spec_bytes(self) -> Seq<u8> {
        le32(self.id) + seq![self.rnum, self.rtype] + le16(self.size) + self.data@
    }

    /// Reads this structure from the start of a payload.
    pub fn read_from(raw: &[u8; UHID_PAYLOAD_SIZE]) -> (r: Self)
        ensures
            r.id == u32_at(raw@, 0),
            r.rnum == raw@[4],
            r.rtype == raw@[5],
            r.size == u16_at(raw@, 6),
            r.data@ == raw@.subrange(8, 4104),
            r.spec_bytes() == raw@.subrange(0, 4104),
    {
        let r = uhid_set_report_req {
            id: get_u32(raw, 0),
            rnum: raw[4],
            rtype: raw[5],
            size: get_u16(raw, 6),
            data: get_array(raw, 8),
        };
        proof {
            lemma_u32_bytes_round_trip(raw@, 0);
            lemma_u16_bytes_round_trip(raw@, 6);
        }
        assert(r.spec_bytes() =~= raw@.subrange(0, 4104));
        r
    }

    /// Writes this structure at the start of a payload.
    pub fn write_to(&self, raw: &mut [u8; UHID_PAYLOAD_SIZE])
        ensures
            final(raw)@ == splice(old(raw)@, 0, self.spec_bytes()),
    {
        put_u32(raw, 0, self.id);
        put_u8(raw, 4, self.rnum);
        put_u8(raw, 5, self.rtype);
        put_u16(raw, 6, self.size);
        put_bytes(raw, 8, &self.data, 4096);
        assert(self.data@.take(4096) =~= self.data@);
        assert(raw@ =~= splice(old(raw)@, 0, self.spec_bytes()));
    }
}

/// Payload for `UHID_SET_REPORT_REPLY` response sent back to the kernel.
#[derive(Copy, Clone, Debug, PartialEq, Eq)]
pub struct uhid_set_report_reply_req {
    /// Request ID matching the `SET_REPORT` request.
    pub id: u32,
    /// Error code (0 on success, or standard errno on failure).
    pub err: u16,
}

impl uhid_set_report_reply_req {
    /// The packed bytes of this structure.
    pub open spec fn spec_bytes(self) -> Seq<u8> {
        le32(self.id) + le16(self.err)
    }

    /// Reads this structure from the start of a payload.
    pub fn read_from(raw: &[u8; UHID_PAYLOAD_SIZE]) -> (r: Self)
        ensures
            r.id == u32_at(raw@, 0),
            r.err == u16_at(raw@, 4),
            r.spec_bytes() == raw@.subrange(0, 6),
    {
        let r = uhid_set_report_reply_req { id: get_u32(raw, 0), err: get_u16(raw, 4) };
        proof {
            lemma_u32_bytes_round_trip(raw@, 0);
            lemma_u16_bytes_round_trip(raw@, 4);
        }
        assert(r.spec_bytes() =~= raw@.subrange(0, 6));
        r
    }

    /// Writes this structure at the start of a payload.
    pub fn write_to(&self, raw: &mut [u8; UHID_PAYLOAD_SIZE])
        ensures
            final(raw)@ == splice(old(raw)@, 0, self.spec_bytes()),
    {
        put_u32(raw, 0, self.id);
        put_u16(raw, 4, self.err);
        assert(raw@ =~= splice(old(raw)@, 0, self.spec_bytes()));
    }
}

/// Payload for legacy `UHID_FEATURE` request event.
#[derive(Copy, Clone, Debug, PartialEq, Eq)]
pub struct uhid_feature_req {
    /// Unique request ID.
    pub id: u32,
    /// Report number.
    pub rnum: u8,
    /// Report type.
    pub rtype: u8,
}

impl uhid_feature_req {
    /// The packed bytes of this structure.
    pub open spec fn spec_bytes(self) -> Seq<u8> {
        le32(self.id) + seq![self.rnum, self.rtype]
    }

    /// Reads this structure from the start of a payload.
    pub fn read_from(raw: &[u8; UHID_PAYLOAD_SIZE]) -> (r: Self)
        ensures
            r.id == u32_at(raw@, 0),
            r.rnum == raw@[4],
            r.rtype == raw@[5],
            r.spec_bytes() == raw@.subrange(0, 6),
    {
        let r = uhid_feature_req { id: get_u32(raw, 0), rnum: raw[4], rtype: raw[5] };
        proof {
            lemma_u32_bytes_round_trip(raw@, 0);
        }
        assert(r.spec_bytes() =~= raw@.subrange(0, 6));
        r
    }

    /// Writes this structure at the start of a payload.
    pub fn write_to(&self, raw: &mut [u8; UHID_PAYLOAD_SIZE])
        ensures
            final(raw)@ == splice(old(raw)@, 0, self.spec_bytes()),
    {
        put_u32(raw, 0, self.id);
        put_u8(raw, 4, self.rnum);
        put_u8(raw, 5, self.rtype);
        assert(raw@ =~= splice(old(raw)@, 0, self.spec_bytes()));
    }
}

/// Payload for legacy `UHID_FEATURE_ANSWER` reply event.
#[derive(Copy, Clone, Debug, PartialEq, Eq)]
pub struct uhid_feature_answer_req {
    /// Request ID matching the `FEATURE` request.
    pub id: u32,
    /// Error code (0 on success, or standard errno on failure).
    pub err: u16,
    /// Size of the data payload.
    pub size: u16,
    /// Feature report data payload.
    pub data: [u8; UHID_DATA_MAX],
}

impl uhid_feature_answer_req {
    /// The packed bytes of this structure.
    pub open spec fn spec_bytes(self) -> Seq<u8> {
        le32(self.id) + le16(self.err) + le16(self.size) + self.data@
    }

    /// Reads this structure from the start of a payload.
    pub fn read_from(raw: &[u8; UHID_PAYLOAD_SIZE]) -> (r: Self)
        ensures
            r.id == u32_at(raw@, 0),
            r.err == u16_at(raw@, 4),
            r.size == u16_at(raw@, 6),
            r.data@ == raw@.subrange(8, 4104),
            r.spec_bytes() == raw@.subrange(0, 4104),
    {
        let r = uhid_feature_answer_req {
            id: get_u32(raw, 0),
            err: get_u16(raw, 4),
            size: get_u16(raw, 6),
            data: get_array(raw, 8),
        };
        proof {
            lemma_u32_bytes_round_trip(raw@, 0);
            lemma_u16_bytes_round_trip(raw@, 4);
            lemma_u16_bytes_round_trip(raw@, 6);
        }
        assert(r.spec_bytes() =~= raw@.subrange(0, 4104));
        r
    }

    /// Writes this structure at the start of a payload.
    pub fn write_to(&self, raw: &mut [u8; UHID_PAYLOAD_SIZE])
        ensures
            final(raw)@ == splice(old(raw)@, 0, self.spec_bytes()),
    {
        put_u32(raw, 0, self.id);
        put_u16(raw, 4, self.err);
        put_u16(raw, 6, self.size);
        put_bytes(raw, 8, &self.data, 4096);
        assert(self.data@.take(4096) =~= self.data@);
        assert(raw@ =~= splice(old(raw)@, 0, self.spec_bytes()));
    }
}

/// Union of all possible UHID event payloads, held as its raw bytes.
///
/// Reading a member interprets the bytes at offset zero as that structure;
/// writing a member overwrites those bytes and leaves the rest as they were.
#[derive(Copy, Clone)]
pub struct uhid_event_payload {
    /// The raw bytes of the union.
    pub raw: [u8; UHID_PAYLOAD_SIZE],
}

impl uhid_event_payload {
    /// A payload whose bytes are all zero.
    pub fn zeroed() -> (r: Self)
        ensures
            r.raw@ == zeros(UHID_PAYLOAD_SIZE as nat),
    {
        let r = uhid_event_payload { raw: [0u8; UHID_PAYLOAD_SIZE] };
        assert(r.raw@ =~= zeros(UHID_PAYLOAD_SIZE as nat));
        r
    }

    /// Reads the member `output`: output report payload.
    pub fn output(&self) -> (r: uhid_output_req)
        ensures
            r.data@ == self.raw@.subrange(0, 4096),
            r.size == u16_at(self.raw@, 4096),
            r.rtype == self.raw@[4098],
            r.spec_bytes() == self.raw@.subrange(0, 4099),
    {
        uhid_output_req::read_from(&self.raw)
    }

    /// Writes the member `output`: output report payload.
    pub fn write_output(&mut self, value: uhid_output_req)
        ensures
            final(self).raw@ == splice(old(self).raw@, 0, value.spec_bytes()),
    {
        value.write_to(&mut self.raw);
    }

    /// Reads the member `output_ev`: legacy output event payload.
    pub fn output_ev(&self) -> (r: uhid_output_ev_req)
        ensures
            r.type_ == u16_at(self.raw@, 0),
            r.code == u16_at(self.raw@, 2),
            r.value == u32_at(self.raw@, 4) as i32,
            r.spec_bytes() == self.raw@.subrange(0, 8),
    {
        uhid_output_ev_req::read_from(&self.raw)
    }

    /// Writes the member `output_ev`: legacy output event payload.
    pub fn write_output_ev(&mut self, value: uhid_output_ev_req)
        ensures
            final(self).raw@ == splice(old(self).raw@, 0, value.spec_bytes()),
    {
        value.write_to(&mut self.raw);
    }

    /// Reads the member `feature`: legacy feature request payload.
    pub fn feature(&self) -> (r: uhid_feature_req)
        ensures
            r.id == u32_at(self.raw@, 0),
            r.rnum == self.raw@[4],
            r.rtype == self.raw@[5],
            r.spec_bytes() == self.raw@.subrange(0, 6),
    {
        uhid_feature_req::read_from(&self.raw)
    }

    /// Writes the member `feature`: legacy feature request payload.
    pub fn write_feature(&mut self, value: uhid_feature_req)
        ensures
            final(self).raw@ == splice(old(self).raw@, 0, value.spec_bytes()),
    {
        value.write_to(&mut self.raw);
    }

    /// Reads the member `get_report`: get report request payload.
    pub fn get_report(&self) -> (r: uhid_get_report_req)
        ensures
            r.id == u32_at(self.raw@, 0),
            r.rnum == self.raw@[4],
            r.rtype == self.raw@[5],
            r.spec_bytes() == self.raw@.subrange(0, 6),
    {
        uhid_get_report_req::read_from(&self.raw)
    }

    /// Writes the member `get_report`: get report request payload.
    pub fn write_get_report(&mut self, value: uhid_get_report_req)
        ensures
            final(self).raw@ == splice(old(self).raw@, 0, value.spec_bytes()),
    {
        value.write_to(&mut self.raw);
    }

    /// Reads the member `feature_answer`: legacy feature reply payload.
    pub fn feature_answer(&self) -> (r: uhid_feature_answer_req)
        ensures
            r.id == u32_at(self.raw@, 0),
            r.err == u16_at(self.raw@, 4),
            r.size == u16_at(self.raw@, 6),
            r.data@ == self.raw@.subrange(8, 4104),
            r.spec_bytes() == self.raw@.subrange(0, 4104),
    {
        uhid_feature_answer_req::read_from(&self.raw)
    }

    /// Writes the member `feature_answer`: legacy feature reply payload.
    pub fn write_feature_answer(&mut self, value: uhid_feature_answer_req)
        ensures
            final(self).raw@ == splice(old(self).raw@, 0, value.spec_bytes()),
    {
        value.write_to(&mut self.raw);
    }

    /// Reads the member `get_report_reply`: get report reply payload.
    pub fn get_report_reply(&self) -> (r: uhid_get_report_reply_req)
        ensures
            r.id == u32_at(self.raw@, 0),
            r.err == u16_at(self.raw@, 4),
            r.size == u16_at(self.raw@, 6),
            r.data@ == self.raw@.subrange(8, 4104),
            r.spec_bytes() == self.raw@.subrange(0, 4104),
    {
        uhid_get_report_reply_req::read_from(&self.raw)
    }

    /// Writes the member `get_report_reply`: get report reply payload.
    pub fn write_get_report_reply(&mut self, value: uhid_get_report_reply_req)
        ensures
            final(self).raw@ == splice(old(self).raw@, 0, value.spec_bytes()),
    {
        value.write_to(&mut self.raw);
    }

    /// Reads the member `create2`: create virtual device payload (v2).
    pub fn create2(&self) -> (r: uhid_create2_req)
        ensures
            r.name@ == self.raw@.subrange(0, 128),
            r.phys@ == self.raw@.subrange(128, 192),
            r.uniq@ == self.raw@.subrange(192, 256),
            r.rd_size == u16_at(self.raw@, 256),
            r.bus == u16_at(self.raw@, 258),
            r.vendor == u32_at(self.raw@, 260),
            r.product == u32_at(self.raw@, 264),
            r.version == u32_at(self.raw@, 268),
            r.country == u32_at(self.raw@, 272),
            r.rd_data@ == self.raw@.subrange(276, 4372),
            r.spec_bytes() == self.raw@.subrange(0, 4372),
    {
        uhid_create2_req::read_from(&self.raw)
    }

    /// Writes the member `create2`: create virtual device payload (v2).
    pub fn write_create2(&mut self, value: uhid_create2_req)
        ensures
            final(self).raw@ == splice(old(self).raw@, 0, value.spec_bytes()),
    {
        value.write_to(&mut self.raw);
    }

    /// Reads the member `input2`: input report payload (v2).
    pub fn input2(&self) -> (r: uhid_input2_req)
        ensures
            r.size == u16_at(self.raw@, 0),
            r.data@ == self.raw@.subrange(2, 4098),
            r.spec_bytes() == self.raw@.subrange(0, 4098),
    {
        uhid_input2_req::read_from(&self.raw)
    }

    /// Writes the member `input2`: input report payload (v2).
    pub fn write_input2(&mut self, value: uhid_input2_req)
        ensures
            final(self).raw@ == splice(old(self).raw@, 0, value.spec_bytes()),
    {
        value.write_to(&mut self.raw);
    }

    /// Reads the member `set_report`: set report request payload.
    pub fn set_report(&self) -> (r: uhid_set_report_req)
        ensures
            r.id == u32_at(self.raw@, 0),
            r.rnum == self.raw@[4],
            r.rtype == self.raw@[5],
            r.size == u16_at(self.raw@, 6),
            r.data@ == self.raw@.subrange(8, 4104),
            r.spec_bytes() == self.raw@.subrange(0, 4104),
    {
        uhid_set_report_req::read_from(&self.raw)
    }

    /// Writes the member `set_report`: set report request payload.
    pub fn write_set_report(&mut self, value: uhid_set_report_req)
        ensures
            final(self).raw@ == splice(old(self).raw@, 0, value.spec_bytes()),
    {
        value.write_to(&mut self.raw);
    }

    /// Reads the member `set_report_reply`: set report reply payload.
    pub fn set_report_reply(&self) -> (r: uhid_set_report_reply_req)
        ensures
            r.id == u32_at(self.raw@, 0),
            r.err == u16_at(self.raw@, 4),
            r.spec_bytes() == self.raw@.subrange(0, 6),
    {
        uhid_set_report_reply_req::read_from(&self.raw)
    }

    /// Writes the member `set_report_reply`: set report reply payload.
    pub fn write_set_report_reply(&mut self, value: uhid_set_report_reply_req)
        ensures
            final(self).raw@ == splice(old(self).raw@, 0, value.spec_bytes()),
    {
        value.write_to(&mut self.raw);
    }

    /// Reads the member `start`: start device payload.
    pub fn start(&self) -> (r: uhid_start_req)
        ensures
            r.dev_flags == u64_at(self.raw@, 0),
            r.spec_bytes() == self.raw@.subrange(0, 8),
    {
        uhid_start_req::read_from(&self.raw)
    }

    /// Writes the member `start`: start device payload.
    pub fn write_start(&mut self, value: uhid_start_req)
        ensures
            final(self).raw@ == splice(old(self).raw@, 0, value.spec_bytes()),
    {
        value.write_to(&mut self.raw);
    }
}

impl Default for uhid_event_payload {
    fn default() -> (r: Self)
        ensures
            r.raw@ == zeros(UHID_PAYLOAD_SIZE as nat),
    {
        Self::zeroed()
    }
}

/// Main C ABI event structure transferred to and from `/dev/uhid`.
#[derive(Copy, Clone)]
pub struct uhid_event {
    /// Event type identifier (one of `UHID_EVENT_TYPE_*`).
    pub type_: u32,
    /// Variant payload depending on `type_`.
    pub u: uhid_event_payload,
}

impl uhid_event {
    /// The packed bytes of this event: the type, then the payload.
    pub open spec fn spec_bytes(self) -> Seq<u8> {
        le32(self.type_) + self.u.raw@
    }

    /// The bytes of this event as they travel to and from `/dev/uhid`.
    pub fn to_bytes(&self) -> (r: [u8; UHID_EVENT_SIZE])
        ensures
            r@ == self.spec_bytes(),
    {
        let mut r = [0u8; UHID_EVENT_SIZE];
        put_u32(&mut r, 0, self.type_);
        put_bytes(&mut r, 4, &self.u.raw, UHID_PAYLOAD_SIZE);
        assert(self.u.raw@.take(UHID_PAYLOAD_SIZE as int) =~= self.u.raw@);
        assert(r@ =~= self.spec_bytes());
        r
    }

    /// The event that the given bytes hold.
    pub fn from_bytes(src: &[u8; UHID_EVENT_SIZE]) -> (r: Self)
        ensures
            r.type_ == u32_at(src@, 0),
            r.u.raw@ == src@.subrange(4, 4376),
    {
        uhid_event { type_: get_u32(src, 0), u: uhid_event_payload { raw: get_array(src, 4) } }
    }
}

impl Default for uhid_event {
    fn default() -> (r: Self)
        ensures
            r.type_ == 0,
            r.u.raw@ == zeros(UHID_PAYLOAD_SIZE as nat),
    {
        uhid_event { type_: 0, u: uhid_event_payload::zeroed() }
    }
}

} // verus!
