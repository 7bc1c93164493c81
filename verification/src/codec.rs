//! Codec definitions for encoding and decoding Linux UHID events.

use vstd::prelude::*;
use vstd::utf8::encode_utf8;

use crate::layout::{
    fill_field, fixed_field, lemma_splice_zeros, le16, le32, u16_at, u32_at, u64_at, zeros,
};
use crate::sys;
use crate::uhid_device::CreateParams;

verus! {

/// Fixed size in bytes of a raw `sys::uhid_event` struct.
pub const UHID_EVENT_SIZE: usize = 4376;

/// Declares `std::io::Error` to Verus as an opaque type, so that the errors of
/// the byte stream can be carried through; nothing is assumed about its values.
#[verifier::external_type_specification]
#[verifier::external_body]
pub struct ExIoError(std::io::Error);

/// Errors that can occur when reading or decoding events from `/dev/uhid`.
#[derive(Debug)]
pub enum StreamError {
    /// Standard I/O error when reading from or writing to the device handle.
    Io(std::io::Error),
    /// Unrecognized or unsupported event type received from the kernel.
    UnknownEventType(u32),
}

/// Each of these flags defines whether a given report-type uses numbered reports.
///
/// If numbered reports are used for a type, all messages from the kernel already have the report-number as prefix.
/// Otherwise, no prefix is added by the kernel.
#[derive(Debug, Copy, Clone, PartialEq, Eq, Hash)]
pub enum DevFlags {
    /// Feature reports use numbered report IDs.
    FeatureReportsNumbered,
    /// Output reports use numbered report IDs.
    OutputReportsNumbered,
    /// Input reports use numbered report IDs.
    InputReportsNumbered,
}

/// The flags whose bits are set in `bits`, in declaration order; other bits are ignored.
pub open spec fn flags_of(bits: u64) -> Seq<DevFlags> {
    (if bits & sys::UHID_DEV_NUMBERED_FEATURE_REPORTS != 0 {
        seq![DevFlags::FeatureReportsNumbered]
    } else {
        Seq::empty()
    }) + (if bits & sys::UHID_DEV_NUMBERED_OUTPUT_REPORTS != 0 {
        seq![DevFlags::OutputReportsNumbered]
    } else {
        Seq::empty()
    }) + (if bits & sys::UHID_DEV_NUMBERED_INPUT_REPORTS != 0 {
        seq![DevFlags::InputReportsNumbered]
    } else {
        Seq::empty()
    })
}

impl DevFlags {
    /// The bitmask value of this flag.
    pub open spec fn spec_bits(self) -> u64 {
        match self {
            DevFlags::FeatureReportsNumbered => sys::UHID_DEV_NUMBERED_FEATURE_REPORTS,
            DevFlags::OutputReportsNumbered => sys::UHID_DEV_NUMBERED_OUTPUT_REPORTS,
            DevFlags::InputReportsNumbered => sys::UHID_DEV_NUMBERED_INPUT_REPORTS,
        }
    }

    /// Returns the bitmask value for this flag.
    pub fn bits(self) -> (r: u64)
        ensures
            r == self.spec_bits(),
    {
        match self {
            DevFlags::FeatureReportsNumbered => sys::UHID_DEV_NUMBERED_FEATURE_REPORTS,
            DevFlags::OutputReportsNumbered => sys::UHID_DEV_NUMBERED_OUTPUT_REPORTS,
            DevFlags::InputReportsNumbered => sys::UHID_DEV_NUMBERED_INPUT_REPORTS,
        }
    }

    /// Extracts all recognized `DevFlags` from the given bitmask into a `Vec<DevFlags>`.
    pub fn from_bits_truncate(bits: u64) -> (r: Vec<DevFlags>)
        ensures
            r@ == flags_of(bits),
    {
        let mut flags = Vec::new();
        if bits & sys::UHID_DEV_NUMBERED_FEATURE_REPORTS != 0 {
            flags.push(DevFlags::FeatureReportsNumbered);
        }
        if bits & sys::UHID_DEV_NUMBERED_OUTPUT_REPORTS != 0 {
            flags.push(DevFlags::OutputReportsNumbered);
        }
        if bits & sys::UHID_DEV_NUMBERED_INPUT_REPORTS != 0 {
            flags.push(DevFlags::InputReportsNumbered);
        }
        assert(flags@ =~= flags_of(bits));
        flags
    }
}

/// HID report types used in `GetReport` and `SetReport` requests.
///
/// See <https://www.kernel.org/doc/html/latest/hid/uhid.html#read>.
#[derive(Debug, Copy, Clone, PartialEq, Eq, Hash)]
pub enum ReportType {
    /// Feature report.
    Feature,
    /// Output report.
    Output,
    /// Input report.
    Input,
}

/// The report type that the raw value `value` stands for, if any.
pub open spec fn report_type_of(value: u8) -> Option<ReportType> {
    if value == sys::UHID_REPORT_TYPE_UHID_FEATURE_REPORT {
        Some(ReportType::Feature)
    } else if value == sys::UHID_REPORT_TYPE_UHID_OUTPUT_REPORT {
        Some(ReportType::Output)
    } else if value == sys::UHID_REPORT_TYPE_UHID_INPUT_REPORT {
        Some(ReportType::Input)
    } else {
        None
    }
}

impl ReportType {
    /// The raw value of this report type.
    pub open spec fn spec_code(self) -> u8 {
        match self {
            ReportType::Feature => sys::UHID_REPORT_TYPE_UHID_FEATURE_REPORT,
            ReportType::Output => sys::UHID_REPORT_TYPE_UHID_OUTPUT_REPORT,
            ReportType::Input => sys::UHID_REPORT_TYPE_UHID_INPUT_REPORT,
        }
    }

    /// Returns the raw value of this report type.
    pub fn code(self) -> (r: u8)
        ensures
            r == self.spec_code(),
    {
        match self {
            ReportType::Feature => sys::UHID_REPORT_TYPE_UHID_FEATURE_REPORT,
            ReportType::Output => sys::UHID_REPORT_TYPE_UHID_OUTPUT_REPORT,
            ReportType::Input => sys::UHID_REPORT_TYPE_UHID_INPUT_REPORT,
        }
    }

    /// The result of converting the raw value `value`.
    pub open spec fn spec_try_from(value: u8) -> Result<ReportType, StreamError> {
        match report_type_of(value) {
            Some(t) => Ok(t),
            None => Err(StreamError::UnknownEventType(value as u32)),
        }
    }
}

impl TryFrom<u8> for ReportType {
    type Error = StreamError;

    /// Attempts to convert a raw numeric report type into a [`ReportType`].
    ///
    /// # Errors
    ///
    /// Returns [`StreamError::UnknownEventType`] if the value does not correspond to a valid report type.
    fn try_from(value: u8) -> (r: Result<Self, Self::Error>)
        ensures
            r == ReportType::spec_try_from(value),
    {
        if value == sys::UHID_REPORT_TYPE_UHID_FEATURE_REPORT {
            Ok(ReportType::Feature)
        } else if value == sys::UHID_REPORT_TYPE_UHID_OUTPUT_REPORT {
            Ok(ReportType::Output)
        } else if value == sys::UHID_REPORT_TYPE_UHID_INPUT_REPORT {
            Ok(ReportType::Input)
        } else {
            Err(StreamError::UnknownEventType(value as u32))
        }
    }
}

impl vstd::std_specs::convert::TryFromSpecImpl<u8> for ReportType {
    open spec fn obeys_try_from_spec() -> bool {
        true
    }

    open spec fn try_from_spec(value: u8) -> Result<Self, StreamError> {
        ReportType::spec_try_from(value)
    }
}

/// Hardware bus type identifier for the virtual HID device.
///
/// See <https://elixir.bootlin.com/linux/latest/ident/BUS_INTEL_ISHTP>.
#[derive(Debug, Copy, Clone, PartialEq, Eq, Hash)]
#[allow(non_camel_case_types, clippy::upper_case_acronyms)]
pub enum Bus {
    /// PCI bus.
    PCI,
    /// ISA Plug-and-Play bus.
    ISAPNP,
    /// Universal Serial Bus.
    USB,
    /// Hewlett-Packard Interface Loop.
    HIL,
    /// Bluetooth transport.
    BLUETOOTH,
    /// Virtual bus.
    VIRTUAL,
    /// Industry Standard Architecture bus.
    ISA,
    /// Intel 8042 keyboard/mouse controller.
    I8042,
    /// IBM PC/XT keyboard controller.
    XTKBD,
    /// RS-232 serial port.
    RS232,
    /// Gameport connector.
    GAMEPORT,
    /// Parallel printer port.
    PARPORT,
    /// Commodore Amiga bus.
    AMIGA,
    /// Apple Desktop Bus.
    ADB,
    /// Inter-Integrated Circuit bus.
    I2C,
    /// Host bus adapter.
    HOST,
    /// GSC bus.
    GSC,
    /// Atari keyboard bus.
    ATARI,
    /// Serial Peripheral Interface bus.
    SPI,
    /// Synaptics RMI bus.
    RMI,
    /// Consumer Electronics Control bus.
    CEC,
    /// Intel Integrated Sensor Hub transport.
    INTEL_ISHTP,
}

impl Bus {
    /// The kernel's numeric identifier of this bus.
    pub open spec fn spec_code(self) -> u16 {
        match self {
            Bus::PCI => 1,
            Bus::ISAPNP => 2,
            Bus::USB => 3,
            Bus::HIL => 4,
            Bus::BLUETOOTH => 5,
            Bus::VIRTUAL => 6,
            Bus::ISA => 16,
            Bus::I8042 => 17,
            Bus::XTKBD => 18,
            Bus::RS232 => 19,
            Bus::GAMEPORT => 20,
            Bus::PARPORT => 21,
            Bus::AMIGA => 22,
            Bus::ADB => 23,
            Bus::I2C => 24,
            Bus::HOST => 25,
            Bus::GSC => 26,
            Bus::ATARI => 27,
            Bus::SPI => 28,
            Bus::RMI => 29,
            Bus::CEC => 30,
            Bus::INTEL_ISHTP => 31,
        }
    }

    /// Returns the kernel's numeric identifier of this bus.
    pub fn code(self) -> (r: u16)
        ensures
            r == self.spec_code(),
    {
        match self {
            Bus::PCI => 1,
            Bus::ISAPNP => 2,
            Bus::USB => 3,
            Bus::HIL => 4,
            Bus::BLUETOOTH => 5,
            Bus::VIRTUAL => 6,
            Bus::ISA => 16,
            Bus::I8042 => 17,
            Bus::XTKBD => 18,
            Bus::RS232 => 19,
            Bus::GAMEPORT => 20,
            Bus::PARPORT => 21,
            Bus::AMIGA => 22,
            Bus::ADB => 23,
            Bus::I2C => 24,
            Bus::HOST => 25,
            Bus::GSC => 26,
            Bus::ATARI => 27,
            Bus::SPI => 28,
            Bus::RMI => 29,
            Bus::CEC => 30,
            Bus::INTEL_ISHTP => 31,
        }
    }
}

/// Events sent from user space to `/dev/uhid`.
///
/// See <https://www.kernel.org/doc/html/latest/hid/uhid.html#write>.
pub enum InputEvent<'a> {
    /// Create and register a virtual HID device with the kernel.
    Create(CreateParams),
    /// Destroy the virtual HID device.
    Destroy,
    /// Send an input report data payload from user space to the kernel.
    Input {
        /// Raw report bytes.
        data: &'a [u8],
    },
    /// Send an output report.
    Output {
        /// Raw output report bytes.
        data: Vec<u8>,
    },
    /// Send a legacy input event.
    OutputEv {
        /// Linux input event type.
        type_: u16,
        /// Linux input event code.
        code: u16,
        /// Linux input event value.
        value: i32,
    },
    /// Reply to a `GetReport` request received from the kernel.
    GetReportReply {
        /// Request ID matching the original `GetReport` request.
        id: u32,
        /// Error status (0 for success).
        err: u16,
        /// Report data payload.
        data: Vec<u8>,
    },
    /// Reply to a `SetReport` request received from the kernel.
    SetReportReply {
        /// Request ID matching the original `SetReport` request.
        id: u32,
        /// Error status (0 for success).
        err: u16,
    },
    /// Legacy feature request.
    Feature {
        /// Request ID.
        id: u32,
        /// Report number.
        report_num: u8,
    },
    /// Legacy feature answer.
    FeatureAnswer {
        /// Request ID matching the original request.
        id: u32,
        /// Error status (0 for success).
        err: u16,
        /// Feature report data payload.
        data: Vec<u8>,
    },
    /// Set a report on the virtual device.
    SetReport {
        /// Request ID.
        id: u32,
        /// Report number.
        report_num: u8,
        /// Report data payload.
        data: Vec<u8>,
    },
}

/// How many bytes of `data` an event carries: all of them, up to `UHID_DATA_MAX`.
pub open spec fn data_len(data: Seq<u8>) -> nat {
    if data.len() <= sys::UHID_DATA_MAX {
        data.len()
    } else {
        sys::UHID_DATA_MAX as nat
    }
}

/// The packed `uhid_create2_req` bytes that describe a device to create.
pub open spec fn create2_bytes(p: CreateParams) -> Seq<u8> {
    fixed_field(encode_utf8(p.name@), 128) + fixed_field(encode_utf8(p.phys@), 64) + fixed_field(
        encode_utf8(p.uniq@),
        64,
    ) + le16(data_len(p.rd_data@) as u16) + le16(p.bus.spec_code()) + le32(p.vendor) + le32(
        p.product,
    ) + le32(p.version) + le32(p.country) + fixed_field(
        p.rd_data@,
        sys::HID_MAX_DESCRIPTOR_SIZE as nat,
    )
}

impl<'a> InputEvent<'a> {
    /// The event type that this event is sent with.
    pub open spec fn spec_type(self) -> u32 {
        match self {
            InputEvent::Create(_) => sys::UHID_EVENT_TYPE_UHID_CREATE2,
            InputEvent::Destroy => sys::UHID_EVENT_TYPE_UHID_DESTROY,
            InputEvent::Input { .. } => sys::UHID_EVENT_TYPE_UHID_INPUT2,
            InputEvent::Output { .. } => sys::UHID_EVENT_TYPE_UHID_OUTPUT,
            InputEvent::OutputEv { .. } => sys::UHID_LEGACY_EVENT_TYPE_UHID_OUTPUT_EV,
            InputEvent::GetReportReply { .. } => sys::UHID_EVENT_TYPE_UHID_GET_REPORT_REPLY,
            InputEvent::SetReportReply { .. } => sys::UHID_EVENT_TYPE_UHID_SET_REPORT_REPLY,
            InputEvent::Feature { .. } => sys::UHID_LEGACY_EVENT_TYPE_UHID_FEATURE,
            InputEvent::FeatureAnswer { .. } => sys::UHID_LEGACY_EVENT_TYPE_UHID_FEATURE_ANSWER,
            InputEvent::SetReport { .. } => sys::UHID_EVENT_TYPE_UHID_SET_REPORT,
        }
    }

    /// The packed bytes of the payload member that this event fills in, before
    /// the payload is padded with zeros to its full size.
    pub open spec fn spec_member_bytes(self) -> Seq<u8> {
        match self {
            InputEvent::Create(p) => create2_bytes(p),
            InputEvent::Destroy => Seq::empty(),
            InputEvent::Input { data } => le16(data_len(data@) as u16) + fixed_field(
                data@,
                sys::UHID_DATA_MAX as nat,
            ),
            InputEvent::Output { data } => fixed_field(data@, sys::UHID_DATA_MAX as nat) + le16(
                data_len(data@) as u16,
            ) + seq![sys::UHID_REPORT_TYPE_UHID_OUTPUT_REPORT],
            InputEvent::OutputEv { type_, code, value } => le16(type_) + le16(code) + le32(
                value as u32,
            ),
            InputEvent::GetReportReply { id, err, data } => le32(id) + le16(err) + le16(
                data_len(data@) as u16,
            ) + fixed_field(data@, sys::UHID_DATA_MAX as nat),
            InputEvent::SetReportReply { id, err } => le32(id) + le16(err),
            InputEvent::Feature { id, report_num } => le32(id) + seq![
                report_num,
                sys::UHID_REPORT_TYPE_UHID_INPUT_REPORT,
            ],
            InputEvent::FeatureAnswer { id, err, data } => le32(id) + le16(err) + le16(
                data_len(data@) as u16,
            ) + fixed_field(data@, sys::UHID_DATA_MAX as nat),
            InputEvent::SetReport { id, report_num, data } => le32(id) + seq![
                report_num,
                sys::UHID_REPORT_TYPE_UHID_INPUT_REPORT,
            ] + le16(data_len(data@) as u16) + fixed_field(data@, sys::UHID_DATA_MAX as nat),
        }
    }

    /// The bytes of the payload that this event is sent with.
    pub open spec fn spec_payload(self) -> Seq<u8> {
        fixed_field(self.spec_member_bytes(), sys::UHID_PAYLOAD_SIZE as nat)
    }

    /// The bytes that this event is sent as: its type, then its payload.
    pub open spec fn spec_bytes(self) -> Seq<u8> {
        le32(self.spec_type()) + self.spec_payload()
    }
}

/// How many of `len` bytes an event carries.
fn clamp_data_len(len: usize) -> (r: usize)
    ensures
        r == (if len <= sys::UHID_DATA_MAX {
            len
        } else {
            sys::UHID_DATA_MAX
        }),
{
    if len <= sys::UHID_DATA_MAX {
        len
    } else {
        sys::UHID_DATA_MAX
    }
}

/// The raw event whose type and payload bytes are the given ones.
pub open spec fn event_with(type_: u32, payload: Seq<u8>) -> sys::uhid_event {
    choose|e: sys::uhid_event| e.type_ == type_ && e.u.raw@ == payload
}

impl<'a> From<InputEvent<'a>> for sys::uhid_event {
    fn from(input: InputEvent<'a>) -> (event: Self)
        ensures
            event.type_ == input.spec_type(),
            event.u.raw@ == input.spec_payload(),
    {
        let ghost member = input.spec_member_bytes();
        let mut event = sys::uhid_event::default();
        match input {
            InputEvent::Create(params) => {
                event.type_ = sys::UHID_EVENT_TYPE_UHID_CREATE2;
                let rd_len = clamp_data_len(params.rd_data.len());
                let req = sys::uhid_create2_req {
                    name: fill_field(params.name.as_str().as_bytes()),
                    phys: fill_field(params.phys.as_str().as_bytes()),
                    uniq: fill_field(params.uniq.as_str().as_bytes()),
                    rd_size: rd_len as u16,
                    bus: params.bus.code(),
                    vendor: params.vendor,
                    product: params.product,
                    version: params.version,
                    country: params.country,
                    rd_data: fill_field(params.rd_data.as_slice()),
                };
                event.u.write_create2(req);
                assert(req.spec_bytes() =~= member);
            },
            InputEvent::Destroy => {
                event.type_ = sys::UHID_EVENT_TYPE_UHID_DESTROY;
                assert(event.u.raw@ =~= fixed_field(member, sys::UHID_PAYLOAD_SIZE as nat));
            },
            InputEvent::Input { data } => {
                event.type_ = sys::UHID_EVENT_TYPE_UHID_INPUT2;
                let len = clamp_data_len(data.len());
                let req = sys::uhid_input2_req { size: len as u16, data: fill_field(data) };
                event.u.write_input2(req);
                assert(req.spec_bytes() =~= member);
            },
            InputEvent::Output { data } => {
                event.type_ = sys::UHID_EVENT_TYPE_UHID_OUTPUT;
                let len = clamp_data_len(data.len());
                let req = sys::uhid_output_req {
                    data: fill_field(data.as_slice()),
                    size: len as u16,
                    rtype: sys::UHID_REPORT_TYPE_UHID_OUTPUT_REPORT,
                };
                event.u.write_output(req);
                assert(req.spec_bytes() =~= member);
            },
            InputEvent::OutputEv { type_, code, value } => {
                event.type_ = sys::UHID_LEGACY_EVENT_TYPE_UHID_OUTPUT_EV;
                let req = sys::uhid_output_ev_req { type_, code, value };
                event.u.write_output_ev(req);
                assert(req.spec_bytes() =~= member);
            },
            InputEvent::GetReportReply { id, err, data } => {
                event.type_ = sys::UHID_EVENT_TYPE_UHID_GET_REPORT_REPLY;
                let len = clamp_data_len(data.len());
                let req = sys::uhid_get_report_reply_req {
                    id,
                    err,
                    size: len as u16,
                    data: fill_field(data.as_slice()),
                };
                event.u.write_get_report_reply(req);
                assert(req.spec_bytes() =~= member);
            },
            InputEvent::SetReportReply { id, err } => {
                event.type_ = sys::UHID_EVENT_TYPE_UHID_SET_REPORT_REPLY;
                let req = sys::uhid_set_report_reply_req { id, err };
                event.u.write_set_report_reply(req);
                assert(req.spec_bytes() =~= member);
            },
            InputEvent::Feature { id, report_num } => {
                event.type_ = sys::UHID_LEGACY_EVENT_TYPE_UHID_FEATURE;
                let req = sys::uhid_feature_req {
                    id,
                    rnum: report_num,
                    rtype: sys::UHID_REPORT_TYPE_UHID_INPUT_REPORT,
                };
                event.u.write_feature(req);
                assert(req.spec_bytes() =~= member);
            },
            InputEvent::FeatureAnswer { id, err, data } => {
                event.type_ = sys::UHID_LEGACY_EVENT_TYPE_UHID_FEATURE_ANSWER;
                let len = clamp_data_len(data.len());
                let req = sys::uhid_feature_answer_req {
                    id,
                    err,
                    size: len as u16,
                    data: fill_field(data.as_slice()),
                };
                event.u.write_feature_answer(req);
                assert(req.spec_bytes() =~= member);
            },
            InputEvent::SetReport { id, report_num, data } => {
                event.type_ = sys::UHID_EVENT_TYPE_UHID_SET_REPORT;
                let len = clamp_data_len(data.len());
                let req = sys::uhid_set_report_req {
                    id,
                    rnum: report_num,
                    rtype: sys::UHID_REPORT_TYPE_UHID_INPUT_REPORT,
                    size: len as u16,
                    data: fill_field(data.as_slice()),
                };
                event.u.write_set_report(req);
                assert(req.spec_bytes() =~= member);
            },
        }
        proof {
            lemma_splice_zeros(member, sys::UHID_PAYLOAD_SIZE as nat);
            assert(event.u.raw =~= event_with(input.spec_type(), input.spec_payload()).u.raw);
        }
        event
    }
}

impl<'a> vstd::std_specs::convert::FromSpecImpl<InputEvent<'a>> for sys::uhid_event {
    open spec fn obeys_from_spec() -> bool {
        true
    }

    open spec fn from_spec(input: InputEvent<'a>) -> Self {
        event_with(input.spec_type(), input.spec_payload())
    }
}

/// The array of event bytes whose contents are `bytes`.
pub open spec fn event_bytes_with(bytes: Seq<u8>) -> [u8; UHID_EVENT_SIZE] {
    choose|a: [u8; UHID_EVENT_SIZE]| a@ == bytes
}

impl<'a> From<InputEvent<'a>> for [u8; UHID_EVENT_SIZE] {
    fn from(input: InputEvent<'a>) -> (r: Self)
        ensures
            r@ == input.spec_bytes(),
    {
        let ghost bytes = input.spec_bytes();
        let event: sys::uhid_event = sys::uhid_event::from(input);
        let r = event.to_bytes();
        assert(r =~= event_bytes_with(bytes));
        r
    }
}

impl<'a> vstd::std_specs::convert::FromSpecImpl<InputEvent<'a>> for [u8; UHID_EVENT_SIZE] {
    open spec fn obeys_from_spec() -> bool {
        true
    }

    open spec fn from_spec(input: InputEvent<'a>) -> Self {
        event_bytes_with(input.spec_bytes())
    }
}

/// Events read from `/dev/uhid` emitted by the Linux kernel.
///
/// See <https://www.kernel.org/doc/html/latest/hid/uhid.html#read>.
#[derive(Debug, Clone, PartialEq, Eq)]
pub enum OutputEvent {
    /// Start event indicating device flags.
    Start {
        /// List of active device flags.
        dev_flags: Vec<DevFlags>,
    },
    /// Stop event indicating the kernel has stopped the device.
    Stop,
    /// Open event indicating a user space hidraw client opened the device.
    Open,
    /// Close event indicating the last user space hidraw client closed the device.
    Close,
    /// Output report received from the kernel.
    Output {
        /// Raw output report bytes.
        data: Vec<u8>,
    },
    /// `GetReport` request received from the kernel.
    GetReport {
        /// Request identifier to include in the reply.
        id: u32,
        /// Requested report number.
        report_number: u8,
        /// Requested report type.
        report_type: ReportType,
    },
    /// `SetReport` request received from the kernel.
    SetReport {
        /// Request identifier to include in the reply.
        id: u32,
        /// Report number.
        report_number: u8,
        /// Report type.
        report_type: ReportType,
        /// Report data to set.
        data: Vec<u8>,
    },
}

/// The contents of an [`OutputEvent`], with its byte and flag lists as sequences.
pub enum OutputEventModel {
    /// Start event with its device flags.
    Start { dev_flags: Seq<DevFlags> },
    /// Stop event.
    Stop,
    /// Open event.
    Open,
    /// Close event.
    Close,
    /// Output report.
    Output { data: Seq<u8> },
    /// `GetReport` request.
    GetReport { id: u32, report_number: u8, report_type: ReportType },
    /// `SetReport` request.
    SetReport { id: u32, report_number: u8, report_type: ReportType, data: Seq<u8> },
}

impl View for OutputEvent {
    type V = OutputEventModel;

    open spec fn view(&self) -> OutputEventModel {
        match self {
            OutputEvent::Start { dev_flags } => OutputEventModel::Start { dev_flags: dev_flags@ },
            OutputEvent::Stop => OutputEventModel::Stop,
            OutputEvent::Open => OutputEventModel::Open,
            OutputEvent::Close => OutputEventModel::Close,
            OutputEvent::Output { data } => OutputEventModel::Output { data: data@ },
            OutputEvent::GetReport { id, report_number, report_type } => OutputEventModel::GetReport {
                id: *id,
                report_number: *report_number,
                report_type: *report_type,
            },
            OutputEvent::SetReport { id, report_number, report_type, data } =>
                OutputEventModel::SetReport {
                id: *id,
                report_number: *report_number,
                report_type: *report_type,
                data: data@,
            },
        }
    }
}

/// How many report bytes a size field of `size` announces: at most `UHID_DATA_MAX`.
pub open spec fn size_len(size: u16) -> nat {
    if size <= sys::UHID_DATA_MAX {
        size as nat
    } else {
        sys::UHID_DATA_MAX as nat
    }
}

/// What an event of type `type_` with payload bytes `raw` decodes to: the
/// event, or the unrecognized event or report type that it carries.
pub open spec fn decode_spec(type_: u32, raw: Seq<u8>) -> Result<OutputEventModel, u32> {
    if type_ == sys::UHID_EVENT_TYPE_UHID_START {
        Ok(OutputEventModel::Start { dev_flags: flags_of(u64_at(raw, 0)) })
    } else if type_ == sys::UHID_EVENT_TYPE_UHID_STOP {
        Ok(OutputEventModel::Stop)
    } else if type_ == sys::UHID_EVENT_TYPE_UHID_OPEN {
        Ok(OutputEventModel::Open)
    } else if type_ == sys::UHID_EVENT_TYPE_UHID_CLOSE {
        Ok(OutputEventModel::Close)
    } else if type_ == sys::UHID_EVENT_TYPE_UHID_OUTPUT {
        Ok(OutputEventModel::Output { data: raw.take(size_len(u16_at(raw, 4096)) as int) })
    } else if type_ == sys::UHID_EVENT_TYPE_UHID_GET_REPORT {
        match report_type_of(raw[5]) {
            Some(report_type) => Ok(
                OutputEventModel::GetReport { id: u32_at(raw, 0), report_number: raw[4], report_type },
            ),
            None => Err(raw[5] as u32),
        }
    } else if type_ == sys::UHID_EVENT_TYPE_UHID_SET_REPORT {
        match report_type_of(raw[5]) {
            Some(report_type) => Ok(
                OutputEventModel::SetReport {
                    id: u32_at(raw, 0),
                    report_number: raw[4],
                    report_type,
                    data: raw.subrange(8, 8 + size_len(u16_at(raw, 6)) as int),
                },
            ),
            None => Err(raw[5] as u32),
        }
    } else {
        Err(type_)
    }
}

/// `r` is what decoding gave when `decode_spec` says `expected`.
pub open spec fn decoded_as(r: Result<OutputEvent, StreamError>, expected: Result<OutputEventModel, u32>) -> bool {
    match expected {
        Ok(m) => r matches Ok(e) && e@ == m,
        Err(t) => r matches Err(StreamError::UnknownEventType(u)) && u == t,
    }
}

/// The first `len` bytes of `data`, as a vector.
fn prefix_vec(data: &[u8; sys::UHID_DATA_MAX], len: usize) -> (r: Vec<u8>)
    requires
        len <= sys::UHID_DATA_MAX,
    ensures
        r@ == data@.take(len as int),
{
    let mut r = Vec::new();
    let mut i: usize = 0;
    while i < len
        invariant
            i <= len,
            len <= sys::UHID_DATA_MAX,
            r@ == data@.take(i as int),
        decreases len - i,
    {
        r.push(data[i]);
        i = i + 1;
        assert(r@ =~= data@.take(i as int));
    }
    r
}

impl TryFrom<sys::uhid_event> for OutputEvent {
    type Error = StreamError;

    /// Attempts to decode a raw `sys::uhid_event` into an [`OutputEvent`].
    ///
    /// # Errors
    ///
    /// Returns [`StreamError::UnknownEventType`] if the event type or report type is unrecognized.
    fn try_from(event: sys::uhid_event) -> (r: Result<Self, Self::Error>)
        ensures
            decoded_as(r, decode_spec(event.type_, event.u.raw@)),
    {
        let t = event.type_;
        if t == sys::UHID_EVENT_TYPE_UHID_START {
            let start = event.u.start();
            Ok(OutputEvent::Start { dev_flags: DevFlags::from_bits_truncate(start.dev_flags) })
        } else if t == sys::UHID_EVENT_TYPE_UHID_STOP {
            Ok(OutputEvent::Stop)
        } else if t == sys::UHID_EVENT_TYPE_UHID_OPEN {
            Ok(OutputEvent::Open)
        } else if t == sys::UHID_EVENT_TYPE_UHID_CLOSE {
            Ok(OutputEvent::Close)
        } else if t == sys::UHID_EVENT_TYPE_UHID_OUTPUT {
            let payload = event.u.output();
            let size = clamp_data_len(payload.size as usize);
            let data = prefix_vec(&payload.data, size);
            assert(data@ =~= event.u.raw@.take(size_len(u16_at(event.u.raw@, 4096)) as int));
            Ok(OutputEvent::Output { data })
        } else if t == sys::UHID_EVENT_TYPE_UHID_GET_REPORT {
            let payload = event.u.get_report();
            match ReportType::try_from(payload.rtype) {
                Ok(report_type) => Ok(
                    OutputEvent::GetReport { id: payload.id, report_number: payload.rnum, report_type },
                ),
                Err(e) => Err(e),
            }
        } else if t == sys::UHID_EVENT_TYPE_UHID_SET_REPORT {
            let payload = event.u.set_report();
            match ReportType::try_from(payload.rtype) {
                Ok(report_type) => {
                    let size = clamp_data_len(payload.size as usize);
                    let data = prefix_vec(&payload.data, size);
                    assert(data@ =~= event.u.raw@.subrange(8, 8 + size_len(u16_at(event.u.raw@, 6)) as int));
                    Ok(
                        OutputEvent::SetReport {
                            id: payload.id,
                            report_number: payload.rnum,
                            report_type,
                            data,
                        },
                    )
                },
                Err(e) => Err(e),
            }
        } else {
            Err(StreamError::UnknownEventType(t))
        }
    }

}

/// A result that decodes as the event does. The `ensures` of `try_from` itself
/// states what decoding yields; the decoded event holds vectors, and two vectors
/// with the same contents cannot be shown equal in spec code, so the chosen
/// value is not claimed to be the very one returned.
impl vstd::std_specs::convert::TryFromSpecImpl<sys::uhid_event> for OutputEvent {
    open spec fn obeys_try_from_spec() -> bool {
        false
    }

    open spec fn try_from_spec(event: sys::uhid_event) -> Result<Self, StreamError> {
        choose|r: Result<Self, StreamError>| decoded_as(r, decode_spec(event.type_, event.u.raw@))
    }
}

impl TryFrom<[u8; UHID_EVENT_SIZE]> for OutputEvent {
    type Error = StreamError;

    /// Attempts to decode a raw byte buffer into an [`OutputEvent`].
    ///
    /// # Errors
    ///
    /// Returns [`StreamError::UnknownEventType`] if the event type or report type is unrecognized.
    fn try_from(src: [u8; UHID_EVENT_SIZE]) -> (r: Result<Self, Self::Error>)
        ensures
            decoded_as(r, decode_spec(u32_at(src@, 0), src@.subrange(4, UHID_EVENT_SIZE as int))),
    {
        let event = sys::uhid_event::from_bytes(&src);
        <OutputEvent as TryFrom<sys::uhid_event>>::try_from(event)
    }
}

/// A result that decodes as the event does. The `ensures` of `try_from` itself
/// states what decoding yields; the decoded event holds vectors, and two vectors
/// with the same contents cannot be shown equal in spec code, so the chosen
/// value is not claimed to be the very one returned.
impl vstd::std_specs::convert::TryFromSpecImpl<[u8; UHID_EVENT_SIZE]> for OutputEvent {
    open spec fn obeys_try_from_spec() -> bool {
        false
    }

    open spec fn try_from_spec(src: [u8; UHID_EVENT_SIZE]) -> Result<Self, StreamError> {
        choose|r: Result<Self, StreamError>|
            decoded_as(r, decode_spec(u32_at(src@, 0), src@.subrange(4, UHID_EVENT_SIZE as int)))
    }
}

/// The character of the decimal digit `d`.
pub open spec fn digit_char(d: nat) -> char {
    (48 + d) as char
}

/// The decimal text of `n`: its digits, most significant first, without sign or padding.
pub open spec fn decimal(n: nat) -> Seq<char>
    decreases n,
{
    if n < 10 {
        seq![digit_char(n)]
    } else {
        decimal(n / 10).push(digit_char(n % 10))
    }
}

/// The one-character text of the decimal digit `d`.
fn digit_text(d: u32) -> (r: &'static str)
    requires
        d < 10,
    ensures
        r@ == seq![digit_char(d as nat)],
{
    if d == 0 {
        proof {
            reveal_strlit("0");
        }
        "0"
    } else if d == 1 {
        proof {
            reveal_strlit("1");
        }
        "1"
    } else if d == 2 {
        proof {
            reveal_strlit("2");
        }
        "2"
    } else if d == 3 {
        proof {
            reveal_strlit("3");
        }
        "3"
    } else if d == 4 {
        proof {
            reveal_strlit("4");
        }
        "4"
    } else if d == 5 {
        proof {
            reveal_strlit("5");
        }
        "5"
    } else if d == 6 {
        proof {
            reveal_strlit("6");
        }
        "6"
    } else if d == 7 {
        proof {
            reveal_strlit("7");
        }
        "7"
    } else if d == 8 {
        proof {
            reveal_strlit("8");
        }
        "8"
    } else {
        proof {
            reveal_strlit("9");
        }
        "9"
    }
}

/// Appends the decimal text of `n` to `s`.
fn push_decimal(s: &mut String, n: u32)
    ensures
        final(s)@ == old(s)@ + decimal(n as nat),
    decreases n,
{
    if n >= 10 {
        push_decimal(s, n / 10);
    }
    s.append(digit_text(n % 10));
    assert(s@ =~= old(s)@ + decimal(n as nat));
}

/// The decimal text of `n`, as `Display` writes it for a `u32`.
pub fn decimal_text(n: u32) -> (r: String)
    ensures
        r@ == decimal(n as nat),
{
    let mut r = String::new();
    push_decimal(&mut r, n);
    assert(r@ =~= decimal(n as nat));
    r
}

/// The text that `Display` writes for the I/O error `e`.
///
/// Calls `std::io::Error::to_string`. The text depends on the error's kind and
/// on the operating system's message for it, so nothing is stated of it.
#[verifier::external_body]
fn io_error_text(e: &std::io::Error) -> String {
    e.to_string()
}

/// The message of an I/O error whose own text is `detail`.
pub fn io_error_message(detail: &str) -> (r: String)
    ensures
        r@ == "UHID I/O error: "@ + detail@,
{
    let mut r = String::from_str("UHID I/O error: ");
    r.append(detail);
    r
}

impl StreamError {
    /// The message that describes this error.
    pub fn to_string(&self) -> (r: String)
        ensures
            match self {
                StreamError::UnknownEventType(t) => r@ == "Unknown UHID event type: "@ + decimal(
                    *t as nat,
                ),
                StreamError::Io(_) => exists|detail: Seq<char>| r@ == "UHID I/O error: "@ + detail,
            },
    {
        match self {
            StreamError::Io(err) => {
                let detail = io_error_text(err);
                let r = io_error_message(detail.as_str());
                assert(r@ == "UHID I/O error: "@ + detail@);
                r
            },
            StreamError::UnknownEventType(t) => {
                let mut r = String::from_str("Unknown UHID event type: ");
                let digits = decimal_text(*t);
                r.append(digits.as_str());
                r
            },
        }
    }

    /// The lower-level error that caused this one, if any.
    pub fn source(&self) -> (r: Option<&std::io::Error>)
        ensures
            match self {
                StreamError::Io(err) => r == Some(err),
                StreamError::UnknownEventType(_) => r is None,
            },
    {
        match self {
            StreamError::Io(err) => Some(err),
            StreamError::UnknownEventType(_) => None,
        }
    }
}

} // verus!
