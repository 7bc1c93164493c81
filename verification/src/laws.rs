//! Properties that relate the library's operations to one another.

use vstd::prelude::*;

use crate::codec::{
    data_len, decode_spec, flags_of, DevFlags, InputEvent, OutputEventModel, ReportType,
    UHID_EVENT_SIZE,
};
use crate::uhid_device::decode_event_bytes;
use crate::layout::{
    le16, le32, le64, lemma_u16_round_trip, lemma_u32_round_trip, lemma_u64_round_trip, splice, u16_at,
    u32_at, u64_at,
};
use crate::sys;

verus! {

/// A flag is among those decoded from a bitmask exactly when its bit is set there.
pub proof fn lemma_flags_match_bits(bits: u64, f: DevFlags)
    ensures
        flags_of(bits).contains(f) <==> bits & f.spec_bits() != 0,
{
    let s = flags_of(bits);
    if bits & f.spec_bits() != 0 {
        match f {
            DevFlags::FeatureReportsNumbered => assert(s[0] == f),
            DevFlags::OutputReportsNumbered => {
                if bits & 1 != 0 {
                    assert(s[1] == f);
                } else {
                    assert(s[0] == f);
                }
            },
            DevFlags::InputReportsNumbered => assert(s[s.len() - 1] == f),
        }
    }
}

/// Decoding lists no flag twice.
pub proof fn lemma_flags_distinct(bits: u64)
    ensures
        flags_of(bits).no_duplicates(),
{
}

/// The bitmask of a single flag decodes to that flag alone.
pub proof fn lemma_flags_of_single(f: DevFlags)
    ensures
        flags_of(f.spec_bits()) == seq![f],
{
    assert(1u64 & 1u64 != 0 && 1u64 & 2u64 == 0 && 1u64 & 4u64 == 0) by (bit_vector);
    assert(2u64 & 1u64 == 0 && 2u64 & 2u64 != 0 && 2u64 & 4u64 == 0) by (bit_vector);
    assert(4u64 & 1u64 == 0 && 4u64 & 2u64 == 0 && 4u64 & 4u64 != 0) by (bit_vector);
    assert(flags_of(f.spec_bits()) =~= seq![f]);
}

/// Bits that stand for no flag do not change what a bitmask decodes to.
pub proof fn lemma_flags_ignore_unknown_bits(bits: u64)
    ensures
        flags_of(bits) == flags_of(bits & 7),
{
    assert((bits & 1 != 0) == ((bits & 7) & 1 != 0)) by (bit_vector);
    assert((bits & 2 != 0) == ((bits & 7) & 2 != 0)) by (bit_vector);
    assert((bits & 4 != 0) == ((bits & 7) & 4 != 0)) by (bit_vector);
}

/// Converting the raw value of a report type gives that report type back.
pub proof fn lemma_report_type_round_trip(t: ReportType)
    ensures
        ReportType::spec_try_from(t.spec_code()) == Ok::<ReportType, crate::codec::StreamError>(t),
{
}

/// A raw report type converts exactly when it is one of the three known values,
/// and then to the report type whose raw value it is.
pub proof fn lemma_report_type_codes(value: u8)
    ensures
        ReportType::spec_try_from(value) is Ok <==> value <= 2,
        ReportType::spec_try_from(value) matches Ok(t) ==> t.spec_code() == value,
{
}

/// An output report written to the device file reads back as the same output
/// report, cut to `UHID_DATA_MAX` bytes.
pub proof fn lemma_output_loopback(data: Vec<u8>)
    ensures
        ({
            let e = InputEvent::Output { data };
            decode_spec(e.spec_type(), e.spec_payload()) == Ok::<OutputEventModel, u32>(
                OutputEventModel::Output { data: data@.take(data_len(data@) as int) },
            )
        }),
{
    let e = InputEvent::Output { data };
    let raw = e.spec_payload();
    let n = data_len(data@);
    assert(raw.subrange(4096, 4098) =~= le16(n as u16));
    assert(raw =~= splice(raw, 4096, le16(n as u16)));
    lemma_u16_round_trip(raw, 4096, n as u16);
    assert(raw.take(n as int) =~= data@.take(n as int));
}

/// A `SetReport` event written to the device file reads back as the same
/// request, for an input report, with its data cut to `UHID_DATA_MAX` bytes.
pub proof fn lemma_set_report_loopback(id: u32, report_num: u8, data: Vec<u8>)
    ensures
        ({
            let e = InputEvent::SetReport { id, report_num, data };
            decode_spec(e.spec_type(), e.spec_payload()) == Ok::<OutputEventModel, u32>(
                OutputEventModel::SetReport {
                    id,
                    report_number: report_num,
                    report_type: ReportType::Input,
                    data: data@.take(data_len(data@) as int),
                },
            )
        }),
{
    let e = InputEvent::SetReport { id, report_num, data };
    let raw = e.spec_payload();
    let n = data_len(data@);
    assert(raw =~= splice(raw, 0, le32(id)));
    lemma_u32_round_trip(raw, 0, id);
    assert(raw =~= splice(raw, 6, le16(n as u16)));
    lemma_u16_round_trip(raw, 6, n as u16);
    assert(raw.subrange(8, 8 + n as int) =~= data@.take(n as int));
}

/// A legacy `Feature` request shares its event type and layout with
/// `GetReport`: written to the device file, it reads back as a `GetReport`
/// request for an input report.
pub proof fn lemma_feature_loopback(id: u32, report_num: u8)
    ensures
        ({
            let e = InputEvent::Feature { id, report_num };
            decode_spec(e.spec_type(), e.spec_payload()) == Ok::<OutputEventModel, u32>(
                OutputEventModel::GetReport {
                    id,
                    report_number: report_num,
                    report_type: ReportType::Input,
                },
            )
        }),
{
    let e = InputEvent::Feature { id, report_num };
    let raw = e.spec_payload();
    assert(raw =~= splice(raw, 0, le32(id)));
    lemma_u32_round_trip(raw, 0, id);
}

/// Every other event that user space writes has a type that the kernel never
/// sends back: read back, it is refused as an unknown event type.
pub proof fn lemma_user_events_not_decoded(e: InputEvent)
    requires
        !(e is Output),
        !(e is SetReport),
        !(e is Feature),
    ensures
        decode_spec(e.spec_type(), e.spec_payload()) == Err::<OutputEventModel, u32>(
            e.spec_type(),
        ),
{
}

/// Report data decoded from any event never exceeds `UHID_DATA_MAX` bytes.
pub proof fn lemma_decoded_data_bounded(type_: u32, raw: Seq<u8>)
    requires
        raw.len() == sys::UHID_PAYLOAD_SIZE,
    ensures
        decode_spec(type_, raw) matches Ok(OutputEventModel::Output { data }) ==> data.len()
            <= sys::UHID_DATA_MAX,
        decode_spec(type_, raw) matches Ok(OutputEventModel::SetReport { data, .. })
            ==> data.len() <= sys::UHID_DATA_MAX,
{
}

/// Reading the `create2` member of a payload after writing it gives back the value written.
pub proof fn lemma_create2_member_round_trip(raw: Seq<u8>, v: sys::uhid_create2_req)
    requires
        raw.len() == sys::UHID_PAYLOAD_SIZE,
    ensures
        ({
            let t = splice(raw, 0, v.spec_bytes());
            &&& t.subrange(0, 128) == v.name@
            &&& t.subrange(128, 192) == v.phys@
            &&& t.subrange(192, 256) == v.uniq@
            &&& u16_at(t, 256) == v.rd_size
            &&& u16_at(t, 258) == v.bus
            &&& u32_at(t, 260) == v.vendor
            &&& u32_at(t, 264) == v.product
            &&& u32_at(t, 268) == v.version
            &&& u32_at(t, 272) == v.country
            &&& t.subrange(276, 4372) == v.rd_data@
        }),
{
    let t = splice(raw, 0, v.spec_bytes());
    assert(t.subrange(0, 128) =~= v.name@);
    assert(t.subrange(128, 192) =~= v.phys@);
    assert(t.subrange(192, 256) =~= v.uniq@);
    assert(t =~= splice(t, 256, le16(v.rd_size)));
    lemma_u16_round_trip(t, 256, v.rd_size);
    assert(t =~= splice(t, 258, le16(v.bus)));
    lemma_u16_round_trip(t, 258, v.bus);
    assert(t =~= splice(t, 260, le32(v.vendor)));
    lemma_u32_round_trip(t, 260, v.vendor);
    assert(t =~= splice(t, 264, le32(v.product)));
    lemma_u32_round_trip(t, 264, v.product);
    assert(t =~= splice(t, 268, le32(v.version)));
    lemma_u32_round_trip(t, 268, v.version);
    assert(t =~= splice(t, 272, le32(v.country)));
    lemma_u32_round_trip(t, 272, v.country);
    assert(t.subrange(276, 4372) =~= v.rd_data@);
}

/// Reading the `start` member of a payload after writing it gives back the value written.
pub proof fn lemma_start_member_round_trip(raw: Seq<u8>, v: sys::uhid_start_req)
    requires
        raw.len() == sys::UHID_PAYLOAD_SIZE,
    ensures
        ({
            let t = splice(raw, 0, v.spec_bytes());
            &&& u64_at(t, 0) == v.dev_flags
        }),
{
    let t = splice(raw, 0, v.spec_bytes());
    assert(t =~= splice(t, 0, le64(v.dev_flags)));
    lemma_u64_round_trip(t, 0, v.dev_flags);
}

/// Reading the `input2` member of a payload after writing it gives back the value written.
pub proof fn lemma_input2_member_round_trip(raw: Seq<u8>, v: sys::uhid_input2_req)
    requires
        raw.len() == sys::UHID_PAYLOAD_SIZE,
    ensures
        ({
            let t = splice(raw, 0, v.spec_bytes());
            &&& u16_at(t, 0) == v.size
            &&& t.subrange(2, 4098) == v.data@
        }),
{
    let t = splice(raw, 0, v.spec_bytes());
    assert(t =~= splice(t, 0, le16(v.size)));
    lemma_u16_round_trip(t, 0, v.size);
    assert(t.subrange(2, 4098) =~= v.data@);
}

/// Reading the `output` member of a payload after writing it gives back the value written.
pub proof fn lemma_output_member_round_trip(raw: Seq<u8>, v: sys::uhid_output_req)
    requires
        raw.len() == sys::UHID_PAYLOAD_SIZE,
    ensures
        ({
            let t = splice(raw, 0, v.spec_bytes());
            &&& t.subrange(0, 4096) == v.data@
            &&& u16_at(t, 4096) == v.size
            &&& t[4098] == v.rtype
        }),
{
    let t = splice(raw, 0, v.spec_bytes());
    assert(t.subrange(0, 4096) =~= v.data@);
    assert(t =~= splice(t, 4096, le16(v.size)));
    lemma_u16_round_trip(t, 4096, v.size);
}

/// Reading the `output_ev` member of a payload after writing it gives back the value written.
pub proof fn lemma_output_ev_member_round_trip(raw: Seq<u8>, v: sys::uhid_output_ev_req)
    requires
        raw.len() == sys::UHID_PAYLOAD_SIZE,
    ensures
        ({
            let t = splice(raw, 0, v.spec_bytes());
            &&& u16_at(t, 0) == v.type_
            &&& u16_at(t, 2) == v.code
            &&& u32_at(t, 4) as i32 == v.value
        }),
{
    let t = splice(raw, 0, v.spec_bytes());
    assert(t =~= splice(t, 0, le16(v.type_)));
    lemma_u16_round_trip(t, 0, v.type_);
    assert(t =~= splice(t, 2, le16(v.code)));
    lemma_u16_round_trip(t, 2, v.code);
    assert(t =~= splice(t, 4, le32(v.value as u32)));
    lemma_u32_round_trip(t, 4, v.value as u32);
    let x = v.value;
    assert((x as u32) as i32 == x) by (bit_vector);
}

/// Reading the `get_report` member of a payload after writing it gives back the value written.
pub proof fn lemma_get_report_member_round_trip(raw: Seq<u8>, v: sys::uhid_get_report_req)
    requires
        raw.len() == sys::UHID_PAYLOAD_SIZE,
    ensures
        ({
            let t = splice(raw, 0, v.spec_bytes());
            &&& u32_at(t, 0) == v.id
            &&& t[4] == v.rnum
            &&& t[5] == v.rtype
        }),
{
    let t = splice(raw, 0, v.spec_bytes());
    assert(t =~= splice(t, 0, le32(v.id)));
    lemma_u32_round_trip(t, 0, v.id);
}

/// Reading the `get_report_reply` member of a payload after writing it gives back the value written.
pub proof fn lemma_get_report_reply_member_round_trip(raw: Seq<u8>, v: sys::uhid_get_report_reply_req)
    requires
        raw.len() == sys::UHID_PAYLOAD_SIZE,
    ensures
        ({
            let t = splice(raw, 0, v.spec_bytes());
            &&& u32_at(t, 0) == v.id
            &&& u16_at(t, 4) == v.err
            &&& u16_at(t, 6) == v.size
            &&& t.subrange(8, 4104) == v.data@
        }),
{
    let t = splice(raw, 0, v.spec_bytes());
    assert(t =~= splice(t, 0, le32(v.id)));
    lemma_u32_round_trip(t, 0, v.id);
    assert(t =~= splice(t, 4, le16(v.err)));
    lemma_u16_round_trip(t, 4, v.err);
    assert(t =~= splice(t, 6, le16(v.size)));
    lemma_u16_round_trip(t, 6, v.size);
    assert(t.subrange(8, 4104) =~= v.data@);
}

/// Reading the `set_report` member of a payload after writing it gives back the value written.
pub proof fn lemma_set_report_member_round_trip(raw: Seq<u8>, v: sys::uhid_set_report_req)
    requires
        raw.len() == sys::UHID_PAYLOAD_SIZE,
    ensures
        ({
            let t = splice(raw, 0, v.spec_bytes());
            &&& u32_at(t, 0) == v.id
            &&& t[4] == v.rnum
            &&& t[5] == v.rtype
            &&& u16_at(t, 6) == v.size
            &&& t.subrange(8, 4104) == v.data@
        }),
{
    let t = splice(raw, 0, v.spec_bytes());
    assert(t =~= splice(t, 0, le32(v.id)));
    lemma_u32_round_trip(t, 0, v.id);
    assert(t =~= splice(t, 6, le16(v.size)));
    lemma_u16_round_trip(t, 6, v.size);
    assert(t.subrange(8, 4104) =~= v.data@);
}

/// Reading the `set_report_reply` member of a payload after writing it gives back the value written.
pub proof fn lemma_set_report_reply_member_round_trip(raw: Seq<u8>, v: sys::uhid_set_report_reply_req)
    requires
        raw.len() == sys::UHID_PAYLOAD_SIZE,
    ensures
        ({
            let t = splice(raw, 0, v.spec_bytes());
            &&& u32_at(t, 0) == v.id
            &&& u16_at(t, 4) == v.err
        }),
{
    let t = splice(raw, 0, v.spec_bytes());
    assert(t =~= splice(t, 0, le32(v.id)));
    lemma_u32_round_trip(t, 0, v.id);
    assert(t =~= splice(t, 4, le16(v.err)));
    lemma_u16_round_trip(t, 4, v.err);
}

/// Reading the `feature` member of a payload after writing it gives back the value written.
pub proof fn lemma_feature_member_round_trip(raw: Seq<u8>, v: sys::uhid_feature_req)
    requires
        raw.len() == sys::UHID_PAYLOAD_SIZE,
    ensures
        ({
            let t = splice(raw, 0, v.spec_bytes());
            &&& u32_at(t, 0) == v.id
            &&& t[4] == v.rnum
            &&& t[5] == v.rtype
        }),
{
    let t = splice(raw, 0, v.spec_bytes());
    assert(t =~= splice(t, 0, le32(v.id)));
    lemma_u32_round_trip(t, 0, v.id);
}

/// Reading the `feature_answer` member of a payload after writing it gives back the value written.
pub proof fn lemma_feature_answer_member_round_trip(raw: Seq<u8>, v: sys::uhid_feature_answer_req)
    requires
        raw.len() == sys::UHID_PAYLOAD_SIZE,
    ensures
        ({
            let t = splice(raw, 0, v.spec_bytes());
            &&& u32_at(t, 0) == v.id
            &&& u16_at(t, 4) == v.err
            &&& u16_at(t, 6) == v.size
            &&& t.subrange(8, 4104) == v.data@
        }),
{
    let t = splice(raw, 0, v.spec_bytes());
    assert(t =~= splice(t, 0, le32(v.id)));
    lemma_u32_round_trip(t, 0, v.id);
    assert(t =~= splice(t, 4, le16(v.err)));
    lemma_u16_round_trip(t, 4, v.err);
    assert(t =~= splice(t, 6, le16(v.size)));
    lemma_u16_round_trip(t, 6, v.size);
    assert(t.subrange(8, 4104) =~= v.data@);
}

/// Reading an event back from its bytes gives the event: its type and payload.
pub proof fn lemma_event_bytes_round_trip(e: sys::uhid_event)
    ensures
        u32_at(e.spec_bytes(), 0) == e.type_,
        e.spec_bytes().subrange(4, UHID_EVENT_SIZE as int) == e.u.raw@,
{
    let b = e.spec_bytes();
    assert(b =~= splice(b, 0, le32(e.type_)));
    lemma_u32_round_trip(b, 0, e.type_);
    assert(b.subrange(4, UHID_EVENT_SIZE as int) =~= e.u.raw@);
}

/// The bytes of an event are the bytes of the type it is read as, followed by
/// the payload it is read as: reading then writing an event changes no byte.
pub proof fn lemma_event_bytes_split(b: Seq<u8>)
    requires
        b.len() == UHID_EVENT_SIZE,
    ensures
        le32(u32_at(b, 0)) + b.subrange(4, UHID_EVENT_SIZE as int) == b,
{
    crate::layout::lemma_u32_bytes_round_trip(b, 0);
    assert(le32(u32_at(b, 0)) + b.subrange(4, UHID_EVENT_SIZE as int) =~= b);
}

/// The bytes that a device sends for an event decode, when read back, as its
/// type and payload decode.
pub proof fn lemma_sent_event_decodes(e: InputEvent)
    ensures
        decode_event_bytes(e.spec_bytes()) == decode_spec(e.spec_type(), e.spec_payload()),
{
    let b = e.spec_bytes();
    assert(b =~= splice(b, 0, le32(e.spec_type())));
    lemma_u32_round_trip(b, 0, e.spec_type());
    assert(b.subrange(4, UHID_EVENT_SIZE as int) =~= e.spec_payload());
}

} // verus!
