//! What decoding an event gives, stated over the raw type and payload bytes
//! and the kernel's numbers, for every input.

use vstd::prelude::*;

use crate::codec::{decode_spec, decoded_as, DevFlags, OutputEvent, OutputEventModel, ReportType, StreamError};
use crate::encoding_laws::capped;
use crate::layout::{u16_at, u32_at, u64_at};

verus! {

/// The report types carry the kernel's `UHID_*_REPORT` numbers.
pub proof fn lemma_report_type_numbers()
    ensures
        ReportType::Feature.spec_code() == 0,
        ReportType::Output.spec_code() == 1,
        ReportType::Input.spec_code() == 2,
{
}

/// The device flags carry the kernel's `UHID_DEV_NUMBERED_*` bits.
pub proof fn lemma_dev_flag_bits()
    ensures
        DevFlags::FeatureReportsNumbered.spec_bits() == 1,
        DevFlags::OutputReportsNumbered.spec_bits() == 2,
        DevFlags::InputReportsNumbered.spec_bits() == 4,
{
}

/// The report type that byte `b` of a request names: 0 feature, 1 output, 2 input.
pub open spec fn names_report_type(b: u8, t: ReportType) -> bool {
    ||| b == 0 && t == ReportType::Feature
    ||| b == 1 && t == ReportType::Output
    ||| b == 2 && t == ReportType::Input
}

/// Events of a type that the kernel does not send to user space (any type but
/// 2, 3, 4, 5, 6, 9 and 13) are refused with that type.
pub proof fn lemma_decode_unknown_type(type_: u32, raw: Seq<u8>)
    requires
        raw.len() == 4372,
        type_ != 2 && type_ != 3 && type_ != 4 && type_ != 5 && type_ != 6 && type_ != 9 && type_
            != 13,
    ensures
        decode_spec(type_, raw) == Err::<OutputEventModel, u32>(type_),
{
}

/// Events of types 3, 4 and 5 decode as `Stop`, `Open` and `Close`, whatever
/// their payload.
pub proof fn lemma_decode_lifecycle(raw: Seq<u8>)
    requires
        raw.len() == 4372,
    ensures
        decode_spec(3, raw) == Ok::<OutputEventModel, u32>(OutputEventModel::Stop),
        decode_spec(4, raw) == Ok::<OutputEventModel, u32>(OutputEventModel::Open),
        decode_spec(5, raw) == Ok::<OutputEventModel, u32>(OutputEventModel::Close),
{
}

/// A type 2 event decodes as `Start` with exactly the flags whose bits are set
/// in the `u64` at offset 0 (bit 0 feature, bit 1 output, bit 2 input), listed
/// in that order.
pub proof fn lemma_decode_start(raw: Seq<u8>)
    requires
        raw.len() == 4372,
    ensures
        decode_spec(2, raw) is Ok,
        decode_spec(2, raw) matches Ok(OutputEventModel::Start { dev_flags }) && {
            let bits = u64_at(raw, 0);
            &&& (dev_flags.contains(DevFlags::FeatureReportsNumbered) <==> bits & 1 != 0)
            &&& (dev_flags.contains(DevFlags::OutputReportsNumbered) <==> bits & 2 != 0)
            &&& (dev_flags.contains(DevFlags::InputReportsNumbered) <==> bits & 4 != 0)
            &&& dev_flags.len() == (if bits & 1 != 0 {
                1nat
            } else {
                0nat
            }) + (if bits & 2 != 0 {
                1nat
            } else {
                0nat
            }) + (if bits & 4 != 0 {
                1nat
            } else {
                0nat
            })
            &&& forall|i: int, j: int|
                0 <= i < j < dev_flags.len() ==> dev_flags[i].spec_bits()
                    < dev_flags[j].spec_bits()
        },
{
    let bits = u64_at(raw, 0);
    let f = crate::codec::flags_of(bits);
    crate::laws::lemma_flags_match_bits(bits, DevFlags::FeatureReportsNumbered);
    crate::laws::lemma_flags_match_bits(bits, DevFlags::OutputReportsNumbered);
    crate::laws::lemma_flags_match_bits(bits, DevFlags::InputReportsNumbered);
}

/// A type 6 event decodes as `Output` with the first `size` bytes of the
/// payload, where `size` is the `u16` at offset 4096, cut to `UHID_DATA_MAX`.
pub proof fn lemma_decode_output(raw: Seq<u8>)
    requires
        raw.len() == 4372,
    ensures
        decode_spec(6, raw) == Ok::<OutputEventModel, u32>(
            OutputEventModel::Output { data: raw.subrange(0, capped(u16_at(raw, 4096) as nat) as int) },
        ),
{
    assert(raw.take(capped(u16_at(raw, 4096) as nat) as int) =~= raw.subrange(
        0,
        capped(u16_at(raw, 4096) as nat) as int,
    ));
}

/// A type 9 event is a `GetReport` request with the id at offset 0 and the
/// report number at 4 exactly when byte 5 names a report type, and then with
/// that report type; otherwise it is refused with byte 5.
pub proof fn lemma_decode_get_report(raw: Seq<u8>)
    requires
        raw.len() == 4372,
    ensures
        raw[5] > 2 ==> decode_spec(9, raw) == Err::<OutputEventModel, u32>(raw[5] as u32),
        raw[5] <= 2 ==> (decode_spec(9, raw) matches Ok(
            OutputEventModel::GetReport { id, report_number, report_type },
        ) && id == u32_at(raw, 0) && report_number == raw[4] && names_report_type(
            raw[5],
            report_type,
        )),
{
}

/// A type 13 event is a `SetReport` request with the id at offset 0, the report
/// number at 4, and the data bytes from 8 whose number is the `u16` at 6 cut to
/// `UHID_DATA_MAX`, exactly when byte 5 names a report type, and then with that
/// report type; otherwise it is refused with byte 5.
pub proof fn lemma_decode_set_report(raw: Seq<u8>)
    requires
        raw.len() == 4372,
    ensures
        raw[5] > 2 ==> decode_spec(13, raw) == Err::<OutputEventModel, u32>(raw[5] as u32),
        raw[5] <= 2 ==> (decode_spec(13, raw) matches Ok(
            OutputEventModel::SetReport { id, report_number, report_type, data },
        ) && id == u32_at(raw, 0) && report_number == raw[4] && names_report_type(
            raw[5],
            report_type,
        ) && data == raw.subrange(8, 8 + capped(u16_at(raw, 6) as nat) as int)),
{
}

/// A decoding result meets what `decode_spec` says exactly when a decoded event
/// is returned whose contents are the expected ones, or an unknown-type error
/// carrying the expected number.
pub proof fn lemma_decoded_as_meaning(
    r: Result<OutputEvent, StreamError>,
    expected: Result<OutputEventModel, u32>,
)
    ensures
        expected matches Ok(m) ==> (decoded_as(r, expected) <==> (r matches Ok(e) && e@ == m)),
        expected matches Err(t) ==> (decoded_as(r, expected) <==> (r matches Err(
            StreamError::UnknownEventType(u),
        ) && u == t)),
{
}

/// The contents of a decoded event are its fields, with its vectors as sequences.
pub proof fn lemma_output_event_contents(e: OutputEvent)
    ensures
        e matches OutputEvent::Start { dev_flags } ==> e@ == (OutputEventModel::Start {
            dev_flags: dev_flags@,
        }),
        e matches OutputEvent::Stop ==> e@ == OutputEventModel::Stop,
        e matches OutputEvent::Open ==> e@ == OutputEventModel::Open,
        e matches OutputEvent::Close ==> e@ == OutputEventModel::Close,
        e matches OutputEvent::Output { data } ==> e@ == (OutputEventModel::Output { data: data@ }),
        e matches OutputEvent::GetReport { id, report_number, report_type } ==> e@ == (
        OutputEventModel::GetReport { id, report_number, report_type }),
        e matches OutputEvent::SetReport { id, report_number, report_type, data } ==> e@ == (
        OutputEventModel::SetReport { id, report_number, report_type, data: data@ }),
{
}

} // verus!
