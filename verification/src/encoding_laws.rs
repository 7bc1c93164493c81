//! What each field of an encoded event holds, stated over the event's inputs
//! and the little-endian readers of the payload, for every input.

use vstd::prelude::*;
use vstd::utf8::encode_utf8;

use crate::codec::{Bus, InputEvent};
use crate::layout::{le16, le32, lemma_u16_round_trip, lemma_u32_round_trip, splice, u16_at, u32_at};
use crate::sys;

verus! {

/// `n`, or `UHID_DATA_MAX` when `n` is larger: how many report bytes fit in an event.
pub open spec fn capped(n: nat) -> nat {
    if n <= 4096 {
        n
    } else {
        4096
    }
}

/// The `u16` read little-endian is the first byte plus 256 times the second.
pub proof fn lemma_u16_at_value(s: Seq<u8>, off: int)
    requires
        0 <= off,
        off + 2 <= s.len(),
    ensures
        u16_at(s, off) as int == s[off] as int + 256 * s[off + 1] as int,
{
    let b0 = s[off];
    let b1 = s[off + 1];
    assert((b0 as u16) | ((b1 as u16) << 8u16) == b0 as u16 + 256 * (b1 as u16)) by (bit_vector);
}

/// The `u32` read little-endian is its four bytes weighted by powers of 256.
pub proof fn lemma_u32_at_value(s: Seq<u8>, off: int)
    requires
        0 <= off,
        off + 4 <= s.len(),
    ensures
        u32_at(s, off) as int == s[off] as int + 256 * s[off + 1] as int + 65536 * s[off + 2] as int
            + 16777216 * s[off + 3] as int,
{
    let b0 = s[off];
    let b1 = s[off + 1];
    let b2 = s[off + 2];
    let b3 = s[off + 3];
    assert((b0 as u32) | ((b1 as u32) << 8u32) | ((b2 as u32) << 16u32) | ((b3 as u32) << 24u32)
        == b0 as u32 + 256 * (b1 as u32) + 65536 * (b2 as u32) + 16777216 * (b3 as u32))
        by (bit_vector);
}

/// Each bus is sent with the kernel's `BUS_*` number for it.
pub proof fn lemma_bus_codes()
    ensures
        Bus::PCI.spec_code() == 0x01,
        Bus::ISAPNP.spec_code() == 0x02,
        Bus::USB.spec_code() == 0x03,
        Bus::HIL.spec_code() == 0x04,
        Bus::BLUETOOTH.spec_code() == 0x05,
        Bus::VIRTUAL.spec_code() == 0x06,
        Bus::ISA.spec_code() == 0x10,
        Bus::I8042.spec_code() == 0x11,
        Bus::XTKBD.spec_code() == 0x12,
        Bus::RS232.spec_code() == 0x13,
        Bus::GAMEPORT.spec_code() == 0x14,
        Bus::PARPORT.spec_code() == 0x15,
        Bus::AMIGA.spec_code() == 0x16,
        Bus::ADB.spec_code() == 0x17,
        Bus::I2C.spec_code() == 0x18,
        Bus::HOST.spec_code() == 0x19,
        Bus::GSC.spec_code() == 0x1A,
        Bus::ATARI.spec_code() == 0x1B,
        Bus::SPI.spec_code() == 0x1C,
        Bus::RMI.spec_code() == 0x1D,
        Bus::CEC.spec_code() == 0x1E,
        Bus::INTEL_ISHTP.spec_code() == 0x1F,
{
}

/// Two different buses are never sent with the same number.
pub proof fn lemma_bus_codes_distinct(a: Bus, b: Bus)
    ensures
        a.spec_code() == b.spec_code() ==> a == b,
{
}

/// A `GetReportReply` is sent as event type 10 whose payload holds the request
/// id at offset 0, the error status at 4, the number of data bytes (at most
/// `UHID_DATA_MAX`) at 6 and those data bytes from 8, with zeros after them.
pub proof fn lemma_get_report_reply_fields(id: u32, err: u16, data: Vec<u8>)
    ensures
        ({
            let e = InputEvent::GetReportReply { id, err, data };
            let p = e.spec_payload();
            let n = capped(data@.len());
            &&& e.spec_type() == 10
            &&& p.len() == 4372
            &&& u32_at(p, 0) == id
            &&& u16_at(p, 4) == err
            &&& u16_at(p, 6) as nat == n
            &&& p.subrange(8, 8 + n as int) == data@.take(n as int)
            &&& forall|i: int| 8 + n <= i < 4372 ==> p[i] == 0
        }),
{
    let e = InputEvent::GetReportReply { id, err, data };
    let p = e.spec_payload();
    let n = capped(data@.len());
    assert(p =~= splice(p, 0, le32(id)));
    lemma_u32_round_trip(p, 0, id);
    assert(p =~= splice(p, 4, le16(err)));
    lemma_u16_round_trip(p, 4, err);
    assert(p =~= splice(p, 6, le16(n as u16)));
    lemma_u16_round_trip(p, 6, n as u16);
    assert(p.subrange(8, 8 + n as int) =~= data@.take(n as int));
}

/// A `Destroy` is sent as event type 1 with an all-zero payload.
pub proof fn lemma_destroy_fields()
    ensures
        InputEvent::Destroy.spec_type() == 1,
        InputEvent::Destroy.spec_payload().len() == 4372,
        forall|i: int| 0 <= i < 4372 ==> InputEvent::Destroy.spec_payload()[i] == 0,
{
}

/// An `Input` report is sent as event type 12 whose payload holds the number of
/// report bytes (all of them, up to `UHID_DATA_MAX`) at offset 0 and those bytes
/// from 2, with zeros after them.
pub proof fn lemma_input_fields(data: &[u8])
    ensures
        ({
            let e = InputEvent::Input { data };
            let p = e.spec_payload();
            let n = capped(data@.len());
            &&& e.spec_type() == 12
            &&& p.len() == 4372
            &&& u16_at(p, 0) as nat == n
            &&& p.subrange(2, 2 + n as int) == data@.take(n as int)
            &&& forall|i: int| 2 + n <= i < 4372 ==> p[i] == 0
        }),
{
    let e = InputEvent::Input { data };
    let p = e.spec_payload();
    let n = capped(data@.len());
    assert(p =~= splice(p, 0, le16(n as u16)));
    lemma_u16_round_trip(p, 0, n as u16);
    assert(p.subrange(2, 2 + n as int) =~= data@.take(n as int));
}

/// An `Output` report is sent as event type 6 whose payload holds the report
/// bytes (up to `UHID_DATA_MAX`) from offset 0, zeros up to 4096, their number
/// at 4096, the output report type 1 at 4098, and zeros after.
pub proof fn lemma_output_fields(data: Vec<u8>)
    ensures
        ({
            let e = InputEvent::Output { data };
            let p = e.spec_payload();
            let n = capped(data@.len());
            &&& e.spec_type() == 6
            &&& p.len() == 4372
            &&& p.subrange(0, n as int) == data@.take(n as int)
            &&& (forall|i: int| n <= i < 4096 ==> p[i] == 0)
            &&& u16_at(p, 4096) as nat == n
            &&& p[4098] == 1
            &&& forall|i: int| 4099 <= i < 4372 ==> p[i] == 0
        }),
{
    let e = InputEvent::Output { data };
    let p = e.spec_payload();
    let n = capped(data@.len());
    assert(p.subrange(0, n as int) =~= data@.take(n as int));
    assert(p =~= splice(p, 4096, le16(n as u16)));
    lemma_u16_round_trip(p, 4096, n as u16);
}

/// A legacy `OutputEv` is sent as event type 7 whose payload holds the input
/// event type at offset 0, its code at 2 and its value at 4, and zeros after.
pub proof fn lemma_output_ev_fields(type_: u16, code: u16, value: i32)
    ensures
        ({
            let e = InputEvent::OutputEv { type_, code, value };
            let p = e.spec_payload();
            &&& e.spec_type() == 7
            &&& p.len() == 4372
            &&& u16_at(p, 0) == type_
            &&& u16_at(p, 2) == code
            &&& u32_at(p, 4) as i32 == value
            &&& forall|i: int| 8 <= i < 4372 ==> p[i] == 0
        }),
{
    let e = InputEvent::OutputEv { type_, code, value };
    let p = e.spec_payload();
    assert(p =~= splice(p, 0, le16(type_)));
    lemma_u16_round_trip(p, 0, type_);
    assert(p =~= splice(p, 2, le16(code)));
    lemma_u16_round_trip(p, 2, code);
    assert(p =~= splice(p, 4, le32(value as u32)));
    lemma_u32_round_trip(p, 4, value as u32);
    assert((value as u32) as i32 == value) by (bit_vector);
}

/// A `SetReportReply` is sent as event type 14 whose payload holds the request
/// id at offset 0 and the error status at 4, and zeros after.
pub proof fn lemma_set_report_reply_fields(id: u32, err: u16)
    ensures
        ({
            let e = InputEvent::SetReportReply { id, err };
            let p = e.spec_payload();
            &&& e.spec_type() == 14
            &&& p.len() == 4372
            &&& u32_at(p, 0) == id
            &&& u16_at(p, 4) == err
            &&& forall|i: int| 6 <= i < 4372 ==> p[i] == 0
        }),
{
    let e = InputEvent::SetReportReply { id, err };
    let p = e.spec_payload();
    assert(p =~= splice(p, 0, le32(id)));
    lemma_u32_round_trip(p, 0, id);
    assert(p =~= splice(p, 4, le16(err)));
    lemma_u16_round_trip(p, 4, err);
}

/// A legacy `Feature` request is sent as event type 9 whose payload holds the
/// request id at offset 0, the report number at 4 and the input report type 2
/// at 5, and zeros after.
pub proof fn lemma_feature_fields(id: u32, report_num: u8)
    ensures
        ({
            let e = InputEvent::Feature { id, report_num };
            let p = e.spec_payload();
            &&& e.spec_type() == 9
            &&& p.len() == 4372
            &&& u32_at(p, 0) == id
            &&& p[4] == report_num
            &&& p[5] == 2
            &&& forall|i: int| 6 <= i < 4372 ==> p[i] == 0
        }),
{
    let e = InputEvent::Feature { id, report_num };
    let p = e.spec_payload();
    assert(p =~= splice(p, 0, le32(id)));
    lemma_u32_round_trip(p, 0, id);
}

/// A legacy `FeatureAnswer` is sent as event type 10 whose payload holds the
/// request id at offset 0, the error status at 4, the number of data bytes (at
/// most `UHID_DATA_MAX`) at 6 and those bytes from 8, with zeros after them.
pub proof fn lemma_feature_answer_fields(id: u32, err: u16, data: Vec<u8>)
    ensures
        ({
            let e = InputEvent::FeatureAnswer { id, err, data };
            let p = e.spec_payload();
            let n = capped(data@.len());
            &&& e.spec_type() == 10
            &&& p.len() == 4372
            &&& u32_at(p, 0) == id
            &&& u16_at(p, 4) == err
            &&& u16_at(p, 6) as nat == n
            &&& p.subrange(8, 8 + n as int) == data@.take(n as int)
            &&& forall|i: int| 8 + n <= i < 4372 ==> p[i] == 0
        }),
{
    let e = InputEvent::FeatureAnswer { id, err, data };
    let p = e.spec_payload();
    let n = capped(data@.len());
    assert(p =~= splice(p, 0, le32(id)));
    lemma_u32_round_trip(p, 0, id);
    assert(p =~= splice(p, 4, le16(err)));
    lemma_u16_round_trip(p, 4, err);
    assert(p =~= splice(p, 6, le16(n as u16)));
    lemma_u16_round_trip(p, 6, n as u16);
    assert(p.subrange(8, 8 + n as int) =~= data@.take(n as int));
}

/// A `SetReport` is sent as event type 13 whose payload holds the request id at
/// offset 0, the report number at 4, the input report type 2 at 5, the number
/// of data bytes (at most `UHID_DATA_MAX`) at 6 and those bytes from 8, with
/// zeros after them.
pub proof fn lemma_set_report_fields(id: u32, report_num: u8, data: Vec<u8>)
    ensures
        ({
            let e = InputEvent::SetReport { id, report_num, data };
            let p = e.spec_payload();
            let n = capped(data@.len());
            &&& e.spec_type() == 13
            &&& p.len() == 4372
            &&& u32_at(p, 0) == id
            &&& p[4] == report_num
            &&& p[5] == 2
            &&& u16_at(p, 6) as nat == n
            &&& p.subrange(8, 8 + n as int) == data@.take(n as int)
            &&& forall|i: int| 8 + n <= i < 4372 ==> p[i] == 0
        }),
{
    let e = InputEvent::SetReport { id, report_num, data };
    let p = e.spec_payload();
    let n = capped(data@.len());
    assert(p =~= splice(p, 0, le32(id)));
    lemma_u32_round_trip(p, 0, id);
    assert(p =~= splice(p, 6, le16(n as u16)));
    lemma_u16_round_trip(p, 6, n as u16);
    assert(p.subrange(8, 8 + n as int) =~= data@.take(n as int));
}

/// The bytes of a fixed-size text field of `size` bytes holding `text`: the
/// text's UTF-8 bytes, cut to `size`, then zeros.
pub open spec fn text_field_holds(p: Seq<u8>, off: int, size: int, text: Seq<u8>) -> bool {
    forall|i: int|
        0 <= i < size ==> p[off + i] == (if i < text.len() {
            text[i]
        } else {
            0u8
        })
}

/// A `Create` is sent as event type 11 whose payload holds the name, physical
/// path and unique id as UTF-8 cut to 128, 64 and 64 bytes and padded with
/// zeros, then at 256 the descriptor size (at most 4096), at 258 the kernel
/// number of the bus, at 260, 264, 268 and 272 the vendor, product, version and
/// country, and from 276 the descriptor bytes padded with zeros.
pub proof fn lemma_create_fields(params: crate::uhid_device::CreateParams)
    ensures
        ({
            let e = InputEvent::Create(params);
            let p = e.spec_payload();
            let n = capped(params.rd_data@.len());
            &&& e.spec_type() == 11
            &&& p.len() == 4372
            &&& text_field_holds(p, 0, 128, encode_utf8(params.name@))
            &&& text_field_holds(p, 128, 64, encode_utf8(params.phys@))
            &&& text_field_holds(p, 192, 64, encode_utf8(params.uniq@))
            &&& u16_at(p, 256) as nat == n
            &&& u16_at(p, 258) == params.bus.spec_code()
            &&& u32_at(p, 260) == params.vendor
            &&& u32_at(p, 264) == params.product
            &&& u32_at(p, 268) == params.version
            &&& u32_at(p, 272) == params.country
            &&& text_field_holds(p, 276, 4096, params.rd_data@)
        }),
{
    let e = InputEvent::Create(params);
    let p = e.spec_payload();
    let n = capped(params.rd_data@.len());
    assert(p =~= splice(p, 256, le16(n as u16)));
    lemma_u16_round_trip(p, 256, n as u16);
    assert(p =~= splice(p, 258, le16(params.bus.spec_code())));
    lemma_u16_round_trip(p, 258, params.bus.spec_code());
    assert(p =~= splice(p, 260, le32(params.vendor)));
    lemma_u32_round_trip(p, 260, params.vendor);
    assert(p =~= splice(p, 264, le32(params.product)));
    lemma_u32_round_trip(p, 264, params.product);
    assert(p =~= splice(p, 268, le32(params.version)));
    lemma_u32_round_trip(p, 268, params.version);
    assert(p =~= splice(p, 272, le32(params.country)));
    lemma_u32_round_trip(p, 272, params.country);
}

/// The bytes an event is sent as: 4376 of them, the event type little-endian
/// at offset 0 and the payload from 4.
pub proof fn lemma_event_bytes_fields(e: InputEvent)
    ensures
        e.spec_bytes().len() == 4376,
        u32_at(e.spec_bytes(), 0) == e.spec_type(),
        e.spec_bytes().subrange(4, 4376) == e.spec_payload(),
{
    let b = e.spec_bytes();
    assert(b =~= splice(b, 0, le32(e.spec_type())));
    lemma_u32_round_trip(b, 0, e.spec_type());
    assert(b.subrange(4, 4376) =~= e.spec_payload());
}

/// The number that a text of decimal digits stands for.
pub open spec fn digits_value(s: Seq<char>) -> int
    decreases s.len(),
{
    if s.len() == 0 {
        0
    } else {
        digits_value(s.drop_last()) * 10 + (s.last() as int - 48)
    }
}

/// The decimal text of `n` is a nonempty run of the characters '0' to '9'
/// standing for `n`, with no leading zero.
pub proof fn lemma_decimal_text_value(n: nat)
    ensures
        crate::codec::decimal(n).len() >= 1,
        forall|i: int|
            0 <= i < crate::codec::decimal(n).len() ==> 48 <= (#[trigger] crate::codec::decimal(
                n,
            )[i]) as int <= 57,
        digits_value(crate::codec::decimal(n)) == n,
        n >= 1 ==> crate::codec::decimal(n)[0] as int != 48,
    decreases n,
{
    let d = crate::codec::decimal(n);
    assert(crate::codec::digit_char(n % 10) as int == 48 + n % 10);
    if n < 10 {
        assert(d.drop_last() =~= Seq::<char>::empty());
        assert(digits_value(Seq::<char>::empty()) == 0);
        assert(d.last() as int == 48 + n);
        assert(digits_value(d) == digits_value(d.drop_last()) * 10 + (d.last() as int - 48));
    }
    if n >= 10 {
        lemma_decimal_text_value(n / 10);
        let prev = crate::codec::decimal(n / 10);
        assert(d.drop_last() =~= prev);
        assert(d.last() as int == 48 + n % 10);
        assert(digits_value(d) == digits_value(prev) * 10 + (n % 10) as int);
        assert((n / 10) * 10 + n % 10 == n);
        assert(d[0] == prev[0]);
        assert forall|i: int| 0 <= i < d.len() implies 48 <= (#[trigger] d[i]) as int <= 57 by {
            if i < prev.len() {
                assert(d[i] == prev[i]);
            }
        }
    }
}

} // verus!
