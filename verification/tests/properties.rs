//! Concrete cases of the properties that the library proves, and the edges
//! of the encoding and decoding rules.

use std::io::{self, Cursor, Read, Write};

use uhid_virt_ng::codec::{
    decimal_text, Bus, DevFlags, InputEvent, OutputEvent, ReportType, StreamError, UHID_EVENT_SIZE,
};
use uhid_virt_ng::sys;
use uhid_virt_ng::{CreateParams, EventStream, UHIDDevice};

fn decode(event: InputEvent<'_>) -> Result<OutputEvent, StreamError> {
    let bytes: [u8; UHID_EVENT_SIZE] = event.into();
    OutputEvent::try_from(bytes)
}

#[test]
fn single_flag_bits_decode_to_that_flag() {
    for flag in [
        DevFlags::FeatureReportsNumbered,
        DevFlags::OutputReportsNumbered,
        DevFlags::InputReportsNumbered,
    ] {
        assert_eq!(DevFlags::from_bits_truncate(flag.bits()), vec![flag]);
    }
}

#[test]
fn unknown_flag_bits_are_ignored() {
    assert_eq!(DevFlags::from_bits_truncate(0xffff_ffff_ffff_fff8), Vec::<DevFlags>::new());
    assert_eq!(
        DevFlags::from_bits_truncate(0x8000_0000_0000_0002),
        vec![DevFlags::OutputReportsNumbered]
    );
}

#[test]
fn report_type_codes_round_trip() {
    for t in [ReportType::Feature, ReportType::Output, ReportType::Input] {
        assert_eq!(ReportType::try_from(t.code()).unwrap(), t);
    }
    assert!(matches!(ReportType::try_from(3), Err(StreamError::UnknownEventType(3))));
    assert!(matches!(ReportType::try_from(255), Err(StreamError::UnknownEventType(255))));
}

#[test]
fn bus_codes() {
    assert_eq!(Bus::PCI.code(), 1);
    assert_eq!(Bus::USB.code(), 3);
    assert_eq!(Bus::VIRTUAL.code(), 6);
    assert_eq!(Bus::ISA.code(), 16);
    assert_eq!(Bus::INTEL_ISHTP.code(), 31);
}

#[test]
fn output_event_reads_back() {
    let decoded = decode(InputEvent::Output { data: vec![9, 8, 7] }).unwrap();
    assert_eq!(decoded, OutputEvent::Output { data: vec![9, 8, 7] });
}

#[test]
fn set_report_reads_back_as_input_report() {
    let decoded = decode(InputEvent::SetReport {
        id: 0xdead_beef,
        report_num: 6,
        data: vec![1, 2],
    })
    .unwrap();
    assert_eq!(
        decoded,
        OutputEvent::SetReport {
            id: 0xdead_beef,
            report_number: 6,
            report_type: ReportType::Input,
            data: vec![1, 2],
        }
    );
}

#[test]
fn feature_reads_back_as_get_report() {
    let decoded = decode(InputEvent::Feature { id: 77, report_num: 4 }).unwrap();
    assert_eq!(
        decoded,
        OutputEvent::GetReport {
            id: 77,
            report_number: 4,
            report_type: ReportType::Input,
        }
    );
}

#[test]
fn user_events_are_not_decoded() {
    assert!(matches!(decode(InputEvent::Destroy), Err(StreamError::UnknownEventType(1))));
    assert!(matches!(
        decode(InputEvent::Input { data: &[1, 2, 3] }),
        Err(StreamError::UnknownEventType(12))
    ));
    assert!(matches!(
        decode(InputEvent::OutputEv { type_: 1, code: 2, value: 3 }),
        Err(StreamError::UnknownEventType(7))
    ));
    assert!(matches!(
        decode(InputEvent::SetReportReply { id: 1, err: 0 }),
        Err(StreamError::UnknownEventType(14))
    ));
    assert!(matches!(
        decode(InputEvent::FeatureAnswer { id: 1, err: 0, data: vec![] }),
        Err(StreamError::UnknownEventType(10))
    ));
}

#[test]
fn long_input_is_cut_to_data_max() {
    let data = vec![0xab; sys::UHID_DATA_MAX + 10];
    let event: sys::uhid_event = InputEvent::Input { data: &data }.into();
    let payload = event.u.input2();
    assert_eq!({ payload.size }, 4096);
    assert!(payload.data.iter().all(|b| *b == 0xab));
}

#[test]
fn long_output_reads_back_cut_to_data_max() {
    let data: Vec<u8> = (0..5000u32).map(|i| (i % 251) as u8).collect();
    let decoded = decode(InputEvent::Output { data: data.clone() }).unwrap();
    assert_eq!(
        decoded,
        OutputEvent::Output {
            data: data[..sys::UHID_DATA_MAX].to_vec()
        }
    );
}

#[test]
fn oversized_size_field_is_clamped() {
    let mut event = sys::uhid_event {
        type_: sys::UHID_EVENT_TYPE_UHID_OUTPUT,
        ..Default::default()
    };
    event.u.write_output(sys::uhid_output_req {
        data: [5; sys::UHID_DATA_MAX],
        size: 0xffff,
        rtype: sys::UHID_REPORT_TYPE_UHID_OUTPUT_REPORT,
    });
    match OutputEvent::try_from(event).unwrap() {
        OutputEvent::Output { data } => assert_eq!(data, vec![5; sys::UHID_DATA_MAX]),
        other => panic!("unexpected event {other:?}"),
    }
}

#[test]
fn start_event_flags_are_decoded() {
    let mut event = sys::uhid_event {
        type_: sys::UHID_EVENT_TYPE_UHID_START,
        ..Default::default()
    };
    event.u.write_start(sys::uhid_start_req { dev_flags: 0b110 });
    assert_eq!(
        OutputEvent::try_from(event).unwrap(),
        OutputEvent::Start {
            dev_flags: vec![DevFlags::OutputReportsNumbered, DevFlags::InputReportsNumbered]
        }
    );
}

#[test]
fn set_report_with_bad_report_type_is_refused() {
    let mut event = sys::uhid_event {
        type_: sys::UHID_EVENT_TYPE_UHID_SET_REPORT,
        ..Default::default()
    };
    event.u.write_set_report(sys::uhid_set_report_req {
        id: 1,
        rnum: 1,
        rtype: 7,
        size: 0,
        data: [0; sys::UHID_DATA_MAX],
    });
    assert!(matches!(OutputEvent::try_from(event), Err(StreamError::UnknownEventType(7))));
}

#[test]
fn event_bytes_round_trip() {
    let mut event = sys::uhid_event {
        type_: 0x0102_0304,
        ..Default::default()
    };
    event.u.write_output_ev(sys::uhid_output_ev_req {
        type_: 0xa1b2,
        code: 0x0c0d,
        value: -2,
    });
    let bytes = event.to_bytes();
    assert_eq!(&bytes[..12], &[4, 3, 2, 1, 0xb2, 0xa1, 0x0d, 0x0c, 0xfe, 0xff, 0xff, 0xff]);
    let back = sys::uhid_event::from_bytes(&bytes);
    assert_eq!({ back.type_ }, 0x0102_0304);
    assert_eq!(back.to_bytes(), bytes);
    let payload = back.u.output_ev();
    assert_eq!(
        payload,
        sys::uhid_output_ev_req {
            type_: 0xa1b2,
            code: 0x0c0d,
            value: -2
        }
    );
}

#[test]
fn member_written_then_read_back() {
    let mut payload = sys::uhid_event_payload::zeroed();
    let mut data = [0u8; sys::UHID_DATA_MAX];
    data[0] = 1;
    data[4095] = 2;
    let reply = sys::uhid_get_report_reply_req {
        id: 0x1234_5678,
        err: 5,
        size: 4095,
        data,
    };
    payload.write_get_report_reply(reply);
    assert_eq!(payload.get_report_reply(), reply);
    assert_eq!(&payload.raw[..8], &[0x78, 0x56, 0x34, 0x12, 5, 0, 0xff, 0x0f]);
}

#[test]
fn create_truncates_long_strings() {
    let params = CreateParams {
        name: "n".repeat(200),
        phys: "p".repeat(70),
        uniq: String::from("u"),
        bus: Bus::BLUETOOTH,
        vendor: 1,
        product: 2,
        version: 3,
        country: 4,
        rd_data: vec![0x11; 5000],
    };
    let event: sys::uhid_event = InputEvent::Create(params).into();
    assert_eq!({ event.type_ }, sys::UHID_EVENT_TYPE_UHID_CREATE2);
    let req = event.u.create2();
    assert_eq!(req.name, [b'n'; 128]);
    assert_eq!(req.phys, [b'p'; 64]);
    assert_eq!(req.uniq[0], b'u');
    assert!(req.uniq[1..].iter().all(|b| *b == 0));
    assert_eq!({ req.rd_size }, 4096);
    assert_eq!({ req.bus }, 5);
    assert_eq!(
        ({ req.vendor }, { req.product }, { req.version }, { req.country }),
        (1, 2, 3, 4)
    );
    assert_eq!(req.rd_data, [0x11; 4096]);
}

#[test]
fn unknown_event_message_prints_decimal() {
    assert_eq!(
        StreamError::UnknownEventType(0).to_string(),
        "Unknown UHID event type: 0"
    );
    assert_eq!(
        StreamError::UnknownEventType(u32::MAX).to_string(),
        "Unknown UHID event type: 4294967295"
    );
}

#[test]
fn io_error_message_carries_detail() {
    let err = StreamError::Io(io::Error::new(io::ErrorKind::Other, "boom"));
    assert_eq!(err.to_string(), "UHID I/O error: boom");
    assert_eq!(err.source().unwrap().kind(), io::ErrorKind::Other);
}

#[derive(Default)]
struct Loopback {
    buf: Vec<u8>,
    fail_writes: bool,
}

impl EventStream for Loopback {
    fn write_all(&mut self, buf: &[u8]) -> io::Result<()> {
        if self.fail_writes {
            return Err(io::Error::new(io::ErrorKind::BrokenPipe, "closed"));
        }
        self.buf.write_all(buf)
    }

    fn read_exact(&mut self, buf: &mut [u8]) -> io::Result<()> {
        let mut cursor = Cursor::new(std::mem::take(&mut self.buf));
        let result = cursor.read_exact(buf);
        let pos = cursor.position() as usize;
        self.buf = cursor.into_inner().split_off(pos);
        result
    }
}

#[test]
fn create_writes_the_create_event() {
    let params = CreateParams {
        name: String::from("dev"),
        phys: String::new(),
        uniq: String::new(),
        bus: Bus::USB,
        vendor: 0x15d9,
        product: 0x0a37,
        version: 0,
        country: 0,
        rd_data: vec![0x05, 0x01],
    };
    let device = UHIDDevice::create(params.clone(), Loopback::default()).unwrap();
    let expected: [u8; UHID_EVENT_SIZE] = InputEvent::Create(params).into();
    assert_eq!(device.get_ref().buf.as_slice(), &expected[..]);
}

#[test]
fn create_reports_write_failure() {
    let params = CreateParams {
        name: String::new(),
        phys: String::new(),
        uniq: String::new(),
        bus: Bus::VIRTUAL,
        vendor: 0,
        product: 0,
        version: 0,
        country: 0,
        rd_data: Vec::new(),
    };
    let stream = Loopback {
        buf: Vec::new(),
        fail_writes: true,
    };
    let err = UHIDDevice::create(params, stream).err().unwrap();
    assert_eq!(err.kind(), io::ErrorKind::BrokenPipe);
}

#[test]
fn device_reads_back_what_it_wrote() {
    let mut device = UHIDDevice::new(Loopback::default());
    assert_eq!(device.destroy().unwrap(), UHID_EVENT_SIZE);
    assert!(matches!(device.read(), Err(StreamError::UnknownEventType(1))));
    assert!(matches!(device.read(), Err(StreamError::Io(_))));
}

#[test]
fn raw_events_convert_with_try_into() {
    let event = sys::uhid_event {
        type_: sys::UHID_EVENT_TYPE_UHID_OPEN,
        ..Default::default()
    };
    let decoded: Result<OutputEvent, StreamError> = event.try_into();
    assert_eq!(decoded.unwrap(), OutputEvent::Open);
    let bytes: [u8; UHID_EVENT_SIZE] = InputEvent::Output { data: vec![3] }.into();
    let decoded: Result<OutputEvent, StreamError> = bytes.try_into();
    assert_eq!(decoded.unwrap(), OutputEvent::Output { data: vec![3] });
}

#[test]
fn io_error_message_prefixes_detail() {
    assert_eq!(
        uhid_virt_ng::codec::io_error_message("disk gone"),
        "UHID I/O error: disk gone"
    );
    assert_eq!(uhid_virt_ng::codec::io_error_message(""), "UHID I/O error: ");
}

#[test]
fn decimal_text_of_boundaries() {
    assert_eq!(decimal_text(0), "0");
    assert_eq!(decimal_text(9), "9");
    assert_eq!(decimal_text(10), "10");
    assert_eq!(decimal_text(1_000_007), "1000007");
    assert_eq!(decimal_text(u32::MAX), u32::MAX.to_string());
}
