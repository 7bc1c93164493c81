//! Encoding and decoding of UHID events.

use uhid_virt_ng::codec::{Bus, DevFlags, InputEvent, OutputEvent, ReportType, StreamError, UHID_EVENT_SIZE};
use uhid_virt_ng::sys;
use uhid_virt_ng::CreateParams;

const RDESC: [u8; 85] = [
    0x05, 0x01, /* USAGE_PAGE (Generic Desktop) */
    0x09, 0x02, /* USAGE (Mouse) */
    0xa1, 0x01, /* COLLECTION (Application) */
    0x09, 0x01, /* USAGE (Pointer) */
    0xa1, 0x00, /* COLLECTION (Physical) */
    0x85, 0x01, /* REPORT_ID (1) */
    0x05, 0x09, /* USAGE_PAGE (Button) */
    0x19, 0x01, /* USAGE_MINIMUM (Button 1) */
    0x29, 0x03, /* USAGE_MAXIMUM (Button 3) */
    0x15, 0x00, /* LOGICAL_MINIMUM (0) */
    0x25, 0x01, /* LOGICAL_MAXIMUM (1) */
    0x95, 0x03, /* REPORT_COUNT (3) */
    0x75, 0x01, /* REPORT_SIZE (1) */
    0x81, 0x02, /* INPUT (Data,Var,Abs) */
    0x95, 0x01, /* REPORT_COUNT (1) */
    0x75, 0x05, /* REPORT_SIZE (5) */
    0x81, 0x01, /* INPUT (Cnst,Var,Abs) */
    0x05, 0x01, /* USAGE_PAGE (Generic Desktop) */
    0x09, 0x30, /* USAGE (X) */
    0x09, 0x31, /* USAGE (Y) */
    0x09, 0x38, /* USAGE (WHEEL) */
    0x15, 0x81, /* LOGICAL_MINIMUM (-127) */
    0x25, 0x7f, /* LOGICAL_MAXIMUM (127) */
    0x75, 0x08, /* REPORT_SIZE (8) */
    0x95, 0x03, /* REPORT_COUNT (3) */
    0x81, 0x06, /* INPUT (Data,Var,Rel) */
    0xc0, /* END_COLLECTION */
    0xc0, /* END_COLLECTION */
    0x05, 0x01, /* USAGE_PAGE (Generic Desktop) */
    0x09, 0x06, /* USAGE (Keyboard) */
    0xa1, 0x01, /* COLLECTION (Application) */
    0x85, 0x02, /* REPORT_ID (2) */
    0x05, 0x08, /* USAGE_PAGE (Led) */
    0x19, 0x01, /* USAGE_MINIMUM (1) */
    0x29, 0x03, /* USAGE_MAXIMUM (3) */
    0x15, 0x00, /* LOGICAL_MINIMUM (0) */
    0x25, 0x01, /* LOGICAL_MAXIMUM (1) */
    0x95, 0x03, /* REPORT_COUNT (3) */
    0x75, 0x01, /* REPORT_SIZE (1) */
    0x91, 0x02, /* Output (Data,Var,Abs) */
    0x95, 0x01, /* REPORT_COUNT (1) */
    0x75, 0x05, /* REPORT_SIZE (5) */
    0x91, 0x01, /* Output (Cnst,Var,Abs) */
    0xc0, /* END_COLLECTION */
];

fn assert_bytes_eq(actual: &[u8], expected: &[u8]) {
    assert_eq!(actual.len(), expected.len(), "Size of slices differs");
    for index in 0..actual.len() {
        assert_eq!(
            actual[index], expected[index],
            "Bytes differ at index {index}"
        );
    }
}

#[test]
fn encode_create_request() {
    let mut expected = [0; UHID_EVENT_SIZE];
    expected[0] = 0x0b;
    expected[4] = 0x74;
    expected[5] = 0x65;
    expected[6] = 0x73;
    expected[7] = 0x74;
    expected[8] = 0x2d;
    expected[9] = 0x75;
    expected[10] = 0x68;
    expected[11] = 0x69;
    expected[12] = 0x64;
    expected[13] = 0x2d;
    expected[14] = 0x64;
    expected[15] = 0x65;
    expected[16] = 0x76;
    expected[17] = 0x69;
    expected[18] = 0x63;
    expected[19] = 0x65;
    expected[260] = 0x55;
    expected[262] = 0x03;
    expected[264] = 0xd9;
    expected[265] = 0x15;
    expected[268] = 0x37;
    expected[269] = 0x0a;
    expected[280] = 0x05;
    expected[281] = 0x01;
    expected[282] = 0x09;
    expected[283] = 0x02;
    expected[284] = 0xa1;
    expected[285] = 0x01;
    expected[286] = 0x09;
    expected[287] = 0x01;
    expected[288] = 0xa1;
    expected[290] = 0x85;
    expected[291] = 0x01;
    expected[292] = 0x05;
    expected[293] = 0x09;
    expected[294] = 0x19;
    expected[295] = 0x01;
    expected[296] = 0x29;
    expected[297] = 0x03;
    expected[298] = 0x15;
    expected[300] = 0x25;
    expected[301] = 0x01;
    expected[302] = 0x95;
    expected[303] = 0x03;
    expected[304] = 0x75;
    expected[305] = 0x01;
    expected[306] = 0x81;
    expected[307] = 0x02;
    expected[308] = 0x95;
    expected[309] = 0x01;
    expected[310] = 0x75;
    expected[311] = 0x05;
    expected[312] = 0x81;
    expected[313] = 0x01;
    expected[314] = 0x05;
    expected[315] = 0x01;
    expected[316] = 0x09;
    expected[317] = 0x30;
    expected[318] = 0x09;
    expected[319] = 0x31;
    expected[320] = 0x09;
    expected[321] = 0x38;
    expected[322] = 0x15;
    expected[323] = 0x81;
    expected[324] = 0x25;
    expected[325] = 0x7f;
    expected[326] = 0x75;
    expected[327] = 0x08;
    expected[328] = 0x95;
    expected[329] = 0x03;
    expected[330] = 0x81;
    expected[331] = 0x06;
    expected[332] = 0xc0;
    expected[333] = 0xc0;
    expected[334] = 0x05;
    expected[335] = 0x01;
    expected[336] = 0x09;
    expected[337] = 0x06;
    expected[338] = 0xa1;
    expected[339] = 0x01;
    expected[340] = 0x85;
    expected[341] = 0x02;
    expected[342] = 0x05;
    expected[343] = 0x08;
    expected[344] = 0x19;
    expected[345] = 0x01;
    expected[346] = 0x29;
    expected[347] = 0x03;
    expected[348] = 0x15;
    expected[350] = 0x25;
    expected[351] = 0x01;
    expected[352] = 0x95;
    expected[353] = 0x03;
    expected[354] = 0x75;
    expected[355] = 0x01;
    expected[356] = 0x91;
    expected[357] = 0x02;
    expected[358] = 0x95;
    expected[359] = 0x01;
    expected[360] = 0x75;
    expected[361] = 0x05;
    expected[362] = 0x91;
    expected[363] = 0x01;
    expected[364] = 0xc0;

    let result: [u8; UHID_EVENT_SIZE] = InputEvent::Create(CreateParams {
        name: String::from("test-uhid-device"),
        phys: String::new(),
        uniq: String::new(),
        bus: Bus::USB,
        vendor: 0x15d9,
        product: 0x0a37,
        version: 0,
        country: 0,
        rd_data: RDESC.to_vec(),
    })
    .into();

    assert_bytes_eq(&result[..], &expected);
}

#[test]
fn encode_destroy_request() {
    let mut expected = vec![0; UHID_EVENT_SIZE];
    expected[0] = 0x01;

    let result: [u8; UHID_EVENT_SIZE] = InputEvent::Destroy.into();
    assert_bytes_eq(&result[..], &expected);
}

#[test]
fn dev_flags_parsing() {
    let flags = DevFlags::from_bits_truncate(
        sys::UHID_DEV_NUMBERED_FEATURE_REPORTS | sys::UHID_DEV_NUMBERED_INPUT_REPORTS,
    );
    assert_eq!(
        flags,
        vec![
            DevFlags::FeatureReportsNumbered,
            DevFlags::InputReportsNumbered
        ]
    );
    assert_eq!(DevFlags::from_bits_truncate(0), Vec::<DevFlags>::new());
    assert_eq!(
        DevFlags::from_bits_truncate(
            sys::UHID_DEV_NUMBERED_FEATURE_REPORTS
                | sys::UHID_DEV_NUMBERED_OUTPUT_REPORTS
                | sys::UHID_DEV_NUMBERED_INPUT_REPORTS
                | 0xff00
        ),
        vec![
            DevFlags::FeatureReportsNumbered,
            DevFlags::OutputReportsNumbered,
            DevFlags::InputReportsNumbered
        ]
    );
}

#[test]
fn dev_flags_bits() {
    assert_eq!(
        DevFlags::FeatureReportsNumbered.bits(),
        sys::UHID_DEV_NUMBERED_FEATURE_REPORTS
    );
    assert_eq!(
        DevFlags::OutputReportsNumbered.bits(),
        sys::UHID_DEV_NUMBERED_OUTPUT_REPORTS
    );
    assert_eq!(
        DevFlags::InputReportsNumbered.bits(),
        sys::UHID_DEV_NUMBERED_INPUT_REPORTS
    );
}

#[test]
fn report_type_conversions() {
    assert_eq!(ReportType::try_from(0).unwrap(), ReportType::Feature);
    assert_eq!(ReportType::try_from(1).unwrap(), ReportType::Output);
    assert_eq!(ReportType::try_from(2).unwrap(), ReportType::Input);
    assert!(ReportType::try_from(99).is_err());
}

#[test]
fn encode_input_event() {
    let data = [0x01, 0x02, 0x03, 0x04];
    let event: sys::uhid_event = InputEvent::Input { data: &data }.into();
    assert_eq!({ event.type_ }, sys::UHID_EVENT_TYPE_UHID_INPUT2);
    let payload = event.u.input2();
    assert_eq!({ payload.size }, 4);
    let payload_data = payload.data;
    assert_eq!(&payload_data[..4], &data);
}

#[test]
fn encode_output_event() {
    let data = vec![0x10, 0x20];
    let event: sys::uhid_event = InputEvent::Output { data: data.clone() }.into();
    assert_eq!({ event.type_ }, sys::UHID_EVENT_TYPE_UHID_OUTPUT);
    let payload = event.u.output();
    assert_eq!({ payload.size }, 2);
    assert_eq!({ payload.rtype }, sys::UHID_REPORT_TYPE_UHID_OUTPUT_REPORT);
    let payload_data = payload.data;
    assert_eq!(&payload_data[..2], &data[..]);
}

#[test]
fn encode_output_ev_event() {
    let event: sys::uhid_event = InputEvent::OutputEv {
        type_: 1,
        code: 2,
        value: -3,
    }
    .into();
    assert_eq!({ event.type_ }, sys::UHID_LEGACY_EVENT_TYPE_UHID_OUTPUT_EV);
    let payload = event.u.output_ev();
    assert_eq!({ payload.type_ }, 1);
    assert_eq!({ payload.code }, 2);
    assert_eq!({ payload.value }, -3);
}

#[test]
fn encode_get_report_reply_event() {
    let data = vec![0xaa, 0xbb];
    let event: sys::uhid_event = InputEvent::GetReportReply {
        id: 7,
        err: 0,
        data: data.clone(),
    }
    .into();
    assert_eq!({ event.type_ }, sys::UHID_EVENT_TYPE_UHID_GET_REPORT_REPLY);
    let payload = event.u.get_report_reply();
    assert_eq!({ payload.id }, 7);
    assert_eq!({ payload.err }, 0);
    assert_eq!({ payload.size }, 2);
    let payload_data = payload.data;
    assert_eq!(&payload_data[..2], &data[..]);
}

#[test]
fn encode_set_report_reply_event() {
    let event: sys::uhid_event = InputEvent::SetReportReply { id: 8, err: 1 }.into();
    assert_eq!({ event.type_ }, sys::UHID_EVENT_TYPE_UHID_SET_REPORT_REPLY);
    let payload = event.u.set_report_reply();
    assert_eq!({ payload.id }, 8);
    assert_eq!({ payload.err }, 1);
}

#[test]
fn encode_feature_and_feature_answer_event() {
    let event: sys::uhid_event = InputEvent::Feature {
        id: 9,
        report_num: 3,
    }
    .into();
    assert_eq!({ event.type_ }, sys::UHID_LEGACY_EVENT_TYPE_UHID_FEATURE);
    let payload = event.u.feature();
    assert_eq!({ payload.id }, 9);
    assert_eq!({ payload.rnum }, 3);
    assert_eq!({ payload.rtype }, sys::UHID_REPORT_TYPE_UHID_INPUT_REPORT);

    let data = vec![0x55];
    let answer: sys::uhid_event = InputEvent::FeatureAnswer {
        id: 10,
        err: 0,
        data: data.clone(),
    }
    .into();
    assert_eq!(
        { answer.type_ },
        sys::UHID_LEGACY_EVENT_TYPE_UHID_FEATURE_ANSWER
    );
    let payload = answer.u.feature_answer();
    assert_eq!({ payload.id }, 10);
    assert_eq!({ payload.err }, 0);
    assert_eq!({ payload.size }, 1);
    let payload_data = payload.data;
    assert_eq!(&payload_data[..1], &data[..]);
}

#[test]
fn encode_set_report_event() {
    let data = vec![0x11, 0x22, 0x33];
    let event: sys::uhid_event = InputEvent::SetReport {
        id: 12,
        report_num: 5,
        data: data.clone(),
    }
    .into();
    assert_eq!({ event.type_ }, sys::UHID_EVENT_TYPE_UHID_SET_REPORT);
    let payload = event.u.set_report();
    assert_eq!({ payload.id }, 12);
    assert_eq!({ payload.rnum }, 5);
    assert_eq!({ payload.rtype }, sys::UHID_REPORT_TYPE_UHID_INPUT_REPORT);
    assert_eq!({ payload.size }, 3);
    let payload_data = payload.data;
    assert_eq!(&payload_data[..3], &data[..]);
}

#[test]
fn decode_lifecycle_output_events() {
    let stop_event = sys::uhid_event {
        type_: sys::UHID_EVENT_TYPE_UHID_STOP,
        ..Default::default()
    };
    assert_eq!(
        OutputEvent::try_from(stop_event).unwrap(),
        OutputEvent::Stop
    );

    let open_event = sys::uhid_event {
        type_: sys::UHID_EVENT_TYPE_UHID_OPEN,
        ..Default::default()
    };
    assert_eq!(
        OutputEvent::try_from(open_event).unwrap(),
        OutputEvent::Open
    );

    let close_event = sys::uhid_event {
        type_: sys::UHID_EVENT_TYPE_UHID_CLOSE,
        ..Default::default()
    };
    assert_eq!(
        OutputEvent::try_from(close_event).unwrap(),
        OutputEvent::Close
    );
}

#[test]
fn decode_output_and_report_events() {
    let mut raw_output = sys::uhid_event {
        type_: sys::UHID_EVENT_TYPE_UHID_OUTPUT,
        ..Default::default()
    };
    let mut output_payload = sys::uhid_output_req {
        data: [0; sys::UHID_DATA_MAX],
        size: 3,
        rtype: sys::UHID_REPORT_TYPE_UHID_OUTPUT_REPORT,
    };
    output_payload.data[..3].copy_from_slice(&[0x01, 0x02, 0x03]);
    raw_output.u.write_output(output_payload);

    let decoded = OutputEvent::try_from(raw_output).unwrap();
    assert_eq!(
        decoded,
        OutputEvent::Output {
            data: vec![0x01, 0x02, 0x03]
        }
    );

    let mut get_report_event = sys::uhid_event {
        type_: sys::UHID_EVENT_TYPE_UHID_GET_REPORT,
        ..Default::default()
    };
    get_report_event.u.write_get_report(sys::uhid_get_report_req {
        id: 15,
        rnum: 2,
        rtype: sys::UHID_REPORT_TYPE_UHID_FEATURE_REPORT,
    });
    let decoded_get = OutputEvent::try_from(get_report_event).unwrap();
    assert_eq!(
        decoded_get,
        OutputEvent::GetReport {
            id: 15,
            report_number: 2,
            report_type: ReportType::Feature,
        }
    );

    let mut set_report_event = sys::uhid_event {
        type_: sys::UHID_EVENT_TYPE_UHID_SET_REPORT,
        ..Default::default()
    };
    let mut set_payload = sys::uhid_set_report_req {
        id: 20,
        rnum: 4,
        rtype: sys::UHID_REPORT_TYPE_UHID_OUTPUT_REPORT,
        size: 2,
        data: [0; sys::UHID_DATA_MAX],
    };
    set_payload.data[..2].copy_from_slice(&[0xaa, 0x55]);
    set_report_event.u.write_set_report(set_payload);

    let decoded_set = OutputEvent::try_from(set_report_event).unwrap();
    assert_eq!(
        decoded_set,
        OutputEvent::SetReport {
            id: 20,
            report_number: 4,
            report_type: ReportType::Output,
            data: vec![0xaa, 0x55],
        }
    );
}

#[test]
fn decode_unknown_events_and_invalid_reports() {
    let unknown = sys::uhid_event {
        type_: 999,
        ..Default::default()
    };
    assert!(matches!(
        OutputEvent::try_from(unknown),
        Err(StreamError::UnknownEventType(999))
    ));

    let mut invalid_report = sys::uhid_event {
        type_: sys::UHID_EVENT_TYPE_UHID_GET_REPORT,
        ..Default::default()
    };
    invalid_report.u.write_get_report(sys::uhid_get_report_req {
        id: 1,
        rnum: 1,
        rtype: 99,
    });
    assert!(matches!(
        OutputEvent::try_from(invalid_report),
        Err(StreamError::UnknownEventType(99))
    ));
}

#[test]
fn stream_error_display_and_trait() {
    let err_unknown = StreamError::UnknownEventType(42);
    assert_eq!(err_unknown.to_string(), "Unknown UHID event type: 42");
    assert!(err_unknown.source().is_none());

    let io_err = std::io::Error::new(std::io::ErrorKind::PermissionDenied, "permission denied");
    let err_io = StreamError::Io(io_err);
    assert!(err_io.to_string().contains("UHID I/O error"));
    assert!(err_io.source().is_some());
}
