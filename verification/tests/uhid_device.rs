//! The device handle over an in-memory stream.

use std::io::{self, Cursor, Read, Write};

use uhid_virt_ng::{EventStream, InputEvent, OutputEvent, StreamError, UHIDDevice, UHID_EVENT_SIZE};

#[derive(Default)]
struct MockStream {
    read_buf: Cursor<Vec<u8>>,
    write_buf: Vec<u8>,
}

impl MockStream {
    fn with_read_data(data: Vec<u8>) -> Self {
        Self {
            read_buf: Cursor::new(data),
            write_buf: Vec::new(),
        }
    }
}

impl Read for MockStream {
    fn read(&mut self, buf: &mut [u8]) -> io::Result<usize> {
        self.read_buf.read(buf)
    }
}

impl Write for MockStream {
    fn write(&mut self, buf: &[u8]) -> io::Result<usize> {
        self.write_buf.extend_from_slice(buf);
        Ok(buf.len())
    }

    fn flush(&mut self) -> io::Result<()> {
        Ok(())
    }
}

impl EventStream for MockStream {
    fn write_all(&mut self, buf: &[u8]) -> io::Result<()> {
        Write::write_all(self, buf)
    }

    fn read_exact(&mut self, buf: &mut [u8]) -> io::Result<()> {
        Read::read_exact(self, buf)
    }
}

#[test]
fn device_new_and_accessors() {
    let stream = MockStream::default();
    let mut device = UHIDDevice::new(stream);

    assert_eq!(device.get_ref().write_buf.len(), 0);
    device.get_mut().write_buf.push(42);
    assert_eq!(device.get_ref().write_buf, vec![42]);

    let inner = device.into_inner();
    assert_eq!(inner.write_buf, vec![42]);
}

#[test]
fn device_write_input_event() {
    let stream = MockStream::default();
    let mut device = UHIDDevice::new(stream);

    let data = [0x01, 0x02, 0x03];
    let bytes_written = device.write(&data).expect("write failed");
    assert_eq!(bytes_written, UHID_EVENT_SIZE);

    let written = &device.get_ref().write_buf;
    assert_eq!(written.len(), UHID_EVENT_SIZE);

    let expected: [u8; UHID_EVENT_SIZE] = InputEvent::Input { data: &data }.into();
    assert_eq!(written.as_slice(), &expected[..]);
}

#[test]
fn device_write_set_report_reply() {
    let stream = MockStream::default();
    let mut device = UHIDDevice::new(stream);

    let bytes_written = device
        .write_set_report_reply(42, 0)
        .expect("write_set_report_reply failed");
    assert_eq!(bytes_written, UHID_EVENT_SIZE);

    let written = &device.get_ref().write_buf;
    let expected: [u8; UHID_EVENT_SIZE] = InputEvent::SetReportReply { id: 42, err: 0 }.into();
    assert_eq!(written.as_slice(), &expected[..]);
}

#[test]
fn device_write_get_report_reply() {
    let stream = MockStream::default();
    let mut device = UHIDDevice::new(stream);

    let reply_data = vec![0xaa, 0xbb, 0xcc];
    let bytes_written = device
        .write_get_report_reply(10, 0, reply_data.clone())
        .expect("write_get_report_reply failed");
    assert_eq!(bytes_written, UHID_EVENT_SIZE);

    let written = &device.get_ref().write_buf;
    let expected: [u8; UHID_EVENT_SIZE] = InputEvent::GetReportReply {
        id: 10,
        err: 0,
        data: reply_data,
    }
    .into();
    assert_eq!(written.as_slice(), &expected[..]);
}

#[test]
fn device_destroy() {
    let stream = MockStream::default();
    let mut device = UHIDDevice::new(stream);

    let bytes_written = device.destroy().expect("destroy failed");
    assert_eq!(bytes_written, UHID_EVENT_SIZE);

    let written = &device.get_ref().write_buf;
    let expected: [u8; UHID_EVENT_SIZE] = InputEvent::Destroy.into();
    assert_eq!(written.as_slice(), &expected[..]);
}

#[test]
fn device_read_output_event() {
    let mut raw_event = [0u8; UHID_EVENT_SIZE];
    // UHID_START = 2
    raw_event[0] = 2;

    let stream = MockStream::with_read_data(raw_event.to_vec());
    let mut device = UHIDDevice::new(stream);

    let event = device.read().expect("read failed");
    assert_eq!(event, OutputEvent::Start { dev_flags: vec![] });
}

#[test]
fn device_read_eof_error() {
    let stream = MockStream::with_read_data(vec![0u8; 10]); // Truncated data
    let mut device = UHIDDevice::new(stream);

    let err = device.read().unwrap_err();
    match err {
        StreamError::Io(io_err) => {
            assert_eq!(io_err.kind(), io::ErrorKind::UnexpectedEof);
        }
        StreamError::UnknownEventType(_) => panic!("Expected IO UnexpectedEof error"),
    }
}
