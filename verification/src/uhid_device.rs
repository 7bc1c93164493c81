//! Device handle that exchanges UHID events with the kernel over a byte stream.

use vstd::prelude::*;

use crate::codec::{
    decode_spec, decoded_as, Bus, InputEvent, OutputEvent, OutputEventModel, StreamError, UHID_EVENT_SIZE,
};
use crate::layout::u32_at;

verus! {

/// Contains configuration and report descriptor information used when creating a `UHIDDevice`.
#[derive(Debug, Clone, PartialEq, Eq)]
pub struct CreateParams {
    /// Device name reported to the kernel and user space.
    pub name: String,
    /// Physical device path (can be empty).
    pub phys: String,
    /// Unique identifier for the device (can be empty).
    pub uniq: String,
    /// Bus type (e.g. `Bus::USB`, `Bus::BLUETOOTH`, `Bus::VIRTUAL`).
    pub bus: Bus,
    /// Vendor ID.
    pub vendor: u32,
    /// Product ID.
    pub product: u32,
    /// Version number.
    pub version: u32,
    /// Country code (usually 0).
    pub country: u32,
    /// Raw HID report descriptor bytes.
    pub rd_data: Vec<u8>,
}

/// A byte stream that carries UHID events to and from the kernel, such as the
/// character device `/dev/uhid` opened for reading and writing.
///
/// Implementations are expected to behave as `std::io::Write::write_all` and
/// `std::io::Read::read_exact` do. The methods carry no contract: the stream is
/// not modelled, so nothing proved here depends on what an implementation does.
pub trait EventStream {
    /// Writes all of `buf` to the stream.
    fn write_all(&mut self, buf: &[u8]) -> Result<(), std::io::Error>;

    /// Reads exactly enough bytes from the stream to fill `buf`.
    fn read_exact(&mut self, buf: &mut [u8]) -> Result<(), std::io::Error>;
}

/// What the raw bytes of one event decode to.
pub open spec fn decode_event_bytes(bytes: Seq<u8>) -> Result<OutputEventModel, u32> {
    decode_spec(u32_at(bytes, 0), bytes.subrange(4, UHID_EVENT_SIZE as int))
}

/// Character misc-device handle for interacting with a virtual UHID device.
///
/// Besides the stream, the device keeps, in ghost state only, its own record of
/// the event bytes it has passed to the stream's `write_all` and of the event
/// bytes that the stream's `read_exact` filled in. These records are kept by the
/// device's code next to each call; they are not facts that the stream reports.
pub struct UHIDDevice<T> {
    handle: T,
    sent: Ghost<Seq<Seq<u8>>>,
    received: Ghost<Seq<Seq<u8>>>,
}

impl<T> UHIDDevice<T> {
    /// The underlying stream.
    pub closed spec fn handle(&self) -> T {
        self.handle
    }

    /// The device's own record of the bytes of each event it passed to the
    /// stream's `write_all`, oldest first, whether or not the write succeeded.
    pub closed spec fn sent(&self) -> Seq<Seq<u8>> {
        self.sent@
    }

    /// The device's own record of the bytes of each event that a successful
    /// `read_exact` of the stream filled in, oldest first.
    pub closed spec fn received(&self) -> Seq<Seq<u8>> {
        self.received@
    }

    /// Creates a new `UHIDDevice` wrapping the given I/O handle.
    pub fn new(handle: T) -> (r: Self)
        ensures
            r.handle() == handle,
            r.sent() == Seq::<Seq<u8>>::empty(),
            r.received() == Seq::<Seq<u8>>::empty(),
    {
        UHIDDevice { handle, sent: Ghost(Seq::empty()), received: Ghost(Seq::empty()) }
    }

    /// Consumes the `UHIDDevice`, returning the underlying I/O handle.
    pub fn into_inner(self) -> (r: T)
        ensures
            r == self.handle(),
    {
        self.handle
    }

    /// Gets a reference to the underlying I/O handle.
    pub fn get_ref(&self) -> (r: &T)
        ensures
            *r == self.handle(),
    {
        &self.handle
    }

    /// Gets a mutable reference to the underlying I/O handle.
    pub fn get_mut(&mut self) -> (r: &mut T)
        ensures
            *r == old(self).handle(),
            final(self).handle() == *final(r),
            final(self).sent() == old(self).sent(),
            final(self).received() == old(self).received(),
    {
        &mut self.handle
    }
}

impl<T: EventStream> UHIDDevice<T> {
    /// Hands the bytes of `event` to the stream.
    fn send(&mut self, event: [u8; UHID_EVENT_SIZE]) -> (r: Result<usize, std::io::Error>)
        ensures
            final(self).sent() == old(self).sent().push(event@),
            final(self).received() == old(self).received(),
            r matches Ok(n) ==> n == UHID_EVENT_SIZE,
    {
        proof {
            self.sent@ = self.sent@.push(event@);
        }
        match self.handle.write_all(&event) {
            Ok(()) => Ok(UHID_EVENT_SIZE),
            Err(e) => Err(e),
        }
    }

    /// Opens a device on `handle` by writing the `Create` event for `params` to it.
    ///
    /// # Errors
    ///
    /// Returns an [`std::io::Error`] if writing the `Create` event fails.
    pub fn create(params: CreateParams, handle: T) -> (r: Result<Self, std::io::Error>)
        ensures
            r matches Ok(d) ==> d.sent() == seq![InputEvent::Create(params).spec_bytes()]
                && d.received() == Seq::<Seq<u8>>::empty(),
    {
        let mut device = UHIDDevice::new(handle);
        let event: [u8; UHID_EVENT_SIZE] = <[u8; UHID_EVENT_SIZE]>::from(InputEvent::Create(params));
        match device.send(event) {
            Ok(_) => {
                assert(device.sent() =~= seq![InputEvent::Create(params).spec_bytes()]);
                Ok(device)
            },
            Err(e) => Err(e),
        }
    }

    /// Writes a raw input event data payload to the device.
    ///
    /// # Errors
    ///
    /// Returns an [`std::io::Error`] if writing to the underlying handle fails.
    pub fn write(&mut self, data: &[u8]) -> (r: Result<usize, std::io::Error>)
        ensures
            final(self).sent() == old(self).sent().push(InputEvent::Input { data }.spec_bytes()),
            final(self).received() == old(self).received(),
            r matches Ok(n) ==> n == UHID_EVENT_SIZE,
    {
        let event: [u8; UHID_EVENT_SIZE] = <[u8; UHID_EVENT_SIZE]>::from(InputEvent::Input { data });
        self.send(event)
    }

    /// Writes a `SetReportReply` event in response to a `SetReport` output event from the kernel.
    ///
    /// # Errors
    ///
    /// Returns an [`std::io::Error`] if writing to the underlying handle fails.
    pub fn write_set_report_reply(&mut self, id: u32, err: u16) -> (r: Result<usize, std::io::Error>)
        ensures
            final(self).sent() == old(self).sent().push(
                InputEvent::SetReportReply { id, err }.spec_bytes(),
            ),
            final(self).received() == old(self).received(),
            r matches Ok(n) ==> n == UHID_EVENT_SIZE,
    {
        let event: [u8; UHID_EVENT_SIZE] = <[u8; UHID_EVENT_SIZE]>::from(
            InputEvent::SetReportReply { id, err },
        );
        self.send(event)
    }

    /// Writes a `GetReportReply` event with data in response to a `GetReport` output event from the kernel.
    ///
    /// # Errors
    ///
    /// Returns an [`std::io::Error`] if writing to the underlying handle fails.
    pub fn write_get_report_reply(&mut self, id: u32, err: u16, data: Vec<u8>) -> (r: Result<
        usize,
        std::io::Error,
    >)
        ensures
            final(self).sent() == old(self).sent().push(
                InputEvent::GetReportReply { id, err, data }.spec_bytes(),
            ),
            final(self).received() == old(self).received(),
            r matches Ok(n) ==> n == UHID_EVENT_SIZE,
    {
        let event: [u8; UHID_EVENT_SIZE] = <[u8; UHID_EVENT_SIZE]>::from(
            InputEvent::GetReportReply { id, err, data },
        );
        self.send(event)
    }

    /// Reads a queued output event from the kernel.
    ///
    /// # Errors
    ///
    /// Returns a [`StreamError`] if reading fails or if the kernel delivers an invalid/unrecognized event.
    pub fn read(&mut self) -> (r: Result<OutputEvent, StreamError>)
        ensures
            final(self).sent() == old(self).sent(),
            r matches Err(StreamError::Io(_)) ==> final(self).received() == old(self).received(),
            !(r matches Err(StreamError::Io(_))) ==> {
                &&& final(self).received() == old(self).received().push(final(self).received().last())
                &&& final(self).received().last().len() == UHID_EVENT_SIZE
                &&& decoded_as(r, decode_event_bytes(final(self).received().last()))
            },
    {
        let mut event = [0u8; UHID_EVENT_SIZE];
        match self.handle.read_exact(&mut event) {
            Ok(()) => {
                proof {
                    self.received@ = self.received@.push(event@);
                }
                <OutputEvent as TryFrom<[u8; UHID_EVENT_SIZE]>>::try_from(event)
            },
            Err(e) => Err(StreamError::Io(e)),
        }
    }

    /// Destroys the virtual HID device in the kernel.
    ///
    /// # Errors
    ///
    /// Returns an [`std::io::Error`] if writing the destroy command fails.
    pub fn destroy(&mut self) -> (r: Result<usize, std::io::Error>)
        ensures
            final(self).sent() == old(self).sent().push(InputEvent::Destroy.spec_bytes()),
            final(self).received() == old(self).received(),
            r matches Ok(n) ==> n == UHID_EVENT_SIZE,
    {
        let event: [u8; UHID_EVENT_SIZE] = <[u8; UHID_EVENT_SIZE]>::from(InputEvent::Destroy);
        self.send(event)
    }
}

} // verus!
