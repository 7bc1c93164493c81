//! Interface to Linux UHID (user-space HID transport drivers).
//!
//! The library encodes the events that user space writes to `/dev/uhid`,
//! decodes the events that the kernel delivers, and drives a device over any
//! byte stream that carries those events.

pub mod codec;
pub mod decoding_laws;
pub mod encoding_laws;
pub mod laws;
pub mod layout;
pub mod sys;
pub mod uhid_device;

pub use codec::{Bus, DevFlags, InputEvent, OutputEvent, ReportType, StreamError, UHID_EVENT_SIZE};
pub use uhid_device::{CreateParams, EventStream, UHIDDevice};
