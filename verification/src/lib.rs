//! Verified core of a HID library for the Linux hidraw interface.
//!
//! The crate holds the decisions of the library: report framing, the
//! command/response exchange, identity resolution over sysfs answers, and the
//! classification of driver outcomes. It performs no I/O itself: every
//! operation that touches the system is described as a request that the
//! caller performs, followed by a function that interprets what came back.

pub mod coldcard;
pub mod device;
pub mod error;
pub mod hidraw;
pub mod protocol;
pub mod scan;
pub mod text;
pub mod timeout;

pub use device::{DeviceInfo, HidDevice, ReportDescriptor};
pub use error::{Error, IoError, IoErrorKind, Result};
pub use hidraw::{enumerate, find_devices};
