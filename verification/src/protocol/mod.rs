//! HID protocol implementation

pub mod framing;
pub mod reports;
pub mod roundtrip;

pub use framing::{frame_packets, unframe_packets};
pub use reports::{HidReport, ReportType};
