//! Linux hidraw backend: the decisions of discovery and of the device
//! handle, over what the system answers.

pub mod device;
pub mod discovery;
pub mod enumerate;
pub mod interface;
pub mod ioctl;
pub mod paths;
pub mod poll;
pub mod resolve;
pub mod sys;
pub mod sysfs;

pub use enumerate::{enumerate, find_devices, get_device_info};
pub use sys::{HidrawReportDescriptor, HIDIOCGRDESC, HIDIOCGRDESCSIZE};
pub use device::HidrawDevice;
