//! Coldcard hardware wallet support

pub mod bounds;
pub mod commands;
pub mod constants;
pub mod device;
pub mod protocol;

pub use constants::{COINKITE_VID, COLDCARD_PID};
pub use device::ColdcardDevice;
pub use protocol::ColdcardProtocol;
