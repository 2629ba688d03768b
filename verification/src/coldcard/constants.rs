//! Coldcard USB constants and protocol definitions

use vstd::prelude::*;

verus! {

/// Coinkite vendor ID
pub const COINKITE_VID: u16 = 0xd13e;

/// Coldcard product ID
pub const COLDCARD_PID: u16 = 0xcc10;

/// Maximum message size for Coldcard
pub const MAX_MSG_SIZE: usize = 4096;

/// HID packet size for Coldcard
pub const PACKET_SIZE: usize = 64;

} // verus!
