//! Coldcard commands: four ASCII bytes each.

use vstd::prelude::*;

verus! {

/// Ping command, `ping`
pub const PING: [u8; 4] = [0x70, 0x69, 0x6e, 0x67];

/// Version command, `vers`
pub const VERSION: [u8; 4] = [0x76, 0x65, 0x72, 0x73];

/// Reboot command, `rebo`
pub const REBOOT: [u8; 4] = [0x72, 0x65, 0x62, 0x6f];

/// Check status, `stat`
pub const STATUS: [u8; 4] = [0x73, 0x74, 0x61, 0x74];

/// Get XPub, `xpub`
pub const GET_XPUB: [u8; 4] = [0x78, 0x70, 0x75, 0x62];

/// Sign transaction, `stxn`
pub const SIGN_TX: [u8; 4] = [0x73, 0x74, 0x78, 0x6e];

/// Get address, `addr`
pub const GET_ADDR: [u8; 4] = [0x61, 0x64, 0x64, 0x72];

} // verus!
