//! Error codes of UHD receive metadata.

use vstd::prelude::*;

verus! {

pub const NONE: u32 = 0;
pub const TIMEOUT: u32 = 1;
pub const LATE_COMMAND: u32 = 2;
pub const BROKEN_CHAIN: u32 = 3;
pub const OVERFLOW: u32 = 4;
pub const ALIGNMENT: u32 = 5;
pub const BAD_PACKET: u32 = 6;

} // verus!
