//! Stream mode codes of UHD stream commands.

use vstd::prelude::*;

verus! {

pub const START_CONTINUOUS: u32 = 0;
pub const STOP_CONTINUOUS: u32 = 1;
pub const NUM_SAMPS_AND_DONE: u32 = 2;
pub const NUM_SAMPS_AND_MORE: u32 = 3;

} // verus!
