//! PPS synchronisation status.

use vstd::prelude::*;

use crate::hardware::TimeSpec;

verus! {

/// PPS synchronization status
#[derive(Debug, Clone)]
pub struct PpsSync {
    pub synchronized: bool,
    pub last_pps_time: Option<TimeSpec>,
}

} // verus!
