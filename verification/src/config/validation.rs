//! Configuration validation rules.

use vstd::prelude::*;

use crate::error::{Error, is_validation_error};

verus! {

/// The first rule that a configuration breaks, by its message; `None` when it
/// breaks none. The rules, in the order they are checked: the device
/// arguments are not empty, the tick rate is positive, the ring buffer holds
/// at least 1024 bytes, and an enabled PPS reset waits a positive time.
pub open spec fn spec_config_violation(
    args: Seq<char>,
    tick_rate_positive: bool,
    ring_buffer_size: usize,
    pps_enable: bool,
    pps_wait_positive: bool,
) -> Option<Seq<char>> {
    if args.len() == 0 {
        Some("Device args cannot be empty"@)
    } else if !tick_rate_positive {
        Some("Tick rate must be positive"@)
    } else if ring_buffer_size < 1024 {
        Some("Ring buffer size too small"@)
    } else if pps_enable && !pps_wait_positive {
        Some("PPS wait time must be positive"@)
    } else {
        None
    }
}

/// Validate the values of a system configuration: the device argument
/// string, whether the tick rate is positive, the ring buffer size, whether
/// PPS reset is enabled and whether its wait time is positive.
pub fn validate_config_values(
    args: &str,
    tick_rate_positive: bool,
    ring_buffer_size: usize,
    pps_enable: bool,
    pps_wait_positive: bool,
) -> (r: Result<(), Error>)
    ensures
        match spec_config_violation(
            args@,
            tick_rate_positive,
            ring_buffer_size,
            pps_enable,
            pps_wait_positive,
        ) {
            None => r is Ok,
            Some(msg) => r is Err && is_validation_error(r->Err_0, msg),
        },
{
    if args.is_empty() {
        return Err(Error::ValidationError("Device args cannot be empty".to_owned()));
    }
    if !tick_rate_positive {
        return Err(Error::ValidationError("Tick rate must be positive".to_owned()));
    }
    if ring_buffer_size < 1024 {
        return Err(Error::ValidationError("Ring buffer size too small".to_owned()));
    }
    if pps_enable {
        if !pps_wait_positive {
            return Err(Error::ValidationError("PPS wait time must be positive".to_owned()));
        }
    }
    Ok(())
}

} // verus!
