//! Verified core of a multi-sensor orientation streamer.
//!
//! The library holds the decision logic of the system: configuration
//! validation, the per-worker command dispatch, the lock-step semantics of
//! the sensor array, and the start/stop/reset state machine that drives the
//! streaming loop. Device I/O, threads and the floating-point filter live
//! outside the library and feed it plain values.

use vstd::prelude::*;

pub mod config;
pub mod ext_glam;
pub mod sensor;
pub mod streamer;

verus! {

/// Number of sensors the array drives; a configuration must list exactly
/// this many devices.
pub const SENSOR_COUNT: usize = 7;

/// Nanoseconds left to sleep so that an iteration that has already taken
/// `elapsed_nanos` fills a whole period of `period_nanos`.
pub fn remaining_sleep(period_nanos: u64, elapsed_nanos: u64) -> (r: u64)
    ensures
        r == if elapsed_nanos >= period_nanos {
            0u64
        } else {
            (period_nanos - elapsed_nanos) as u64
        },
{
    if elapsed_nanos >= period_nanos {
        0
    } else {
        period_nanos - elapsed_nanos
    }
}

} // verus!
