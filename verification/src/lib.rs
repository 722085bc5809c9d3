//! Verified core of a treadmill telemetry service.
//!
//! The library decodes vendor-specific BLE frames into normalized readings,
//! reconstructs bounded workout sessions from a stream of noisy cumulative
//! counters, and aggregates and validates finished sessions. Transport,
//! storage and the HTTP surface are unverified collaborators that feed plain
//! values in and out of these functions.

pub mod aggregate;
pub mod config;
pub mod dates;
pub mod engine;
pub mod events;
pub mod workouts;
pub mod ftms;
pub mod laws;
pub mod reading;
pub mod samples;
pub mod lifespan;
pub mod protocol;
pub mod units;

use vstd::prelude::*;

verus! {

/// Speed above this many millimetres per second (0.1 m/s) counts as activity.
pub const ACTIVE_SPEED_MMS: u32 = 100;

} // verus!
