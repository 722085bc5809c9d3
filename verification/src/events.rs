//! Live-view events: the fan-out messages the API layer forwards to its
//! subscribers. Publishing is fire-and-forget and best-effort; these types
//! only fix what each event carries.

use vstd::prelude::*;

use crate::samples::TreadmillSample;
use crate::workouts::Workout;

verus! {

/// Connection lifecycle of the transport, as reported to observers.
#[derive(Clone, Copy, Debug, PartialEq, Eq, Structural)]
pub enum ConnectionStatus {
    Disconnected,
    Scanning,
    Connecting,
    Connected,
    Error,
}

/// One live-view event about the workout lifecycle.
#[derive(Clone, Debug)]
pub enum WorkoutEvent {
    /// A workout was created.
    WorkoutStarted { workout: Workout },
    /// A sample was appended to the open workout.
    WorkoutSample { workout_id: u64, sample: TreadmillSample },
    /// A workout ended and passed the acceptance policy.
    WorkoutCompleted { workout: Workout },
    /// A workout ended but could not be aggregated.
    WorkoutFailed { workout_id: u64, reason: String },
    /// The transport's connection state changed.
    ConnectionStatus { connected: bool },
}

/// One live-view message about raw capture.
#[derive(Clone, Debug)]
pub enum WsMessage {
    /// A new sample was recorded.
    NewSample { sample: WsSample },
    /// Keep-alive.
    Heartbeat,
}

/// The trimmed sample format sent to live-view subscribers: the timestamp,
/// the speed, and the per-sample deltas (the cumulative counters stay home).
#[derive(Clone, Copy, Debug, PartialEq, Eq, Structural)]
pub struct WsSample {
    /// Unix epoch seconds.
    pub timestamp: i64,
    /// Belt speed in millimetres per second.
    pub speed_mms: Option<u32>,
    /// Metres since the previous sample.
    pub distance_delta: Option<i64>,
    /// Kilocalories since the previous sample.
    pub calories_delta: Option<i64>,
    /// Steps since the previous sample.
    pub steps_delta: Option<i64>,
}

/// What a stored sample looks like trimmed for the live view.
pub open spec fn spec_ws_sample(s: TreadmillSample) -> WsSample {
    WsSample {
        timestamp: s.timestamp,
        speed_mms: s.speed_mms,
        distance_delta: s.distance_delta,
        calories_delta: s.calories_delta,
        steps_delta: s.steps_delta,
    }
}

impl From<TreadmillSample> for WsSample {
    /// Trim a stored sample for the live view.
    fn from(s: TreadmillSample) -> (r: WsSample) {
        WsSample {
            timestamp: s.timestamp,
            speed_mms: s.speed_mms,
            distance_delta: s.distance_delta,
            calories_delta: s.calories_delta,
            steps_delta: s.steps_delta,
        }
    }
}

impl vstd::std_specs::convert::FromSpecImpl<TreadmillSample> for WsSample {
    open spec fn obeys_from_spec() -> bool {
        true
    }

    open spec fn from_spec(s: TreadmillSample) -> WsSample {
        spec_ws_sample(s)
    }
}

/// The live-view message for a freshly recorded sample.
pub fn sample_message(s: &TreadmillSample) -> (r: WsMessage)
    ensures
        r matches WsMessage::NewSample { sample } && sample == spec_ws_sample(*s),
{
    WsMessage::NewSample { sample: WsSample::from(*s) }
}

} // verus!
