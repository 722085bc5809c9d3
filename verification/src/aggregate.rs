//! Session-end aggregation and the acceptance policy: a finished session is
//! completed, silently discarded, or marked failed, from statistics computed
//! by the durable store (never from in-memory history, so memory stays
//! bounded regardless of session length).

use vstd::prelude::*;

verus! {

/// Statistics the storage collaborator computes over one session's samples.
#[derive(Clone, Copy, Debug, PartialEq, Eq, Structural)]
pub struct SessionAggregates {
    /// Number of samples the session recorded.
    pub sample_count: u64,
    /// Timestamp of the first sample, Unix epoch seconds.
    pub first_ts: i64,
    /// Timestamp of the last sample, Unix epoch seconds.
    pub last_ts: i64,
    /// Total distance advanced, in metres.
    pub distance_m: u64,
    /// Total energy burned, in kilocalories.
    pub calories: u64,
    /// Total steps taken.
    pub steps: u64,
    /// Mean speed over the session, in millimetres per second.
    pub avg_speed_mms: u32,
    /// Highest speed over the session, in millimetres per second.
    pub max_speed_mms: u32,
    /// Mean incline, in tenths of a percent.
    pub avg_incline_tenths: i16,
    /// Highest incline, in tenths of a percent.
    pub max_incline_tenths: i16,
    /// Mean heart rate, in beats per minute; zero when never reported.
    pub avg_heart_rate: u8,
    /// Highest heart rate, in beats per minute; zero when never reported.
    pub max_heart_rate: u8,
}

/// The acceptance policy for a finished session.
#[derive(Clone, Copy, Debug, PartialEq, Eq, Structural)]
pub struct AcceptancePolicy {
    /// A session with fewer samples is discarded as an accidental trigger.
    pub min_samples: u64,
    /// A session spanning fewer seconds is discarded.
    pub min_duration_s: i64,
}

/// The aggregated totals written to a completed workout row.
#[derive(Clone, Copy, Debug, PartialEq, Eq, Structural)]
pub struct WorkoutTotals {
    /// Seconds between the first and last sample.
    pub duration_s: i64,
    /// Total distance, in metres.
    pub distance_m: u64,
    /// Total energy, in kilocalories.
    pub calories: u64,
    /// Total steps.
    pub steps: u64,
    /// Mean speed, in millimetres per second.
    pub avg_speed_mms: u32,
    /// Highest speed, in millimetres per second.
    pub max_speed_mms: u32,
    /// Mean incline, in tenths of a percent.
    pub avg_incline_tenths: i16,
    /// Highest incline, in tenths of a percent.
    pub max_incline_tenths: i16,
    /// Mean heart rate, in beats per minute.
    pub avg_heart_rate: u8,
    /// Highest heart rate, in beats per minute.
    pub max_heart_rate: u8,
}

/// What becomes of a finished session.
#[derive(Clone, Debug)]
pub enum SessionVerdict {
    /// The session passed every check: mark the workout completed with these
    /// totals.
    Complete(WorkoutTotals),
    /// The session failed the acceptance policy: delete it silently (noise,
    /// not an error).
    Discard,
    /// Aggregation itself went wrong: mark the workout failed with this
    /// reason, preserving the evidence.
    Fail(String),
}

/// The totals a passing session commits.
pub open spec fn totals_of(a: SessionAggregates) -> WorkoutTotals {
    WorkoutTotals {
        duration_s: (a.last_ts - a.first_ts) as i64,
        distance_m: a.distance_m,
        calories: a.calories,
        steps: a.steps,
        avg_speed_mms: a.avg_speed_mms,
        max_speed_mms: a.max_speed_mms,
        avg_incline_tenths: a.avg_incline_tenths,
        max_incline_tenths: a.max_incline_tenths,
        avg_heart_rate: a.avg_heart_rate,
        max_heart_rate: a.max_heart_rate,
    }
}

/// Whether aggregates describe a session the policy accepts: enough samples,
/// a long enough span, and some measurable activity (downstream consumers
/// reject zero-activity entries).
pub open spec fn accepted(a: SessionAggregates, policy: AcceptancePolicy) -> bool {
    &&& a.sample_count >= policy.min_samples
    &&& a.last_ts - a.first_ts >= policy.min_duration_s
    &&& (a.distance_m > 0 || a.calories > 0)
}

/// Decide what becomes of a finished session.
///
/// `aggregates` is what the storage collaborator computed, or nothing when
/// its query failed or the session's timestamps were unusable; in that case
/// the session is marked failed, preserving forensic evidence. Otherwise the
/// acceptance policy runs in order — sample count, duration, measurable
/// activity — and any miss discards the session silently; a session passing
/// all three completes with its totals.
pub fn evaluate_session(aggregates: &Option<SessionAggregates>, policy: &AcceptancePolicy) -> (r:
    SessionVerdict)
    requires
        (*aggregates matches Some(a) ==> a.first_ts >= 0 && a.last_ts >= 0),
    ensures
        match *aggregates {
            Some(a) => {
                &&& (a.last_ts < a.first_ts ==> r is Fail)
                &&& (a.last_ts >= a.first_ts && accepted(a, *policy) ==> (r matches
                    SessionVerdict::Complete(t) && t == totals_of(a)))
                &&& (a.last_ts >= a.first_ts && !accepted(a, *policy) ==> r is Discard)
            },
            None => r is Fail,
        },
{
    match aggregates {
        None => fail_verdict(),
        Some(a) => {
            if a.last_ts < a.first_ts {
                return fail_verdict();
            }
            if a.sample_count < policy.min_samples {
                return SessionVerdict::Discard;
            }
            let duration = a.last_ts - a.first_ts;
            if duration < policy.min_duration_s {
                return SessionVerdict::Discard;
            }
            if a.distance_m == 0 && a.calories == 0 {
                return SessionVerdict::Discard;
            }
            SessionVerdict::Complete(
                WorkoutTotals {
                    duration_s: duration,
                    distance_m: a.distance_m,
                    calories: a.calories,
                    steps: a.steps,
                    avg_speed_mms: a.avg_speed_mms,
                    max_speed_mms: a.max_speed_mms,
                    avg_incline_tenths: a.avg_incline_tenths,
                    max_incline_tenths: a.max_incline_tenths,
                    avg_heart_rate: a.avg_heart_rate,
                    max_heart_rate: a.max_heart_rate,
                },
            )
        },
    }
}

/// The failure verdict for a session whose aggregates could not be computed.
fn fail_verdict() -> (r: SessionVerdict)
    ensures
        r is Fail,
{
    SessionVerdict::Fail("aggregation query failed or timestamps were unusable".to_owned())
}

} // verus!
