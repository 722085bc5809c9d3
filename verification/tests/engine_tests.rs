use treadmill_sync::engine::{wrap_delta, Engine, SessionEnd, StepOutcome};
use treadmill_sync::reading::TreadmillData;

fn reading(speed_mms: Option<u32>, distance_m: Option<u32>, calories: Option<u16>) -> TreadmillData {
    let mut r = TreadmillData::empty();
    r.speed_mms = speed_mms;
    r.distance_m = distance_m;
    r.total_energy = calories;
    r
}

fn moving(distance_m: u32, calories: u16) -> TreadmillData {
    reading(Some(2000), Some(distance_m), Some(calories))
}

fn quiet() -> TreadmillData {
    reading(Some(0), None, None)
}

fn distance_delta(out: &StepOutcome) -> Option<u32> {
    out.sample.expect("a sample should have been recorded").distance_delta
}

#[test]
fn baseline_deltas_are_relative_to_session_start() {
    // Baseline distance 50: readings 50, 60, 70 yield deltas 0, 10, 20,
    // not the raw values.
    let mut engine = Engine::new(30);
    let out = engine.step(&moving(50, 10));
    assert!(out.started);
    assert_eq!(distance_delta(&out), Some(0));
    let out = engine.step(&moving(60, 11));
    assert_eq!(distance_delta(&out), Some(10));
    let out = engine.step(&moving(70, 12));
    assert_eq!(distance_delta(&out), Some(20));
}

#[test]
fn zero_reading_is_filtered_as_glitch() {
    // A single zero for a cumulative field neither yields a delta nor
    // disturbs the last known-good value: the delta sequence equals the one
    // with the zero reading removed.
    let mut engine = Engine::new(30);
    engine.step(&moving(50, 10));
    let out = engine.step(&moving(60, 11));
    assert_eq!(distance_delta(&out), Some(10));
    let out = engine.step(&reading(Some(2000), Some(0), Some(0)));
    assert!(out.ended.is_none());
    let s = out.sample.unwrap();
    assert_eq!(s.distance_delta, None);
    assert_eq!(s.calories_delta, None);
    let out = engine.step(&moving(70, 12));
    assert_eq!(distance_delta(&out), Some(20));
}

#[test]
fn single_counter_drop_is_wraparound_not_reset() {
    // Distance alone drops sharply while calories stay flat: the session
    // survives, and the delta is wraparound-compensated.
    let mut engine = Engine::new(30);
    engine.step(&moving(4000, 100));
    let out = engine.step(&moving(50, 100));
    assert!(out.ended.is_none());
    assert!(engine.is_active());
    // baseline 4000, reading 50, one wrap of 4105: (50 + 4105) - 4000 = 155.
    assert_eq!(distance_delta(&out), Some(155));
}

#[test]
fn simultaneous_drops_confirm_reset_and_restart() {
    // Both counters drop together for 3 consecutive readings: the session
    // ends as a device reset, and since the belt still moves, a fresh
    // session opens at once with a baseline from the current reading.
    let mut engine = Engine::new(30);
    engine.step(&moving(500, 100));
    let drop = moving(20, 10);
    let out = engine.step(&drop);
    assert!(out.ended.is_none());
    let out = engine.step(&drop);
    assert!(out.ended.is_none());
    let out = engine.step(&drop);
    assert_eq!(out.ended, Some(SessionEnd::DeviceReset));
    assert!(out.started);
    assert!(engine.is_active());
    // Fresh baseline: the restarting reading's deltas are zero.
    assert_eq!(distance_delta(&out), Some(0));
}

#[test]
fn confirmed_reset_without_speed_goes_idle() {
    let mut engine = Engine::new(30);
    engine.step(&moving(500, 100));
    let drop = reading(Some(0), Some(20), Some(10));
    engine.step(&drop);
    engine.step(&drop);
    let out = engine.step(&drop);
    assert_eq!(out.ended, Some(SessionEnd::DeviceReset));
    assert!(!out.started);
    assert!(!engine.is_active());
}

#[test]
fn reset_streak_clears_on_normal_sample() {
    // One reset-like reading followed by a normal one must not end the
    // session, even when two more reset-like readings follow: the streak
    // restarted from zero.
    let mut engine = Engine::new(30);
    engine.step(&moving(500, 100));
    let drop = moving(20, 10);
    let out = engine.step(&drop);
    assert!(out.ended.is_none());
    let out = engine.step(&moving(510, 101));
    assert!(out.ended.is_none());
    let out = engine.step(&moving(20, 10));
    assert!(out.ended.is_none());
    let out = engine.step(&moving(20, 10));
    assert!(out.ended.is_none());
    assert!(engine.is_active());
}

#[test]
fn inactivity_hysteresis_ends_session_at_threshold() {
    // With inactivity threshold 5, four quiet samples leave the session
    // open; the fifth ends it.
    let mut engine = Engine::new(5);
    engine.step(&moving(100, 10));
    for _ in 0..4 {
        let out = engine.step(&quiet());
        assert!(out.ended.is_none());
        assert!(engine.is_active());
    }
    let out = engine.step(&quiet());
    assert_eq!(out.ended, Some(SessionEnd::Inactive));
    assert!(!engine.is_active());
}

#[test]
fn activity_resets_inactivity_counter() {
    // A single active sample in between resets the counter: 4 quiet, one
    // active, then 4 quiet again never reach the threshold of 5.
    let mut engine = Engine::new(5);
    engine.step(&moving(100, 10));
    for _ in 0..4 {
        engine.step(&quiet());
    }
    let out = engine.step(&moving(100, 10));
    assert!(out.ended.is_none());
    for _ in 0..4 {
        let out = engine.step(&quiet());
        assert!(out.ended.is_none());
    }
    assert!(engine.is_active());
}

#[test]
fn silent_distance_advance_defers_session_end() {
    // Zero speed but the distance counter still advancing: not qualifying
    // inactivity, so the session stays open.
    let mut engine = Engine::new(3);
    engine.step(&moving(100, 10));
    let mut d = 101;
    for _ in 0..10 {
        let out = engine.step(&reading(Some(0), Some(d), None));
        assert!(out.ended.is_none(), "session must survive silent progress");
        d += 5;
    }
    assert!(engine.is_active());
}

#[test]
fn force_end_closes_active_session() {
    let mut engine = Engine::new(30);
    engine.step(&moving(100, 10));
    let out = engine.force_end();
    assert_eq!(out.ended, Some(SessionEnd::ConnectionLost));
    assert!(!engine.is_active());
    // A second force-end is a no-op.
    let out = engine.force_end();
    assert_eq!(out.ended, None);
}

#[test]
fn idle_engine_ignores_slow_readings() {
    let mut engine = Engine::new(30);
    let out = engine.step(&reading(Some(50), Some(100), Some(10)));
    assert!(!out.started);
    assert!(out.sample.is_none());
    assert!(!engine.is_active());
}

#[test]
fn wraparound_arithmetic_concrete_values() {
    // Baseline 4000 near the 4105 wrap modulus, reading 50 after the wrap:
    // the delta is (50 + 4105) - 4000 = 155, not a negative or a raw 50.
    assert_eq!(wrap_delta(4000, 50, 10, 4105), 155);
    // Ordinary forward progress subtracts the baseline.
    assert_eq!(wrap_delta(4000, 4100, 10, 4105), 100);
    // A small drop within the noise margin is no progress.
    assert_eq!(wrap_delta(4000, 3995, 10, 4105), 0);
    // The 8-bit calorie counter wraps at 256.
    assert_eq!(wrap_delta(250, 4, 5, 256), 10);
}

#[test]
fn wrap_delta_handles_wrap_larger_than_counter() {
    // A drop the modulus cannot explain still never yields a negative delta.
    assert_eq!(wrap_delta(5000, 50, 10, 4105), 0);
    // Steps have no wrap modulus: any decrease is no progress.
    assert_eq!(wrap_delta(500, 20, 0, 0), 0);
}
