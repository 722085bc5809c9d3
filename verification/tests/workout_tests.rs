use treadmill_sync::aggregate::{
    evaluate_session, AcceptancePolicy, SessionAggregates, SessionVerdict, WorkoutTotals,
};
use treadmill_sync::workouts::{fresh_workout_uuid, WorkoutLog, WorkoutStatus};

fn open_rows(log: &WorkoutLog) -> usize {
    log.workouts
        .iter()
        .filter(|w| matches!(w.status, WorkoutStatus::InProgress))
        .count()
}

fn aggregates(sample_count: u64, first_ts: i64, last_ts: i64, distance_m: u64, calories: u64) -> SessionAggregates {
    SessionAggregates {
        sample_count,
        first_ts,
        last_ts,
        distance_m,
        calories,
        steps: 2 * distance_m,
        avg_speed_mms: 1500,
        max_speed_mms: 2200,
        avg_incline_tenths: 10,
        max_incline_tenths: 20,
        avg_heart_rate: 90,
        max_heart_rate: 120,
    }
}

fn policy() -> AcceptancePolicy {
    AcceptancePolicy { min_samples: 10, min_duration_s: 60 }
}

#[test]
fn too_few_samples_are_discarded_not_completed() {
    // 5 samples against a 10-sample minimum: deleted, not completed, even
    // with nonzero distance and calories.
    let a = aggregates(5, 100, 400, 250, 20);
    let verdict = evaluate_session(&Some(a), &policy());
    assert!(matches!(verdict, SessionVerdict::Discard));
}

#[test]
fn too_short_sessions_are_discarded() {
    let a = aggregates(50, 100, 130, 250, 20);
    assert!(matches!(evaluate_session(&Some(a), &policy()), SessionVerdict::Discard));
}

#[test]
fn zero_activity_sessions_are_discarded() {
    let a = aggregates(50, 100, 400, 0, 0);
    assert!(matches!(evaluate_session(&Some(a), &policy()), SessionVerdict::Discard));
}

#[test]
fn passing_session_completes_with_totals() {
    let a = aggregates(50, 100, 400, 250, 20);
    match evaluate_session(&Some(a), &policy()) {
        SessionVerdict::Complete(t) => {
            assert_eq!(t.duration_s, 300);
            assert_eq!(t.distance_m, 250);
            assert_eq!(t.calories, 20);
            assert_eq!(t.avg_speed_mms, 1500);
            assert_eq!(t.max_speed_mms, 2200);
        }
        other => panic!("expected completion, got {:?}", other),
    }
}

#[test]
fn failed_aggregation_marks_failed_not_deleted() {
    assert!(matches!(evaluate_session(&None, &policy()), SessionVerdict::Fail(_)));
}

#[test]
fn backwards_timestamps_mark_failed() {
    let a = aggregates(50, 400, 100, 250, 20);
    assert!(matches!(evaluate_session(&Some(a), &policy()), SessionVerdict::Fail(_)));
}

fn totals() -> WorkoutTotals {
    WorkoutTotals {
        duration_s: 300,
        distance_m: 250,
        calories: 20,
        steps: 500,
        avg_speed_mms: 1500,
        max_speed_mms: 2200,
        avg_incline_tenths: 10,
        max_incline_tenths: 20,
        avg_heart_rate: 90,
        max_heart_rate: 120,
    }
}

#[test]
fn at_most_one_workout_in_progress_across_lifecycle() {
    // Start, end, forced end and orphan recovery: at most one row is open at
    // every inspected instant, and a start after a crash heals the orphan.
    let mut log = WorkoutLog::new();
    assert_eq!(open_rows(&log), 0);

    let id1 = log.start_workout(fresh_workout_uuid(), 1_000);
    assert_eq!(open_rows(&log), 1);

    // Crash before closing id1: the next start heals the orphan first.
    let id2 = log.start_workout(fresh_workout_uuid(), 2_000);
    assert_eq!(open_rows(&log), 1);
    assert!(matches!(log.workouts[0].status, WorkoutStatus::Failed));
    assert_ne!(id1, id2);

    // Normal completion.
    assert!(log.complete_workout(id2, 2_300, &totals()));
    assert_eq!(open_rows(&log), 0);

    // Terminal rows are never mutated again.
    assert!(!log.complete_workout(id2, 2_400, &totals()));

    // Forced end on connection loss goes through the failure path.
    let id3 = log.start_workout(fresh_workout_uuid(), 3_000);
    assert_eq!(open_rows(&log), 1);
    assert!(log.fail_workout(id3, 3_050, "connection lost".to_string()));
    assert_eq!(open_rows(&log), 0);

    // A session the acceptance policy rejects is deleted outright.
    let id4 = log.start_workout(fresh_workout_uuid(), 4_000);
    assert_eq!(open_rows(&log), 1);
    assert!(log.delete_workout(id4));
    assert_eq!(open_rows(&log), 0);
    assert!(log.find_workout(id4).is_none());

    // Startup recovery on a log with an orphan.
    let id5 = log.start_workout(fresh_workout_uuid(), 5_000);
    log.recover_orphans(5_100);
    assert_eq!(open_rows(&log), 0);
    let i = log.find_workout(id5).unwrap();
    assert!(matches!(log.workouts[i].status, WorkoutStatus::Failed));
    assert_eq!(log.workouts[i].end_ts, Some(5_100));
}

#[test]
fn workout_rows_carry_their_creation_data() {
    let mut log = WorkoutLog::new();
    let uuid = fresh_workout_uuid();
    let id = log.start_workout(uuid, 42);
    let i = log.find_workout(id).unwrap();
    let w = &log.workouts[i];
    assert_eq!(w.uuid, uuid);
    assert_eq!(w.start_ts, 42);
    assert_eq!(w.end_ts, None);
    assert!(matches!(w.status, WorkoutStatus::InProgress));
}

#[test]
fn fresh_uuids_are_version_four() {
    for _ in 0..8 {
        let u = fresh_workout_uuid();
        assert_eq!((u >> 76) & 0xF, 4);
    }
}
