use treadmill_sync::config::{Config, EnvOverrides};
use treadmill_sync::dates::{
    local_midnight_epoch, utc_day_range, validate_date, validate_date_range,
};
use treadmill_sync::events::{sample_message, WsMessage, WsSample};
use treadmill_sync::lifespan::{DecodeError, LifeSpanQuery, LIFESPAN_CHAR_UUID};
use treadmill_sync::protocol::{
    detect_protocol, LifeSpanProtocol, PendingQueries, PollAccumulator, ProtocolMode, QueryType,
};
use treadmill_sync::reading::TreadmillData;
use treadmill_sync::engine::SampleDeltas;
use treadmill_sync::samples::{
    daily_summary_of, session_aggregates_of, workout_sample_row, SampleTracker, TreadmillSample,
};

#[test]
fn config_defaults() {
    let c = Config::default();
    assert_eq!(c.database.path, "./treadmill.db");
    assert_eq!(c.bluetooth.device_name_filter, "TR");
    assert_eq!(c.bluetooth.scan_timeout_secs, 30);
    assert_eq!(c.bluetooth.workout_end_timeout_secs, 30);
    assert_eq!(c.bluetooth.reconnect_delay_secs, 5);
    assert_eq!(c.server.host, "0.0.0.0");
    assert_eq!(c.server.port, 8080);
}

#[test]
fn config_file_beats_defaults_and_env_beats_file() {
    let mut from_file = Config::default();
    from_file.server.port = 9000;
    from_file.bluetooth.scan_timeout_secs = 60;

    let mut env = EnvOverrides::none();
    env.port = Some(9999);
    env.database_path = Some("/tmp/other.db".to_string());

    let c = Config::load(Some(from_file), env);
    assert_eq!(c.server.port, 9999); // env wins
    assert_eq!(c.bluetooth.scan_timeout_secs, 60); // file wins
    assert_eq!(c.database.path, "/tmp/other.db"); // env wins
    assert_eq!(c.bluetooth.reconnect_delay_secs, 5); // default survives

    let d = Config::load(None, EnvOverrides::none());
    assert_eq!(d.server.port, 8080);
}

#[test]
fn date_validation_accepts_real_dates_only() {
    assert_eq!(validate_date("2024-01-15").unwrap(), (2024, 1, 15));
    assert_eq!(validate_date("2024-02-29").unwrap(), (2024, 2, 29)); // leap year
    assert!(validate_date("2023-02-29").is_err()); // not a leap year
    assert!(validate_date("2024-13-01").is_err());
    assert!(validate_date("nonsense").is_err());
    assert!(validate_date("2024-1-15-extra").is_err());
}

#[test]
fn epoch_of_dates_is_calendar_correct() {
    assert_eq!(local_midnight_epoch(1970, 1, 1), Some(0));
    assert_eq!(local_midnight_epoch(1970, 1, 2), Some(86_400));
    assert_eq!(local_midnight_epoch(2024, 1, 1), Some(1_704_067_200));
    assert_eq!(local_midnight_epoch(2024, 2, 30), None);
}

#[test]
fn day_range_applies_zone_offset() {
    // Pacific standard time is 28800 s behind UTC: its calendar day starts
    // 28800 s after the UTC midnight of the same date.
    let midnight = local_midnight_epoch(2024, 1, 1).unwrap();
    let (start, end) = utc_day_range(midnight, -28_800);
    assert_eq!(start, midnight + 28_800);
    assert_eq!(end, start + 86_400);
}

#[test]
fn date_range_bounds() {
    let start = local_midnight_epoch(2024, 1, 1).unwrap();
    let end = local_midnight_epoch(2024, 3, 1).unwrap();
    assert_eq!(validate_date_range(start, end).unwrap(), 60);
    assert!(validate_date_range(end, start).is_err());
    let far = local_midnight_epoch(2026, 1, 1).unwrap();
    assert!(validate_date_range(start, far).is_err());
}

#[test]
fn protocol_detection_by_characteristic() {
    let uuids = vec![0x1234u128, LIFESPAN_CHAR_UUID];
    assert!(detect_protocol(&uuids).is_some());
    let unknown = vec![0x1234u128, 0x5678u128];
    assert!(detect_protocol(&unknown).is_none());
    assert!(detect_protocol(&Vec::new()).is_none());
}

#[test]
fn protocol_capabilities() {
    let p = LifeSpanProtocol;
    assert_eq!(p.name(), "LifeSpan Proprietary");
    assert_eq!(p.characteristic_uuid(), LIFESPAN_CHAR_UUID);
    assert_eq!(p.mode(), ProtocolMode::Polling { interval_ms: 300 });

    let handshake = p.handshake_commands();
    assert_eq!(handshake.len(), 4);
    assert_eq!(handshake[0].data, vec![0x02, 0x00, 0x00, 0x00, 0x00]);
    assert_eq!(handshake[3].data, vec![0xE4, 0x00, 0xF4, 0x00, 0x00]);
    assert!(handshake.iter().all(|c| c.delay_after_ms == 100));

    let queries = p.polling_queries();
    assert_eq!(
        queries,
        vec![
            QueryType::Steps,
            QueryType::Distance,
            QueryType::Calories,
            QueryType::Speed,
            QueryType::Time,
        ]
    );
    assert!(queries[..4].iter().all(|q| !p.is_cycle_complete(*q)));
    assert!(p.is_cycle_complete(QueryType::Time));

    assert_eq!(
        p.query_command(QueryType::Speed).unwrap(),
        LifeSpanQuery::Speed.command().to_vec()
    );
    assert!(p.query_command(QueryType::HeartRate).is_none());
}

#[test]
fn protocol_parse_requires_query() {
    let p = LifeSpanProtocol;
    let frame = vec![0xA1, 0xAA, 0x01, 0xF4];
    assert_eq!(
        p.parse_data(&frame, None),
        Err(DecodeError::MissingQuery)
    );
    assert_eq!(
        p.parse_data(&frame, Some(QueryType::Incline)),
        Err(DecodeError::UnsupportedQuery)
    );
    let r = p.parse_data(&frame, Some(QueryType::Calories)).unwrap();
    assert_eq!(r.total_energy, Some(500));
}

#[test]
fn pending_queue_attributes_answers_in_order_and_stays_bounded() {
    let mut q = PendingQueries::new();
    assert!(q.pop_oldest().is_none());
    q.push_sent(LifeSpanQuery::Steps);
    q.push_sent(LifeSpanQuery::Distance);
    assert_eq!(q.pop_oldest(), Some(LifeSpanQuery::Steps));
    assert_eq!(q.pop_oldest(), Some(LifeSpanQuery::Distance));
    assert!(q.pop_oldest().is_none());

    // A device that stops answering cannot grow the queue without bound:
    // past the limit the oldest outstanding query is evicted.
    for _ in 0..15 {
        q.push_sent(LifeSpanQuery::Speed);
    }
    for _ in 0..10 {
        q.push_sent(LifeSpanQuery::Time);
    }
    assert_eq!(q.queries.len(), 20);
    assert_eq!(q.pop_oldest(), Some(LifeSpanQuery::Speed));
}

#[test]
fn accumulator_emits_one_reading_per_cycle() {
    let p = LifeSpanProtocol;
    let mut acc = PollAccumulator::new();

    let mut steps = TreadmillData::empty();
    steps.steps = Some(120);
    assert!(acc.absorb(&p, QueryType::Steps, &steps).is_none());

    let mut dist = TreadmillData::empty();
    dist.distance_m = Some(90);
    assert!(acc.absorb(&p, QueryType::Distance, &dist).is_none());

    let mut speed = TreadmillData::empty();
    speed.speed_mms = Some(1300);
    assert!(acc.absorb(&p, QueryType::Speed, &speed).is_none());

    let mut time = TreadmillData::empty();
    time.elapsed_time = Some(60);
    let complete = acc.absorb(&p, QueryType::Time, &time).expect("cycle closed");
    assert_eq!(complete.steps, Some(120));
    assert_eq!(complete.distance_m, Some(90));
    assert_eq!(complete.speed_mms, Some(1300));
    assert_eq!(complete.elapsed_time, Some(60));
    assert_eq!(complete.total_energy, None);

    // The next cycle starts from nothing.
    let later = acc.absorb(&p, QueryType::Time, &time).unwrap();
    assert_eq!(later.steps, None);
}

#[test]
fn merge_keeps_old_fields_and_takes_new_ones() {
    let mut base = TreadmillData::empty();
    base.speed_mms = Some(1000);
    base.distance_m = Some(50);
    let mut update = TreadmillData::empty();
    update.distance_m = Some(60);
    update.heart_rate = Some(80);
    base.merge_from(&update);
    assert_eq!(base.speed_mms, Some(1000));
    assert_eq!(base.distance_m, Some(60));
    assert_eq!(base.heart_rate, Some(80));
}

#[test]
fn tracker_deltas_between_consecutive_readings() {
    let mut t = SampleTracker::new();
    let mut r = TreadmillData::empty();
    r.speed_mms = Some(1200);
    r.distance_m = Some(100);
    r.total_energy = Some(10);

    let s = t.record(1_000, &r);
    assert_eq!(s.timestamp, 1_000);
    assert_eq!(s.distance_total, Some(100));
    assert_eq!(s.distance_delta, Some(0)); // first sample: no delta yet

    r.distance_m = Some(150);
    r.total_energy = Some(12);
    let s = t.record(1_060, &r);
    assert_eq!(s.distance_delta, Some(50));
    assert_eq!(s.calories_delta, Some(2));

    // A decrease (device reset) yields a zero delta, never a negative one.
    r.distance_m = Some(120);
    let s = t.record(1_120, &r);
    assert_eq!(s.distance_delta, Some(0));
    assert_eq!(s.distance_total, Some(120));

    // An absent field leaves the last value alone and carries no delta.
    r.distance_m = None;
    let s = t.record(1_180, &r);
    assert_eq!(s.distance_delta, None);
    r.distance_m = Some(130);
    let s = t.record(1_240, &r);
    assert_eq!(s.distance_delta, Some(10));
}

fn sample(ts: i64, speed: Option<u32>, dd: Option<i64>, cd: Option<i64>, sd: Option<i64>) -> TreadmillSample {
    TreadmillSample {
        timestamp: ts,
        speed_mms: speed,
        distance_total: None,
        calories_total: None,
        steps_total: None,
        distance_delta: dd,
        calories_delta: cd,
        steps_delta: sd,
    }
}

#[test]
fn daily_summary_counts_only_moving_samples() {
    let samples = vec![
        sample(100, Some(1000), Some(10), Some(1), Some(20)),
        sample(160, Some(0), Some(5), Some(1), Some(10)), // standstill: ignored
        sample(220, Some(2000), Some(20), None, Some(40)),
        sample(280, None, Some(5), Some(1), Some(10)), // no speed: ignored
        sample(340, Some(3000), Some(30), Some(2), Some(60)),
    ];
    let d = daily_summary_of("2024-01-01".to_string(), &samples).unwrap();
    assert_eq!(d.date, "2024-01-01");
    assert_eq!(d.total_samples, 3);
    assert_eq!(d.distance_meters, 60);
    assert_eq!(d.calories, 3);
    assert_eq!(d.steps, 120);
    assert_eq!(d.avg_speed_mms, 2000);
    assert_eq!(d.max_speed_mms, 3000);
    assert_eq!(d.duration_seconds, 240);
}

#[test]
fn daily_summary_of_idle_day_is_nothing() {
    let samples = vec![sample(100, Some(0), Some(5), None, None), sample(160, None, None, None, None)];
    assert!(daily_summary_of("2024-01-01".to_string(), &samples).is_none());
    assert!(daily_summary_of("2024-01-01".to_string(), &Vec::new()).is_none());
}

#[test]
fn live_view_message_trims_sample() {
    let s = sample(100, Some(1500), Some(10), Some(1), Some(20));
    match sample_message(&s) {
        WsMessage::NewSample { sample } => {
            assert_eq!(
                sample,
                WsSample {
                    timestamp: 100,
                    speed_mms: Some(1500),
                    distance_delta: Some(10),
                    calories_delta: Some(1),
                    steps_delta: Some(20),
                }
            );
            assert_eq!(WsSample::from(s), sample);
        }
        WsMessage::Heartbeat => panic!("expected a sample message"),
    }
}

#[test]
fn workout_sample_row_carries_engine_deltas() {
    let mut reading = TreadmillData::empty();
    reading.distance_m = Some(4000);
    reading.total_energy = Some(100);
    let deltas = SampleDeltas {
        speed_mms: Some(1500),
        incline_tenths: None,
        heart_rate: None,
        distance_delta: Some(155),
        calories_delta: Some(2),
        steps_delta: None,
    };
    let row = workout_sample_row(900, &reading, &deltas);
    assert_eq!(row.timestamp, 900);
    assert_eq!(row.speed_mms, Some(1500));
    assert_eq!(row.distance_total, Some(4000));
    assert_eq!(row.calories_total, Some(100));
    assert_eq!(row.distance_delta, Some(155));
    assert_eq!(row.calories_delta, Some(2));
    assert_eq!(row.steps_delta, None);
}

#[test]
fn session_aggregates_take_the_largest_session_delta() {
    // Workout rows carry session-relative deltas, so a session's totals are
    // the largest delta, wraparound compensation included — never a sum.
    let samples = vec![
        sample(100, Some(1000), Some(10), Some(1), Some(20)),
        sample(160, Some(2000), Some(60), Some(2), Some(120)),
        sample(220, None, Some(155), Some(3), Some(310)),
    ];
    let a = session_aggregates_of(&samples).unwrap();
    assert_eq!(a.sample_count, 3);
    assert_eq!(a.first_ts, 100);
    assert_eq!(a.last_ts, 220);
    assert_eq!(a.distance_m, 155);
    assert_eq!(a.calories, 3);
    assert_eq!(a.steps, 310);
    assert_eq!(a.avg_speed_mms, 1500);
    assert_eq!(a.max_speed_mms, 2000);
    assert_eq!(a.avg_heart_rate, 0);

    assert!(session_aggregates_of(&Vec::new()).is_none());
}
