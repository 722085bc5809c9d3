use treadmill_sync::lifespan::{parse_lifespan_response, DecodeError, LifeSpanQuery};

fn mms_to_mph(mms: u32) -> f64 {
    mms as f64 / 1000.0 / 0.44704
}

#[test]
fn test_lifespan_speed_parsing() {
    // Speed format: [A1, AA, whole_mph, hundredths]
    // 2.50 mph = 2*100 + 50 = 250 hundredths
    let data = vec![0xA1, 0xAA, 0x02, 0x32]; // 2.50 mph
    let result = parse_lifespan_response(&data, LifeSpanQuery::Speed).unwrap();

    assert!(result.speed_mms.is_some());
    let speed_mph = mms_to_mph(result.speed_mms.unwrap());
    assert!(
        (speed_mph - 2.50).abs() < 0.01,
        "Expected ~2.50 mph, got {}",
        speed_mph
    );
}

#[test]
fn test_lifespan_speed_zero() {
    let data = vec![0xA1, 0xAA, 0x00, 0x00]; // 0 mph
    let result = parse_lifespan_response(&data, LifeSpanQuery::Speed).unwrap();

    // Speed 0 is valid but won't be set (filtered by validation)
    assert!(result.speed_mms.is_none() || result.speed_mms.unwrap() == 0);
}

#[test]
fn test_lifespan_distance_parsing() {
    // Distance format: 16-bit big-endian hundredths of miles
    // [A1, AA, HIGH, LOW] where value = 100 = 1.00 miles
    let data = vec![0xA1, 0xAA, 0x00, 0x64]; // 100 hundredths = 1.00 mile
    let result = parse_lifespan_response(&data, LifeSpanQuery::Distance).unwrap();

    assert!(result.distance_m.is_some());
    let distance_m = result.distance_m.unwrap();
    assert_eq!(distance_m, 1609);
    let distance_miles = distance_m as f64 / 1609.34;
    assert!(
        (distance_miles - 1.0).abs() < 0.01,
        "Expected ~1.0 mile, got {}",
        distance_miles
    );
}

#[test]
fn test_lifespan_calories_parsing() {
    // Calories format: 16-bit big-endian kcal
    let data = vec![0xA1, 0xAA, 0x01, 0xF4]; // 0x01F4 = 500 kcal
    let result = parse_lifespan_response(&data, LifeSpanQuery::Calories).unwrap();

    assert!(result.total_energy.is_some());
    assert_eq!(result.total_energy.unwrap(), 500);
}

#[test]
fn test_lifespan_steps_parsing() {
    // Steps format: 16-bit big-endian
    let data = vec![0xA1, 0xAA, 0x27, 0x10]; // 0x2710 = 10000 steps
    let result = parse_lifespan_response(&data, LifeSpanQuery::Steps).unwrap();

    assert!(result.steps.is_some());
    assert_eq!(result.steps.unwrap(), 10000);
}

#[test]
fn test_lifespan_time_parsing() {
    // Time format: [A1, AA, ??, hours, minutes, seconds]
    let data = vec![0xA1, 0xAA, 0x00, 0x01, 0x30, 0x00]; // 1h 48m 0s
    let result = parse_lifespan_response(&data, LifeSpanQuery::Time).unwrap();

    assert!(result.elapsed_time.is_some());
    assert_eq!(result.elapsed_time.unwrap(), 1 * 3600 + 48 * 60 + 0);
}

#[test]
fn test_lifespan_data_too_short() {
    let data = vec![0xA1, 0xAA, 0x00]; // Only 3 bytes, need 4+
    assert!(parse_lifespan_response(&data, LifeSpanQuery::Speed).is_err());
}

#[test]
fn test_lifespan_query_commands() {
    // Verify all query commands are correctly defined
    assert_eq!(
        LifeSpanQuery::Speed.command(),
        [0xA1, 0x82, 0x00, 0x00, 0x00]
    );
    assert_eq!(
        LifeSpanQuery::Distance.command(),
        [0xA1, 0x85, 0x00, 0x00, 0x00]
    );
    assert_eq!(
        LifeSpanQuery::Calories.command(),
        [0xA1, 0x87, 0x00, 0x00, 0x00]
    );
    assert_eq!(
        LifeSpanQuery::Steps.command(),
        [0xA1, 0x88, 0x00, 0x00, 0x00]
    );
    assert_eq!(
        LifeSpanQuery::Time.command(),
        [0xA1, 0x89, 0x00, 0x00, 0x00]
    );
}

#[test]
fn test_lifespan_too_short_error_kind() {
    let data = vec![0xA1, 0xAA];
    assert_eq!(
        parse_lifespan_response(&data, LifeSpanQuery::Distance),
        Err(DecodeError::TooShort)
    );
}

#[test]
fn test_lifespan_time_invalid_values_report_nothing() {
    // 25 hours is impossible: the frame decodes but reports no elapsed time.
    let data = vec![0xA1, 0xAA, 0x00, 0x19, 0x00, 0x00];
    let result = parse_lifespan_response(&data, LifeSpanQuery::Time).unwrap();
    assert!(result.elapsed_time.is_none());
}

#[test]
fn test_lifespan_time_short_frame_reports_nothing() {
    // 4 bytes is enough for the header but not for a time answer.
    let data = vec![0xA1, 0xAA, 0x00, 0x01];
    let result = parse_lifespan_response(&data, LifeSpanQuery::Time).unwrap();
    assert!(result.elapsed_time.is_none());
}

#[test]
fn lifespan_speed_fixed_point_is_exact() {
    // 2.50 mph = 250 hundredths; 250 * 44704 / 10000 = 1117 mm/s (floor).
    let data = vec![0xA1, 0xAA, 0x02, 0x32];
    let result = parse_lifespan_response(&data, LifeSpanQuery::Speed).unwrap();
    assert_eq!(result.speed_mms, Some(1117));
}

#[test]
fn lifespan_speed_out_of_range_fails_hard() {
    // 257.55 mph is physically impossible: a hard decode failure, not a
    // silent clamp or a record-anyway warning.
    let data = vec![0xA1, 0xAA, 0xFF, 0xFF];
    assert_eq!(
        parse_lifespan_response(&data, LifeSpanQuery::Speed),
        Err(DecodeError::SpeedOutOfRange)
    );
    // Just under the 50 m/s bound still decodes: 111.84 mph = 49996 mm/s.
    let data = vec![0xA1, 0xAA, 111, 84];
    let r = parse_lifespan_response(&data, LifeSpanQuery::Speed).unwrap();
    assert_eq!(r.speed_mms, Some(49_996));
}

#[test]
fn lifespan_distance_out_of_range_fails_hard() {
    // 655.35 miles is above the 1,000,000 m sanity bound.
    let data = vec![0xA1, 0xAA, 0xFF, 0xFF];
    assert_eq!(
        parse_lifespan_response(&data, LifeSpanQuery::Distance),
        Err(DecodeError::DistanceOutOfRange)
    );
}
