use treadmill_sync::ftms::parse_treadmill_data;
use treadmill_sync::lifespan::DecodeError;

#[test]
fn push_decode_round_trip() {
    // Flags word 0x000D: speed, distance and incline present.
    // Speed 10.00 km/h = 1000 hundredths = 0x03E8 little-endian;
    // distance 12345 m = 0x003039 little-endian;
    // incline 2.5 % = 25 tenths = 0x0019 little-endian.
    let frame = vec![0x0D, 0x00, 0xE8, 0x03, 0x39, 0x30, 0x00, 0x19, 0x00];
    let r = parse_treadmill_data(&frame).unwrap();

    let speed_ms = r.speed_mms.unwrap() as f64 / 1000.0;
    let expected_ms = 10.0 * 1000.0 / 3600.0;
    assert!(
        (speed_ms - expected_ms).abs() < 0.01,
        "expected ~{} m/s, got {}",
        expected_ms,
        speed_ms
    );
    assert_eq!(r.distance_m, Some(12345));
    assert_eq!(r.incline_tenths, Some(25));
    assert_eq!(r.steps, None);
    assert_eq!(r.heart_rate, None);
}

#[test]
fn push_decode_negative_incline() {
    // Incline only (flags 0x0008): -1.5 % = -15 tenths = 0xFFF1 LE.
    let frame = vec![0x08, 0x00, 0xF1, 0xFF];
    let r = parse_treadmill_data(&frame).unwrap();
    assert_eq!(r.incline_tenths, Some(-15));
}

#[test]
fn push_decode_empty_flags_reports_nothing() {
    let frame = vec![0x00, 0x00];
    let r = parse_treadmill_data(&frame).unwrap();
    assert_eq!(r.speed_mms, None);
    assert_eq!(r.distance_m, None);
    assert_eq!(r.incline_tenths, None);
    assert_eq!(r.total_energy, None);
    assert_eq!(r.elapsed_time, None);
}

#[test]
fn push_decode_too_short_header() {
    assert_eq!(parse_treadmill_data(&[0x0D]), Err(DecodeError::TooShort));
}

#[test]
fn push_decode_too_short_for_fields() {
    // Flags claim speed + distance, but only the speed bytes are there.
    let frame = vec![0x05, 0x00, 0xE8, 0x03];
    assert_eq!(parse_treadmill_data(&frame), Err(DecodeError::TooShort));
}

#[test]
fn push_decode_speed_out_of_range_fails_hard() {
    // 655.35 km/h is physically impossible: a hard decode failure, not a
    // silent clamp.
    let frame = vec![0x01, 0x00, 0xFF, 0xFF];
    assert_eq!(parse_treadmill_data(&frame), Err(DecodeError::SpeedOutOfRange));
}

#[test]
fn push_decode_incline_out_of_range_fails_hard() {
    // 50.0 % incline = 500 tenths, above the 40 % bound.
    let frame = vec![0x08, 0x00, 0xF4, 0x01];
    assert_eq!(parse_treadmill_data(&frame), Err(DecodeError::InclineOutOfRange));
}

#[test]
fn push_decode_distance_out_of_range_fails_hard() {
    // 2,000,000 m is above the 1,000,000 m sanity bound.
    let frame = vec![0x04, 0x00, 0x80, 0x84, 0x1E];
    assert_eq!(parse_treadmill_data(&frame), Err(DecodeError::DistanceOutOfRange));
}

#[test]
fn push_decode_heart_rate_is_discarded_not_fatal() {
    // Heart rate only (flags 0x0100): a plausible value is reported;
    // zero and a value above 220 are discarded, never failing the frame.
    let r = parse_treadmill_data(&[0x00, 0x01, 150]).unwrap();
    assert_eq!(r.heart_rate, Some(150));
    let r = parse_treadmill_data(&[0x00, 0x01, 0]).unwrap();
    assert_eq!(r.heart_rate, None);
    let r = parse_treadmill_data(&[0x00, 0x01, 230]).unwrap();
    assert_eq!(r.heart_rate, None);
}

#[test]
fn push_decode_energy_and_times() {
    // Energy (bit 7) and elapsed time (bit 10): flags 0x0480.
    // Energy: total 300 kcal, 450 kcal/h, 7 kcal/min; elapsed 3600 s.
    let frame = vec![
        0x80, 0x04, 0x2C, 0x01, 0xC2, 0x01, 0x07, 0x10, 0x0E,
    ];
    let r = parse_treadmill_data(&frame).unwrap();
    assert_eq!(r.total_energy, Some(300));
    assert_eq!(r.energy_per_hour, Some(450));
    assert_eq!(r.elapsed_time, Some(3600));
    assert_eq!(r.remaining_time, None);
}

#[test]
fn push_speed_fixed_point_is_exact() {
    // 10.00 km/h = 1000 hundredths; 1000 * 1000 / 360 = 2777 mm/s (floor).
    let frame = vec![0x01, 0x00, 0xE8, 0x03];
    let r = parse_treadmill_data(&frame).unwrap();
    assert_eq!(r.speed_mms, Some(2777));
}
