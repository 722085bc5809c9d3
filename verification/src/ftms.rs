//! Decoder for the push protocol: the device notifies frames that start with
//! a 16-bit little-endian flags word; each set bit marks one field as present,
//! in a fixed order and with a fixed byte width per field.

use vstd::prelude::*;

use crate::lifespan::DecodeError;
use crate::reading::{
    TreadmillData, MAX_DISTANCE_M, MAX_HEART_RATE, MAX_INCLINE_TENTHS, MAX_SPEED_MMS,
    MIN_INCLINE_TENTHS,
};
use crate::units::kmh_hundredths_to_mms;

verus! {

/// 128-bit value of the standard treadmill-data characteristic UUID (0x2ACD).
pub const TREADMILL_DATA_UUID: u128 = 0x00002ACD_0000_1000_8000_00805F9B34FB;

/// Whether the flag bit selected by `pow` (a power of two) is set.
pub open spec fn has_field(flags: int, pow: int) -> bool {
    (flags / pow) % 2 == 1
}

/// A 16-bit little-endian value at byte offset `i`.
pub open spec fn le16(s: Seq<u8>, i: int) -> int {
    s[i] + 256 * s[i + 1]
}

/// A 24-bit little-endian value at byte offset `i`.
pub open spec fn le24(s: Seq<u8>, i: int) -> int {
    s[i] + 256 * s[i + 1] + 65536 * s[i + 2]
}

/// A 16-bit little-endian two's-complement value at byte offset `i`.
pub open spec fn le16_signed(s: Seq<u8>, i: int) -> int {
    if le16(s, i) < 32768 {
        le16(s, i)
    } else {
        le16(s, i) - 65536
    }
}

// Byte offsets of the fields, in their wire order. Each field is present only
// when its flag bit is set, and then occupies its fixed width:
// bit 0: instantaneous speed, 2 bytes, hundredths of km/h;
// bit 1: average speed, 2 bytes (consumed, not reported);
// bit 2: total distance, 3 bytes, metres;
// bit 3: incline, 2 bytes, signed tenths of a percent;
// bit 4: elevation gain, 4 bytes (consumed, not reported);
// bit 5: instantaneous pace, 1 byte (consumed, not reported);
// bit 6: average pace, 1 byte (consumed, not reported);
// bit 7: energy, 5 bytes: total kcal (2), kcal per hour (2), kcal per minute (1);
// bit 8: heart rate, 1 byte, bpm;
// bit 9: metabolic equivalent, 1 byte (consumed, not reported);
// bit 10: elapsed time, 2 bytes, seconds;
// bit 11: remaining time, 2 bytes, seconds;
// bit 12: force on belt (2) and power output (2), signed;
// bits 13-15: no payload, skipped.

/// Offset of the instantaneous-speed field.
pub open spec fn off_speed(flags: int) -> int {
    2
}

/// Offset of the average-speed field.
pub open spec fn off_avg_speed(flags: int) -> int {
    off_speed(flags) + if has_field(flags, 1) {
        2int
    } else {
        0int
    }
}

/// Offset of the total-distance field.
pub open spec fn off_distance(flags: int) -> int {
    off_avg_speed(flags) + if has_field(flags, 2) {
        2int
    } else {
        0int
    }
}

/// Offset of the incline field.
pub open spec fn off_incline(flags: int) -> int {
    off_distance(flags) + if has_field(flags, 4) {
        3int
    } else {
        0int
    }
}

/// Offset of the elevation-gain field.
pub open spec fn off_elevation(flags: int) -> int {
    off_incline(flags) + if has_field(flags, 8) {
        2int
    } else {
        0int
    }
}

/// Offset of the instantaneous-pace field.
pub open spec fn off_inst_pace(flags: int) -> int {
    off_elevation(flags) + if has_field(flags, 16) {
        4int
    } else {
        0int
    }
}

/// Offset of the average-pace field.
pub open spec fn off_avg_pace(flags: int) -> int {
    off_inst_pace(flags) + if has_field(flags, 32) {
        1int
    } else {
        0int
    }
}

/// Offset of the energy fields.
pub open spec fn off_energy(flags: int) -> int {
    off_avg_pace(flags) + if has_field(flags, 64) {
        1int
    } else {
        0int
    }
}

/// Offset of the heart-rate field.
pub open spec fn off_heart_rate(flags: int) -> int {
    off_energy(flags) + if has_field(flags, 128) {
        5int
    } else {
        0int
    }
}

/// Offset of the metabolic-equivalent field.
pub open spec fn off_met(flags: int) -> int {
    off_heart_rate(flags) + if has_field(flags, 256) {
        1int
    } else {
        0int
    }
}

/// Offset of the elapsed-time field.
pub open spec fn off_elapsed(flags: int) -> int {
    off_met(flags) + if has_field(flags, 512) {
        1int
    } else {
        0int
    }
}

/// Offset of the remaining-time field.
pub open spec fn off_remaining(flags: int) -> int {
    off_elapsed(flags) + if has_field(flags, 1024) {
        2int
    } else {
        0int
    }
}

/// Offset of the force and power fields.
pub open spec fn off_force(flags: int) -> int {
    off_remaining(flags) + if has_field(flags, 2048) {
        2int
    } else {
        0int
    }
}

/// The number of bytes a frame with these flags must hold.
pub open spec fn frame_len(flags: int) -> int {
    off_force(flags) + if has_field(flags, 4096) {
        4int
    } else {
        0int
    }
}

/// The decoded speed, in millimetres per second.
pub open spec fn push_speed(s: Seq<u8>, flags: int) -> Option<u32> {
    if has_field(flags, 1) {
        Some(kmh_hundredths_to_mms(le16(s, off_speed(flags))) as u32)
    } else {
        None
    }
}

/// The decoded cumulative distance, in metres.
pub open spec fn push_distance(s: Seq<u8>, flags: int) -> Option<u32> {
    if has_field(flags, 4) {
        Some(le24(s, off_distance(flags)) as u32)
    } else {
        None
    }
}

/// The decoded incline, in tenths of a percent.
pub open spec fn push_incline(s: Seq<u8>, flags: int) -> Option<i16> {
    if has_field(flags, 8) {
        Some(le16_signed(s, off_incline(flags)) as i16)
    } else {
        None
    }
}

/// The decoded cumulative energy, in kilocalories.
pub open spec fn push_energy(s: Seq<u8>, flags: int) -> Option<u16> {
    if has_field(flags, 128) {
        Some(le16(s, off_energy(flags)) as u16)
    } else {
        None
    }
}

/// The decoded energy rate, in kilocalories per hour.
pub open spec fn push_energy_per_hour(s: Seq<u8>, flags: int) -> Option<u16> {
    if has_field(flags, 128) {
        Some(le16(s, off_energy(flags) + 2) as u16)
    } else {
        None
    }
}

/// The decoded heart rate: a value outside (0, 220] bpm is auxiliary noise
/// and is reported as absent rather than failing the frame.
pub open spec fn push_heart_rate(s: Seq<u8>, flags: int) -> Option<u8> {
    if has_field(flags, 256) {
        let hr = s[off_heart_rate(flags)];
        if 0 < hr <= MAX_HEART_RATE {
            Some(hr)
        } else {
            None
        }
    } else {
        None
    }
}

/// The decoded elapsed time, in seconds.
pub open spec fn push_elapsed(s: Seq<u8>, flags: int) -> Option<u32> {
    if has_field(flags, 1024) {
        Some(le16(s, off_elapsed(flags)) as u32)
    } else {
        None
    }
}

/// The decoded remaining time, in seconds.
pub open spec fn push_remaining(s: Seq<u8>, flags: int) -> Option<u16> {
    if has_field(flags, 2048) {
        Some(le16(s, off_remaining(flags)) as u16)
    } else {
        None
    }
}

/// The decoded force on the belt, in newtons.
pub open spec fn push_force(s: Seq<u8>, flags: int) -> Option<i16> {
    if has_field(flags, 4096) {
        Some(le16_signed(s, off_force(flags)) as i16)
    } else {
        None
    }
}

/// The decoded power output, in watts.
pub open spec fn push_power(s: Seq<u8>, flags: int) -> Option<i16> {
    if has_field(flags, 4096) {
        Some(le16_signed(s, off_force(flags) + 2) as i16)
    } else {
        None
    }
}

/// The reading a well-formed push frame decodes to.
pub open spec fn push_reading(s: Seq<u8>, flags: int) -> TreadmillData {
    TreadmillData {
        speed_mms: push_speed(s, flags),
        incline_tenths: push_incline(s, flags),
        distance_m: push_distance(s, flags),
        steps: None,
        total_energy: push_energy(s, flags),
        energy_per_hour: push_energy_per_hour(s, flags),
        heart_rate: push_heart_rate(s, flags),
        elapsed_time: push_elapsed(s, flags),
        remaining_time: push_remaining(s, flags),
        force_on_belt: push_force(s, flags),
        power_output: push_power(s, flags),
    }
}

/// What `parse_treadmill_data` returns on any input: too-short frames fail,
/// and sanity bounds are enforced after decoding — a physically impossible
/// speed, incline or distance fails the frame rather than being clamped.
pub open spec fn spec_parse_push(s: Seq<u8>) -> Result<TreadmillData, DecodeError> {
    if s.len() < 2 {
        Err(DecodeError::TooShort)
    } else {
        let flags = le16(s, 0);
        if s.len() < frame_len(flags) {
            Err(DecodeError::TooShort)
        } else if has_field(flags, 1) && kmh_hundredths_to_mms(le16(s, off_speed(flags)))
            > MAX_SPEED_MMS {
            Err(DecodeError::SpeedOutOfRange)
        } else if has_field(flags, 8) && !(MIN_INCLINE_TENTHS <= le16_signed(s, off_incline(flags))
            <= MAX_INCLINE_TENTHS) {
            Err(DecodeError::InclineOutOfRange)
        } else if has_field(flags, 4) && le24(s, off_distance(flags)) > MAX_DISTANCE_M {
            Err(DecodeError::DistanceOutOfRange)
        } else {
            Ok(push_reading(s, flags))
        }
    }
}


/// Read a 16-bit little-endian value.
fn le16_at(data: &[u8], i: usize) -> (r: u32)
    requires
        i + 2 <= data@.len(),
    ensures
        r == le16(data@, i as int),
        r < 65536,
{
    data[i] as u32 + 256 * (data[i + 1] as u32)
}

/// Read a 24-bit little-endian value.
fn le24_at(data: &[u8], i: usize) -> (r: u32)
    requires
        i + 3 <= data@.len(),
    ensures
        r == le24(data@, i as int),
        r < 16777216,
{
    data[i] as u32 + 256 * (data[i + 1] as u32) + 65536 * (data[i + 2] as u32)
}

/// Read a 16-bit little-endian two's-complement value.
fn le16_signed_at(data: &[u8], i: usize) -> (r: i16)
    requires
        i + 2 <= data@.len(),
    ensures
        r == le16_signed(data@, i as int),
{
    let v = le16_at(data, i);
    if v >= 32768 {
        (v as i32 - 65536) as i16
    } else {
        v as i16
    }
}

/// The number of bytes a frame whose flags word is `flags` must hold.
#[verifier::rlimit(100)]
fn required_len(flags: u32) -> (n: usize)
    requires
        flags < 65536,
    ensures
        n == frame_len(flags as int),
        n >= 2,
{
    let b_speed = flags % 2 == 1;
    assert(b_speed == has_field(flags as int, 1));
    let b_avg_speed = (flags / 2) % 2 == 1;
    assert(b_avg_speed == has_field(flags as int, 2));
    let b_distance = (flags / 4) % 2 == 1;
    assert(b_distance == has_field(flags as int, 4));
    let b_incline = (flags / 8) % 2 == 1;
    assert(b_incline == has_field(flags as int, 8));
    let b_elevation = (flags / 16) % 2 == 1;
    assert(b_elevation == has_field(flags as int, 16));
    let b_inst_pace = (flags / 32) % 2 == 1;
    assert(b_inst_pace == has_field(flags as int, 32));
    let b_avg_pace = (flags / 64) % 2 == 1;
    assert(b_avg_pace == has_field(flags as int, 64));
    let b_energy = (flags / 128) % 2 == 1;
    assert(b_energy == has_field(flags as int, 128));
    let b_heart_rate = (flags / 256) % 2 == 1;
    assert(b_heart_rate == has_field(flags as int, 256));
    let b_met = (flags / 512) % 2 == 1;
    assert(b_met == has_field(flags as int, 512));
    let b_elapsed = (flags / 1024) % 2 == 1;
    assert(b_elapsed == has_field(flags as int, 1024));
    let b_remaining = (flags / 2048) % 2 == 1;
    assert(b_remaining == has_field(flags as int, 2048));
    let b_force = (flags / 4096) % 2 == 1;
    assert(b_force == has_field(flags as int, 4096));
    let o_speed: usize = 2;
    let o_avg_speed: usize = o_speed + if b_speed { 2 } else { 0 };
    assert(o_avg_speed == off_avg_speed(flags as int));
    let o_distance: usize = o_avg_speed + if b_avg_speed { 2 } else { 0 };
    assert(o_distance == off_distance(flags as int));
    let o_incline: usize = o_distance + if b_distance { 3 } else { 0 };
    assert(o_incline == off_incline(flags as int));
    let o_elevation: usize = o_incline + if b_incline { 2 } else { 0 };
    assert(o_elevation == off_elevation(flags as int));
    let o_inst_pace: usize = o_elevation + if b_elevation { 4 } else { 0 };
    assert(o_inst_pace == off_inst_pace(flags as int));
    let o_avg_pace: usize = o_inst_pace + if b_inst_pace { 1 } else { 0 };
    assert(o_avg_pace == off_avg_pace(flags as int));
    let o_energy: usize = o_avg_pace + if b_avg_pace { 1 } else { 0 };
    assert(o_energy == off_energy(flags as int));
    let o_heart_rate: usize = o_energy + if b_energy { 5 } else { 0 };
    assert(o_heart_rate == off_heart_rate(flags as int));
    let o_met: usize = o_heart_rate + if b_heart_rate { 1 } else { 0 };
    assert(o_met == off_met(flags as int));
    let o_elapsed: usize = o_met + if b_met { 1 } else { 0 };
    assert(o_elapsed == off_elapsed(flags as int));
    let o_remaining: usize = o_elapsed + if b_elapsed { 2 } else { 0 };
    assert(o_remaining == off_remaining(flags as int));
    let o_force: usize = o_remaining + if b_remaining { 2 } else { 0 };
    assert(o_force == off_force(flags as int));
    let needed: usize = o_force + if b_force { 4 } else { 0 };
    assert(needed == frame_len(flags as int));
    needed
}

/// Read the speed, distance and incline fields of a long-enough frame.
#[verifier::rlimit(100)]
fn read_motion_fields(data: &[u8], flags: u32) -> (r: (Option<u32>, Option<u32>, Option<i16>))
    requires
        flags < 65536,
        data@.len() >= frame_len(flags as int),
    ensures
        r.0 == push_speed(data@, flags as int),
        r.1 == push_distance(data@, flags as int),
        r.2 == push_incline(data@, flags as int),
{
    let b_speed = flags % 2 == 1;
    assert(b_speed == has_field(flags as int, 1));
    let b_avg_speed = (flags / 2) % 2 == 1;
    assert(b_avg_speed == has_field(flags as int, 2));
    let b_distance = (flags / 4) % 2 == 1;
    assert(b_distance == has_field(flags as int, 4));
    let b_incline = (flags / 8) % 2 == 1;
    assert(b_incline == has_field(flags as int, 8));
    let o_speed: usize = 2;
    let o_avg_speed: usize = o_speed + if b_speed { 2 } else { 0 };
    assert(o_avg_speed == off_avg_speed(flags as int));
    let o_distance: usize = o_avg_speed + if b_avg_speed { 2 } else { 0 };
    assert(o_distance == off_distance(flags as int));
    let o_incline: usize = o_distance + if b_distance { 3 } else { 0 };
    assert(o_incline == off_incline(flags as int));
    assert(data@.len() >= off_elevation(flags as int));

    let speed_mms: Option<u32> = if b_speed {
        let raw = le16_at(data, o_speed);
        Some(crate::units::speed_kmh_hundredths_to_mms(raw))
    } else {
        None
    };
    let distance_m: Option<u32> = if b_distance {
        Some(le24_at(data, o_distance))
    } else {
        None
    };
    let incline_tenths: Option<i16> = if b_incline {
        Some(le16_signed_at(data, o_incline))
    } else {
        None
    };
    (speed_mms, distance_m, incline_tenths)
}

/// Read the energy and heart-rate fields of a long-enough frame.
#[verifier::rlimit(100)]
fn read_energy_fields(data: &[u8], flags: u32) -> (r: (Option<u16>, Option<u16>, Option<u8>))
    requires
        flags < 65536,
        data@.len() >= frame_len(flags as int),
    ensures
        r.0 == push_energy(data@, flags as int),
        r.1 == push_energy_per_hour(data@, flags as int),
        r.2 == push_heart_rate(data@, flags as int),
{
    let b_speed = flags % 2 == 1;
    assert(b_speed == has_field(flags as int, 1));
    let b_avg_speed = (flags / 2) % 2 == 1;
    assert(b_avg_speed == has_field(flags as int, 2));
    let b_distance = (flags / 4) % 2 == 1;
    assert(b_distance == has_field(flags as int, 4));
    let b_incline = (flags / 8) % 2 == 1;
    assert(b_incline == has_field(flags as int, 8));
    let b_elevation = (flags / 16) % 2 == 1;
    assert(b_elevation == has_field(flags as int, 16));
    let b_inst_pace = (flags / 32) % 2 == 1;
    assert(b_inst_pace == has_field(flags as int, 32));
    let b_avg_pace = (flags / 64) % 2 == 1;
    assert(b_avg_pace == has_field(flags as int, 64));
    let b_energy = (flags / 128) % 2 == 1;
    assert(b_energy == has_field(flags as int, 128));
    let b_heart_rate = (flags / 256) % 2 == 1;
    assert(b_heart_rate == has_field(flags as int, 256));
    let o_speed: usize = 2;
    let o_avg_speed: usize = o_speed + if b_speed { 2 } else { 0 };
    assert(o_avg_speed == off_avg_speed(flags as int));
    let o_distance: usize = o_avg_speed + if b_avg_speed { 2 } else { 0 };
    assert(o_distance == off_distance(flags as int));
    let o_incline: usize = o_distance + if b_distance { 3 } else { 0 };
    assert(o_incline == off_incline(flags as int));
    let o_elevation: usize = o_incline + if b_incline { 2 } else { 0 };
    assert(o_elevation == off_elevation(flags as int));
    let o_inst_pace: usize = o_elevation + if b_elevation { 4 } else { 0 };
    assert(o_inst_pace == off_inst_pace(flags as int));
    let o_avg_pace: usize = o_inst_pace + if b_inst_pace { 1 } else { 0 };
    assert(o_avg_pace == off_avg_pace(flags as int));
    let o_energy: usize = o_avg_pace + if b_avg_pace { 1 } else { 0 };
    assert(o_energy == off_energy(flags as int));
    let o_heart_rate: usize = o_energy + if b_energy { 5 } else { 0 };
    assert(o_heart_rate == off_heart_rate(flags as int));
    let o_met: usize = o_heart_rate + if b_heart_rate { 1 } else { 0 };
    assert(o_met == off_met(flags as int));
    assert(data@.len() >= off_met(flags as int));

    let total_energy: Option<u16> = if b_energy {
        Some(le16_at(data, o_energy) as u16)
    } else {
        None
    };
    let energy_per_hour: Option<u16> = if b_energy {
        Some(le16_at(data, o_energy + 2) as u16)
    } else {
        None
    };
    let heart_rate: Option<u8> = if b_heart_rate {
        let hr = data[o_heart_rate];
        if 0 < hr && hr <= MAX_HEART_RATE {
            Some(hr)
        } else {
            None
        }
    } else {
        None
    };
    (total_energy, energy_per_hour, heart_rate)
}

/// Read the time, force and power fields of a long-enough frame.
#[verifier::rlimit(100)]
fn read_time_fields(data: &[u8], flags: u32) -> (r: (
    Option<u32>,
    Option<u16>,
    Option<i16>,
    Option<i16>,
))
    requires
        flags < 65536,
        data@.len() >= frame_len(flags as int),
    ensures
        r.0 == push_elapsed(data@, flags as int),
        r.1 == push_remaining(data@, flags as int),
        r.2 == push_force(data@, flags as int),
        r.3 == push_power(data@, flags as int),
{
    let b_speed = flags % 2 == 1;
    assert(b_speed == has_field(flags as int, 1));
    let b_avg_speed = (flags / 2) % 2 == 1;
    assert(b_avg_speed == has_field(flags as int, 2));
    let b_distance = (flags / 4) % 2 == 1;
    assert(b_distance == has_field(flags as int, 4));
    let b_incline = (flags / 8) % 2 == 1;
    assert(b_incline == has_field(flags as int, 8));
    let b_elevation = (flags / 16) % 2 == 1;
    assert(b_elevation == has_field(flags as int, 16));
    let b_inst_pace = (flags / 32) % 2 == 1;
    assert(b_inst_pace == has_field(flags as int, 32));
    let b_avg_pace = (flags / 64) % 2 == 1;
    assert(b_avg_pace == has_field(flags as int, 64));
    let b_energy = (flags / 128) % 2 == 1;
    assert(b_energy == has_field(flags as int, 128));
    let b_heart_rate = (flags / 256) % 2 == 1;
    assert(b_heart_rate == has_field(flags as int, 256));
    let b_met = (flags / 512) % 2 == 1;
    assert(b_met == has_field(flags as int, 512));
    let b_elapsed = (flags / 1024) % 2 == 1;
    assert(b_elapsed == has_field(flags as int, 1024));
    let b_remaining = (flags / 2048) % 2 == 1;
    assert(b_remaining == has_field(flags as int, 2048));
    let b_force = (flags / 4096) % 2 == 1;
    assert(b_force == has_field(flags as int, 4096));
    let o_speed: usize = 2;
    let o_avg_speed: usize = o_speed + if b_speed { 2 } else { 0 };
    assert(o_avg_speed == off_avg_speed(flags as int));
    let o_distance: usize = o_avg_speed + if b_avg_speed { 2 } else { 0 };
    assert(o_distance == off_distance(flags as int));
    let o_incline: usize = o_distance + if b_distance { 3 } else { 0 };
    assert(o_incline == off_incline(flags as int));
    let o_elevation: usize = o_incline + if b_incline { 2 } else { 0 };
    assert(o_elevation == off_elevation(flags as int));
    let o_inst_pace: usize = o_elevation + if b_elevation { 4 } else { 0 };
    assert(o_inst_pace == off_inst_pace(flags as int));
    let o_avg_pace: usize = o_inst_pace + if b_inst_pace { 1 } else { 0 };
    assert(o_avg_pace == off_avg_pace(flags as int));
    let o_energy: usize = o_avg_pace + if b_avg_pace { 1 } else { 0 };
    assert(o_energy == off_energy(flags as int));
    let o_heart_rate: usize = o_energy + if b_energy { 5 } else { 0 };
    assert(o_heart_rate == off_heart_rate(flags as int));
    let o_met: usize = o_heart_rate + if b_heart_rate { 1 } else { 0 };
    assert(o_met == off_met(flags as int));
    let o_elapsed: usize = o_met + if b_met { 1 } else { 0 };
    assert(o_elapsed == off_elapsed(flags as int));
    let o_remaining: usize = o_elapsed + if b_elapsed { 2 } else { 0 };
    assert(o_remaining == off_remaining(flags as int));
    let o_force: usize = o_remaining + if b_remaining { 2 } else { 0 };
    assert(o_force == off_force(flags as int));
    assert(data@.len() >= o_force + if b_force { 4int } else { 0int });

    let elapsed_time: Option<u32> = if b_elapsed {
        Some(le16_at(data, o_elapsed))
    } else {
        None
    };
    let remaining_time: Option<u16> = if b_remaining {
        Some(le16_at(data, o_remaining) as u16)
    } else {
        None
    };
    let force_on_belt: Option<i16> = if b_force {
        Some(le16_signed_at(data, o_force))
    } else {
        None
    };
    let power_output: Option<i16> = if b_force {
        Some(le16_signed_at(data, o_force + 2))
    } else {
        None
    };
    (elapsed_time, remaining_time, force_on_belt, power_output)
}

/// Parse one push-protocol frame into a normalized reading.
///
/// Reads the 16-bit little-endian flags word, then consumes exactly the
/// declared byte width of each present field in order. Absent fields are
/// reported as absent, never defaulted to zero. Sanity bounds are enforced
/// after decoding and fail the frame rather than clamping it. Never panics:
/// every malformed frame returns a typed decode failure.
#[verifier::rlimit(50)]
pub fn parse_treadmill_data(data: &[u8]) -> (r: Result<TreadmillData, DecodeError>)
    ensures
        r == spec_parse_push(data@),
{
    if data.len() < 2 {
        return Err(DecodeError::TooShort);
    }
    let flags = le16_at(data, 0);
    let needed = required_len(flags);
    if data.len() < needed {
        return Err(DecodeError::TooShort);
    }

    let (speed_mms, distance_m, incline_tenths) = read_motion_fields(data, flags);
    let (total_energy, energy_per_hour, heart_rate) = read_energy_fields(data, flags);
    let (elapsed_time, remaining_time, force_on_belt, power_output) = read_time_fields(data, flags);

    // Sanity bounds, enforced post-decode: hard failures, not clamping.
    match speed_mms {
        Some(v) => if v > MAX_SPEED_MMS {
            return Err(DecodeError::SpeedOutOfRange);
        },
        None => (),
    }
    match incline_tenths {
        Some(v) => if (v as i32) < MIN_INCLINE_TENTHS || (v as i32) > MAX_INCLINE_TENTHS {
            return Err(DecodeError::InclineOutOfRange);
        },
        None => (),
    }
    match distance_m {
        Some(v) => if v > MAX_DISTANCE_M {
            return Err(DecodeError::DistanceOutOfRange);
        },
        None => (),
    }

    Ok(
        TreadmillData {
            speed_mms,
            incline_tenths,
            distance_m,
            steps: None,
            total_energy,
            energy_per_hour,
            heart_rate,
            elapsed_time,
            remaining_time,
            force_on_belt,
            power_output,
        },
    )
}

} // verus!
