use vstd::prelude::*;

use crate::reading::{TreadmillData, MAX_DISTANCE_M, MAX_SPEED_MMS};
use crate::units::{mile_hundredths_to_m, mph_hundredths_to_mms};
use crate::units::{distance_mile_hundredths_to_m, speed_mph_hundredths_to_mms};

verus! {

/// 128-bit value of the vendor-specific characteristic UUID the polling
/// protocol answers on (0xFFF1 in the vendor range 0xFFF0-0xFFFF).
pub const LIFESPAN_CHAR_UUID: u128 = 0x0000FFF1_0000_1000_8000_00805F9B34FB;

/// Why a raw frame could not be decoded into a reading.
#[derive(Clone, Copy, Debug, PartialEq, Eq, Structural)]
pub enum DecodeError {
    /// The frame is shorter than the protocol's minimum header.
    TooShort,
    /// The decoded speed lies outside the physically possible range.
    SpeedOutOfRange,
    /// The decoded incline lies outside the physically possible range.
    InclineOutOfRange,
    /// The decoded distance lies outside the physically possible range.
    DistanceOutOfRange,
    /// A polling-protocol frame arrived with no pending query to attribute it to.
    MissingQuery,
    /// The protocol has no command for the requested query.
    UnsupportedQuery,
}

/// Query types of the polling protocol. Each query retrieves one piece of
/// data; frames are not self-describing, so the caller must remember which
/// query a frame answers.
#[derive(Clone, Copy, Debug, PartialEq, Eq, Structural)]
pub enum LifeSpanQuery {
    Steps,
    Distance,
    Calories,
    Speed,
    Time,
}

impl LifeSpanQuery {
    /// The 5-byte command that requests this query.
    pub open spec fn spec_command(self) -> Seq<u8> {
        match self {
            LifeSpanQuery::Steps => seq![0xA1u8, 0x88u8, 0x00u8, 0x00u8, 0x00u8],
            LifeSpanQuery::Distance => seq![0xA1u8, 0x85u8, 0x00u8, 0x00u8, 0x00u8],
            LifeSpanQuery::Calories => seq![0xA1u8, 0x87u8, 0x00u8, 0x00u8, 0x00u8],
            LifeSpanQuery::Speed => seq![0xA1u8, 0x82u8, 0x00u8, 0x00u8, 0x00u8],
            LifeSpanQuery::Time => seq![0xA1u8, 0x89u8, 0x00u8, 0x00u8, 0x00u8],
        }
    }

    /// Returns the 5-byte command to send for this query type.
    pub fn command(&self) -> (r: [u8; 5])
        ensures
            r@ == self.spec_command(),
    {
        let r: [u8; 5] = match self {
            LifeSpanQuery::Steps => [0xA1, 0x88, 0x00, 0x00, 0x00],
            LifeSpanQuery::Distance => [0xA1, 0x85, 0x00, 0x00, 0x00],
            LifeSpanQuery::Calories => [0xA1, 0x87, 0x00, 0x00, 0x00],
            LifeSpanQuery::Speed => [0xA1, 0x82, 0x00, 0x00, 0x00],
            LifeSpanQuery::Time => [0xA1, 0x89, 0x00, 0x00, 0x00],
        };
        proof {
            assert(r@ =~= self.spec_command());
        }
        r
    }
}

/// A 16-bit big-endian value.
pub open spec fn be16(hi: u8, lo: u8) -> int {
    hi * 256 + lo
}

/// The reading a well-formed polling frame of at least 4 bytes decodes to,
/// given the query it answers.
///
/// Response format: `[0xA1, 0xAA, data...]` where the data bytes depend on
/// the query:
/// - speed: byte 2 is whole miles per hour, byte 3 hundredths of one;
/// - distance: bytes 2-3 are a big-endian count of hundredths of a mile;
/// - calories and steps: bytes 2-3 are a big-endian count;
/// - time: bytes 3, 4, 5 are hours, minutes, seconds; a frame shorter than
///   6 bytes or with an impossible time reports nothing.
pub open spec fn spec_lifespan_reading(s: Seq<u8>, query: LifeSpanQuery) -> TreadmillData {
    match query {
        LifeSpanQuery::Speed => TreadmillData {
            speed_mms: Some(mph_hundredths_to_mms(s[2] * 100 + s[3]) as u32),
            ..TreadmillData::empty_spec()
        },
        LifeSpanQuery::Distance => TreadmillData {
            distance_m: Some(mile_hundredths_to_m(be16(s[2], s[3])) as u32),
            ..TreadmillData::empty_spec()
        },
        LifeSpanQuery::Calories => TreadmillData {
            total_energy: Some((be16(s[2], s[3])) as u16),
            ..TreadmillData::empty_spec()
        },
        LifeSpanQuery::Steps => TreadmillData {
            steps: Some((be16(s[2], s[3])) as u16),
            ..TreadmillData::empty_spec()
        },
        LifeSpanQuery::Time => {
            if s.len() >= 6 && s[3] < 24 && s[4] < 60 && s[5] < 60 {
                TreadmillData {
                    elapsed_time: Some((s[3] * 3600 + s[4] * 60 + s[5]) as u32),
                    ..TreadmillData::empty_spec()
                }
            } else {
                TreadmillData::empty_spec()
            }
        },
    }
}

/// What `parse_lifespan_response` returns on any input: too-short frames
/// fail, and the sanity bounds on speed and distance are enforced
/// post-decode — a physically impossible value fails the frame hard, never
/// clamps.
pub open spec fn spec_parse_lifespan(s: Seq<u8>, query: LifeSpanQuery) -> Result<
    TreadmillData,
    DecodeError,
> {
    if s.len() < 4 {
        Err(DecodeError::TooShort)
    } else if query is Speed && mph_hundredths_to_mms(s[2] * 100 + s[3]) > MAX_SPEED_MMS {
        Err(DecodeError::SpeedOutOfRange)
    } else if query is Distance && mile_hundredths_to_m(be16(s[2], s[3])) > MAX_DISTANCE_M {
        Err(DecodeError::DistanceOutOfRange)
    } else {
        Ok(spec_lifespan_reading(s, query))
    }
}

/// Parse one polling-protocol response frame.
///
/// Each frame answers exactly one outstanding query, named by `query`. A
/// frame shorter than 4 bytes fails with [`DecodeError::TooShort`]; a speed
/// or distance answer beyond its sanity bound fails the frame hard. A time
/// frame that is short or carries an impossible time decodes to an empty
/// reading.
pub fn parse_lifespan_response(data: &[u8], query: LifeSpanQuery) -> (r: Result<
    TreadmillData,
    DecodeError,
>)
    ensures
        r == spec_parse_lifespan(data@, query),
{
    if data.len() < 4 {
        return Err(DecodeError::TooShort);
    }

    let mut result = TreadmillData::empty();

    match query {
        LifeSpanQuery::Speed => {
            // Whole miles per hour in byte 2, hundredths in byte 3.
            let speed_hundredths: u32 = (data[2] as u32) * 100 + (data[3] as u32);
            let speed_mms = speed_mph_hundredths_to_mms(speed_hundredths);
            if speed_mms > MAX_SPEED_MMS {
                return Err(DecodeError::SpeedOutOfRange);
            }
            result.speed_mms = Some(speed_mms);
        },
        LifeSpanQuery::Distance => {
            // Big-endian hundredths of a mile in bytes 2-3.
            let distance_hundredths: u32 = (data[2] as u32) * 256 + (data[3] as u32);
            let distance_m = distance_mile_hundredths_to_m(distance_hundredths);
            if distance_m > MAX_DISTANCE_M {
                return Err(DecodeError::DistanceOutOfRange);
            }
            result.distance_m = Some(distance_m);
        },
        LifeSpanQuery::Calories => {
            // Big-endian kilocalories in bytes 2-3.
            let calories: u16 = (data[2] as u16) * 256 + (data[3] as u16);
            result.total_energy = Some(calories);
        },
        LifeSpanQuery::Steps => {
            // Big-endian step count in bytes 2-3.
            let steps: u16 = (data[2] as u16) * 256 + (data[3] as u16);
            result.steps = Some(steps);
        },
        LifeSpanQuery::Time => {
            // Hours, minutes, seconds in bytes 3-5.
            if data.len() >= 6 {
                let hours = data[3] as u32;
                let minutes = data[4] as u32;
                let seconds = data[5] as u32;
                if hours < 24 && minutes < 60 && seconds < 60 {
                    result.elapsed_time = Some(hours * 3600 + minutes * 60 + seconds);
                }
            }
        },
    }

    Ok(result)
}

} // verus!
