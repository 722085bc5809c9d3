use vstd::prelude::*;

verus! {

/// Millimetres per second for a speed given in hundredths of a mile per hour.
///
/// One mile per hour is 0.44704 m/s exactly, so `v` hundredths of a mile per
/// hour are `v * 0.44704` mm/s; the fixed-point result rounds down.
pub open spec fn mph_hundredths_to_mms(v: int) -> int {
    v * 44704 / 10000
}

/// Millimetres per second for a speed given in hundredths of a kilometre per
/// hour. One km/h is 1000/3600 m/s, so `v` hundredths are `v * 10 / 36` mm/s,
/// rounded down.
pub open spec fn kmh_hundredths_to_mms(v: int) -> int {
    v * 1000 / 360
}

/// Metres for a distance given in hundredths of a mile. One mile is
/// 1609.34 m, so `v` hundredths are `v * 16.0934` m, rounded down.
pub open spec fn mile_hundredths_to_m(v: int) -> int {
    v * 160934 / 10000
}

/// Convert hundredths of a mile per hour to millimetres per second.
pub fn speed_mph_hundredths_to_mms(v: u32) -> (r: u32)
    requires
        v <= 100_000,
    ensures
        r == mph_hundredths_to_mms(v as int),
{
    ((v as u64 * 44704) / 10000) as u32
}

/// Convert hundredths of a kilometre per hour to millimetres per second.
pub fn speed_kmh_hundredths_to_mms(v: u32) -> (r: u32)
    requires
        v <= 1_000_000,
    ensures
        r == kmh_hundredths_to_mms(v as int),
{
    ((v as u64 * 1000) / 360) as u32
}

/// Convert hundredths of a mile to metres.
pub fn distance_mile_hundredths_to_m(v: u32) -> (r: u32)
    requires
        v <= 100_000,
    ensures
        r == mile_hundredths_to_m(v as int),
{
    ((v as u64 * 160934) / 10000) as u32
}

} // verus!
