use vstd::prelude::*;

verus! {

// Sanity bounds on decoded readings. Both decoders enforce them post-decode:
// a physically impossible value fails the frame hard, never clamps.

/// Highest physically sane speed: 50 m/s, in millimetres per second.
pub const MAX_SPEED_MMS: u32 = 50_000;

/// Lowest physically sane incline, in tenths of a percent.
pub const MIN_INCLINE_TENTHS: i32 = -150;

/// Highest physically sane incline, in tenths of a percent.
pub const MAX_INCLINE_TENTHS: i32 = 400;

/// Highest physically sane cumulative distance, in metres.
pub const MAX_DISTANCE_M: u32 = 1_000_000;

/// Highest plausible heart rate, in beats per minute.
pub const MAX_HEART_RATE: u8 = 220;

/// One normalized reading decoded from a device frame.
///
/// Every field is optional because each protocol, and each frame within a
/// protocol, reports a different subset. An absent field means "not reported",
/// never zero. Cumulative counters (distance, steps, energy) carry whatever
/// absolute value the device holds; session-relative accounting is done by the
/// reconciliation engine.
#[derive(Clone, Copy, Debug, PartialEq, Eq, Structural)]
pub struct TreadmillData {
    /// Belt speed in millimetres per second.
    pub speed_mms: Option<u32>,
    /// Incline in tenths of a percent.
    pub incline_tenths: Option<i16>,
    /// Cumulative distance in metres.
    pub distance_m: Option<u32>,
    /// Cumulative step count.
    pub steps: Option<u16>,
    /// Cumulative energy in kilocalories.
    pub total_energy: Option<u16>,
    /// Energy rate in kilocalories per hour.
    pub energy_per_hour: Option<u16>,
    /// Heart rate in beats per minute.
    pub heart_rate: Option<u8>,
    /// Elapsed workout time in seconds.
    pub elapsed_time: Option<u32>,
    /// Remaining workout time in seconds.
    pub remaining_time: Option<u16>,
    /// Force on the belt in newtons.
    pub force_on_belt: Option<i16>,
    /// Power output in watts.
    pub power_output: Option<i16>,
}

impl TreadmillData {
    /// The reading with every field absent.
    pub open spec fn empty_spec() -> TreadmillData {
        TreadmillData {
            speed_mms: None,
            incline_tenths: None,
            distance_m: None,
            steps: None,
            total_energy: None,
            energy_per_hour: None,
            heart_rate: None,
            elapsed_time: None,
            remaining_time: None,
            force_on_belt: None,
            power_output: None,
        }
    }

    /// Build a reading with every field absent.
    pub fn empty() -> (r: TreadmillData)
        ensures
            r == TreadmillData::empty_spec(),
    {
        TreadmillData {
            speed_mms: None,
            incline_tenths: None,
            distance_m: None,
            steps: None,
            total_energy: None,
            energy_per_hour: None,
            heart_rate: None,
            elapsed_time: None,
            remaining_time: None,
            force_on_belt: None,
            power_output: None,
        }
    }

    /// The reading obtained by overlaying `update` on `self`: fields present
    /// in `update` replace the old ones, absent fields are kept.
    pub open spec fn merged(self, update: TreadmillData) -> TreadmillData {
        TreadmillData {
            speed_mms: if update.speed_mms is Some { update.speed_mms } else { self.speed_mms },
            incline_tenths: if update.incline_tenths is Some {
                update.incline_tenths
            } else {
                self.incline_tenths
            },
            distance_m: if update.distance_m is Some { update.distance_m } else { self.distance_m },
            steps: if update.steps is Some { update.steps } else { self.steps },
            total_energy: if update.total_energy is Some {
                update.total_energy
            } else {
                self.total_energy
            },
            energy_per_hour: if update.energy_per_hour is Some {
                update.energy_per_hour
            } else {
                self.energy_per_hour
            },
            heart_rate: if update.heart_rate is Some { update.heart_rate } else { self.heart_rate },
            elapsed_time: if update.elapsed_time is Some {
                update.elapsed_time
            } else {
                self.elapsed_time
            },
            remaining_time: if update.remaining_time is Some {
                update.remaining_time
            } else {
                self.remaining_time
            },
            force_on_belt: if update.force_on_belt is Some {
                update.force_on_belt
            } else {
                self.force_on_belt
            },
            power_output: if update.power_output is Some {
                update.power_output
            } else {
                self.power_output
            },
        }
    }

    /// Overlay a partial reading on this one, keeping fields the update
    /// does not report. Used to accumulate one logical reading out of the
    /// single-field answers of a polling protocol.
    pub fn merge_from(&mut self, update: &TreadmillData)
        ensures
            *final(self) == old(self).merged(*update),
    {
        if update.speed_mms.is_some() {
            self.speed_mms = update.speed_mms;
        }
        if update.incline_tenths.is_some() {
            self.incline_tenths = update.incline_tenths;
        }
        if update.distance_m.is_some() {
            self.distance_m = update.distance_m;
        }
        if update.steps.is_some() {
            self.steps = update.steps;
        }
        if update.total_energy.is_some() {
            self.total_energy = update.total_energy;
        }
        if update.energy_per_hour.is_some() {
            self.energy_per_hour = update.energy_per_hour;
        }
        if update.heart_rate.is_some() {
            self.heart_rate = update.heart_rate;
        }
        if update.elapsed_time.is_some() {
            self.elapsed_time = update.elapsed_time;
        }
        if update.remaining_time.is_some() {
            self.remaining_time = update.remaining_time;
        }
        if update.force_on_belt.is_some() {
            self.force_on_belt = update.force_on_belt;
        }
        if update.power_output.is_some() {
            self.power_output = update.power_output;
        }
    }
}

impl Default for TreadmillData {
    /// The default reading reports nothing.
    fn default() -> (r: Self)
        ensures
            r == TreadmillData::empty_spec(),
    {
        TreadmillData::empty()
    }
}

} // verus!
