//! Raw-capture samples: per-sample deltas between consecutive cumulative
//! readings, and the daily-summary aggregation over stored samples.

use vstd::prelude::*;

use crate::aggregate::SessionAggregates;
use crate::engine::SampleDeltas;
use crate::reading::TreadmillData;

verus! {

/// One raw sample as persisted: the reading's cumulative counters plus the
/// deltas since the previous sample. Timestamps are Unix epoch seconds;
/// speeds are millimetres per second.
#[derive(Clone, Copy, Debug, PartialEq, Eq, Structural)]
pub struct TreadmillSample {
    /// Unix epoch seconds.
    pub timestamp: i64,
    /// Belt speed in millimetres per second.
    pub speed_mms: Option<u32>,
    /// Cumulative metres as reported (kept for diagnosis).
    pub distance_total: Option<i64>,
    /// Cumulative kilocalories as reported.
    pub calories_total: Option<i64>,
    /// Cumulative steps as reported.
    pub steps_total: Option<i64>,
    /// Metres since the previous sample.
    pub distance_delta: Option<i64>,
    /// Kilocalories since the previous sample.
    pub calories_delta: Option<i64>,
    /// Steps since the previous sample.
    pub steps_delta: Option<i64>,
}

/// Delta between consecutive cumulative readings: the first reading and any
/// decrease (a device reset) contribute zero, never a negative value.
pub open spec fn monotonic_delta(last: Option<i64>, current: int) -> int {
    match last {
        Some(l) => if current >= l {
            current - l
        } else {
            0
        },
        None => 0,
    }
}

/// What one cumulative field's tracker state becomes after a reading:
/// `(delta, new last value)`.
pub open spec fn track_field(last: Option<i64>, current: Option<i64>) -> (Option<i64>, Option<i64>) {
    match current {
        Some(c) => (Some(monotonic_delta(last, c as int) as i64), Some(c)),
        None => (None, last),
    }
}

/// Tracks the last seen cumulative values so that consecutive readings can be
/// turned into per-sample deltas, robust to device resets (a decrease yields
/// a zero delta, not a negative one).
#[derive(Clone, Copy, Debug, PartialEq, Eq, Structural)]
pub struct SampleTracker {
    /// Last seen cumulative distance in metres.
    pub last_distance: Option<i64>,
    /// Last seen cumulative kilocalories.
    pub last_calories: Option<i64>,
    /// Last seen cumulative steps.
    pub last_steps: Option<i64>,
}

impl SampleTracker {
    /// Tracked values are cumulative counters, hence never negative.
    pub open spec fn wf(self) -> bool {
        &&& (self.last_distance matches Some(v) ==> v >= 0)
        &&& (self.last_calories matches Some(v) ==> v >= 0)
        &&& (self.last_steps matches Some(v) ==> v >= 0)
    }

    /// A tracker that has seen nothing yet.
    pub fn new() -> (r: SampleTracker)
        ensures
            r.wf(),
            r.last_distance is None && r.last_calories is None && r.last_steps is None,
    {
        SampleTracker { last_distance: None, last_calories: None, last_steps: None }
    }

    /// Turn one reading into a raw sample: cumulative values pass through,
    /// and each cumulative field present in the reading yields its delta
    /// against the last seen value, which it then replaces.
    pub fn record(&mut self, timestamp: i64, data: &TreadmillData) -> (s: TreadmillSample)
        requires
            old(self).wf(),
        ensures
            final(self).wf(),
            s.timestamp == timestamp,
            s.speed_mms == data.speed_mms,
            s.distance_total == spec_total_of_u32(data.distance_m),
            s.calories_total == spec_total_of_u16(data.total_energy),
            s.steps_total == spec_total_of_u16(data.steps),
            (s.distance_delta, final(self).last_distance) == track_field(
                old(self).last_distance,
                spec_total_of_u32(data.distance_m),
            ),
            (s.calories_delta, final(self).last_calories) == track_field(
                old(self).last_calories,
                spec_total_of_u16(data.total_energy),
            ),
            (s.steps_delta, final(self).last_steps) == track_field(
                old(self).last_steps,
                spec_total_of_u16(data.steps),
            ),
            (s.distance_delta matches Some(v) ==> v >= 0),
            (s.calories_delta matches Some(v) ==> v >= 0),
            (s.steps_delta matches Some(v) ==> v >= 0),
    {
        let distance_total: Option<i64> = match data.distance_m {
            Some(d) => Some(d as i64),
            None => None,
        };
        let calories_total: Option<i64> = match data.total_energy {
            Some(c) => Some(c as i64),
            None => None,
        };
        let steps_total: Option<i64> = match data.steps {
            Some(st) => Some(st as i64),
            None => None,
        };

        let distance_delta = track_one(&mut self.last_distance, &distance_total);
        let calories_delta = track_one(&mut self.last_calories, &calories_total);
        let steps_delta = track_one(&mut self.last_steps, &steps_total);

        TreadmillSample {
            timestamp,
            speed_mms: data.speed_mms,
            distance_total,
            calories_total,
            steps_total,
            distance_delta,
            calories_delta,
            steps_delta,
        }
    }
}

/// A cumulative 32-bit counter widened for storage.
pub open spec fn spec_total_of_u32(v: Option<u32>) -> Option<i64> {
    match v {
        Some(x) => Some(x as i64),
        None => None,
    }
}

/// A cumulative 16-bit counter widened for storage.
pub open spec fn spec_total_of_u16(v: Option<u16>) -> Option<i64> {
    match v {
        Some(x) => Some(x as i64),
        None => None,
    }
}

/// Track one cumulative field: compute its delta and update the last value.
fn track_one(last: &mut Option<i64>, current: &Option<i64>) -> (delta: Option<i64>)
    requires
        (*old(last) matches Some(v) ==> v >= 0),
        (*current matches Some(v) ==> v >= 0),
    ensures
        (delta, *final(last)) == track_field(*old(last), *current),
        (*final(last) matches Some(v) ==> v >= 0),
        (delta matches Some(v) ==> v >= 0),
{
    match *current {
        Some(c) => {
            let d: i64 = match *last {
                Some(l) => if c >= l {
                    c - l
                } else {
                    0
                },
                None => 0,
            };
            *last = Some(c);
            Some(d)
        },
        None => None,
    }
}

/// Summary of the activity of one local calendar date, aggregated from the
/// stored samples of that date exactly as the storage layer's query does:
/// only moving samples (speed above zero) count, deltas sum with absent ones
/// as zero, and the duration is the span between the first and last moving
/// sample.
#[derive(Clone, Debug)]
pub struct DailySummary {
    /// The date, in `YYYY-MM-DD` form.
    pub date: String,
    /// Number of moving samples.
    pub total_samples: i64,
    /// Seconds between the first and the last moving sample.
    pub duration_seconds: i64,
    /// Sum of the distance deltas, in metres.
    pub distance_meters: i64,
    /// Sum of the calorie deltas, in kilocalories.
    pub calories: i64,
    /// Sum of the step deltas.
    pub steps: i64,
    /// Mean speed of the moving samples, in millimetres per second (rounded
    /// down).
    pub avg_speed_mms: i64,
    /// Highest speed of the moving samples, in millimetres per second.
    pub max_speed_mms: u32,
}

/// A sample counts toward a summary when it was recorded while moving.
pub open spec fn is_moving(s: TreadmillSample) -> bool {
    s.speed_mms matches Some(v) && v > 0
}

/// A delta with absence counting as zero.
pub open spec fn delta_or_zero(v: Option<i64>) -> int {
    match v {
        Some(x) => x as int,
        None => 0,
    }
}

/// Sum of `f` over a run of samples.
pub open spec fn sum_by(q: Seq<TreadmillSample>, f: spec_fn(TreadmillSample) -> int) -> int
    decreases q.len(),
{
    if q.len() == 0 {
        0
    } else {
        sum_by(q.drop_last(), f) + f(q.last())
    }
}

/// Contribution of one sample to the moving-sample count.
pub open spec fn count_f() -> spec_fn(TreadmillSample) -> int {
    |s: TreadmillSample|
        if is_moving(s) {
            1int
        } else {
            0int
        }
}

/// Contribution of one sample to the distance total.
pub open spec fn dist_f() -> spec_fn(TreadmillSample) -> int {
    |s: TreadmillSample|
        if is_moving(s) {
            delta_or_zero(s.distance_delta)
        } else {
            0int
        }
}

/// Contribution of one sample to the calorie total.
pub open spec fn cal_f() -> spec_fn(TreadmillSample) -> int {
    |s: TreadmillSample|
        if is_moving(s) {
            delta_or_zero(s.calories_delta)
        } else {
            0int
        }
}

/// Contribution of one sample to the step total.
pub open spec fn steps_f() -> spec_fn(TreadmillSample) -> int {
    |s: TreadmillSample|
        if is_moving(s) {
            delta_or_zero(s.steps_delta)
        } else {
            0int
        }
}

/// Contribution of one sample to the speed total.
pub open spec fn speed_f() -> spec_fn(TreadmillSample) -> int {
    |s: TreadmillSample|
        if is_moving(s) {
            match s.speed_mms {
                Some(v) => v as int,
                None => 0int,
            }
        } else {
            0int
        }
}

/// The number of moving samples.
pub open spec fn count_moving(q: Seq<TreadmillSample>) -> int {
    sum_by(q, count_f())
}

/// The summed distance deltas of the moving samples.
pub open spec fn sum_distance(q: Seq<TreadmillSample>) -> int {
    sum_by(q, dist_f())
}

/// The summed calorie deltas of the moving samples.
pub open spec fn sum_calories(q: Seq<TreadmillSample>) -> int {
    sum_by(q, cal_f())
}

/// The summed step deltas of the moving samples.
pub open spec fn sum_steps(q: Seq<TreadmillSample>) -> int {
    sum_by(q, steps_f())
}

/// The summed speeds of the moving samples.
pub open spec fn sum_speed(q: Seq<TreadmillSample>) -> int {
    sum_by(q, speed_f())
}

/// The highest speed of the moving samples, zero when there are none.
pub open spec fn max_speed(q: Seq<TreadmillSample>) -> int
    decreases q.len(),
{
    if q.len() == 0 {
        0
    } else {
        let rest = max_speed(q.drop_last());
        let s = q.last();
        if is_moving(s) && s.speed_mms->Some_0 > rest {
            s.speed_mms->Some_0 as int
        } else {
            rest
        }
    }
}

/// The earliest timestamp of a moving sample, `i64::MAX` when there is none.
pub open spec fn min_moving_ts(q: Seq<TreadmillSample>) -> int
    decreases q.len(),
{
    if q.len() == 0 {
        i64::MAX as int
    } else {
        let rest = min_moving_ts(q.drop_last());
        let s = q.last();
        if is_moving(s) && s.timestamp < rest {
            s.timestamp as int
        } else {
            rest
        }
    }
}

/// The latest timestamp of a moving sample, zero when there is none.
pub open spec fn max_moving_ts(q: Seq<TreadmillSample>) -> int
    decreases q.len(),
{
    if q.len() == 0 {
        0
    } else {
        let rest = max_moving_ts(q.drop_last());
        let s = q.last();
        if is_moving(s) && s.timestamp > rest {
            s.timestamp as int
        } else {
            rest
        }
    }
}

/// A sum over a prefix of nonnegative contributions never exceeds the sum
/// over the whole run.
proof fn lemma_sum_prefix(q: Seq<TreadmillSample>, f: spec_fn(TreadmillSample) -> int, i: int)
    requires
        0 <= i <= q.len(),
        forall|j: int| 0 <= j < q.len() ==> #[trigger] f(q[j]) >= 0,
    ensures
        0 <= sum_by(q.take(i), f) <= sum_by(q, f),
    decreases q.len() - i,
{
    if i == q.len() {
        assert(q.take(i) =~= q);
        lemma_sum_nonneg(q, f);
    } else {
        assert(q.take(i + 1).drop_last() =~= q.take(i));
        assert(q.take(i + 1).last() == q[i]);
        lemma_sum_prefix(q, f, i + 1);
        lemma_sum_nonneg_take(q, f, i);
    }
}

/// A sum of nonnegative contributions is nonnegative.
proof fn lemma_sum_nonneg(q: Seq<TreadmillSample>, f: spec_fn(TreadmillSample) -> int)
    requires
        forall|j: int| 0 <= j < q.len() ==> #[trigger] f(q[j]) >= 0,
    ensures
        sum_by(q, f) >= 0,
    decreases q.len(),
{
    if q.len() > 0 {
        assert(forall|j: int| 0 <= j < q.drop_last().len() ==> #[trigger] f(q.drop_last()[j]) >= 0);
        lemma_sum_nonneg(q.drop_last(), f);
        assert(f(q.last()) >= 0);
    }
}

/// A sum over a prefix of nonnegative contributions is nonnegative.
proof fn lemma_sum_nonneg_take(q: Seq<TreadmillSample>, f: spec_fn(TreadmillSample) -> int, i: int)
    requires
        0 <= i <= q.len(),
        forall|j: int| 0 <= j < q.len() ==> #[trigger] f(q[j]) >= 0,
    ensures
        sum_by(q.take(i), f) >= 0,
{
    assert(forall|j: int| 0 <= j < q.take(i).len() ==> #[trigger] f(q.take(i)[j]) >= 0);
    lemma_sum_nonneg(q.take(i), f);
}

/// A stored sample's deltas are never negative (holds of every sample this
/// library records).
pub open spec fn deltas_nonneg(s: TreadmillSample) -> bool {
    &&& (s.distance_delta matches Some(v) ==> v >= 0)
    &&& (s.calories_delta matches Some(v) ==> v >= 0)
    &&& (s.steps_delta matches Some(v) ==> v >= 0)
}

/// A stored sample the summary can digest: a moving sample's timestamp is a
/// nonnegative epoch value, and deltas are never negative (both hold of every
/// sample this library records).
pub open spec fn summary_input_wf(s: TreadmillSample) -> bool {
    &&& (is_moving(s) ==> s.timestamp >= 0)
    &&& deltas_nonneg(s)
}

/// Aggregate the stored samples of one date into its daily summary, exactly
/// as the storage layer's aggregation query does. Returns nothing when no
/// sample of the date was moving.
#[verifier::rlimit(60)]
pub fn daily_summary_of(date: String, samples: &Vec<TreadmillSample>) -> (r: Option<DailySummary>)
    requires
        forall|i: int| 0 <= i < samples@.len() ==> summary_input_wf(#[trigger] samples@[i]),
        sum_distance(samples@) <= i64::MAX,
        sum_calories(samples@) <= i64::MAX,
        sum_steps(samples@) <= i64::MAX,
        sum_speed(samples@) <= i64::MAX,
        count_moving(samples@) <= i64::MAX,
    ensures
        (r is Some) == (count_moving(samples@) > 0),
        r matches Some(d) ==> {
            &&& d.date@ == date@
            &&& d.total_samples == count_moving(samples@)
            &&& d.distance_meters == sum_distance(samples@)
            &&& d.calories == sum_calories(samples@)
            &&& d.steps == sum_steps(samples@)
            &&& d.avg_speed_mms == sum_speed(samples@) / count_moving(samples@)
            &&& d.max_speed_mms == max_speed(samples@)
            &&& d.duration_seconds == max_moving_ts(samples@) - min_moving_ts(samples@)
        },
{
    let ghost q = samples@;

    let mut count: i64 = 0;
    let mut distance: i64 = 0;
    let mut calories: i64 = 0;
    let mut steps: i64 = 0;
    let mut speed_sum: i64 = 0;
    let mut top_speed: u32 = 0;
    let mut first_ts: i64 = i64::MAX;
    let mut last_ts: i64 = 0;

    let n = samples.len();
    let mut i: usize = 0;
    while i < n
        invariant
            n == q.len(),
            q == samples@,
            0 <= i <= n,
            forall|j: int| 0 <= j < n ==> summary_input_wf(#[trigger] q[j]),
            sum_distance(q) <= i64::MAX,
            sum_calories(q) <= i64::MAX,
            sum_steps(q) <= i64::MAX,
            sum_speed(q) <= i64::MAX,
            count_moving(q) <= i64::MAX,
            0 <= count && 0 <= distance && 0 <= calories && 0 <= steps && 0 <= speed_sum,
            count == sum_by(q.take(i as int), count_f()),
            distance == sum_by(q.take(i as int), dist_f()),
            calories == sum_by(q.take(i as int), cal_f()),
            steps == sum_by(q.take(i as int), steps_f()),
            speed_sum == sum_by(q.take(i as int), speed_f()),
            top_speed == max_speed(q.take(i as int)),
            first_ts == min_moving_ts(q.take(i as int)),
            last_ts == max_moving_ts(q.take(i as int)),
            count > 0 ==> 0 <= first_ts && first_ts <= last_ts,
            count == 0 ==> first_ts == i64::MAX && last_ts == 0,
        decreases n - i,
    {
        let s = samples[i];
        proof {
            assert(q.take(i as int + 1).drop_last() =~= q.take(i as int));
            assert(q.take(i as int + 1).last() == q[i as int]);
            assert(forall|j: int| 0 <= j < q.len() ==> #[trigger] count_f()(q[j]) >= 0);
            assert(forall|j: int| 0 <= j < q.len() ==> #[trigger] speed_f()(q[j]) >= 0);
            assert(forall|j: int| 0 <= j < q.len() ==> #[trigger] dist_f()(q[j]) >= 0);
            assert(forall|j: int| 0 <= j < q.len() ==> #[trigger] cal_f()(q[j]) >= 0);
            assert(forall|j: int| 0 <= j < q.len() ==> #[trigger] steps_f()(q[j]) >= 0);
            lemma_sum_prefix(q, count_f(), i as int + 1);
            lemma_sum_prefix(q, speed_f(), i as int + 1);
            lemma_sum_prefix(q, dist_f(), i as int + 1);
            lemma_sum_prefix(q, cal_f(), i as int + 1);
            lemma_sum_prefix(q, steps_f(), i as int + 1);
        }
        let moving = match s.speed_mms {
            Some(v) => v > 0,
            None => false,
        };
        if moving {
            count = count + 1;
            let sp = match s.speed_mms {
                Some(v) => v,
                None => 0,
            };
            speed_sum = speed_sum + sp as i64;
            if sp > top_speed {
                top_speed = sp;
            }
            if s.timestamp < first_ts {
                first_ts = s.timestamp;
            }
            if s.timestamp > last_ts {
                last_ts = s.timestamp;
            }
            let dd: i64 = match s.distance_delta {
                Some(v) => v,
                None => 0,
            };
            let cd: i64 = match s.calories_delta {
                Some(v) => v,
                None => 0,
            };
            let sd: i64 = match s.steps_delta {
                Some(v) => v,
                None => 0,
            };
            distance = distance + dd;
            calories = calories + cd;
            steps = steps + sd;
        }
        i = i + 1;
    }

    proof {
        assert(q.take(n as int) =~= q);
    }

    if count > 0 {
        Some(
            DailySummary {
                date,
                total_samples: count,
                duration_seconds: last_ts - first_ts,
                distance_meters: distance,
                calories,
                steps,
                avg_speed_mms: speed_sum / count,
                max_speed_mms: top_speed,
            },
        )
    } else {
        None
    }
}

/// Largest value of `f` over a run of samples, zero when the run is empty.
pub open spec fn max_by(q: Seq<TreadmillSample>, f: spec_fn(TreadmillSample) -> int) -> int
    decreases q.len(),
{
    if q.len() == 0 {
        0
    } else {
        let rest = max_by(q.drop_last(), f);
        if f(q.last()) > rest {
            f(q.last())
        } else {
            rest
        }
    }
}

/// A workout sample's session-relative distance, absence counting as zero.
pub open spec fn dist_any_f() -> spec_fn(TreadmillSample) -> int {
    |s: TreadmillSample| delta_or_zero(s.distance_delta)
}

/// A workout sample's session-relative calories.
pub open spec fn cal_any_f() -> spec_fn(TreadmillSample) -> int {
    |s: TreadmillSample| delta_or_zero(s.calories_delta)
}

/// A workout sample's session-relative steps.
pub open spec fn steps_any_f() -> spec_fn(TreadmillSample) -> int {
    |s: TreadmillSample| delta_or_zero(s.steps_delta)
}

/// A sample's reported speed, absence counting as zero.
pub open spec fn speed_val_f() -> spec_fn(TreadmillSample) -> int {
    |s: TreadmillSample|
        match s.speed_mms {
            Some(v) => v as int,
            None => 0int,
        }
}

/// Whether a sample reports a speed at all.
pub open spec fn speed_present_f() -> spec_fn(TreadmillSample) -> int {
    |s: TreadmillSample|
        if s.speed_mms is Some {
            1int
        } else {
            0int
        }
}

/// The workout-sample row for one reading while a session is open: the
/// reading's cumulative counters pass through for diagnosis, and the deltas
/// are the engine's session-relative (baseline-subtracted, wraparound-safe)
/// values. This fixes the stored convention: workout samples carry
/// session-relative deltas, so a session's totals are the largest delta, not
/// a sum.
pub fn workout_sample_row(timestamp: i64, reading: &TreadmillData, deltas: &SampleDeltas) -> (s:
    TreadmillSample)
    ensures
        s.timestamp == timestamp,
        s.speed_mms == deltas.speed_mms,
        s.distance_total == spec_total_of_u32(reading.distance_m),
        s.calories_total == spec_total_of_u16(reading.total_energy),
        s.steps_total == spec_total_of_u16(reading.steps),
        s.distance_delta == (match deltas.distance_delta {
            Some(v) => Some(v as i64),
            None => None::<i64>,
        }),
        s.calories_delta == (match deltas.calories_delta {
            Some(v) => Some(v as i64),
            None => None::<i64>,
        }),
        s.steps_delta == (match deltas.steps_delta {
            Some(v) => Some(v as i64),
            None => None::<i64>,
        }),
        deltas_nonneg(s),
{
    TreadmillSample {
        timestamp,
        speed_mms: deltas.speed_mms,
        distance_total: match reading.distance_m {
            Some(d) => Some(d as i64),
            None => None,
        },
        calories_total: match reading.total_energy {
            Some(c) => Some(c as i64),
            None => None,
        },
        steps_total: match reading.steps {
            Some(st) => Some(st as i64),
            None => None,
        },
        distance_delta: match deltas.distance_delta {
            Some(v) => Some(v as i64),
            None => None,
        },
        calories_delta: match deltas.calories_delta {
            Some(v) => Some(v as i64),
            None => None,
        },
        steps_delta: match deltas.steps_delta {
            Some(v) => Some(v as i64),
            None => None,
        },
    }
}

/// Aggregate one closed session's stored workout samples, the acceptance
/// policy's inputs among them. The rows come in recording order and carry
/// session-relative deltas, so each total is the largest delta seen; the
/// speed statistics range over the samples that report one. Stored rows
/// carry no incline or heart rate, so those statistics are zero. Returns
/// nothing for a session with no samples.
#[verifier::rlimit(60)]
pub fn session_aggregates_of(samples: &Vec<TreadmillSample>) -> (r: Option<SessionAggregates>)
    requires
        forall|i: int| 0 <= i < samples@.len() ==> deltas_nonneg(#[trigger] samples@[i]),
        sum_by(samples@, speed_val_f()) <= i64::MAX,
        sum_by(samples@, speed_present_f()) <= i64::MAX,
        samples@.len() <= u64::MAX,
    ensures
        (r is Some) == (samples@.len() > 0),
        r matches Some(a) ==> {
            &&& a.sample_count == samples@.len()
            &&& a.first_ts == samples@[0].timestamp
            &&& a.last_ts == samples@.last().timestamp
            &&& a.distance_m == max_by(samples@, dist_any_f())
            &&& a.calories == max_by(samples@, cal_any_f())
            &&& a.steps == max_by(samples@, steps_any_f())
            &&& a.max_speed_mms == max_by(samples@, speed_val_f())
            &&& a.avg_speed_mms == (if sum_by(samples@, speed_present_f()) > 0 {
                sum_by(samples@, speed_val_f()) / sum_by(samples@, speed_present_f())
            } else {
                0int
            })
            &&& a.avg_incline_tenths == 0 && a.max_incline_tenths == 0
            &&& a.avg_heart_rate == 0 && a.max_heart_rate == 0
        },
{
    let ghost q = samples@;
    let n = samples.len();
    if n == 0 {
        return None;
    }

    let mut dist_max: i64 = 0;
    let mut cal_max: i64 = 0;
    let mut steps_max: i64 = 0;
    let mut top_speed: u32 = 0;
    let mut speed_sum: i64 = 0;
    let mut speed_cnt: i64 = 0;

    let mut i: usize = 0;
    while i < n
        invariant
            n == q.len(),
            q == samples@,
            n > 0,
            0 <= i <= n,
            forall|j: int| 0 <= j < n ==> deltas_nonneg(#[trigger] q[j]),
            sum_by(q, speed_val_f()) <= i64::MAX,
            sum_by(q, speed_present_f()) <= i64::MAX,
            0 <= dist_max && 0 <= cal_max && 0 <= steps_max,
            0 <= speed_sum && 0 <= speed_cnt,
            dist_max == max_by(q.take(i as int), dist_any_f()),
            cal_max == max_by(q.take(i as int), cal_any_f()),
            steps_max == max_by(q.take(i as int), steps_any_f()),
            top_speed == max_by(q.take(i as int), speed_val_f()),
            speed_sum == sum_by(q.take(i as int), speed_val_f()),
            speed_cnt == sum_by(q.take(i as int), speed_present_f()),
            speed_sum <= speed_cnt * 0xFFFF_FFFFi64,
        decreases n - i,
    {
        let s = samples[i];
        proof {
            assert(q.take(i as int + 1).drop_last() =~= q.take(i as int));
            assert(q.take(i as int + 1).last() == q[i as int]);
            assert(forall|j: int| 0 <= j < q.len() ==> #[trigger] speed_val_f()(q[j]) >= 0);
            assert(forall|j: int| 0 <= j < q.len() ==> #[trigger] speed_present_f()(q[j]) >= 0);
            lemma_sum_prefix(q, speed_val_f(), i as int + 1);
            lemma_sum_prefix(q, speed_present_f(), i as int + 1);
        }
        let dd: i64 = match s.distance_delta {
            Some(v) => v,
            None => 0,
        };
        if dd > dist_max {
            dist_max = dd;
        }
        let cd: i64 = match s.calories_delta {
            Some(v) => v,
            None => 0,
        };
        if cd > cal_max {
            cal_max = cd;
        }
        let sd: i64 = match s.steps_delta {
            Some(v) => v,
            None => 0,
        };
        if sd > steps_max {
            steps_max = sd;
        }
        match s.speed_mms {
            Some(v) => {
                speed_sum = speed_sum + v as i64;
                speed_cnt = speed_cnt + 1;
                if v > top_speed {
                    top_speed = v;
                }
            },
            None => (),
        }
        i = i + 1;
    }

    proof {
        assert(q.take(n as int) =~= q);
    }

    let avg_speed: i64 = if speed_cnt > 0 {
        let avg = speed_sum / speed_cnt;
        proof {
            assert(avg <= 0xFFFF_FFFFi64) by (nonlinear_arith)
                requires
                    speed_cnt >= 1,
                    speed_sum >= 0,
                    speed_sum <= speed_cnt * 0xFFFF_FFFFi64,
                    avg == speed_sum / speed_cnt,
            ;
        }
        avg
    } else {
        0
    };

    Some(
        SessionAggregates {
            sample_count: n as u64,
            first_ts: samples[0].timestamp,
            last_ts: samples[n - 1].timestamp,
            distance_m: dist_max as u64,
            calories: cal_max as u64,
            steps: steps_max as u64,
            avg_speed_mms: avg_speed as u32,
            max_speed_mms: top_speed,
            avg_incline_tenths: 0,
            max_incline_tenths: 0,
            avg_heart_rate: 0,
            max_heart_rate: 0,
        },
    )
}

} // verus!
