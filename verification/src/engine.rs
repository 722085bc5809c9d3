use vstd::prelude::*;

use crate::reading::TreadmillData;
use crate::ACTIVE_SPEED_MMS;

verus! {

/// A distance drop only counts as reset evidence when it exceeds this margin
/// in metres (filters single-sample noise).
pub const DISTANCE_NOISE_MARGIN: u32 = 10;

/// A dropped distance only looks like a reset when the new value is below
/// this ceiling in metres (a wraparound lands near the counter's own maximum
/// minus the drop, never near zero).
pub const DISTANCE_RESET_CEILING: u32 = 100;

/// A calorie drop only counts as reset evidence when it exceeds this margin.
pub const CALORIE_NOISE_MARGIN: u32 = 5;

/// A dropped calorie count only looks like a reset below this ceiling.
pub const CALORIE_RESET_CEILING: u32 = 50;

/// Number of consecutive qualifying readings needed to confirm a device reset.
pub const RESET_CONFIRM_STREAK: u8 = 3;

/// The progress checkpoint rolls forward every this many recorded samples.
pub const PROGRESS_WINDOW: u8 = 10;

/// Modulus added when the distance counter wraps (an 8-bit counter of
/// hundredths of a mile covers 4105 metres).
pub const DISTANCE_WRAP_MODULUS: u32 = 4105;

/// Modulus added when the 8-bit calorie counter wraps.
pub const CALORIE_WRAP_MODULUS: u32 = 256;

/// Tunable limits of the reconciliation engine.
#[derive(Clone, Copy, Debug, PartialEq, Eq, Structural)]
pub struct EngineConfig {
    /// Consecutive qualifying-inactive samples (about one per second) after
    /// which an active session ends.
    pub inactivity_limit: u32,
}

/// Cumulative counter values captured at session start. Deltas are computed
/// against these, so totals are immune to whatever absolute state the device
/// happened to be in when the session began.
#[derive(Clone, Copy, Debug, PartialEq, Eq, Structural)]
pub struct WorkoutBaseline {
    /// Cumulative distance in metres at session start.
    pub distance_m: u32,
    /// Cumulative kilocalories at session start.
    pub calories: u16,
    /// Cumulative steps at session start.
    pub steps: u16,
}

/// Per-session working state while a workout is open.
#[derive(Clone, Copy, Debug, PartialEq, Eq, Structural)]
pub struct ActiveSession {
    /// Counter values at session start.
    pub baseline: WorkoutBaseline,
    /// Last known-good cumulative distance (zero readings never land here).
    pub last_distance: u32,
    /// Last known-good cumulative calories.
    pub last_calories: u16,
    /// Last known-good cumulative steps.
    pub last_steps: u16,
    /// Consecutive readings in which distance and calories both looked
    /// reset-like; a confirmed reset needs `RESET_CONFIRM_STREAK` of them.
    pub reset_streak: u8,
    /// Consecutive qualifying-inactive samples seen so far.
    pub inactivity: u32,
    /// Distance recorded at the last progress checkpoint (roughly
    /// `PROGRESS_WINDOW` samples back).
    pub chk_distance: u32,
    /// Calories recorded at the last progress checkpoint.
    pub chk_calories: u16,
    /// Samples recorded since the checkpoint last rolled forward.
    pub samples_since_chk: u8,
}

/// The whole engine state: at most one session is ever open.
#[derive(Clone, Copy, Debug, PartialEq, Eq, Structural)]
pub enum EngineState {
    /// No session open.
    Idle,
    /// One session open.
    Active(ActiveSession),
}

/// Why a session ended.
#[derive(Clone, Copy, Debug, PartialEq, Eq, Structural)]
pub enum SessionEnd {
    /// Sustained inactivity: speed below threshold and no counter progress.
    Inactive,
    /// Confirmed device reset (all counters dropped together, repeatedly).
    DeviceReset,
    /// The transport reported the connection lost.
    ConnectionLost,
}

/// Baseline-relative values of one recorded sample.
#[derive(Clone, Copy, Debug, PartialEq, Eq, Structural)]
pub struct SampleDeltas {
    /// Belt speed in millimetres per second, as reported.
    pub speed_mms: Option<u32>,
    /// Incline in tenths of a percent, as reported.
    pub incline_tenths: Option<i16>,
    /// Heart rate in beats per minute, as reported.
    pub heart_rate: Option<u8>,
    /// Metres advanced since session start; absent when the reading carried
    /// no usable distance.
    pub distance_delta: Option<u32>,
    /// Kilocalories burned since session start.
    pub calories_delta: Option<u32>,
    /// Steps taken since session start.
    pub steps_delta: Option<u32>,
}

/// Everything a caller must do after feeding one reading to the engine.
#[derive(Clone, Copy, Debug, PartialEq, Eq, Structural)]
pub struct StepOutcome {
    /// A new workout must be created (after failing any orphaned one).
    pub started: bool,
    /// The open workout must be closed through the aggregation path.
    pub ended: Option<SessionEnd>,
    /// A sample to append to the open (possibly just started) workout.
    pub sample: Option<SampleDeltas>,
}

impl StepOutcome {
    /// The outcome that asks for nothing.
    pub open spec fn none() -> StepOutcome {
        StepOutcome { started: false, ended: None, sample: None }
    }
}

/// A cumulative field reduced to its usable value: absent and exact-zero
/// readings are both unusable (a zero during an active session is a transient
/// BLE glitch, not data).
pub open spec fn present_nonzero(v: Option<u32>) -> Option<u32> {
    match v {
        Some(x) => if x == 0 {
            None
        } else {
            Some(x)
        },
        None => None,
    }
}

/// `present_nonzero` over a 16-bit counter, widened to 32 bits.
pub open spec fn present_nonzero16(v: Option<u16>) -> Option<u32> {
    match v {
        Some(x) => if x == 0 {
            None
        } else {
            Some(x as u32)
        },
        None => None,
    }
}

/// The speed a reading reports, with absence meaning standstill.
pub open spec fn speed_of(r: TreadmillData) -> u32 {
    match r.speed_mms {
        Some(v) => v,
        None => 0u32,
    }
}

/// A counter value that dropped from `prev` to `new` looks like a device
/// reset: the drop exceeds the noise margin and the new value is small.
/// A wraparound instead lands near the counter's own maximum minus the drop.
pub open spec fn reset_like(prev: int, new: int, margin: int, ceiling: int) -> bool {
    new + margin < prev && 0 < new < ceiling
}

/// Baseline-relative delta with single-wraparound compensation: a counter
/// below its baseline by more than `margin` is assumed to have wrapped once,
/// so the counter's modulus is added back; a smaller drop is noise and counts
/// as no progress. The result is never negative.
pub open spec fn wrap_delta_spec(baseline: int, current: int, margin: int, modulus: int) -> int {
    if current >= baseline {
        current - baseline
    } else if baseline - current > margin {
        if current + modulus >= baseline {
            current + modulus - baseline
        } else {
            0
        }
    } else {
        0
    }
}

/// Compute a baseline-relative delta with wraparound compensation.
pub fn wrap_delta(baseline: u32, current: u32, margin: u32, modulus: u32) -> (r: u32)
    ensures
        r == wrap_delta_spec(baseline as int, current as int, margin as int, modulus as int),
{
    if current >= baseline {
        current - baseline
    } else if baseline - current > margin {
        let wrapped: u64 = current as u64 + modulus as u64;
        if wrapped >= baseline as u64 {
            (wrapped - baseline as u64) as u32
        } else {
            0
        }
    } else {
        0
    }
}

/// The baseline captured from the reading that starts a session: cumulative
/// fields are taken as they are, absent ones as zero.
pub open spec fn capture_baseline(r: TreadmillData) -> WorkoutBaseline {
    WorkoutBaseline {
        distance_m: match r.distance_m {
            Some(d) => d,
            None => 0u32,
        },
        calories: match r.total_energy {
            Some(c) => c,
            None => 0u16,
        },
        steps: match r.steps {
            Some(s) => s,
            None => 0u16,
        },
    }
}

/// The session state opened by a starting reading.
pub open spec fn fresh_session(r: TreadmillData) -> ActiveSession {
    let b = capture_baseline(r);
    ActiveSession {
        baseline: b,
        last_distance: b.distance_m,
        last_calories: b.calories,
        last_steps: b.steps,
        reset_streak: 0u8,
        inactivity: 0u32,
        chk_distance: b.distance_m,
        chk_calories: b.calories,
        samples_since_chk: 0u8,
    }
}

/// The sample recorded for reading `r` against baseline `b`: instantaneous
/// fields pass through; each usable cumulative field becomes its
/// wraparound-safe delta from the baseline. Steps have no known wrap modulus,
/// so a dropped step counter yields no progress.
pub open spec fn sample_of(b: WorkoutBaseline, r: TreadmillData) -> SampleDeltas {
    SampleDeltas {
        speed_mms: r.speed_mms,
        incline_tenths: r.incline_tenths,
        heart_rate: r.heart_rate,
        distance_delta: match present_nonzero(r.distance_m) {
            Some(d) => Some(
                wrap_delta_spec(
                    b.distance_m as int,
                    d as int,
                    DISTANCE_NOISE_MARGIN as int,
                    DISTANCE_WRAP_MODULUS as int,
                ) as u32,
            ),
            None => None,
        },
        calories_delta: match present_nonzero16(r.total_energy) {
            Some(c) => Some(
                wrap_delta_spec(
                    b.calories as int,
                    c as int,
                    CALORIE_NOISE_MARGIN as int,
                    CALORIE_WRAP_MODULUS as int,
                ) as u32,
            ),
            None => None,
        },
        steps_delta: match present_nonzero16(r.steps) {
            Some(s) => Some(wrap_delta_spec(b.steps as int, s as int, 0, 0) as u32),
            None => None,
        },
    }
}

/// Last known-good value after seeing `v`: only a usable (present, non-zero)
/// value replaces the previous one.
pub open spec fn good_update(last: u32, v: Option<u32>) -> u32 {
    match present_nonzero(v) {
        Some(x) => x,
        None => last,
    }
}

/// `good_update` over a 16-bit counter.
pub open spec fn good_update16(last: u16, v: Option<u16>) -> u16 {
    match v {
        Some(x) => if x == 0 {
            last
        } else {
            x
        },
        None => last,
    }
}

/// Whether a reading shows forward progress over the rolling checkpoint:
/// either counter, substituted with its last known-good value when unusable,
/// exceeds the value recorded roughly `PROGRESS_WINDOW` samples back.
pub open spec fn shows_progress(a: ActiveSession, r: TreadmillData) -> bool {
    let cur_d = good_update(a.last_distance, r.distance_m);
    let cur_c = good_update16(a.last_calories, r.total_energy);
    cur_d > a.chk_distance || cur_c > a.chk_calories
}

/// A reading qualifies as inactive when the belt is at or below the activity
/// threshold and no counter has advanced past the rolling checkpoint. The
/// dual condition tolerates devices that report zero speed while silently
/// advancing distance or calories.
pub open spec fn qualifying_inactive(a: ActiveSession, r: TreadmillData) -> bool {
    speed_of(r) <= ACTIVE_SPEED_MMS && !shows_progress(a, r)
}

/// Whether a reading's distance looks reset-like against the session's last
/// known-good value.
pub open spec fn distance_reset_like(a: ActiveSession, r: TreadmillData) -> bool {
    match present_nonzero(r.distance_m) {
        Some(d) => reset_like(
            a.last_distance as int,
            d as int,
            DISTANCE_NOISE_MARGIN as int,
            DISTANCE_RESET_CEILING as int,
        ),
        None => false,
    }
}

/// Whether a reading's calorie count looks reset-like.
pub open spec fn calories_reset_like(a: ActiveSession, r: TreadmillData) -> bool {
    match present_nonzero16(r.total_energy) {
        Some(c) => reset_like(
            a.last_calories as int,
            c as int,
            CALORIE_NOISE_MARGIN as int,
            CALORIE_RESET_CEILING as int,
        ),
        None => false,
    }
}

/// Reset evidence: both counters must look reset-like simultaneously. A true
/// power cycle clears all counters together; a wraparound only ever affects
/// one counter at a time because their wrap periods differ.
pub open spec fn both_reset_like(a: ActiveSession, r: TreadmillData) -> bool {
    distance_reset_like(a, r) && calories_reset_like(a, r)
}

/// The session state after recording one ordinary sample: last known-good
/// values absorb usable counter readings, the streak clears, the inactivity
/// counter is set by the caller, and the progress checkpoint rolls forward
/// every `PROGRESS_WINDOW` samples.
pub open spec fn advance_session(a: ActiveSession, r: TreadmillData, inactivity: u32) -> ActiveSession {
    let new_last_d = good_update(a.last_distance, r.distance_m);
    let new_last_c = good_update16(a.last_calories, r.total_energy);
    let new_last_s = good_update16(a.last_steps, r.steps);
    if a.samples_since_chk + 1 >= PROGRESS_WINDOW {
        ActiveSession {
            last_distance: new_last_d,
            last_calories: new_last_c,
            last_steps: new_last_s,
            reset_streak: 0u8,
            inactivity,
            chk_distance: new_last_d,
            chk_calories: new_last_c,
            samples_since_chk: 0u8,
            ..a
        }
    } else {
        ActiveSession {
            last_distance: new_last_d,
            last_calories: new_last_c,
            last_steps: new_last_s,
            reset_streak: 0u8,
            inactivity,
            samples_since_chk: (a.samples_since_chk + 1) as u8,
            ..a
        }
    }
}

/// The start transition: open a fresh session on `r` and record `r` itself
/// as the first sample (its deltas are zero by construction).
pub open spec fn spec_start(r: TreadmillData) -> (EngineState, StepOutcome) {
    (
        EngineState::Active(fresh_session(r)),
        StepOutcome {
            started: true,
            ended: None,
            sample: Some(sample_of(capture_baseline(r), r)),
        },
    )
}

/// The engine's transition function: one normalized reading in, the next
/// state and the caller's obligations out.
///
/// - `Idle`: a reading moving faster than the activity threshold opens a
///   session; anything else is ignored.
/// - `Active`, both counters reset-like: the streak grows without touching
///   the session otherwise; on the `RESET_CONFIRM_STREAK`-th consecutive such
///   reading the session ends as a device reset, and if the belt is still
///   moving a fresh session opens on the same reading.
/// - `Active`, otherwise: the streak clears. A qualifying-inactive reading
///   that fills the inactivity limit ends the session; any other reading is
///   recorded as a baseline-relative sample.
pub open spec fn spec_step(cfg: EngineConfig, st: EngineState, r: TreadmillData) -> (
    EngineState,
    StepOutcome,
) {
    match st {
        EngineState::Idle => {
            if speed_of(r) > ACTIVE_SPEED_MMS {
                spec_start(r)
            } else {
                (EngineState::Idle, StepOutcome::none())
            }
        },
        EngineState::Active(a) => {
            if both_reset_like(a, r) {
                if a.reset_streak + 1 >= RESET_CONFIRM_STREAK {
                    if speed_of(r) > ACTIVE_SPEED_MMS {
                        let started = spec_start(r);
                        (
                            started.0,
                            StepOutcome {
                                started: true,
                                ended: Some(SessionEnd::DeviceReset),
                                sample: started.1.sample,
                            },
                        )
                    } else {
                        (
                            EngineState::Idle,
                            StepOutcome {
                                started: false,
                                ended: Some(SessionEnd::DeviceReset),
                                sample: None,
                            },
                        )
                    }
                } else {
                    (
                        EngineState::Active(
                            ActiveSession { reset_streak: (a.reset_streak + 1) as u8, ..a },
                        ),
                        StepOutcome::none(),
                    )
                }
            } else {
                if qualifying_inactive(a, r) {
                    if a.inactivity + 1 >= cfg.inactivity_limit {
                        (
                            EngineState::Idle,
                            StepOutcome {
                                started: false,
                                ended: Some(SessionEnd::Inactive),
                                sample: None,
                            },
                        )
                    } else {
                        (
                            EngineState::Active(advance_session(a, r, (a.inactivity + 1) as u32)),
                            StepOutcome {
                                started: false,
                                ended: None,
                                sample: Some(sample_of(a.baseline, r)),
                            },
                        )
                    }
                } else {
                    (
                        EngineState::Active(advance_session(a, r, 0u32)),
                        StepOutcome {
                            started: false,
                            ended: None,
                            sample: Some(sample_of(a.baseline, r)),
                        },
                    )
                }
            }
        },
    }
}

/// Well-formedness of a session's counters against the engine limits.
pub open spec fn session_wf(cfg: EngineConfig, a: ActiveSession) -> bool {
    &&& a.reset_streak < RESET_CONFIRM_STREAK
    &&& a.inactivity < cfg.inactivity_limit
    &&& a.samples_since_chk < PROGRESS_WINDOW
}

/// Well-formedness of the whole engine state.
pub open spec fn state_wf(cfg: EngineConfig, st: EngineState) -> bool {
    match st {
        EngineState::Idle => true,
        EngineState::Active(a) => session_wf(cfg, a),
    }
}

/// The session reconciliation engine. Feed it every normalized reading in
/// arrival order; it drives the workout state machine and tells the caller
/// what to persist and publish.
#[derive(Clone, Copy, Debug)]
pub struct Engine {
    /// Engine limits.
    pub config: EngineConfig,
    /// Current machine state.
    pub state: EngineState,
}

impl Engine {
    /// The engine's own invariant.
    pub open spec fn wf(self) -> bool {
        self.config.inactivity_limit >= 1 && state_wf(self.config, self.state)
    }

    /// A new engine, idle, with the given inactivity limit (in qualifying
    /// samples, roughly seconds).
    pub fn new(inactivity_limit: u32) -> (r: Engine)
        requires
            inactivity_limit >= 1,
        ensures
            r.wf(),
            r.config.inactivity_limit == inactivity_limit,
            r.state == EngineState::Idle,
    {
        Engine { config: EngineConfig { inactivity_limit }, state: EngineState::Idle }
    }

    /// Whether a session is currently open.
    pub fn is_active(&self) -> (r: bool)
        ensures
            r == (self.state is Active),
    {
        match self.state {
            EngineState::Active(_) => true,
            EngineState::Idle => false,
        }
    }

    /// Process one reading: move to the next state and return the caller's
    /// obligations, exactly as `spec_step` describes.
    pub fn step(&mut self, r: &TreadmillData) -> (out: StepOutcome)
        requires
            old(self).wf(),
        ensures
            final(self).wf(),
            final(self).config == old(self).config,
            (final(self).state, out) == spec_step(old(self).config, old(self).state, *r),
    {
        let cfg = self.config;
        match self.state {
            EngineState::Idle => {
                let speed = match r.speed_mms {
                    Some(v) => v,
                    None => 0,
                };
                if speed > ACTIVE_SPEED_MMS {
                    let (st, out) = start_session(r);
                    self.state = st;
                    out
                } else {
                    StepOutcome { started: false, ended: None, sample: None }
                }
            },
            EngineState::Active(a) => {
                let out = step_active(cfg, a, r);
                self.state = out.0;
                out.1
            },
        }
    }

    /// Force-close any open session, as on transport-reported connection
    /// loss. The session still goes through the aggregation path.
    pub fn force_end(&mut self) -> (out: StepOutcome)
        requires
            old(self).wf(),
        ensures
            final(self).wf(),
            final(self).config == old(self).config,
            final(self).state == EngineState::Idle,
            out.started == false && out.sample is None,
            out.ended == if old(self).state is Active {
                Some(SessionEnd::ConnectionLost)
            } else {
                None::<SessionEnd>
            },
    {
        let was_active = self.is_active();
        self.state = EngineState::Idle;
        StepOutcome {
            started: false,
            ended: if was_active {
                Some(SessionEnd::ConnectionLost)
            } else {
                None
            },
            sample: None,
        }
    }
}

/// Open a fresh session on `r`, recording `r` as its first sample.
fn start_session(r: &TreadmillData) -> (out: (EngineState, StepOutcome))
    ensures
        out == spec_start(*r),
        out.0 is Active && session_wf_any(out.0),
{
    let baseline = WorkoutBaseline {
        distance_m: match r.distance_m {
            Some(d) => d,
            None => 0,
        },
        calories: match r.total_energy {
            Some(c) => c,
            None => 0,
        },
        steps: match r.steps {
            Some(s) => s,
            None => 0,
        },
    };
    let session = ActiveSession {
        baseline,
        last_distance: baseline.distance_m,
        last_calories: baseline.calories,
        last_steps: baseline.steps,
        reset_streak: 0,
        inactivity: 0,
        chk_distance: baseline.distance_m,
        chk_calories: baseline.calories,
        samples_since_chk: 0,
    };
    let sample = make_sample(&baseline, r);
    (
        EngineState::Active(session),
        StepOutcome { started: true, ended: None, sample: Some(sample) },
    )
}

/// A freshly started session satisfies every limit.
pub open spec fn session_wf_any(st: EngineState) -> bool {
    match st {
        EngineState::Active(a) => {
            a.reset_streak == 0 && a.inactivity == 0 && a.samples_since_chk == 0
        },
        EngineState::Idle => false,
    }
}

/// One `Active`-state transition.
fn step_active(cfg: EngineConfig, a: ActiveSession, r: &TreadmillData) -> (out: (
    EngineState,
    StepOutcome,
))
    requires
        cfg.inactivity_limit >= 1,
        session_wf(cfg, a),
    ensures
        out == spec_step(cfg, EngineState::Active(a), *r),
        state_wf(cfg, out.0),
{
    let speed = match r.speed_mms {
        Some(v) => v,
        None => 0,
    };

    // Usable (present, non-zero) cumulative values; exact zeroes are BLE
    // glitches and never count as data, so they are neither reset evidence
    // nor delta inputs.
    let eff_d: Option<u32> = match r.distance_m {
        Some(d) => if d == 0 {
            None
        } else {
            Some(d)
        },
        None => None,
    };
    let eff_c: Option<u16> = match r.total_energy {
        Some(c) => if c == 0 {
            None
        } else {
            Some(c)
        },
        None => None,
    };

    let d_reset = match eff_d {
        Some(d) => d < a.last_distance.saturating_sub(DISTANCE_NOISE_MARGIN) && d
            < DISTANCE_RESET_CEILING,
        None => false,
    };
    let c_reset = match eff_c {
        Some(c) => (c as u32) < (a.last_calories as u32).saturating_sub(CALORIE_NOISE_MARGIN) && (
        c as u32) < CALORIE_RESET_CEILING,
        None => false,
    };

    if d_reset && c_reset {
        assert(both_reset_like(a, *r));
        if a.reset_streak + 1 >= RESET_CONFIRM_STREAK {
            // Confirmed device reset: close this session; if the belt is
            // still moving, a back-to-back session opens on this reading.
            if speed > ACTIVE_SPEED_MMS {
                let started = start_session(r);
                (
                    started.0,
                    StepOutcome {
                        started: true,
                        ended: Some(SessionEnd::DeviceReset),
                        sample: started.1.sample,
                    },
                )
            } else {
                (
                    EngineState::Idle,
                    StepOutcome {
                        started: false,
                        ended: Some(SessionEnd::DeviceReset),
                        sample: None,
                    },
                )
            }
        } else {
            (
                EngineState::Active(ActiveSession { reset_streak: a.reset_streak + 1, ..a }),
                StepOutcome { started: false, ended: None, sample: None },
            )
        }
    } else {
        assert(!both_reset_like(a, *r));
        let cur_d = match eff_d {
            Some(d) => d,
            None => a.last_distance,
        };
        let cur_c = match eff_c {
            Some(c) => c,
            None => a.last_calories,
        };
        let progress = cur_d > a.chk_distance || cur_c > a.chk_calories;
        let quiet = speed <= ACTIVE_SPEED_MMS && !progress;
        if quiet && a.inactivity + 1 >= cfg.inactivity_limit {
            (
                EngineState::Idle,
                StepOutcome { started: false, ended: Some(SessionEnd::Inactive), sample: None },
            )
        } else {
            let inactivity = if quiet {
                a.inactivity + 1
            } else {
                0
            };
            let sample = make_sample(&a.baseline, r);
            let new_last_d = cur_d;
            let new_last_c = cur_c;
            let new_last_s = match r.steps {
                Some(s) => if s == 0 {
                    a.last_steps
                } else {
                    s
                },
                None => a.last_steps,
            };
            let session = if a.samples_since_chk + 1 >= PROGRESS_WINDOW {
                ActiveSession {
                    last_distance: new_last_d,
                    last_calories: new_last_c,
                    last_steps: new_last_s,
                    reset_streak: 0,
                    inactivity,
                    chk_distance: new_last_d,
                    chk_calories: new_last_c,
                    samples_since_chk: 0,
                    ..a
                }
            } else {
                ActiveSession {
                    last_distance: new_last_d,
                    last_calories: new_last_c,
                    last_steps: new_last_s,
                    reset_streak: 0,
                    inactivity,
                    samples_since_chk: a.samples_since_chk + 1,
                    ..a
                }
            };
            (
                EngineState::Active(session),
                StepOutcome { started: false, ended: None, sample: Some(sample) },
            )
        }
    }
}

/// Build the baseline-relative sample for one reading.
fn make_sample(b: &WorkoutBaseline, r: &TreadmillData) -> (s: SampleDeltas)
    ensures
        s == sample_of(*b, *r),
{
    let distance_delta = match r.distance_m {
        Some(d) => if d == 0 {
            None
        } else {
            Some(wrap_delta(b.distance_m, d, DISTANCE_NOISE_MARGIN, DISTANCE_WRAP_MODULUS))
        },
        None => None,
    };
    let calories_delta = match r.total_energy {
        Some(c) => if c == 0 {
            None
        } else {
            Some(wrap_delta(b.calories as u32, c as u32, CALORIE_NOISE_MARGIN, CALORIE_WRAP_MODULUS))
        },
        None => None,
    };
    let steps_delta = match r.steps {
        Some(s) => if s == 0 {
            None
        } else {
            Some(wrap_delta(b.steps as u32, s as u32, 0, 0))
        },
        None => None,
    };
    SampleDeltas {
        speed_mms: r.speed_mms,
        incline_tenths: r.incline_tenths,
        heart_rate: r.heart_rate,
        distance_delta,
        calories_delta,
        steps_delta,
    }
}

} // verus!
