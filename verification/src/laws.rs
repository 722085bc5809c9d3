//! The engine's guarantees, stated and proved over its transition function.

use vstd::prelude::*;

use crate::engine::{
    advance_session, both_reset_like, calories_reset_like, capture_baseline, distance_reset_like,
    fresh_session, good_update, good_update16, present_nonzero, present_nonzero16,
    qualifying_inactive, sample_of, session_wf, shows_progress, spec_step, speed_of,
    wrap_delta_spec, ActiveSession, EngineConfig, EngineState, SessionEnd,
};
use crate::reading::TreadmillData;
use crate::ACTIVE_SPEED_MMS;

verus! {

/// `r` with exact-zero cumulative counters replaced by absent ones.
pub open spec fn scrub_zero_counters(r: TreadmillData) -> TreadmillData {
    TreadmillData {
        distance_m: present_nonzero(r.distance_m),
        total_energy: match r.total_energy {
            Some(c) => if c == 0 {
                None
            } else {
                Some(c)
            },
            None => None,
        },
        steps: match r.steps {
            Some(s) => if s == 0 {
                None
            } else {
                Some(s)
            },
            None => None,
        },
        ..r
    }
}

/// Law (glitch filtering is idempotent): a reading of exactly zero for any
/// cumulative field is indistinguishable from that field being absent. In
/// particular it never changes a last known-good value, never counts as reset
/// evidence, and contributes no delta.
pub proof fn lemma_glitch_filter_idempotent(cfg: EngineConfig, st: EngineState, r: TreadmillData)
    ensures
        spec_step(cfg, st, scrub_zero_counters(r)) == spec_step(cfg, st, r),
{
    let z = scrub_zero_counters(r);
    assert(speed_of(z) == speed_of(r));
    assert(capture_baseline(z) == capture_baseline(r));
    assert(present_nonzero(z.distance_m) == present_nonzero(r.distance_m));
    assert(present_nonzero16(z.total_energy) == present_nonzero16(r.total_energy));
    assert(present_nonzero16(z.steps) == present_nonzero16(r.steps));
    match st {
        EngineState::Idle => {
            if speed_of(r) > ACTIVE_SPEED_MMS {
                assert(sample_of(capture_baseline(z), z) == sample_of(capture_baseline(r), r));
                assert(fresh_session(z) == fresh_session(r));
            }
        },
        EngineState::Active(a) => {
            assert(both_reset_like(a, z) == both_reset_like(a, r));
            assert(good_update(a.last_distance, z.distance_m) == good_update(
                a.last_distance,
                r.distance_m,
            ));
            assert(good_update16(a.last_calories, z.total_energy) == good_update16(
                a.last_calories,
                r.total_energy,
            ));
            assert(good_update16(a.last_steps, z.steps) == good_update16(a.last_steps, r.steps));
            assert(shows_progress(a, z) == shows_progress(a, r));
            assert(sample_of(a.baseline, z) == sample_of(a.baseline, r));
            assert(forall|inact: u32|
                advance_session(a, z, inact) == advance_session(a, r, inact));
        },
    }
}

/// The sequence of last known-good values a single counter takes over a run
/// of readings.
pub open spec fn last_good_after(init: u32, vs: Seq<Option<u32>>) -> u32
    decreases vs.len(),
{
    if vs.len() == 0 {
        init
    } else {
        last_good_after(good_update(init, vs[0]), vs.drop_first())
    }
}

/// The deltas a single counter contributes over a run of readings: one entry
/// per usable (present, non-zero) reading, measured against a fixed baseline.
pub open spec fn field_deltas(baseline: int, margin: int, modulus: int, vs: Seq<Option<u32>>) -> Seq<
    int,
>
    decreases vs.len(),
{
    if vs.len() == 0 {
        Seq::empty()
    } else {
        let rest = field_deltas(baseline, margin, modulus, vs.drop_first());
        match present_nonzero(vs[0]) {
            Some(v) => seq![wrap_delta_spec(baseline, v as int, margin, modulus)] + rest,
            None => rest,
        }
    }
}

/// Law (glitch filtering, sequence form): injecting a single zero reading for
/// a cumulative counter anywhere into a run changes neither the final last
/// known-good value nor the sequence of deltas; both equal those of the run
/// with the reading removed entirely.
pub proof fn lemma_zero_reading_removed(
    init: u32,
    baseline: int,
    margin: int,
    modulus: int,
    vs: Seq<Option<u32>>,
    i: int,
)
    requires
        0 <= i <= vs.len(),
    ensures
        last_good_after(init, vs.insert(i, Some(0u32))) == last_good_after(init, vs),
        field_deltas(baseline, margin, modulus, vs.insert(i, Some(0u32))) == field_deltas(
            baseline,
            margin,
            modulus,
            vs,
        ),
    decreases vs.len(),
{
    let w = vs.insert(i, Some(0u32));
    if i == 0 {
        assert(w[0] == Some(0u32));
        assert(w.drop_first() =~= vs);
        assert(good_update(init, Some(0u32)) == init);
    } else {
        assert(w[0] == vs[0]);
        assert(w.drop_first() =~= vs.drop_first().insert(i - 1, Some(0u32)));
        lemma_zero_reading_removed(
            good_update(init, vs[0]),
            baseline,
            margin,
            modulus,
            vs.drop_first(),
            i - 1,
        );
    }
}

/// Law (wraparound is not a reset): a sharp drop in distance alone, with
/// calories not reset-like, never ends the session while the belt is moving;
/// the reading is recorded as an ordinary sample on the wraparound path.
pub proof fn lemma_single_counter_drop_keeps_session(
    cfg: EngineConfig,
    a: ActiveSession,
    r: TreadmillData,
)
    requires
        cfg.inactivity_limit >= 1,
        session_wf(cfg, a),
        distance_reset_like(a, r),
        !calories_reset_like(a, r),
        speed_of(r) > ACTIVE_SPEED_MMS,
    ensures
        spec_step(cfg, EngineState::Active(a), r).0 is Active,
        spec_step(cfg, EngineState::Active(a), r).1.ended is None,
        spec_step(cfg, EngineState::Active(a), r).1.sample == Some(sample_of(a.baseline, r)),
{
    assert(!both_reset_like(a, r));
    assert(!qualifying_inactive(a, r));
}

/// Law (simultaneous drops confirm a reset): from a clean streak, three
/// consecutive readings in which distance and calories both look reset-like
/// against the session's last known-good values end the session as a device
/// reset on the third reading — and if the belt is still moving, a fresh
/// session with a baseline from that very reading opens at once.
pub proof fn lemma_simultaneous_drops_confirm_reset(
    cfg: EngineConfig,
    a: ActiveSession,
    r1: TreadmillData,
    r2: TreadmillData,
    r3: TreadmillData,
)
    requires
        cfg.inactivity_limit >= 1,
        session_wf(cfg, a),
        a.reset_streak == 0,
        both_reset_like(a, r1),
        both_reset_like(a, r2),
        both_reset_like(a, r3),
    ensures
        ({
            let s1 = spec_step(cfg, EngineState::Active(a), r1);
            let s2 = spec_step(cfg, s1.0, r2);
            let s3 = spec_step(cfg, s2.0, r3);
            &&& s1.0 is Active && s1.1.ended is None
            &&& s2.0 is Active && s2.1.ended is None
            &&& s3.1.ended == Some(SessionEnd::DeviceReset)
            &&& speed_of(r3) > ACTIVE_SPEED_MMS ==> s3.0 == EngineState::Active(fresh_session(r3))
                && s3.1.started
            &&& speed_of(r3) <= ACTIVE_SPEED_MMS ==> s3.0 is Idle
        }),
{
    let a1 = ActiveSession { reset_streak: 1u8, ..a };
    let a2 = ActiveSession { reset_streak: 2u8, ..a };
    assert(spec_step(cfg, EngineState::Active(a), r1).0 == EngineState::Active(a1));
    assert(both_reset_like(a1, r2));
    assert(spec_step(cfg, EngineState::Active(a1), r2).0 == EngineState::Active(a2));
    assert(both_reset_like(a2, r3));
}

/// Law (one reset-like sample is noise): a single qualifying reset-like
/// reading followed by a normal moving reading leaves the session open and
/// clears the streak back to zero.
pub proof fn lemma_reset_streak_clears(
    cfg: EngineConfig,
    a: ActiveSession,
    r1: TreadmillData,
    r2: TreadmillData,
)
    requires
        cfg.inactivity_limit >= 1,
        session_wf(cfg, a),
        a.reset_streak == 0,
        both_reset_like(a, r1),
        !both_reset_like(a, r2),
        speed_of(r2) > ACTIVE_SPEED_MMS,
    ensures
        ({
            let s1 = spec_step(cfg, EngineState::Active(a), r1);
            let s2 = spec_step(cfg, s1.0, r2);
            &&& s1.0 is Active && s1.1.ended is None
            &&& s2.0 is Active && s2.1.ended is None
            &&& s2.0 matches EngineState::Active(b) && b.reset_streak == 0
        }),
{
    let a1 = ActiveSession { reset_streak: 1u8, ..a };
    assert(spec_step(cfg, EngineState::Active(a), r1).0 == EngineState::Active(a1));
    assert(both_reset_like(a1, r2) == both_reset_like(a, r2));
    assert(!qualifying_inactive(a1, r2));
}

/// The engine state after a whole run of readings.
pub open spec fn run_steps(cfg: EngineConfig, st: EngineState, rs: Seq<TreadmillData>) -> EngineState
    decreases rs.len(),
{
    if rs.len() == 0 {
        st
    } else {
        run_steps(cfg, spec_step(cfg, st, rs[0]).0, rs.drop_first())
    }
}

/// A run of readings factors into its prefix and its last step.
pub proof fn lemma_run_steps_snoc(cfg: EngineConfig, st: EngineState, rs: Seq<TreadmillData>)
    requires
        rs.len() > 0,
    ensures
        run_steps(cfg, st, rs) == spec_step(
            cfg,
            run_steps(cfg, st, rs.take(rs.len() - 1)),
            rs[rs.len() - 1],
        ).0,
    decreases rs.len(),
{
    if rs.len() == 1 {
        assert(rs.take(0) =~= Seq::<TreadmillData>::empty());
        assert(run_steps(cfg, st, rs.take(0)) == st);
        let st1 = spec_step(cfg, st, rs[0]).0;
        assert(run_steps(cfg, st, rs) == run_steps(cfg, st1, rs.drop_first()));
        assert(rs.drop_first().len() == 0);
        assert(run_steps(cfg, st1, rs.drop_first()) == st1);
    } else {
        let st1 = spec_step(cfg, st, rs[0]).0;
        lemma_run_steps_snoc(cfg, st1, rs.drop_first());
        assert(rs.drop_first().take(rs.len() - 2) =~= rs.take(rs.len() - 1).drop_first());
        assert(rs.take(rs.len() - 1)[0] == rs[0]);
        assert(rs.drop_first()[rs.len() - 2] == rs[rs.len() - 1]);
        assert(rs.take(rs.len() - 1).len() == rs.len() - 1);
        assert(run_steps(cfg, st, rs.take(rs.len() - 1)) == run_steps(
            cfg,
            st1,
            rs.take(rs.len() - 1).drop_first(),
        ));
        assert(run_steps(cfg, st, rs) == run_steps(cfg, st1, rs.drop_first()));
    }
}

/// A reading that is quiet for the inactivity check against the counter
/// values `cd` and `cc`: the belt is at or below the activity threshold, and
/// each counter is either unusable or repeats that value — what a stalled
/// device reports.
pub open spec fn quiet_reading(r: TreadmillData, cd: u32, cc: u16) -> bool {
    &&& speed_of(r) <= ACTIVE_SPEED_MMS
    &&& (present_nonzero(r.distance_m) is None || present_nonzero(r.distance_m) == Some(cd))
    &&& (present_nonzero16(r.total_energy) is None || present_nonzero16(r.total_energy) == Some(
        cc as u32,
    ))
}

/// A session whose last known-good counters coincide with its progress
/// checkpoint (no progress pending inside the rolling window).
pub open spec fn settled(a: ActiveSession) -> bool {
    a.last_distance == a.chk_distance && a.last_calories == a.chk_calories
}

/// Quiet readings only ever grow the inactivity counter: after `n` of them,
/// with `n` still under the limit, the session is open, unchanged but for
/// having counted exactly `n` more qualifying samples.
pub proof fn lemma_quiet_run_counts(cfg: EngineConfig, a: ActiveSession, rs: Seq<TreadmillData>)
    requires
        cfg.inactivity_limit >= 1,
        session_wf(cfg, a),
        settled(a),
        forall|i: int|
            0 <= i < rs.len() ==> quiet_reading(#[trigger] rs[i], a.last_distance, a.last_calories),
        a.inactivity + rs.len() < cfg.inactivity_limit,
    ensures
        ({
            let st = run_steps(cfg, EngineState::Active(a), rs);
            &&& st matches EngineState::Active(a2)
            &&& st matches EngineState::Active(a2) ==> a2.inactivity == a.inactivity + rs.len()
                && settled(a2) && session_wf(cfg, a2) && a2.baseline == a.baseline
                && a2.last_distance == a.last_distance && a2.last_calories == a.last_calories
        }),
    decreases rs.len(),
{
    if rs.len() == 0 {
    } else {
        let r0 = rs[0];
        assert(quiet_reading(r0, a.last_distance, a.last_calories));
        assert(!both_reset_like(a, r0));
        assert(qualifying_inactive(a, r0));
        let a1 = advance_session(a, r0, (a.inactivity + 1) as u32);
        assert(spec_step(cfg, EngineState::Active(a), r0).0 == EngineState::Active(a1));
        assert(settled(a1));
        assert(a1.last_distance == a.last_distance && a1.last_calories == a.last_calories);
        assert(session_wf(cfg, a1));
        assert(forall|i: int|
            0 <= i < rs.drop_first().len() ==> quiet_reading(
                #[trigger] rs.drop_first()[i],
                a1.last_distance,
                a1.last_calories,
            ));
        lemma_quiet_run_counts(cfg, a1, rs.drop_first());
    }
}

/// Law (hysteresis on end-of-session): with inactivity limit T, a session
/// that has counted no qualifying samples, and whose counters have not moved
/// since the rolling checkpoint (as holds from session start and through any
/// quiet stretch), survives T−1 consecutive quiet readings — it is still open
/// before each of the first T readings — and the T-th quiet reading ends it
/// for inactivity. Quiet readings may repeat the stalled counter values or
/// omit them.
pub proof fn lemma_end_of_session_hysteresis(
    cfg: EngineConfig,
    a: ActiveSession,
    rs: Seq<TreadmillData>,
)
    requires
        cfg.inactivity_limit >= 1,
        session_wf(cfg, a),
        settled(a),
        a.inactivity == 0,
        rs.len() == cfg.inactivity_limit,
        forall|i: int|
            0 <= i < rs.len() ==> quiet_reading(#[trigger] rs[i], a.last_distance, a.last_calories),
    ensures
        forall|n: int|
            0 <= n < rs.len() ==> run_steps(cfg, EngineState::Active(a), #[trigger] rs.take(n))
                is Active,
        run_steps(cfg, EngineState::Active(a), rs) is Idle,
        spec_step(
            cfg,
            run_steps(cfg, EngineState::Active(a), rs.take(rs.len() - 1)),
            rs[rs.len() - 1],
        ).1.ended == Some(SessionEnd::Inactive),
{
    assert forall|n: int|
        0 <= n < rs.len() implies run_steps(cfg, EngineState::Active(a), #[trigger] rs.take(n))
        is Active by {
        assert(forall|i: int|
            0 <= i < rs.take(n).len() ==> quiet_reading(
                #[trigger] rs.take(n)[i],
                a.last_distance,
                a.last_calories,
            ));
        lemma_quiet_run_counts(cfg, a, rs.take(n));
    }
    let prefix = rs.take(rs.len() - 1);
    assert(forall|i: int|
        0 <= i < prefix.len() ==> quiet_reading(
            #[trigger] prefix[i],
            a.last_distance,
            a.last_calories,
        ));
    lemma_quiet_run_counts(cfg, a, prefix);
    let st = run_steps(cfg, EngineState::Active(a), prefix);
    let a2 = st->Active_0;
    assert(a2.inactivity == rs.len() - 1);
    assert(a2.last_distance == a.last_distance && a2.last_calories == a.last_calories);
    let last = rs[rs.len() - 1];
    assert(quiet_reading(last, a2.last_distance, a2.last_calories));
    assert(!both_reset_like(a2, last));
    assert(qualifying_inactive(a2, last));
    assert(spec_step(cfg, st, last).1.ended == Some(SessionEnd::Inactive));
    lemma_run_steps_snoc(cfg, EngineState::Active(a), rs);
}

/// Law (activity clears the inactivity counter): a single moving reading
/// (that is not reset evidence) resets the counter to zero and keeps the
/// session open.
pub proof fn lemma_activity_clears_inactivity(cfg: EngineConfig, a: ActiveSession, r: TreadmillData)
    requires
        cfg.inactivity_limit >= 1,
        session_wf(cfg, a),
        speed_of(r) > ACTIVE_SPEED_MMS,
        !both_reset_like(a, r),
    ensures
        spec_step(cfg, EngineState::Active(a), r).0 matches EngineState::Active(a2) && a2.inactivity
            == 0,
        spec_step(cfg, EngineState::Active(a), r).1.ended is None,
{
    assert(!qualifying_inactive(a, r));
}

} // verus!
