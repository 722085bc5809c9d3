//! The workout log: one row per session, with the invariant that at most one
//! workout is ever in progress. The log is the library's authoritative model
//! of the durable store; the unverified storage layer mirrors each operation
//! onto its database.

use vstd::prelude::*;

use crate::aggregate::WorkoutTotals;

verus! {

/// Lifecycle status of a workout row.
#[derive(Clone, Copy, Debug, PartialEq, Eq, Structural)]
pub enum WorkoutStatus {
    /// The session is open; mutated to a terminal status exactly once.
    InProgress,
    /// The session ended and passed the acceptance policy.
    Completed,
    /// The session ended but its aggregation failed, or it was orphaned by an
    /// unclean shutdown.
    Failed,
}

/// One workout row.
#[derive(Clone, Debug)]
pub struct Workout {
    /// Row id, assigned on creation.
    pub id: u64,
    /// Client-facing correlation id (a UUID's 128-bit value).
    pub uuid: u128,
    /// When the session started, Unix epoch seconds.
    pub start_ts: i64,
    /// When the session ended; absent while in progress.
    pub end_ts: Option<i64>,
    /// Lifecycle status.
    pub status: WorkoutStatus,
    /// Aggregated totals; present once completed.
    pub totals: Option<WorkoutTotals>,
    /// Why the session failed, when it did.
    pub fail_reason: Option<String>,
}

/// Whether a row is open.
pub open spec fn is_in_progress(w: Workout) -> bool {
    w.status is InProgress
}

/// How many rows are open.
pub open spec fn in_progress_count(s: Seq<Workout>) -> int
    decreases s.len(),
{
    if s.len() == 0 {
        0
    } else {
        in_progress_count(s.drop_last()) + if is_in_progress(s.last()) {
            1int
        } else {
            0int
        }
    }
}

/// The row `w` turned into a failed orphan ended at `end_ts`.
pub open spec fn spec_orphan_failed(w: Workout, end_ts: i64) -> Workout {
    Workout {
        status: WorkoutStatus::Failed,
        end_ts: Some(end_ts),
        ..w
    }
}

/// A row count never goes below zero.
proof fn lemma_count_nonneg(s: Seq<Workout>)
    ensures
        in_progress_count(s) >= 0,
    decreases s.len(),
{
    if s.len() > 0 {
        lemma_count_nonneg(s.drop_last());
    }
}

/// A run with no open row counts zero.
proof fn lemma_count_zero(s: Seq<Workout>)
    requires
        forall|i: int| 0 <= i < s.len() ==> !is_in_progress(#[trigger] s[i]),
    ensures
        in_progress_count(s) == 0,
    decreases s.len(),
{
    if s.len() > 0 {
        assert(forall|i: int|
            0 <= i < s.drop_last().len() ==> !is_in_progress(#[trigger] s.drop_last()[i]));
        lemma_count_zero(s.drop_last());
        assert(!is_in_progress(s.last()));
    }
}

/// Appending a row adds its own contribution to the count.
proof fn lemma_count_push(s: Seq<Workout>, w: Workout)
    ensures
        in_progress_count(s.push(w)) == in_progress_count(s) + if is_in_progress(w) {
            1int
        } else {
            0int
        },
{
    assert(s.push(w).drop_last() =~= s);
    assert(s.push(w).last() == w);
}

/// Replacing one row changes the count by the difference of the two rows'
/// contributions.
proof fn lemma_count_update(s: Seq<Workout>, i: int, w: Workout)
    requires
        0 <= i < s.len(),
    ensures
        in_progress_count(s.update(i, w)) == in_progress_count(s) - (if is_in_progress(s[i]) {
            1int
        } else {
            0int
        }) + (if is_in_progress(w) {
            1int
        } else {
            0int
        }),
    decreases s.len(),
{
    if i == s.len() - 1 {
        assert(s.update(i, w).drop_last() =~= s.drop_last());
        assert(s.update(i, w).last() == w);
    } else {
        assert(s.update(i, w).drop_last() =~= s.drop_last().update(i, w));
        assert(s.update(i, w).last() == s.last());
        lemma_count_update(s.drop_last(), i, w);
    }
}

/// Removing one row subtracts its contribution from the count.
proof fn lemma_count_remove(s: Seq<Workout>, i: int)
    requires
        0 <= i < s.len(),
    ensures
        in_progress_count(s.remove(i)) == in_progress_count(s) - if is_in_progress(s[i]) {
            1int
        } else {
            0int
        },
    decreases s.len(),
{
    if i == s.len() - 1 {
        assert(s.remove(i) =~= s.drop_last());
    } else {
        assert(s.remove(i).drop_last() =~= s.drop_last().remove(i));
        assert(s.remove(i).last() == s.last());
        lemma_count_remove(s.drop_last(), i);
    }
}

/// The workout log: an append-mostly run of rows with at most one open at any
/// time.
#[derive(Debug)]
pub struct WorkoutLog {
    /// The rows, oldest first.
    pub workouts: Vec<Workout>,
    /// The id the next created row receives.
    pub next_id: u64,
}

impl WorkoutLog {
    /// The log's invariant: at most one open row, and ids unique (each below
    /// the next to be assigned).
    pub open spec fn wf(self) -> bool {
        &&& in_progress_count(self.workouts@) <= 1
        &&& forall|i: int| 0 <= i < self.workouts@.len() ==> #[trigger] self.workouts@[i].id
            < self.next_id
        &&& forall|i: int, j: int|
            0 <= i < j < self.workouts@.len() ==> #[trigger] self.workouts@[i].id != #[trigger] self.workouts@[j].id
    }

    /// An empty log.
    pub fn new() -> (r: WorkoutLog)
        ensures
            r.wf(),
            r.workouts@.len() == 0,
            in_progress_count(r.workouts@) == 0,
    {
        WorkoutLog { workouts: Vec::new(), next_id: 0 }
    }

    /// Mark every open row failed, as on startup after an unclean shutdown:
    /// an orphaned in-progress workout is evidence of a crash, healed by
    /// failing it and moving on. Afterwards no row is open; every other row
    /// is untouched.
    pub fn recover_orphans(&mut self, end_ts: i64)
        requires
            old(self).wf(),
        ensures
            final(self).wf(),
            final(self).next_id == old(self).next_id,
            final(self).workouts@.len() == old(self).workouts@.len(),
            forall|i: int|
                0 <= i < old(self).workouts@.len() ==> #[trigger] final(self).workouts@[i] == (
                if is_in_progress(old(self).workouts@[i]) {
                    spec_orphan_failed(old(self).workouts@[i], end_ts)
                } else {
                    old(self).workouts@[i]
                }),
            in_progress_count(final(self).workouts@) == 0,
    {
        let ghost orig = self.workouts@;
        let n = self.workouts.len();
        let mut i: usize = 0;
        while i < n
            invariant
                n == self.workouts@.len(),
                n == orig.len(),
                0 <= i <= n,
                self.next_id == old(self).next_id,
                forall|j: int|
                    0 <= j < i ==> #[trigger] self.workouts@[j] == (if is_in_progress(orig[j]) {
                        spec_orphan_failed(orig[j], end_ts)
                    } else {
                        orig[j]
                    }),
                forall|j: int| i <= j < n ==> #[trigger] self.workouts@[j] == orig[j],
                forall|j: int| 0 <= j < i ==> !is_in_progress(#[trigger] self.workouts@[j]),
                orig == old(self).workouts@,
            decreases n - i,
        {
            let open = match self.workouts[i].status {
                WorkoutStatus::InProgress => true,
                _ => false,
            };
            if open {
                let w = self.workouts.remove(i);
                let failed = Workout { status: WorkoutStatus::Failed, end_ts: Some(end_ts), ..w };
                proof {
                    assert(failed == spec_orphan_failed(orig[i as int], end_ts));
                }
                self.workouts.insert(i, failed);
                proof {
                    assert(self.workouts@ =~= orig.subrange(0, i as int).map(
                        |j: int, x: Workout|
                            if is_in_progress(x) {
                                spec_orphan_failed(x, end_ts)
                            } else {
                                x
                            },
                    ).add(orig.subrange(i as int, n as int)).update(i as int, failed));
                }
            }
            i = i + 1;
        }
        proof {
            lemma_count_zero(self.workouts@);
        }
    }

    /// Open a new workout: heal any orphaned open row first, then create a
    /// fresh in-progress row with a new id. Exactly one row is open after.
    pub fn start_workout(&mut self, uuid: u128, start_ts: i64) -> (id: u64)
        requires
            old(self).wf(),
            old(self).next_id < u64::MAX,
        ensures
            final(self).wf(),
            in_progress_count(final(self).workouts@) == 1,
            final(self).workouts@.len() == old(self).workouts@.len() + 1,
            id == old(self).next_id,
            final(self).next_id == old(self).next_id + 1,
            ({
                let w = final(self).workouts@.last();
                &&& w.id == id
                &&& w.uuid == uuid
                &&& w.start_ts == start_ts
                &&& w.status is InProgress
                &&& w.end_ts is None
                &&& w.totals is None
            }),
    {
        self.recover_orphans(start_ts);
        let id = self.next_id;
        let w = Workout {
            id,
            uuid,
            start_ts,
            end_ts: None,
            status: WorkoutStatus::InProgress,
            totals: None,
            fail_reason: None,
        };
        proof {
            lemma_count_push(self.workouts@, w);
        }
        self.workouts.push(w);
        self.next_id = id + 1;
        id
    }

    /// Whether some row carries this id.
    pub open spec fn has_row(self, id: u64) -> bool {
        exists|i: int| 0 <= i < self.workouts@.len() && (#[trigger] self.workouts@[i]).id == id
    }

    /// Whether some open row carries this id.
    pub open spec fn has_open_row(self, id: u64) -> bool {
        exists|i: int|
            0 <= i < self.workouts@.len() && (#[trigger] self.workouts@[i]).id == id
                && is_in_progress(self.workouts@[i])
    }

    /// Find the position of the row with this id.
    pub fn find_workout(&self, id: u64) -> (r: Option<usize>)
        ensures
            match r {
                Some(i) => i < self.workouts@.len() && self.workouts@[i as int].id == id,
                None => forall|j: int|
                    0 <= j < self.workouts@.len() ==> #[trigger] self.workouts@[j].id != id,
            },
    {
        let n = self.workouts.len();
        let mut i: usize = 0;
        while i < n
            invariant
                n == self.workouts@.len(),
                0 <= i <= n,
                forall|j: int| 0 <= j < i ==> #[trigger] self.workouts@[j].id != id,
            decreases n - i,
        {
            if self.workouts[i].id == id {
                return Some(i);
            }
            i = i + 1;
        }
        None
    }

    /// Close the open row with this id as completed, writing its end time and
    /// aggregated totals. Returns whether an open row with the id existed;
    /// a terminal row is never mutated.
    pub fn complete_workout(&mut self, id: u64, end_ts: i64, totals: &WorkoutTotals) -> (done: bool)
        requires
            old(self).wf(),
        ensures
            final(self).wf(),
            final(self).next_id == old(self).next_id,
            in_progress_count(final(self).workouts@) <= in_progress_count(old(self).workouts@),
            done == old(self).has_open_row(id),
            done ==> exists|i: int|
                {
                    &&& 0 <= i < old(self).workouts@.len()
                    &&& is_in_progress(old(self).workouts@[i])
                    &&& old(self).workouts@[i].id == id
                    &&& final(self).workouts@ == old(self).workouts@.update(
                        i,
                        Workout {
                            status: WorkoutStatus::Completed,
                            end_ts: Some(end_ts),
                            totals: Some(*totals),
                            ..old(self).workouts@[i]
                        },
                    )
                },
            !done ==> final(self).workouts@ == old(self).workouts@,
    {
        match self.find_workout(id) {
            None => false,
            Some(i) => {
                let open = match self.workouts[i].status {
                    WorkoutStatus::InProgress => true,
                    _ => false,
                };
                if !open {
                    proof {
                        lemma_id_unique(*self, id, i as int);
                    }
                    return false;
                }
                let ghost before = self.workouts@;
                let w = self.workouts.remove(i);
                let done_row = Workout {
                    status: WorkoutStatus::Completed,
                    end_ts: Some(end_ts),
                    totals: Some(*totals),
                    ..w
                };
                proof {
                    lemma_count_update(before, i as int, done_row);
                    lemma_count_nonneg(before.update(i as int, done_row));
                }
                self.workouts.insert(i, done_row);
                proof {
                    assert(self.workouts@ =~= before.update(i as int, done_row));
                }
                true
            },
        }
    }

    /// Close the open row with this id as failed, keeping the reason as
    /// forensic evidence. Returns whether an open row with the id existed.
    pub fn fail_workout(&mut self, id: u64, end_ts: i64, reason: String) -> (done: bool)
        requires
            old(self).wf(),
        ensures
            final(self).wf(),
            final(self).next_id == old(self).next_id,
            in_progress_count(final(self).workouts@) <= in_progress_count(old(self).workouts@),
            done == old(self).has_open_row(id),
            done ==> exists|i: int|
                {
                    &&& 0 <= i < old(self).workouts@.len()
                    &&& is_in_progress(old(self).workouts@[i])
                    &&& old(self).workouts@[i].id == id
                    &&& final(self).workouts@ == old(self).workouts@.update(
                        i,
                        Workout {
                            status: WorkoutStatus::Failed,
                            end_ts: Some(end_ts),
                            fail_reason: Some(reason),
                            ..old(self).workouts@[i]
                        },
                    )
                },
            !done ==> final(self).workouts@ == old(self).workouts@,
    {
        match self.find_workout(id) {
            None => false,
            Some(i) => {
                let open = match self.workouts[i].status {
                    WorkoutStatus::InProgress => true,
                    _ => false,
                };
                if !open {
                    proof {
                        lemma_id_unique(*self, id, i as int);
                    }
                    return false;
                }
                let ghost before = self.workouts@;
                let w = self.workouts.remove(i);
                let failed_row = Workout {
                    status: WorkoutStatus::Failed,
                    end_ts: Some(end_ts),
                    fail_reason: Some(reason),
                    ..w
                };
                proof {
                    lemma_count_update(before, i as int, failed_row);
                    lemma_count_nonneg(before.update(i as int, failed_row));
                }
                self.workouts.insert(i, failed_row);
                proof {
                    assert(self.workouts@ =~= before.update(i as int, failed_row));
                }
                true
            },
        }
    }

    /// Delete the row with this id outright, as the acceptance policy does
    /// with sessions that are noise. Returns whether a row was removed.
    pub fn delete_workout(&mut self, id: u64) -> (done: bool)
        requires
            old(self).wf(),
        ensures
            final(self).wf(),
            final(self).next_id == old(self).next_id,
            in_progress_count(final(self).workouts@) <= in_progress_count(old(self).workouts@),
            done == old(self).has_row(id),
            done ==> exists|i: int|
                {
                    &&& 0 <= i < old(self).workouts@.len()
                    &&& old(self).workouts@[i].id == id
                    &&& final(self).workouts@ == old(self).workouts@.remove(i)
                },
            !done ==> final(self).workouts@ == old(self).workouts@,
    {
        match self.find_workout(id) {
            None => false,
            Some(i) => {
                proof {
                    lemma_count_remove(self.workouts@, i as int);
                    lemma_count_nonneg(self.workouts@.remove(i as int));
                }
                self.workouts.remove(i);
                true
            },
        }
    }
}

/// In a well-formed log the row found by id is the only one carrying it: a
/// terminal row found under an id means no open row carries that id.
proof fn lemma_id_unique(log: WorkoutLog, id: u64, i: int)
    requires
        log.wf(),
        0 <= i < log.workouts@.len(),
        log.workouts@[i].id == id,
        !is_in_progress(log.workouts@[i]),
    ensures
        !log.has_open_row(id),
{
    assert forall|j: int|
        0 <= j < log.workouts@.len() && (#[trigger] log.workouts@[j]).id == id implies !is_in_progress(
        log.workouts@[j],
    ) by {
        if j != i {
            if j < i {
                assert(log.workouts@[j].id != log.workouts@[i].id);
            } else {
                assert(log.workouts@[i].id != log.workouts@[j].id);
            }
        }
    }
}

/// Relies on uuid's `Uuid::new_v4` (sixteen random bytes with the version
/// nibble forced to 4 and the RFC variant bits set) and `Uuid::as_u128` (the
/// big-endian value of those bytes). The value is random: nothing beyond the
/// fixed version nibble holds of every outcome.
#[verifier::external_body]
pub fn fresh_workout_uuid() -> (r: u128)
    ensures
        (r >> 76) & 0xf == 4,
{
    uuid::Uuid::new_v4().as_u128()
}

/// An abstract log transition, for stating the log's global invariant: a
/// start (which heals orphans first, as `start_workout` does), a terminal
/// close (completed or failed, by row position), a delete, or an orphan
/// recovery. A forced end on connection loss takes one of the terminal forms.
pub enum LogOp {
    /// Heal orphans, then append a fresh open row.
    Start { uuid: u128, start_ts: i64, id: u64 },
    /// Close the open row at this position as completed.
    Complete { i: int, end_ts: i64, totals: WorkoutTotals },
    /// Close the open row at this position as failed.
    Fail { i: int, end_ts: i64 },
    /// Remove the row at this position.
    Delete { i: int },
    /// Mark every open row failed.
    Recover { end_ts: i64 },
}

/// A whole run of rows with every open one failed.
pub open spec fn spec_recover(s: Seq<Workout>, end_ts: i64) -> Seq<Workout> {
    s.map(
        |i: int, w: Workout|
            if is_in_progress(w) {
                spec_orphan_failed(w, end_ts)
            } else {
                w
            },
    )
}

/// What one abstract transition does to the rows.
pub open spec fn apply_op(s: Seq<Workout>, op: LogOp) -> Seq<Workout> {
    match op {
        LogOp::Start { uuid, start_ts, id } => spec_recover(s, start_ts).push(
            Workout {
                id,
                uuid,
                start_ts,
                end_ts: None,
                status: WorkoutStatus::InProgress,
                totals: None,
                fail_reason: None,
            },
        ),
        LogOp::Complete { i, end_ts, totals } => {
            if 0 <= i < s.len() && is_in_progress(s[i]) {
                s.update(
                    i,
                    Workout {
                        status: WorkoutStatus::Completed,
                        end_ts: Some(end_ts),
                        totals: Some(totals),
                        ..s[i]
                    },
                )
            } else {
                s
            }
        },
        LogOp::Fail { i, end_ts } => {
            if 0 <= i < s.len() && is_in_progress(s[i]) {
                s.update(
                    i,
                    Workout { status: WorkoutStatus::Failed, end_ts: Some(end_ts), ..s[i] },
                )
            } else {
                s
            }
        },
        LogOp::Delete { i } => {
            if 0 <= i < s.len() {
                s.remove(i)
            } else {
                s
            }
        },
        LogOp::Recover { end_ts } => spec_recover(s, end_ts),
    }
}

/// The rows after a whole run of transitions.
pub open spec fn apply_ops(s: Seq<Workout>, ops: Seq<LogOp>) -> Seq<Workout>
    decreases ops.len(),
{
    if ops.len() == 0 {
        s
    } else {
        apply_ops(apply_op(s, ops[0]), ops.drop_first())
    }
}

/// Healing orphans leaves no row open.
proof fn lemma_recover_count(s: Seq<Workout>, end_ts: i64)
    ensures
        in_progress_count(spec_recover(s, end_ts)) == 0,
{
    let healed = spec_recover(s, end_ts);
    assert(forall|i: int| 0 <= i < healed.len() ==> !is_in_progress(#[trigger] healed[i]));
    lemma_count_zero(healed);
}

/// One transition keeps at most one row open.
proof fn lemma_op_preserves_invariant(s: Seq<Workout>, op: LogOp)
    requires
        in_progress_count(s) <= 1,
    ensures
        in_progress_count(apply_op(s, op)) <= 1,
{
    match op {
        LogOp::Start { uuid, start_ts, id } => {
            lemma_recover_count(s, start_ts);
            lemma_count_push(
                spec_recover(s, start_ts),
                Workout {
                    id,
                    uuid,
                    start_ts,
                    end_ts: None,
                    status: WorkoutStatus::InProgress,
                    totals: None,
                    fail_reason: None,
                },
            );
        },
        LogOp::Complete { i, end_ts, totals } => {
            if 0 <= i < s.len() && is_in_progress(s[i]) {
                lemma_count_update(
                    s,
                    i,
                    Workout {
                        status: WorkoutStatus::Completed,
                        end_ts: Some(end_ts),
                        totals: Some(totals),
                        ..s[i]
                    },
                );
            }
        },
        LogOp::Fail { i, end_ts } => {
            if 0 <= i < s.len() && is_in_progress(s[i]) {
                lemma_count_update(
                    s,
                    i,
                    Workout { status: WorkoutStatus::Failed, end_ts: Some(end_ts), ..s[i] },
                );
            }
        },
        LogOp::Delete { i } => {
            if 0 <= i < s.len() {
                lemma_count_remove(s, i);
                lemma_count_nonneg(s.remove(i));
            }
        },
        LogOp::Recover { end_ts } => {
            lemma_recover_count(s, end_ts);
        },
    }
}

/// Law (at most one active session): starting from any log with at most one
/// open workout — an empty log included — every run of start, complete, fail,
/// delete and orphan-recovery transitions, forced ends on connection loss
/// among them, leaves at most one workout in progress.
pub proof fn lemma_at_most_one_in_progress(s: Seq<Workout>, ops: Seq<LogOp>)
    requires
        in_progress_count(s) <= 1,
    ensures
        in_progress_count(apply_ops(s, ops)) <= 1,
    decreases ops.len(),
{
    if ops.len() > 0 {
        lemma_op_preserves_invariant(s, ops[0]);
        lemma_at_most_one_in_progress(apply_op(s, ops[0]), ops.drop_first());
    }
}

/// Law (a start opens exactly one): a start transition leaves exactly one
/// workout in progress, whatever was open before.
pub proof fn lemma_start_opens_exactly_one(s: Seq<Workout>, uuid: u128, start_ts: i64, id: u64)
    ensures
        in_progress_count(apply_op(s, LogOp::Start { uuid, start_ts, id })) == 1,
{
    lemma_recover_count(s, start_ts);
    lemma_count_push(
        spec_recover(s, start_ts),
        Workout {
            id,
            uuid,
            start_ts,
            end_ts: None,
            status: WorkoutStatus::InProgress,
            totals: None,
            fail_reason: None,
        },
    );
}

} // verus!
