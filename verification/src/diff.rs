//! Pairing two recordings of writes to the sound hardware, and reporting
//! where they part.

use vstd::prelude::*;
use crate::diag::{Diagnostic, DiagnosticLevel};
use crate::run::IoAccess;

verus! {

/// How the "after" recording differs from the "before" one at some write.
#[derive(Debug, Clone, Copy, PartialEq, Eq, Structural)]
pub enum DiagnosticKind {
    /// Present before, but not after: register and value.
    Removed(u16, u8),
    /// Present after, but not before: register and value.
    Added(u16, u8),
    /// The same write, some cycles apart: register, value, and by how many
    /// cycles the later recording is behind the earlier one.
    Moved(u16, u8, i32),
    /// Same register, different values: register, value before, value after.
    OtherValue(u16, u8, u8),
    /// Same value, different registers: register before, value, register
    /// after.
    OtherReg(u16, u8, u16),
}

/// What the pairing does at one position of the two cursors.
pub enum Step {
    /// Both recordings are used up.
    Done,
    /// The two writes are the same; both cursors move on without a report.
    Silent,
    /// A report on the "before" write alone; its cursor moves on.
    Before(Diagnostic<DiagnosticKind>),
    /// A report on the "after" write alone; its cursor moves on.
    After(Diagnostic<DiagnosticKind>),
    /// A report on the two writes as a pair; both cursors move on.
    Both(Diagnostic<DiagnosticKind>),
}

/// A report stamped with the time and place of `access`.
pub open spec fn stamped(access: IoAccess, level: DiagnosticLevel, kind: DiagnosticKind)
    -> Diagnostic<DiagnosticKind> {
    Diagnostic { when: access.when, pc: access.pc, level, kind }
}

/// The report that `before` has no counterpart.
pub open spec fn removed(before: IoAccess) -> Diagnostic<DiagnosticKind> {
    stamped(before, DiagnosticLevel::Error, DiagnosticKind::Removed(before.addr, before.data))
}

/// The report that `after` has no counterpart.
pub open spec fn added(after: IoAccess) -> Diagnostic<DiagnosticKind> {
    stamped(after, DiagnosticLevel::Error, DiagnosticKind::Added(after.addr, after.data))
}

/// The distance in cycles between two writes of one tick.
pub open spec fn cycle_gap(before: IoAccess, after: IoAccess) -> int {
    if before.when.cycle <= after.when.cycle {
        after.when.cycle - before.when.cycle
    } else {
        before.when.cycle - after.when.cycle
    }
}

/// The level of a write that only moved: a note below the jitter, an error
/// from the jitter on.
pub open spec fn moved_level(before: IoAccess, after: IoAccess, jitter: u16) -> DiagnosticLevel {
    if cycle_gap(before, after) < jitter {
        DiagnosticLevel::Note
    } else {
        DiagnosticLevel::Error
    }
}

/// The write at `at + 1` exists and goes to the register `addr`.
pub open spec fn next_targets(log: Seq<IoAccess>, at: int, addr: u16) -> bool {
    at + 1 < log.len() && log[at + 1].addr == addr
}

/// The step for two writes of one tick.
pub open spec fn pair_in_tick(
    before_log: Seq<IoAccess>,
    after_log: Seq<IoAccess>,
    i: int,
    j: int,
    jitter: u16,
) -> Step
    recommends
        0 <= i < before_log.len(),
        0 <= j < after_log.len(),
{
    let before = before_log[i];
    let after = after_log[j];
    let same_addr = before.addr == after.addr;
    let same_data = before.data == after.data;
    if same_addr && same_data && before.when.cycle == after.when.cycle {
        Step::Silent
    } else if same_addr && same_data {
        Step::Both(
            stamped(
                after,
                moved_level(before, after, jitter),
                DiagnosticKind::Moved(
                    before.addr,
                    before.data,
                    (after.when.cycle - before.when.cycle) as i32,
                ),
            ),
        )
    } else if same_addr {
        Step::Both(
            stamped(
                after,
                DiagnosticLevel::Error,
                DiagnosticKind::OtherValue(before.addr, before.data, after.data),
            ),
        )
    } else if same_data {
        Step::Both(
            stamped(
                after,
                DiagnosticLevel::Error,
                DiagnosticKind::OtherReg(before.addr, before.data, after.addr),
            ),
        )
    } else if next_targets(before_log, i, after.addr) {
        Step::Before(removed(before))
    } else if next_targets(after_log, j, before.addr) {
        Step::After(added(after))
    } else if before.when.cycle < after.when.cycle {
        Step::Before(removed(before))
    } else {
        Step::After(added(after))
    }
}

/// The step with the cursors at `i` and `j`. Cursors that stand outside the
/// recordings end the pairing.
pub open spec fn pair_step(
    before_log: Seq<IoAccess>,
    after_log: Seq<IoAccess>,
    i: int,
    j: int,
    jitter: u16,
) -> Step {
    if !(0 <= i <= before_log.len() && 0 <= j <= after_log.len()) {
        Step::Done
    } else if i >= before_log.len() && j >= after_log.len() {
        Step::Done
    } else if i >= before_log.len() {
        Step::After(added(after_log[j]))
    } else if j >= after_log.len() {
        Step::Before(removed(before_log[i]))
    } else if before_log[i].when.tick < after_log[j].when.tick {
        Step::Before(removed(before_log[i]))
    } else if before_log[i].when.tick > after_log[j].when.tick {
        Step::After(added(after_log[j]))
    } else {
        pair_in_tick(before_log, after_log, i, j, jitter)
    }
}

/// Where the cursors stand once the next report has been made, and that
/// report; `None` when both recordings are used up without one.
pub struct Pull {
    pub item: Option<Diagnostic<DiagnosticKind>>,
    pub i: int,
    pub j: int,
}

/// The next report from the cursors `i` and `j` on.
pub open spec fn next_from(
    before_log: Seq<IoAccess>,
    after_log: Seq<IoAccess>,
    i: int,
    j: int,
    jitter: u16,
) -> Pull
    decreases before_log.len() - i + after_log.len() - j,
{
    match pair_step(before_log, after_log, i, j, jitter) {
        Step::Done => Pull { item: None, i, j },
        Step::Silent => next_from(before_log, after_log, i + 1, j + 1, jitter),
        Step::Before(d) => Pull { item: Some(d), i: i + 1, j },
        Step::After(d) => Pull { item: Some(d), i, j: j + 1 },
        Step::Both(d) => Pull { item: Some(d), i: i + 1, j: j + 1 },
    }
}

/// All reports from the cursors `i` and `j` on, in order.
pub open spec fn diff_from(
    before_log: Seq<IoAccess>,
    after_log: Seq<IoAccess>,
    i: int,
    j: int,
    jitter: u16,
) -> Seq<Diagnostic<DiagnosticKind>>
    decreases before_log.len() - i + after_log.len() - j,
{
    match pair_step(before_log, after_log, i, j, jitter) {
        Step::Done => Seq::empty(),
        Step::Silent => diff_from(before_log, after_log, i + 1, j + 1, jitter),
        Step::Before(d) => seq![d] + diff_from(before_log, after_log, i + 1, j, jitter),
        Step::After(d) => seq![d] + diff_from(before_log, after_log, i, j + 1, jitter),
        Step::Both(d) => seq![d] + diff_from(before_log, after_log, i + 1, j + 1, jitter),
    }
}

/// All reports on two recordings.
pub open spec fn diff(before_log: Seq<IoAccess>, after_log: Seq<IoAccess>, jitter: u16) -> Seq<
    Diagnostic<DiagnosticKind>,
> {
    diff_from(before_log, after_log, 0, 0, jitter)
}

/// Walks two recordings and hands out the reports one by one.
#[derive(Debug)]
pub struct DiffGenerator<'a> {
    logs: (&'a [IoAccess], &'a [IoAccess]),
    jitter: u16,
    indices: (usize, usize),
}

impl<'a> DiffGenerator<'a> {
    #[verifier::type_invariant]
    spec fn cursors_in_range(&self) -> bool {
        self.indices.0 <= self.logs.0@.len() && self.indices.1 <= self.logs.1@.len()
    }

    /// The "before" recording.
    pub closed spec fn before_log(&self) -> Seq<IoAccess> {
        self.logs.0@
    }

    /// The "after" recording.
    pub closed spec fn after_log(&self) -> Seq<IoAccess> {
        self.logs.1@
    }

    /// Below how many cycles a moved write is only a note.
    pub closed spec fn jitter(&self) -> u16 {
        self.jitter
    }

    /// How many writes of each recording have been dealt with.
    pub closed spec fn cursors(&self) -> (int, int) {
        (self.indices.0 as int, self.indices.1 as int)
    }

    /// The reports that are still to come.
    pub open spec fn pending(&self) -> Seq<Diagnostic<DiagnosticKind>> {
        diff_from(
            self.before_log(),
            self.after_log(),
            self.cursors().0,
            self.cursors().1,
            self.jitter(),
        )
    }

    /// A generator at the start of both recordings.
    pub fn new(before_log: &'a [IoAccess], after_log: &'a [IoAccess], jitter: u16) -> (r: Self)
        ensures
            r.before_log() == before_log@,
            r.after_log() == after_log@,
            r.jitter() == jitter,
            r.cursors() == (0int, 0int),
            r.pending() == diff(before_log@, after_log@, jitter),
    {
        Self { logs: (before_log, after_log), jitter, indices: (0, 0) }
    }

    /// How many writes of each recording have been dealt with.
    pub fn position(&self) -> (r: (usize, usize))
        ensures
            self.cursors() == (r.0 as int, r.1 as int),
            r.0 <= self.before_log().len(),
            r.1 <= self.after_log().len(),
    {
        proof {
            use_type_invariant(self);
        }
        self.indices
    }

    /// The next report, or `None` once both recordings are used up.
    pub fn next(&mut self) -> (r: Option<Diagnostic<DiagnosticKind>>)
        ensures
            final(self).before_log() == old(self).before_log(),
            final(self).after_log() == old(self).after_log(),
            final(self).jitter() == old(self).jitter(),
            0 <= final(self).cursors().0 <= final(self).before_log().len(),
            0 <= final(self).cursors().1 <= final(self).after_log().len(),
            ({
                let pull = next_from(
                    old(self).before_log(),
                    old(self).after_log(),
                    old(self).cursors().0,
                    old(self).cursors().1,
                    old(self).jitter(),
                );
                r == pull.item && final(self).cursors() == (pull.i, pull.j)
            }),
            old(self).pending() == match r {
                Some(d) => seq![d] + final(self).pending(),
                None => Seq::empty(),
            },
    {
        proof {
            use_type_invariant(&*self);
        }
        let before_log = self.logs.0;
        let after_log = self.logs.1;
        let jitter: u16 = self.jitter;
        loop
            invariant
                self.logs == old(self).logs,
                self.logs == (before_log, after_log),
                self.jitter == old(self).jitter,
                self.jitter == jitter,
                self.indices.0 <= before_log@.len(),
                self.indices.1 <= after_log@.len(),
                next_from(
                    before_log@,
                    after_log@,
                    self.indices.0 as int,
                    self.indices.1 as int,
                    jitter,
                ) == next_from(
                    before_log@,
                    after_log@,
                    old(self).indices.0 as int,
                    old(self).indices.1 as int,
                    jitter,
                ),
                self.pending() == old(self).pending(),
            decreases before_log@.len() - self.indices.0 + after_log@.len() - self.indices.1,
        {
            let i: usize = self.indices.0;
            let j: usize = self.indices.1;
            if i >= before_log.len() {
                if j >= after_log.len() {
                    return None;
                }
                let after = &after_log[j];
                self.indices = (i, j + 1);
                return diagnose(
                    after,
                    DiagnosticLevel::Error,
                    DiagnosticKind::Added(after.addr, after.data),
                );
            }
            let before = &before_log[i];
            if j >= after_log.len() {
                self.indices = (i + 1, j);
                return diagnose(
                    before,
                    DiagnosticLevel::Error,
                    DiagnosticKind::Removed(before.addr, before.data),
                );
            }
            let after = &after_log[j];
            // Writes of different ticks are never paired.
            if before.when.tick < after.when.tick {
                self.indices = (i + 1, j);
                return diagnose(
                    before,
                    DiagnosticLevel::Error,
                    DiagnosticKind::Removed(before.addr, before.data),
                );
            }
            if before.when.tick > after.when.tick {
                self.indices = (i, j + 1);
                return diagnose(
                    after,
                    DiagnosticLevel::Error,
                    DiagnosticKind::Added(after.addr, after.data),
                );
            }
            let same_addr = before.addr == after.addr;
            let same_data = before.data == after.data;
            if same_addr && same_data {
                self.indices = (i + 1, j + 1);
                if before.when.cycle == after.when.cycle {
                    // Nothing to report; this is the only path that loops.
                    continue ;
                }
                let gap: u16 = if before.when.cycle <= after.when.cycle {
                    after.when.cycle - before.when.cycle
                } else {
                    before.when.cycle - after.when.cycle
                };
                let level = if gap < jitter {
                    DiagnosticLevel::Note
                } else {
                    DiagnosticLevel::Error
                };
                let delta: i32 = (after.when.cycle as i32) - (before.when.cycle as i32);
                return diagnose(after, level, DiagnosticKind::Moved(before.addr, before.data, delta));
            }
            if same_addr {
                // Taken for the same write, with another value.
                self.indices = (i + 1, j + 1);
                return diagnose(
                    after,
                    DiagnosticLevel::Error,
                    DiagnosticKind::OtherValue(before.addr, before.data, after.data),
                );
            }
            if same_data {
                // Taken for the same write, gone to another register.
                self.indices = (i + 1, j + 1);
                return diagnose(
                    after,
                    DiagnosticLevel::Error,
                    DiagnosticKind::OtherReg(before.addr, before.data, after.addr),
                );
            }
            // Nothing matches: look one write ahead on each side. Where the
            // next write goes to the register of the other side's current
            // one, those two are taken for a pair.
            let before_is_extra = i + 1 < before_log.len() && before_log[i + 1].addr == after.addr;
            let after_is_extra = j + 1 < after_log.len() && after_log[j + 1].addr == before.addr;
            if before_is_extra || (!after_is_extra && before.when.cycle < after.when.cycle) {
                self.indices = (i + 1, j);
                return diagnose(
                    before,
                    DiagnosticLevel::Error,
                    DiagnosticKind::Removed(before.addr, before.data),
                );
            }
            self.indices = (i, j + 1);
            return diagnose(
                after,
                DiagnosticLevel::Error,
                DiagnosticKind::Added(after.addr, after.data),
            );
        }
    }

    /// All the reports that are still to come, in order.
    pub fn into_vec(self) -> (r: Vec<Diagnostic<DiagnosticKind>>)
        ensures
            r@ == self.pending(),
    {
        proof {
            use_type_invariant(&self);
        }
        let mut walker = self;
        let mut found: Vec<Diagnostic<DiagnosticKind>> = Vec::new();
        loop
            invariant
                self.pending() == found@ + walker.pending(),
                0 <= walker.cursors().0 <= walker.before_log().len(),
                0 <= walker.cursors().1 <= walker.after_log().len(),
            ensures
                self.pending() == found@,
            decreases
                walker.before_log().len() - walker.cursors().0 + walker.after_log().len()
                    - walker.cursors().1,
        {
            proof {
                lemma_next_advances(
                    walker.before_log(),
                    walker.after_log(),
                    walker.cursors().0,
                    walker.cursors().1,
                    walker.jitter(),
                );
            }
            match walker.next() {
                Some(d) => {
                    found.push(d);
                },
                None => {
                    break ;
                },
            }
        }
        found
    }
}

/// A report stamped with the time and place of `access`.
pub fn diagnose(access: &IoAccess, level: DiagnosticLevel, kind: DiagnosticKind) -> (r: Option<
    Diagnostic<DiagnosticKind>,
>)
    ensures
        r == Some(stamped(*access, level, kind)),
{
    Some(Diagnostic { when: access.when, pc: access.pc, level, kind })
}

/// A report moves at least one cursor on, and none moves back or past the
/// end of its recording.
pub proof fn lemma_next_advances(
    before_log: Seq<IoAccess>,
    after_log: Seq<IoAccess>,
    i: int,
    j: int,
    jitter: u16,
)
    requires
        0 <= i <= before_log.len(),
        0 <= j <= after_log.len(),
    ensures
        ({
            let pull = next_from(before_log, after_log, i, j, jitter);
            &&& i <= pull.i <= before_log.len()
            &&& j <= pull.j <= after_log.len()
            &&& pull.item is Some ==> pull.i + pull.j > i + j
            &&& pull.item is None ==> pull.i == before_log.len() && pull.j == after_log.len()
        }),
    decreases before_log.len() - i + after_log.len() - j,
{
    if pair_step(before_log, after_log, i, j, jitter) is Silent {
        lemma_next_advances(before_log, after_log, i + 1, j + 1, jitter);
    }
}

/// From equal cursors on, a recording paired with itself gives no report.
proof fn lemma_same_logs_from(log: Seq<IoAccess>, i: int, jitter: u16)
    requires
        0 <= i <= log.len(),
    ensures
        diff_from(log, log, i, i, jitter) == Seq::<Diagnostic<DiagnosticKind>>::empty(),
    decreases log.len() - i,
{
    if i < log.len() {
        lemma_same_logs_from(log, i + 1, jitter);
    }
}

/// A recording paired with itself gives no report.
pub proof fn lemma_same_logs_no_report(log: Seq<IoAccess>, jitter: u16)
    ensures
        diff(log, log, jitter) == Seq::<Diagnostic<DiagnosticKind>>::empty(),
{
    lemma_same_logs_from(log, 0, jitter);
}

proof fn lemma_appended_from(log: Seq<IoAccess>, extra: IoAccess, i: int, jitter: u16)
    requires
        0 <= i <= log.len(),
    ensures
        diff_from(log, log.push(extra), i, i, jitter) == seq![added(extra)],
        diff_from(log.push(extra), log, i, i, jitter) == seq![removed(extra)],
    decreases log.len() - i,
{
    let longer = log.push(extra);
    if i < log.len() {
        lemma_appended_from(log, extra, i + 1, jitter);
    } else {
        assert(diff_from(log, longer, i, i + 1, jitter) == Seq::<
            Diagnostic<DiagnosticKind>,
        >::empty());
        assert(diff_from(longer, log, i + 1, i, jitter) == Seq::<
            Diagnostic<DiagnosticKind>,
        >::empty());
    }
}

/// One write more at the end of the "after" recording gives exactly one
/// report, that it was added; one more at the end of the "before" recording,
/// that it was removed.
pub proof fn lemma_one_write_appended(log: Seq<IoAccess>, extra: IoAccess, jitter: u16)
    ensures
        diff(log, log.push(extra), jitter) == seq![added(extra)],
        diff(log.push(extra), log, jitter) == seq![removed(extra)],
{
    lemma_appended_from(log, extra, 0, jitter);
}

/// Two recordings of one length that agree everywhere but at `at`, where the
/// same write of the same tick stands at another cycle.
pub open spec fn differ_by_one_move(
    before_log: Seq<IoAccess>,
    after_log: Seq<IoAccess>,
    at: int,
) -> bool {
    &&& before_log.len() == after_log.len()
    &&& 0 <= at < before_log.len()
    &&& forall|k: int| 0 <= k < before_log.len() && k != at ==> before_log[k] == after_log[k]
    &&& before_log[at].when.tick == after_log[at].when.tick
    &&& before_log[at].addr == after_log[at].addr
    &&& before_log[at].data == after_log[at].data
    &&& before_log[at].when.cycle != after_log[at].when.cycle
}

/// The report on a write that moved within its tick.
pub open spec fn moved(before: IoAccess, after: IoAccess, jitter: u16) -> Diagnostic<
    DiagnosticKind,
> {
    stamped(
        after,
        moved_level(before, after, jitter),
        DiagnosticKind::Moved(
            before.addr,
            before.data,
            (after.when.cycle - before.when.cycle) as i32,
        ),
    )
}

proof fn lemma_one_move_from(
    before_log: Seq<IoAccess>,
    after_log: Seq<IoAccess>,
    at: int,
    i: int,
    jitter: u16,
)
    requires
        differ_by_one_move(before_log, after_log, at),
        0 <= i <= before_log.len(),
    ensures
        diff_from(before_log, after_log, i, i, jitter) == if i <= at {
            seq![moved(before_log[at], after_log[at], jitter)]
        } else {
            Seq::empty()
        },
    decreases before_log.len() - i,
{
    if i < before_log.len() {
        lemma_one_move_from(before_log, after_log, at, i + 1, jitter);
        if i == at {
        }
    }
}

/// Where two recordings differ only in the cycle of one write, the one
/// report says that it moved: as a note while the distance is below the
/// jitter, as an error from the jitter on.
pub proof fn lemma_one_write_moved(
    before_log: Seq<IoAccess>,
    after_log: Seq<IoAccess>,
    at: int,
    jitter: u16,
)
    requires
        differ_by_one_move(before_log, after_log, at),
    ensures
        diff(before_log, after_log, jitter) == seq![
            moved(before_log[at], after_log[at], jitter),
        ],
        moved(before_log[at], after_log[at], jitter).level == if cycle_gap(
            before_log[at],
            after_log[at],
        ) < jitter {
            DiagnosticLevel::Note
        } else {
            DiagnosticLevel::Error
        },
{
    lemma_one_move_from(before_log, after_log, at, 0, jitter);
}

/// The same finding with the two recordings in each other's place.
pub open spec fn mirrored(kind: DiagnosticKind) -> DiagnosticKind {
    match kind {
        DiagnosticKind::Removed(addr, data) => DiagnosticKind::Added(addr, data),
        DiagnosticKind::Added(addr, data) => DiagnosticKind::Removed(addr, data),
        DiagnosticKind::Moved(addr, data, delta) => DiagnosticKind::Moved(
            addr,
            data,
            (-delta) as i32,
        ),
        DiagnosticKind::OtherValue(addr, before, after) => DiagnosticKind::OtherValue(
            addr,
            after,
            before,
        ),
        DiagnosticKind::OtherReg(before, data, after) => DiagnosticKind::OtherReg(
            after,
            data,
            before,
        ),
    }
}

/// `there` is the report that the swapped pairing makes where this one makes
/// `here`: the mirrored finding at the same level and in the same tick. A
/// report on one write alone carries that write's time and place on both
/// sides; a report on a pair carries those of the side that is "after".
pub open spec fn mirror_of(
    here: Diagnostic<DiagnosticKind>,
    there: Diagnostic<DiagnosticKind>,
) -> bool {
    &&& there.kind == mirrored(here.kind)
    &&& there.level == here.level
    &&& there.when.tick == here.when.tick
    &&& (here.kind is Removed || here.kind is Added) ==> there.when == here.when && there.pc
        == here.pc
}

/// Report for report, `there` mirrors `here`.
pub open spec fn mirror_seq(
    here: Seq<Diagnostic<DiagnosticKind>>,
    there: Seq<Diagnostic<DiagnosticKind>>,
) -> bool {
    &&& here.len() == there.len()
    &&& forall|k: int| 0 <= k < here.len() ==> mirror_of(#[trigger] here[k], there[k])
}

/// With the cursors at two writes of one tick that share neither register
/// nor value, the choice of the side to report does not survive a swap of the
/// recordings: either both looks ahead find a partner, or none does and the
/// two cycles are the same.
pub open spec fn tie_at(before_log: Seq<IoAccess>, after_log: Seq<IoAccess>, i: int, j: int)
    -> bool {
    &&& 0 <= i < before_log.len()
    &&& 0 <= j < after_log.len()
    &&& before_log[i].when.tick == after_log[j].when.tick
    &&& before_log[i].addr != after_log[j].addr
    &&& before_log[i].data != after_log[j].data
    &&& {
        let ahead_before = next_targets(before_log, i, after_log[j].addr);
        let ahead_after = next_targets(after_log, j, before_log[i].addr);
        ||| ahead_before && ahead_after
        ||| !ahead_before && !ahead_after && before_log[i].when.cycle
            == after_log[j].when.cycle
    }
}

/// The pairing meets no tie from the cursors `i` and `j` on.
pub open spec fn tie_free_from(
    before_log: Seq<IoAccess>,
    after_log: Seq<IoAccess>,
    i: int,
    j: int,
    jitter: u16,
) -> bool
    decreases before_log.len() - i + after_log.len() - j,
{
    match pair_step(before_log, after_log, i, j, jitter) {
        Step::Done => true,
        Step::Silent => tie_free_from(before_log, after_log, i + 1, j + 1, jitter),
        Step::Before(_) => !tie_at(before_log, after_log, i, j) && tie_free_from(
            before_log,
            after_log,
            i + 1,
            j,
            jitter,
        ),
        Step::After(_) => !tie_at(before_log, after_log, i, j) && tie_free_from(
            before_log,
            after_log,
            i,
            j + 1,
            jitter,
        ),
        Step::Both(_) => tie_free_from(before_log, after_log, i + 1, j + 1, jitter),
    }
}

/// Mirroring a finding twice gives it back, for every distance that two
/// cycle counts can be apart.
pub proof fn lemma_mirrored_twice(kind: DiagnosticKind)
    requires
        kind matches DiagnosticKind::Moved(_, _, delta) ==> -0x10000 < delta < 0x10000,
    ensures
        mirrored(mirrored(kind)) == kind,
{
}

proof fn lemma_mirror_cons(
    d: Diagnostic<DiagnosticKind>,
    e: Diagnostic<DiagnosticKind>,
    here: Seq<Diagnostic<DiagnosticKind>>,
    there: Seq<Diagnostic<DiagnosticKind>>,
)
    requires
        mirror_of(d, e),
        mirror_seq(here, there),
    ensures
        mirror_seq(seq![d] + here, seq![e] + there),
{
    let x = seq![d] + here;
    let y = seq![e] + there;
    assert forall|k: int| 0 <= k < x.len() implies mirror_of(#[trigger] x[k], y[k]) by {
        if k > 0 {
        }
    }
}

proof fn lemma_swap_from(
    before_log: Seq<IoAccess>,
    after_log: Seq<IoAccess>,
    i: int,
    j: int,
    jitter: u16,
)
    requires
        0 <= i <= before_log.len(),
        0 <= j <= after_log.len(),
        tie_free_from(before_log, after_log, i, j, jitter),
    ensures
        mirror_seq(
            diff_from(before_log, after_log, i, j, jitter),
            diff_from(after_log, before_log, j, i, jitter),
        ),
    decreases before_log.len() - i + after_log.len() - j,
{
    let here = pair_step(before_log, after_log, i, j, jitter);
    let there = pair_step(after_log, before_log, j, i, jitter);
    match here {
        Step::Done => {
        },
        Step::Silent => {
            lemma_swap_from(before_log, after_log, i + 1, j + 1, jitter);
        },
        Step::Before(d) => {
            lemma_swap_from(before_log, after_log, i + 1, j, jitter);
            lemma_mirror_cons(
                d,
                added(before_log[i]),
                diff_from(before_log, after_log, i + 1, j, jitter),
                diff_from(after_log, before_log, j, i + 1, jitter),
            );
        },
        Step::After(d) => {
            lemma_swap_from(before_log, after_log, i, j + 1, jitter);
            lemma_mirror_cons(
                d,
                removed(after_log[j]),
                diff_from(before_log, after_log, i, j + 1, jitter),
                diff_from(after_log, before_log, j + 1, i, jitter),
            );
        },
        Step::Both(d) => {
            lemma_swap_from(before_log, after_log, i + 1, j + 1, jitter);
            lemma_mirror_cons(
                d,
                there->Both_0,
                diff_from(before_log, after_log, i + 1, j + 1, jitter),
                diff_from(after_log, before_log, j + 1, i + 1, jitter),
            );
        },
    }
}

/// Swapping the two recordings mirrors the reports one for one, as long as
/// the pairing meets no tie.
pub proof fn lemma_swap_mirrors(
    before_log: Seq<IoAccess>,
    after_log: Seq<IoAccess>,
    jitter: u16,
)
    requires
        tie_free_from(before_log, after_log, 0, 0, jitter),
    ensures
        mirror_seq(diff(before_log, after_log, jitter), diff(after_log, before_log, jitter)),
{
    lemma_swap_from(before_log, after_log, 0, 0, jitter);
}

} // verus!
