//! Putting the findings of a comparison and the diagnostics of one of the
//! two simulations into one report, tick by tick.

use vstd::prelude::*;
use crate::diag::{Diagnostic, DiagnosticLevel};
use crate::diff::{lemma_next_advances, DiffGenerator};

verus! {

/// A finding of the comparison.
pub type Finding = Diagnostic<crate::diff::DiagnosticKind>;

/// A diagnostic of a simulation.
pub type Remark = Diagnostic<crate::run::DiagnosticKind>;

/// One line of a report.
#[derive(Debug, PartialEq, Eq)]
pub enum Line {
    /// The heading of a tick.
    Tick(u64),
    /// A diagnostic of the simulation.
    Side(Remark),
    /// A finding of the comparison.
    Diff(Finding),
    /// The report stops here, because it has as many findings and
    /// diagnostics as it may hold.
    Stopped,
}

/// A report, and whether the comparison found nothing.
#[derive(Debug)]
pub struct Report {
    pub lines: Vec<Line>,
    pub ok: bool,
}

/// A report that is being written.
pub struct Mix {
    /// The lines so far.
    pub lines: Seq<Line>,
    /// The tick of the last heading; before the first heading, the largest
    /// number there is.
    pub tick: u64,
    /// How many findings and diagnostics the report holds.
    pub count: nat,
    /// How many diagnostics of the simulation have been dealt with.
    pub next: nat,
    /// Whether the report has stopped.
    pub stopped: bool,
}

/// The findings among `findings` that are at least as severe as `max_level`.
pub open spec fn kept(findings: Seq<Finding>, max_level: DiagnosticLevel) -> Seq<Finding>
    decreases findings.len(),
{
    if findings.len() == 0 {
        Seq::empty()
    } else if findings[0].level.spec_passes(max_level) {
        seq![findings[0]] + kept(findings.drop_first(), max_level)
    } else {
        kept(findings.drop_first(), max_level)
    }
}

impl Mix {
    /// An empty report.
    pub open spec fn start() -> Mix {
        Mix { lines: Seq::empty(), tick: u64::MAX, count: 0, next: 0, stopped: false }
    }

    /// The report under the heading of `tick`: a new heading unless the last
    /// one is that of `tick` already.
    pub open spec fn headed(self, tick: u64) -> Mix {
        if self.tick != tick {
            Mix { lines: self.lines.push(Line::Tick(tick)), tick, ..self }
        } else {
            self
        }
    }

    /// The report with one more finding or diagnostic; it stops behind it if
    /// that makes `max_reports` of them.
    pub open spec fn reported(self, line: Line, max_reports: usize) -> Mix {
        if self.count + 1 == max_reports {
            Mix {
                lines: self.lines.push(line).push(Line::Stopped),
                count: self.count + 1,
                stopped: true,
                ..self
            }
        } else {
            Mix { lines: self.lines.push(line), count: self.count + 1, ..self }
        }
    }

    /// The report once the diagnostics of the simulation have caught up:
    /// from the next one on, each is reported under the heading of its tick,
    /// up to the first whose tick is before that of the last heading.
    pub open spec fn caught_up(self, side: Seq<Remark>, max_reports: usize) -> Mix
        decreases side.len() - self.next,
    {
        if self.stopped || self.next >= side.len() || self.tick > side[self.next as int].when.tick {
            self
        } else {
            let remark = side[self.next as int];
            let made = self.headed(remark.when.tick).reported(Line::Side(remark), max_reports);
            if made.stopped {
                made
            } else {
                Mix { next: self.next + 1, ..made }.caught_up(side, max_reports)
            }
        }
    }

    /// The report with the finding `finding`. A finding of another tick than
    /// the last heading lets the diagnostics of the simulation catch up
    /// first, and gets the heading of its tick.
    pub open spec fn with_finding(
        self,
        side: Option<Seq<Remark>>,
        finding: Finding,
        max_reports: usize,
    ) -> Mix {
        if self.stopped {
            self
        } else if finding.when.tick == self.tick {
            self.reported(Line::Diff(finding), max_reports)
        } else {
            let caught = match side {
                Some(side) => self.caught_up(side, max_reports),
                None => self,
            };
            if caught.stopped {
                caught
            } else {
                caught.headed(finding.when.tick).reported(Line::Diff(finding), max_reports)
            }
        }
    }

    /// The report with the findings `findings`, in order.
    pub open spec fn with_findings(
        self,
        side: Option<Seq<Remark>>,
        findings: Seq<Finding>,
        max_reports: usize,
    ) -> Mix
        decreases findings.len(),
    {
        if self.stopped || findings.len() == 0 {
            self
        } else {
            self.with_finding(side, findings[0], max_reports).with_findings(
                side,
                findings.drop_first(),
                max_reports,
            )
        }
    }

    /// The report with the diagnostics of the simulation that are left, each
    /// under the heading of its tick.
    pub open spec fn with_rest(self, side: Seq<Remark>, max_reports: usize) -> Mix
        decreases side.len() - self.next,
    {
        if self.stopped || self.next >= side.len() {
            self
        } else {
            let remark = side[self.next as int];
            let made = self.headed(remark.when.tick).reported(Line::Side(remark), max_reports);
            Mix { next: self.next + 1, ..made }.with_rest(side, max_reports)
        }
    }

    /// The report at its end: the diagnostics that are left are added,
    /// unless the report holds exactly `max_reports` findings and
    /// diagnostics.
    pub open spec fn finished(self, side: Option<Seq<Remark>>, max_reports: usize) -> Mix {
        match side {
            Some(side) if self.count != max_reports => self.with_rest(side, max_reports),
            _ => self,
        }
    }
}

/// The lines of the report on `findings`, of which those at least as severe
/// as `max_level` count, beside the diagnostics `side` of one simulation.
pub open spec fn mixed(
    findings: Seq<Finding>,
    side: Option<Seq<Remark>>,
    max_level: DiagnosticLevel,
    max_reports: usize,
) -> Seq<Line> {
    Mix::start().with_findings(side, kept(findings, max_level), max_reports).finished(
        side,
        max_reports,
    ).lines
}

/// The diagnostics of a simulation, as a sequence.
pub open spec fn side_view(side: Option<&[Remark]>) -> Option<Seq<Remark>> {
    match side {
        Some(side) => Some(side@),
        None => None,
    }
}

/// A report that is being written.
struct Writer {
    lines: Vec<Line>,
    tick: u64,
    count: usize,
    next: usize,
    stopped: bool,
}

impl View for Writer {
    type V = Mix;

    closed spec fn view(&self) -> Mix {
        Mix {
            lines: self.lines@,
            tick: self.tick,
            count: self.count as nat,
            next: self.next as nat,
            stopped: self.stopped,
        }
    }
}

impl Writer {
    /// There are at least as many lines as findings and diagnostics.
    spec fn wf(&self) -> bool {
        self.count <= self.lines@.len()
    }

    fn head(&mut self, tick: u64)
        requires
            old(self).wf(),
        ensures
            final(self).wf(),
            final(self)@ == old(self)@.headed(tick),
    {
        if self.tick != tick {
            self.tick = tick;
            self.lines.push(Line::Tick(tick));
        }
    }

    fn report(&mut self, line: Line, max_reports: usize)
        requires
            old(self).wf(),
        ensures
            final(self).wf(),
            final(self)@ == old(self)@.reported(line, max_reports),
            final(self)@.next == old(self)@.next,
    {
        self.lines.push(line);
        let lines: usize = self.lines.len();
        self.count = self.count + 1;
        if self.count == max_reports {
            self.lines.push(Line::Stopped);
            self.stopped = true;
        }
    }

    fn catch_up(&mut self, side: &[Remark], max_reports: usize)
        requires
            old(self).wf(),
            !old(self).stopped,
        ensures
            final(self).wf(),
            final(self)@ == old(self)@.caught_up(side@, max_reports),
    {
        while self.next < side.len() && self.tick <= side[self.next].when.tick
            invariant_except_break
                !self.stopped,
            invariant
                self.wf(),
                self@.caught_up(side@, max_reports) == old(self)@.caught_up(side@, max_reports),
            ensures
                self.wf(),
                self@ == old(self)@.caught_up(side@, max_reports),
            decreases side@.len() - self.next,
        {
            let remark = &side[self.next];
            self.head(remark.when.tick);
            self.report(Line::Side(copy_of(remark)), max_reports);
            if self.stopped {
                break ;
            }
            self.next = self.next + 1;
        }
    }

    fn add_finding(&mut self, side: Option<&[Remark]>, finding: Finding, max_reports: usize)
        requires
            old(self).wf(),
            !old(self).stopped,
        ensures
            final(self).wf(),
            final(self)@ == old(self)@.with_finding(side_view(side), finding, max_reports),
    {
        if finding.when.tick != self.tick {
            match side {
                Some(side) => {
                    self.catch_up(side, max_reports);
                },
                None => {},
            }
            if self.stopped {
                return ;
            }
            self.head(finding.when.tick);
        }
        self.report(Line::Diff(finding), max_reports);
    }

    fn add_rest(&mut self, side: &[Remark], max_reports: usize)
        requires
            old(self).wf(),
        ensures
            final(self).wf(),
            final(self)@ == old(self)@.with_rest(side@, max_reports),
    {
        while !self.stopped && self.next < side.len()
            invariant
                self.wf(),
                self@.with_rest(side@, max_reports) == old(self)@.with_rest(side@, max_reports),
            decreases side@.len() - self.next,
        {
            let remark = &side[self.next];
            self.head(remark.when.tick);
            self.report(Line::Side(copy_of(remark)), max_reports);
            self.next = self.next + 1;
        }
    }
}

/// A copy of `remark`.
fn copy_of(remark: &Remark) -> (r: Remark)
    ensures
        r == *remark,
{
    Diagnostic { when: remark.when, pc: remark.pc, level: remark.level, kind: remark.kind }
}

/// Writes the report on what `diffs` still has to give, beside the
/// diagnostics `side` of one of the two simulations, if any are wanted.
///
/// Findings less severe than `max_level` are left out. The lines come tick
/// by tick. The report stops once it holds `max_reports` findings and
/// diagnostics.
pub fn mix(
    diffs: DiffGenerator,
    side: Option<&[Remark]>,
    max_level: DiagnosticLevel,
    max_reports: usize,
) -> (r: Report)
    ensures
        r.lines@ == mixed(diffs.pending(), side_view(side), max_level, max_reports),
        r.ok == (kept(diffs.pending(), max_level).len() == 0),
{
    // Learns that the cursors lie within the recordings.
    let _ = diffs.position();
    let mut walker = diffs;
    let mut writer = Writer { lines: Vec::new(), tick: u64::MAX, count: 0, next: 0, stopped: false };
    let mut ok = true;
    let ghost side_seq = side_view(side);
    let ghost all = kept(diffs.pending(), max_level);
    loop
        invariant
            side_seq == side_view(side),
            all == kept(diffs.pending(), max_level),
            0 <= walker.cursors().0 <= walker.before_log().len(),
            0 <= walker.cursors().1 <= walker.after_log().len(),
            writer.wf(),
            !ok ==> all.len() > 0,
            writer.stopped ==> !ok,
            writer@.with_findings(side_seq, kept(walker.pending(), max_level), max_reports)
                == Mix::start().with_findings(side_seq, all, max_reports),
            ok ==> kept(walker.pending(), max_level).len() == all.len(),
        ensures
            writer.wf(),
            ok == (all.len() == 0),
            writer@ == Mix::start().with_findings(side_seq, all, max_reports),
        decreases
            walker.before_log().len() - walker.cursors().0 + walker.after_log().len()
                - walker.cursors().1,
    {
        proof {
            lemma_next_advances(
                walker.before_log(),
                walker.after_log(),
                walker.cursors().0,
                walker.cursors().1,
                walker.jitter(),
            );
        }
        if writer.stopped {
            break ;
        }
        let ghost waiting = walker.pending();
        match walker.next() {
            Some(finding) => {
                assert(waiting.drop_first() =~= walker.pending());
                if finding.level.passes(max_level) {
                    ok = false;
                    writer.add_finding(side, finding, max_reports);
                    assert(kept(waiting, max_level).drop_first() =~= kept(
                        walker.pending(),
                        max_level,
                    ));
                }
            },
            None => {
                break ;
            },
        }
    }
    match side {
        Some(side) => {
            if writer.count != max_reports {
                writer.add_rest(side, max_reports);
            }
        },
        None => {},
    }
    Report { lines: writer.lines, ok }
}

} // verus!
