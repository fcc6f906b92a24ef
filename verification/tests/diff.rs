use gbsdiff::diff::{diagnose, DiagnosticKind, DiffGenerator};
use gbsdiff::run::IoAccess;
use gbsdiff::{Address, Diagnostic, DiagnosticLevel, Timestamp};

const NR11: u16 = 0xFF11;
const NR12: u16 = 0xFF12;
const NR13: u16 = 0xFF13;
const NR50: u16 = 0xFF24;
const NR52: u16 = 0xFF26;

fn access(tick: u64, cycle: u16, addr: u16, data: u8) -> IoAccess {
    IoAccess { when: Timestamp { tick, cycle }, pc: Address(1, 0x4100), addr, data }
}

fn run(before: &[IoAccess], after: &[IoAccess], jitter: u16) -> Vec<Diagnostic<DiagnosticKind>> {
    DiffGenerator::new(before, after, jitter).into_vec()
}

fn report(at: &IoAccess, level: DiagnosticLevel, kind: DiagnosticKind) -> Diagnostic<DiagnosticKind> {
    Diagnostic { when: at.when, pc: at.pc, level, kind }
}

#[test]
fn empty_logs_give_nothing() {
    assert_eq!(run(&[], &[], 20), vec![]);
    let mut walker = DiffGenerator::new(&[], &[], 20);
    assert_eq!(walker.next(), None);
    assert_eq!(walker.next(), None);
}

#[test]
fn identical_logs_give_nothing() {
    let mut log = Vec::new();
    for tick in 1..=3 {
        log.push(access(tick, 2, NR52, 0x80));
        log.push(access(tick, 7, NR50, 0x77));
    }
    assert_eq!(run(&log, &log.clone(), 20), vec![]);
    assert_eq!(run(&log, &log.clone(), 0), vec![]);
}

#[test]
fn a_different_pc_alone_is_no_difference() {
    let before = [access(1, 10, NR13, 0x40)];
    let mut after = before;
    after[0].pc = Address(2, 0x4200);
    assert_eq!(run(&before, &after, 20), vec![]);
}

#[test]
fn one_appended_write_is_added() {
    let log = vec![access(1, 2, NR52, 0x80), access(2, 2, NR52, 0x80)];
    let mut longer = log.clone();
    let extra = access(2, 9, NR12, 0xF0);
    longer.push(extra);
    assert_eq!(
        run(&log, &longer, 20),
        vec![report(&extra, DiagnosticLevel::Error, DiagnosticKind::Added(NR12, 0xF0))]
    );
    assert_eq!(
        run(&longer, &log, 20),
        vec![report(&extra, DiagnosticLevel::Error, DiagnosticKind::Removed(NR12, 0xF0))]
    );
}

#[test]
fn jitter_boundary() {
    let before = [access(1, 10, NR13, 0x40)];
    let after = [access(1, 25, NR13, 0x40)];
    assert_eq!(
        run(&before, &after, 20),
        vec![report(&after[0], DiagnosticLevel::Note, DiagnosticKind::Moved(NR13, 0x40, 15))]
    );
    assert_eq!(
        run(&before, &after, 10),
        vec![report(&after[0], DiagnosticLevel::Error, DiagnosticKind::Moved(NR13, 0x40, 15))]
    );
    // The jitter itself is already an error; one cycle less is a note.
    assert_eq!(run(&before, &after, 15)[0].level, DiagnosticLevel::Error);
    assert_eq!(run(&before, &after, 16)[0].level, DiagnosticLevel::Note);
}

#[test]
fn a_write_that_moved_earlier_has_a_negative_delta() {
    let before = [access(1, 25, NR13, 0x40)];
    let after = [access(1, 10, NR13, 0x40)];
    assert_eq!(
        run(&before, &after, 20),
        vec![report(&after[0], DiagnosticLevel::Note, DiagnosticKind::Moved(NR13, 0x40, -15))]
    );
    let before = [access(1, 0xFFFF, NR13, 0x40)];
    let after = [access(1, 0, NR13, 0x40)];
    assert_eq!(
        run(&before, &after, 0xFFFF),
        vec![report(&after[0], DiagnosticLevel::Error, DiagnosticKind::Moved(NR13, 0x40, -65535))]
    );
    assert_eq!(
        run(&after, &before, 0xFFFF),
        vec![report(&before[0], DiagnosticLevel::Error, DiagnosticKind::Moved(NR13, 0x40, 65535))]
    );
}

#[test]
fn zero_jitter_makes_every_move_an_error() {
    let before = [access(1, 10, NR13, 0x40)];
    let after = [access(1, 11, NR13, 0x40)];
    assert_eq!(run(&before, &after, 0)[0].level, DiagnosticLevel::Error);
    assert_eq!(run(&before, &after, 1)[0].level, DiagnosticLevel::Error);
    assert_eq!(run(&before, &after, 2)[0].level, DiagnosticLevel::Note);
}

#[test]
fn added_in_the_same_tick() {
    let before = [access(1, 4, NR11, 0x80)];
    let after = [access(1, 4, NR11, 0x80), access(1, 9, NR12, 0xF0)];
    assert_eq!(
        run(&before, &after, 20),
        vec![report(&after[1], DiagnosticLevel::Error, DiagnosticKind::Added(NR12, 0xF0))]
    );
}

#[test]
fn removed_in_the_same_tick() {
    let before = [access(1, 4, NR11, 0x80), access(1, 9, NR12, 0xF0)];
    let after = [access(1, 4, NR11, 0x80)];
    assert_eq!(
        run(&before, &after, 20),
        vec![report(&before[1], DiagnosticLevel::Error, DiagnosticKind::Removed(NR12, 0xF0))]
    );
}

#[test]
fn value_change() {
    let before = [access(1, 4, NR12, 0xF0)];
    let after = [access(1, 4, NR12, 0xA0)];
    assert_eq!(
        run(&before, &after, 20),
        vec![report(&after[0], DiagnosticLevel::Error, DiagnosticKind::OtherValue(NR12, 0xF0, 0xA0))]
    );
}

#[test]
fn register_change() {
    let before = [access(1, 4, NR12, 0xF0)];
    let after = [access(1, 6, NR13, 0xF0)];
    assert_eq!(
        run(&before, &after, 20),
        vec![report(&after[0], DiagnosticLevel::Error, DiagnosticKind::OtherReg(NR12, 0xF0, NR13))]
    );
}

#[test]
fn lookahead_pairs_the_following_writes() {
    // Before writes (A,1),(B,2); after writes (C,3),(B,2). Nothing of the
    // first pair matches, no next write matches the other side's current one,
    // and the earlier of the two is reported first.
    let before = [access(1, 4, NR11, 1), access(1, 12, NR12, 2)];
    let after = [access(1, 6, NR13, 3), access(1, 12, NR12, 2)];
    assert_eq!(
        run(&before, &after, 20),
        vec![
            report(&before[0], DiagnosticLevel::Error, DiagnosticKind::Removed(NR11, 1)),
            report(&after[0], DiagnosticLevel::Error, DiagnosticKind::Added(NR13, 3)),
        ]
    );
}

#[test]
fn lookahead_takes_the_before_write_for_extra() {
    // The write after the current "before" one goes to the register of the
    // current "after" one: the current "before" write is the odd one out,
    // though it comes later in the tick.
    let before = [access(1, 9, NR11, 1), access(1, 12, NR12, 2)];
    let after = [access(1, 6, NR12, 3)];
    assert_eq!(
        run(&before, &after, 20),
        vec![
            report(&before[0], DiagnosticLevel::Error, DiagnosticKind::Removed(NR11, 1)),
            report(&after[0], DiagnosticLevel::Error, DiagnosticKind::OtherValue(NR12, 2, 3)),
        ]
    );
}

#[test]
fn lookahead_takes_the_after_write_for_extra() {
    let before = [access(1, 6, NR12, 3)];
    let after = [access(1, 2, NR11, 1), access(1, 12, NR12, 2)];
    assert_eq!(
        run(&before, &after, 20),
        vec![
            report(&after[0], DiagnosticLevel::Error, DiagnosticKind::Added(NR11, 1)),
            report(&after[1], DiagnosticLevel::Error, DiagnosticKind::OtherValue(NR12, 3, 2)),
        ]
    );
}

#[test]
fn lookahead_prefers_the_before_side() {
    // Both next writes match: the "before" write is reported.
    let before = [access(1, 6, NR11, 1), access(1, 8, NR12, 2)];
    let after = [access(1, 6, NR12, 3), access(1, 8, NR11, 4)];
    let found = run(&before, &after, 20);
    assert_eq!(
        found[0],
        report(&before[0], DiagnosticLevel::Error, DiagnosticKind::Removed(NR11, 1))
    );
}

#[test]
fn ties_in_cycle_report_the_after_write() {
    let before = [access(1, 6, NR11, 1)];
    let after = [access(1, 6, NR12, 3)];
    assert_eq!(
        run(&before, &after, 20),
        vec![
            report(&after[0], DiagnosticLevel::Error, DiagnosticKind::Added(NR12, 3)),
            report(&before[0], DiagnosticLevel::Error, DiagnosticKind::Removed(NR11, 1)),
        ]
    );
}

#[test]
fn writes_of_different_ticks_are_never_paired() {
    let before = [access(1, 4, NR12, 0xF0), access(3, 4, NR12, 0xF0)];
    let after = [access(2, 4, NR12, 0xF0), access(3, 4, NR12, 0xF0)];
    assert_eq!(
        run(&before, &after, 20),
        vec![
            report(&before[0], DiagnosticLevel::Error, DiagnosticKind::Removed(NR12, 0xF0)),
            report(&after[0], DiagnosticLevel::Error, DiagnosticKind::Added(NR12, 0xF0)),
        ]
    );
}

#[test]
fn swapping_the_logs_mirrors_the_reports() {
    let before = [
        access(1, 4, NR11, 0x80),
        access(1, 9, NR12, 0xF0),
        access(2, 3, NR13, 0x10),
        access(2, 8, NR50, 0x77),
        access(4, 1, NR52, 0x80),
    ];
    let after = [
        access(1, 4, NR11, 0x80),
        access(1, 19, NR12, 0xF0),
        access(2, 3, NR13, 0x11),
        access(2, 8, NR52, 0x77),
        access(3, 1, NR52, 0x80),
    ];
    let there = run(&before, &after, 5);
    let back = run(&after, &before, 5);
    assert_eq!(there.len(), 5);
    assert_eq!(there.len(), back.len());
    for (d, e) in there.iter().zip(back.iter()) {
        assert_eq!(d.level, e.level);
        assert_eq!(d.when.tick, e.when.tick);
        let mirrored = match e.kind {
            DiagnosticKind::Removed(addr, data) => DiagnosticKind::Added(addr, data),
            DiagnosticKind::Added(addr, data) => DiagnosticKind::Removed(addr, data),
            DiagnosticKind::Moved(addr, data, delta) => DiagnosticKind::Moved(addr, data, -delta),
            DiagnosticKind::OtherValue(addr, x, y) => DiagnosticKind::OtherValue(addr, y, x),
            DiagnosticKind::OtherReg(x, data, y) => DiagnosticKind::OtherReg(y, data, x),
        };
        assert_eq!(d.kind, mirrored);
    }
    assert_eq!(there[0].kind, DiagnosticKind::Moved(NR12, 0xF0, 10));
    assert_eq!(there[0].level, DiagnosticLevel::Error);
    assert_eq!(there[1].kind, DiagnosticKind::OtherValue(NR13, 0x10, 0x11));
    assert_eq!(there[2].kind, DiagnosticKind::OtherReg(NR50, 0x77, NR52));
    assert_eq!(there[2].when, after[3].when);
    assert_eq!(there[3].kind, DiagnosticKind::Added(NR52, 0x80));
    assert_eq!(there[3].when.tick, 3);
    assert_eq!(there[4].kind, DiagnosticKind::Removed(NR52, 0x80));
    assert_eq!(there[4].when.tick, 4);
}

#[test]
fn next_hands_out_one_report_at_a_time() {
    let before = [access(1, 4, NR11, 0x80), access(2, 4, NR12, 0x01)];
    let after = [access(1, 4, NR11, 0x80), access(2, 4, NR12, 0x02), access(5, 0, NR13, 0)];
    let mut walker = DiffGenerator::new(&before, &after, 20);
    assert_eq!(
        walker.next(),
        Some(report(&after[1], DiagnosticLevel::Error, DiagnosticKind::OtherValue(NR12, 1, 2)))
    );
    assert_eq!(
        walker.next(),
        Some(report(&after[2], DiagnosticLevel::Error, DiagnosticKind::Added(NR13, 0)))
    );
    assert_eq!(walker.next(), None);
    assert_eq!(walker.next(), None);
}

#[test]
fn into_vec_gives_what_is_left() {
    let before = [access(1, 4, NR11, 0x80), access(2, 4, NR12, 0x01)];
    let after = [access(1, 5, NR11, 0x80)];
    let mut walker = DiffGenerator::new(&before, &after, 20);
    assert!(walker.next().is_some());
    assert_eq!(
        walker.into_vec(),
        vec![report(&before[1], DiagnosticLevel::Error, DiagnosticKind::Removed(NR12, 1))]
    );
}

#[test]
fn diagnose_stamps_with_the_access() {
    let at = access(7, 33, NR50, 0x12);
    assert_eq!(
        diagnose(&at, DiagnosticLevel::Warning, DiagnosticKind::Added(NR50, 0x12)),
        Some(Diagnostic {
            when: Timestamp { tick: 7, cycle: 33 },
            pc: Address(1, 0x4100),
            level: DiagnosticLevel::Warning,
            kind: DiagnosticKind::Added(NR50, 0x12),
        })
    );
}
