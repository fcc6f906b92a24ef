use gbsdiff::diff::{DiagnosticKind as DiffKind, DiffGenerator};
use gbsdiff::report::{mix, Line};
use gbsdiff::run::{DiagnosticKind as SimKind, IoAccess};
use gbsdiff::{Address, Diagnostic, DiagnosticLevel, Timestamp};

fn access(tick: u64, cycle: u16, addr: u16, data: u8) -> IoAccess {
    IoAccess { when: Timestamp { tick, cycle }, pc: Address(1, 0x4100), addr, data }
}

fn remark(tick: u64, cycle: u16) -> Diagnostic<SimKind> {
    Diagnostic {
        when: Timestamp { tick, cycle },
        pc: Address(1, 0x4200),
        level: DiagnosticLevel::Warning,
        kind: SimKind::TooLong(cycle, 1),
    }
}

fn added(at: &IoAccess) -> Line {
    Line::Diff(Diagnostic {
        when: at.when,
        pc: at.pc,
        level: DiagnosticLevel::Error,
        kind: DiffKind::Added(at.addr, at.data),
    })
}

#[test]
fn nothing_found_is_ok() {
    let log = [access(1, 2, 0xFF26, 0x80)];
    let report = mix(DiffGenerator::new(&log, &log, 20), None, DiagnosticLevel::Note, 1000);
    assert!(report.ok);
    assert!(report.lines.is_empty());
}

#[test]
fn without_findings_the_diagnostics_are_listed_by_tick() {
    let side = [remark(0, 5), remark(0, 9), remark(2, 1)];
    let report = mix(DiffGenerator::new(&[], &[], 20), Some(&side), DiagnosticLevel::Note, 1000);
    assert!(report.ok);
    assert_eq!(
        report.lines,
        vec![
            Line::Tick(0),
            Line::Side(remark(0, 5)),
            Line::Side(remark(0, 9)),
            Line::Tick(2),
            Line::Side(remark(2, 1)),
        ]
    );
}

#[test]
fn findings_come_under_the_heading_of_their_tick() {
    let after = [access(1, 2, 0xFF26, 0x80), access(1, 7, 0xFF24, 0x77), access(3, 2, 0xFF26, 0)];
    let report = mix(DiffGenerator::new(&[], &after, 20), None, DiagnosticLevel::Note, 1000);
    assert!(!report.ok);
    assert_eq!(
        report.lines,
        vec![
            Line::Tick(1),
            added(&after[0]),
            added(&after[1]),
            Line::Tick(3),
            added(&after[2]),
        ]
    );
}

#[test]
fn diagnostics_before_the_first_finding_wait_for_the_end() {
    // Before the first heading nothing of the simulation is shown; what is
    // left at the end comes last.
    let after = [access(5, 2, 0xFF26, 0x80)];
    let side = [remark(1, 4)];
    let report = mix(DiffGenerator::new(&[], &after, 20), Some(&side), DiagnosticLevel::Note, 1000);
    assert_eq!(
        report.lines,
        vec![Line::Tick(5), added(&after[0]), Line::Tick(1), Line::Side(remark(1, 4))]
    );
}

#[test]
fn diagnostics_catch_up_when_the_tick_changes() {
    let after = [access(2, 2, 0xFF26, 0x80), access(4, 2, 0xFF26, 0x81)];
    let side = [remark(2, 9), remark(3, 1), remark(6, 1)];
    let report = mix(DiffGenerator::new(&[], &after, 20), Some(&side), DiagnosticLevel::Note, 1000);
    assert!(!report.ok);
    assert_eq!(
        report.lines,
        vec![
            Line::Tick(2),
            added(&after[0]),
            Line::Side(remark(2, 9)),
            Line::Tick(3),
            Line::Side(remark(3, 1)),
            Line::Tick(6),
            Line::Side(remark(6, 1)),
            Line::Tick(4),
            added(&after[1]),
        ]
    );
}

#[test]
fn the_report_stops_at_the_limit() {
    let after = [
        access(1, 2, 0xFF26, 1),
        access(1, 3, 0xFF26, 2),
        access(1, 4, 0xFF26, 3),
    ];
    let side = [remark(1, 1)];
    let report = mix(DiffGenerator::new(&[], &after, 20), Some(&side), DiagnosticLevel::Note, 2);
    assert!(!report.ok);
    assert_eq!(
        report.lines,
        vec![Line::Tick(1), added(&after[0]), added(&after[1]), Line::Stopped]
    );
    let report = mix(DiffGenerator::new(&[], &after, 20), Some(&side), DiagnosticLevel::Note, 4);
    assert_eq!(
        report.lines,
        vec![
            Line::Tick(1),
            added(&after[0]),
            added(&after[1]),
            added(&after[2]),
            Line::Side(remark(1, 1)),
            Line::Stopped,
        ]
    );
}

#[test]
fn the_report_can_stop_on_a_diagnostic() {
    let after = [access(1, 2, 0xFF26, 1), access(2, 3, 0xFF26, 2)];
    let side = [remark(1, 1), remark(1, 2)];
    let report = mix(DiffGenerator::new(&[], &after, 20), Some(&side), DiagnosticLevel::Note, 2);
    assert_eq!(
        report.lines,
        vec![Line::Tick(1), added(&after[0]), Line::Side(remark(1, 1)), Line::Stopped]
    );
}

#[test]
fn a_limit_of_zero_never_stops_the_report() {
    let after = [access(1, 2, 0xFF26, 1), access(1, 3, 0xFF26, 2)];
    let side = [remark(1, 1)];
    let report = mix(DiffGenerator::new(&[], &after, 20), Some(&side), DiagnosticLevel::Note, 0);
    assert_eq!(
        report.lines,
        vec![Line::Tick(1), added(&after[0]), added(&after[1]), Line::Side(remark(1, 1))]
    );
    // With nothing found, though, the count stands at the limit from the
    // start, and the diagnostics are left out.
    let report = mix(DiffGenerator::new(&[], &[], 20), Some(&side), DiagnosticLevel::Note, 0);
    assert!(report.ok);
    assert!(report.lines.is_empty());
}

#[test]
fn findings_below_the_threshold_are_left_out() {
    let before = [access(1, 10, 0xFF13, 0x40), access(2, 1, 0xFF12, 1)];
    let after = [access(1, 12, 0xFF13, 0x40), access(2, 1, 0xFF12, 2)];
    let report =
        mix(DiffGenerator::new(&before, &after, 20), None, DiagnosticLevel::Warning, 1000);
    assert!(!report.ok);
    assert_eq!(report.lines.len(), 2);
    assert_eq!(report.lines[0], Line::Tick(2));
    // A move within the jitter is a note: under a threshold of warnings
    // nothing is found.
    let report =
        mix(DiffGenerator::new(&before[..1], &after[..1], 20), None, DiagnosticLevel::Warning, 1000);
    assert!(report.ok);
    assert!(report.lines.is_empty());
    let report =
        mix(DiffGenerator::new(&before[..1], &after[..1], 20), None, DiagnosticLevel::Note, 1000);
    assert!(!report.ok);
    assert_eq!(report.lines.len(), 2);
}

#[test]
fn a_walker_under_way_reports_what_is_left() {
    let after = [access(1, 2, 0xFF26, 1), access(1, 3, 0xFF26, 2)];
    let mut walker = DiffGenerator::new(&[], &after, 20);
    assert_eq!(walker.position(), (0, 0));
    walker.next();
    assert_eq!(walker.position(), (0, 1));
    let report = mix(walker, None, DiagnosticLevel::Note, 1000);
    assert_eq!(report.lines, vec![Line::Tick(1), added(&after[1])]);
}
