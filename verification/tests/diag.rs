use gbsdiff::{Address, DiagnosticLevel, Timestamp};

#[test]
fn levels_are_ordered_by_severity() {
    assert!(DiagnosticLevel::Error < DiagnosticLevel::Warning);
    assert!(DiagnosticLevel::Warning < DiagnosticLevel::Note);
    assert_eq!(DiagnosticLevel::Error.rank(), 0);
    assert_eq!(DiagnosticLevel::Warning.rank(), 1);
    assert_eq!(DiagnosticLevel::Note.rank(), 2);
}

#[test]
fn a_level_passes_under_a_threshold_that_is_not_more_severe() {
    let levels = [DiagnosticLevel::Error, DiagnosticLevel::Warning, DiagnosticLevel::Note];
    for level in levels {
        for max in levels {
            assert_eq!(level.passes(max), level <= max);
        }
    }
    assert!(DiagnosticLevel::Error.passes(DiagnosticLevel::Error));
    assert!(!DiagnosticLevel::Note.passes(DiagnosticLevel::Warning));
}

#[test]
fn timestamps_order_by_tick_then_cycle() {
    let early = Timestamp { tick: 1, cycle: 900 };
    let late = Timestamp { tick: 2, cycle: 3 };
    assert!(early.not_after(&late));
    assert!(!late.not_after(&early));
    assert!(early.not_after(&early));
    let later_in_tick = Timestamp { tick: 1, cycle: 901 };
    assert!(early.not_after(&later_in_tick));
    assert!(!later_in_tick.not_after(&early));
}

#[test]
fn the_bank_counts_in_the_banked_window_only() {
    assert_eq!(Address(5, 0x3FFF).shown_bank(), 0);
    assert_eq!(Address(5, 0x4000).shown_bank(), 5);
    assert_eq!(Address(5, 0x7FFF).shown_bank(), 5);
    assert_eq!(Address(5, 0x8000).shown_bank(), 0);
}
