use gbsdiff::args::{parse_color_arg, parse_watch_arg, BeforeOrAfter};
use gbsdiff::DiagnosticLevel;
use std::str::FromStr;

#[test]
fn levels_by_name() {
    assert_eq!(DiagnosticLevel::parse("error"), Ok(DiagnosticLevel::Error));
    assert_eq!(DiagnosticLevel::parse("Warning"), Ok(DiagnosticLevel::Warning));
    assert_eq!(DiagnosticLevel::parse("NOTE"), Ok(DiagnosticLevel::Note));
    assert_eq!(DiagnosticLevel::parse("notes"), Err("unknown diagnostic level"));
    assert_eq!(DiagnosticLevel::parse(""), Err("unknown diagnostic level"));
    assert_eq!(DiagnosticLevel::parse(" note"), Err("unknown diagnostic level"));
    assert_eq!(DiagnosticLevel::from_str("wArNiNg"), Ok(DiagnosticLevel::Warning));
    assert_eq!("error".parse::<DiagnosticLevel>(), Ok(DiagnosticLevel::Error));
    assert_eq!("fatal".parse::<DiagnosticLevel>(), Err("unknown diagnostic level"));
}

#[test]
fn sides_by_name() {
    assert_eq!(BeforeOrAfter::parse("before"), Ok(BeforeOrAfter::Before));
    assert_eq!(BeforeOrAfter::parse("AFTER"), Ok(BeforeOrAfter::After));
    assert_eq!(BeforeOrAfter::parse("None"), Ok(BeforeOrAfter::Neither));
    assert_eq!(
        BeforeOrAfter::parse("both"),
        Err("must be either \"before\" or \"after\"")
    );
    assert_eq!("after".parse::<BeforeOrAfter>(), Ok(BeforeOrAfter::After));
}

#[test]
fn a_watch() {
    assert_eq!(parse_watch_arg("CAFE=2A"), Ok((0xCAFE, 0x2A)));
    assert_eq!(parse_watch_arg("c000=0"), Ok((0xC000, 0)));
    assert_eq!(parse_watch_arg("  c000 =\t7f "), Ok((0xC000, 0x7F)));
    assert_eq!(parse_watch_arg("+ff=+1"), Ok((0xFF, 1)));
}

#[test]
fn a_watch_that_cannot_be_read() {
    assert_eq!(
        parse_watch_arg("CAFE"),
        Err("expected \"ADDR=VALUE\", e.g. \"CAFE=2A\"".to_string())
    );
    assert_eq!(
        parse_watch_arg(""),
        Err("expected \"ADDR=VALUE\", e.g. \"CAFE=2A\"".to_string())
    );
    let empty = u16::from_str_radix("", 16).unwrap_err();
    let digit = u16::from_str_radix("x", 16).unwrap_err();
    let large = u16::from_str_radix("10000", 16).unwrap_err();
    assert_eq!(parse_watch_arg("=2A"), Err(format!("invalid address: {}", empty)));
    assert_eq!(parse_watch_arg("  =2A"), Err(format!("invalid address: {}", empty)));
    assert_eq!(parse_watch_arg("wxyz=2A"), Err(format!("invalid address: {}", digit)));
    assert_eq!(parse_watch_arg("c0 00=2A"), Err(format!("invalid address: {}", digit)));
    assert_eq!(parse_watch_arg("10000=2A"), Err(format!("invalid address: {}", large)));
    assert_eq!(parse_watch_arg("CAFE="), Err(format!("invalid value: {}", empty)));
    assert_eq!(parse_watch_arg("CAFE=2A=3"), Err(format!("invalid value: {}", digit)));
    assert_eq!(parse_watch_arg("CAFE=100"), Err(format!("invalid value: {}", large)));
    // The address is looked at first.
    assert_eq!(parse_watch_arg("zz=zz"), Err(format!("invalid address: {}", digit)));
}

#[test]
fn colours() {
    assert_eq!(parse_color_arg("auto"), Ok(None));
    assert_eq!(parse_color_arg("Always"), Ok(Some(true)));
    assert_eq!(parse_color_arg("NEVER"), Ok(Some(false)));
    assert_eq!(
        parse_color_arg("sometimes"),
        Err("expected \"auto\", \"always\", or \"never\"".to_string())
    );
}
