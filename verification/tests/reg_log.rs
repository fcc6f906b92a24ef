use gbsdiff::reg_log::{LineFault, Reg, RegLog, RegWrite, RegWriteParseErr};
use gbsdiff::text::is_space;

fn parsed(line: &str) -> Option<RegWrite> {
    RegWrite::try_parse(line).unwrap()
}

fn fault(line: &str) -> LineFault {
    RegWrite::try_parse(line).unwrap_err().fault()
}

#[test]
fn a_plain_line() {
    assert_eq!(parsed("10 ff26=80"), Some(RegWrite { delta: 0x10, reg: Reg::Nr52, value: 0x80 }));
    assert_eq!(parsed("0 FF04=0"), Some(RegWrite { delta: 0, reg: Reg::Div, value: 0 }));
    assert_eq!(
        parsed("ffffffff ff3f=ff"),
        Some(RegWrite { delta: u32::MAX, reg: Reg::WaveF, value: 0xFF })
    );
}

#[test]
fn white_space_around_the_parts() {
    assert_eq!(
        parsed("1f\tff30 = 0a "),
        Some(RegWrite { delta: 0x1F, reg: Reg::Wave0, value: 0x0A })
    );
    assert_eq!(
        parsed("1\u{3000}ff11\u{A0}=\u{2003}3\n"),
        Some(RegWrite { delta: 1, reg: Reg::Nr11, value: 3 })
    );
}

#[test]
fn a_plus_sign_and_leading_zeros_are_numbers() {
    assert_eq!(
        parsed("+0010 +00ff26=+080"),
        Some(RegWrite { delta: 0x10, reg: Reg::Nr52, value: 0x80 })
    );
    assert_eq!(parsed("000000000 0ff26=000"), Some(RegWrite { delta: 0, reg: Reg::Nr52, value: 0 }));
}

#[test]
fn a_register_that_no_log_names_gives_nothing() {
    assert_eq!(parsed("10 ff00=1"), None);
    assert_eq!(parsed("10 ff15=1"), None);
    assert_eq!(parsed("10 ff27=1"), None);
    assert_eq!(parsed("10 0=1"), None);
}

#[test]
fn no_white_space() {
    assert_eq!(fault("10ff26=80"), LineFault::NoWhitespace);
    assert_eq!(fault(""), LineFault::NoWhitespace);
    assert!(matches!(RegWrite::try_parse("x"), Err(RegWriteParseErr::NoWhitespace)));
}

#[test]
fn bad_delta() {
    assert_eq!(fault("xyz ff26=80"), LineFault::BadDelta);
    assert_eq!(fault("100000000 ff26=80"), LineFault::BadDelta);
    assert_eq!(fault("-1 ff26=80"), LineFault::BadDelta);
    assert_eq!(fault("+ ff26=80"), LineFault::BadDelta);
    assert_eq!(fault("1_0 ff26=80"), LineFault::BadDelta);
    // White space before the delta is where the line is split.
    assert_eq!(fault(" 10 ff26=80"), LineFault::BadDelta);
    assert!(matches!(RegWrite::try_parse("g ff26=80"), Err(RegWriteParseErr::BadDelta(_))));
}

#[test]
fn bad_write() {
    assert_eq!(fault("10 ff26"), LineFault::BadWrite);
    assert_eq!(fault("10 "), LineFault::BadWrite);
    // The `=` has to come behind the white space.
    assert_eq!(fault("1=0 ff26"), LineFault::BadDelta);
    assert!(matches!(RegWrite::try_parse("10 ff26 80"), Err(RegWriteParseErr::BadWrite)));
}

#[test]
fn bad_register() {
    assert_eq!(fault("10 10000=1"), LineFault::BadReg);
    assert_eq!(fault("10 =1"), LineFault::BadReg);
    assert_eq!(fault("10 nr52=1"), LineFault::BadReg);
    // Only white space behind the register is cut off.
    assert_eq!(fault("10  ff26=80"), LineFault::BadReg);
    assert!(matches!(RegWrite::try_parse("10 ff 26=1"), Err(RegWriteParseErr::BadReg(_))));
}

#[test]
fn bad_value() {
    assert_eq!(fault("10 ff26=100"), LineFault::BadValue);
    assert_eq!(fault("10 ff26="), LineFault::BadValue);
    assert_eq!(fault("10 ff26=  "), LineFault::BadValue);
    assert_eq!(fault("10 ff26=8 0"), LineFault::BadValue);
    assert_eq!(fault("10 ff26=80=1"), LineFault::BadValue);
    // A bad value is found even where the register is none that a log names.
    assert_eq!(fault("10 ff00=zz"), LineFault::BadValue);
    assert!(matches!(RegWrite::try_parse("10 ff26=0x80"), Err(RegWriteParseErr::BadValue(_))));
}

#[test]
fn the_parts_are_checked_in_order() {
    assert_eq!(fault("zz nothing"), LineFault::BadDelta);
    assert_eq!(fault("10 zz=zz"), LineFault::BadReg);
}

#[test]
fn the_standard_error_is_handed_on() {
    match RegWrite::try_parse("10 ff26=100") {
        Err(RegWriteParseErr::BadValue(err)) => {
            assert_eq!(err, u8::from_str_radix("100", 16).unwrap_err())
        }
        other => panic!("unexpected: {:?}", other),
    }
    match RegWrite::try_parse("10 =1") {
        Err(RegWriteParseErr::BadReg(err)) => {
            assert_eq!(err, u16::from_str_radix("", 16).unwrap_err())
        }
        other => panic!("unexpected: {:?}", other),
    }
}

#[test]
fn registers_and_their_addresses() {
    assert_eq!(Reg::Div.addr(), 0xFF04);
    assert_eq!(Reg::Nr10.addr(), 0xFF10);
    assert_eq!(Reg::Nr21.addr(), 0xFF16);
    assert_eq!(Reg::Nr52.addr(), 0xFF26);
    assert_eq!(Reg::Wave0.addr(), 0xFF30);
    assert_eq!(Reg::WaveA.addr(), 0xFF3A);
    assert_eq!(Reg::WaveF.addr(), 0xFF3F);
    let mut found = 0;
    for addr in 0..=0xFFFFu16 {
        match Reg::from_discriminant(addr) {
            Ok(reg) => {
                assert_eq!(reg.addr(), addr);
                found += 1;
            }
            Err(back) => assert_eq!(back, addr),
        }
    }
    assert_eq!(found, 38);
    assert_eq!(Reg::from_discriminant(0xFF15), Err(0xFF15));
    assert_eq!(Reg::from_discriminant(0xFF1A), Ok(Reg::Nr30));
}

#[test]
fn white_space_is_what_the_standard_library_takes_for_it() {
    for code in 0..=0x11_0000u32 {
        if let Some(c) = char::from_u32(code) {
            assert_eq!(is_space(c), c.is_whitespace(), "U+{:04X}", code);
        }
    }
}

#[test]
fn write_info_and_log() {
    let write = RegWrite { delta: 5, reg: Reg::Nr12, value: 0xF0 };
    assert_eq!(write.write_info(), (Reg::Nr12, 0xF0));
    let log = RegLog::new(vec![write, RegWrite { delta: 1, reg: Reg::Nr14, value: 0x80 }]);
    assert_eq!(log.writes.len(), 2);
    assert_eq!(log.writes[1].write_info(), (Reg::Nr14, 0x80));
}
