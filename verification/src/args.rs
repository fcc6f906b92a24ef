//! Reading the options that a caller gives as text.

use vstd::prelude::*;
use vstd::string::{StrSliceExecFns, StringExecFns};
use crate::diag::DiagnosticLevel;
use crate::text::{
    char_from, cut_spaces, eq_ignore_ascii_case, find_char, hex_u16, hex_u8, hex_up_to,
    same_but_for_case, skip_spaces, trim_end, trim_start,
};
use std::num::ParseIntError;

verus! {

/// The sentence in which the standard library says what is wrong with a
/// number.
pub uninterp spec fn int_error_text(err: ParseIntError) -> Seq<char>;

/// `format!` of `lead` and then `err`. Trusted: the text is `lead` followed
/// by what `ParseIntError` displays, which `int_error_text` names.
#[verifier::external_body]
fn with_int_error(lead: &str, err: &ParseIntError) -> (r: String)
    ensures
        r@ == lead@ + int_error_text(*err),
{
    format!("{}{}", lead, err)
}

/// The level that `s` names, whatever the case of its letters.
pub open spec fn level_named(s: Seq<char>) -> Option<DiagnosticLevel> {
    if same_but_for_case(s, "error"@) {
        Some(DiagnosticLevel::Error)
    } else if same_but_for_case(s, "warning"@) {
        Some(DiagnosticLevel::Warning)
    } else if same_but_for_case(s, "note"@) {
        Some(DiagnosticLevel::Note)
    } else {
        None
    }
}

impl DiagnosticLevel {
    /// The level that `s` names, whatever the case of its letters.
    pub fn parse(s: &str) -> (r: Result<Self, &'static str>)
        ensures
            match r {
                Ok(level) => level_named(s@) == Some(level),
                Err(message) => level_named(s@) is None && message@
                    == "unknown diagnostic level"@,
            },
    {
        if eq_ignore_ascii_case(s, "error") {
            Ok(DiagnosticLevel::Error)
        } else if eq_ignore_ascii_case(s, "warning") {
            Ok(DiagnosticLevel::Warning)
        } else if eq_ignore_ascii_case(s, "note") {
            Ok(DiagnosticLevel::Note)
        } else {
            Err("unknown diagnostic level")
        }
    }
}

impl std::str::FromStr for DiagnosticLevel {
    type Err = &'static str;

    fn from_str(s: &str) -> (r: Result<Self, Self::Err>)
        ensures
            match r {
                Ok(level) => level_named(s@) == Some(level),
                Err(message) => level_named(s@) is None && message@
                    == "unknown diagnostic level"@,
            },
    {
        DiagnosticLevel::parse(s)
    }
}

/// Whose diagnostics of the simulation are shown beside the comparison.
#[derive(Debug, Clone, Copy, PartialEq, Eq, Structural)]
pub enum BeforeOrAfter {
    Before,
    After,
    /// Nobody's.
    Neither,
}

/// The side that `s` names, whatever the case of its letters.
pub open spec fn side_named(s: Seq<char>) -> Option<BeforeOrAfter> {
    if same_but_for_case(s, "before"@) {
        Some(BeforeOrAfter::Before)
    } else if same_but_for_case(s, "after"@) {
        Some(BeforeOrAfter::After)
    } else if same_but_for_case(s, "none"@) {
        Some(BeforeOrAfter::Neither)
    } else {
        None
    }
}

impl BeforeOrAfter {
    /// The side that `s` names, whatever the case of its letters.
    pub fn parse(s: &str) -> (r: Result<Self, &'static str>)
        ensures
            match r {
                Ok(side) => side_named(s@) == Some(side),
                Err(message) => side_named(s@) is None && message@
                    == "must be either \"before\" or \"after\""@,
            },
    {
        if eq_ignore_ascii_case(s, "before") {
            Ok(BeforeOrAfter::Before)
        } else if eq_ignore_ascii_case(s, "after") {
            Ok(BeforeOrAfter::After)
        } else if eq_ignore_ascii_case(s, "none") {
            Ok(BeforeOrAfter::Neither)
        } else {
            Err("must be either \"before\" or \"after\"")
        }
    }
}

impl std::str::FromStr for BeforeOrAfter {
    type Err = &'static str;

    fn from_str(s: &str) -> (r: Result<Self, Self::Err>)
        ensures
            match r {
                Ok(side) => side_named(s@) == Some(side),
                Err(message) => side_named(s@) is None && message@
                    == "must be either \"before\" or \"after\""@,
            },
    {
        BeforeOrAfter::parse(s)
    }
}

/// What is wrong with a watch.
pub enum WatchFault {
    /// There is no `=`.
    NoEquals,
    /// What stands before the `=` is no hexadecimal number of 16 bits.
    BadAddress,
    /// What stands behind the `=` is no hexadecimal number of 8 bits.
    BadValue,
}

/// `from..to` of `s` without the white space at both ends.
pub open spec fn trimmed(s: Seq<char>, from: int, to: int) -> Seq<char> {
    let start = skip_spaces(s, from, to);
    s.subrange(start, cut_spaces(s, start, to))
}

/// The watch that `s` says: an address and a value in hexadecimal, with the
/// first `=` between them and white space around each as one likes.
pub open spec fn watch_said(s: Seq<char>) -> Result<(u16, u8), WatchFault> {
    let len = s.len() as int;
    let eq = char_from(s, '=', 0);
    let addr = hex_up_to(trimmed(s, 0, eq), u16::MAX as nat);
    let value = hex_up_to(trimmed(s, eq + 1, len), u8::MAX as nat);
    if eq >= len {
        Err(WatchFault::NoEquals)
    } else if addr is None {
        Err(WatchFault::BadAddress)
    } else if value is None {
        Err(WatchFault::BadValue)
    } else {
        Ok((addr.unwrap() as u16, value.unwrap() as u8))
    }
}

/// Reads a watch of the form `ADDR=VALUE`, both in hexadecimal. What is
/// wrong with a watch that cannot be read comes back as a sentence.
pub fn parse_watch_arg(arg: &str) -> (r: Result<(u16, u8), String>)
    ensures
        match r {
            Ok(watch) => watch_said(arg@) == Ok::<(u16, u8), WatchFault>(watch),
            Err(message) => match watch_said(arg@) {
                Ok(_) => false,
                Err(WatchFault::NoEquals) => message@
                    == "expected \"ADDR=VALUE\", e.g. \"CAFE=2A\""@,
                Err(WatchFault::BadAddress) => exists|err: ParseIntError|
                    message@ == "invalid address: "@ + int_error_text(err),
                Err(WatchFault::BadValue) => exists|err: ParseIntError|
                    message@ == "invalid value: "@ + int_error_text(err),
            },
        },
{
    let len: usize = arg.unicode_len();
    let eq: usize = find_char(arg, '=', 0, len);
    if eq >= len {
        return Err(String::from_str("expected \"ADDR=VALUE\", e.g. \"CAFE=2A\""));
    }
    let addr_start: usize = trim_start(arg, 0, eq);
    let addr_end: usize = trim_end(arg, addr_start, eq);
    let addr: u16 = match hex_u16(arg.substring_char(addr_start, addr_end)) {
        Ok(addr) => addr,
        Err(err) => {
            return Err(with_int_error("invalid address: ", &err));
        },
    };
    let value_start: usize = trim_start(arg, eq + 1, len);
    let value_end: usize = trim_end(arg, value_start, len);
    let value: u8 = match hex_u8(arg.substring_char(value_start, value_end)) {
        Ok(value) => value,
        Err(err) => {
            return Err(with_int_error("invalid value: ", &err));
        },
    };
    Ok((addr, value))
}

/// Whether to use colours, as `s` says it: `Some(None)` leaves it to the
/// terminal.
pub open spec fn color_said(s: Seq<char>) -> Option<Option<bool>> {
    if same_but_for_case(s, "auto"@) {
        Some(None)
    } else if same_but_for_case(s, "always"@) {
        Some(Some(true))
    } else if same_but_for_case(s, "never"@) {
        Some(Some(false))
    } else {
        None
    }
}

/// Reads whether to use colours: `auto`, `always` or `never`, whatever the
/// case of the letters.
pub fn parse_color_arg(arg: &str) -> (r: Result<Option<bool>, String>)
    ensures
        match r {
            Ok(choice) => color_said(arg@) == Some(choice),
            Err(message) => color_said(arg@) is None && message@
                == "expected \"auto\", \"always\", or \"never\""@,
        },
{
    if eq_ignore_ascii_case(arg, "auto") {
        Ok(None)
    } else if eq_ignore_ascii_case(arg, "always") {
        Ok(Some(true))
    } else if eq_ignore_ascii_case(arg, "never") {
        Ok(Some(false))
    } else {
        Err(String::from_str("expected \"auto\", \"always\", or \"never\""))
    }
}

} // verus!
