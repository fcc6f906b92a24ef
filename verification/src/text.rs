//! Reading and writing numbers and words as text.

use vstd::prelude::*;
use vstd::string::{StrSliceExecFns, StringExecFns};
use std::num::ParseIntError;

verus! {

/// The error of the standard library's integer parsing. Nothing is known of
/// what is inside.
#[verifier::external_type_specification]
#[verifier::external_body]
pub struct ExParseIntError(ParseIntError);

/// A character with the Unicode property `White_Space`.
pub open spec fn spec_is_space(c: char) -> bool {
    ||| '\u{9}' <= c <= '\u{D}'
    ||| c == ' '
    ||| c == '\u{85}'
    ||| c == '\u{A0}'
    ||| c == '\u{1680}'
    ||| '\u{2000}' <= c <= '\u{200A}'
    ||| c == '\u{2028}'
    ||| c == '\u{2029}'
    ||| c == '\u{202F}'
    ||| c == '\u{205F}'
    ||| c == '\u{3000}'
}

/// Whether `c` has the Unicode property `White_Space`.
#[verifier::when_used_as_spec(spec_is_space)]
pub fn is_space(c: char) -> (r: bool)
    ensures
        r == spec_is_space(c),
{
    ('\u{9}' <= c && c <= '\u{D}') || c == ' ' || c == '\u{85}' || c == '\u{A0}' || c
        == '\u{1680}' || ('\u{2000}' <= c && c <= '\u{200A}') || c == '\u{2028}' || c
        == '\u{2029}' || c == '\u{202F}' || c == '\u{205F}' || c == '\u{3000}'
}

/// The index of the first white space in `s` from `from` on; the length of
/// `s` if there is none.
pub open spec fn space_from(s: Seq<char>, from: int) -> int
    decreases s.len() - from,
{
    if from < 0 || from >= s.len() {
        s.len() as int
    } else if spec_is_space(s[from]) {
        from
    } else {
        space_from(s, from + 1)
    }
}

/// The index of the first `c` in `s` from `from` on; the length of `s` if
/// there is none.
pub open spec fn char_from(s: Seq<char>, c: char, from: int) -> int
    decreases s.len() - from,
{
    if from < 0 || from >= s.len() {
        s.len() as int
    } else if s[from] == c {
        from
    } else {
        char_from(s, c, from + 1)
    }
}

/// The index in `from..to` of the first character that is no white space;
/// `to` if there is none.
pub open spec fn skip_spaces(s: Seq<char>, from: int, to: int) -> int
    decreases to - from,
{
    if from < 0 || from >= to || to > s.len() {
        to
    } else if spec_is_space(s[from]) {
        skip_spaces(s, from + 1, to)
    } else {
        from
    }
}

/// The end of `from..to` once the white space at its end is cut off.
pub open spec fn cut_spaces(s: Seq<char>, from: int, to: int) -> int
    decreases to - from,
{
    if from < 0 || from >= to || to > s.len() {
        to
    } else if spec_is_space(s[to - 1]) {
        cut_spaces(s, from, to - 1)
    } else {
        to
    }
}

/// The value of a hexadecimal digit, in either case.
pub open spec fn hex_digit(c: char) -> Option<nat> {
    if '0' <= c <= '9' {
        Some((c as u32 - '0' as u32) as nat)
    } else if 'a' <= c <= 'f' {
        Some((c as u32 - 'a' as u32 + 10) as nat)
    } else if 'A' <= c <= 'F' {
        Some((c as u32 - 'A' as u32 + 10) as nat)
    } else {
        None
    }
}

/// The number that the hexadecimal digits of `s` spell; `None` if a
/// character of `s` is no digit. No digits spell zero.
pub open spec fn digits_value(s: Seq<char>) -> Option<nat>
    decreases s.len(),
{
    if s.len() == 0 {
        Some(0)
    } else {
        match (digits_value(s.drop_last()), hex_digit(s.last())) {
            (Some(value), Some(digit)) => Some(16 * value + digit),
            _ => None,
        }
    }
}

/// The number that `s` spells in hexadecimal: at least one digit, with a `+`
/// before them or not, and nothing else.
pub open spec fn hex_number(s: Seq<char>) -> Option<nat> {
    let digits = if s.len() > 0 && s[0] == '+' {
        s.drop_first()
    } else {
        s
    };
    if digits.len() == 0 {
        None
    } else {
        digits_value(digits)
    }
}

/// The number that `s` spells in hexadecimal, if it is at most `max`.
pub open spec fn hex_up_to(s: Seq<char>, max: nat) -> Option<nat> {
    match hex_number(s) {
        Some(value) if value <= max => Some(value),
        _ => None,
    }
}

/// `u32::from_str_radix` with the radix 16. Trusted: it succeeds on an
/// optional `+` and at least one hexadecimal digit whose value fits, and
/// gives that value; it fails on everything else.
#[verifier::external_body]
pub(crate) fn hex_u32(s: &str) -> (r: Result<u32, ParseIntError>)
    ensures
        match r {
            Ok(value) => hex_up_to(s@, u32::MAX as nat) == Some(value as nat),
            Err(_) => hex_up_to(s@, u32::MAX as nat) is None,
        },
{
    u32::from_str_radix(s, 16)
}

/// `u16::from_str_radix` with the radix 16. Trusted: as for `hex_u32`.
#[verifier::external_body]
pub(crate) fn hex_u16(s: &str) -> (r: Result<u16, ParseIntError>)
    ensures
        match r {
            Ok(value) => hex_up_to(s@, u16::MAX as nat) == Some(value as nat),
            Err(_) => hex_up_to(s@, u16::MAX as nat) is None,
        },
{
    u16::from_str_radix(s, 16)
}

/// `u8::from_str_radix` with the radix 16. Trusted: as for `hex_u32`.
#[verifier::external_body]
pub(crate) fn hex_u8(s: &str) -> (r: Result<u8, ParseIntError>)
    ensures
        match r {
            Ok(value) => hex_up_to(s@, u8::MAX as nat) == Some(value as nat),
            Err(_) => hex_up_to(s@, u8::MAX as nat) is None,
        },
{
    u8::from_str_radix(s, 16)
}

/// The index of the first white space in `s` from `from` on; the length of
/// `s` if there is none.
pub(crate) fn find_space(s: &str, from: usize, len: usize) -> (r: usize)
    requires
        len == s@.len(),
        from <= len,
    ensures
        r == space_from(s@, from as int),
        from <= r <= len,
{
    let mut at: usize = from;
    while at < len
        invariant
            len == s@.len(),
            from <= at <= len,
            space_from(s@, at as int) == space_from(s@, from as int),
        decreases len - at,
    {
        if is_space(s.get_char(at)) {
            return at;
        }
        at = at + 1;
    }
    at
}

/// The index of the first `c` in `s` from `from` on; the length of `s` if
/// there is none.
pub(crate) fn find_char(s: &str, c: char, from: usize, len: usize) -> (r: usize)
    requires
        len == s@.len(),
        from <= len,
    ensures
        r == char_from(s@, c, from as int),
        from <= r <= len,
{
    let mut at: usize = from;
    while at < len
        invariant
            len == s@.len(),
            from <= at <= len,
            char_from(s@, c, at as int) == char_from(s@, c, from as int),
        decreases len - at,
    {
        if s.get_char(at) == c {
            return at;
        }
        at = at + 1;
    }
    at
}

/// The start of `from..to` once the white space at its start is cut off.
pub(crate) fn trim_start(s: &str, from: usize, to: usize) -> (r: usize)
    requires
        from <= to <= s@.len(),
    ensures
        r == skip_spaces(s@, from as int, to as int),
        from <= r <= to,
{
    let mut at: usize = from;
    while at < to
        invariant
            from <= at <= to <= s@.len(),
            skip_spaces(s@, at as int, to as int) == skip_spaces(s@, from as int, to as int),
        decreases to - at,
    {
        if !is_space(s.get_char(at)) {
            return at;
        }
        at = at + 1;
    }
    at
}

/// The end of `from..to` once the white space at its end is cut off.
pub(crate) fn trim_end(s: &str, from: usize, to: usize) -> (r: usize)
    requires
        from <= to <= s@.len(),
    ensures
        r == cut_spaces(s@, from as int, to as int),
        from <= r <= to,
{
    let mut at: usize = to;
    while at > from
        invariant
            from <= at <= to <= s@.len(),
            cut_spaces(s@, from as int, at as int) == cut_spaces(s@, from as int, to as int),
        decreases at - from,
    {
        if !is_space(s.get_char(at - 1)) {
            return at;
        }
        at = at - 1;
    }
    at
}

/// The digit for `d` in hexadecimal, in lower case.
pub open spec fn digit_char(d: int) -> char
    recommends
        0 <= d < 16,
{
    if d < 10 {
        ('0' as u32 + d) as char
    } else {
        ('a' as u32 + d - 10) as char
    }
}

/// The digit for `d` in hexadecimal, in lower case, as text.
pub fn digit_str(d: u8) -> (r: &'static str)
    requires
        d < 16,
    ensures
        r@ == seq![digit_char(d as int)],
{
    let text = if d == 0 {
        "0"
    } else if d == 1 {
        "1"
    } else if d == 2 {
        "2"
    } else if d == 3 {
        "3"
    } else if d == 4 {
        "4"
    } else if d == 5 {
        "5"
    } else if d == 6 {
        "6"
    } else if d == 7 {
        "7"
    } else if d == 8 {
        "8"
    } else if d == 9 {
        "9"
    } else if d == 10 {
        "a"
    } else if d == 11 {
        "b"
    } else if d == 12 {
        "c"
    } else if d == 13 {
        "d"
    } else if d == 14 {
        "e"
    } else {
        "f"
    };
    proof {
        reveal_strlit("0");
        reveal_strlit("1");
        reveal_strlit("2");
        reveal_strlit("3");
        reveal_strlit("4");
        reveal_strlit("5");
        reveal_strlit("6");
        reveal_strlit("7");
        reveal_strlit("8");
        reveal_strlit("9");
        reveal_strlit("a");
        reveal_strlit("b");
        reveal_strlit("c");
        reveal_strlit("d");
        reveal_strlit("e");
        reveal_strlit("f");
    }
    text
}

/// A byte as two hexadecimal digits.
pub open spec fn hex2_text(value: u8) -> Seq<char> {
    seq![digit_char(value as int / 16), digit_char(value as int % 16)]
}

/// A 16-bit number as four hexadecimal digits.
pub open spec fn hex4_text(value: u16) -> Seq<char> {
    seq![
        digit_char(value as int / 4096),
        digit_char(value as int / 256 % 16),
        digit_char(value as int / 16 % 16),
        digit_char(value as int % 16),
    ]
}

/// A byte as two hexadecimal digits.
pub fn hex2(value: u8) -> (r: String)
    ensures
        r@ == hex2_text(value),
{
    let text = String::from_str(digit_str(value / 16)).concat(digit_str(value % 16));
    text
}

/// A 16-bit number as four hexadecimal digits.
pub fn hex4(value: u16) -> (r: String)
    ensures
        r@ == hex4_text(value),
{
    let text = String::from_str(digit_str((value / 4096) as u8)).concat(
        digit_str((value / 256 % 16) as u8),
    ).concat(digit_str((value / 16 % 16) as u8)).concat(digit_str((value % 16) as u8));
    text
}

/// A number in decimal, without leading zeros.
pub open spec fn decimal_text(value: nat) -> Seq<char>
    decreases value,
{
    if value < 10 {
        seq![digit_char(value as int)]
    } else {
        decimal_text(value / 10).push(digit_char((value % 10) as int))
    }
}

/// A number in decimal, without leading zeros.
pub fn decimal(value: u64) -> (r: String)
    ensures
        r@ == decimal_text(value as nat),
    decreases value,
{
    if value < 10 {
        String::from_str(digit_str(value as u8))
    } else {
        let text = decimal(value / 10).concat(digit_str((value % 10) as u8));
        text
    }
}

/// An ASCII letter in lower case; every other character as it is.
pub open spec fn spec_lower(c: char) -> char {
    if 'A' <= c <= 'Z' {
        (c as u32 + 32) as char
    } else {
        c
    }
}

/// Two texts that differ at most in the case of their ASCII letters.
pub open spec fn same_but_for_case(a: Seq<char>, b: Seq<char>) -> bool {
    &&& a.len() == b.len()
    &&& forall|i: int| 0 <= i < a.len() ==> spec_lower(a[i]) == spec_lower(b[i])
}

/// Whether `c` and `d` are the same character but for the case of an ASCII
/// letter.
fn same_char_but_for_case(c: char, d: char) -> (r: bool)
    ensures
        r == (spec_lower(c) == spec_lower(d)),
{
    let c: u32 = c as u32;
    let d: u32 = d as u32;
    let c: u32 = if 0x41 <= c && c <= 0x5A {
        c + 32
    } else {
        c
    };
    let d: u32 = if 0x41 <= d && d <= 0x5A {
        d + 32
    } else {
        d
    };
    c == d
}

/// Whether `a` and `b` differ at most in the case of their ASCII letters.
pub fn eq_ignore_ascii_case(a: &str, b: &str) -> (r: bool)
    ensures
        r == same_but_for_case(a@, b@),
{
    let len: usize = a.unicode_len();
    if b.unicode_len() != len {
        return false;
    }
    let mut at: usize = 0;
    while at < len
        invariant
            len == a@.len(),
            len == b@.len(),
            at <= len,
            forall|i: int| 0 <= i < at ==> spec_lower(a@[i]) == spec_lower(b@[i]),
        decreases len - at,
    {
        if !same_char_but_for_case(a.get_char(at), b.get_char(at)) {
            return false;
        }
        at = at + 1;
    }
    true
}

} // verus!
