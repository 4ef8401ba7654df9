use vstd::prelude::*;
use vstd::string::*;
use crate::Error;

verus! {

/// How reading an unsigned decimal numeral can end: a value, a character
/// that is no digit, a value past `u32::MAX`, or nothing to read at all.
#[derive(Clone, Copy, Debug, PartialEq, Eq, Structural)]
pub enum NumParse {
    Parsed(u32),
    BadDigit,
    TooLarge,
    EmptyInput,
}

pub open spec fn is_ascii_digit(c: char) -> bool {
    '0' as u32 <= c as u32 && c as u32 <= '9' as u32
}

pub open spec fn digit_value(c: char) -> nat
    recommends
        is_ascii_digit(c),
{
    (c as u32 - '0' as u32) as nat
}

/// Scans decimal digits left to right with an accumulator, the way the
/// machine reads them: the first character that is no digit decides for
/// `BadDigit`, and the first step that would push the accumulator past
/// `u32::MAX` decides for `TooLarge`, whichever comes first.
pub open spec fn scan_digits(s: Seq<char>, acc: nat) -> NumParse
    recommends
        acc <= u32::MAX,
    decreases s.len(),
{
    if s.len() == 0 {
        NumParse::Parsed(acc as u32)
    } else if !is_ascii_digit(s[0]) {
        NumParse::BadDigit
    } else if acc * 10 + digit_value(s[0]) > u32::MAX {
        NumParse::TooLarge
    } else {
        scan_digits(s.drop_first(), acc * 10 + digit_value(s[0]))
    }
}

/// Reading a whole numeral: empty input is its own case, one leading `+` is
/// allowed before the digits, and a lone `+` is a missing digit.
pub open spec fn parse_u32(s: Seq<char>) -> NumParse {
    if s.len() == 0 {
        NumParse::EmptyInput
    } else if s[0] == '+' {
        if s.len() == 1 {
            NumParse::BadDigit
        } else {
            scan_digits(s.drop_first(), 0)
        }
    } else {
        scan_digits(s, 0)
    }
}

/// Reads an unsigned decimal numeral from a string, exactly as `parse_u32`
/// classifies it.
fn parse_decimal(s: &str) -> (r: NumParse)
    ensures
        r == parse_u32(s@),
{
    let n: usize = s.unicode_len();
    if n == 0 {
        return NumParse::EmptyInput;
    }
    let first = s.get_char(0);
    let start: usize = if first == '+' {
        if n == 1 {
            return NumParse::BadDigit;
        }
        1
    } else {
        0
    };
    proof {
        if start == 1 {
            assert(s@.skip(1) =~= s@.drop_first());
        } else {
            assert(s@.skip(0) =~= s@);
        }
    }
    let mut acc: u32 = 0;
    let mut i: usize = start;
    while i < n
        invariant
            start <= i <= n,
            n == s@.len(),
            parse_u32(s@) == scan_digits(s@.skip(i as int), acc as nat),
        decreases n - i,
    {
        let ghost i_pre: int = i as int;
        let c = s.get_char(i);
        let cv: u32 = c as u32;
        if cv < '0' as u32 || cv > '9' as u32 {
            return NumParse::BadDigit;
        }
        let d: u32 = cv - '0' as u32;
        let wide: u64 = (acc as u64) * 10 + (d as u64);
        if wide > u32::MAX as u64 {
            return NumParse::TooLarge;
        }
        acc = wide as u32;
        i = i + 1;
        proof {
            assert(s@.skip(i_pre).drop_first() =~= s@.skip(i_pre + 1));
        }
    }
    NumParse::Parsed(acc)
}

/// Reads the optional attempt-limit argument.  An absent argument means no
/// cap; a present one must be an unsigned decimal numeral, and anything
/// else is an invalid value carrying the reason it did not parse.
pub fn max(arg: Option<&str>) -> (r: Result<Option<u32>, Error>)
    ensures
        ({
            match arg {
                None => r == Ok::<Option<u32>, Error>(None),
                Some(s) => match parse_u32(s@) {
                    NumParse::Parsed(v) => r == Ok::<Option<u32>, Error>(Some(v)),
                    NumParse::BadDigit => r matches Err(Error::InvalidMaxValue(m)) && m@
                        == "invalid digit found in string"@,
                    NumParse::TooLarge => r matches Err(Error::InvalidMaxValue(m)) && m@
                        == "number too large to fit in target type"@,
                    NumParse::EmptyInput => r matches Err(Error::InvalidMaxValue(m)) && m@
                        == "cannot parse integer from empty string"@,
                },
            }
        }),
{
    match arg {
        None => Ok(None),
        Some(s) => match parse_decimal(s) {
            NumParse::Parsed(v) => Ok(Some(v)),
            NumParse::BadDigit => Err(
                Error::InvalidMaxValue(String::from_str("invalid digit found in string")),
            ),
            NumParse::TooLarge => Err(
                Error::InvalidMaxValue(String::from_str("number too large to fit in target type")),
            ),
            NumParse::EmptyInput => Err(
                Error::InvalidMaxValue(String::from_str("cannot parse integer from empty string")),
            ),
        },
    }
}

} // verus!
