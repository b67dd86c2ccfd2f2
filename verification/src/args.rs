//! The one argument of the program: the length of the countdown in minutes.

use vstd::prelude::*;

verus! {

/// The length of the countdown where none is given, in minutes.
pub const DEFAULT_MINUTES: u64 = 25;

/// Whether the character is one of `0` to `9`.
pub open spec fn is_digit(c: char) -> bool {
    '0' <= c <= '9'
}

/// The number that a sequence of digits writes, the first digit counting
/// most.
pub open spec fn digits_value(s: Seq<char>) -> nat
    decreases s.len(),
{
    if s.len() == 0 {
        0
    } else {
        digits_value(s.drop_last()) * 10 + (s.last() as nat - '0' as nat) as nat
    }
}

/// The number that a text writes in decimal: a `+` or nothing, and after it
/// one digit or more and nothing else, with a value that fits 64 bits. Any
/// other text writes no number.
pub open spec fn decimal_u64(s: Seq<char>) -> Option<u64> {
    let body = if s.len() > 0 && s[0] == '+' {
        s.subrange(1, s.len() as int)
    } else {
        s
    };
    if body.len() > 0 && (forall|i: int| 0 <= i < body.len() ==> is_digit(#[trigger] body[i]))
        && digits_value(body) <= u64::MAX {
        Some(digits_value(body) as u64)
    } else {
        None
    }
}

/// The minutes that an argument asks for: the default where there is no
/// argument, else the number that the argument writes, if it writes one.
pub open spec fn minutes_of(arg: Option<Seq<char>>) -> Option<u64> {
    match arg {
        None => Some(DEFAULT_MINUTES),
        Some(text) => decimal_u64(text),
    }
}

/// `str::parse` of std, for `u64`. As std documents it, the text is an
/// optional `+` followed by digits only: an empty text, a text without a
/// digit, any other character and a number too large for the type are errors.
/// The contract says this, with `None` for every error.
#[verifier::external_body]
fn parse_u64(text: &str) -> (r: Option<u64>)
    ensures
        r == decimal_u64(text@),
{
    match text.parse::<u64>() {
        Ok(n) => Some(n),
        Err(_) => None,
    }
}

/// The length of the countdown in minutes, from the argument as it was
/// given: `None` where the argument is no number.
pub fn duration_from_arg(arg: Option<&str>) -> (r: Option<u64>)
    ensures
        r == minutes_of(
            match arg {
                Some(text) => Some(text@),
                None => None,
            },
        ),
{
    match arg {
        Some(text) => parse_u64(text),
        None => Some(DEFAULT_MINUTES),
    }
}

} // verus!
