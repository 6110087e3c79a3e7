//! The two settings of the service, each read from an optional text with a
//! default for a text that is missing or does not parse.

use crate::text::{
    all_digits, digit_value, digits_value, is_digit, lemma_digits_value_grows, text_of,
};
use std::str::FromStr;
use vstd::prelude::*;
use vstd::std_specs::iter::IteratorSpec;
use vstd::string::*;

verus! {

/// The port to listen on where none is configured.
pub const DEFAULT_PORT: u16 = 3000;

/// The status of the default response where none is configured.
pub const DEFAULT_STATUS_CODE: u16 = 501;

/// The status code that `s` spells: three digits, the first of them not `0`.
pub open spec fn status_code(s: Seq<char>) -> Option<u16> {
    if s.len() == 3 && is_digit(s[0]) && s[0] != '0' && is_digit(s[1]) && is_digit(s[2]) {
        Some((100 * digit_value(s[0]) + 10 * digit_value(s[1]) + digit_value(s[2])) as u16)
    } else {
        None
    }
}

/// The text `s` without the `+` that may stand first.
pub open spec fn unsigned(s: Seq<char>) -> Seq<char> {
    if s.len() > 0 && s[0] == '+' {
        s.drop_first()
    } else {
        s
    }
}

/// The port that `s` spells: digits, behind a `+` or not, whose number fits
/// in 16 bits.
pub open spec fn port(s: Seq<char>) -> Option<u16> {
    let digits = unsigned(s);
    if digits.len() > 0 && all_digits(digits) && digits_value(digits) <= u16::MAX {
        Some(digits_value(digits) as u16)
    } else {
        None
    }
}

/// The status of the default response for the setting `raw`.
pub open spec fn configured_status(raw: Option<Seq<char>>) -> u16 {
    match raw {
        Some(s) => match status_code(s) {
            Some(code) => code,
            None => DEFAULT_STATUS_CODE,
        },
        None => DEFAULT_STATUS_CODE,
    }
}

/// The port to listen on for the setting `raw`.
pub open spec fn configured_port(raw: Option<Seq<char>>) -> u16 {
    match raw {
        Some(s) => match port(s) {
            Some(p) => p,
            None => DEFAULT_PORT,
        },
        None => DEFAULT_PORT,
    }
}

/// Reads a status code as `hyper::StatusCode::from_str` reads it, and
/// returns its number as `StatusCode::as_u16` gives it. That function
/// accepts exactly the texts of three bytes that are digits with the first
/// not `0`, and yields the number they spell; this is what the contract
/// states, over characters.
#[verifier::external_body]
fn parse_status_code(s: &str) -> (code: Option<u16>)
    ensures
        code == status_code(s@),
{
    match hyper::StatusCode::from_str(s) {
        Ok(status) => Some(status.as_u16()),
        Err(_) => None,
    }
}

/// Reads a port: decimal digits, behind a `+` or not, up to 65535.
pub fn parse_port(s: &str) -> (parsed: Option<u16>)
    ensures
        parsed == port(s@),
{
    let ghost digits = unsigned(s@);
    let mut chars = s.chars();
    let mut next: Option<char> = chars.next();
    if let Some('+') = next {
        next = chars.next();
    }
    let mut value: u32 = 0;
    let mut seen: bool = false;
    let ghost mut n: int = 0;
    loop
        invariant
            digits == unsigned(s@),
            0 <= n <= digits.len(),
            match next {
                Some(c) => n < digits.len() && c == digits[n] && chars.remaining() == digits.skip(
                    n + 1,
                ),
                None => n == digits.len(),
            },
            seen == (n > 0),
            all_digits(digits.take(n)),
            value == digits_value(digits.take(n)),
            value <= u16::MAX,
        decreases digits.len() - n,
    {
        match next {
            Some(c) => {
                if !(c >= '0' && c <= '9') {
                    return None;
                }
                value = value * 10 + (c as u32 - '0' as u32);
                seen = true;
                proof {
                    assert(digits.take(n + 1).drop_last() =~= digits.take(n));
                    n = n + 1;
                }
                if value > 65535 {
                    proof {
                        if all_digits(digits) {
                            lemma_digits_value_grows(digits, n);
                        }
                    }
                    return None;
                }
                next = chars.next();
            },
            None => {
                assert(digits.take(n) =~= digits);
                return if seen {
                    Some(value as u16)
                } else {
                    None
                };
            },
        }
    }
}

/// The status of the default response: the configured one where it is a
/// status code, 501 otherwise.
pub fn default_status_code(raw: Option<&str>) -> (code: u16)
    ensures
        code == configured_status(text_of(raw)),
        100 <= code <= 999,
{
    match raw {
        Some(s) => match parse_status_code(s) {
            Some(code) => code,
            None => DEFAULT_STATUS_CODE,
        },
        None => DEFAULT_STATUS_CODE,
    }
}

/// The port to listen on: the configured one where it is a port, 3000
/// otherwise.
pub fn listen_port(raw: Option<&str>) -> (port: u16)
    ensures
        port == configured_port(text_of(raw)),
{
    match raw {
        Some(s) => match parse_port(s) {
            Some(port) => port,
            None => DEFAULT_PORT,
        },
        None => DEFAULT_PORT,
    }
}

} // verus!
