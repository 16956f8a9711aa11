//! Small helpers for talking to the service that prepares the victim
//! program inside the guest.

use vstd::prelude::*;
use vstd::string::StrSliceExecFns;

pub mod req_resp_ds;

verus! {

/// Why a text is not a hexadecimal number.
#[derive(Clone, Copy, Debug, PartialEq, Eq, Structural)]
pub enum ParseHexError {
    /// There is nothing to read.
    Empty,
    /// The text holds something that is no hexadecimal digit.
    InvalidDigit,
    /// The number does not fit 64 bits.
    PosOverflow,
}

/// The value of a hexadecimal digit, upper or lower case.
pub open spec fn hex_digit_value(c: char) -> Option<u64> {
    if '0' <= c <= '9' {
        Some((c as u64 - '0' as u64) as u64)
    } else if 'a' <= c <= 'f' {
        Some((c as u64 - 'a' as u64 + 10) as u64)
    } else if 'A' <= c <= 'F' {
        Some((c as u64 - 'A' as u64 + 10) as u64)
    } else {
        None
    }
}

/// The number that a row of hexadecimal digits stands for, read from the
/// left. The first thing that goes wrong decides the error.
pub open spec fn spec_hex_digits(digits: Seq<char>) -> Result<u64, ParseHexError>
    decreases digits.len(),
{
    if digits.len() == 0 {
        Ok(0)
    } else {
        match spec_hex_digits(digits.drop_last()) {
            Err(e) => Err(e),
            Ok(v) => match hex_digit_value(digits.last()) {
                None => Err(ParseHexError::InvalidDigit),
                Some(d) => if v * 16 + d > u64::MAX {
                    Err(ParseHexError::PosOverflow)
                } else {
                    Ok((v * 16 + d) as u64)
                },
            },
        }
    }
}

/// The text without a leading `0x`.
pub open spec fn strip_hex_prefix(v: Seq<char>) -> Seq<char> {
    if v.len() >= 2 && v[0] == '0' && v[1] == 'x' {
        v.skip(2)
    } else {
        v
    }
}

/// The number that a text stands for: hexadecimal digits, with or without
/// `0x` before them, and with or without a plus sign before the digits.
pub open spec fn spec_parse_hex_str(v: Seq<char>) -> Result<u64, ParseHexError> {
    let text = strip_hex_prefix(v);
    if text.len() == 0 {
        Err(ParseHexError::Empty)
    } else {
        let digits = if text[0] == '+' {
            text.skip(1)
        } else {
            text
        };
        if digits.len() == 0 {
            Err(ParseHexError::InvalidDigit)
        } else {
            spec_hex_digits(digits)
        }
    }
}

fn digit_value(c: char) -> (r: Option<u64>)
    ensures
        r == hex_digit_value(c),
{
    if '0' <= c && c <= '9' {
        Some(c as u64 - '0' as u64)
    } else if 'a' <= c && c <= 'f' {
        Some(c as u64 - 'a' as u64 + 10)
    } else if 'A' <= c && c <= 'F' {
        Some(c as u64 - 'A' as u64 + 10)
    } else {
        None
    }
}

/// Reads a hexadecimal number that may have the prefix `0x`.
pub fn parse_hex_str(v: &str) -> (r: Result<u64, ParseHexError>)
    ensures
        r == spec_parse_hex_str(v@),
{
    let len = v.unicode_len();
    let mut start: usize = 0;
    if len >= 2 && v.get_char(0) == '0' && v.get_char(1) == 'x' {
        start = 2;
    }
    let ghost text = strip_hex_prefix(v@);
    assert(text =~= v@.skip(start as int));
    if start == len {
        return Err(ParseHexError::Empty);
    }
    let ghost prefix = start;
    if v.get_char(start) == '+' {
        start = start + 1;
    }
    let ghost digits = v@.skip(start as int);
    assert(digits =~= (if text[0] == '+' {
        text.skip(1)
    } else {
        text
    }));
    if start == len {
        return Err(ParseHexError::InvalidDigit);
    }
    let mut value: u64 = 0;
    let mut i: usize = start;
    assert(digits.take(0) =~= Seq::<char>::empty());
    while i < len
        invariant
            start <= i <= len,
            len == v@.len(),
            digits == v@.skip(start as int),
            spec_parse_hex_str(v@) == spec_hex_digits(digits),
            spec_hex_digits(digits.take(i - start)) == Ok::<u64, ParseHexError>(value),
        decreases len - i,
    {
        let ghost before = digits.take(i - start);
        let ghost upto = digits.take(i - start + 1);
        assert(upto.drop_last() =~= before);
        assert(upto.last() == v@[i as int]);
        proof {
            if upto.len() < digits.len() {
                lemma_error_stays(digits, upto.len() as int);
            } else {
                assert(upto =~= digits);
            }
        }
        let d = match digit_value(v.get_char(i)) {
            Some(d) => d,
            None => {
                return Err(ParseHexError::InvalidDigit);
            },
        };
        if value > (u64::MAX - d) / 16 {
            return Err(ParseHexError::PosOverflow);
        }
        value = value * 16 + d;
        i = i + 1;
    }
    assert(digits.take(i - start) =~= digits);
    Ok(value)
}

/// Once reading has failed, reading on does not mend it.
proof fn lemma_error_stays(digits: Seq<char>, n: int)
    requires
        0 <= n <= digits.len(),
    ensures
        spec_hex_digits(digits.take(n)) is Err ==> spec_hex_digits(digits) == spec_hex_digits(
            digits.take(n),
        ),
    decreases digits.len() - n,
{
    if n < digits.len() {
        lemma_error_stays(digits, n + 1);
        assert(digits.take(n + 1).drop_last() =~= digits.take(n));
    } else {
        assert(digits.take(n) =~= digits);
    }
}

} // verus!
