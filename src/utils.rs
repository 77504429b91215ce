use vstd::prelude::*;
use vstd::string::StrSliceExecFns;

verus! {

pub fn max(lhs: usize, rhs: usize) -> (r: usize)
    ensures
        r == if rhs > lhs { rhs } else { lhs },
{
    if rhs > lhs {
        rhs
    } else {
        lhs
    }
}

pub fn min(lhs: usize, rhs: usize) -> (r: usize)
    ensures
        r == if rhs < lhs { rhs } else { lhs },
{
    if rhs < lhs {
        rhs
    } else {
        lhs
    }
}

#[derive(Debug, PartialEq, Eq, Clone, Copy, Structural)]
pub enum ParseError {
    /// No digits.
    Empty,
    InvalidDigit,
    /// The value does not fit in 16 bits.
    Overflow,
}

/// The value of a digit in the given radix (10 or 16).
pub open spec fn digit_of(c: char, radix: u32) -> Option<u32> {
    if '0' <= c <= '9' {
        Some((c as u32 - '0' as u32) as u32)
    } else if radix == 16 && 'a' <= c <= 'f' {
        Some((c as u32 - 'a' as u32 + 10) as u32)
    } else if radix == 16 && 'A' <= c <= 'F' {
        Some((c as u32 - 'A' as u32 + 10) as u32)
    } else {
        None
    }
}

/// Digits read left to right onto `acc`; the first bad digit or the first overflow ends
/// the scan.
pub open spec fn scan_digits(cs: Seq<char>, radix: u32, acc: u32) -> Result<u16, ParseError>
    decreases cs.len(),
{
    if cs.len() == 0 {
        Ok(acc as u16)
    } else {
        match digit_of(cs[0], radix) {
            None => Err(ParseError::InvalidDigit),
            Some(d) => {
                let next = acc * radix + d;
                if next > 0xFFFF {
                    Err(ParseError::Overflow)
                } else {
                    scan_digits(cs.subrange(1, cs.len() as int), radix, next as u32)
                }
            },
        }
    }
}

/// A number in decimal, or in hexadecimal after `0x` or `0X`, with an optional `+`;
/// the empty string reads as 0.
pub open spec fn parse_u16(s: Seq<char>) -> Result<u16, ParseError> {
    if s.len() == 0 {
        Ok(0)
    } else {
        let hex = s.len() >= 2 && s[0] == '0' && (s[1] == 'x' || s[1] == 'X');
        let start: int = if hex { 2 } else { 0 };
        let radix: u32 = if hex { 16 } else { 10 };
        let signed = start < s.len() && s[start] == '+';
        let first = if signed { start + 1 } else { start };
        if start == s.len() {
            Err(ParseError::Empty)
        } else if first == s.len() {
            Err(ParseError::InvalidDigit)
        } else {
            scan_digits(s.subrange(first, s.len() as int), radix, 0)
        }
    }
}

fn digit(c: char, radix: u32) -> (r: Option<u32>)
    ensures
        r == digit_of(c, radix),
{
    if '0' <= c && c <= '9' {
        Some(c as u32 - '0' as u32)
    } else if radix == 16 && 'a' <= c && c <= 'f' {
        Some(c as u32 - 'a' as u32 + 10)
    } else if radix == 16 && 'A' <= c && c <= 'F' {
        Some(c as u32 - 'A' as u32 + 10)
    } else {
        None
    }
}

pub fn string_to_u16(s: &str) -> (r: Result<u16, ParseError>)
    ensures
        r == parse_u16(s@),
{
    let n = s.unicode_len();
    if n == 0 {
        return Ok(0);
    }
    let hex = n >= 2 && s.get_char(0) == '0' && (s.get_char(1) == 'x' || s.get_char(1) == 'X');
    let start: usize = if hex {
        2
    } else {
        0
    };
    let radix: u32 = if hex {
        16
    } else {
        10
    };
    if start == n {
        return Err(ParseError::Empty);
    }
    let first: usize = if s.get_char(start) == '+' {
        start + 1
    } else {
        start
    };
    if first == n {
        return Err(ParseError::InvalidDigit);
    }
    let mut acc: u32 = 0;
    let mut i: usize = first;
    while i < n
        invariant
            first <= i <= n,
            n == s@.len(),
            radix == 10 || radix == 16,
            acc <= 0xFFFF,
            parse_u16(s@) == scan_digits(s@.subrange(first as int, n as int), radix, 0),
            scan_digits(s@.subrange(i as int, n as int), radix, acc) == scan_digits(
                s@.subrange(first as int, n as int),
                radix,
                0,
            ),
        decreases n - i,
    {
        let c = s.get_char(i);
        let ghost cs = s@.subrange(i as int, n as int);
        proof {
            assert(cs[0] == c);
            assert(cs.subrange(1, cs.len() as int) =~= s@.subrange(i + 1, n as int));
            assert(scan_digits(cs, radix, acc) == match digit_of(c, radix) {
                None => Err(ParseError::InvalidDigit),
                Some(d) => if acc * radix + d > 0xFFFF {
                    Err(ParseError::Overflow)
                } else {
                    scan_digits(s@.subrange(i + 1, n as int), radix, (acc * radix + d) as u32)
                },
            });
        }
        match digit(c, radix) {
            None => return Err(ParseError::InvalidDigit),
            Some(d) => {
                let next = acc * radix + d;
                if next > 0xFFFF {
                    return Err(ParseError::Overflow);
                }
                acc = next;
            },
        }
        i += 1;
    }
    Ok(acc as u16)
}

} // verus!
