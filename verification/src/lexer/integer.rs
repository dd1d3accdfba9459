//! Integer literals: decimal digits, with `-` in front for a negative
//! number. A literal that starts with `0` is that digit alone. Digits with a
//! letter or `_` right after them are an identifier gone wrong.

use crate::lexer::bytes::byte_in_class;
use crate::lexer::bytes::is_digit;
use crate::lexer::bytes::is_ident_start;
use crate::lexer::bytes::lemma_run_is_longest;
use crate::lexer::bytes::run_end;
use crate::lexer::bytes::scan_run;
use crate::lexer::bytes::ByteClass;
use crate::text::decimal;
use crate::text::decimal_nat;
use crate::token::LexError;
use vstd::prelude::*;

verus! {

/// The number that the digits from `a` up to `b` write.
pub open spec fn digits_value(s: Seq<u8>, a: int, b: int) -> int
    decreases b - a,
{
    if b <= a {
        0
    } else {
        digits_value(s, a, b - 1) * 10 + (s[b - 1] - 48)
    }
}

/// Where the digits of the literal that starts at `p` end: after a leading
/// `0`, else after the longest run of digits.
pub open spec fn digits_end(s: Seq<u8>, p: int) -> int {
    if s[p] == 48 {
        p + 1
    } else {
        run_end(s, p + 1, ByteClass::Digit)
    }
}

/// A number as a literal: the number if it fits in 32 bits.
pub open spec fn literal_value(v: int) -> Result<i32, LexError> {
    if i32::MIN <= v <= i32::MAX {
        Ok(v as i32)
    } else {
        Err(LexError::InvalidToken)
    }
}

/// The number that starts at `p`, and where it ends.
pub open spec fn number_at(s: Seq<u8>, p: int) -> Option<(Result<i32, LexError>, int)> {
    if 0 <= p < s.len() && is_digit(s[p]) {
        let d = run_end(s, p + 1, ByteClass::Digit);
        if d < s.len() && is_ident_start(s[d]) {
            Some((Err(LexError::InvalidIdentifier), run_end(s, d + 1, ByteClass::IdentStart)))
        } else {
            let e = digits_end(s, p);
            Some((literal_value(digits_value(s, p, e)), e))
        }
    } else if 0 <= p && p + 1 < s.len() && s[p] == 45 && is_digit(s[p + 1]) {
        let e = digits_end(s, p + 1);
        Some((literal_value(-digits_value(s, p + 1, e)), e))
    } else {
        None
    }
}

/// More digits never write a smaller number.
proof fn lemma_digits_grow(s: Seq<u8>, a: int, b: int, c: int)
    requires
        0 <= a <= b <= c <= s.len(),
        forall|i: int| a <= i < c ==> is_digit(#[trigger] s[i]),
    ensures
        0 <= digits_value(s, a, b) <= digits_value(s, a, c),
    decreases c - b,
{
    lemma_digits_nonnegative(s, a, b);
    if b < c {
        lemma_digits_grow(s, a, b, c - 1);
    }
}

/// Digits write a number that is not negative.
proof fn lemma_digits_nonnegative(s: Seq<u8>, a: int, b: int)
    requires
        0 <= a <= b <= s.len(),
        forall|i: int| a <= i < b ==> is_digit(#[trigger] s[i]),
    ensures
        0 <= digits_value(s, a, b),
    decreases b - a,
{
    if a < b {
        lemma_digits_nonnegative(s, a, b - 1);
    }
}

/// The number that the digits from `a` up to `b` write, if it is at most
/// 2^31.
fn parse_digits(src: &[u8], a: usize, b: usize) -> (r: Option<u64>)
    requires
        a <= b <= src@.len(),
        forall|i: int| a <= i < b ==> is_digit(#[trigger] src@[i]),
    ensures
        match r {
            Some(v) => v == digits_value(src@, a as int, b as int) && v <= 2147483648,
            None => digits_value(src@, a as int, b as int) > 2147483648,
        },
{
    let mut acc: u64 = 0;
    let mut i: usize = a;
    while i < b
        invariant
            a <= i <= b <= src@.len(),
            forall|j: int| a <= j < b ==> is_digit(#[trigger] src@[j]),
            acc == digits_value(src@, a as int, i as int),
            acc <= 2147483648,
        decreases b - i,
    {
        let d: u64 = (src[i] - 48) as u64;
        acc = acc * 10 + d;
        i = i + 1;
        if acc > 2147483648 {
            proof {
                lemma_digits_grow(src@, a as int, i as int, b as int);
            }
            return None;
        }
    }
    Some(acc)
}

/// Where the digits of the literal that starts at `pos` end.
fn scan_digits(src: &[u8], pos: usize) -> (e: usize)
    requires
        pos < src@.len(),
        is_digit(src@[pos as int]),
    ensures
        e == digits_end(src@, pos as int),
        pos < e <= src@.len(),
        forall|i: int| pos <= i < e ==> is_digit(#[trigger] src@[i]),
{
    if src[pos] == 48 {
        pos + 1
    } else {
        let e = scan_run(src, pos + 1, ByteClass::Digit);
        proof {
            lemma_run_is_longest(src@, pos + 1, ByteClass::Digit);
            assert forall|i: int| pos <= i < e implies is_digit(#[trigger] src@[i]) by {
            }
        }
        e
    }
}

/// Reads a number at `pos`.
pub fn integer(src: &[u8], pos: usize) -> (r: Option<(Result<i32, LexError>, usize)>)
    requires
        pos <= src@.len(),
    ensures
        match r {
            Some((v, e)) => number_at(src@, pos as int) == Some((v, e as int)) && pos < e <= src@.len(),
            None => number_at(src@, pos as int) is None,
        },
{
    if pos < src.len() && byte_in_class(src[pos], ByteClass::Digit) {
        let d = scan_run(src, pos + 1, ByteClass::Digit);
        if d < src.len() && byte_in_class(src[d], ByteClass::IdentStart) {
            Some((Err(LexError::InvalidIdentifier), scan_run(src, d + 1, ByteClass::IdentStart)))
        } else {
            let e = scan_digits(src, pos);
            match parse_digits(src, pos, e) {
                Some(v) => {
                    if v <= 2147483647 {
                        Some((Ok(v as i32), e))
                    } else {
                        Some((Err(LexError::InvalidToken), e))
                    }
                },
                None => Some((Err(LexError::InvalidToken), e)),
            }
        }
    } else if pos < src.len() && src.len() - pos >= 2 && src[pos] == 45 && byte_in_class(
        src[pos + 1],
        ByteClass::Digit,
    ) {
        let e = scan_digits(src, pos + 1);
        match parse_digits(src, pos + 1, e) {
            Some(v) => Some((Ok((-(v as i64)) as i32), e)),
            None => Some((Err(LexError::InvalidToken), e)),
        }
    } else {
        None
    }
}

/// A text of ASCII as bytes.
pub open spec fn ascii(text: Seq<char>) -> Seq<u8> {
    Seq::new(text.len(), |i: int| text[i] as u8)
}

/// The number that digits write depends on those digits alone.
proof fn lemma_digits_value_of_same_digits(s: Seq<u8>, t: Seq<u8>, a: int, b: int, shift: int)
    requires
        0 <= a <= b <= s.len(),
        0 <= a + shift,
        b + shift <= t.len(),
        forall|i: int| a <= i < b ==> #[trigger] s[i] == t[i + shift],
    ensures
        digits_value(s, a, b) == digits_value(t, a + shift, b + shift),
    decreases b - a,
{
    if a < b {
        lemma_digits_value_of_same_digits(s, t, a, b - 1, shift);
    }
}

/// A run of digits that goes on to the end of the text ends there.
proof fn lemma_digits_run_to_the_end(s: Seq<u8>, p: int)
    requires
        0 <= p <= s.len(),
        forall|i: int| p <= i < s.len() ==> is_digit(#[trigger] s[i]),
    ensures
        run_end(s, p, ByteClass::Digit) == s.len(),
    decreases s.len() - p,
{
    if p < s.len() {
        lemma_digits_run_to_the_end(s, p + 1);
    }
}

/// The decimal digits of a number are digits, write the number, and start
/// with `0` only for the number 0.
pub proof fn lemma_decimal_digits(n: nat)
    ensures
        decimal_nat(n).len() > 0,
        forall|i: int| 0 <= i < decimal_nat(n).len() ==> is_digit(#[trigger] ascii(decimal_nat(n))[i]),
        digits_value(ascii(decimal_nat(n)), 0, decimal_nat(n).len() as int) == n,
        ascii(decimal_nat(n))[0] == 48 <==> n == 0,
        n == 0 ==> decimal_nat(n).len() == 1,
    decreases n,
{
    let s = ascii(decimal_nat(n));
    if n < 10 {
        assert(digits_value(s, 0, 0) == 0);
    } else {
        lemma_decimal_digits(n / 10);
        let t = ascii(decimal_nat(n / 10));
        assert forall|i: int| 0 <= i < s.len() implies is_digit(#[trigger] s[i]) by {
            if i < t.len() {
                assert(s[i] == t[i]);
            }
        }
        lemma_digits_value_of_same_digits(t, s, 0, t.len() as int, 0);
    }
}

/// An integer that is written in decimal and read again is the same
/// integer, and the reading takes all of the text.
pub proof fn lemma_decimal_reads_back(v: i32)
    ensures
        number_at(ascii(decimal(v as int)), 0) == Some(
            (Ok::<i32, LexError>(v), decimal(v as int).len() as int),
        ),
{
    let s = ascii(decimal(v as int));
    if v >= 0 {
        let n = v as nat;
        lemma_decimal_digits(n);
        lemma_digits_run_to_the_end(s, 1);
    } else {
        let n = (-v) as nat;
        lemma_decimal_digits(n);
        let t = ascii(decimal_nat(n));
        assert forall|i: int| 1 <= i < s.len() implies is_digit(#[trigger] s[i]) by {
            assert(s[i] == t[i - 1]);
        }
        lemma_digits_run_to_the_end(s, 2);
        lemma_digits_value_of_same_digits(t, s, 0, t.len() as int, 1);
    }
}

} // verus!
