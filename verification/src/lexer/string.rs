//! String literals: text between two single or two double quotes. A
//! backslash takes the byte after it along, so an escaped quote does not end
//! the literal.

use crate::token::QuoteKind;
use vstd::prelude::*;

verus! {

/// Where the literal ends whose text goes on at `p` and whose quote is `q`:
/// right after the first quote that no backslash escapes.
pub open spec fn string_close(s: Seq<u8>, p: int, q: u8) -> Option<int>
    decreases s.len() - p,
{
    if p < 0 || p >= s.len() {
        None
    } else if s[p] == q {
        Some(p + 1)
    } else if s[p] == 92 {
        if p + 1 < s.len() {
            string_close(s, p + 2, q)
        } else {
            None
        }
    } else {
        string_close(s, p + 1, q)
    }
}

/// The quote that a byte opens, if any.
pub open spec fn quote_of(c: u8) -> Option<QuoteKind> {
    if c == 39 {
        Some(QuoteKind::Single)
    } else if c == 34 {
        Some(QuoteKind::Double)
    } else {
        None
    }
}

/// The string literal that starts at `p`: its quote and where it ends.
pub open spec fn string_at(s: Seq<u8>, p: int) -> Option<(QuoteKind, int)> {
    if 0 <= p < s.len() && quote_of(s[p]) is Some {
        match string_close(s, p + 1, s[p]) {
            Some(e) => Some((quote_of(s[p])->0, e)),
            None => None,
        }
    } else {
        None
    }
}

/// A string literal ends inside the text, on a quote of its own kind, and is
/// at least two bytes long.
pub proof fn lemma_string_closed(s: Seq<u8>, p: int, q: u8)
    requires
        0 <= p,
        string_close(s, p, q) is Some,
    ensures
        p + 1 <= string_close(s, p, q)->0 <= s.len(),
        s[string_close(s, p, q)->0 - 1] == q,
    decreases s.len() - p,
{
    if p >= s.len() {
    } else if s[p] == q {
    } else if s[p] == 92 {
        if p + 1 < s.len() {
            lemma_string_closed(s, p + 2, q);
        }
    } else {
        lemma_string_closed(s, p + 1, q);
    }
}

/// Reads the rest of a literal whose opening quote `q` stands before `pos`.
fn scan_string(src: &[u8], pos: usize, q: u8) -> (r: Option<usize>)
    requires
        pos <= src@.len(),
    ensures
        match r {
            Some(e) => string_close(src@, pos as int, q) == Some(e as int) && pos < e <= src@.len() && src@[e
                - 1] == q,
            None => string_close(src@, pos as int, q) is None,
        },
{
    let mut i: usize = pos;
    while i < src.len()
        invariant
            pos <= i <= src@.len(),
            string_close(src@, pos as int, q) == string_close(src@, i as int, q),
        decreases src@.len() - i,
    {
        if src[i] == q {
            return Some(i + 1);
        } else if src[i] == 92 {
            if src.len() - i >= 2 {
                i = i + 2;
            } else {
                return None;
            }
        } else {
            i = i + 1;
        }
    }
    None
}

/// Reads a single-quoted string literal at `pos`.
pub fn string_single(src: &[u8], pos: usize) -> (r: Option<usize>)
    requires
        pos <= src@.len(),
    ensures
        match r {
            Some(e) => string_at(src@, pos as int) == Some((QuoteKind::Single, e as int)) && pos + 2 <= e
                <= src@.len() && src@[e - 1] == 39,
            None => match string_at(src@, pos as int) {
                Some((q, _)) => !(q is Single),
                None => true,
            },
        },
{
    if pos < src.len() && src[pos] == 39 {
        scan_string(src, pos + 1, 39)
    } else {
        None
    }
}

/// Reads a double-quoted string literal at `pos`.
pub fn string_double(src: &[u8], pos: usize) -> (r: Option<usize>)
    requires
        pos <= src@.len(),
    ensures
        match r {
            Some(e) => string_at(src@, pos as int) == Some((QuoteKind::Double, e as int)) && pos + 2 <= e
                <= src@.len() && src@[e - 1] == 34,
            None => match string_at(src@, pos as int) {
                Some((q, _)) => !(q is Double),
                None => true,
            },
        },
{
    if pos < src.len() && src[pos] == 34 {
        scan_string(src, pos + 1, 34)
    } else {
        None
    }
}

/// Reads a string literal at `pos`: its quote and where it ends.
pub fn string(src: &[u8], pos: usize) -> (r: Option<(QuoteKind, usize)>)
    requires
        pos <= src@.len(),
    ensures
        match r {
            Some((q, e)) => string_at(src@, pos as int) == Some((q, e as int)) && pos + 2 <= e <= src@.len()
                && src@[e - 1] < 128,
            None => string_at(src@, pos as int) is None,
        },
{
    match string_single(src, pos) {
        Some(e) => Some((QuoteKind::Single, e)),
        None => {
            match string_double(src, pos) {
                Some(e) => Some((QuoteKind::Double, e)),
                None => None,
            }
        },
    }
}

} // verus!
