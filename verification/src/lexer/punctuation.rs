//! Operators and delimiters. Where one operator starts another, the longer
//! one is read.

use crate::token::TokenKind;
use vstd::prelude::*;

verus! {

/// Whether the byte after `p` is `c`.
pub open spec fn followed_by(s: Seq<u8>, p: int, c: u8) -> bool {
    p + 1 < s.len() && s[p + 1] == c
}

/// One of two kinds: the two-byte one where `c` follows, else the one-byte
/// one.
pub open spec fn one_or_two(s: Seq<u8>, p: int, c: u8, two: TokenKind, one: TokenKind) -> Option<
    (TokenKind, int),
> {
    if followed_by(s, p, c) {
        Some((two, p + 2))
    } else {
        Some((one, p + 1))
    }
}

/// The operator or delimiter that starts at `p`, and where it ends.
pub open spec fn punctuation_at(s: Seq<u8>, p: int) -> Option<(TokenKind, int)> {
    if p < 0 || p >= s.len() {
        None
    } else {
        let c = s[p];
        if c == 125 {
            Some((TokenKind::RightBrace, p + 1))
        } else if c == 124 {
            one_or_two(s, p, 124, TokenKind::PipePipe, TokenKind::Pipe)
        } else if c == 123 {
            Some((TokenKind::LeftBrace, p + 1))
        } else if c == 93 {
            Some((TokenKind::RightBracket, p + 1))
        } else if c == 10 {
            Some((TokenKind::NewLine, p + 1))
        } else if c == 91 {
            Some((TokenKind::LeftBracket, p + 1))
        } else if c == 64 {
            Some((TokenKind::At, p + 1))
        } else if c == 62 {
            one_or_two(s, p, 61, TokenKind::RightAngledBracketEqual, TokenKind::RightAngledBracket)
        } else if c == 61 {
            one_or_two(s, p, 61, TokenKind::EqualEqual, TokenKind::Equal)
        } else if c == 60 {
            one_or_two(s, p, 61, TokenKind::LeftAngledBracketEqual, TokenKind::LeftAngledBracket)
        } else if c == 58 {
            Some((TokenKind::Colon, p + 1))
        } else if c == 47 {
            one_or_two(s, p, 61, TokenKind::SlashEqual, TokenKind::Slash)
        } else if c == 46 {
            one_or_two(s, p, 46, TokenKind::DotDot, TokenKind::Dot)
        } else if c == 45 {
            if followed_by(s, p, 62) {
                Some((TokenKind::Arrow, p + 2))
            } else {
                one_or_two(s, p, 61, TokenKind::MinusEqual, TokenKind::Minus)
            }
        } else if c == 44 {
            Some((TokenKind::Comma, p + 1))
        } else if c == 43 {
            one_or_two(s, p, 61, TokenKind::PlusEqual, TokenKind::Plus)
        } else if c == 42 {
            one_or_two(s, p, 61, TokenKind::AsteriskEqual, TokenKind::Asterisk)
        } else if c == 41 {
            Some((TokenKind::RightParenthesis, p + 1))
        } else if c == 40 {
            Some((TokenKind::LeftParenthesis, p + 1))
        } else if c == 38 {
            if followed_by(s, p, 38) {
                Some((TokenKind::AndAnd, p + 2))
            } else {
                None
            }
        } else if c == 37 {
            one_or_two(s, p, 61, TokenKind::PercentEqual, TokenKind::Percent)
        } else if c == 33 {
            one_or_two(s, p, 61, TokenKind::BangEqual, TokenKind::Bang)
        } else {
            None
        }
    }
}

/// Whether the byte after `pos` is `c`.
fn next_is(src: &[u8], pos: usize, c: u8) -> (r: bool)
    requires
        pos < src@.len(),
    ensures
        r == followed_by(src@, pos as int, c),
{
    src.len() - pos >= 2 && src[pos + 1] == c
}

/// Picks between a two-byte operator and its one-byte start.
fn pick(src: &[u8], pos: usize, c: u8, two: TokenKind, one: TokenKind) -> (r: Option<(TokenKind, usize)>)
    requires
        pos < src@.len(),
    ensures
        match r {
            Some((k, e)) => one_or_two(src@, pos as int, c, two, one) == Some((k, e as int)) && pos < e
                <= src@.len(),
            None => false,
        },
{
    // a length is a `usize`: places up to it can be counted without overflow
    let _ = src.len();
    if next_is(src, pos, c) {
        Some((two, pos + 2))
    } else {
        Some((one, pos + 1))
    }
}

/// Reads an operator or a delimiter at `pos`.
pub fn punctuation(src: &[u8], pos: usize) -> (r: Option<(TokenKind, usize)>)
    requires
        pos <= src@.len(),
    ensures
        match r {
            Some((k, e)) => punctuation_at(src@, pos as int) == Some((k, e as int)) && pos < e <= src@.len(),
            None => punctuation_at(src@, pos as int) is None,
        },
{
    if pos >= src.len() {
        return None;
    }
    let c = src[pos];
    if c == 125 {
        Some((TokenKind::RightBrace, pos + 1))
    } else if c == 124 {
        pick(src, pos, 124, TokenKind::PipePipe, TokenKind::Pipe)
    } else if c == 123 {
        Some((TokenKind::LeftBrace, pos + 1))
    } else if c == 93 {
        Some((TokenKind::RightBracket, pos + 1))
    } else if c == 10 {
        Some((TokenKind::NewLine, pos + 1))
    } else if c == 91 {
        Some((TokenKind::LeftBracket, pos + 1))
    } else if c == 64 {
        Some((TokenKind::At, pos + 1))
    } else if c == 62 {
        pick(src, pos, 61, TokenKind::RightAngledBracketEqual, TokenKind::RightAngledBracket)
    } else if c == 61 {
        pick(src, pos, 61, TokenKind::EqualEqual, TokenKind::Equal)
    } else if c == 60 {
        pick(src, pos, 61, TokenKind::LeftAngledBracketEqual, TokenKind::LeftAngledBracket)
    } else if c == 58 {
        Some((TokenKind::Colon, pos + 1))
    } else if c == 47 {
        pick(src, pos, 61, TokenKind::SlashEqual, TokenKind::Slash)
    } else if c == 46 {
        pick(src, pos, 46, TokenKind::DotDot, TokenKind::Dot)
    } else if c == 45 {
        if next_is(src, pos, 62) {
            Some((TokenKind::Arrow, pos + 2))
        } else {
            pick(src, pos, 61, TokenKind::MinusEqual, TokenKind::Minus)
        }
    } else if c == 44 {
        Some((TokenKind::Comma, pos + 1))
    } else if c == 43 {
        pick(src, pos, 61, TokenKind::PlusEqual, TokenKind::Plus)
    } else if c == 42 {
        pick(src, pos, 61, TokenKind::AsteriskEqual, TokenKind::Asterisk)
    } else if c == 41 {
        Some((TokenKind::RightParenthesis, pos + 1))
    } else if c == 40 {
        Some((TokenKind::LeftParenthesis, pos + 1))
    } else if c == 38 {
        if next_is(src, pos, 38) {
            Some((TokenKind::AndAnd, pos + 2))
        } else {
            None
        }
    } else if c == 37 {
        pick(src, pos, 61, TokenKind::PercentEqual, TokenKind::Percent)
    } else if c == 33 {
        pick(src, pos, 61, TokenKind::BangEqual, TokenKind::Bang)
    } else {
        None
    }
}

} // verus!
