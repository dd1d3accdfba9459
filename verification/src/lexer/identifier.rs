//! Identifiers and keywords: a letter or `_`, then letters, digits and `_`,
//! as many as there are. A word from the keyword table is that keyword, any
//! other word an identifier.

use crate::lexer::bytes::byte_in_class;
use crate::lexer::bytes::in_class;
use crate::lexer::bytes::lemma_run_is_longest;
use crate::lexer::bytes::is_ident_start;
use crate::lexer::bytes::run_end;
use crate::lexer::bytes::scan_run;
use crate::lexer::bytes::ByteClass;
use crate::token::TokenKind;
use vstd::prelude::*;
use vstd::string::StringSliceAdditionalSpecFns;

verus! {

/// The kind of a word: its keyword, or `Identifier`.
pub open spec fn keyword_kind(w: Seq<u8>) -> TokenKind {
    if w == "nil".spec_bytes() {
        TokenKind::Nil
    } else if w == "true".spec_bytes() {
        TokenKind::True
    } else if w == "false".spec_bytes() {
        TokenKind::False
    } else if w == "panic".spec_bytes() {
        TokenKind::Panic
    } else if w == "assert".spec_bytes() {
        TokenKind::Assert
    } else if w == "let".spec_bytes() {
        TokenKind::Let
    } else if w == "if".spec_bytes() {
        TokenKind::If
    } else if w == "else".spec_bytes() {
        TokenKind::Else
    } else if w == "iter".spec_bytes() {
        TokenKind::Iter
    } else if w == "of".spec_bytes() {
        TokenKind::Of
    } else if w == "return".spec_bytes() {
        TokenKind::Return
    } else if w == "break".spec_bytes() {
        TokenKind::Break
    } else if w == "continue".spec_bytes() {
        TokenKind::Continue
    } else if w == "use".spec_bytes() {
        TokenKind::Use
    } else if w == "export".spec_bytes() {
        TokenKind::Export
    } else {
        TokenKind::Identifier
    }
}

/// The word that starts at `p`: its kind and where it ends. The word is the
/// longest run of identifier bytes; `let` with `!` right after it is the
/// keyword `let!`.
pub open spec fn word_at(s: Seq<u8>, p: int) -> Option<(TokenKind, int)> {
    if 0 <= p < s.len() && is_ident_start(s[p]) {
        let e = run_end(s, p + 1, ByteClass::IdentPart);
        let k = keyword_kind(s.subrange(p, e));
        if k is Let && e < s.len() && s[e] == 33 {
            Some((TokenKind::LetMut, e + 1))
        } else {
            Some((k, e))
        }
    } else {
        None
    }
}

/// Where the letters, digits and `_` of the word that starts at `p` end.
pub open spec fn word_end(s: Seq<u8>, p: int) -> int {
    run_end(s, p + 1, ByteClass::IdentPart)
}

/// A word is the longest one: it takes every identifier byte there is, so
/// that a keyword is read only where the whole word is the keyword, and a
/// word that merely starts with a keyword is an identifier.
pub proof fn lemma_word_is_longest(s: Seq<u8>, p: int)
    requires
        word_at(s, p) is Some,
    ensures
        p < word_end(s, p) <= s.len(),
        forall|i: int| p <= i < word_end(s, p) ==> in_class(#[trigger] s[i], ByteClass::IdentPart),
        word_end(s, p) < s.len() ==> !in_class(s[word_end(s, p)], ByteClass::IdentPart),
        ({
            let (kind, end) = word_at(s, p)->0;
            let word = keyword_kind(s.subrange(p, word_end(s, p)));
            if kind is LetMut {
                end == word_end(s, p) + 1 && word is Let
            } else {
                end == word_end(s, p) && kind == word
            }
        }),
{
    lemma_run_is_longest(s, p + 1, ByteClass::IdentPart);
    assert forall|i: int| p <= i < word_end(s, p) implies in_class(#[trigger] s[i], ByteClass::IdentPart) by {
    }
}

/// Whether the bytes from `a` up to `b` are the word `w`.
fn word_is(src: &[u8], a: usize, b: usize, w: &str) -> (r: bool)
    requires
        a <= b <= src@.len(),
    ensures
        r == (src@.subrange(a as int, b as int) == w.spec_bytes()),
{
    let wb = w.as_bytes();
    if wb.len() != b - a {
        return false;
    }
    let mut i: usize = 0;
    while i < wb.len()
        invariant
            a <= b <= src@.len(),
            wb@.len() == b - a,
            i <= wb@.len(),
            wb@ == w.spec_bytes(),
            forall|j: int| 0 <= j < i ==> src@[a + j] == #[trigger] wb@[j],
        decreases wb@.len() - i,
    {
        if src[a + i] != wb[i] {
            return false;
        }
        i = i + 1;
    }
    assert(src@.subrange(a as int, b as int) =~= wb@);
    true
}

/// The kind of the word from `a` up to `b`.
fn keyword(src: &[u8], a: usize, b: usize) -> (r: TokenKind)
    requires
        a <= b <= src@.len(),
    ensures
        r == keyword_kind(src@.subrange(a as int, b as int)),
{
    if word_is(src, a, b, "nil") {
        TokenKind::Nil
    } else if word_is(src, a, b, "true") {
        TokenKind::True
    } else if word_is(src, a, b, "false") {
        TokenKind::False
    } else if word_is(src, a, b, "panic") {
        TokenKind::Panic
    } else if word_is(src, a, b, "assert") {
        TokenKind::Assert
    } else if word_is(src, a, b, "let") {
        TokenKind::Let
    } else if word_is(src, a, b, "if") {
        TokenKind::If
    } else if word_is(src, a, b, "else") {
        TokenKind::Else
    } else if word_is(src, a, b, "iter") {
        TokenKind::Iter
    } else if word_is(src, a, b, "of") {
        TokenKind::Of
    } else if word_is(src, a, b, "return") {
        TokenKind::Return
    } else if word_is(src, a, b, "break") {
        TokenKind::Break
    } else if word_is(src, a, b, "continue") {
        TokenKind::Continue
    } else if word_is(src, a, b, "use") {
        TokenKind::Use
    } else if word_is(src, a, b, "export") {
        TokenKind::Export
    } else {
        TokenKind::Identifier
    }
}

/// Reads an identifier or a keyword at `pos`.
pub fn identifier(src: &[u8], pos: usize) -> (r: Option<(TokenKind, usize)>)
    requires
        pos <= src@.len(),
    ensures
        match r {
            Some((k, e)) => word_at(src@, pos as int) == Some((k, e as int)) && pos < e <= src@.len() && src@[e
                - 1] < 128 && src@[pos as int] < 128,
            None => word_at(src@, pos as int) is None,
        },
{
    if pos < src.len() && byte_in_class(src[pos], ByteClass::IdentStart) {
        let e = scan_run(src, pos + 1, ByteClass::IdentPart);
        proof {
            crate::lexer::bytes::lemma_run_is_longest(src@, pos + 1, ByteClass::IdentPart);
        }
        let k = keyword(src, pos, e);
        if k == TokenKind::Let && e < src.len() && src[e] == 33 {
            Some((TokenKind::LetMut, e + 1))
        } else {
            Some((k, e))
        }
    } else {
        None
    }
}

} // verus!
