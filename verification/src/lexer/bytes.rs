//! Classes of bytes, runs of one class, and slices of source text.

use vstd::prelude::*;
use vstd::string::StringSliceAdditionalSpecFns;
use vstd::utf8::decode_utf8;
use vstd::utf8::is_char_boundary;
use vstd::utf8::valid_utf8;

verus! {

/// The classes of bytes that tokens are made of.
#[derive(Debug, Clone, Copy, PartialEq, Eq, Structural)]
pub enum ByteClass {
    /// A blank or a tab.
    Space,
    /// `0` to `9`.
    Digit,
    /// A letter of ASCII or `_`.
    IdentStart,
    /// A letter of ASCII, a digit or `_`.
    IdentPart,
    /// Anything but a line feed.
    NotNewline,
}

/// Whether a byte is a decimal digit.
pub open spec fn is_digit(c: u8) -> bool {
    48 <= c <= 57
}

/// Whether a byte can start an identifier.
pub open spec fn is_ident_start(c: u8) -> bool {
    c == 95 || 65 <= c <= 90 || 97 <= c <= 122
}

/// Whether a byte belongs to a class.
pub open spec fn in_class(c: u8, class: ByteClass) -> bool {
    match class {
        ByteClass::Space => c == 32 || c == 9,
        ByteClass::Digit => is_digit(c),
        ByteClass::IdentStart => is_ident_start(c),
        ByteClass::IdentPart => is_ident_start(c) || is_digit(c),
        ByteClass::NotNewline => c != 10,
    }
}

/// Whether a byte belongs to a class.
pub fn byte_in_class(c: u8, class: ByteClass) -> (r: bool)
    ensures
        r == in_class(c, class),
{
    match class {
        ByteClass::Space => c == 32 || c == 9,
        ByteClass::Digit => 48 <= c && c <= 57,
        ByteClass::IdentStart => c == 95 || (65 <= c && c <= 90) || (97 <= c && c <= 122),
        ByteClass::IdentPart => c == 95 || (65 <= c && c <= 90) || (97 <= c && c <= 122) || (48 <= c && c <= 57),
        ByteClass::NotNewline => c != 10,
    }
}

/// Where the run of bytes of one class that starts at `p` ends: the first
/// place from `p` on whose byte is not of the class, or the end of the text.
pub open spec fn run_end(s: Seq<u8>, p: int, class: ByteClass) -> int
    decreases s.len() - p,
{
    if 0 <= p < s.len() && in_class(s[p], class) {
        run_end(s, p + 1, class)
    } else {
        p
    }
}

/// A run is the longest one: every byte in it is of the class, and the byte
/// after it, if there is one, is not.
pub proof fn lemma_run_is_longest(s: Seq<u8>, p: int, class: ByteClass)
    requires
        0 <= p <= s.len(),
    ensures
        p <= run_end(s, p, class) <= s.len(),
        forall|i: int| p <= i < run_end(s, p, class) ==> in_class(#[trigger] s[i], class),
        run_end(s, p, class) < s.len() ==> !in_class(s[run_end(s, p, class)], class),
    decreases s.len() - p,
{
    if p < s.len() && in_class(s[p], class) {
        lemma_run_is_longest(s, p + 1, class);
    }
}

/// Finds where the run of bytes of one class that starts at `pos` ends.
pub fn scan_run(src: &[u8], pos: usize, class: ByteClass) -> (r: usize)
    requires
        pos <= src@.len(),
    ensures
        r == run_end(src@, pos as int, class),
        pos <= r <= src@.len(),
{
    let mut i = pos;
    while i < src.len() && byte_in_class(src[i], class)
        invariant
            pos <= i <= src@.len(),
            run_end(src@, pos as int, class) == run_end(src@, i as int, class),
        decreases src@.len() - i,
    {
        i = i + 1;
    }
    i
}

/// Whether the two bytes `a`, `b` stand at `p`.
pub open spec fn starts_with2(s: Seq<u8>, p: int, a: u8, b: u8) -> bool {
    0 <= p && p + 1 < s.len() && s[p] == a && s[p + 1] == b
}

/// Whether the two bytes `a`, `b` stand at `pos`.
pub fn at2(src: &[u8], pos: usize, a: u8, b: u8) -> (r: bool)
    ensures
        r == starts_with2(src@, pos as int, a, b),
{
    pos < src.len() && src.len() - pos >= 2 && src[pos] == a && src[pos + 1] == b
}

/// The text that the bytes from `a` up to `b` encode.
pub open spec fn text_of(s: Seq<u8>, a: int, b: int) -> Seq<char> {
    decode_utf8(s.subrange(a, b))
}

/// In well-formed text a character starts right after every byte of ASCII.
pub proof fn lemma_boundary_after_ascii(bytes: Seq<u8>, i: int)
    requires
        valid_utf8(bytes),
        0 <= i < bytes.len(),
        bytes[i] < 128,
    ensures
        is_char_boundary(bytes, i + 1),
    decreases bytes.len(),
{
    reveal_with_fuel(is_char_boundary, 2);
    let n = vstd::utf8::length_of_first_scalar(bytes);
    if i < n {
    } else {
        let rest = vstd::utf8::pop_first_scalar(bytes);
        lemma_boundary_after_ascii(rest, i - n);
    }
}

/// In well-formed text a character starts at every byte of ASCII.
pub proof fn lemma_boundary_at_ascii(bytes: Seq<u8>, i: int)
    requires
        valid_utf8(bytes),
        0 <= i < bytes.len(),
        bytes[i] < 128,
    ensures
        is_char_boundary(bytes, i),
{
    vstd::utf8::is_char_boundary_iff_not_is_continuation_byte(bytes, i);
}

/// The piece of `src` from byte `a` up to byte `b`.
pub fn slice_text(src: &str, a: usize, b: usize) -> (r: String)
    requires
        a <= b <= src.spec_bytes().len(),
        is_char_boundary(src.spec_bytes(), a as int),
        is_char_boundary(src.spec_bytes(), b as int),
    ensures
        r@ == text_of(src.spec_bytes(), a as int, b as int),
{
    let ghost bytes = src.spec_bytes();
    proof {
        vstd::utf8::encode_utf8_valid_utf8(src@);
    }
    let (head, _) = src.split_at(b);
    proof {
        vstd::utf8::encode_utf8_valid_utf8(head@);
        if a < b {
            vstd::utf8::is_char_boundary_iff_not_is_continuation_byte(bytes, a as int);
            vstd::utf8::is_char_boundary_iff_not_is_continuation_byte(head.spec_bytes(), a as int);
        } else {
            vstd::utf8::is_char_boundary_start_end_of_seq(head.spec_bytes());
        }
    }
    let (_, piece) = head.split_at(a);
    proof {
        assert(piece.spec_bytes() =~= bytes.subrange(a as int, b as int));
        vstd::utf8::encode_utf8_decode_utf8(piece@);
    }
    piece.to_owned()
}

} // verus!
