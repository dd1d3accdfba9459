//! Comments: `//` to the end of the line, and `/* */`, which nests.

use crate::lexer::bytes::at2;
use crate::lexer::bytes::run_end;
use crate::lexer::bytes::scan_run;
use crate::lexer::bytes::starts_with2;
use crate::lexer::bytes::ByteClass;
use vstd::prelude::*;

verus! {

/// Where the line comment that starts at `p` ends: before the line feed, or
/// at the end of the text.
pub open spec fn line_comment_at(s: Seq<u8>, p: int) -> Option<int> {
    if starts_with2(s, p, 47, 47) {
        Some(run_end(s, p + 2, ByteClass::NotNewline))
    } else {
        None
    }
}

/// Where the block comment ends whose text goes on at `p` with `depth`
/// openings not yet closed: `*/` closes one, `/*` opens one more, and the
/// comment ends where the last one is closed. There is no end if the text
/// runs out first.
pub open spec fn block_comment_close(s: Seq<u8>, p: int, depth: nat) -> Option<int>
    decreases s.len() - p,
{
    if p < 0 || p + 1 >= s.len() {
        None
    } else if s[p] == 42 && s[p + 1] == 47 {
        if depth <= 1 {
            Some(p + 2)
        } else {
            block_comment_close(s, p + 2, (depth - 1) as nat)
        }
    } else if s[p] == 47 && s[p + 1] == 42 {
        block_comment_close(s, p + 2, depth + 1)
    } else {
        block_comment_close(s, p + 1, depth)
    }
}

/// Where the block comment that starts at `p` ends.
pub open spec fn block_comment_at(s: Seq<u8>, p: int) -> Option<int> {
    if starts_with2(s, p, 47, 42) {
        block_comment_close(s, p + 2, 1)
    } else {
        None
    }
}

/// A block comment ends inside the text, right after a `*/`.
pub proof fn lemma_block_comment_closed(s: Seq<u8>, p: int, depth: nat)
    requires
        0 <= p,
        block_comment_close(s, p, depth) is Some,
    ensures
        p + 2 <= block_comment_close(s, p, depth)->0 <= s.len(),
        s[block_comment_close(s, p, depth)->0 - 2] == 42,
        s[block_comment_close(s, p, depth)->0 - 1] == 47,
    decreases s.len() - p,
{
    if p + 1 >= s.len() {
    } else if s[p] == 42 && s[p + 1] == 47 {
        if depth > 1 {
            lemma_block_comment_closed(s, p + 2, (depth - 1) as nat);
        }
    } else if s[p] == 47 && s[p + 1] == 42 {
        lemma_block_comment_closed(s, p + 2, depth + 1);
    } else {
        lemma_block_comment_closed(s, p + 1, depth);
    }
}

/// A comment inside a comment is part of it: where a closed comment stands
/// inside an open one, the open one goes on after it at the same depth.
pub proof fn lemma_block_comment_nests(s: Seq<u8>, p: int, depth: nat)
    requires
        depth >= 1,
        starts_with2(s, p, 47, 42),
        block_comment_close(s, p + 2, 1) is Some,
    ensures
        block_comment_close(s, p, depth) == block_comment_close(
            s,
            block_comment_close(s, p + 2, 1)->0,
            depth,
        ),
{
    lemma_nested_close(s, p + 2, 1, depth);
}

/// Scanning with `extra` more openings behaves like scanning without them
/// until the inner comment closes.
proof fn lemma_nested_close(s: Seq<u8>, p: int, inner: nat, extra: nat)
    requires
        0 <= p,
        inner >= 1,
        block_comment_close(s, p, inner) is Some,
    ensures
        block_comment_close(s, p, inner + extra) == if extra == 0 {
            block_comment_close(s, p, inner)
        } else {
            block_comment_close(s, block_comment_close(s, p, inner)->0, extra)
        },
    decreases s.len() - p,
{
    if extra == 0 {
    } else if p + 1 >= s.len() {
    } else if s[p] == 42 && s[p + 1] == 47 {
        if inner > 1 {
            lemma_nested_close(s, p + 2, (inner - 1) as nat, extra);
        }
    } else if s[p] == 47 && s[p + 1] == 42 {
        lemma_nested_close(s, p + 2, inner + 1, extra);
    } else {
        lemma_nested_close(s, p + 1, inner, extra);
    }
}

/// Reads a line comment at `pos`.
pub fn line_comment(src: &[u8], pos: usize) -> (r: Option<usize>)
    requires
        pos <= src@.len(),
    ensures
        match r {
            Some(e) => line_comment_at(src@, pos as int) == Some(e as int) && pos < e <= src@.len(),
            None => line_comment_at(src@, pos as int) is None,
        },
{
    // a length is a `usize`: places up to it can be counted without overflow
    let _ = src.len();
    if at2(src, pos, 47, 47) {
        Some(scan_run(src, pos + 2, ByteClass::NotNewline))
    } else {
        None
    }
}

/// Reads a block comment at `pos`, nested comments included.
pub fn block_comment(src: &[u8], pos: usize) -> (r: Option<usize>)
    requires
        pos <= src@.len(),
    ensures
        match r {
            Some(e) => block_comment_at(src@, pos as int) == Some(e as int) && pos < e <= src@.len(),
            None => block_comment_at(src@, pos as int) is None,
        },
{
    // a length is a `usize`: places up to it can be counted without overflow
    let _ = src.len();
    if !at2(src, pos, 47, 42) {
        return None;
    }
    let mut i: usize = pos + 2;
    let mut depth: usize = 1;
    while i < src.len() && src.len() - i >= 2
        invariant
            pos + 2 <= i <= src@.len(),
            1 <= depth <= i,
            starts_with2(src@, pos as int, 47, 42),
            block_comment_close(src@, pos + 2, 1) == block_comment_close(src@, i as int, depth as nat),
        decreases src@.len() - i,
    {
        if src[i] == 42 && src[i + 1] == 47 {
            if depth <= 1 {
                return Some(i + 2);
            }
            depth = depth - 1;
            i = i + 2;
        } else if src[i] == 47 && src[i + 1] == 42 {
            depth = depth + 1;
            i = i + 2;
        } else {
            i = i + 1;
        }
    }
    None
}

} // verus!
