//! Whitespace: runs of blanks and tabs.

use crate::lexer::bytes::in_class;
use crate::lexer::bytes::byte_in_class;
use crate::lexer::bytes::run_end;
use crate::lexer::bytes::scan_run;
use crate::lexer::bytes::ByteClass;
use vstd::prelude::*;

verus! {

/// Where the whitespace that starts at `p` ends, if a blank or a tab stands
/// there.
pub open spec fn whitespace_at(s: Seq<u8>, p: int) -> Option<int> {
    if 0 <= p < s.len() && in_class(s[p], ByteClass::Space) {
        Some(run_end(s, p, ByteClass::Space))
    } else {
        None
    }
}

/// Reads whitespace at `pos`: the end of the longest run of blanks and tabs.
pub fn whitespace(src: &[u8], pos: usize) -> (r: Option<usize>)
    requires
        pos <= src@.len(),
    ensures
        match r {
            Some(e) => whitespace_at(src@, pos as int) == Some(e as int) && pos < e <= src@.len(),
            None => whitespace_at(src@, pos as int) is None,
        },
{
    if pos < src.len() && byte_in_class(src[pos], ByteClass::Space) {
        Some(scan_run(src, pos + 1, ByteClass::Space))
    } else {
        None
    }
}

} // verus!
