//! A node of a concrete syntax tree: so far only the place it stands at.

use crate::span::HasSpan;
use crate::span::Span;
use vstd::prelude::*;

verus! {

/// A node of a concrete syntax tree.
#[derive(Debug, Clone, Copy, PartialEq, Eq)]
pub struct CstNode {
    pub span: Span,
}

impl HasSpan for CstNode {
    open spec fn spec_span(&self) -> Span {
        self.span
    }

    fn span(&self) -> (r: Span) {
        self.span
    }

    fn set_span(&mut self, span: Span) {
        self.span = span;
    }

    fn with_span(self, span: Span) -> (r: Self) {
        CstNode { span }
    }
}

} // verus!
