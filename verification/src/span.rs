//! Half-open byte ranges into source text.

use std::cmp::Ordering;
use std::ops::Add;
use std::ops::Range;
use vstd::prelude::*;
use vstd::std_specs::cmp::PartialOrdSpecImpl;
use vstd::std_specs::convert::FromSpecImpl;
use vstd::std_specs::ops::AddSpecImpl;

verus! {

/// A half-open range `[start, end)` of byte offsets.
#[derive(Clone, Copy, Debug, PartialEq, Eq, Hash, Structural)]
pub struct Span {
    pub start: usize,
    pub end: usize,
}

/// The smaller of two offsets.
pub open spec fn spec_min(a: usize, b: usize) -> usize {
    if a <= b {
        a
    } else {
        b
    }
}

/// The larger of two offsets.
pub open spec fn spec_max(a: usize, b: usize) -> usize {
    if a >= b {
        a
    } else {
        b
    }
}

impl Span {
    /// The span that stands for "no real location".
    pub open spec fn spec_dummy() -> Span {
        Span { start: 0, end: 0 }
    }

    /// The span that stands for "no real location".
    pub fn dummy() -> (r: Span)
        ensures
            r == Span::spec_dummy(),
    {
        Span { start: 0, end: 0 }
    }

    /// The smallest span that encloses both `self` and `other`.
    pub open spec fn spec_union(self, other: Span) -> Span {
        Span { start: spec_min(self.start, other.start), end: spec_max(self.end, other.end) }
    }

    /// `self` sorts strictly before `other`: an earlier start wins, and among
    /// equal starts the wider span comes first.
    pub open spec fn spec_lt(self, other: Span) -> bool {
        self.start < other.start || (self.start == other.start && self.end > other.end)
    }

    /// The order of two spans as a three-way comparison.
    pub open spec fn order_of(self, other: Span) -> Ordering {
        if self.spec_lt(other) {
            Ordering::Less
        } else if other.spec_lt(self) {
            Ordering::Greater
        } else {
            Ordering::Equal
        }
    }

    pub fn new(start: usize, end: usize) -> (r: Span)
        ensures
            r.start == start,
            r.end == end,
    {
        Span { start, end }
    }

    pub fn is_dummy(&self) -> (r: bool)
        ensures
            r == (self.start == 0 && self.end == 0),
    {
        self.start == 0 && self.end == 0
    }

    pub fn start(&self) -> (r: usize)
        ensures
            r == self.start,
    {
        self.start
    }

    pub fn end(&self) -> (r: usize)
        ensures
            r == self.end,
    {
        self.end
    }

    pub fn range(&self) -> (r: Range<usize>)
        ensures
            r.start == self.start,
            r.end == self.end,
    {
        self.start..self.end
    }

    pub fn tuple(&self) -> (r: (usize, usize))
        ensures
            r == (self.start, self.end),
    {
        (self.start, self.end)
    }

    /// The smallest span that encloses both.
    pub fn union(self, other: Span) -> (r: Span)
        ensures
            r == self.spec_union(other),
    {
        let start = if self.start <= other.start {
            self.start
        } else {
            other.start
        };
        let end = if self.end >= other.end {
            self.end
        } else {
            other.end
        };
        Span { start, end }
    }
}

impl From<Range<usize>> for Span {
    fn from(value: Range<usize>) -> (r: Span) {
        Span { start: value.start, end: value.end }
    }
}

impl FromSpecImpl<Range<usize>> for Span {
    open spec fn obeys_from_spec() -> bool {
        true
    }

    open spec fn from_spec(value: Range<usize>) -> Span {
        Span { start: value.start, end: value.end }
    }
}

impl From<(usize, usize)> for Span {
    fn from(value: (usize, usize)) -> (r: Span) {
        Span { start: value.0, end: value.1 }
    }
}

impl FromSpecImpl<(usize, usize)> for Span {
    open spec fn obeys_from_spec() -> bool {
        true
    }

    open spec fn from_spec(value: (usize, usize)) -> Span {
        Span { start: value.0, end: value.1 }
    }
}

impl From<Span> for (usize, usize) {
    fn from(value: Span) -> (r: (usize, usize)) {
        (value.start, value.end)
    }
}

impl FromSpecImpl<Span> for (usize, usize) {
    open spec fn obeys_from_spec() -> bool {
        true
    }

    open spec fn from_spec(value: Span) -> (usize, usize) {
        (value.start, value.end)
    }
}

impl From<Span> for Range<usize> {
    fn from(value: Span) -> (r: Range<usize>) {
        value.start..value.end
    }
}

impl FromSpecImpl<Span> for Range<usize> {
    open spec fn obeys_from_spec() -> bool {
        true
    }

    open spec fn from_spec(value: Span) -> Range<usize> {
        Range { start: value.start, end: value.end }
    }
}

impl PartialOrd for Span {
    fn partial_cmp(&self, other: &Span) -> (r: Option<Ordering>) {
        if self.start < other.start {
            Some(Ordering::Less)
        } else if self.start > other.start {
            Some(Ordering::Greater)
        } else if self.end > other.end {
            Some(Ordering::Less)
        } else if self.end < other.end {
            Some(Ordering::Greater)
        } else {
            Some(Ordering::Equal)
        }
    }
}

impl PartialOrdSpecImpl for Span {
    open spec fn obeys_partial_cmp_spec() -> bool {
        true
    }

    open spec fn partial_cmp_spec(&self, other: &Span) -> Option<Ordering> {
        Some(self.order_of(*other))
    }
}

impl Add for Span {
    type Output = Span;

    fn add(self, rhs: Span) -> (r: Span) {
        self.union(rhs)
    }
}

impl AddSpecImpl for Span {
    open spec fn obeys_add_spec() -> bool {
        true
    }

    open spec fn add_req(self, rhs: Span) -> bool {
        true
    }

    open spec fn add_spec(self, rhs: Span) -> Span {
        self.spec_union(rhs)
    }
}

/// Span union does not depend on the order of its operands.
pub proof fn lemma_union_commutative(a: Span, b: Span)
    ensures
        a.spec_union(b) == b.spec_union(a),
{
}

/// The union starts at the smaller start and ends at the larger end, so it
/// encloses both operands.
pub proof fn lemma_union_encloses(a: Span, b: Span)
    ensures
        a.spec_union(b).start == spec_min(a.start, b.start),
        a.spec_union(b).end == spec_max(a.end, b.end),
        a.spec_union(b).start <= a.start && a.end <= a.spec_union(b).end,
        a.spec_union(b).start <= b.start && b.end <= a.spec_union(b).end,
{
}

/// Taking the union with the same span again changes nothing.
pub proof fn lemma_union_idempotent(a: Span, b: Span)
    ensures
        a.spec_union(a) == a,
        a.spec_union(b).spec_union(b) == a.spec_union(b),
        a.spec_union(b).spec_union(a) == a.spec_union(b),
{
}

/// Union is associative.
pub proof fn lemma_union_associative(a: Span, b: Span, c: Span)
    ensures
        a.spec_union(b).spec_union(c) == a.spec_union(b.spec_union(c)),
{
}

/// The order on spans is a strict total order: exactly one of `a < b`,
/// `a == b`, `b < a` holds, and `<` is transitive.
pub proof fn lemma_order_total(a: Span, b: Span, c: Span)
    ensures
        !a.spec_lt(a),
        a.spec_lt(b) ==> !b.spec_lt(a),
        a.spec_lt(b) || b.spec_lt(a) || a == b,
        a.spec_lt(b) && b.spec_lt(c) ==> a.spec_lt(c),
{
}

/// An earlier start sorts first; among equal starts the wider span sorts
/// first.
pub proof fn lemma_order_by_start_then_width(a: Span, b: Span)
    ensures
        a.start < b.start ==> a.spec_lt(b),
        a.start == b.start && a.end > b.end ==> a.spec_lt(b),
        a.spec_lt(b) ==> a.start <= b.start,
{
}

/// A value together with the span it came from.
#[derive(Debug, PartialEq)]
pub struct Spanned<T> {
    pub span: Span,
    pub value: T,
}

impl<T> Spanned<T> {
    pub fn new(span: Span, value: T) -> (r: Spanned<T>)
        ensures
            r.span == span,
            r.value == value,
    {
        Spanned { span, value }
    }

    pub fn get(&self) -> (r: &T)
        ensures
            *r == self.value,
    {
        &self.value
    }

    pub fn get_mut(&mut self) -> (r: &mut T)
        ensures
            *r == old(self).value,
            final(self).value == *final(r),
            final(self).span == old(self).span,
    {
        &mut self.value
    }

    pub fn into_inner(self) -> (r: T)
        ensures
            r == self.value,
    {
        self.value
    }
}

/// Things that carry a span.
pub trait HasSpan: Sized {
    /// The span the value carries.
    spec fn spec_span(&self) -> Span;

    fn span(&self) -> (r: Span)
        ensures
            r == self.spec_span(),
    ;

    fn set_span(&mut self, span: Span)
        ensures
            final(self).spec_span() == span,
    ;

    fn with_span(self, span: Span) -> (r: Self)
        ensures
            r.spec_span() == span,
    ;
}

impl<T> HasSpan for Spanned<T> {
    open spec fn spec_span(&self) -> Span {
        self.span
    }

    fn span(&self) -> (r: Span) {
        self.span
    }

    fn set_span(&mut self, span: Span)
        ensures
            final(self).value == old(self).value,
    {
        self.span = span;
    }

    fn with_span(self, span: Span) -> (r: Self)
        ensures
            r.value == self.value,
    {
        Spanned { span, value: self.value }
    }
}

} // verus!
