//! The abstract syntax tree: every node owns its span and its sub-nodes.

use crate::span::HasSpan;
use crate::span::Span;
use vstd::prelude::*;
use vstd::std_specs::cmp::PartialEqSpecImpl;
use vstd::std_specs::convert::FromSpecImpl;

verus! {

/// The literal `nil`.
#[derive(Debug, Clone, PartialEq, Eq)]
pub struct Nil {
    pub span: Span,
}

impl Nil {
    pub fn new(span: Span) -> (r: Nil)
        ensures
            r.span == span,
    {
        Nil { span }
    }

    pub fn new_dummy() -> (r: Nil)
        ensures
            r.span == Span::spec_dummy(),
    {
        Nil { span: Span::dummy() }
    }
}

/// A boolean literal.
#[derive(Debug, Clone, PartialEq, Eq)]
pub struct Boolean {
    pub span: Span,
    pub value: bool,
}

impl Boolean {
    pub fn new(value: bool, span: Span) -> (r: Boolean)
        ensures
            r.span == span,
            r.value == value,
    {
        Boolean { span, value }
    }

    pub fn new_dummy(value: bool) -> (r: Boolean)
        ensures
            r.span == Span::spec_dummy(),
            r.value == value,
    {
        Boolean { span: Span::dummy(), value }
    }

    pub fn value(&self) -> (r: bool)
        ensures
            r == self.value,
    {
        self.value
    }
}

/// An integer literal.
#[derive(Debug, Clone, PartialEq, Eq)]
pub struct Integer {
    pub span: Span,
    pub value: i32,
}

impl Integer {
    pub fn new(value: i32, span: Span) -> (r: Integer)
        ensures
            r.span == span,
            r.value == value,
    {
        Integer { span, value }
    }

    pub fn new_dummy(value: i32) -> (r: Integer)
        ensures
            r.span == Span::spec_dummy(),
            r.value == value,
    {
        Integer { span: Span::dummy(), value }
    }
}

/// A string literal; `value` is the text between the quotes.
#[derive(Debug, Clone, PartialEq, Eq)]
pub struct StringT {
    pub span: Span,
    pub value: String,
}

impl StringT {
    pub fn new(value: &str, span: Span) -> (r: StringT)
        ensures
            r.span == span,
            r.value@ == value@,
    {
        StringT { span, value: value.to_owned() }
    }

    pub fn new_dummy(value: &str) -> (r: StringT)
        ensures
            r.span == Span::spec_dummy(),
            r.value@ == value@,
    {
        StringT { span: Span::dummy(), value: value.to_owned() }
    }

    pub fn into_string(self) -> (r: String)
        ensures
            r == self.value,
    {
        self.value
    }
}

/// The four literal leaves.
#[derive(Debug, Clone, PartialEq)]
pub enum Literal {
    Nil(Nil),
    Boolean(Boolean),
    Integer(Integer),
    String(StringT),
}

/// An identifier. Two identifiers are equal when their symbols are; the span
/// takes no part in the comparison.
#[derive(Debug, Clone, Eq)]
pub struct Ident {
    pub span: Span,
    pub symbol: String,
}

impl Ident {
    pub fn new(symbol: &str, span: Span) -> (r: Ident)
        ensures
            r.span == span,
            r.symbol@ == symbol@,
    {
        Ident { span, symbol: symbol.to_owned() }
    }

    pub fn new_dummy(symbol: &str) -> (r: Ident)
        ensures
            r.span == Span::spec_dummy(),
            r.symbol@ == symbol@,
    {
        Ident { span: Span::dummy(), symbol: symbol.to_owned() }
    }

    pub fn symbol(&self) -> (r: &str)
        ensures
            r@ == self.symbol@,
    {
        self.symbol.as_str()
    }

    pub fn into_symbol(self) -> (r: String)
        ensures
            r == self.symbol,
    {
        self.symbol
    }
}

impl PartialEq for Ident {
    fn eq(&self, other: &Ident) -> (r: bool) {
        self.symbol == other.symbol
    }
}

impl PartialEqSpecImpl for Ident {
    open spec fn obeys_eq_spec() -> bool {
        true
    }

    open spec fn eq_spec(&self, other: &Ident) -> bool {
        self.symbol@ == other.symbol@
    }
}

/// An array literal.
#[derive(Debug, PartialEq)]
pub struct Array {
    pub span: Span,
    pub elements: Vec<Expr>,
}

impl Array {
    pub fn new(elements: Vec<Expr>, span: Span) -> (r: Array)
        ensures
            r.span == span,
            r.elements == elements,
    {
        Array { span, elements }
    }

    pub fn new_dummy(elements: Vec<Expr>) -> (r: Array)
        ensures
            r.span == Span::spec_dummy(),
            r.elements == elements,
    {
        Array { span: Span::dummy(), elements }
    }
}

/// A record literal: its fields in the order they were written.
#[derive(Debug, PartialEq)]
pub struct Record {
    pub span: Span,
    pub fields: Vec<(Ident, Expr)>,
}

/// The parameter names of a function literal.
#[derive(Debug, PartialEq)]
pub struct Parameters(pub Vec<Ident>);

/// The argument expressions of a call.
#[derive(Debug, PartialEq)]
pub struct Arguments(pub Vec<Expr>);

/// An anonymous function: parameter names and a body.
#[derive(Debug, PartialEq)]
pub struct Function {
    pub parameters: Parameters,
    pub body: Code,
}

/// The prefix operators.
#[derive(Debug, Clone, Copy, PartialEq, Eq, Structural)]
pub enum UnaryExprKind {
    Minus,
    Not,
}

/// A prefix operator applied to an operand.
#[derive(Debug, PartialEq)]
pub struct UnaryExpr {
    pub span: Span,
    pub op: UnaryExprKind,
    pub expr: Box<Expr>,
}

/// The infix operators.
#[derive(Debug, Clone, Copy, PartialEq, Eq, Structural)]
pub enum BinExprKind {
    Add,
    Sub,
    Mul,
    Div,
    Mod,
    Equal,
    NotEqual,
    LessThan,
    GreaterThan,
    LessThanEqual,
    GreaterThanEqual,
    And,
    Or,
}

/// An infix operator applied to two operands.
#[derive(Debug, PartialEq)]
pub struct BinExpr {
    pub span: Span,
    pub op: BinExprKind,
    pub lhs: Box<Expr>,
    pub rhs: Box<Expr>,
}

impl BinExpr {
    pub fn new(op: BinExprKind, lhs: Expr, rhs: Expr, span: Span) -> (r: BinExpr)
        ensures
            r.span == span,
            r.op == op,
            *r.lhs == lhs,
            *r.rhs == rhs,
    {
        BinExpr { span, op, lhs: Box::new(lhs), rhs: Box::new(rhs) }
    }
}

/// Every form an expression can take.
#[derive(Debug, PartialEq)]
pub enum ExprKind {
    Literal(Literal),
    Ident(Ident),
    Array(Array),
    Record(Record),
    Function(Function),
    Call(Box<Expr>, Arguments),
    Prop(Box<Expr>, Ident),
    Index(Box<Expr>, Box<Expr>),
    UnaryExpr(UnaryExpr),
    BinExpr(BinExpr),
    Assign(Ident, Box<Expr>),
    AddAssign(Ident, Box<Expr>),
    SubAssign(Ident, Box<Expr>),
    MulAssign(Ident, Box<Expr>),
    DivAssign(Ident, Box<Expr>),
    ModAssign(Ident, Box<Expr>),
    Declare(Ident, Box<Expr>),
    DeclareMut(Ident, Box<Expr>),
    If { condition: Box<Expr>, yes: Code },
    IfElse { condition: Box<Expr>, yes: Code, no: Code },
    For { collection: Box<Expr>, item: Ident, body: Code },
    Panic(Box<Expr>),
    Assert(Box<Expr>),
    Return(Box<Expr>),
    Break(Box<Expr>),
    Continue(Box<Expr>),
}

/// An expression: its form and where it stood in the source.
#[derive(Debug, PartialEq)]
pub struct Expr {
    pub span: Span,
    pub kind: ExprKind,
}

impl Expr {
    pub fn new(kind: ExprKind, span: Span) -> (r: Expr)
        ensures
            r.span == span,
            r.kind == kind,
    {
        Expr { span, kind }
    }

    pub fn new_dummy(kind: ExprKind) -> (r: Expr)
        ensures
            r.span == Span::spec_dummy(),
            r.kind == kind,
    {
        Expr { span: Span::dummy(), kind }
    }

    /// An infix expression that spans `start..end`; the node and the
    /// expression that wraps it carry the same span.
    pub fn new_lalr_binexpr(parts: (usize, (Expr, BinExprKind, Expr), usize)) -> (r: Expr)
        ensures
            r.span == (Span { start: parts.0, end: parts.2 }),
            r.kind == ExprKind::BinExpr(
                BinExpr {
                    span: Span { start: parts.0, end: parts.2 },
                    op: parts.1.1,
                    lhs: Box::new(parts.1.0),
                    rhs: Box::new(parts.1.2),
                },
            ),
    {
        let (start, (lhs, op, rhs), end) = parts;
        let span = Span::new(start, end);
        Expr { span, kind: ExprKind::BinExpr(BinExpr { span, op, lhs: Box::new(lhs), rhs: Box::new(rhs) }) }
    }

    /// A prefix expression that spans `start..end`; the node and the
    /// expression that wraps it carry the same span.
    pub fn new_lalr_unaryexpr(parts: (usize, (UnaryExprKind, Expr), usize)) -> (r: Expr)
        ensures
            r.span == (Span { start: parts.0, end: parts.2 }),
            r.kind == ExprKind::UnaryExpr(
                UnaryExpr { span: Span { start: parts.0, end: parts.2 }, op: parts.1.0, expr: Box::new(parts.1.1) },
            ),
    {
        let (start, (op, expr), end) = parts;
        let span = Span::new(start, end);
        Expr { span, kind: ExprKind::UnaryExpr(UnaryExpr { span, op, expr: Box::new(expr) }) }
    }
}

/// A block: expressions in order. A block evaluates to its last expression.
#[derive(Debug, PartialEq)]
pub struct Code {
    pub span: Span,
    pub stmts: Vec<Expr>,
}

impl Code {
    pub fn new(stmts: Vec<Expr>, span: Span) -> (r: Code)
        ensures
            r.span == span,
            r.stmts == stmts,
    {
        Code { span, stmts }
    }

    pub fn new_dummy(stmts: Vec<Expr>) -> (r: Code)
        ensures
            r.span == Span::spec_dummy(),
            r.stmts == stmts,
    {
        Code { span: Span::dummy(), stmts }
    }
}

impl From<BinExpr> for ExprKind {
    fn from(value: BinExpr) -> (r: ExprKind) {
        ExprKind::BinExpr(value)
    }
}

impl FromSpecImpl<BinExpr> for ExprKind {
    open spec fn obeys_from_spec() -> bool {
        true
    }

    open spec fn from_spec(value: BinExpr) -> ExprKind {
        ExprKind::BinExpr(value)
    }
}

impl From<BinExpr> for Expr {
    fn from(value: BinExpr) -> (r: Expr) {
        Expr { span: value.span, kind: ExprKind::BinExpr(value) }
    }
}

impl FromSpecImpl<BinExpr> for Expr {
    open spec fn obeys_from_spec() -> bool {
        true
    }

    open spec fn from_spec(value: BinExpr) -> Expr {
        Expr { span: value.span, kind: ExprKind::BinExpr(value) }
    }
}

impl HasSpan for Nil {
    open spec fn spec_span(&self) -> Span {
        self.span
    }

    fn span(&self) -> (r: Span) {
        self.span
    }

    fn set_span(&mut self, span: Span) {
        self.span = span;
    }

    fn with_span(self, span: Span) -> (r: Self) {
        Nil { span }
    }
}

impl HasSpan for Boolean {
    open spec fn spec_span(&self) -> Span {
        self.span
    }

    fn span(&self) -> (r: Span) {
        self.span
    }

    fn set_span(&mut self, span: Span)
        ensures
            final(self).value == old(self).value,
    {
        self.span = span;
    }

    fn with_span(self, span: Span) -> (r: Self)
        ensures
            r.value == self.value,
    {
        Boolean { span, value: self.value }
    }
}

impl HasSpan for Integer {
    open spec fn spec_span(&self) -> Span {
        self.span
    }

    fn span(&self) -> (r: Span) {
        self.span
    }

    fn set_span(&mut self, span: Span)
        ensures
            final(self).value == old(self).value,
    {
        self.span = span;
    }

    fn with_span(self, span: Span) -> (r: Self)
        ensures
            r.value == self.value,
    {
        Integer { span, value: self.value }
    }
}

impl HasSpan for StringT {
    open spec fn spec_span(&self) -> Span {
        self.span
    }

    fn span(&self) -> (r: Span) {
        self.span
    }

    fn set_span(&mut self, span: Span)
        ensures
            final(self).value == old(self).value,
    {
        self.span = span;
    }

    fn with_span(self, span: Span) -> (r: Self)
        ensures
            r.value == self.value,
    {
        StringT { span, value: self.value }
    }
}

impl HasSpan for Ident {
    open spec fn spec_span(&self) -> Span {
        self.span
    }

    fn span(&self) -> (r: Span) {
        self.span
    }

    fn set_span(&mut self, span: Span)
        ensures
            final(self).symbol == old(self).symbol,
    {
        self.span = span;
    }

    fn with_span(self, span: Span) -> (r: Self)
        ensures
            r.symbol == self.symbol,
    {
        Ident { span, symbol: self.symbol }
    }
}

impl HasSpan for Array {
    open spec fn spec_span(&self) -> Span {
        self.span
    }

    fn span(&self) -> (r: Span) {
        self.span
    }

    fn set_span(&mut self, span: Span)
        ensures
            final(self).elements == old(self).elements,
    {
        self.span = span;
    }

    fn with_span(self, span: Span) -> (r: Self)
        ensures
            r.elements == self.elements,
    {
        Array { span, elements: self.elements }
    }
}

impl HasSpan for Record {
    open spec fn spec_span(&self) -> Span {
        self.span
    }

    fn span(&self) -> (r: Span) {
        self.span
    }

    fn set_span(&mut self, span: Span)
        ensures
            final(self).fields == old(self).fields,
    {
        self.span = span;
    }

    fn with_span(self, span: Span) -> (r: Self)
        ensures
            r.fields == self.fields,
    {
        Record { span, fields: self.fields }
    }
}

impl HasSpan for UnaryExpr {
    open spec fn spec_span(&self) -> Span {
        self.span
    }

    fn span(&self) -> (r: Span) {
        self.span
    }

    fn set_span(&mut self, span: Span)
        ensures
            final(self).op == old(self).op,
            final(self).expr == old(self).expr,
    {
        self.span = span;
    }

    fn with_span(self, span: Span) -> (r: Self)
        ensures
            r.op == self.op,
            r.expr == self.expr,
    {
        UnaryExpr { span, op: self.op, expr: self.expr }
    }
}

impl HasSpan for BinExpr {
    open spec fn spec_span(&self) -> Span {
        self.span
    }

    fn span(&self) -> (r: Span) {
        self.span
    }

    fn set_span(&mut self, span: Span)
        ensures
            final(self).op == old(self).op,
            final(self).lhs == old(self).lhs,
            final(self).rhs == old(self).rhs,
    {
        self.span = span;
    }

    fn with_span(self, span: Span) -> (r: Self)
        ensures
            r.op == self.op,
            r.lhs == self.lhs,
            r.rhs == self.rhs,
    {
        BinExpr { span, op: self.op, lhs: self.lhs, rhs: self.rhs }
    }
}

impl HasSpan for Expr {
    open spec fn spec_span(&self) -> Span {
        self.span
    }

    fn span(&self) -> (r: Span) {
        self.span
    }

    fn set_span(&mut self, span: Span)
        ensures
            final(self).kind == old(self).kind,
    {
        self.span = span;
    }

    fn with_span(self, span: Span) -> (r: Self)
        ensures
            r.kind == self.kind,
    {
        Expr { span, kind: self.kind }
    }
}

impl HasSpan for Code {
    open spec fn spec_span(&self) -> Span {
        self.span
    }

    fn span(&self) -> (r: Span) {
        self.span
    }

    fn set_span(&mut self, span: Span)
        ensures
            final(self).stmts == old(self).stmts,
    {
        self.span = span;
    }

    fn with_span(self, span: Span) -> (r: Self)
        ensures
            r.stmts == self.stmts,
    {
        Code { span, stmts: self.stmts }
    }
}

} // verus!
