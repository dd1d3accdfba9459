//! The mathematical model of the syntax tree: the same tree with sequences in
//! place of vectors and strings.

use crate::ast::Arguments;
use crate::ast::Array;
use crate::ast::BinExpr;
use crate::ast::BinExprKind;
use crate::ast::Code;
use crate::ast::Expr;
use crate::ast::ExprKind;
use crate::ast::Function;
use crate::ast::Ident;
use crate::ast::Literal;
use crate::ast::Parameters;
use crate::ast::Record;
use crate::ast::UnaryExpr;
use crate::ast::UnaryExprKind;
use crate::span::Span;
use vstd::prelude::*;

verus! {

/// An identifier: where it stood and its text.
pub struct IdentView {
    pub span: Span,
    pub symbol: Seq<char>,
}

/// A literal leaf.
pub enum LiteralView {
    Nil(Span),
    Boolean(Span, bool),
    Integer(Span, i32),
    String(Span, Seq<char>),
}

/// The assignment operators: plain `=` and the five compound forms.
pub enum AssignOp {
    Plain,
    Add,
    Sub,
    Mul,
    Div,
    Mod,
}

/// The keywords that wrap one operand.
pub enum ControlKind {
    Panic,
    Assert,
    Return,
    Break,
    Continue,
}

/// A block.
pub struct CodeView {
    pub span: Span,
    pub stmts: Seq<ExprView>,
}

/// A function literal.
pub struct FunctionView {
    pub parameters: Seq<IdentView>,
    pub body: CodeView,
}

/// An expression.
pub struct ExprView {
    pub span: Span,
    pub kind: ExprKindView,
}

/// The forms of an expression.
pub enum ExprKindView {
    Literal(LiteralView),
    Ident(IdentView),
    Array { span: Span, elements: Seq<ExprView> },
    Record { span: Span, fields: Seq<(IdentView, ExprView)> },
    Function(FunctionView),
    Call(Box<ExprView>, Seq<ExprView>),
    Prop(Box<ExprView>, IdentView),
    Index(Box<ExprView>, Box<ExprView>),
    Unary { span: Span, op: UnaryExprKind, expr: Box<ExprView> },
    Binary { span: Span, op: BinExprKind, lhs: Box<ExprView>, rhs: Box<ExprView> },
    Assign(AssignOp, IdentView, Box<ExprView>),
    Declare(bool, IdentView, Box<ExprView>),
    If(Box<ExprView>, CodeView, Option<CodeView>),
    For(Box<ExprView>, IdentView, CodeView),
    Control(ControlKind, Box<ExprView>),
}

impl Ident {
    pub open spec fn view(&self) -> IdentView {
        IdentView { span: self.span, symbol: self.symbol@ }
    }
}

impl Literal {
    pub open spec fn view(&self) -> LiteralView {
        match self {
            Literal::Nil(n) => LiteralView::Nil(n.span),
            Literal::Boolean(b) => LiteralView::Boolean(b.span, b.value),
            Literal::Integer(i) => LiteralView::Integer(i.span, i.value),
            Literal::String(s) => LiteralView::String(s.span, s.value@),
        }
    }
}

/// The models of a sequence of identifiers.
pub open spec fn idents_view(s: Seq<Ident>) -> Seq<IdentView> {
    Seq::new(s.len(), |i: int| s[i].view())
}

impl Parameters {
    pub open spec fn view(&self) -> Seq<IdentView> {
        idents_view(self.0@)
    }
}

impl Expr {
    pub open spec fn view(&self) -> ExprView
        decreases self,
    {
        ExprView { span: self.span, kind: self.kind.view() }
    }
}

impl Code {
    pub open spec fn view(&self) -> CodeView
        decreases self,
    {
        CodeView {
            span: self.span,
            stmts: Seq::new(
                self.stmts@.len(),
                |i: int|
                    if 0 <= i < self.stmts@.len() {
                        self.stmts@[i].view()
                    } else {
                        arbitrary()
                    },
            ),
        }
    }
}

impl Function {
    pub open spec fn view(&self) -> FunctionView
        decreases self,
    {
        FunctionView { parameters: self.parameters.view(), body: self.body.view() }
    }
}

impl Arguments {
    pub open spec fn view(&self) -> Seq<ExprView>
        decreases self,
    {
        Seq::new(
            self.0@.len(),
            |i: int|
                if 0 <= i < self.0@.len() {
                    self.0@[i].view()
                } else {
                    arbitrary()
                },
        )
    }
}

impl Array {
    pub open spec fn view(&self) -> ExprKindView
        decreases self,
    {
        ExprKindView::Array {
            span: self.span,
            elements: Seq::new(
                self.elements@.len(),
                |i: int|
                    if 0 <= i < self.elements@.len() {
                        self.elements@[i].view()
                    } else {
                        arbitrary()
                    },
            ),
        }
    }
}

impl Record {
    pub open spec fn view(&self) -> ExprKindView
        decreases self,
    {
        ExprKindView::Record {
            span: self.span,
            fields: Seq::new(
                self.fields@.len(),
                |i: int|
                    if 0 <= i < self.fields@.len() {
                        (self.fields@[i].0.view(), self.fields@[i].1.view())
                    } else {
                        arbitrary()
                    },
            ),
        }
    }
}

impl UnaryExpr {
    pub open spec fn view(&self) -> ExprKindView
        decreases self,
    {
        ExprKindView::Unary { span: self.span, op: self.op, expr: Box::new(self.expr.view()) }
    }
}

impl BinExpr {
    pub open spec fn view(&self) -> ExprKindView
        decreases self,
    {
        ExprKindView::Binary {
            span: self.span,
            op: self.op,
            lhs: Box::new(self.lhs.view()),
            rhs: Box::new(self.rhs.view()),
        }
    }
}

impl ExprKind {
    pub open spec fn view(&self) -> ExprKindView
        decreases self,
    {
        match self {
            ExprKind::Literal(l) => ExprKindView::Literal(l.view()),
            ExprKind::Ident(i) => ExprKindView::Ident(i.view()),
            ExprKind::Array(a) => a.view(),
            ExprKind::Record(r) => r.view(),
            ExprKind::Function(f) => ExprKindView::Function(f.view()),
            ExprKind::Call(f, args) => ExprKindView::Call(Box::new(f.view()), args.view()),
            ExprKind::Prop(e, i) => ExprKindView::Prop(Box::new(e.view()), i.view()),
            ExprKind::Index(e, i) => ExprKindView::Index(Box::new(e.view()), Box::new(i.view())),
            ExprKind::UnaryExpr(u) => u.view(),
            ExprKind::BinExpr(b) => b.view(),
            ExprKind::Assign(i, e) => ExprKindView::Assign(AssignOp::Plain, i.view(), Box::new(e.view())),
            ExprKind::AddAssign(i, e) => ExprKindView::Assign(AssignOp::Add, i.view(), Box::new(e.view())),
            ExprKind::SubAssign(i, e) => ExprKindView::Assign(AssignOp::Sub, i.view(), Box::new(e.view())),
            ExprKind::MulAssign(i, e) => ExprKindView::Assign(AssignOp::Mul, i.view(), Box::new(e.view())),
            ExprKind::DivAssign(i, e) => ExprKindView::Assign(AssignOp::Div, i.view(), Box::new(e.view())),
            ExprKind::ModAssign(i, e) => ExprKindView::Assign(AssignOp::Mod, i.view(), Box::new(e.view())),
            ExprKind::Declare(i, e) => ExprKindView::Declare(false, i.view(), Box::new(e.view())),
            ExprKind::DeclareMut(i, e) => ExprKindView::Declare(true, i.view(), Box::new(e.view())),
            ExprKind::If { condition, yes } => ExprKindView::If(Box::new(condition.view()), yes.view(), None),
            ExprKind::IfElse { condition, yes, no } => ExprKindView::If(
                Box::new(condition.view()),
                yes.view(),
                Some(no.view()),
            ),
            ExprKind::For { collection, item, body } => ExprKindView::For(
                Box::new(collection.view()),
                item.view(),
                body.view(),
            ),
            ExprKind::Panic(e) => ExprKindView::Control(ControlKind::Panic, Box::new(e.view())),
            ExprKind::Assert(e) => ExprKindView::Control(ControlKind::Assert, Box::new(e.view())),
            ExprKind::Return(e) => ExprKindView::Control(ControlKind::Return, Box::new(e.view())),
            ExprKind::Break(e) => ExprKindView::Control(ControlKind::Break, Box::new(e.view())),
            ExprKind::Continue(e) => ExprKindView::Control(ControlKind::Continue, Box::new(e.view())),
        }
    }
}

/// The models of a sequence of expressions.
pub open spec fn exprs_view(s: Seq<Expr>) -> Seq<ExprView> {
    Seq::new(s.len(), |i: int| s[i].view())
}

/// The models of a sequence of record fields.
pub open spec fn expr_fields_view(s: Seq<(Ident, Expr)>) -> Seq<(IdentView, ExprView)> {
    Seq::new(s.len(), |i: int| (s[i].0.view(), s[i].1.view()))
}

/// The model of a block holds the models of its statements.
pub proof fn lemma_code_view(c: &Code)
    ensures
        c.view().stmts == exprs_view(c.stmts@),
        c.view().span == c.span,
{
}

/// The model of an argument list holds the models of the arguments.
pub proof fn lemma_arguments_view(a: &Arguments)
    ensures
        a.view() == exprs_view(a.0@),
{
}

/// The model of an array literal holds the models of its elements.
pub proof fn lemma_array_literal_view(a: &Array)
    ensures
        a.view() == (ExprKindView::Array { span: a.span, elements: exprs_view(a.elements@) }),
{
    assert(a.view()->Array_elements =~= exprs_view(a.elements@));
}

/// The model of a record literal holds the models of its fields.
pub proof fn lemma_record_literal_view(r: &Record)
    ensures
        r.view() == (ExprKindView::Record { span: r.span, fields: expr_fields_view(r.fields@) }),
{
    assert(r.view()->Record_fields =~= expr_fields_view(r.fields@));
}

} // verus!
