//! Structural comparison of syntax trees.

use crate::ast::Code;
use crate::ast::Expr;
use crate::ast::ExprKind;
use crate::ast::Function;
use crate::ast::Ident;
use crate::ast::Literal;
use crate::ast_model::expr_fields_view;
use crate::ast_model::exprs_view;
use crate::ast_model::idents_view;
use crate::ast_model::lemma_arguments_view;
use crate::ast_model::lemma_array_literal_view;
use crate::ast_model::lemma_code_view;
use crate::ast_model::lemma_record_literal_view;
use vstd::prelude::*;

verus! {

/// Whether two identifiers have the same text and the same span.
pub fn same_ident(a: &Ident, b: &Ident) -> (r: bool)
    ensures
        r == (a.view() == b.view()),
{
    a.span == b.span && a.symbol == b.symbol
}

/// Whether two literals are the same, spans included.
pub fn same_literal(a: &Literal, b: &Literal) -> (r: bool)
    ensures
        r == (a.view() == b.view()),
{
    match (a, b) {
        (Literal::Nil(x), Literal::Nil(y)) => x.span == y.span,
        (Literal::Boolean(x), Literal::Boolean(y)) => x.span == y.span && x.value == y.value,
        (Literal::Integer(x), Literal::Integer(y)) => x.span == y.span && x.value == y.value,
        (Literal::String(x), Literal::String(y)) => x.span == y.span && x.value == y.value,
        _ => false,
    }
}

/// Whether two lists of identifiers are the same.
pub fn same_idents(a: &Vec<Ident>, b: &Vec<Ident>) -> (r: bool)
    ensures
        r == (idents_view(a@) == idents_view(b@)),
{
    if a.len() != b.len() {
        assert(idents_view(a@).len() != idents_view(b@).len());
        return false;
    }
    let mut i: usize = 0;
    while i < a.len()
        invariant
            i <= a.len(),
            a.len() == b.len(),
            forall|j: int| 0 <= j < i ==> (#[trigger] a@[j]).view() == b@[j].view(),
        decreases a.len() - i,
    {
        if !same_ident(&a[i], &b[i]) {
            assert(idents_view(a@)[i as int] != idents_view(b@)[i as int]);
            return false;
        }
        i = i + 1;
    }
    assert(idents_view(a@) =~= idents_view(b@));
    true
}

/// Whether two lists of expressions are the same.
pub fn same_exprs(a: &Vec<Expr>, b: &Vec<Expr>) -> (r: bool)
    ensures
        r == (exprs_view(a@) == exprs_view(b@)),
    decreases a,
{
    if a.len() != b.len() {
        assert(exprs_view(a@).len() != exprs_view(b@).len());
        return false;
    }
    let mut i: usize = 0;
    while i < a.len()
        invariant
            i <= a.len(),
            a.len() == b.len(),
            forall|j: int| 0 <= j < i ==> (#[trigger] a@[j]).view() == b@[j].view(),
        decreases a.len() - i,
    {
        proof {
            vstd::std_specs::vec::axiom_vec_index_decreases(*a, i as int);
        }
        if !same_expr(&a[i], &b[i]) {
            assert(exprs_view(a@)[i as int] != exprs_view(b@)[i as int]);
            return false;
        }
        i = i + 1;
    }
    assert(exprs_view(a@) =~= exprs_view(b@));
    true
}

/// Whether two lists of record fields are the same.
pub fn same_fields(a: &Vec<(Ident, Expr)>, b: &Vec<(Ident, Expr)>) -> (r: bool)
    ensures
        r == (expr_fields_view(a@) == expr_fields_view(b@)),
    decreases a,
{
    if a.len() != b.len() {
        assert(expr_fields_view(a@).len() != expr_fields_view(b@).len());
        return false;
    }
    let mut i: usize = 0;
    while i < a.len()
        invariant
            i <= a.len(),
            a.len() == b.len(),
            forall|j: int|
                0 <= j < i ==> (#[trigger] a@[j]).0.view() == b@[j].0.view() && a@[j].1.view() == b@[j].1.view(),
        decreases a.len() - i,
    {
        proof {
            vstd::std_specs::vec::axiom_vec_index_decreases(*a, i as int);
        }
        if !same_ident(&a[i].0, &b[i].0) || !same_expr(&a[i].1, &b[i].1) {
            assert(expr_fields_view(a@)[i as int] != expr_fields_view(b@)[i as int]);
            return false;
        }
        i = i + 1;
    }
    assert(expr_fields_view(a@) =~= expr_fields_view(b@));
    true
}

/// Whether two blocks are the same.
pub fn same_code(a: &Code, b: &Code) -> (r: bool)
    ensures
        r == (a.view() == b.view()),
    decreases a,
{
    proof {
        lemma_code_view(a);
        lemma_code_view(b);
    }
    a.span == b.span && same_exprs(&a.stmts, &b.stmts)
}

/// Whether two function literals are the same.
pub fn same_function(a: &Function, b: &Function) -> (r: bool)
    ensures
        r == (a.view() == b.view()),
    decreases a,
{
    same_idents(&a.parameters.0, &b.parameters.0) && same_code(&a.body, &b.body)
}

/// Whether two expressions are the same, spans included.
pub fn same_expr(a: &Expr, b: &Expr) -> (r: bool)
    ensures
        r == (a.view() == b.view()),
    decreases a,
{
    a.span == b.span && same_kind(&a.kind, &b.kind)
}

/// Whether two expression forms are the same.
pub fn same_kind(a: &ExprKind, b: &ExprKind) -> (r: bool)
    ensures
        r == (a.view() == b.view()),
    decreases a,
{
    match (a, b) {
        (ExprKind::Literal(x), ExprKind::Literal(y)) => same_literal(x, y),
        (ExprKind::Ident(x), ExprKind::Ident(y)) => same_ident(x, y),
        (ExprKind::Array(x), ExprKind::Array(y)) => {
            proof {
                lemma_array_literal_view(x);
                lemma_array_literal_view(y);
            }
            x.span == y.span && same_exprs(&x.elements, &y.elements)
        },
        (ExprKind::Record(x), ExprKind::Record(y)) => {
            proof {
                lemma_record_literal_view(x);
                lemma_record_literal_view(y);
            }
            x.span == y.span && same_fields(&x.fields, &y.fields)
        },
        (ExprKind::Function(x), ExprKind::Function(y)) => same_function(x, y),
        (ExprKind::Call(f, x), ExprKind::Call(g, y)) => {
            proof {
                lemma_arguments_view(x);
                lemma_arguments_view(y);
            }
            same_expr(f, g) && same_exprs(&x.0, &y.0)
        },
        (ExprKind::Prop(e, i), ExprKind::Prop(f, j)) => same_expr(e, f) && same_ident(i, j),
        (ExprKind::Index(e, i), ExprKind::Index(f, j)) => same_expr(e, f) && same_expr(i, j),
        (ExprKind::UnaryExpr(x), ExprKind::UnaryExpr(y)) => x.span == y.span && x.op == y.op && same_expr(
            &x.expr,
            &y.expr,
        ),
        (ExprKind::BinExpr(x), ExprKind::BinExpr(y)) => x.span == y.span && x.op == y.op && same_expr(
            &x.lhs,
            &y.lhs,
        ) && same_expr(&x.rhs, &y.rhs),
        (ExprKind::Assign(i, e), ExprKind::Assign(j, f)) => same_ident(i, j) && same_expr(e, f),
        (ExprKind::AddAssign(i, e), ExprKind::AddAssign(j, f)) => same_ident(i, j) && same_expr(e, f),
        (ExprKind::SubAssign(i, e), ExprKind::SubAssign(j, f)) => same_ident(i, j) && same_expr(e, f),
        (ExprKind::MulAssign(i, e), ExprKind::MulAssign(j, f)) => same_ident(i, j) && same_expr(e, f),
        (ExprKind::DivAssign(i, e), ExprKind::DivAssign(j, f)) => same_ident(i, j) && same_expr(e, f),
        (ExprKind::ModAssign(i, e), ExprKind::ModAssign(j, f)) => same_ident(i, j) && same_expr(e, f),
        (ExprKind::Declare(i, e), ExprKind::Declare(j, f)) => same_ident(i, j) && same_expr(e, f),
        (ExprKind::DeclareMut(i, e), ExprKind::DeclareMut(j, f)) => same_ident(i, j) && same_expr(e, f),
        (ExprKind::If { condition: c, yes: y }, ExprKind::If { condition: d, yes: z }) => same_expr(c, d)
            && same_code(y, z),
        (
            ExprKind::IfElse { condition: c, yes: y, no: n },
            ExprKind::IfElse { condition: d, yes: z, no: m },
        ) => same_expr(c, d) && same_code(y, z) && same_code(n, m),
        (
            ExprKind::For { collection: c, item: i, body: x },
            ExprKind::For { collection: d, item: j, body: y },
        ) => same_expr(c, d) && same_ident(i, j) && same_code(x, y),
        (ExprKind::Panic(e), ExprKind::Panic(f)) => same_expr(e, f),
        (ExprKind::Assert(e), ExprKind::Assert(f)) => same_expr(e, f),
        (ExprKind::Return(e), ExprKind::Return(f)) => same_expr(e, f),
        (ExprKind::Break(e), ExprKind::Break(f)) => same_expr(e, f),
        (ExprKind::Continue(e), ExprKind::Continue(f)) => same_expr(e, f),
        _ => false,
    }
}

} // verus!
