//! Walking a syntax tree: a visitor is shown the leaves of a tree, the
//! literals and the identifiers, in the order of the walk.
//!
//! The walk goes through an expression from left to right, with one
//! exception: of a call the arguments come before the callee.

use crate::ast::Array;
use crate::ast::BinExpr;
use crate::ast::Boolean;
use crate::ast::Code;
use crate::ast::Expr;
use crate::ast::ExprKind;
use crate::ast::Function;
use crate::ast::Ident;
use crate::ast::Integer;
use crate::ast::Literal;
use crate::ast::Nil;
use crate::ast::Record;
use crate::ast::StringT;
use crate::ast::UnaryExpr;
use crate::ast_model::expr_fields_view;
use crate::ast_model::exprs_view;
use crate::ast_model::idents_view;
use crate::ast_model::lemma_arguments_view;
use crate::ast_model::lemma_array_literal_view;
use crate::ast_model::lemma_code_view;
use crate::ast_model::lemma_record_literal_view;
use crate::ast_model::CodeView;
use crate::ast_model::ExprKindView;
use crate::ast_model::ExprView;
use crate::ast_model::IdentView;
use crate::ast_model::LiteralView;
use vstd::prelude::*;

verus! {

/// A leaf of a tree: a literal or an identifier.
pub enum Leaf {
    Literal(LiteralView),
    Ident(IdentView),
}

/// The identifiers from place `i` on, as leaves.
pub open spec fn ident_leaves(names: Seq<IdentView>, i: int) -> Seq<Leaf>
    decreases names.len() - i,
{
    if i < 0 || i >= names.len() {
        Seq::empty()
    } else {
        seq![Leaf::Ident(names[i])] + ident_leaves(names, i + 1)
    }
}

/// The leaves of the expressions from place `i` on, in the order of the
/// walk.
pub open spec fn leaves_of_seq(items: Seq<ExprView>, i: int) -> Seq<Leaf>
    decreases items, items.len() - i,
{
    if i < 0 || i >= items.len() {
        Seq::empty()
    } else {
        leaves_of(items[i]) + leaves_of_seq(items, i + 1)
    }
}

/// The leaves of the fields from place `i` on: of each field its name, then
/// the leaves of its value.
pub open spec fn leaves_of_fields(fields: Seq<(IdentView, ExprView)>, i: int) -> Seq<Leaf>
    decreases fields, fields.len() - i,
{
    if i < 0 || i >= fields.len() {
        Seq::empty()
    } else {
        seq![Leaf::Ident(fields[i].0)] + leaves_of(fields[i].1) + leaves_of_fields(fields, i + 1)
    }
}

/// The leaves of a block: those of its statements, in order.
pub open spec fn leaves_of_code(code: CodeView) -> Seq<Leaf>
    decreases code, 0nat,
{
    leaves_of_seq(code.stmts, 0)
}

/// The leaves of an expression, in the order of the walk.
pub open spec fn leaves_of(e: ExprView) -> Seq<Leaf>
    decreases e, 0nat,
{
    match e.kind {
        ExprKindView::Literal(l) => seq![Leaf::Literal(l)],
        ExprKindView::Ident(i) => seq![Leaf::Ident(i)],
        ExprKindView::Array { span, elements } => leaves_of_seq(elements, 0),
        ExprKindView::Record { span, fields } => leaves_of_fields(fields, 0),
        ExprKindView::Function(f) => ident_leaves(f.parameters, 0) + leaves_of_code(f.body),
        ExprKindView::Call(callee, args) => leaves_of_seq(args, 0) + leaves_of(*callee),
        ExprKindView::Prop(target, name) => leaves_of(*target) + seq![Leaf::Ident(name)],
        ExprKindView::Index(target, index) => leaves_of(*target) + leaves_of(*index),
        ExprKindView::Unary { span, op, expr } => leaves_of(*expr),
        ExprKindView::Binary { span, op, lhs, rhs } => leaves_of(*lhs) + leaves_of(*rhs),
        ExprKindView::Assign(_, name, rhs) => seq![Leaf::Ident(name)] + leaves_of(*rhs),
        ExprKindView::Declare(_, name, rhs) => seq![Leaf::Ident(name)] + leaves_of(*rhs),
        ExprKindView::If(condition, yes, no) => leaves_of(*condition) + leaves_of_code(yes) + match no {
            Some(c) => leaves_of_code(c),
            None => Seq::empty(),
        },
        ExprKindView::For(collection, item, body) => leaves_of(*collection) + seq![Leaf::Ident(item)]
            + leaves_of_code(body),
        ExprKindView::Control(_, operand) => leaves_of(*operand),
    }
}

/// A visitor: it is shown the leaves of a tree one by one.
///
/// A visitor may keep a record of what it was shown; the walk then adds to
/// the record exactly the leaves of the tree, in order. Of a visitor that
/// keeps no record nothing is taken for granted.
pub trait Visit {
    /// Whether the visitor keeps a record of the leaves it was shown.
    open spec fn keeps_record(&self) -> bool {
        false
    }

    /// The leaves the visitor was shown so far.
    open spec fn seen(&self) -> Seq<Leaf> {
        Seq::empty()
    }

    fn visit_nil(&mut self, i: &Nil)
        ensures
            old(self).keeps_record() ==> final(self).keeps_record() && final(self).seen() == old(self).seen().push(
                Leaf::Literal(LiteralView::Nil(i.span)),
            ),
    ;

    fn visit_boolean(&mut self, i: &Boolean)
        ensures
            old(self).keeps_record() ==> final(self).keeps_record() && final(self).seen() == old(self).seen().push(
                Leaf::Literal(LiteralView::Boolean(i.span, i.value)),
            ),
    ;

    fn visit_integer(&mut self, i: &Integer)
        ensures
            old(self).keeps_record() ==> final(self).keeps_record() && final(self).seen() == old(self).seen().push(
                Leaf::Literal(LiteralView::Integer(i.span, i.value)),
            ),
    ;

    fn visit_string(&mut self, i: &StringT)
        ensures
            old(self).keeps_record() ==> final(self).keeps_record() && final(self).seen() == old(self).seen().push(
                Leaf::Literal(LiteralView::String(i.span, i.value@)),
            ),
    ;

    fn visit_ident(&mut self, i: &Ident)
        ensures
            old(self).keeps_record() ==> final(self).keeps_record() && final(self).seen() == old(self).seen().push(
                Leaf::Ident(i.view()),
            ),
    ;
}

/// What a walk does to a visitor that keeps a record: it adds `leaves` to
/// the record.
pub open spec fn shown<V: Visit>(before: &V, after: &V, leaves: Seq<Leaf>) -> bool {
    before.keeps_record() ==> after.keeps_record() && after.seen() == before.seen() + leaves
}

/// Shows a literal to the visitor.
pub fn visit_literal<V: Visit>(v: &mut V, i: &Literal)
    ensures
        shown(old(v), final(v), seq![Leaf::Literal(i.view())]),
{
    match i {
        Literal::Nil(i) => v.visit_nil(i),
        Literal::Boolean(i) => v.visit_boolean(i),
        Literal::Integer(i) => v.visit_integer(i),
        Literal::String(i) => v.visit_string(i),
    }
    assert(old(v).seen().push(Leaf::Literal(i.view())) =~= old(v).seen() + seq![Leaf::Literal(i.view())]);
}

/// Shows a name to the visitor.
fn show_ident<V: Visit>(v: &mut V, i: &Ident)
    ensures
        shown(old(v), final(v), seq![Leaf::Ident(i.view())]),
{
    v.visit_ident(i);
    assert(old(v).seen().push(Leaf::Ident(i.view())) =~= old(v).seen() + seq![Leaf::Ident(i.view())]);
}

/// Shows names to the visitor, in order.
fn visit_idents<V: Visit>(v: &mut V, names: &Vec<Ident>)
    ensures
        shown(old(v), final(v), ident_leaves(idents_view(names@), 0)),
{
    let ghost all = idents_view(names@);
    let mut k: usize = 0;
    while k < names.len()
        invariant
            k <= names@.len(),
            all == idents_view(names@),
            old(v).keeps_record() ==> v.keeps_record() && old(v).seen() + ident_leaves(all, 0) == v.seen()
                + ident_leaves(all, k as int),
        decreases names@.len() - k,
    {
        let ghost before = v.seen();
        show_ident(v, &names[k]);
        proof {
            if old(v).keeps_record() {
                assert(v.seen() + ident_leaves(all, k + 1) =~= before + ident_leaves(all, k as int));
            }
        }
        k = k + 1;
    }
    proof {
        if old(v).keeps_record() {
            assert(v.seen() + ident_leaves(all, k as int) =~= v.seen());
        }
    }
}

/// Walks through expressions, in order.
pub fn visit_exprs<V: Visit>(v: &mut V, items: &Vec<Expr>)
    ensures
        shown(old(v), final(v), leaves_of_seq(exprs_view(items@), 0)),
    decreases items, 0nat,
{
    let ghost all = exprs_view(items@);
    let mut k: usize = 0;
    while k < items.len()
        invariant
            k <= items@.len(),
            all == exprs_view(items@),
            old(v).keeps_record() ==> v.keeps_record() && old(v).seen() + leaves_of_seq(all, 0) == v.seen()
                + leaves_of_seq(all, k as int),
        decreases items@.len() - k,
    {
        proof {
            vstd::std_specs::vec::axiom_vec_index_decreases(*items, k as int);
        }
        let ghost before = v.seen();
        visit_expr(v, &items[k]);
        proof {
            if old(v).keeps_record() {
                assert(v.seen() + leaves_of_seq(all, k + 1) =~= before + leaves_of_seq(all, k as int));
            }
        }
        k = k + 1;
    }
    proof {
        if old(v).keeps_record() {
            assert(v.seen() + leaves_of_seq(all, k as int) =~= v.seen());
        }
    }
}

/// Walks through an array literal.
pub fn visit_array<V: Visit>(v: &mut V, i: &Array)
    ensures
        i.view() is Array,
        shown(old(v), final(v), leaves_of_seq(i.view()->Array_elements, 0)),
    decreases i, 1nat,
{
    proof {
        lemma_array_literal_view(i);
    }
    visit_exprs(v, &i.elements);
}

/// Walks through a record literal: of each field the name, then the value.
pub fn visit_record<V: Visit>(v: &mut V, i: &Record)
    ensures
        i.view() is Record,
        shown(old(v), final(v), leaves_of_fields(i.view()->Record_fields, 0)),
    decreases i, 1nat,
{
    proof {
        lemma_record_literal_view(i);
    }
    let ghost all = expr_fields_view(i.fields@);
    let mut k: usize = 0;
    while k < i.fields.len()
        invariant
            k <= i.fields@.len(),
            all == expr_fields_view(i.fields@),
            old(v).keeps_record() ==> v.keeps_record() && old(v).seen() + leaves_of_fields(all, 0) == v.seen()
                + leaves_of_fields(all, k as int),
        decreases i.fields@.len() - k,
    {
        proof {
            vstd::std_specs::vec::axiom_vec_index_decreases(i.fields, k as int);
        }
        let ghost before = v.seen();
        show_ident(v, &i.fields[k].0);
        visit_expr(v, &i.fields[k].1);
        proof {
            if old(v).keeps_record() {
                assert(v.seen() + leaves_of_fields(all, k + 1) =~= before + leaves_of_fields(all, k as int));
            }
        }
        k = k + 1;
    }
    proof {
        if old(v).keeps_record() {
            assert(v.seen() + leaves_of_fields(all, k as int) =~= v.seen());
        }
    }
}

/// Walks through a block: its statements in order.
pub fn visit_code<V: Visit>(v: &mut V, i: &Code)
    ensures
        shown(old(v), final(v), leaves_of_code(i.view())),
    decreases i, 1nat,
{
    proof {
        lemma_code_view(i);
    }
    visit_exprs(v, &i.stmts);
}

/// Walks through a function literal: the parameter names, then the body.
pub fn visit_function<V: Visit>(v: &mut V, i: &Function)
    ensures
        shown(old(v), final(v), ident_leaves(i.view().parameters, 0) + leaves_of_code(i.view().body)),
    decreases i, 2nat,
{
    let ghost start = v.seen();
    visit_idents(v, &i.parameters.0);
    let ghost middle = v.seen();
    visit_code(v, &i.body);
    proof {
        if old(v).keeps_record() {
            assert(v.seen() =~= start + (ident_leaves(i.view().parameters, 0) + leaves_of_code(i.view().body)));
        }
    }
}

/// Walks through a prefix expression.
pub fn visit_unaryexpr<V: Visit>(v: &mut V, i: &UnaryExpr)
    ensures
        shown(old(v), final(v), leaves_of(i.expr.view())),
    decreases i, 1nat,
{
    visit_expr(v, &i.expr);
}

/// Walks through an infix expression: the left operand, then the right one.
pub fn visit_binexpr<V: Visit>(v: &mut V, i: &BinExpr)
    ensures
        shown(old(v), final(v), leaves_of(i.lhs.view()) + leaves_of(i.rhs.view())),
    decreases i, 1nat,
{
    let ghost start = v.seen();
    visit_expr(v, &i.lhs);
    visit_expr(v, &i.rhs);
    proof {
        if old(v).keeps_record() {
            assert(v.seen() =~= start + (leaves_of(i.lhs.view()) + leaves_of(i.rhs.view())));
        }
    }
}

/// Walks through a name and an expression: the name first.
fn visit_binding<V: Visit>(v: &mut V, name: &Ident, rhs: &Expr)
    ensures
        shown(old(v), final(v), seq![Leaf::Ident(name.view())] + leaves_of(rhs.view())),
    decreases rhs, 1nat,
{
    let ghost start = v.seen();
    show_ident(v, name);
    visit_expr(v, rhs);
    proof {
        if old(v).keeps_record() {
            assert(v.seen() =~= start + (seq![Leaf::Ident(name.view())] + leaves_of(rhs.view())));
        }
    }
}

/// Walks through an expression and shows the visitor its leaves, in the
/// order of the walk.
pub fn visit_expr<V: Visit>(v: &mut V, i: &Expr)
    ensures
        shown(old(v), final(v), leaves_of(i.view())),
    decreases i, 0nat,
{
    let ghost start = v.seen();
    match &i.kind {
        ExprKind::Literal(l) => visit_literal(v, l),
        ExprKind::Ident(x) => show_ident(v, x),
        ExprKind::Array(a) => visit_array(v, a),
        ExprKind::Record(r) => visit_record(v, r),
        ExprKind::Function(f) => visit_function(v, f),
        ExprKind::Call(f, args) => {
            proof {
                lemma_arguments_view(args);
            }
            visit_exprs(v, &args.0);
            visit_expr(v, f);
            proof {
                if old(v).keeps_record() {
                    assert(v.seen() =~= start + (leaves_of_seq(args.view(), 0) + leaves_of(f.view())));
                }
            }
        },
        ExprKind::Prop(t, name) => {
            visit_expr(v, t);
            show_ident(v, name);
            proof {
                if old(v).keeps_record() {
                    assert(v.seen() =~= start + (leaves_of(t.view()) + seq![Leaf::Ident(name.view())]));
                }
            }
        },
        ExprKind::Index(t, x) => {
            visit_expr(v, t);
            visit_expr(v, x);
            proof {
                if old(v).keeps_record() {
                    assert(v.seen() =~= start + (leaves_of(t.view()) + leaves_of(x.view())));
                }
            }
        },
        ExprKind::UnaryExpr(u) => {
            assert(i.view().kind == u.view());
            visit_unaryexpr(v, u)
        },
        ExprKind::BinExpr(b) => {
            assert(i.view().kind == b.view());
            visit_binexpr(v, b)
        },
        ExprKind::Assign(name, rhs) => visit_binding(v, name, rhs),
        ExprKind::AddAssign(name, rhs) => visit_binding(v, name, rhs),
        ExprKind::SubAssign(name, rhs) => visit_binding(v, name, rhs),
        ExprKind::MulAssign(name, rhs) => visit_binding(v, name, rhs),
        ExprKind::DivAssign(name, rhs) => visit_binding(v, name, rhs),
        ExprKind::ModAssign(name, rhs) => visit_binding(v, name, rhs),
        ExprKind::Declare(name, rhs) => visit_binding(v, name, rhs),
        ExprKind::DeclareMut(name, rhs) => visit_binding(v, name, rhs),
        ExprKind::If { condition, yes } => {
            visit_expr(v, condition);
            visit_code(v, yes);
            proof {
                if old(v).keeps_record() {
                    assert(v.seen() =~= start + (leaves_of(condition.view()) + leaves_of_code(yes.view())
                        + Seq::empty()));
                }
            }
        },
        ExprKind::IfElse { condition, yes, no } => {
            visit_expr(v, condition);
            visit_code(v, yes);
            visit_code(v, no);
            proof {
                if old(v).keeps_record() {
                    assert(v.seen() =~= start + (leaves_of(condition.view()) + leaves_of_code(yes.view())
                        + leaves_of_code(no.view())));
                }
            }
        },
        ExprKind::For { collection, item, body } => {
            visit_expr(v, collection);
            show_ident(v, item);
            visit_code(v, body);
            proof {
                if old(v).keeps_record() {
                    assert(v.seen() =~= start + (leaves_of(collection.view()) + seq![Leaf::Ident(item.view())]
                        + leaves_of_code(body.view())));
                }
            }
        },
        ExprKind::Panic(x) => visit_expr(v, x),
        ExprKind::Assert(x) => visit_expr(v, x),
        ExprKind::Return(x) => visit_expr(v, x),
        ExprKind::Break(x) => visit_expr(v, x),
        ExprKind::Continue(x) => visit_expr(v, x),
    }
}

} // verus!
