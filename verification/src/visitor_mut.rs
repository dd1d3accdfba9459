//! Walking a syntax tree to change it: a visitor is handed the leaves of a
//! tree one by one, in the order of the walk, and may change each of them.
//! The walk changes nothing else: the tree keeps its shape.

use crate::ast::Array;
use crate::ast::BinExpr;
use crate::ast::Boolean;
use crate::ast::Code;
use crate::ast::Expr;
use crate::ast::ExprKind;
use crate::ast::Function;
use crate::ast::Ident;
use crate::ast::Integer;
use crate::ast::Literal;
use crate::ast::Nil;
use crate::ast::Record;
use crate::ast::StringT;
use crate::ast::UnaryExpr;
use crate::ast_model::expr_fields_view;
use crate::ast_model::exprs_view;
use crate::ast_model::idents_view;
use crate::ast_model::lemma_arguments_view;
use crate::ast_model::lemma_array_literal_view;
use crate::ast_model::lemma_code_view;
use crate::ast_model::lemma_record_literal_view;
use crate::ast_model::CodeView;
use crate::ast_model::ExprKindView;
use crate::ast_model::ExprView;
use crate::ast_model::FunctionView;
use crate::ast_model::IdentView;
use crate::ast_model::LiteralView;
use crate::span::Span;
use crate::visitor::ident_leaves;
use crate::visitor::leaves_of;
use crate::visitor::leaves_of_code;
use crate::visitor::leaves_of_fields;
use crate::visitor::leaves_of_seq;
use crate::visitor::Leaf;
use vstd::prelude::*;

verus! {

/// A literal without what it holds: only its kind is left.
pub open spec fn blank_literal(l: LiteralView) -> LiteralView {
    match l {
        LiteralView::Nil(_) => LiteralView::Nil(Span::spec_dummy()),
        LiteralView::Boolean(_, _) => LiteralView::Boolean(Span::spec_dummy(), false),
        LiteralView::Integer(_, _) => LiteralView::Integer(Span::spec_dummy(), 0i32),
        LiteralView::String(_, _) => LiteralView::String(Span::spec_dummy(), Seq::empty()),
    }
}

/// An identifier without what it holds.
pub open spec fn blank_ident() -> IdentView {
    IdentView { span: Span::spec_dummy(), symbol: Seq::empty() }
}

/// The shapes of a sequence of expressions.
pub open spec fn shapes_of(items: Seq<ExprView>) -> Seq<ExprView>
    decreases items,
{
    Seq::new(
        items.len(),
        |i: int|
            if 0 <= i < items.len() {
                shape_of(items[i])
            } else {
                arbitrary()
            },
    )
}

/// The shapes of the fields of a record literal.
pub open spec fn field_shapes(fields: Seq<(IdentView, ExprView)>) -> Seq<(IdentView, ExprView)>
    decreases fields,
{
    Seq::new(
        fields.len(),
        |i: int|
            if 0 <= i < fields.len() {
                (blank_ident(), shape_of(fields[i].1))
            } else {
                arbitrary()
            },
    )
}

/// As many blank identifiers as a parameter list has names.
pub open spec fn blank_idents(n: nat) -> Seq<IdentView> {
    Seq::new(n, |i: int| blank_ident())
}

/// The shape of a block.
pub open spec fn shape_of_code(code: CodeView) -> CodeView
    decreases code,
{
    CodeView { span: code.span, stmts: shapes_of(code.stmts) }
}

/// The shape of a tree: the tree with every leaf blank. Two trees of one
/// shape differ in their literals and identifiers only.
pub open spec fn shape_of(e: ExprView) -> ExprView
    decreases e,
{
    ExprView {
        span: e.span,
        kind: match e.kind {
            ExprKindView::Literal(l) => ExprKindView::Literal(blank_literal(l)),
            ExprKindView::Ident(_) => ExprKindView::Ident(blank_ident()),
            ExprKindView::Array { span, elements } => ExprKindView::Array { span, elements: shapes_of(elements) },
            ExprKindView::Record { span, fields } => ExprKindView::Record { span, fields: field_shapes(fields) },
            ExprKindView::Function(f) => ExprKindView::Function(
                FunctionView { parameters: blank_idents(f.parameters.len()), body: shape_of_code(f.body) },
            ),
            ExprKindView::Call(callee, args) => ExprKindView::Call(Box::new(shape_of(*callee)), shapes_of(args)),
            ExprKindView::Prop(target, _) => ExprKindView::Prop(Box::new(shape_of(*target)), blank_ident()),
            ExprKindView::Index(target, index) => ExprKindView::Index(
                Box::new(shape_of(*target)),
                Box::new(shape_of(*index)),
            ),
            ExprKindView::Unary { span, op, expr } => ExprKindView::Unary {
                span,
                op,
                expr: Box::new(shape_of(*expr)),
            },
            ExprKindView::Binary { span, op, lhs, rhs } => ExprKindView::Binary {
                span,
                op,
                lhs: Box::new(shape_of(*lhs)),
                rhs: Box::new(shape_of(*rhs)),
            },
            ExprKindView::Assign(op, _, rhs) => ExprKindView::Assign(op, blank_ident(), Box::new(shape_of(*rhs))),
            ExprKindView::Declare(mutable, _, rhs) => ExprKindView::Declare(
                mutable,
                blank_ident(),
                Box::new(shape_of(*rhs)),
            ),
            ExprKindView::If(condition, yes, no) => ExprKindView::If(
                Box::new(shape_of(*condition)),
                shape_of_code(yes),
                match no {
                    Some(c) => Some(shape_of_code(c)),
                    None => None,
                },
            ),
            ExprKindView::For(collection, _, body) => ExprKindView::For(
                Box::new(shape_of(*collection)),
                blank_ident(),
                shape_of_code(body),
            ),
            ExprKindView::Control(kind, operand) => ExprKindView::Control(kind, Box::new(shape_of(*operand))),
        },
    }
}

/// A visitor that may change what it is shown: it is handed the leaves of
/// a tree one by one.
///
/// A visitor may keep a record of the leaves as it found them; the walk
/// then adds to the record exactly the leaves of the tree as it was, in
/// order. Of a visitor that keeps no record nothing is taken for granted.
pub trait VisitMut {
    /// Whether the visitor keeps a record of the leaves it was handed.
    open spec fn keeps_record(&self) -> bool {
        false
    }

    /// The leaves the visitor was handed so far, as it found them.
    open spec fn seen(&self) -> Seq<Leaf> {
        Seq::empty()
    }

    fn visit_mut_nil(&mut self, i: &mut Nil)
        ensures
            old(self).keeps_record() ==> final(self).keeps_record() && final(self).seen() == old(self).seen().push(
                Leaf::Literal(LiteralView::Nil(old(i).span)),
            ),
    ;

    fn visit_mut_boolean(&mut self, i: &mut Boolean)
        ensures
            old(self).keeps_record() ==> final(self).keeps_record() && final(self).seen() == old(self).seen().push(
                Leaf::Literal(LiteralView::Boolean(old(i).span, old(i).value)),
            ),
    ;

    fn visit_mut_integer(&mut self, i: &mut Integer)
        ensures
            old(self).keeps_record() ==> final(self).keeps_record() && final(self).seen() == old(self).seen().push(
                Leaf::Literal(LiteralView::Integer(old(i).span, old(i).value)),
            ),
    ;

    fn visit_mut_string(&mut self, i: &mut StringT)
        ensures
            old(self).keeps_record() ==> final(self).keeps_record() && final(self).seen() == old(self).seen().push(
                Leaf::Literal(LiteralView::String(old(i).span, old(i).value@)),
            ),
    ;

    fn visit_mut_ident(&mut self, i: &mut Ident)
        ensures
            old(self).keeps_record() ==> final(self).keeps_record() && final(self).seen() == old(self).seen().push(
                Leaf::Ident(old(i).view()),
            ),
    ;
}

/// What a walk does to a visitor that keeps a record: it adds `leaves` to
/// the record.
pub open spec fn handed<V: VisitMut>(before: &V, after: &V, leaves: Seq<Leaf>) -> bool {
    before.keeps_record() ==> after.keeps_record() && after.seen() == before.seen() + leaves
}

/// Hands a literal to the visitor.
pub fn visit_mut_literal<V: VisitMut>(v: &mut V, i: &mut Literal)
    ensures
        handed(old(v), final(v), seq![Leaf::Literal(old(i).view())]),
        blank_literal(final(i).view()) == blank_literal(old(i).view()),
{
    match i {
        Literal::Nil(i) => v.visit_mut_nil(i),
        Literal::Boolean(i) => v.visit_mut_boolean(i),
        Literal::Integer(i) => v.visit_mut_integer(i),
        Literal::String(i) => v.visit_mut_string(i),
    }
    assert(old(v).seen().push(Leaf::Literal(old(i).view())) =~= old(v).seen() + seq![
        Leaf::Literal(old(i).view()),
    ]);
}

/// Hands a name to the visitor.
fn hand_ident<V: VisitMut>(v: &mut V, i: &mut Ident)
    ensures
        handed(old(v), final(v), seq![Leaf::Ident(old(i).view())]),
{
    v.visit_mut_ident(i);
    assert(old(v).seen().push(Leaf::Ident(old(i).view())) =~= old(v).seen() + seq![Leaf::Ident(old(i).view())]);
}

/// Hands names to the visitor, in order.
fn visit_mut_idents<V: VisitMut>(v: &mut V, names: &mut Vec<Ident>)
    ensures
        final(names)@.len() == old(names)@.len(),
        handed(old(v), final(v), ident_leaves(idents_view(old(names)@), 0)),
{
    let ghost all = idents_view(names@);
    let mut k: usize = 0;
    while k < names.len()
        invariant
            k <= names@.len(),
            names@.len() == old(names)@.len(),
            all == idents_view(old(names)@),
            forall|j: int| k <= j < names@.len() ==> names@[j] == old(names)@[j],
            old(v).keeps_record() ==> v.keeps_record() && old(v).seen() + ident_leaves(all, 0) == v.seen()
                + ident_leaves(all, k as int),
        decreases names@.len() - k,
    {
        let ghost before = v.seen();
        hand_ident(v, &mut names[k]);
        proof {
            if old(v).keeps_record() {
                assert(v.seen() + ident_leaves(all, k + 1) =~= before + ident_leaves(all, k as int));
            }
        }
        k = k + 1;
    }
    proof {
        if old(v).keeps_record() {
            assert(v.seen() + ident_leaves(all, k as int) =~= v.seen());
        }
    }
}

/// Walks through expressions, in order.
pub fn visit_mut_exprs<V: VisitMut>(v: &mut V, items: &mut Vec<Expr>)
    ensures
        handed(old(v), final(v), leaves_of_seq(exprs_view(old(items)@), 0)),
        shapes_of(exprs_view(final(items)@)) == shapes_of(exprs_view(old(items)@)),
    decreases *old(items), 0nat,
{
    let ghost all = exprs_view(items@);
    let mut k: usize = 0;
    while k < items.len()
        invariant
            k <= items@.len(),
            items@.len() == old(items)@.len(),
            all == exprs_view(old(items)@),
            forall|j: int| k <= j < items@.len() ==> items@[j] == old(items)@[j],
            forall|j: int| 0 <= j < k ==> shape_of((#[trigger] items@[j]).view()) == shape_of(old(items)@[j].view()),
            old(v).keeps_record() ==> v.keeps_record() && old(v).seen() + leaves_of_seq(all, 0) == v.seen()
                + leaves_of_seq(all, k as int),
        decreases items@.len() - k,
    {
        proof {
            vstd::std_specs::vec::axiom_vec_index_decreases(*old(items), k as int);
        }
        let ghost before = v.seen();
        visit_mut_expr(v, &mut items[k]);
        proof {
            if old(v).keeps_record() {
                assert(v.seen() + leaves_of_seq(all, k + 1) =~= before + leaves_of_seq(all, k as int));
            }
        }
        k = k + 1;
    }
    proof {
        if old(v).keeps_record() {
            assert(v.seen() + leaves_of_seq(all, k as int) =~= v.seen());
        }
        assert(shapes_of(exprs_view(items@)) =~= shapes_of(exprs_view(old(items)@)));
    }
}

/// Walks through a block: its statements in order.
pub fn visit_mut_code<V: VisitMut>(v: &mut V, i: &mut Code)
    ensures
        handed(old(v), final(v), leaves_of_code(old(i).view())),
        shape_of_code(final(i).view()) == shape_of_code(old(i).view()),
    decreases *old(i), 1nat,
{
    proof {
        lemma_code_view(i);
    }
    visit_mut_exprs(v, &mut i.stmts);
    proof {
        lemma_code_view(i);
    }
}

/// Walks through an array literal.
pub fn visit_mut_array<V: VisitMut>(v: &mut V, i: &mut Array)
    ensures
        old(i).view() is Array,
        handed(old(v), final(v), leaves_of_seq(old(i).view()->Array_elements, 0)),
        final(i).span == old(i).span,
        shapes_of(final(i).view()->Array_elements) == shapes_of(old(i).view()->Array_elements),
    decreases *old(i), 1nat,
{
    proof {
        lemma_array_literal_view(i);
    }
    visit_mut_exprs(v, &mut i.elements);
    proof {
        lemma_array_literal_view(i);
    }
}

/// Walks through a record literal: of each field the name, then the value.
pub fn visit_mut_record<V: VisitMut>(v: &mut V, i: &mut Record)
    ensures
        old(i).view() is Record,
        handed(old(v), final(v), leaves_of_fields(old(i).view()->Record_fields, 0)),
        final(i).span == old(i).span,
        field_shapes(final(i).view()->Record_fields) == field_shapes(old(i).view()->Record_fields),
    decreases *old(i), 1nat,
{
    proof {
        lemma_record_literal_view(i);
    }
    let ghost all = expr_fields_view(i.fields@);
    let mut k: usize = 0;
    while k < i.fields.len()
        invariant
            k <= i.fields@.len(),
            i.fields@.len() == old(i).fields@.len(),
            i.span == old(i).span,
            all == expr_fields_view(old(i).fields@),
            forall|j: int| k <= j < i.fields@.len() ==> i.fields@[j] == old(i).fields@[j],
            forall|j: int|
                0 <= j < k ==> shape_of((#[trigger] i.fields@[j]).1.view()) == shape_of(old(i).fields@[j].1.view()),
            old(v).keeps_record() ==> v.keeps_record() && old(v).seen() + leaves_of_fields(all, 0) == v.seen()
                + leaves_of_fields(all, k as int),
        decreases i.fields@.len() - k,
    {
        proof {
            vstd::std_specs::vec::axiom_vec_index_decreases(old(i).fields, k as int);
        }
        let ghost before = v.seen();
        let field = &mut i.fields[k];
        hand_ident(v, &mut field.0);
        visit_mut_expr(v, &mut field.1);
        proof {
            if old(v).keeps_record() {
                assert(v.seen() + leaves_of_fields(all, k + 1) =~= before + leaves_of_fields(all, k as int));
            }
        }
        k = k + 1;
    }
    proof {
        if old(v).keeps_record() {
            assert(v.seen() + leaves_of_fields(all, k as int) =~= v.seen());
        }
        lemma_record_literal_view(i);
        assert(field_shapes(expr_fields_view(i.fields@)) =~= field_shapes(expr_fields_view(old(i).fields@)));
    }
}

/// Walks through a function literal: the parameter names, then the body.
pub fn visit_mut_function<V: VisitMut>(v: &mut V, i: &mut Function)
    ensures
        handed(old(v), final(v), ident_leaves(old(i).view().parameters, 0) + leaves_of_code(old(i).view().body)),
        final(i).view().parameters.len() == old(i).view().parameters.len(),
        shape_of_code(final(i).view().body) == shape_of_code(old(i).view().body),
    decreases *old(i), 2nat,
{
    let ghost start = v.seen();
    let ghost was = i.view();
    visit_mut_idents(v, &mut i.parameters.0);
    visit_mut_code(v, &mut i.body);
    proof {
        if old(v).keeps_record() {
            assert(v.seen() =~= start + (ident_leaves(was.parameters, 0) + leaves_of_code(was.body)));
        }
    }
}

/// Walks through a prefix expression.
pub fn visit_mut_unaryexpr<V: VisitMut>(v: &mut V, i: &mut UnaryExpr)
    ensures
        handed(old(v), final(v), leaves_of(old(i).expr.view())),
        final(i).span == old(i).span,
        final(i).op == old(i).op,
        shape_of(final(i).expr.view()) == shape_of(old(i).expr.view()),
    decreases *old(i), 1nat,
{
    visit_mut_expr(v, &mut i.expr);
}

/// Walks through an infix expression: the left operand, then the right one.
pub fn visit_mut_binexpr<V: VisitMut>(v: &mut V, i: &mut BinExpr)
    ensures
        handed(old(v), final(v), leaves_of(old(i).lhs.view()) + leaves_of(old(i).rhs.view())),
        final(i).span == old(i).span,
        final(i).op == old(i).op,
        shape_of(final(i).lhs.view()) == shape_of(old(i).lhs.view()),
        shape_of(final(i).rhs.view()) == shape_of(old(i).rhs.view()),
    decreases *old(i), 1nat,
{
    let ghost start = v.seen();
    visit_mut_expr(v, &mut i.lhs);
    visit_mut_expr(v, &mut i.rhs);
    proof {
        if old(v).keeps_record() {
            assert(v.seen() =~= start + (leaves_of(old(i).lhs.view()) + leaves_of(old(i).rhs.view())));
        }
    }
}

/// Walks through a name and an expression: the name first.
fn visit_mut_binding<V: VisitMut>(v: &mut V, name: &mut Ident, rhs: &mut Expr)
    ensures
        handed(old(v), final(v), seq![Leaf::Ident(old(name).view())] + leaves_of(old(rhs).view())),
        shape_of(final(rhs).view()) == shape_of(old(rhs).view()),
    decreases *old(rhs), 1nat,
{
    let ghost start = v.seen();
    hand_ident(v, name);
    visit_mut_expr(v, rhs);
    proof {
        if old(v).keeps_record() {
            assert(v.seen() =~= start + (seq![Leaf::Ident(old(name).view())] + leaves_of(old(rhs).view())));
        }
    }
}

/// Walks through an expression, hands the visitor its leaves in the order
/// of the walk, and leaves the shape of the expression as it was.
#[verifier::rlimit(50)]
pub fn visit_mut_expr<V: VisitMut>(v: &mut V, i: &mut Expr)
    ensures
        handed(old(v), final(v), leaves_of(old(i).view())),
        shape_of(final(i).view()) == shape_of(old(i).view()),
    decreases *old(i), 0nat,
{
    let ghost start = v.seen();
    match &mut i.kind {
        ExprKind::Literal(l) => visit_mut_literal(v, l),
        ExprKind::Ident(x) => hand_ident(v, x),
        ExprKind::Array(a) => visit_mut_array(v, a),
        ExprKind::Record(r) => {
            visit_mut_record(v, r);
        },
        ExprKind::Function(f) => {
            visit_mut_function(v, f);
        },
        ExprKind::Call(f, args) => {
            let ghost f0 = f.view();
            let ghost a0 = args.view();
            proof {
                lemma_arguments_view(args);
            }
            visit_mut_exprs(v, &mut args.0);
            visit_mut_expr(v, f);
            proof {
                lemma_arguments_view(args);
                if old(v).keeps_record() {
                    assert(v.seen() =~= start + (leaves_of_seq(a0, 0) + leaves_of(f0)));
                }
            }
        },
        ExprKind::Prop(t, name) => {
            let ghost t0 = t.view();
            let ghost n0 = name.view();
            visit_mut_expr(v, t);
            hand_ident(v, name);
            proof {
                if old(v).keeps_record() {
                    assert(v.seen() =~= start + (leaves_of(t0) + seq![Leaf::Ident(n0)]));
                }
            }
        },
        ExprKind::Index(t, x) => {
            let ghost t0 = t.view();
            let ghost x0 = x.view();
            visit_mut_expr(v, t);
            visit_mut_expr(v, x);
            proof {
                if old(v).keeps_record() {
                    assert(v.seen() =~= start + (leaves_of(t0) + leaves_of(x0)));
                }
            }
        },
        ExprKind::UnaryExpr(u) => {
            assert(old(i).view().kind == u.view());
            visit_mut_unaryexpr(v, u);
            assert(i.view().kind == u.view());
        },
        ExprKind::BinExpr(b) => {
            assert(old(i).view().kind == b.view());
            visit_mut_binexpr(v, b);
            assert(i.view().kind == b.view());
        },
        ExprKind::Assign(name, rhs) => visit_mut_binding(v, name, rhs),
        ExprKind::AddAssign(name, rhs) => visit_mut_binding(v, name, rhs),
        ExprKind::SubAssign(name, rhs) => visit_mut_binding(v, name, rhs),
        ExprKind::MulAssign(name, rhs) => visit_mut_binding(v, name, rhs),
        ExprKind::DivAssign(name, rhs) => visit_mut_binding(v, name, rhs),
        ExprKind::ModAssign(name, rhs) => visit_mut_binding(v, name, rhs),
        ExprKind::Declare(name, rhs) => visit_mut_binding(v, name, rhs),
        ExprKind::DeclareMut(name, rhs) => visit_mut_binding(v, name, rhs),
        ExprKind::If { condition, yes } => {
            let ghost c0 = condition.view();
            let ghost y0 = yes.view();
            visit_mut_expr(v, condition);
            visit_mut_code(v, yes);
            proof {
                if old(v).keeps_record() {
                    assert(v.seen() =~= start + (leaves_of(c0) + leaves_of_code(y0) + Seq::empty()));
                }
            }
        },
        ExprKind::IfElse { condition, yes, no } => {
            let ghost c0 = condition.view();
            let ghost y0 = yes.view();
            let ghost n0 = no.view();
            visit_mut_expr(v, condition);
            visit_mut_code(v, yes);
            visit_mut_code(v, no);
            proof {
                if old(v).keeps_record() {
                    assert(v.seen() =~= start + (leaves_of(c0) + leaves_of_code(y0) + leaves_of_code(n0)));
                }
            }
        },
        ExprKind::For { collection, item, body } => {
            let ghost c0 = collection.view();
            let ghost i0 = item.view();
            let ghost b0 = body.view();
            visit_mut_expr(v, collection);
            hand_ident(v, item);
            visit_mut_code(v, body);
            proof {
                if old(v).keeps_record() {
                    assert(v.seen() =~= start + (leaves_of(c0) + seq![Leaf::Ident(i0)] + leaves_of_code(b0)));
                }
            }
        },
        ExprKind::Panic(x) => visit_mut_expr(v, x),
        ExprKind::Assert(x) => visit_mut_expr(v, x),
        ExprKind::Return(x) => visit_mut_expr(v, x),
        ExprKind::Break(x) => visit_mut_expr(v, x),
        ExprKind::Continue(x) => visit_mut_expr(v, x),
    }
}

} // verus!
