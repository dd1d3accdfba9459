//! Spans of the trees that the grammar reads: a node encloses its children.
//!
//! This holds of every tree read from tokens that stand in the order of the
//! text. The one span that encloses nothing is that of the block which
//! stands for the body of a function literal written without braces: it is
//! the dummy span, and the statement of that block lies in the function
//! literal itself.

use crate::ast_model::CodeView;
use crate::ast_model::ExprKindView;
use crate::ast_model::ExprView;
use crate::ast_model::IdentView;
use crate::ast_model::LiteralView;
use crate::grammar::binary_view;
use crate::grammar::code_span;
use crate::grammar::g_array;
use crate::grammar::g_binary;
use crate::grammar::g_binary_tail;
use crate::grammar::g_block;
use crate::grammar::g_body;
use crate::grammar::g_expect;
use crate::grammar::g_expr;
use crate::grammar::g_fields;
use crate::grammar::g_for;
use crate::grammar::g_function;
use crate::grammar::g_ident;
use crate::grammar::g_if;
use crate::grammar::g_list;
use crate::grammar::g_operand;
use crate::grammar::g_params;
use crate::grammar::g_paren;
use crate::grammar::g_postfix_tail;
use crate::grammar::g_primary;
use crate::grammar::g_program;
use crate::grammar::g_record;
use crate::grammar::g_single;
use crate::grammar::g_stmts;
use crate::grammar::g_unary;
use crate::grammar::infix_op;
use crate::grammar::is_kind;
use crate::grammar::kind_at;
use crate::grammar::leaf_view;
use crate::grammar::levels;
use crate::grammar::skip_newlines;
use crate::grammar::skip_separators;
use crate::grammar::span_between;
use crate::grammar::unfold_g_array;
use crate::grammar::unfold_g_binary;
use crate::grammar::unfold_g_binary_tail;
use crate::grammar::unfold_g_block;
use crate::grammar::unfold_g_body;
use crate::grammar::unfold_g_expr;
use crate::grammar::unfold_g_fields;
use crate::grammar::unfold_g_for;
use crate::grammar::unfold_g_function;
use crate::grammar::unfold_g_if;
use crate::grammar::unfold_g_list;
use crate::grammar::unfold_g_operand;
use crate::grammar::unfold_g_params;
use crate::grammar::unfold_g_paren;
use crate::grammar::unfold_g_postfix_tail;
use crate::grammar::unfold_g_primary;
use crate::grammar::unfold_g_record;
use crate::grammar::unfold_g_stmts;
use crate::grammar::unfold_g_unary;
use crate::grammar::Parsed;
use crate::grammar_laws::lemma_skip_newlines;
use crate::grammar_laws::lemma_skip_separators;
use crate::lexer::lemma_tokens_in_order;
use crate::lexer::tokens_of;
use crate::lexer::LexerConfig;
use crate::parser::spec_parse;
use crate::parser::spec_parse_code;
use crate::span::Span;
use crate::token::in_order;
use crate::token::SpannedTokenView;
use crate::token::TokenKind;
use vstd::prelude::*;

verus! {

/// `inner` lies inside `outer`.
pub open spec fn within(inner: Span, outer: Span) -> bool {
    outer.start <= inner.start && inner.end <= outer.end
}

/// The span of a literal.
pub open spec fn literal_span(l: LiteralView) -> Span {
    match l {
        LiteralView::Nil(s) => s,
        LiteralView::Boolean(s, _) => s,
        LiteralView::Integer(s, _) => s,
        LiteralView::String(s, _) => s,
    }
}

/// Every expression of `items` lies inside `outer` and is well spanned.
pub open spec fn all_within(items: Seq<ExprView>, outer: Span) -> bool
    decreases items,
{
    forall|i: int| 0 <= i < items.len() ==> within((#[trigger] items[i]).span, outer) && well_spanned(items[i])
}

/// A block lies inside `outer`, and its statements lie inside the block.
pub open spec fn block_within(code: CodeView, outer: Span) -> bool
    decreases code,
{
    within(code.span, outer) && all_within(code.stmts, code.span)
}

/// Every node of the tree encloses its children: a leaf and the expression
/// that wraps it carry one span, and so do an array, a record, a prefix and
/// an infix node and their wrappers; every other part of an expression lies
/// inside the expression. The statements of the body of a function literal
/// lie inside the literal, and so does the body unless its span is the
/// dummy span.
pub open spec fn well_spanned(e: ExprView) -> bool
    decreases e,
{
    match e.kind {
        ExprKindView::Literal(l) => literal_span(l) == e.span,
        ExprKindView::Ident(i) => i.span == e.span,
        ExprKindView::Array { span, elements } => span == e.span && all_within(elements, e.span),
        ExprKindView::Record { span, fields } => span == e.span && forall|i: int|
            0 <= i < fields.len() ==> within((#[trigger] fields[i]).0.span, e.span) && within(
                fields[i].1.span,
                e.span,
            ) && well_spanned(fields[i].1),
        ExprKindView::Function(f) => {
            &&& forall|i: int| 0 <= i < f.parameters.len() ==> within((#[trigger] f.parameters[i]).span, e.span)
            &&& f.body.span == Span::spec_dummy() || within(f.body.span, e.span)
            &&& all_within(f.body.stmts, e.span)
        },
        ExprKindView::Call(callee, args) => within(callee.span, e.span) && well_spanned(*callee) && all_within(
            args,
            e.span,
        ),
        ExprKindView::Prop(target, name) => within(target.span, e.span) && well_spanned(*target) && within(
            name.span,
            e.span,
        ),
        ExprKindView::Index(target, index) => within(target.span, e.span) && well_spanned(*target) && within(
            index.span,
            e.span,
        ) && well_spanned(*index),
        ExprKindView::Unary { span, op, expr } => span == e.span && within(expr.span, e.span) && well_spanned(
            *expr,
        ),
        ExprKindView::Binary { span, op, lhs, rhs } => span == e.span && within(lhs.span, e.span)
            && well_spanned(*lhs) && within(rhs.span, e.span) && well_spanned(*rhs),
        ExprKindView::Assign(_, name, rhs) => within(name.span, e.span) && within(rhs.span, e.span)
            && well_spanned(*rhs),
        ExprKindView::Declare(_, name, rhs) => within(name.span, e.span) && within(rhs.span, e.span)
            && well_spanned(*rhs),
        ExprKindView::If(condition, yes, no) => within(condition.span, e.span) && well_spanned(*condition)
            && block_within(yes, e.span) && match no {
            Some(c) => block_within(c, e.span),
            None => true,
        },
        ExprKindView::For(collection, item, body) => within(collection.span, e.span) && well_spanned(
            *collection,
        ) && within(item.span, e.span) && block_within(body, e.span),
        ExprKindView::Control(_, operand) => within(operand.span, e.span) && well_spanned(*operand),
    }
}

/// `span` lies in the stretch of text that the tokens from `lo` up to `hi`
/// take.
pub open spec fn lies_in(span: Span, ts: Seq<SpannedTokenView>, lo: int, hi: int) -> bool {
    ts[lo].span.start <= span.start && span.end <= ts[hi - 1].span.end
}

/// What lies in a stretch of tokens lies in every stretch that holds it.
pub proof fn lemma_lies_in_grows(span: Span, ts: Seq<SpannedTokenView>, lo: int, hi: int, lo2: int, hi2: int)
    requires
        in_order(ts),
        0 <= lo2 <= lo < hi <= hi2 <= ts.len(),
        lies_in(span, ts, lo, hi),
    ensures
        lies_in(span, ts, lo2, hi2),
{
}

/// An expression was read from `pos` up to `n`: it is well spanned and
/// lies in the stretch of the tokens it was read from.
pub open spec fn read_well(e: ExprView, ts: Seq<SpannedTokenView>, pos: int, n: int) -> bool {
    pos < n <= ts.len() && well_spanned(e) && lies_in(e.span, ts, pos, n)
}

/// What was read as an expression, if anything, was read well.
pub open spec fn expr_read_well(r: Parsed<ExprView>, ts: Seq<SpannedTokenView>, pos: int) -> bool {
    match r {
        Ok((e, n)) => read_well(e, ts, pos, n),
        Err(_) => true,
    }
}

/// Every expression of `items` is well spanned and lies in the stretch of
/// the tokens from `lo` up to `hi`.
pub open spec fn items_in(items: Seq<ExprView>, ts: Seq<SpannedTokenView>, lo: int, hi: int) -> bool {
    forall|i: int| 0 <= i < items.len() ==> well_spanned(#[trigger] items[i]) && lies_in(items[i].span, ts, lo, hi)
}

/// Every field of `fields` has its name and its value in the stretch of the
/// tokens from `lo` up to `hi`, and its value is well spanned.
pub open spec fn fields_in(
    fields: Seq<(IdentView, ExprView)>,
    ts: Seq<SpannedTokenView>,
    lo: int,
    hi: int,
) -> bool {
    forall|i: int|
        0 <= i < fields.len() ==> well_spanned((#[trigger] fields[i]).1) && lies_in(fields[i].1.span, ts, lo, hi)
            && lies_in(fields[i].0.span, ts, lo, hi)
}

/// Every name of `names` lies in the stretch of the tokens from `lo` up to
/// `hi`.
pub open spec fn names_in(names: Seq<IdentView>, ts: Seq<SpannedTokenView>, lo: int, hi: int) -> bool {
    forall|i: int| 0 <= i < names.len() ==> lies_in((#[trigger] names[i]).span, ts, lo, hi)
}

/// A block was read from `pos` up to `n`: it lies in the stretch of those
/// tokens, and its statements are well spanned and lie inside the block.
pub open spec fn block_read_well(code: CodeView, ts: Seq<SpannedTokenView>, pos: int, n: int) -> bool {
    pos < n <= ts.len() && lies_in(code.span, ts, pos, n) && all_within(code.stmts, code.span)
}

/// Items that lie in a stretch lie in every stretch that holds it.
pub proof fn lemma_items_in_grow(items: Seq<ExprView>, ts: Seq<SpannedTokenView>, lo: int, hi: int, hi2: int)
    requires
        in_order(ts),
        0 <= lo <= hi <= hi2 <= ts.len(),
        items_in(items, ts, lo, hi),
        items.len() > 0 ==> lo < hi,
    ensures
        items_in(items, ts, lo, hi2),
{
    assert forall|i: int| 0 <= i < items.len() implies well_spanned(#[trigger] items[i]) && lies_in(
        items[i].span,
        ts,
        lo,
        hi2,
    ) by {
        lemma_lies_in_grows(items[i].span, ts, lo, hi, lo, hi2);
    }
}

/// An expression is read well.
pub proof fn lemma_expr_spans(ts: Seq<SpannedTokenView>, pos: int)
    requires
        in_order(ts),
        0 <= pos,
    ensures
        expr_read_well(g_expr(ts, pos), ts, pos),
    decreases ts.len() - pos, 40nat,
{
    unfold_g_expr(ts, pos);
    let k = kind_at(ts, pos);
    if k == Some(TokenKind::Let) || k == Some(TokenKind::LetMut) {
        match g_ident(ts, pos + 1) {
            Ok((name, _)) => {
                match g_expect(ts, pos + 2, TokenKind::Equal) {
                    Ok(_) => {
                        lemma_expr_spans(ts, pos + 3);
                        match g_expr(ts, pos + 3) {
                            Ok((rhs, n)) => {
                                lemma_lies_in_grows(rhs.span, ts, pos + 3, n, pos, n);
                                lemma_lies_in_grows(name.span, ts, pos + 1, pos + 2, pos, n);
                            },
                            Err(_) => {},
                        }
                    },
                    Err(_) => {},
                }
            },
            Err(_) => {},
        }
    } else if crate::grammar::control_kind(k) is Some {
        lemma_expr_spans(ts, pos + 1);
        match g_expr(ts, pos + 1) {
            Ok((operand, n)) => {
                lemma_lies_in_grows(operand.span, ts, pos + 1, n, pos, n);
            },
            Err(_) => {},
        }
    } else if k == Some(TokenKind::Identifier) && crate::grammar::assign_op(kind_at(ts, pos + 1)) is Some {
        lemma_expr_spans(ts, pos + 2);
        match g_expr(ts, pos + 2) {
            Ok((rhs, n)) => {
                lemma_lies_in_grows(rhs.span, ts, pos + 2, n, pos, n);
                lemma_lies_in_grows(ts[pos].span, ts, pos, pos + 1, pos, n);
            },
            Err(_) => {},
        }
    } else {
        lemma_binary_spans(ts, pos, 0);
    }
}

/// An operand is read well.
pub proof fn lemma_operand_spans(ts: Seq<SpannedTokenView>, pos: int, level: nat)
    requires
        in_order(ts),
        0 <= pos,
        level < levels(),
    ensures
        expr_read_well(g_operand(ts, pos, level), ts, pos),
    decreases ts.len() - pos, (29 - 2 * level) as nat,
{
    unfold_g_operand(ts, pos, level);
    if level + 1 < levels() {
        lemma_binary_spans(ts, pos, level + 1);
    } else {
        lemma_unary_spans(ts, pos);
    }
}

/// Operands joined by operators are read well.
pub proof fn lemma_binary_spans(ts: Seq<SpannedTokenView>, pos: int, level: nat)
    requires
        in_order(ts),
        0 <= pos,
        level < levels(),
    ensures
        expr_read_well(g_binary(ts, pos, level), ts, pos),
    decreases ts.len() - pos, (30 - 2 * level) as nat,
{
    unfold_g_binary(ts, pos, level);
    lemma_operand_spans(ts, pos, level);
    match g_operand(ts, pos, level) {
        Ok((lhs, n)) => {
            lemma_binary_tail_spans(ts, pos, lhs, n, level);
        },
        Err(_) => {},
    }
}

/// What follows an operand that was read well is read well.
pub proof fn lemma_binary_tail_spans(ts: Seq<SpannedTokenView>, from: int, lhs: ExprView, pos: int, level: nat)
    requires
        in_order(ts),
        0 <= from,
        level < levels(),
        read_well(lhs, ts, from, pos),
    ensures
        match g_binary_tail(ts, from, lhs, pos, level) {
            Ok((e, n)) => pos <= n && read_well(e, ts, from, n),
            Err(_) => true,
        },
    decreases ts.len() - pos, 0nat,
{
    unfold_g_binary_tail(ts, from, lhs, pos, level);
    match infix_op(kind_at(ts, pos), level) {
        None => {},
        Some(op) => {
            lemma_operand_spans(ts, pos + 1, level);
            match g_operand(ts, pos + 1, level) {
                Ok((rhs, n)) => {
                    let node = binary_view(span_between(ts, from, n), op, lhs, rhs);
                    lemma_lies_in_grows(lhs.span, ts, from, pos, from, n);
                    lemma_lies_in_grows(rhs.span, ts, pos + 1, n, from, n);
                    lemma_binary_tail_spans(ts, from, node, n, level);
                },
                Err(_) => {},
            }
        },
    }
}

/// A prefix expression is read well.
pub proof fn lemma_unary_spans(ts: Seq<SpannedTokenView>, pos: int)
    requires
        in_order(ts),
        0 <= pos,
    ensures
        expr_read_well(g_unary(ts, pos), ts, pos),
    decreases ts.len() - pos, 10nat,
{
    unfold_g_unary(ts, pos);
    let k = kind_at(ts, pos);
    if k == Some(TokenKind::Minus) || k == Some(TokenKind::Bang) {
        lemma_unary_spans(ts, pos + 1);
        match g_unary(ts, pos + 1) {
            Ok((operand, n)) => {
                lemma_lies_in_grows(operand.span, ts, pos + 1, n, pos, n);
            },
            Err(_) => {},
        }
    } else {
        lemma_primary_spans(ts, pos);
        match g_primary(ts, pos) {
            Ok((e, n)) => {
                lemma_postfix_tail_spans(ts, pos, e, n);
            },
            Err(_) => {},
        }
    }
}

/// What follows a primary expression that was read well is read well.
pub proof fn lemma_postfix_tail_spans(ts: Seq<SpannedTokenView>, from: int, e: ExprView, pos: int)
    requires
        in_order(ts),
        0 <= from,
        read_well(e, ts, from, pos),
    ensures
        match g_postfix_tail(ts, from, e, pos) {
            Ok((r, n)) => pos <= n && read_well(r, ts, from, n),
            Err(_) => true,
        },
    decreases ts.len() - pos, 0nat,
{
    unfold_g_postfix_tail(ts, from, e, pos);
    let k = kind_at(ts, pos);
    if k == Some(TokenKind::LeftParenthesis) {
        lemma_list_spans(ts, pos + 1, pos + 1, Seq::empty(), TokenKind::RightParenthesis);
        match g_list(ts, pos + 1, Seq::empty(), TokenKind::RightParenthesis) {
            Ok((args, n)) => {
                let node = ExprView {
                    span: span_between(ts, from, n),
                    kind: ExprKindView::Call(Box::new(e), args),
                };
                lemma_lies_in_grows(e.span, ts, from, pos, from, n);
                assert forall|i: int| 0 <= i < args.len() implies within((#[trigger] args[i]).span, node.span)
                    && well_spanned(args[i]) by {
                    lemma_lies_in_grows(args[i].span, ts, pos + 1, n, from, n);
                }
                assert(all_within(args, node.span));
                lemma_postfix_tail_spans(ts, from, node, n);
            },
            Err(_) => {},
        }
    } else if k == Some(TokenKind::LeftBracket) {
        lemma_expr_spans(ts, pos + 1);
        match g_expr(ts, pos + 1) {
            Ok((index, n)) => {
                lemma_skip_newlines(ts, n);
                match g_expect(ts, skip_newlines(ts, n), TokenKind::RightBracket) {
                    Ok(m) => {
                        let node = ExprView {
                            span: span_between(ts, from, m),
                            kind: ExprKindView::Index(Box::new(e), Box::new(index)),
                        };
                        lemma_lies_in_grows(e.span, ts, from, pos, from, m);
                        lemma_lies_in_grows(index.span, ts, pos + 1, n, from, m);
                        lemma_postfix_tail_spans(ts, from, node, m);
                    },
                    Err(_) => {},
                }
            },
            Err(_) => {},
        }
    } else if k == Some(TokenKind::Dot) {
        match g_ident(ts, pos + 1) {
            Ok((name, m)) => {
                let node = ExprView {
                    span: span_between(ts, from, m),
                    kind: ExprKindView::Prop(Box::new(e), name),
                };
                lemma_lies_in_grows(e.span, ts, from, pos, from, m);
                lemma_lies_in_grows(name.span, ts, pos + 1, m, from, m);
                lemma_postfix_tail_spans(ts, from, node, m);
            },
            Err(_) => {},
        }
    }
}

/// The items of a list are read well: they lie between the place where the
/// list started and its closing delimiter.
pub proof fn lemma_list_spans(ts: Seq<SpannedTokenView>, lo: int, pos: int, acc: Seq<ExprView>, close: TokenKind)
    requires
        in_order(ts),
        0 <= lo <= pos <= ts.len(),
        items_in(acc, ts, lo, pos),
        acc.len() > 0 ==> lo < pos,
    ensures
        match g_list(ts, pos, acc, close) {
            Ok((items, n)) => pos < n <= ts.len() && items_in(items, ts, lo, n),
            Err(_) => true,
        },
    decreases ts.len() - pos, 41nat,
{
    unfold_g_list(ts, pos, acc, close);
    if is_kind(ts, pos, close) {
        lemma_items_in_grow(acc, ts, lo, pos, pos + 1);
    } else {
        lemma_expr_spans(ts, pos);
        match g_expr(ts, pos) {
            Ok((item, n)) => {
                lemma_skip_separators(ts, n);
                let m = skip_separators(ts, n);
                if n < m || is_kind(ts, m, close) {
                    let next = acc.push(item);
                    lemma_items_in_grow(acc, ts, lo, pos, m);
                    lemma_lies_in_grows(item.span, ts, pos, n, lo, m);
                    assert forall|i: int| 0 <= i < next.len() implies well_spanned(#[trigger] next[i])
                        && lies_in(next[i].span, ts, lo, m) by {
                    }
                    lemma_list_spans(ts, lo, m, next, close);
                }
            },
            Err(_) => {},
        }
    }
}

/// The fields of a record literal are read well.
pub proof fn lemma_fields_spans(ts: Seq<SpannedTokenView>, lo: int, pos: int, acc: Seq<(IdentView, ExprView)>)
    requires
        in_order(ts),
        0 <= lo <= pos <= ts.len(),
        fields_in(acc, ts, lo, pos),
        acc.len() > 0 ==> lo < pos,
    ensures
        match g_fields(ts, pos, acc) {
            Ok((fields, n)) => pos < n <= ts.len() && fields_in(fields, ts, lo, n),
            Err(_) => true,
        },
    decreases ts.len() - pos, 41nat,
{
    unfold_g_fields(ts, pos, acc);
    if is_kind(ts, pos, TokenKind::RightBrace) {
        assert forall|i: int| 0 <= i < acc.len() implies well_spanned((#[trigger] acc[i]).1) && lies_in(
            acc[i].1.span,
            ts,
            lo,
            pos + 1,
        ) && lies_in(acc[i].0.span, ts, lo, pos + 1) by {
            lemma_lies_in_grows(acc[i].1.span, ts, lo, pos, lo, pos + 1);
            lemma_lies_in_grows(acc[i].0.span, ts, lo, pos, lo, pos + 1);
        }
    } else {
        match g_ident(ts, pos) {
            Ok((name, _)) => {
                match g_expect(ts, pos + 1, TokenKind::Colon) {
                    Ok(_) => {
                        lemma_expr_spans(ts, pos + 2);
                        match g_expr(ts, pos + 2) {
                            Ok((value, n)) => {
                                lemma_skip_separators(ts, n);
                                let m = skip_separators(ts, n);
                                if n < m || is_kind(ts, m, TokenKind::RightBrace) {
                                    let next = acc.push((name, value));
                                    lemma_lies_in_grows(value.span, ts, pos + 2, n, lo, m);
                                    lemma_lies_in_grows(name.span, ts, pos, pos + 1, lo, m);
                                    assert forall|i: int| 0 <= i < next.len() implies well_spanned(
                                        (#[trigger] next[i]).1,
                                    ) && lies_in(next[i].1.span, ts, lo, m) && lies_in(
                                        next[i].0.span,
                                        ts,
                                        lo,
                                        m,
                                    ) by {
                                        if i < acc.len() {
                                            lemma_lies_in_grows(acc[i].1.span, ts, lo, pos, lo, m);
                                            lemma_lies_in_grows(acc[i].0.span, ts, lo, pos, lo, m);
                                        }
                                    }
                                    lemma_fields_spans(ts, lo, m, next);
                                }
                            },
                            Err(_) => {},
                        }
                    },
                    Err(_) => {},
                }
            },
            Err(_) => {},
        }
    }
}

/// The parameter names of a function literal lie between the place where
/// they started and the closing `|`.
pub proof fn lemma_params_spans(ts: Seq<SpannedTokenView>, lo: int, pos: int, acc: Seq<IdentView>)
    requires
        in_order(ts),
        0 <= lo <= pos <= ts.len(),
        names_in(acc, ts, lo, pos),
        acc.len() > 0 ==> lo < pos,
    ensures
        match g_params(ts, pos, acc) {
            Ok((names, n)) => pos < n <= ts.len() && names_in(names, ts, lo, n),
            Err(_) => true,
        },
    decreases ts.len() - pos,
{
    unfold_g_params(ts, pos, acc);
    if is_kind(ts, pos, TokenKind::Pipe) {
        assert forall|i: int| 0 <= i < acc.len() implies lies_in((#[trigger] acc[i]).span, ts, lo, pos + 1) by {
            lemma_lies_in_grows(acc[i].span, ts, lo, pos, lo, pos + 1);
        }
    } else {
        match g_ident(ts, pos) {
            Ok((name, n)) => {
                lemma_skip_separators(ts, n);
                let m = skip_separators(ts, n);
                if n < m || is_kind(ts, m, TokenKind::Pipe) {
                    let next = acc.push(name);
                    lemma_lies_in_grows(name.span, ts, pos, n, lo, m);
                    assert forall|i: int| 0 <= i < next.len() implies lies_in((#[trigger] next[i]).span, ts, lo, m) by {
                        if i < acc.len() {
                            lemma_lies_in_grows(acc[i].span, ts, lo, pos, lo, m);
                        }
                    }
                    lemma_params_spans(ts, lo, m, next);
                }
            },
            Err(_) => {},
        }
    }
}

/// The statements of a block are read well: the block takes the stretch
/// from where it started to where it closes, and its statements lie in it.
pub proof fn lemma_stmts_spans(
    ts: Seq<SpannedTokenView>,
    from: int,
    pos: int,
    acc: Seq<ExprView>,
    close: Option<TokenKind>,
)
    requires
        in_order(ts),
        0 <= from <= pos <= ts.len(),
        items_in(acc, ts, from, pos),
        acc.len() > 0 ==> from < pos,
    ensures
        match g_stmts(ts, from, pos, acc, close) {
            Ok((code, n)) => pos <= n <= ts.len() && code.span == code_span(ts, from, n) && all_within(
                code.stmts,
                code.span,
            ) && (code.stmts.len() > 0 ==> from < n),
            Err(_) => true,
        },
    decreases ts.len() - pos, 41nat,
{
    unfold_g_stmts(ts, from, pos, acc, close);
    lemma_skip_newlines(ts, pos);
    let p = skip_newlines(ts, pos);
    if crate::grammar::at_close(ts, p, close) {
        lemma_items_in_grow(acc, ts, from, pos, p);
    } else {
        lemma_expr_spans(ts, p);
        match g_expr(ts, p) {
            Ok((stmt, n)) => {
                if is_kind(ts, n, TokenKind::NewLine) || crate::grammar::at_close(ts, n, close) {
                    let next = acc.push(stmt);
                    lemma_items_in_grow(acc, ts, from, pos, n);
                    lemma_lies_in_grows(stmt.span, ts, p, n, from, n);
                    assert forall|i: int| 0 <= i < next.len() implies well_spanned(#[trigger] next[i])
                        && lies_in(next[i].span, ts, from, n) by {
                    }
                    lemma_stmts_spans(ts, from, n, next, close);
                }
            },
            Err(_) => {},
        }
    }
}

/// A block in braces is read well.
pub proof fn lemma_block_spans(ts: Seq<SpannedTokenView>, pos: int)
    requires
        in_order(ts),
        0 <= pos,
    ensures
        match g_block(ts, pos) {
            Ok((code, n)) => block_read_well(code, ts, pos, n),
            Err(_) => true,
        },
    decreases ts.len() - pos, 42nat,
{
    unfold_g_block(ts, pos);
    if is_kind(ts, pos, TokenKind::LeftBrace) {
        lemma_stmts_spans(ts, pos + 1, pos + 1, Seq::empty(), Some(TokenKind::RightBrace));
        crate::grammar_laws::lemma_stmts(ts, pos + 1, pos + 1, Seq::empty(), Some(TokenKind::RightBrace));
        match g_stmts(ts, pos + 1, pos + 1, Seq::empty(), Some(TokenKind::RightBrace)) {
            Ok((code, n)) => {
                if pos + 1 < n {
                    lemma_lies_in_grows(code.span, ts, pos + 1, n, pos, n + 1);
                } else {
                }
            },
            Err(_) => {},
        }
    }
}

/// The body of a function literal is read well: its statements lie in the
/// stretch it was read from, and so does the body where it has braces.
pub proof fn lemma_body_spans(ts: Seq<SpannedTokenView>, pos: int)
    requires
        in_order(ts),
        0 <= pos,
    ensures
        match g_body(ts, pos) {
            Ok((code, n)) => pos < n <= ts.len() && (code.span == Span::spec_dummy() || lies_in(
                code.span,
                ts,
                pos,
                n,
            )) && items_in(code.stmts, ts, pos, n),
            Err(_) => true,
        },
    decreases ts.len() - pos, 43nat,
{
    unfold_g_body(ts, pos);
    if is_kind(ts, pos, TokenKind::LeftBrace) {
        lemma_block_spans(ts, pos);
        match g_block(ts, pos) {
            Ok((code, n)) => {
            },
            Err(_) => {},
        }
    } else {
        lemma_expr_spans(ts, pos);
        match g_expr(ts, pos) {
            Ok((e, n)) => {
            },
            Err(_) => {},
        }
    }
}

/// An expression in parentheses is read well.
pub proof fn lemma_paren_spans(ts: Seq<SpannedTokenView>, pos: int)
    requires
        in_order(ts),
        0 <= pos,
        is_kind(ts, pos, TokenKind::LeftParenthesis),
    ensures
        expr_read_well(g_paren(ts, pos), ts, pos),
    decreases ts.len() - pos, 8nat,
{
    unfold_g_paren(ts, pos);
    lemma_expr_spans(ts, pos + 1);
    match g_expr(ts, pos + 1) {
        Ok((inner, n)) => {
            lemma_skip_newlines(ts, n);
            match g_expect(ts, skip_newlines(ts, n), TokenKind::RightParenthesis) {
                Ok(m) => {
                    lemma_lies_in_grows(inner.span, ts, pos + 1, n, pos, m);
                },
                Err(_) => {},
            }
        },
        Err(_) => {},
    }
}

/// An array literal is read well.
pub proof fn lemma_array_spans(ts: Seq<SpannedTokenView>, pos: int)
    requires
        in_order(ts),
        0 <= pos,
        is_kind(ts, pos, TokenKind::LeftBracket),
    ensures
        expr_read_well(g_array(ts, pos), ts, pos),
    decreases ts.len() - pos, 8nat,
{
    unfold_g_array(ts, pos);
    lemma_list_spans(ts, pos + 1, pos + 1, Seq::empty(), TokenKind::RightBracket);
    match g_list(ts, pos + 1, Seq::empty(), TokenKind::RightBracket) {
        Ok((items, n)) => {
            let span = span_between(ts, pos, n);
            assert forall|i: int| 0 <= i < items.len() implies within((#[trigger] items[i]).span, span)
                && well_spanned(items[i]) by {
                lemma_lies_in_grows(items[i].span, ts, pos + 1, n, pos, n);
            }
            assert(all_within(items, span));
        },
        Err(_) => {},
    }
}

/// A record literal is read well.
pub proof fn lemma_record_spans(ts: Seq<SpannedTokenView>, pos: int)
    requires
        in_order(ts),
        0 <= pos,
        is_kind(ts, pos, TokenKind::LeftBrace),
    ensures
        expr_read_well(g_record(ts, pos), ts, pos),
    decreases ts.len() - pos, 8nat,
{
    unfold_g_record(ts, pos);
    lemma_fields_spans(ts, pos + 1, pos + 1, Seq::empty());
    match g_fields(ts, pos + 1, Seq::empty()) {
        Ok((fields, n)) => {
            let span = span_between(ts, pos, n);
            assert forall|i: int| 0 <= i < fields.len() implies within((#[trigger] fields[i]).0.span, span)
                && within(fields[i].1.span, span) && well_spanned(fields[i].1) by {
                lemma_lies_in_grows(fields[i].0.span, ts, pos + 1, n, pos, n);
                lemma_lies_in_grows(fields[i].1.span, ts, pos + 1, n, pos, n);
            }
        },
        Err(_) => {},
    }
}

/// A function literal is read well.
pub proof fn lemma_function_spans(ts: Seq<SpannedTokenView>, pos: int)
    requires
        in_order(ts),
        0 <= pos,
        is_kind(ts, pos, TokenKind::Pipe) || is_kind(ts, pos, TokenKind::PipePipe),
    ensures
        expr_read_well(g_function(ts, pos), ts, pos),
    decreases ts.len() - pos, 8nat,
{
    unfold_g_function(ts, pos);
    let params: Parsed<Seq<IdentView>> = if is_kind(ts, pos, TokenKind::Pipe) {
        lemma_params_spans(ts, pos + 1, pos + 1, Seq::empty());
        g_params(ts, pos + 1, Seq::empty())
    } else {
        Ok((Seq::empty(), pos + 1))
    };
    match params {
        Ok((names, n)) => {
            match g_expect(ts, n, TokenKind::Arrow) {
                Ok(b) => {
                    lemma_body_spans(ts, b);
                    match g_body(ts, b) {
                        Ok((body, m)) => {
                            let span = span_between(ts, pos, m);
                            assert forall|i: int| 0 <= i < names.len() implies within(
                                (#[trigger] names[i]).span,
                                span,
                            ) by {
                                lemma_lies_in_grows(names[i].span, ts, pos + 1, n, pos, m);
                            }
                            assert forall|i: int| 0 <= i < body.stmts.len() implies within(
                                (#[trigger] body.stmts[i]).span,
                                span,
                            ) && well_spanned(body.stmts[i]) by {
                                lemma_lies_in_grows(body.stmts[i].span, ts, b, m, pos, m);
                            }
                            if body.span != Span::spec_dummy() {
                                lemma_lies_in_grows(body.span, ts, b, m, pos, m);
                            }
                            assert(all_within(body.stmts, span));
                        },
                        Err(_) => {},
                    }
                },
                Err(_) => {},
            }
        },
        Err(_) => {},
    }
}

/// An `if` is read well.
pub proof fn lemma_if_spans(ts: Seq<SpannedTokenView>, pos: int)
    requires
        in_order(ts),
        0 <= pos,
        is_kind(ts, pos, TokenKind::If),
    ensures
        expr_read_well(g_if(ts, pos), ts, pos),
    decreases ts.len() - pos, 8nat,
{
    unfold_g_if(ts, pos);
    lemma_expr_spans(ts, pos + 1);
    match g_expr(ts, pos + 1) {
        Ok((condition, n)) => {
            lemma_block_spans(ts, n);
            match g_block(ts, n) {
                Ok((yes, m)) => {
                    if is_kind(ts, m, TokenKind::Else) {
                        lemma_block_spans(ts, m + 1);
                        match g_block(ts, m + 1) {
                            Ok((no, q)) => {
                                let span = span_between(ts, pos, q);
                                lemma_lies_in_grows(condition.span, ts, pos + 1, n, pos, q);
                                lemma_lies_in_grows(yes.span, ts, n, m, pos, q);
                                lemma_lies_in_grows(no.span, ts, m + 1, q, pos, q);
                                assert(block_within(yes, span));
                                assert(block_within(no, span));
                            },
                            Err(_) => {},
                        }
                    } else {
                        lemma_lies_in_grows(condition.span, ts, pos + 1, n, pos, m);
                        lemma_lies_in_grows(yes.span, ts, n, m, pos, m);
                        assert(block_within(yes, span_between(ts, pos, m)));
                    }
                },
                Err(_) => {},
            }
        },
        Err(_) => {},
    }
}

/// A loop is read well.
pub proof fn lemma_for_spans(ts: Seq<SpannedTokenView>, pos: int)
    requires
        in_order(ts),
        0 <= pos,
        is_kind(ts, pos, TokenKind::Iter),
    ensures
        expr_read_well(g_for(ts, pos), ts, pos),
    decreases ts.len() - pos, 8nat,
{
    unfold_g_for(ts, pos);
    lemma_expr_spans(ts, pos + 1);
    match g_expr(ts, pos + 1) {
        Ok((collection, n)) => {
            match g_expect(ts, n, TokenKind::Of) {
                Ok(_) => {
                    match g_ident(ts, n + 1) {
                        Ok((item, b)) => {
                            lemma_block_spans(ts, b);
                            match g_block(ts, b) {
                                Ok((body, m)) => {
                                    lemma_lies_in_grows(collection.span, ts, pos + 1, n, pos, m);
                                    lemma_lies_in_grows(item.span, ts, n + 1, b, pos, m);
                                    lemma_lies_in_grows(body.span, ts, b, m, pos, m);
                                    assert(block_within(body, span_between(ts, pos, m)));
                                },
                                Err(_) => {},
                            }
                        },
                        Err(_) => {},
                    }
                },
                Err(_) => {},
            }
        },
        Err(_) => {},
    }
}

/// A primary expression is read well.
pub proof fn lemma_primary_spans(ts: Seq<SpannedTokenView>, pos: int)
    requires
        in_order(ts),
        0 <= pos,
    ensures
        expr_read_well(g_primary(ts, pos), ts, pos),
    decreases ts.len() - pos, 9nat,
{
    unfold_g_primary(ts, pos);
    let k = kind_at(ts, pos);
    if 0 <= pos < ts.len() && leaf_view(ts[pos]) is Some {
    } else if k == Some(TokenKind::LeftParenthesis) {
        lemma_paren_spans(ts, pos);
    } else if k == Some(TokenKind::LeftBracket) {
        lemma_array_spans(ts, pos);
    } else if k == Some(TokenKind::LeftBrace) {
        lemma_record_spans(ts, pos);
    } else if k == Some(TokenKind::Pipe) || k == Some(TokenKind::PipePipe) {
        lemma_function_spans(ts, pos);
    } else if k == Some(TokenKind::If) {
        lemma_if_spans(ts, pos);
    } else if k == Some(TokenKind::Iter) {
        lemma_for_spans(ts, pos);
    }
}

/// Every tree that is read from tokens in the order of the text is well
/// spanned: each node encloses its children.
pub proof fn lemma_trees_are_well_spanned(ts: Seq<SpannedTokenView>)
    requires
        in_order(ts),
    ensures
        g_single(ts) is Ok ==> well_spanned(g_single(ts)->Ok_0),
        g_program(ts) is Ok ==> all_within(g_program(ts)->Ok_0.stmts, g_program(ts)->Ok_0.span),
{
    lemma_expr_spans(ts, 0);
    lemma_stmts_spans(ts, 0, 0, Seq::empty(), None);
}

/// Every tree that is parsed from a text is well spanned.
pub proof fn lemma_parsed_trees_are_well_spanned(text: Seq<u8>)
    requires
        text.len() <= usize::MAX,
    ensures
        spec_parse(text) is Ok ==> well_spanned(spec_parse(text)->Ok_0),
        spec_parse_code(text) is Ok ==> all_within(
            spec_parse_code(text)->Ok_0.stmts,
            spec_parse_code(text)->Ok_0.span,
        ),
{
    let config = LexerConfig::spec_default();
    lemma_tokens_in_order(text, config);
    lemma_trees_are_well_spanned(tokens_of(text, config));
}

} // verus!
