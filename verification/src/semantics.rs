//! What evaluation means: the result and the new environment of every
//! expression, as functions over the models of trees, values and
//! environments.

use crate::ast::BinExprKind;
use crate::ast::UnaryExprKind;
use crate::ast_model::AssignOp;
use crate::ast_model::CodeView;
use crate::ast_model::ExprKindView;
use crate::ast_model::ExprView;
use crate::ast_model::IdentView;
use crate::ast_model::LiteralView;
use crate::environment::EnvView;
use crate::error::RuntimeErrorView;
use crate::span::Span;
use crate::text::decimal;
use crate::value::BuiltinFunction;
use crate::value::ValueView;
use vstd::prelude::*;

verus! {

/// A result of evaluation together with the environment it leaves.
pub type Outcome<T> = (Result<T, RuntimeErrorView>, EnvView);

/// The value of a literal.
pub open spec fn literal_value(l: LiteralView) -> ValueView {
    match l {
        LiteralView::Nil(_) => ValueView::Nil,
        LiteralView::Boolean(_, b) => ValueView::Boolean(b),
        LiteralView::Integer(_, i) => ValueView::Integer(i),
        LiteralView::String(_, s) => ValueView::String(s),
    }
}

/// Whether an integer fits in 32 bits.
pub open spec fn fits_i32(n: int) -> bool {
    i32::MIN <= n <= i32::MAX
}

/// The quotient of two integers, rounded towards zero.
pub open spec fn trunc_div(a: int, b: int) -> int
    recommends
        b != 0,
{
    if a >= 0 && b > 0 {
        a / b
    } else if a >= 0 {
        -(a / (-b))
    } else if b > 0 {
        -((-a) / b)
    } else {
        (-a) / (-b)
    }
}

/// The magnitude of an integer.
pub open spec fn magnitude(a: int) -> int {
    if a < 0 {
        -a
    } else {
        a
    }
}

/// The remainder that goes with `trunc_div`: it has the sign of `a`.
pub open spec fn trunc_rem(a: int, b: int) -> int
    recommends
        b != 0,
{
    if a >= 0 {
        a % magnitude(b)
    } else {
        -((-a) % magnitude(b))
    }
}

/// Quotient and remainder fit together: `a == b * (a / b) + a % b`, and the
/// remainder is smaller in magnitude than the divisor.
pub proof fn lemma_trunc_div_rem(a: int, b: int)
    requires
        b != 0,
    ensures
        a == b * trunc_div(a, b) + trunc_rem(a, b),
        magnitude(trunc_rem(a, b)) < magnitude(b),
{
    let ma = magnitude(a);
    let mb = magnitude(b);
    vstd::arithmetic::div_mod::lemma_fundamental_div_mod(ma, mb);
    vstd::arithmetic::div_mod::lemma_mod_bound(ma, mb);
    let q = ma / mb;
    if a >= 0 && b > 0 {
    } else if a >= 0 {
        assert(b * (-q) == mb * q) by (nonlinear_arith)
            requires
                b == -mb,
        ;
    } else if b > 0 {
        assert(b * (-q) == -(mb * q)) by (nonlinear_arith)
            requires
                b == mb,
        ;
    } else {
        assert(b * q == -(mb * q)) by (nonlinear_arith)
            requires
                b == -mb,
        ;
    }
}

/// A prefix operator applied to a value: `-` negates an integer, `!` negates
/// a boolean, anything else is a type error.
pub open spec fn unary_op(op: UnaryExprKind, v: ValueView, span: Span) -> Result<ValueView, RuntimeErrorView> {
    match (op, v) {
        (UnaryExprKind::Minus, ValueView::Integer(i)) => if i == i32::MIN {
            Err(RuntimeErrorView::IntegerOverflow(span))
        } else {
            Ok(ValueView::Integer((-i) as i32))
        },
        (UnaryExprKind::Not, ValueView::Boolean(b)) => Ok(ValueView::Boolean(!b)),
        _ => Err(RuntimeErrorView::UnaryOp(op, v, span)),
    }
}

/// An integer result, or an overflow error when it does not fit.
pub open spec fn int_result(n: int, span: Span) -> Result<ValueView, RuntimeErrorView> {
    if fits_i32(n) {
        Ok(ValueView::Integer(n as i32))
    } else {
        Err(RuntimeErrorView::IntegerOverflow(span))
    }
}

/// An arithmetic operator applied to two integers.
pub open spec fn int_op(op: BinExprKind, a: i32, b: i32, rhs_span: Span, span: Span) -> Result<
    ValueView,
    RuntimeErrorView,
>
    recommends
        op is Add || op is Sub || op is Mul || op is Div || op is Mod,
{
    match op {
        BinExprKind::Add => int_result(a + b, span),
        BinExprKind::Sub => int_result(a - b, span),
        BinExprKind::Mul => int_result(a * b, span),
        BinExprKind::Div => if b == 0 {
            Err(RuntimeErrorView::DivisionByZero(rhs_span))
        } else {
            int_result(trunc_div(a as int, b as int), span)
        },
        _ => if b == 0 {
            Err(RuntimeErrorView::DivisionByZero(rhs_span))
        } else {
            int_result(trunc_rem(a as int, b as int), span)
        },
    }
}

/// An infix operator applied to two values.
///
/// `+` adds integers and joins strings, an integer joined to a string in its
/// decimal form; `- * / %` take integers; `== !=` take any two values and
/// compare their models; `< > <= >=` take integers; `&& ||` take booleans.
/// Any other pairing is a type error that carries both operands.
pub open spec fn binary_op(
    op: BinExprKind,
    l: ValueView,
    lhs_span: Span,
    r: ValueView,
    rhs_span: Span,
    span: Span,
) -> Result<ValueView, RuntimeErrorView> {
    let mismatch = Err::<ValueView, RuntimeErrorView>(RuntimeErrorView::BinOp(op, l, lhs_span, r, rhs_span));
    match op {
        BinExprKind::Equal => Ok(ValueView::Boolean(l == r)),
        BinExprKind::NotEqual => Ok(ValueView::Boolean(l != r)),
        BinExprKind::Add => match (l, r) {
            (ValueView::Integer(a), ValueView::Integer(b)) => int_op(op, a, b, rhs_span, span),
            (ValueView::Integer(a), ValueView::String(s)) => Ok(ValueView::String(decimal(a as int) + s)),
            (ValueView::String(s), ValueView::Integer(b)) => Ok(ValueView::String(s + decimal(b as int))),
            (ValueView::String(s), ValueView::String(t)) => Ok(ValueView::String(s + t)),
            _ => mismatch,
        },
        BinExprKind::Sub | BinExprKind::Mul | BinExprKind::Div | BinExprKind::Mod => match (l, r) {
            (ValueView::Integer(a), ValueView::Integer(b)) => int_op(op, a, b, rhs_span, span),
            _ => mismatch,
        },
        BinExprKind::LessThan => match (l, r) {
            (ValueView::Integer(a), ValueView::Integer(b)) => Ok(ValueView::Boolean(a < b)),
            _ => mismatch,
        },
        BinExprKind::GreaterThan => match (l, r) {
            (ValueView::Integer(a), ValueView::Integer(b)) => Ok(ValueView::Boolean(a > b)),
            _ => mismatch,
        },
        BinExprKind::LessThanEqual => match (l, r) {
            (ValueView::Integer(a), ValueView::Integer(b)) => Ok(ValueView::Boolean(a <= b)),
            _ => mismatch,
        },
        BinExprKind::GreaterThanEqual => match (l, r) {
            (ValueView::Integer(a), ValueView::Integer(b)) => Ok(ValueView::Boolean(a >= b)),
            _ => mismatch,
        },
        BinExprKind::And => match (l, r) {
            (ValueView::Boolean(a), ValueView::Boolean(b)) => Ok(ValueView::Boolean(a && b)),
            _ => mismatch,
        },
        BinExprKind::Or => match (l, r) {
            (ValueView::Boolean(a), ValueView::Boolean(b)) => Ok(ValueView::Boolean(a || b)),
            _ => mismatch,
        },
    }
}

/// The arithmetic operator of a compound assignment.
pub open spec fn compound_operator(op: AssignOp) -> BinExprKind {
    match op {
        AssignOp::Plain => BinExprKind::Add,
        AssignOp::Add => BinExprKind::Add,
        AssignOp::Sub => BinExprKind::Sub,
        AssignOp::Mul => BinExprKind::Mul,
        AssignOp::Div => BinExprKind::Div,
        AssignOp::Mod => BinExprKind::Mod,
    }
}

/// The new value of a compound assignment: the current value and the
/// right-hand value, both integers, under the operator.
pub open spec fn compound_op(
    op: BinExprKind,
    current: ValueView,
    lhs_span: Span,
    r: ValueView,
    rhs_span: Span,
    span: Span,
) -> Result<ValueView, RuntimeErrorView> {
    match (current, r) {
        (ValueView::Integer(a), ValueView::Integer(b)) => int_op(op, a, b, rhs_span, span),
        _ => Err(RuntimeErrorView::BinOp(op, current, lhs_span, r, rhs_span)),
    }
}

/// A property of a value: the field of a record, `nil` where the record
/// lacks it.
pub open spec fn prop_value(target: ValueView, name: Seq<char>, span: Span) -> Result<
    ValueView,
    RuntimeErrorView,
> {
    match target {
        ValueView::Record(m) => if m.dom().contains(name) {
            Ok(m[name])
        } else {
            Ok(ValueView::Nil)
        },
        _ => Err(RuntimeErrorView::NotARecord(target, span)),
    }
}

/// An item of an array: the item at a non-negative integer index, `nil`
/// past the end.
pub open spec fn index_value(items: Seq<ValueView>, index: ValueView, span: Span) -> Result<
    ValueView,
    RuntimeErrorView,
> {
    match index {
        ValueView::Integer(i) => if i < 0 {
            Err(RuntimeErrorView::InvalidIndex(index, span))
        } else if i < items.len() {
            Ok(items[i as int])
        } else {
            Ok(ValueView::Nil)
        },
        _ => Err(RuntimeErrorView::InvalidIndex(index, span)),
    }
}

/// Evaluates the expressions from place `i` on, left to right, and appends
/// their values to `acc`. The first error ends it.
pub open spec fn sem_seq<B: BuiltinFunction>(
    host: &B,
    items: Seq<ExprView>,
    i: int,
    acc: Seq<ValueView>,
    env: EnvView,
    depth: nat,
) -> Outcome<Seq<ValueView>>
    decreases depth, items, items.len() - i,
{
    if i < 0 || i >= items.len() {
        (Ok(acc), env)
    } else {
        let (r, env1) = sem_expr(host, items[i], env, depth);
        match r {
            Err(e) => (Err(e), env1),
            Ok(v) => sem_seq(host, items, i + 1, acc.push(v), env1, depth),
        }
    }
}

/// Evaluates the fields of a record literal from place `i` on and puts them
/// into `acc`; of two fields of one name the later counts.
pub open spec fn sem_fields<B: BuiltinFunction>(
    host: &B,
    fields: Seq<(IdentView, ExprView)>,
    i: int,
    acc: Map<Seq<char>, ValueView>,
    env: EnvView,
    depth: nat,
) -> Outcome<Map<Seq<char>, ValueView>>
    decreases depth, fields, fields.len() - i,
{
    if i < 0 || i >= fields.len() {
        (Ok(acc), env)
    } else {
        let (r, env1) = sem_expr(host, fields[i].1, env, depth);
        match r {
            Err(e) => (Err(e), env1),
            Ok(v) => sem_fields(host, fields, i + 1, acc.insert(fields[i].0.symbol, v), env1, depth),
        }
    }
}

/// Evaluates the statements from place `i` on; `last` is the value of the
/// statement before them. The value of the last statement is the result.
pub open spec fn sem_stmts<B: BuiltinFunction>(
    host: &B,
    stmts: Seq<ExprView>,
    i: int,
    last: ValueView,
    env: EnvView,
    depth: nat,
) -> Outcome<ValueView>
    decreases depth, stmts, stmts.len() - i,
{
    if i < 0 || i >= stmts.len() {
        (Ok(last), env)
    } else {
        let (r, env1) = sem_expr(host, stmts[i], env, depth);
        match r {
            Err(e) => (Err(e), env1),
            Ok(v) => sem_stmts(host, stmts, i + 1, v, env1, depth),
        }
    }
}

/// Evaluates a block: its statements in order. An empty block is `nil`.
pub open spec fn sem_code<B: BuiltinFunction>(host: &B, code: CodeView, env: EnvView, depth: nat) -> Outcome<
    ValueView,
>
    decreases depth, code, 0nat,
{
    sem_stmts(host, code.stmts, 0, ValueView::Nil, env, depth)
}

/// Runs the body of a loop for the items from place `i` on: assigns the item
/// to the loop variable, then evaluates the body and drops its value.
pub open spec fn sem_for<B: BuiltinFunction>(
    host: &B,
    values: Seq<ValueView>,
    i: int,
    item: IdentView,
    body: CodeView,
    env: EnvView,
    depth: nat,
) -> Outcome<ValueView>
    decreases depth, body, values.len() - i,
{
    if i < 0 || i >= values.len() {
        (Ok(ValueView::Nil), env)
    } else {
        let (ra, env1) = env.assign(item, values[i]);
        match ra {
            Err(e) => (Err(e), env1),
            Ok(()) => {
                let (rb, env2) = sem_code(host, body, env1, depth);
                match rb {
                    Err(e) => (Err(e), env2),
                    Ok(_) => sem_for(host, values, i + 1, item, body, env2, depth),
                }
            },
        }
    }
}

/// Evaluates an expression in an environment. `depth` is the number of
/// nested closure calls that may still be entered.
pub open spec fn sem_expr<B: BuiltinFunction>(host: &B, e: ExprView, env: EnvView, depth: nat) -> Outcome<
    ValueView,
>
    decreases depth, e, 0nat,
{
    match e.kind {
        ExprKindView::Literal(l) => (Ok(literal_value(l)), env),
        ExprKindView::Ident(i) => (env.load(i), env),
        ExprKindView::Array { span, elements } => {
            let (r, env1) = sem_seq(host, elements, 0, Seq::empty(), env, depth);
            match r {
                Err(e) => (Err(e), env1),
                Ok(vs) => (Ok(ValueView::Array(vs)), env1),
            }
        },
        ExprKindView::Record { span, fields } => {
            let (r, env1) = sem_fields(host, fields, 0, Map::empty(), env, depth);
            match r {
                Err(e) => (Err(e), env1),
                Ok(m) => (Ok(ValueView::Record(m)), env1),
            }
        },
        ExprKindView::Function(f) => (Ok(ValueView::Closure(f, env.call_stack.last())), env),
        ExprKindView::Call(callee, args) => {
            let (rc, env1) = sem_expr(host, *callee, env, depth);
            match rc {
                Err(e) => (Err(e), env1),
                Ok(ValueView::Builtin(id)) => {
                    let (ra, env2) = sem_seq(host, args, 0, Seq::empty(), env1, depth);
                    match ra {
                        Err(e) => (Err(e), env2),
                        Ok(vs) => (Ok(host.result(id, vs)), env2),
                    }
                },
                Ok(ValueView::Closure(f, capture)) => {
                    let (ra, env2) = sem_seq(host, args, 0, Seq::empty(), env1, depth);
                    match ra {
                        Err(e) => (Err(e), env2),
                        Ok(vs) => if depth == 0 {
                            (Err(RuntimeErrorView::CallDepthExceeded(e.span)), env2)
                        } else {
                            let (rf, env3) = env2.call(capture, f.parameters, vs, e.span);
                            match rf {
                                Err(e) => (Err(e), env3),
                                Ok(()) => {
                                    let (rb, env4) = sem_code(host, f.body, env3, (depth - 1) as nat);
                                    (rb, env4.ret())
                                },
                            }
                        },
                    }
                },
                Ok(v) => (Err(RuntimeErrorView::NotCallable(v, callee.span)), env1),
            }
        },
        ExprKindView::Prop(target, name) => {
            let (r, env1) = sem_expr(host, *target, env, depth);
            match r {
                Err(e) => (Err(e), env1),
                Ok(v) => (prop_value(v, name.symbol, target.span), env1),
            }
        },
        ExprKindView::Index(target, index) => {
            let (r, env1) = sem_expr(host, *target, env, depth);
            match r {
                Err(e) => (Err(e), env1),
                Ok(ValueView::Array(items)) => {
                    let (ri, env2) = sem_expr(host, *index, env1, depth);
                    match ri {
                        Err(e) => (Err(e), env2),
                        Ok(i) => (index_value(items, i, index.span), env2),
                    }
                },
                Ok(v) => (Err(RuntimeErrorView::NotIndexable(v, target.span)), env1),
            }
        },
        ExprKindView::Unary { span, op, expr } => {
            let (r, env1) = sem_expr(host, *expr, env, depth);
            match r {
                Err(e) => (Err(e), env1),
                Ok(v) => (unary_op(op, v, span), env1),
            }
        },
        ExprKindView::Binary { span, op, lhs, rhs } => {
            let (rl, env1) = sem_expr(host, *lhs, env, depth);
            match rl {
                Err(e) => (Err(e), env1),
                Ok(l) => {
                    let (rr, env2) = sem_expr(host, *rhs, env1, depth);
                    match rr {
                        Err(e) => (Err(e), env2),
                        Ok(r) => (binary_op(op, l, lhs.span, r, rhs.span, span), env2),
                    }
                },
            }
        },
        ExprKindView::Assign(AssignOp::Plain, name, rhs) => {
            let (r, env1) = sem_expr(host, *rhs, env, depth);
            match r {
                Err(e) => (Err(e), env1),
                Ok(v) => {
                    let (ra, env2) = env1.assign(name, v);
                    match ra {
                        Err(e) => (Err(e), env2),
                        Ok(()) => (Ok(v), env2),
                    }
                },
            }
        },
        ExprKindView::Assign(op, name, rhs) => {
            match env.load(name) {
                Err(e) => (Err(e), env),
                Ok(current) => {
                    let (r, env1) = sem_expr(host, *rhs, env, depth);
                    match r {
                        Err(e) => (Err(e), env1),
                        Ok(v) => match compound_op(compound_operator(op), current, name.span, v, rhs.span, e.span) {
                            Err(e) => (Err(e), env1),
                            Ok(n) => {
                                let (ra, env2) = env1.assign(name, n);
                                match ra {
                                    Err(e) => (Err(e), env2),
                                    Ok(()) => (Ok(n), env2),
                                }
                            },
                        },
                    }
                },
            }
        },
        ExprKindView::Declare(mutable, name, rhs) => {
            let (r, env1) = sem_expr(host, *rhs, env, depth);
            match r {
                Err(e) => (Err(e), env1),
                Ok(v) => {
                    let (rd, env2) = env1.declare(name.symbol, v, mutable);
                    match rd {
                        Err(e) => (Err(e), env2),
                        Ok(()) => (Ok(v), env2),
                    }
                },
            }
        },
        ExprKindView::If(condition, yes, no) => {
            let (r, env1) = sem_expr(host, *condition, env, depth);
            match r {
                Err(e) => (Err(e), env1),
                Ok(ValueView::Boolean(true)) => sem_code(host, yes, env1, depth),
                Ok(ValueView::Boolean(false)) => match no {
                    Some(c) => sem_code(host, c, env1, depth),
                    None => (Ok(ValueView::Nil), env1),
                },
                Ok(v) => (Err(RuntimeErrorView::NotABoolean(v, condition.span)), env1),
            }
        },
        ExprKindView::For(collection, item, body) => {
            let (r, env1) = sem_expr(host, *collection, env, depth);
            match r {
                Err(e) => (Err(e), env1),
                Ok(ValueView::Array(items)) => {
                    let (rd, env2) = env1.declare(item.symbol, ValueView::Nil, true);
                    match rd {
                        Err(e) => (Err(e), env2),
                        Ok(()) => sem_for(host, items, 0, item, body, env2, depth),
                    }
                },
                Ok(v) => (Err(RuntimeErrorView::NotIterable(v, collection.span)), env1),
            }
        },
        ExprKindView::Control(_, _) => (Err(RuntimeErrorView::Unsupported(e.span)), env),
    }
}

} // verus!
