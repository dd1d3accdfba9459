//! The operators on values.

use crate::ast::BinExprKind;
use crate::ast::Ident;
use crate::ast::Literal;
use crate::ast::UnaryExprKind;
use crate::error::RuntimeError;
use crate::error::RuntimeErrorView;
use crate::error::TypeError;
use crate::semantics;
use crate::span::Span;
use crate::text::decimal_string;
use crate::value::clone_value;
use crate::value::lemma_record_view;
use crate::value::same_value;
use crate::value::Value;
use crate::value::ValueView;
use vstd::prelude::*;
use vstd::string::StringExecFns;

verus! {

/// The model of a result of evaluation.
pub open spec fn value_result(r: Result<Value, RuntimeError>) -> Result<ValueView, RuntimeErrorView> {
    match r {
        Ok(v) => Ok(v.view()),
        Err(e) => Err(e.view()),
    }
}

impl Value {
    /// The value of a literal.
    pub fn from_literal(ex: Literal) -> (r: Value)
        ensures
            r.view() == semantics::literal_value(ex.view()),
    {
        match ex {
            Literal::Nil(_) => Value::Nil,
            Literal::Boolean(b) => Value::Boolean(b.value),
            Literal::Integer(i) => Value::Integer(i.value),
            Literal::String(s) => Value::String(s.value),
        }
    }
}

/// Applies a prefix operator.
pub fn apply_unary(op: UnaryExprKind, v: Value, span: Span) -> (r: Result<Value, RuntimeError>)
    ensures
        value_result(r) == semantics::unary_op(op, v.view(), span),
{
    match (op, v) {
        (UnaryExprKind::Minus, Value::Integer(i)) => {
            if i == i32::MIN {
                Err(RuntimeError::IntegerOverflow { span })
            } else {
                Ok(Value::Integer(-i))
            }
        },
        (UnaryExprKind::Not, Value::Boolean(b)) => Ok(Value::Boolean(!b)),
        (op, v) => Err(RuntimeError::TypeError(TypeError::UnaryOp { op, expr: v, expr_span: span })),
    }
}

/// An integer value, or an overflow error when `n` does not fit.
fn int_value(n: i64, span: Span) -> (r: Result<Value, RuntimeError>)
    ensures
        value_result(r) == semantics::int_result(n as int, span),
{
    if -2147483648 <= n && n <= 2147483647 {
        Ok(Value::Integer(n as i32))
    } else {
        Err(RuntimeError::IntegerOverflow { span })
    }
}

/// The magnitude of a 32-bit integer.
fn magnitude_of(a: i32) -> (r: u64)
    ensures
        r == semantics::magnitude(a as int),
{
    if a < 0 {
        (-(a as i64)) as u64
    } else {
        a as u64
    }
}

/// Applies an arithmetic operator to two integers.
pub fn apply_int_op(op: BinExprKind, a: i32, b: i32, rhs_span: Span, span: Span) -> (r: Result<Value, RuntimeError>)
    requires
        op is Add || op is Sub || op is Mul || op is Div || op is Mod,
    ensures
        value_result(r) == semantics::int_op(op, a, b, rhs_span, span),
{
    match op {
        BinExprKind::Add => int_value(a as i64 + b as i64, span),
        BinExprKind::Sub => int_value(a as i64 - b as i64, span),
        BinExprKind::Mul => {
            assert(-0x4000_0000_0000_0000 <= (a as int) * (b as int) <= 0x4000_0000_0000_0000)
                by (nonlinear_arith)
                requires
                    -0x8000_0000 <= a as int <= 0x8000_0000,
                    -0x8000_0000 <= b as int <= 0x8000_0000,
            ;
            int_value((a as i64) * (b as i64), span)
        },
        BinExprKind::Div => {
            if b == 0 {
                Err(RuntimeError::DivisionByZero { span: rhs_span })
            } else {
                let q: u64 = magnitude_of(a) / magnitude_of(b);
                let n: i64 = if (a < 0) != (b < 0) {
                    -(q as i64)
                } else {
                    q as i64
                };
                int_value(n, span)
            }
        },
        _ => {
            if b == 0 {
                Err(RuntimeError::DivisionByZero { span: rhs_span })
            } else {
                let m: u64 = magnitude_of(a) % magnitude_of(b);
                let n: i64 = if a < 0 {
                    -(m as i64)
                } else {
                    m as i64
                };
                int_value(n, span)
            }
        },
    }
}

/// The type error of an infix operator.
fn mismatch(op: BinExprKind, l: Value, lhs_span: Span, r: Value, rhs_span: Span) -> (e: Result<
    Value,
    RuntimeError,
>)
    ensures
        value_result(e) == Err::<ValueView, RuntimeErrorView>(
            RuntimeErrorView::BinOp(op, l.view(), lhs_span, r.view(), rhs_span),
        ),
{
    Err(RuntimeError::TypeError(TypeError::BinOp { op, lhs: l, lhs_span, rhs: r, rhs_span }))
}

/// Joins two texts.
fn join(a: String, b: &String) -> (r: String)
    ensures
        r@ == a@ + b@,
{
    let mut s = a;
    s.append(b.as_str());
    s
}

/// Applies an infix operator.
pub fn apply_binary(op: BinExprKind, l: Value, lhs_span: Span, r: Value, rhs_span: Span, span: Span) -> (res:
    Result<Value, RuntimeError>)
    ensures
        value_result(res) == semantics::binary_op(op, l.view(), lhs_span, r.view(), rhs_span, span),
{
    match op {
        BinExprKind::Equal => Ok(Value::Boolean(same_value(&l, &r))),
        BinExprKind::NotEqual => Ok(Value::Boolean(!same_value(&l, &r))),
        BinExprKind::Add => {
            match (l, r) {
                (Value::Integer(a), Value::Integer(b)) => apply_int_op(op, a, b, rhs_span, span),
                (Value::Integer(a), Value::String(s)) => Ok(Value::String(join(decimal_string(a), &s))),
                (Value::String(s), Value::Integer(b)) => {
                    let d = decimal_string(b);
                    Ok(Value::String(join(s, &d)))
                },
                (Value::String(s), Value::String(t)) => Ok(Value::String(join(s, &t))),
                (l, r) => mismatch(op, l, lhs_span, r, rhs_span),
            }
        },
        BinExprKind::Sub | BinExprKind::Mul | BinExprKind::Div | BinExprKind::Mod => {
            match (l, r) {
                (Value::Integer(a), Value::Integer(b)) => apply_int_op(op, a, b, rhs_span, span),
                (l, r) => mismatch(op, l, lhs_span, r, rhs_span),
            }
        },
        BinExprKind::LessThan => {
            match (l, r) {
                (Value::Integer(a), Value::Integer(b)) => Ok(Value::Boolean(a < b)),
                (l, r) => mismatch(op, l, lhs_span, r, rhs_span),
            }
        },
        BinExprKind::GreaterThan => {
            match (l, r) {
                (Value::Integer(a), Value::Integer(b)) => Ok(Value::Boolean(a > b)),
                (l, r) => mismatch(op, l, lhs_span, r, rhs_span),
            }
        },
        BinExprKind::LessThanEqual => {
            match (l, r) {
                (Value::Integer(a), Value::Integer(b)) => Ok(Value::Boolean(a <= b)),
                (l, r) => mismatch(op, l, lhs_span, r, rhs_span),
            }
        },
        BinExprKind::GreaterThanEqual => {
            match (l, r) {
                (Value::Integer(a), Value::Integer(b)) => Ok(Value::Boolean(a >= b)),
                (l, r) => mismatch(op, l, lhs_span, r, rhs_span),
            }
        },
        BinExprKind::And => {
            match (l, r) {
                (Value::Boolean(a), Value::Boolean(b)) => Ok(Value::Boolean(a && b)),
                (l, r) => mismatch(op, l, lhs_span, r, rhs_span),
            }
        },
        BinExprKind::Or => {
            match (l, r) {
                (Value::Boolean(a), Value::Boolean(b)) => Ok(Value::Boolean(a || b)),
                (l, r) => mismatch(op, l, lhs_span, r, rhs_span),
            }
        },
    }
}

/// The new value of a compound assignment.
pub fn apply_compound(
    op: BinExprKind,
    current: Value,
    lhs_span: Span,
    r: Value,
    rhs_span: Span,
    span: Span,
) -> (res: Result<Value, RuntimeError>)
    requires
        op is Add || op is Sub || op is Mul || op is Div || op is Mod,
    ensures
        value_result(res) == semantics::compound_op(op, current.view(), lhs_span, r.view(), rhs_span, span),
{
    match (current, r) {
        (Value::Integer(a), Value::Integer(b)) => apply_int_op(op, a, b, rhs_span, span),
        (l, r) => mismatch(op, l, lhs_span, r, rhs_span),
    }
}

/// The field `name` of a record value.
pub fn property_of(target: Value, name: &Ident, span: Span) -> (res: Result<Value, RuntimeError>)
    ensures
        value_result(res) == semantics::prop_value(target.view(), name.symbol@, span),
{
    match target {
        Value::Record(rec) => {
            proof {
                lemma_record_view(rec);
            }
            match rec.get(name) {
                Some(v) => Ok(clone_value(v)),
                None => Ok(Value::Nil),
            }
        },
        other => Err(RuntimeError::NotARecord { value: other, span }),
    }
}

/// The item of an array at an index value.
pub fn item_at(items: &Vec<Value>, index: Value, span: Span) -> (res: Result<Value, RuntimeError>)
    ensures
        value_result(res) == semantics::index_value(crate::value::values_view(items@), index.view(), span),
{
    match index {
        Value::Integer(i) => {
            if i < 0 {
                Err(RuntimeError::InvalidIndex { value: Value::Integer(i), span })
            } else if (i as usize) < items.len() {
                Ok(clone_value(&items[i as usize]))
            } else {
                Ok(Value::Nil)
            }
        },
        other => Err(RuntimeError::InvalidIndex { value: other, span }),
    }
}

} // verus!
