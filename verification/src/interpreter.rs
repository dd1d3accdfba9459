//! The tree-walking evaluator.

use crate::ast::BinExprKind;
use crate::ast::Code;
use crate::ast::Expr;
use crate::ast::ExprKind;
use crate::ast::Ident;
use crate::ast_clone::clone_function;
use crate::ast_clone::clone_literal;
use crate::ast_model::expr_fields_view;
use crate::ast_model::exprs_view;
use crate::ast_model::lemma_arguments_view;
use crate::ast_model::lemma_array_literal_view;
use crate::ast_model::lemma_code_view;
use crate::ast_model::lemma_record_literal_view;
use crate::environment::EnvView;
use crate::environment::Environment;
use crate::error::InterpreterError;
use crate::error::InterpreterErrorView;
use crate::error::RuntimeError;
use crate::error::RuntimeErrorView;
use crate::ops::apply_binary;
use crate::ops::apply_compound;
use crate::ops::apply_unary;
use crate::ops::item_at;
use crate::ops::property_of;
use crate::ops::value_result;
use crate::parser::parse_code;
use crate::parser::spec_parse_code;
use crate::semantics::sem_code;
use crate::semantics::sem_expr;
use crate::semantics::sem_fields;
use crate::semantics::sem_for;
use crate::semantics::sem_seq;
use crate::semantics::sem_stmts;
use crate::value::clone_value;
use crate::value::lemma_array_view;
use crate::value::lemma_record_view;
use crate::value::values_view;
use crate::value::ArgumentValues;
use crate::value::BuiltinFunction;
use crate::value::FunctionValue;
use crate::value::Record;
use crate::value::Value;
use crate::value::ValueView;
use vstd::prelude::*;
use vstd::string::StringSliceAdditionalSpecFns;

verus! {

/// The model of a result that holds a list of values.
pub open spec fn values_result(r: Result<Vec<Value>, RuntimeError>) -> Result<Seq<ValueView>, RuntimeErrorView> {
    match r {
        Ok(v) => Ok(values_view(v@)),
        Err(e) => Err(e.view()),
    }
}

/// The model of a result that holds a record.
pub open spec fn record_result(r: Result<Record, RuntimeError>) -> Result<
    Map<Seq<char>, ValueView>,
    RuntimeErrorView,
> {
    match r {
        Ok(v) => Ok(v.view()),
        Err(e) => Err(e.view()),
    }
}

/// Evaluates expressions left to right and collects their values.
pub fn eval_seq<B: BuiltinFunction>(env: &mut Environment, host: &B, items: &Vec<Expr>, depth: usize) -> (r:
    Result<Vec<Value>, RuntimeError>)
    requires
        old(env).wf(),
    ensures
        final(env).wf(),
        final(env).view().call_stack == old(env).view().call_stack,
        host.obeys_result() ==> (values_result(r), final(env).view()) == sem_seq(
            host,
            exprs_view(items@),
            0,
            Seq::empty(),
            old(env).view(),
            depth as nat,
        ),
    decreases depth, items, 0nat,
{
    let ghost xs = exprs_view(items@);
    let ghost start = env.view();
    let mut out: Vec<Value> = Vec::new();
    let mut i: usize = 0;
    assert(values_view(out@) =~= Seq::empty());
    while i < items.len()
        invariant
            i <= items.len(),
            env.wf(),
            env.view().call_stack == old(env).view().call_stack,
            start == old(env).view(),
            xs == exprs_view(items@),
            host.obeys_result() ==> sem_seq(host, xs, 0, Seq::empty(), start, depth as nat) == sem_seq(
                host,
                xs,
                i as int,
                values_view(out@),
                env.view(),
                depth as nat,
            ),
        decreases items.len() - i,
    {
        proof {
            vstd::std_specs::vec::axiom_vec_index_decreases(*items, i as int);
        }
        let ghost acc = values_view(out@);
        match eval_expr(env, host, &items[i], depth) {
            Err(e) => {
                return Err(e);
            },
            Ok(v) => {
                out.push(v);
                assert(values_view(out@) =~= acc.push(v.view()));
            },
        }
        i = i + 1;
    }
    Ok(out)
}

/// Evaluates the fields of a record literal in order.
pub fn eval_fields<B: BuiltinFunction>(
    env: &mut Environment,
    host: &B,
    fields: &Vec<(Ident, Expr)>,
    depth: usize,
) -> (r: Result<Record, RuntimeError>)
    requires
        old(env).wf(),
    ensures
        final(env).wf(),
        final(env).view().call_stack == old(env).view().call_stack,
        host.obeys_result() ==> (record_result(r), final(env).view()) == sem_fields(
            host,
            expr_fields_view(fields@),
            0,
            Map::empty(),
            old(env).view(),
            depth as nat,
        ),
    decreases depth, fields, 0nat,
{
    let ghost xs = expr_fields_view(fields@);
    let ghost start = env.view();
    let mut out = Record::new();
    let mut i: usize = 0;
    while i < fields.len()
        invariant
            i <= fields.len(),
            env.wf(),
            env.view().call_stack == old(env).view().call_stack,
            start == old(env).view(),
            xs == expr_fields_view(fields@),
            host.obeys_result() ==> sem_fields(host, xs, 0, Map::empty(), start, depth as nat) == sem_fields(
                host,
                xs,
                i as int,
                out.view(),
                env.view(),
                depth as nat,
            ),
        decreases fields.len() - i,
    {
        proof {
            vstd::std_specs::vec::axiom_vec_index_decreases(*fields, i as int);
        }
        match eval_expr(env, host, &fields[i].1, depth) {
            Err(e) => {
                return Err(e);
            },
            Ok(v) => {
                out.insert(&fields[i].0, v);
            },
        }
        i = i + 1;
    }
    Ok(out)
}

/// Evaluates a block: its statements in order; the value of the last one is
/// the value of the block, and an empty block is `nil`.
pub fn eval_code<B: BuiltinFunction>(env: &mut Environment, host: &B, code: &Code, depth: usize) -> (r: Result<
    Value,
    RuntimeError,
>)
    requires
        old(env).wf(),
    ensures
        final(env).wf(),
        final(env).view().call_stack == old(env).view().call_stack,
        host.obeys_result() ==> (value_result(r), final(env).view()) == sem_code(
            host,
            code.view(),
            old(env).view(),
            depth as nat,
        ),
    decreases depth, code, 0nat,
{
    let ghost xs = exprs_view(code.stmts@);
    let ghost start = env.view();
    proof {
        lemma_code_view(code);
    }
    let mut last = Value::Nil;
    let mut i: usize = 0;
    while i < code.stmts.len()
        invariant
            i <= code.stmts.len(),
            env.wf(),
            env.view().call_stack == old(env).view().call_stack,
            start == old(env).view(),
            xs == exprs_view(code.stmts@),
            code.view().stmts == xs,
            host.obeys_result() ==> sem_stmts(host, xs, 0, ValueView::Nil, start, depth as nat) == sem_stmts(
                host,
                xs,
                i as int,
                last.view(),
                env.view(),
                depth as nat,
            ),
        decreases code.stmts.len() - i,
    {
        proof {
            vstd::std_specs::vec::axiom_vec_index_decreases(code.stmts, i as int);
        }
        match eval_expr(env, host, &code.stmts[i], depth) {
            Err(e) => {
                return Err(e);
            },
            Ok(v) => {
                last = v;
            },
        }
        i = i + 1;
    }
    Ok(last)
}

/// Runs the body of a loop once for each item.
pub fn eval_for<B: BuiltinFunction>(
    env: &mut Environment,
    host: &B,
    values: &Vec<Value>,
    item: &Ident,
    body: &Code,
    depth: usize,
) -> (r: Result<Value, RuntimeError>)
    requires
        old(env).wf(),
    ensures
        final(env).wf(),
        final(env).view().call_stack == old(env).view().call_stack,
        host.obeys_result() ==> (value_result(r), final(env).view()) == sem_for(
            host,
            values_view(values@),
            0,
            item.view(),
            body.view(),
            old(env).view(),
            depth as nat,
        ),
    decreases depth, body, 1nat,
{
    let ghost xs = values_view(values@);
    let ghost start = env.view();
    let mut i: usize = 0;
    while i < values.len()
        invariant
            i <= values.len(),
            env.wf(),
            env.view().call_stack == old(env).view().call_stack,
            start == old(env).view(),
            xs == values_view(values@),
            host.obeys_result() ==> sem_for(host, xs, 0, item.view(), body.view(), start, depth as nat) == sem_for(
                host,
                xs,
                i as int,
                item.view(),
                body.view(),
                env.view(),
                depth as nat,
            ),
        decreases values.len() - i,
    {
        match env.assign(item, clone_value(&values[i])) {
            Err(e) => {
                return Err(e);
            },
            Ok(()) => {},
        }
        match eval_code(env, host, body, depth) {
            Err(e) => {
                return Err(e);
            },
            Ok(_) => {},
        }
        i = i + 1;
    }
    Ok(Value::Nil)
}

/// Evaluates a call: the callee, which must be a function, then the
/// arguments left to right; a builtin is handed the arguments, a closure
/// runs its body in a new frame under the frame it captured.
pub fn eval_call<B: BuiltinFunction>(env: &mut Environment, host: &B, e: &Expr, depth: usize) -> (r: Result<
    Value,
    RuntimeError,
>)
    requires
        old(env).wf(),
        e.kind is Call,
    ensures
        final(env).wf(),
        final(env).view().call_stack == old(env).view().call_stack,
        host.obeys_result() ==> (value_result(r), final(env).view()) == sem_expr(
            host,
            e.view(),
            old(env).view(),
            depth as nat,
        ),
    decreases depth, e, 0nat,
{
    match &e.kind {
        ExprKind::Call(callee, args) => {
            proof {
                lemma_arguments_view(args);
            }
            let f = match eval_expr(env, host, callee, depth) {
                Err(err) => {
                    return Err(err);
                },
                Ok(f) => f,
            };
            match f {
                Value::Function(FunctionValue::Builtin(id)) => {
                    match eval_seq(env, host, &args.0, depth) {
                        Err(err) => Err(err),
                        Ok(vals) => Ok(host.call(id, ArgumentValues(vals))),
                    }
                },
                Value::Function(FunctionValue::Closure { body, capture }) => {
                    match eval_seq(env, host, &args.0, depth) {
                        Err(err) => Err(err),
                        Ok(vals) => {
                            if depth == 0 {
                                Err(RuntimeError::CallDepthExceeded { span: e.span })
                            } else {
                                match env.call(capture, &body.parameters, ArgumentValues(vals), e.span) {
                                    Err(err) => Err(err),
                                    Ok(()) => {
                                        let r = eval_code(env, host, &body.body, depth - 1);
                                        env.ret();
                                        r
                                    },
                                }
                            }
                        },
                    }
                },
                other => Err(RuntimeError::NotCallable { value: other, span: callee.span }),
            }
        },
        _ => Err(RuntimeError::Unsupported { span: e.span }),
    }
}

/// Evaluates `target.name` and `target[index]`.
pub fn eval_access<B: BuiltinFunction>(env: &mut Environment, host: &B, e: &Expr, depth: usize) -> (r: Result<
    Value,
    RuntimeError,
>)
    requires
        old(env).wf(),
        e.kind is Prop || e.kind is Index,
    ensures
        final(env).wf(),
        final(env).view().call_stack == old(env).view().call_stack,
        host.obeys_result() ==> (value_result(r), final(env).view()) == sem_expr(
            host,
            e.view(),
            old(env).view(),
            depth as nat,
        ),
    decreases depth, e, 0nat,
{
    match &e.kind {
        ExprKind::Prop(target, name) => {
            match eval_expr(env, host, target, depth) {
                Err(err) => Err(err),
                Ok(v) => property_of(v, name, target.span),
            }
        },
        ExprKind::Index(target, index) => {
            match eval_expr(env, host, target, depth) {
                Err(err) => Err(err),
                Ok(Value::Array(items)) => {
                    proof {
                        lemma_array_view(items);
                    }
                    match eval_expr(env, host, index, depth) {
                        Err(err) => Err(err),
                        Ok(i) => item_at(&items, i, index.span),
                    }
                },
                Ok(other) => Err(RuntimeError::NotIndexable { value: other, span: target.span }),
            }
        },
        _ => Err(RuntimeError::Unsupported { span: e.span }),
    }
}

/// Evaluates a prefix or an infix expression: the operands left to right,
/// both of them always, then the operator.
pub fn eval_operator<B: BuiltinFunction>(env: &mut Environment, host: &B, e: &Expr, depth: usize) -> (r: Result<
    Value,
    RuntimeError,
>)
    requires
        old(env).wf(),
        e.kind is UnaryExpr || e.kind is BinExpr,
    ensures
        final(env).wf(),
        final(env).view().call_stack == old(env).view().call_stack,
        host.obeys_result() ==> (value_result(r), final(env).view()) == sem_expr(
            host,
            e.view(),
            old(env).view(),
            depth as nat,
        ),
    decreases depth, e, 0nat,
{
    match &e.kind {
        ExprKind::UnaryExpr(u) => {
            let r = match eval_expr(env, host, &u.expr, depth) {
                Err(err) => Err(err),
                Ok(v) => apply_unary(u.op, v, u.span),
            };
            assert(e.view().kind == u.view());
            r
        },
        ExprKind::BinExpr(b) => {
            let r = match eval_expr(env, host, &b.lhs, depth) {
                Err(err) => Err(err),
                Ok(l) => {
                    match eval_expr(env, host, &b.rhs, depth) {
                        Err(err) => Err(err),
                        Ok(r) => apply_binary(b.op, l, b.lhs.span, r, b.rhs.span, b.span),
                    }
                },
            };
            assert(e.view().kind == b.view());
            r
        },
        _ => Err(RuntimeError::Unsupported { span: e.span }),
    }
}

/// Evaluates a compound assignment: reads the variable, evaluates the
/// right-hand side, combines the two and assigns the result.
pub fn eval_compound<B: BuiltinFunction>(
    env: &mut Environment,
    host: &B,
    e: &Expr,
    op: BinExprKind,
    name: &Ident,
    rhs: &Expr,
    depth: usize,
) -> (r: Result<Value, RuntimeError>)
    requires
        old(env).wf(),
        match e.kind {
            ExprKind::AddAssign(n, x) => op is Add && n == *name && *x == *rhs,
            ExprKind::SubAssign(n, x) => op is Sub && n == *name && *x == *rhs,
            ExprKind::MulAssign(n, x) => op is Mul && n == *name && *x == *rhs,
            ExprKind::DivAssign(n, x) => op is Div && n == *name && *x == *rhs,
            ExprKind::ModAssign(n, x) => op is Mod && n == *name && *x == *rhs,
            _ => false,
        },
    ensures
        final(env).wf(),
        final(env).view().call_stack == old(env).view().call_stack,
        host.obeys_result() ==> (value_result(r), final(env).view()) == sem_expr(
            host,
            e.view(),
            old(env).view(),
            depth as nat,
        ),
    decreases depth, e, 0nat,
{
    let current = match env.load(name) {
        Err(err) => {
            return Err(err);
        },
        Ok(v) => v,
    };
    let v = match eval_expr(env, host, rhs, depth) {
        Err(err) => {
            return Err(err);
        },
        Ok(v) => v,
    };
    let n = match apply_compound(op, current, name.span, v, rhs.span, e.span) {
        Err(err) => {
            return Err(err);
        },
        Ok(n) => n,
    };
    match env.assign(name, clone_value(&n)) {
        Err(err) => Err(err),
        Ok(()) => Ok(n),
    }
}

/// Evaluates `name = rhs`, `let name = rhs` and `let! name = rhs`: the
/// right-hand side first, then the binding; the value is that of the
/// right-hand side.
pub fn eval_binding<B: BuiltinFunction>(env: &mut Environment, host: &B, e: &Expr, depth: usize) -> (r: Result<
    Value,
    RuntimeError,
>)
    requires
        old(env).wf(),
        e.kind is Assign || e.kind is Declare || e.kind is DeclareMut,
    ensures
        final(env).wf(),
        final(env).view().call_stack == old(env).view().call_stack,
        host.obeys_result() ==> (value_result(r), final(env).view()) == sem_expr(
            host,
            e.view(),
            old(env).view(),
            depth as nat,
        ),
    decreases depth, e, 0nat,
{
    match &e.kind {
        ExprKind::Assign(name, rhs) => {
            match eval_expr(env, host, rhs, depth) {
                Err(err) => Err(err),
                Ok(v) => {
                    match env.assign(name, clone_value(&v)) {
                        Err(err) => Err(err),
                        Ok(()) => Ok(v),
                    }
                },
            }
        },
        ExprKind::Declare(name, rhs) => {
            match eval_expr(env, host, rhs, depth) {
                Err(err) => Err(err),
                Ok(v) => {
                    match env.declare(name, clone_value(&v), false) {
                        Err(err) => Err(err),
                        Ok(()) => Ok(v),
                    }
                },
            }
        },
        ExprKind::DeclareMut(name, rhs) => {
            match eval_expr(env, host, rhs, depth) {
                Err(err) => Err(err),
                Ok(v) => {
                    match env.declare(name, clone_value(&v), true) {
                        Err(err) => Err(err),
                        Ok(()) => Ok(v),
                    }
                },
            }
        },
        _ => Err(RuntimeError::Unsupported { span: e.span }),
    }
}

/// Evaluates `if` with or without `else`, and `iter .. of ..`.
pub fn eval_control<B: BuiltinFunction>(env: &mut Environment, host: &B, e: &Expr, depth: usize) -> (r: Result<
    Value,
    RuntimeError,
>)
    requires
        old(env).wf(),
        e.kind is If || e.kind is IfElse || e.kind is For,
    ensures
        final(env).wf(),
        final(env).view().call_stack == old(env).view().call_stack,
        host.obeys_result() ==> (value_result(r), final(env).view()) == sem_expr(
            host,
            e.view(),
            old(env).view(),
            depth as nat,
        ),
    decreases depth, e, 0nat,
{
    match &e.kind {
        ExprKind::If { condition, yes } => {
            match eval_expr(env, host, condition, depth) {
                Err(err) => Err(err),
                Ok(Value::Boolean(true)) => eval_code(env, host, yes, depth),
                Ok(Value::Boolean(false)) => Ok(Value::Nil),
                Ok(other) => Err(RuntimeError::NotABoolean { value: other, span: condition.span }),
            }
        },
        ExprKind::IfElse { condition, yes, no } => {
            match eval_expr(env, host, condition, depth) {
                Err(err) => Err(err),
                Ok(Value::Boolean(true)) => eval_code(env, host, yes, depth),
                Ok(Value::Boolean(false)) => eval_code(env, host, no, depth),
                Ok(other) => Err(RuntimeError::NotABoolean { value: other, span: condition.span }),
            }
        },
        ExprKind::For { collection, item, body } => {
            match eval_expr(env, host, collection, depth) {
                Err(err) => Err(err),
                Ok(Value::Array(items)) => {
                    proof {
                        lemma_array_view(items);
                    }
                    match env.declare(item, Value::Nil, true) {
                        Err(err) => Err(err),
                        Ok(()) => eval_for(env, host, &items, item, body, depth),
                    }
                },
                Ok(other) => Err(RuntimeError::NotIterable { value: other, span: collection.span }),
            }
        },
        _ => Err(RuntimeError::Unsupported { span: e.span }),
    }
}

/// Evaluates an expression in an environment. `depth` is the number of
/// nested closure calls that may still be entered.
pub fn eval_expr<B: BuiltinFunction>(env: &mut Environment, host: &B, e: &Expr, depth: usize) -> (r: Result<
    Value,
    RuntimeError,
>)
    requires
        old(env).wf(),
    ensures
        final(env).wf(),
        final(env).view().call_stack == old(env).view().call_stack,
        host.obeys_result() ==> (value_result(r), final(env).view()) == sem_expr(
            host,
            e.view(),
            old(env).view(),
            depth as nat,
        ),
    decreases depth, e, 1nat,
{
    match &e.kind {
        ExprKind::Literal(l) => Ok(Value::from_literal(clone_literal(l))),
        ExprKind::Ident(i) => env.load(i),
        ExprKind::Array(a) => {
            proof {
                lemma_array_literal_view(a);
            }
            match eval_seq(env, host, &a.elements, depth) {
                Err(err) => Err(err),
                Ok(vals) => {
                    proof {
                        lemma_array_view(vals);
                    }
                    Ok(Value::Array(vals))
                },
            }
        },
        ExprKind::Record(rec) => {
            proof {
                lemma_record_literal_view(rec);
            }
            match eval_fields(env, host, &rec.fields, depth) {
                Err(err) => Err(err),
                Ok(fields) => {
                    proof {
                        lemma_record_view(fields);
                    }
                    Ok(Value::Record(fields))
                },
            }
        },
        ExprKind::Function(f) => {
            let capture = env.top_frame();
            Ok(Value::Function(FunctionValue::Closure { body: clone_function(f), capture }))
        },
        ExprKind::Call(_, _) => eval_call(env, host, e, depth),
        ExprKind::Prop(_, _) => eval_access(env, host, e, depth),
        ExprKind::Index(_, _) => eval_access(env, host, e, depth),
        ExprKind::UnaryExpr(_) => eval_operator(env, host, e, depth),
        ExprKind::BinExpr(_) => eval_operator(env, host, e, depth),
        ExprKind::Assign(_, _) => eval_binding(env, host, e, depth),
        ExprKind::AddAssign(name, rhs) => eval_compound(env, host, e, BinExprKind::Add, name, rhs, depth),
        ExprKind::SubAssign(name, rhs) => eval_compound(env, host, e, BinExprKind::Sub, name, rhs, depth),
        ExprKind::MulAssign(name, rhs) => eval_compound(env, host, e, BinExprKind::Mul, name, rhs, depth),
        ExprKind::DivAssign(name, rhs) => eval_compound(env, host, e, BinExprKind::Div, name, rhs, depth),
        ExprKind::ModAssign(name, rhs) => eval_compound(env, host, e, BinExprKind::Mod, name, rhs, depth),
        ExprKind::Declare(_, _) => eval_binding(env, host, e, depth),
        ExprKind::DeclareMut(_, _) => eval_binding(env, host, e, depth),
        ExprKind::If { .. } => eval_control(env, host, e, depth),
        ExprKind::IfElse { .. } => eval_control(env, host, e, depth),
        ExprKind::For { .. } => eval_control(env, host, e, depth),
        ExprKind::Panic(_) => Err(RuntimeError::Unsupported { span: e.span }),
        ExprKind::Assert(_) => Err(RuntimeError::Unsupported { span: e.span }),
        ExprKind::Return(_) => Err(RuntimeError::Unsupported { span: e.span }),
        ExprKind::Break(_) => Err(RuntimeError::Unsupported { span: e.span }),
        ExprKind::Continue(_) => Err(RuntimeError::Unsupported { span: e.span }),
    }
}

/// How many closure calls may be nested in one another.
pub const CALL_DEPTH_LIMIT: usize = 100;

/// The environment after the bindings from place `i` on were declared in
/// it, immutable, one after the other; the first name that is declared
/// already ends it.
pub open spec fn spec_bind(bindings: Seq<(Seq<char>, ValueView)>, i: int, env: EnvView) -> (
    Result<(), RuntimeErrorView>,
    EnvView,
)
    decreases bindings.len() - i,
{
    if i < 0 || i >= bindings.len() {
        (Ok(()), env)
    } else {
        let (r, env1) = env.declare(bindings[i].0, bindings[i].1, false);
        match r {
            Err(e) => (Err(e), env1),
            Ok(()) => spec_bind(bindings, i + 1, env1),
        }
    }
}

/// The names and models of a list of bindings.
pub open spec fn bindings_model(s: Seq<(Ident, Value)>) -> Seq<(Seq<char>, ValueView)> {
    Seq::new(s.len(), |i: int| (s[i].0.symbol@, s[i].1.view()))
}

/// What running a text means: the text is parsed as a program, and the
/// program is evaluated in the environment. A text that is no program
/// leaves the environment as it is.
pub open spec fn spec_run<B: BuiltinFunction>(host: &B, text: Seq<u8>, env: EnvView) -> (
    Result<ValueView, InterpreterErrorView>,
    EnvView,
) {
    match spec_parse_code(text) {
        Err(e) => (Err(InterpreterErrorView::ParseError(e)), env),
        Ok(code) => {
            let (r, env1) = sem_code(host, code, env, CALL_DEPTH_LIMIT as nat);
            match r {
                Err(e) => (Err(InterpreterErrorView::RuntimeError(e)), env1),
                Ok(v) => (Ok(v), env1),
            }
        },
    }
}

/// The model of the result of a run.
pub open spec fn run_result(r: Result<Value, InterpreterError>) -> Result<ValueView, InterpreterErrorView> {
    match r {
        Ok(v) => Ok(v.view()),
        Err(e) => Err(e.view()),
    }
}

/// An interpreter: an environment that lives from one run to the next.
pub struct Interpreter {
    mem: Environment,
}

impl Interpreter {
    #[verifier::type_invariant]
    spec fn well_formed(&self) -> bool {
        self.mem.wf()
    }

    /// The environment of the interpreter.
    pub closed spec fn view(&self) -> EnvView {
        self.mem.view()
    }

    /// An interpreter with an empty environment.
    pub fn init() -> (r: Interpreter)
        ensures
            r.view() == EnvView::initial(),
    {
        Interpreter { mem: Environment::new() }
    }

    /// An interpreter whose outermost scope holds the given bindings,
    /// immutable. Fails if two of them have the same name.
    pub fn init_with_builtins(builtin: Vec<(Ident, Value)>) -> (r: Result<Interpreter, RuntimeError>)
        ensures
            match r {
                Ok(i) => spec_bind(bindings_model(builtin@), 0, EnvView::initial()) == (
                    Ok::<(), RuntimeErrorView>(()),
                    i.view(),
                ),
                Err(e) => spec_bind(bindings_model(builtin@), 0, EnvView::initial()).0 == Err::<
                    (),
                    RuntimeErrorView,
                >(e.view()),
            },
    {
        let ghost model = bindings_model(builtin@);
        let mut mem = Environment::new();
        let mut i: usize = 0;
        while i < builtin.len()
            invariant
                i <= builtin@.len(),
                mem.wf(),
                model == bindings_model(builtin@),
                spec_bind(model, 0, EnvView::initial()) == spec_bind(model, i as int, mem.view()),
            decreases builtin@.len() - i,
        {
            match mem.declare(&builtin[i].0, clone_value(&builtin[i].1), false) {
                Err(e) => {
                    return Err(e);
                },
                Ok(()) => {},
            }
            i = i + 1;
        }
        Ok(Interpreter { mem })
    }

    /// Parses `code` as a program and evaluates it. Bindings that the
    /// program makes stay for the next run. A text that is no program is
    /// not run at all; of a host that does not say what its functions
    /// return, the result of a program is not foretold.
    pub fn run<B: BuiltinFunction>(&mut self, code: &str, host: &B) -> (r: Result<Value, InterpreterError>)
        ensures
            final(self).view().call_stack == old(self).view().call_stack,
            (r matches Err(InterpreterError::ParseError(_))) <==> spec_parse_code(code.spec_bytes()) is Err,
            host.obeys_result() || spec_parse_code(code.spec_bytes()) is Err ==> (
                run_result(r),
                final(self).view(),
            ) == spec_run(host, code.spec_bytes(), old(self).view()),
    {
        proof {
            use_type_invariant(&*self);
        }
        match parse_code(code) {
            Err(e) => Err(InterpreterError::ParseError(e)),
            Ok(ast) => {
                let mut mem = Environment::new();
                core::mem::swap(&mut self.mem, &mut mem);
                let r = eval_code(&mut mem, host, &ast, CALL_DEPTH_LIMIT);
                self.mem = mem;
                match r {
                    Err(e) => Err(InterpreterError::RuntimeError(e)),
                    Ok(v) => Ok(v),
                }
            },
        }
    }
}

} // verus!
