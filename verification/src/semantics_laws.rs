//! What holds of every evaluation: it leaves the environment well formed,
//! with the frames that were being called before it still being called and
//! no others, and it never forgets a frame.

use crate::ast_model::AssignOp;
use crate::ast_model::CodeView;
use crate::ast_model::ExprKindView;
use crate::ast_model::ExprView;
use crate::ast_model::IdentView;
use crate::environment::BindingView;
use crate::environment::EnvView;
use crate::semantics::compound_op;
use crate::semantics::compound_operator;
use crate::semantics::sem_code;
use crate::semantics::sem_expr;
use crate::semantics::sem_fields;
use crate::semantics::sem_for;
use crate::semantics::sem_seq;
use crate::semantics::sem_stmts;
use crate::span::Span;
use crate::value::BuiltinFunction;
use crate::value::ValueView;
use vstd::prelude::*;

verus! {

/// `after` is well formed, calls the frames that `before` calls, and holds
/// at least the frames that `before` holds.
pub open spec fn keeps(before: EnvView, after: EnvView) -> bool {
    &&& after.wf()
    &&& after.call_stack == before.call_stack
    &&& before.frames.len() <= after.frames.len()
}

/// Replacing a scope keeps the environment.
pub proof fn lemma_with_scope_keeps(env: EnvView, f: int, s: int, scope: Map<Seq<char>, BindingView>)
    requires
        env.wf(),
        0 <= f < env.frames.len(),
        0 <= s < env.frames[f].scopes.len(),
    ensures
        keeps(env, env.with_scope(f, s, scope)),
{
}

/// Declaring keeps the environment, whether it succeeds or not.
pub proof fn lemma_declare_keeps(env: EnvView, name: Seq<char>, value: ValueView, mutable: bool)
    requires
        env.wf(),
    ensures
        keeps(env, env.declare(name, value, mutable).1),
{
    let f = env.top();
    let s = env.frames[f].scopes.len() - 1;
    lemma_with_scope_keeps(
        env,
        f,
        s,
        env.frames[f].scopes[s].insert(name, BindingView { mutable, value }),
    );
}

/// Where a name resolves to is a scope of a frame of the environment.
pub proof fn lemma_resolve_in_range(env: EnvView, f: int, name: Seq<char>)
    requires
        env.resolve(f, name) is Some,
    ensures
        ({
            let (frame, scope) = env.resolve(f, name)->0;
            0 <= frame < env.frames.len() && 0 <= scope < env.frames[frame].scopes.len()
        }),
    decreases f,
{
    if 0 <= f < env.frames.len() {
        match env.find_scope(f, name, env.frames[f].scopes.len() as int) {
            Some(_) => {
                lemma_find_scope_in_range(env, f, name, env.frames[f].scopes.len() as int);
            },
            None => {
                match env.frames[f].parent {
                    Some(p) => {
                        if p < f {
                            lemma_resolve_in_range(env, p as int, name);
                        }
                    },
                    None => {},
                }
            },
        }
    }
}

/// The scope that is found below `k` is a scope below `k`.
pub proof fn lemma_find_scope_in_range(env: EnvView, f: int, name: Seq<char>, k: int)
    requires
        env.find_scope(f, name, k) is Some,
    ensures
        0 <= env.find_scope(f, name, k)->0 < k,
    decreases k,
{
    if k > 0 && !env.frames[f].scopes[k - 1].dom().contains(name) {
        lemma_find_scope_in_range(env, f, name, k - 1);
    }
}

/// Assigning keeps the environment, whether it succeeds or not.
pub proof fn lemma_assign_keeps(env: EnvView, ident: IdentView, value: ValueView)
    requires
        env.wf(),
    ensures
        keeps(env, env.assign(ident, value).1),
{
    match env.resolve(env.top(), ident.symbol) {
        None => {},
        Some((f, s)) => {
            lemma_resolve_in_range(env, env.top(), ident.symbol);
            lemma_with_scope_keeps(
                env,
                f,
                s,
                env.frames[f].scopes[s].insert(
                    ident.symbol,
                    BindingView { mutable: true, value },
                ),
            );
        },
    }
}

/// Entering a call leaves the environment well formed.
pub proof fn lemma_call_enters(
    env: EnvView,
    capture: usize,
    params: Seq<IdentView>,
    args: Seq<ValueView>,
    span: Span,
)
    requires
        env.wf(),
        env.call(capture, params, args, span).0 is Ok,
    ensures
        env.call(capture, params, args, span).1.wf(),
{
    let entered = env.call(capture, params, args, span).1;
    assert forall|i: int| 0 <= i < entered.call_stack.len() implies (#[trigger] entered.call_stack[i])
        < entered.frames.len() by {
    }
    assert forall|g: int| 0 <= g < entered.frames.len() implies (#[trigger] entered.frames[g]).scopes.len() > 0 by {
    }
    assert forall|g: int|
        0 <= g < entered.frames.len() && (#[trigger] entered.frames[g]).parent is Some implies entered.frames[g]
            .parent->0 < g by {
    }
}

/// Leaving a call after a body that kept the environment it found gives
/// back the environment of before the call.
pub proof fn lemma_ret_leaves(
    env: EnvView,
    capture: usize,
    params: Seq<IdentView>,
    args: Seq<ValueView>,
    span: Span,
    after_body: EnvView,
)
    requires
        env.wf(),
        env.call(capture, params, args, span).0 is Ok,
        keeps(env.call(capture, params, args, span).1, after_body),
    ensures
        keeps(env, after_body.ret()),
{
    let left = after_body.ret();
    assert(left.call_stack =~= env.call_stack);
}

/// Evaluating expressions one after the other keeps the environment.
pub proof fn lemma_seq_keeps<B: BuiltinFunction>(
    host: &B,
    items: Seq<ExprView>,
    i: int,
    acc: Seq<ValueView>,
    env: EnvView,
    depth: nat,
)
    requires
        env.wf(),
    ensures
        keeps(env, sem_seq(host, items, i, acc, env, depth).1),
    decreases depth, items, items.len() - i,
{
    if 0 <= i < items.len() {
        lemma_expr_keeps(host, items[i], env, depth);
        let (r, env1) = sem_expr(host, items[i], env, depth);
        match r {
            Err(_) => {},
            Ok(v) => {
                lemma_seq_keeps(host, items, i + 1, acc.push(v), env1, depth);
            },
        }
    }
}

/// Evaluating the fields of a record literal keeps the environment.
pub proof fn lemma_fields_keep<B: BuiltinFunction>(
    host: &B,
    fields: Seq<(IdentView, ExprView)>,
    i: int,
    acc: Map<Seq<char>, ValueView>,
    env: EnvView,
    depth: nat,
)
    requires
        env.wf(),
    ensures
        keeps(env, sem_fields(host, fields, i, acc, env, depth).1),
    decreases depth, fields, fields.len() - i,
{
    if 0 <= i < fields.len() {
        lemma_expr_keeps(host, fields[i].1, env, depth);
        let (r, env1) = sem_expr(host, fields[i].1, env, depth);
        match r {
            Err(_) => {},
            Ok(v) => {
                lemma_fields_keep(host, fields, i + 1, acc.insert(fields[i].0.symbol, v), env1, depth);
            },
        }
    }
}

/// Evaluating statements keeps the environment.
pub proof fn lemma_stmts_keep<B: BuiltinFunction>(
    host: &B,
    stmts: Seq<ExprView>,
    i: int,
    last: ValueView,
    env: EnvView,
    depth: nat,
)
    requires
        env.wf(),
    ensures
        keeps(env, sem_stmts(host, stmts, i, last, env, depth).1),
    decreases depth, stmts, stmts.len() - i,
{
    if 0 <= i < stmts.len() {
        lemma_expr_keeps(host, stmts[i], env, depth);
        let (r, env1) = sem_expr(host, stmts[i], env, depth);
        match r {
            Err(_) => {},
            Ok(v) => {
                lemma_stmts_keep(host, stmts, i + 1, v, env1, depth);
            },
        }
    }
}

/// Evaluating a block keeps the environment.
pub proof fn lemma_code_keeps<B: BuiltinFunction>(host: &B, code: CodeView, env: EnvView, depth: nat)
    requires
        env.wf(),
    ensures
        keeps(env, sem_code(host, code, env, depth).1),
    decreases depth, code, 0nat,
{
    lemma_stmts_keep(host, code.stmts, 0, ValueView::Nil, env, depth);
}

/// Running a loop keeps the environment.
pub proof fn lemma_for_keeps<B: BuiltinFunction>(
    host: &B,
    values: Seq<ValueView>,
    i: int,
    item: IdentView,
    body: CodeView,
    env: EnvView,
    depth: nat,
)
    requires
        env.wf(),
    ensures
        keeps(env, sem_for(host, values, i, item, body, env, depth).1),
    decreases depth, body, values.len() - i,
{
    if 0 <= i < values.len() {
        lemma_assign_keeps(env, item, values[i]);
        let (ra, env1) = env.assign(item, values[i]);
        match ra {
            Err(_) => {},
            Ok(()) => {
                lemma_code_keeps(host, body, env1, depth);
                let (rb, env2) = sem_code(host, body, env1, depth);
                match rb {
                    Err(_) => {},
                    Ok(_) => {
                        lemma_for_keeps(host, values, i + 1, item, body, env2, depth);
                    },
                }
            },
        }
    }
}

/// Evaluating an expression keeps the environment: it stays well formed,
/// the frames that were being called are still being called and no others,
/// and no frame is forgotten.
pub proof fn lemma_expr_keeps<B: BuiltinFunction>(host: &B, e: ExprView, env: EnvView, depth: nat)
    requires
        env.wf(),
    ensures
        keeps(env, sem_expr(host, e, env, depth).1),
    decreases depth, e, 0nat,
{
    match e.kind {
        ExprKindView::Literal(_) => {},
        ExprKindView::Ident(_) => {},
        ExprKindView::Array { span, elements } => {
            lemma_seq_keeps(host, elements, 0, Seq::empty(), env, depth);
        },
        ExprKindView::Record { span, fields } => {
            lemma_fields_keep(host, fields, 0, Map::empty(), env, depth);
        },
        ExprKindView::Function(_) => {},
        ExprKindView::Call(callee, args) => {
            lemma_expr_keeps(host, *callee, env, depth);
            let (rc, env1) = sem_expr(host, *callee, env, depth);
            match rc {
                Ok(ValueView::Builtin(_)) => {
                    lemma_seq_keeps(host, args, 0, Seq::empty(), env1, depth);
                },
                Ok(ValueView::Closure(f, capture)) => {
                    lemma_seq_keeps(host, args, 0, Seq::empty(), env1, depth);
                    let (ra, env2) = sem_seq(host, args, 0, Seq::empty(), env1, depth);
                    match ra {
                        Ok(vs) => {
                            if depth > 0 {
                                let (rf, env3) = env2.call(capture, f.parameters, vs, e.span);
                                match rf {
                                    Ok(()) => {
                                        lemma_call_enters(env2, capture, f.parameters, vs, e.span);
                                        lemma_code_keeps(host, f.body, env3, (depth - 1) as nat);
                                        let env4 = sem_code(host, f.body, env3, (depth - 1) as nat).1;
                                        lemma_ret_leaves(env2, capture, f.parameters, vs, e.span, env4);
                                    },
                                    Err(_) => {},
                                }
                            }
                        },
                        Err(_) => {},
                    }
                },
                _ => {},
            }
        },
        ExprKindView::Prop(target, _) => {
            lemma_expr_keeps(host, *target, env, depth);
        },
        ExprKindView::Index(target, index) => {
            lemma_expr_keeps(host, *target, env, depth);
            let (r, env1) = sem_expr(host, *target, env, depth);
            match r {
                Ok(ValueView::Array(_)) => {
                    lemma_expr_keeps(host, *index, env1, depth);
                },
                _ => {},
            }
        },
        ExprKindView::Unary { span, op, expr } => {
            lemma_expr_keeps(host, *expr, env, depth);
        },
        ExprKindView::Binary { span, op, lhs, rhs } => {
            lemma_expr_keeps(host, *lhs, env, depth);
            let (rl, env1) = sem_expr(host, *lhs, env, depth);
            match rl {
                Ok(_) => {
                    lemma_expr_keeps(host, *rhs, env1, depth);
                },
                Err(_) => {},
            }
        },
        ExprKindView::Assign(AssignOp::Plain, name, rhs) => {
            lemma_expr_keeps(host, *rhs, env, depth);
            let (r, env1) = sem_expr(host, *rhs, env, depth);
            match r {
                Ok(v) => {
                    lemma_assign_keeps(env1, name, v);
                },
                Err(_) => {},
            }
        },
        ExprKindView::Assign(op, name, rhs) => {
            match env.load(name) {
                Ok(current) => {
                    lemma_expr_keeps(host, *rhs, env, depth);
                    let (r, env1) = sem_expr(host, *rhs, env, depth);
                    match r {
                        Ok(v) => {
                            match compound_op(compound_operator(op), current, name.span, v, rhs.span, e.span) {
                                Ok(n) => {
                                    lemma_assign_keeps(env1, name, n);
                                },
                                Err(_) => {},
                            }
                        },
                        Err(_) => {},
                    }
                },
                Err(_) => {},
            }
        },
        ExprKindView::Declare(mutable, name, rhs) => {
            lemma_expr_keeps(host, *rhs, env, depth);
            let (r, env1) = sem_expr(host, *rhs, env, depth);
            match r {
                Ok(v) => {
                    lemma_declare_keeps(env1, name.symbol, v, mutable);
                },
                Err(_) => {},
            }
        },
        ExprKindView::If(condition, yes, no) => {
            lemma_expr_keeps(host, *condition, env, depth);
            let (r, env1) = sem_expr(host, *condition, env, depth);
            match r {
                Ok(ValueView::Boolean(true)) => {
                    lemma_code_keeps(host, yes, env1, depth);
                },
                Ok(ValueView::Boolean(false)) => {
                    match no {
                        Some(c) => {
                            lemma_code_keeps(host, c, env1, depth);
                        },
                        None => {},
                    }
                },
                _ => {},
            }
        },
        ExprKindView::For(collection, item, body) => {
            lemma_expr_keeps(host, *collection, env, depth);
            let (r, env1) = sem_expr(host, *collection, env, depth);
            match r {
                Ok(ValueView::Array(items)) => {
                    lemma_declare_keeps(env1, item.symbol, ValueView::Nil, true);
                    let (rd, env2) = env1.declare(item.symbol, ValueView::Nil, true);
                    match rd {
                        Ok(()) => {
                            lemma_for_keeps(host, items, 0, item, body, env2, depth);
                        },
                        Err(_) => {},
                    }
                },
                _ => {},
            }
        },
        ExprKindView::Control(_, _) => {},
    }
}

} // verus!
