use dynlang::ast::Ident;
use dynlang::ast::Parameters;
use dynlang::environment::Environment;
use dynlang::error::ReferenceError;
use dynlang::error::RuntimeError;
use dynlang::span::Span;
use dynlang::value::ArgumentValues;
use dynlang::value::Value;

fn name(s: &str) -> Ident {
    Ident::new_dummy(s)
}

fn undefined(s: &str) -> RuntimeError {
    RuntimeError::ReferenceError(ReferenceError::UndefinedIdentifier { ident: name(s) })
}

fn params(names: &[&str]) -> Parameters {
    Parameters(names.iter().map(|n| name(n)).collect())
}

fn args(values: &[i32]) -> ArgumentValues {
    ArgumentValues(values.iter().map(|v| Value::Integer(*v)).collect())
}

#[test]
fn a_new_environment_has_one_frame_with_one_empty_scope() {
    let env = Environment::new();
    assert_eq!(env.top_frame(), 0);
    assert_eq!(env.frames.len(), 1);
    assert_eq!(env.frames[0].scope_stack.len(), 1);
    assert_eq!(env.frames[0].parent, None);
    assert_eq!(env.call_stack, vec![0]);
    assert_eq!(env.load(&name("a")), Err(undefined("a")));
}

#[test]
fn declare_then_load() {
    let mut env = Environment::new();
    assert_eq!(env.declare(&name("a"), Value::Integer(1), false), Ok(()));
    assert_eq!(env.declare(&name("b"), Value::Boolean(true), true), Ok(()));
    assert_eq!(env.load(&name("a")), Ok(Value::Integer(1)));
    assert_eq!(env.load(&name("b")), Ok(Value::Boolean(true)));
    assert_eq!(env.load(&name("c")), Err(undefined("c")));
}

#[test]
fn the_error_of_an_unbound_name_carries_the_name_as_it_was_used() {
    let env = Environment::new();
    let used = Ident::new("x", Span::new(3, 4));
    match env.load(&used) {
        Err(RuntimeError::ReferenceError(ReferenceError::UndefinedIdentifier { ident })) => {
            assert_eq!(ident.symbol, "x");
            assert_eq!(ident.span, Span::new(3, 4));
        }
        other => panic!("{:?}", other),
    }
}

#[test]
fn the_same_name_twice_in_one_scope_is_refused() {
    let mut env = Environment::new();
    assert_eq!(env.declare(&name("a"), Value::Integer(1), false), Ok(()));
    assert_eq!(env.declare(&name("a"), Value::Integer(2), false), Err(RuntimeError::AlreadyDeclared));
    assert_eq!(env.declare(&name("a"), Value::Integer(2), true), Err(RuntimeError::AlreadyDeclared));
    // the first binding stands
    assert_eq!(env.load(&name("a")), Ok(Value::Integer(1)));
    // spans do not tell names apart
    assert_eq!(
        env.declare(&Ident::new("a", Span::new(5, 6)), Value::Nil, false),
        Err(RuntimeError::AlreadyDeclared)
    );
}

#[test]
fn a_nested_scope_can_shadow_an_outer_one() {
    let mut env = Environment::new();
    assert_eq!(env.declare(&name("a"), Value::Integer(1), false), Ok(()));
    env.push_scope();
    assert_eq!(env.load(&name("a")), Ok(Value::Integer(1)));
    assert_eq!(env.declare(&name("a"), Value::Integer(2), true), Ok(()));
    assert_eq!(env.load(&name("a")), Ok(Value::Integer(2)));
    env.pop_scope();
    assert_eq!(env.load(&name("a")), Ok(Value::Integer(1)));
}

#[test]
fn assignment_needs_a_mutable_binding() {
    let mut env = Environment::new();
    env.declare(&name("fixed"), Value::Integer(1), false).unwrap();
    env.declare(&name("free"), Value::Integer(1), true).unwrap();
    assert_eq!(env.assign(&name("fixed"), Value::Integer(2)), Err(RuntimeError::AssignmentToImmutableVariable));
    assert_eq!(env.load(&name("fixed")), Ok(Value::Integer(1)));
    assert_eq!(env.assign(&name("free"), Value::Integer(2)), Ok(()));
    assert_eq!(env.load(&name("free")), Ok(Value::Integer(2)));
    assert_eq!(env.assign(&name("free"), Value::String("s".to_owned())), Ok(()));
    assert_eq!(env.load(&name("free")), Ok(Value::String("s".to_owned())));
    assert_eq!(env.assign(&name("none"), Value::Nil), Err(undefined("none")));
}

#[test]
fn assignment_reaches_the_innermost_binding_of_the_name() {
    let mut env = Environment::new();
    env.declare(&name("a"), Value::Integer(1), true).unwrap();
    env.push_scope();
    // no binding in the inner scope: the outer one is assigned to
    assert_eq!(env.assign(&name("a"), Value::Integer(2)), Ok(()));
    env.declare(&name("a"), Value::Integer(10), true).unwrap();
    assert_eq!(env.assign(&name("a"), Value::Integer(20)), Ok(()));
    assert_eq!(env.load(&name("a")), Ok(Value::Integer(20)));
    env.pop_scope();
    assert_eq!(env.load(&name("a")), Ok(Value::Integer(2)));
}

#[test]
fn an_immutable_binding_in_an_inner_scope_hides_a_mutable_outer_one() {
    let mut env = Environment::new();
    env.declare(&name("a"), Value::Integer(1), true).unwrap();
    env.push_scope();
    env.declare(&name("a"), Value::Integer(2), false).unwrap();
    assert_eq!(env.assign(&name("a"), Value::Integer(3)), Err(RuntimeError::AssignmentToImmutableVariable));
    env.pop_scope();
    assert_eq!(env.assign(&name("a"), Value::Integer(3)), Ok(()));
}

#[test]
fn the_last_scope_of_a_frame_stays() {
    let mut env = Environment::new();
    env.declare(&name("a"), Value::Integer(1), false).unwrap();
    env.pop_scope();
    env.pop_scope();
    assert_eq!(env.frames[0].scope_stack.len(), 1);
    assert_eq!(env.load(&name("a")), Ok(Value::Integer(1)));
    env.push_scope();
    env.push_scope();
    assert_eq!(env.frames[0].scope_stack.len(), 3);
    env.pop_scope();
    assert_eq!(env.frames[0].scope_stack.len(), 2);
}

#[test]
fn a_call_binds_parameters_to_arguments() {
    let mut env = Environment::new();
    env.declare(&name("outer"), Value::Integer(7), false).unwrap();
    assert_eq!(env.call(0, &params(&["a", "b"]), args(&[1, 2]), Span::dummy()), Ok(()));
    assert_eq!(env.top_frame(), 1);
    assert_eq!(env.call_stack, vec![0, 1]);
    assert_eq!(env.frames[1].parent, Some(0));
    assert_eq!(env.load(&name("a")), Ok(Value::Integer(1)));
    assert_eq!(env.load(&name("b")), Ok(Value::Integer(2)));
    // the captured frame is in reach
    assert_eq!(env.load(&name("outer")), Ok(Value::Integer(7)));
    // parameters are immutable
    assert_eq!(env.assign(&name("a"), Value::Nil), Err(RuntimeError::AssignmentToImmutableVariable));
    env.ret();
    assert_eq!(env.top_frame(), 0);
    assert_eq!(env.load(&name("a")), Err(undefined("a")));
}

#[test]
fn parameters_and_arguments_of_different_number() {
    let mut env = Environment::new();
    env.call(0, &params(&["a"]), args(&[1, 2, 3]), Span::dummy()).unwrap();
    assert_eq!(env.load(&name("a")), Ok(Value::Integer(1)));
    env.ret();
    env.call(0, &params(&["a", "b"]), args(&[1]), Span::dummy()).unwrap();
    assert_eq!(env.load(&name("a")), Ok(Value::Integer(1)));
    assert_eq!(env.load(&name("b")), Err(undefined("b")));
    env.ret();
    env.call(0, &params(&["a", "a"]), args(&[1, 2]), Span::dummy()).unwrap();
    assert_eq!(env.load(&name("a")), Ok(Value::Integer(2)));
    env.ret();
    env.call(0, &params(&[]), args(&[]), Span::dummy()).unwrap();
    assert_eq!(env.frames[env.top_frame()].scope_stack.len(), 1);
}

#[test]
fn a_call_sees_the_frame_it_captured_not_the_frame_that_calls() {
    let mut env = Environment::new();
    env.declare(&name("x"), Value::Integer(0), true).unwrap();
    // frame 1, made in frame 0, binds x
    env.call(0, &params(&["x"]), args(&[1]), Span::dummy()).unwrap();
    // frame 2 is called from frame 1 but captured frame 0
    env.call(0, &params(&[]), args(&[]), Span::dummy()).unwrap();
    assert_eq!(env.call_stack, vec![0, 1, 2]);
    assert_eq!(env.load(&name("x")), Ok(Value::Integer(0)));
    assert_eq!(env.assign(&name("x"), Value::Integer(5)), Ok(()));
    env.ret();
    assert_eq!(env.load(&name("x")), Ok(Value::Integer(1)));
    env.ret();
    assert_eq!(env.load(&name("x")), Ok(Value::Integer(5)));
    // frame 3 captures frame 1, which is no longer being called
    env.call(1, &params(&[]), args(&[]), Span::dummy()).unwrap();
    assert_eq!(env.load(&name("x")), Ok(Value::Integer(1)));
}

#[test]
fn a_call_that_names_no_frame_is_refused() {
    let mut env = Environment::new();
    assert_eq!(
        env.call(1, &params(&[]), args(&[]), Span::new(2, 3)),
        Err(RuntimeError::UnknownFrame { span: Span::new(2, 3) })
    );
    assert_eq!(env.call_stack, vec![0]);
    assert_eq!(env.frames.len(), 1);
}

#[test]
fn the_outermost_frame_is_never_popped() {
    let mut env = Environment::new();
    env.declare(&name("a"), Value::Integer(1), false).unwrap();
    env.ret();
    env.ret();
    assert_eq!(env.call_stack, vec![0]);
    assert_eq!(env.load(&name("a")), Ok(Value::Integer(1)));
}

#[test]
fn scopes_belong_to_the_current_frame() {
    let mut env = Environment::new();
    env.call(0, &params(&[]), args(&[]), Span::dummy()).unwrap();
    env.push_scope();
    assert_eq!(env.frames[1].scope_stack.len(), 2);
    assert_eq!(env.frames[0].scope_stack.len(), 1);
    env.declare(&name("a"), Value::Integer(1), false).unwrap();
    env.ret();
    assert_eq!(env.load(&name("a")), Err(undefined("a")));
}
