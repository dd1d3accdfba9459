use dynlang::ast::BinExprKind;
use dynlang::ast::Ident;
use dynlang::ast::UnaryExprKind;
use dynlang::error::InterpreterError;
use dynlang::error::ReferenceError;
use dynlang::error::RuntimeError;
use dynlang::error::TypeError;
use dynlang::interpreter::Interpreter;
use dynlang::interpreter::CALL_DEPTH_LIMIT;
use dynlang::parser::ParseError;
use dynlang::span::Span;
use dynlang::value::ArgumentValues;
use dynlang::value::BuiltinFunction;
use dynlang::value::FunctionValue;
use dynlang::value::NoBuiltins;
use dynlang::value::Record;
use dynlang::value::Value;

fn run(code: &str) -> Result<Value, InterpreterError> {
    let mut interpreter = Interpreter::init();
    interpreter.run(code, &NoBuiltins)
}

fn runtime_error(code: &str) -> RuntimeError {
    match run(code) {
        Err(InterpreterError::RuntimeError(e)) => e,
        other => panic!("expected a runtime error, got {:?}", other),
    }
}

fn num(v: i32) -> Value {
    Value::Integer(v)
}

fn text(s: &str) -> Value {
    Value::String(s.to_owned())
}

// A host with two functions: number 0 hands its first argument back,
// number 1 counts its arguments.
struct Host;

impl BuiltinFunction for Host {
    fn call(&self, id: usize, args: ArgumentValues) -> Value {
        match id {
            0 => args.0.into_iter().next().unwrap_or(Value::Nil),
            _ => Value::Integer(args.0.len() as i32),
        }
    }
}

fn with_host() -> Interpreter {
    Interpreter::init_with_builtins(vec![
        (Ident::new_dummy("print"), Value::Function(FunctionValue::Builtin(0))),
        (Ident::new_dummy("count"), Value::Function(FunctionValue::Builtin(1))),
    ])
    .unwrap()
}

#[test]
fn literals_evaluate_to_themselves() {
    assert_eq!(run("nil"), Ok(Value::Nil));
    assert_eq!(run("true"), Ok(Value::Boolean(true)));
    assert_eq!(run("false"), Ok(Value::Boolean(false)));
    assert_eq!(run("42"), Ok(num(42)));
    assert_eq!(run("-42"), Ok(num(-42)));
    assert_eq!(run("'abc'"), Ok(text("abc")));
    assert_eq!(run("\"abc\""), Ok(text("abc")));
}

#[test]
fn empty_program_is_nil() {
    assert_eq!(run(""), Ok(Value::Nil));
    assert_eq!(run("\n\n"), Ok(Value::Nil));
    assert_eq!(run("// only a comment"), Ok(Value::Nil));
}

#[test]
fn a_block_has_the_value_of_its_last_statement() {
    assert_eq!(run("1\n2\n3"), Ok(num(3)));
    assert_eq!(run("if true { 1\n2 }"), Ok(num(2)));
    assert_eq!(run("if true { }"), Ok(Value::Nil));
}

#[test]
fn compound_assignment_scenario() {
    assert_eq!(run("let! x = 10\nx += 20\nlet y = x * 3\ny - x"), Ok(num(60)));
}

#[test]
fn comparison_scenarios() {
    assert_eq!(run("1 + 1 == 2"), Ok(Value::Boolean(true)));
    assert_eq!(run("0 <= 10"), Ok(Value::Boolean(true)));
    assert_eq!(run("2 < 2"), Ok(Value::Boolean(false)));
}

#[test]
fn nested_indexing_of_a_bound_array() {
    let level3 = Value::Array(vec![num(0), num(1), num(2), num(333)]);
    let level2 = Value::Array(vec![num(0), num(1), level3]);
    let level1 = Value::Array(vec![num(0), level2]);
    let mut interpreter =
        Interpreter::init_with_builtins(vec![(Ident::new_dummy("arr"), level1)]).unwrap();

    assert_eq!(interpreter.run("arr[1][2][3]", &NoBuiltins), Ok(num(333)));
    assert_eq!(interpreter.run("arr[1][2][4]", &NoBuiltins), Ok(Value::Nil));
    assert_eq!(interpreter.run("arr[9]", &NoBuiltins), Ok(Value::Nil));
    assert_eq!(interpreter.run("arr[0]", &NoBuiltins), Ok(num(0)));
}

#[test]
fn indexing_past_the_end_of_an_inner_level_is_an_error_of_the_next_index() {
    let mut interpreter = Interpreter::init_with_builtins(vec![(
        Ident::new_dummy("arr"),
        Value::Array(vec![Value::Array(vec![num(1)])]),
    )])
    .unwrap();

    // arr[5] is nil, and nil cannot be indexed
    assert_eq!(
        interpreter.run("arr[5][0]", &NoBuiltins),
        Err(InterpreterError::RuntimeError(RuntimeError::NotIndexable {
            value: Value::Nil,
            span: Span::new(0, 6)
        }))
    );
}

#[test]
fn a_loop_is_nil() {
    assert_eq!(run("iter [1,2,3] of item { item }"), Ok(Value::Nil));
}

#[test]
fn a_loop_runs_its_body_for_each_item_in_order() {
    assert_eq!(run("let! sum = 0\niter [1, 2, 3, 4] of x { sum += x }\nsum"), Ok(num(10)));
    assert_eq!(run("let! s = ''\niter ['a', 'b', 'c'] of x { s = s + x }\ns"), Ok(text("abc")));
    assert_eq!(run("let! n = 0\niter [] of x { n += 1 }\nn"), Ok(num(0)));
}

#[test]
fn the_loop_variable_stays_bound_to_the_last_item() {
    assert_eq!(run("iter [1, 2, 3] of item { }\nitem"), Ok(num(3)));
    assert_eq!(run("iter [] of item { }\nitem"), Ok(Value::Nil));
}

#[test]
fn a_second_loop_over_the_same_variable_redeclares_it() {
    assert_eq!(run("iter [1] of i { }\niter [2] of i { }"), Err(InterpreterError::RuntimeError(RuntimeError::AlreadyDeclared)));
}

#[test]
fn an_unbound_name_is_a_reference_error() {
    assert_eq!(
        run("undefined_name"),
        Err(InterpreterError::RuntimeError(RuntimeError::ReferenceError(
            ReferenceError::UndefinedIdentifier { ident: Ident::new("undefined_name", Span::new(0, 14)) }
        )))
    );
}

#[test]
fn declaring_twice_in_one_scope_fails() {
    assert_eq!(runtime_error("let a = 1\nlet a = 2"), RuntimeError::AlreadyDeclared);
    assert_eq!(runtime_error("let a = 1\nlet! a = 2"), RuntimeError::AlreadyDeclared);
}

#[test]
fn a_parameter_shadows_an_outer_binding() {
    assert_eq!(run("let a = 1\nlet f = |a| -> a + 1\nf(10) + a"), Ok(num(12)));
}

#[test]
fn a_declaration_in_a_function_body_shadows_an_outer_binding() {
    assert_eq!(run("let a = 1\nlet f = || -> {\n\tlet a = 2\n\ta\n}\nf() + a"), Ok(num(3)));
}

#[test]
fn assigning_to_an_immutable_binding_fails() {
    assert_eq!(runtime_error("let a = 1\na = 2"), RuntimeError::AssignmentToImmutableVariable);
    assert_eq!(runtime_error("let a = 1\na += 2"), RuntimeError::AssignmentToImmutableVariable);
}

#[test]
fn assigning_to_a_mutable_binding_is_seen_by_later_reads() {
    assert_eq!(run("let! a = 1\na = 2\na"), Ok(num(2)));
    assert_eq!(run("let! a = 1\na = 'x'\na"), Ok(text("x")));
}

#[test]
fn assigning_to_an_unbound_name_fails() {
    assert_eq!(
        runtime_error("a = 2"),
        RuntimeError::ReferenceError(ReferenceError::UndefinedIdentifier {
            ident: Ident::new("a", Span::new(0, 1))
        })
    );
}

#[test]
fn a_declaration_is_an_expression() {
    assert_eq!(run("let! a = 0\na = let b = 5\na + b"), Ok(num(10)));
    assert_eq!(run("let a = 7"), Ok(num(7)));
}

#[test]
fn bindings_stay_from_one_run_to_the_next() {
    let mut interpreter = Interpreter::init();
    assert_eq!(interpreter.run("let! a = 1", &NoBuiltins), Ok(num(1)));
    assert_eq!(interpreter.run("a += 1", &NoBuiltins), Ok(num(2)));
    assert_eq!(interpreter.run("a", &NoBuiltins), Ok(num(2)));
}

#[test]
fn a_failed_run_keeps_what_it_did_before_it_failed() {
    let mut interpreter = Interpreter::init();
    assert!(interpreter.run("let a = 1\nundefined", &NoBuiltins).is_err());
    assert_eq!(interpreter.run("a", &NoBuiltins), Ok(num(1)));
    // a text that is no program changes nothing
    assert!(interpreter.run("let b = 1\n)", &NoBuiltins).is_err());
    assert!(interpreter.run("b", &NoBuiltins).is_err());
}

#[test]
fn arithmetic_on_integers() {
    assert_eq!(run("7 + 2"), Ok(num(9)));
    assert_eq!(run("7 - 2"), Ok(num(5)));
    assert_eq!(run("7 * 2"), Ok(num(14)));
    assert_eq!(run("7 / 2"), Ok(num(3)));
    assert_eq!(run("7 % 2"), Ok(num(1)));
}

#[test]
fn division_rounds_towards_zero_and_the_remainder_has_the_sign_of_the_dividend() {
    assert_eq!(run("-7 / 2"), Ok(num(-3)));
    assert_eq!(run("7 / -2"), Ok(num(-3)));
    assert_eq!(run("-7 / -2"), Ok(num(3)));
    assert_eq!(run("-7 % 2"), Ok(num(-1)));
    assert_eq!(run("7 % -2"), Ok(num(1)));
    assert_eq!(run("-7 % -2"), Ok(num(-1)));
    assert_eq!(run("0 / 5"), Ok(num(0)));
}

#[test]
fn division_by_zero_is_an_error() {
    assert_eq!(runtime_error("1 / 0"), RuntimeError::DivisionByZero { span: Span::new(4, 5) });
    assert_eq!(runtime_error("1 % 0"), RuntimeError::DivisionByZero { span: Span::new(4, 5) });
    assert_eq!(runtime_error("let! a = 1\na /= 0"), RuntimeError::DivisionByZero { span: Span::new(16, 17) });
}

#[test]
fn overflow_is_an_error() {
    assert_eq!(run("2147483647 + 0"), Ok(num(2147483647)));
    assert_eq!(runtime_error("2147483647 + 1"), RuntimeError::IntegerOverflow { span: Span::new(0, 14) });
    assert_eq!(runtime_error("-2147483648 - 1"), RuntimeError::IntegerOverflow { span: Span::new(0, 15) });
    assert_eq!(runtime_error("65536 * 65536"), RuntimeError::IntegerOverflow { span: Span::new(0, 13) });
    assert_eq!(runtime_error("-2147483648 / -1"), RuntimeError::IntegerOverflow { span: Span::new(0, 16) });
    assert_eq!(runtime_error("- -2147483648"), RuntimeError::IntegerOverflow { span: Span::new(0, 13) });
    assert_eq!(run("-2147483648 % -1"), Ok(num(0)));
    assert_eq!(run("-2147483648 / 1"), Ok(num(-2147483648)));
}

#[test]
fn plus_joins_strings_and_integers() {
    assert_eq!(run("'a' + 'b'"), Ok(text("ab")));
    assert_eq!(run("'a' + 12"), Ok(text("a12")));
    assert_eq!(run("12 + 'a'"), Ok(text("12a")));
    assert_eq!(run("-12 + 'a'"), Ok(text("-12a")));
    assert_eq!(run("'' + 0"), Ok(text("0")));
    assert_eq!(run("'' + -2147483648"), Ok(text("-2147483648")));
    assert_eq!(run("'' + 2147483647"), Ok(text("2147483647")));
    assert_eq!(run("'' + 1000"), Ok(text("1000")));
}

#[test]
fn plus_does_not_join_arrays() {
    assert_eq!(
        runtime_error("[1] + [2]"),
        RuntimeError::TypeError(TypeError::BinOp {
            op: BinExprKind::Add,
            lhs: Value::Array(vec![num(1)]),
            lhs_span: Span::new(0, 3),
            rhs: Value::Array(vec![num(2)]),
            rhs_span: Span::new(6, 9),
        })
    );
}

#[test]
fn operators_reject_operands_of_the_wrong_type() {
    assert_eq!(
        runtime_error("1 - 'a'"),
        RuntimeError::TypeError(TypeError::BinOp {
            op: BinExprKind::Sub,
            lhs: num(1),
            lhs_span: Span::new(0, 1),
            rhs: text("a"),
            rhs_span: Span::new(4, 7),
        })
    );
    assert_eq!(
        runtime_error("true < false"),
        RuntimeError::TypeError(TypeError::BinOp {
            op: BinExprKind::LessThan,
            lhs: Value::Boolean(true),
            lhs_span: Span::new(0, 4),
            rhs: Value::Boolean(false),
            rhs_span: Span::new(7, 12),
        })
    );
    assert_eq!(
        runtime_error("1 && true"),
        RuntimeError::TypeError(TypeError::BinOp {
            op: BinExprKind::And,
            lhs: num(1),
            lhs_span: Span::new(0, 1),
            rhs: Value::Boolean(true),
            rhs_span: Span::new(5, 9),
        })
    );
    assert_eq!(
        runtime_error("- true"),
        RuntimeError::TypeError(TypeError::UnaryOp {
            op: UnaryExprKind::Minus,
            expr: Value::Boolean(true),
            expr_span: Span::new(0, 6),
        })
    );
    assert_eq!(
        runtime_error("!1"),
        RuntimeError::TypeError(TypeError::UnaryOp {
            op: UnaryExprKind::Not,
            expr: num(1),
            expr_span: Span::new(0, 2),
        })
    );
}

#[test]
fn compound_assignment_takes_integers_only() {
    assert_eq!(
        runtime_error("let! s = 'a'\ns += 'b'"),
        RuntimeError::TypeError(TypeError::BinOp {
            op: BinExprKind::Add,
            lhs: text("a"),
            lhs_span: Span::new(13, 14),
            rhs: text("b"),
            rhs_span: Span::new(18, 21),
        })
    );
    assert_eq!(run("let! a = 7\na -= 2\na *= 3\na /= 2\na %= 4"), Ok(num(3)));
}

#[test]
fn unary_operators() {
    assert_eq!(run("- 5"), Ok(num(-5)));
    assert_eq!(run("- - 5"), Ok(num(5)));
    assert_eq!(run("!true"), Ok(Value::Boolean(false)));
    assert_eq!(run("!!true"), Ok(Value::Boolean(true)));
}

#[test]
fn boolean_operators_evaluate_both_sides() {
    assert_eq!(run("true && false"), Ok(Value::Boolean(false)));
    assert_eq!(run("true || false"), Ok(Value::Boolean(true)));
    assert_eq!(run("false || false"), Ok(Value::Boolean(false)));
    // the right-hand side is evaluated although the left decides
    assert_eq!(
        runtime_error("true || undefined"),
        RuntimeError::ReferenceError(ReferenceError::UndefinedIdentifier {
            ident: Ident::new("undefined", Span::new(8, 17))
        })
    );
    assert_eq!(run("let! a = 0\nfalse && (a = 1) == 1\na"), Ok(num(1)));
}

#[test]
fn operands_are_evaluated_left_to_right() {
    assert_eq!(run("let! a = 1\n(a = 2) + a"), Ok(num(4)));
    assert_eq!(run("let! a = 1\na + (a = 2)"), Ok(num(3)));
    assert_eq!(run("let! a = 1\n[a, a = 2, a]"), Ok(Value::Array(vec![num(1), num(2), num(2)])));
}

#[test]
fn equality_compares_values_of_any_type() {
    assert_eq!(run("1 == 1"), Ok(Value::Boolean(true)));
    assert_eq!(run("1 == 'a'"), Ok(Value::Boolean(false)));
    assert_eq!(run("1 != 'a'"), Ok(Value::Boolean(true)));
    assert_eq!(run("nil == nil"), Ok(Value::Boolean(true)));
    assert_eq!(run("'a' == \"a\""), Ok(Value::Boolean(true)));
    assert_eq!(run("[1, [2, 3]] == [1, [2, 3]]"), Ok(Value::Boolean(true)));
    assert_eq!(run("[1, [2, 3]] == [1, [2, 4]]"), Ok(Value::Boolean(false)));
    assert_eq!(run("[1] == [1, 2]"), Ok(Value::Boolean(false)));
    assert_eq!(run("{a: 1, b: 2} == {b: 2, a: 1}"), Ok(Value::Boolean(true)));
    assert_eq!(run("{a: 1, b: 2} == {a: 1}"), Ok(Value::Boolean(false)));
    assert_eq!(run("{a: 1} == {a: 2}"), Ok(Value::Boolean(false)));
    assert_eq!(run("{a: 1} != {b: 1}"), Ok(Value::Boolean(true)));
}

#[test]
fn equality_of_functions() {
    let mut interpreter = with_host();
    assert_eq!(interpreter.run("print == print", &Host), Ok(Value::Boolean(true)));
    assert_eq!(interpreter.run("print == count", &Host), Ok(Value::Boolean(false)));
    assert_eq!(interpreter.run("let f = |x| -> x\nf == f", &Host), Ok(Value::Boolean(true)));
    assert_eq!(interpreter.run("f == print", &Host), Ok(Value::Boolean(false)));
    // the same text in another place is another literal
    assert_eq!(interpreter.run("(|x| -> x) == (|x| -> x)", &Host), Ok(Value::Boolean(false)));
}

#[test]
fn record_values() {
    assert_eq!(run("{a: 1}.a"), Ok(num(1)));
    assert_eq!(run("{a: 1}.b"), Ok(Value::Nil));
    assert_eq!(run("{}.a"), Ok(Value::Nil));
    assert_eq!(run("{a: 1, a: 2}.a"), Ok(num(2)));
    assert_eq!(run("{a: {b: {c: 5}}}.a.b.c"), Ok(num(5)));
    assert_eq!(run("{\n\ta: 1\n\tb: 2,\n}.b"), Ok(num(2)));
    let mut expected = Record::new();
    expected.insert(&Ident::new_dummy("a"), num(1));
    assert_eq!(run("{a: 1}"), Ok(Value::Record(expected)));
}

#[test]
fn a_property_of_a_value_that_is_no_record_is_an_error() {
    assert_eq!(runtime_error("1.a"), RuntimeError::NotARecord { value: num(1), span: Span::new(0, 1) });
    assert_eq!(
        runtime_error("[1].a"),
        RuntimeError::NotARecord { value: Value::Array(vec![num(1)]), span: Span::new(0, 3) }
    );
}

#[test]
fn indexing() {
    assert_eq!(run("[10, 20, 30][0]"), Ok(num(10)));
    assert_eq!(run("[10, 20, 30][2]"), Ok(num(30)));
    assert_eq!(run("[10, 20, 30][3]"), Ok(Value::Nil));
    assert_eq!(run("[10, 20, 30][1 + 1]"), Ok(num(30)));
    assert_eq!(run("[][0]"), Ok(Value::Nil));
}

#[test]
fn indexing_errors() {
    assert_eq!(runtime_error("1[0]"), RuntimeError::NotIndexable { value: num(1), span: Span::new(0, 1) });
    assert_eq!(runtime_error("'abc'[0]"), RuntimeError::NotIndexable { value: text("abc"), span: Span::new(0, 5) });
    assert_eq!(runtime_error("[1][-1]"), RuntimeError::InvalidIndex { value: num(-1), span: Span::new(4, 6) });
    assert_eq!(runtime_error("[1]['a']"), RuntimeError::InvalidIndex { value: text("a"), span: Span::new(4, 7) });
    assert_eq!(runtime_error("[1][nil]"), RuntimeError::InvalidIndex { value: Value::Nil, span: Span::new(4, 7) });
}

#[test]
fn conditions() {
    assert_eq!(run("if true { 1 }"), Ok(num(1)));
    assert_eq!(run("if false { 1 }"), Ok(Value::Nil));
    assert_eq!(run("if true { 1 } else { 2 }"), Ok(num(1)));
    assert_eq!(run("if false { 1 } else { 2 }"), Ok(num(2)));
    assert_eq!(run("if 1 < 2 { 'yes' } else { 'no' }"), Ok(text("yes")));
    assert_eq!(runtime_error("if 1 { 1 }"), RuntimeError::NotABoolean { value: num(1), span: Span::new(3, 4) });
    assert_eq!(
        runtime_error("if nil { 1 } else { 2 }"),
        RuntimeError::NotABoolean { value: Value::Nil, span: Span::new(3, 6) }
    );
}

#[test]
fn a_loop_over_a_value_that_is_no_array_is_an_error() {
    assert_eq!(
        runtime_error("iter 5 of x { }"),
        RuntimeError::NotIterable { value: num(5), span: Span::new(5, 6) }
    );
}

#[test]
fn calls_of_closures() {
    assert_eq!(run("let f = |x| -> x * 2\nf(21)"), Ok(num(42)));
    assert_eq!(run("let f = || -> 7\nf()"), Ok(num(7)));
    assert_eq!(run("(|x, y| -> x - y)(10, 3)"), Ok(num(7)));
    assert_eq!(run("|x| -> {\n\tx + 1\n}(1)"), Ok(num(2)));
    assert_eq!(run("let f = || -> { }\nf()"), Ok(Value::Nil));
}

#[test]
fn a_closure_sees_the_frame_it_was_made_in() {
    assert_eq!(
        run("let make = |n| -> |x| -> x + n\nlet add5 = make(5)\nlet add7 = make(7)\nadd5(1) + add7(1)"),
        Ok(num(14))
    );
    // not the frame it is called from
    assert_eq!(
        run("let n = 1\nlet f = || -> n\nlet g = |n| -> f()\ng(100)"),
        Ok(num(1))
    );
}

#[test]
fn a_closure_shares_its_frame_with_the_code_that_made_it() {
    assert_eq!(run("let! n = 0\nlet inc = || -> n += 1\ninc()\ninc()\nn"), Ok(num(2)));
    assert_eq!(
        run("let counter = || -> {\n\tlet! c = 0\n\t|| -> c += 1\n}\nlet a = counter()\nlet b = counter()\na()\na()\nb()\na() * 10 + b()"),
        Ok(num(32))
    );
}

#[test]
fn recursion() {
    assert_eq!(
        run("let fact = |n| -> if n <= 1 { 1 } else { n * fact(n - 1) }\nfact(10)"),
        Ok(num(3628800))
    );
    assert_eq!(
        run("let fib = |n| -> if n < 2 { n } else { fib(n - 1) + fib(n - 2) }\nfib(15)"),
        Ok(num(610))
    );
}

#[test]
fn nesting_of_calls_is_limited() {
    assert_eq!(CALL_DEPTH_LIMIT, 100);
    let code = "let down = |n| -> if n == 0 { 0 } else { down(n - 1) }\ndown(99)";
    assert_eq!(run(code), Ok(num(0)));
    let code = "let down = |n| -> if n == 0 { 0 } else { down(n - 1) }\ndown(100)";
    assert!(matches!(runtime_error(code), RuntimeError::CallDepthExceeded { .. }));
    let code = "let forever = || -> forever()\nforever()";
    assert_eq!(runtime_error(code), RuntimeError::CallDepthExceeded { span: Span::new(20, 29) });
}

#[test]
fn arguments_and_parameters_need_not_match_in_number() {
    // arguments without a parameter are dropped
    assert_eq!(run("(|x| -> x)(1, 2, 3)"), Ok(num(1)));
    // a parameter without an argument is not bound
    assert_eq!(
        runtime_error("(|x, y| -> y)(1)"),
        RuntimeError::ReferenceError(ReferenceError::UndefinedIdentifier {
            ident: Ident::new("y", Span::new(11, 12))
        })
    );
    // of two parameters of one name the later counts
    assert_eq!(run("(|x, x| -> x)(1, 2)"), Ok(num(2)));
}

#[test]
fn parameters_are_immutable() {
    assert_eq!(runtime_error("(|x| -> x = 2)(1)"), RuntimeError::AssignmentToImmutableVariable);
}

#[test]
fn the_callee_is_evaluated_before_the_arguments() {
    assert_eq!(
        runtime_error("1(undefined)"),
        RuntimeError::NotCallable { value: num(1), span: Span::new(0, 1) }
    );
    assert_eq!(
        runtime_error("nil()"),
        RuntimeError::NotCallable { value: Value::Nil, span: Span::new(0, 3) }
    );
}

#[test]
fn calls_of_builtins() {
    let mut interpreter = with_host();
    assert_eq!(interpreter.run("print(5)", &Host), Ok(num(5)));
    assert_eq!(interpreter.run("print()", &Host), Ok(Value::Nil));
    assert_eq!(interpreter.run("count(1, 'a', nil)", &Host), Ok(num(3)));
    assert_eq!(interpreter.run("let! x = 10\nx += 20\nlet y = x * 3\nprint(y - x)", &Host), Ok(num(60)));
    assert_eq!(interpreter.run("print = 1", &Host), Err(InterpreterError::RuntimeError(RuntimeError::AssignmentToImmutableVariable)));
}

#[test]
fn a_host_without_functions_returns_nil() {
    let mut interpreter = with_host();
    assert_eq!(interpreter.run("print(5)", &NoBuiltins), Ok(Value::Nil));
}

#[test]
fn two_builtins_of_one_name_collide() {
    let r = Interpreter::init_with_builtins(vec![
        (Ident::new_dummy("a"), num(1)),
        (Ident::new_dummy("b"), num(2)),
        (Ident::new_dummy("a"), num(3)),
    ]);
    assert!(matches!(r, Err(RuntimeError::AlreadyDeclared)));
}

#[test]
fn a_closure_that_names_no_frame_cannot_be_called() {
    let mut interpreter = Interpreter::init();
    let f = match interpreter.run("|x| -> x", &NoBuiltins) {
        Ok(Value::Function(FunctionValue::Closure { body, .. })) => body,
        other => panic!("{:?}", other),
    };
    let mut interpreter = Interpreter::init_with_builtins(vec![(
        Ident::new_dummy("f"),
        Value::Function(FunctionValue::Closure { body: f, capture: 99 }),
    )])
    .unwrap();
    assert_eq!(
        interpreter.run("f(1)", &NoBuiltins),
        Err(InterpreterError::RuntimeError(RuntimeError::UnknownFrame { span: Span::new(0, 4) }))
    );
}

#[test]
fn keyword_forms_are_read_but_not_carried_out() {
    assert_eq!(runtime_error("return 1"), RuntimeError::Unsupported { span: Span::new(0, 8) });
    assert_eq!(runtime_error("break 1"), RuntimeError::Unsupported { span: Span::new(0, 7) });
    assert_eq!(runtime_error("continue 1"), RuntimeError::Unsupported { span: Span::new(0, 10) });
    assert_eq!(runtime_error("panic 1"), RuntimeError::Unsupported { span: Span::new(0, 7) });
    assert_eq!(runtime_error("assert true"), RuntimeError::Unsupported { span: Span::new(0, 11) });
    // the operand is not evaluated
    assert_eq!(runtime_error("return undefined"), RuntimeError::Unsupported { span: Span::new(0, 16) });
}

#[test]
fn a_text_that_is_no_program_is_a_parse_error() {
    assert!(matches!(run("1 +"), Err(InterpreterError::ParseError(ParseError::UnrecognizedEof { .. }))));
    assert!(matches!(run(")"), Err(InterpreterError::ParseError(ParseError::UnrecognizedToken { .. }))));
    assert!(matches!(run("1 $"), Err(InterpreterError::ParseError(ParseError::User { .. }))));
    assert!(matches!(run("1 2"), Err(InterpreterError::ParseError(ParseError::UnrecognizedToken { .. }))));
}
