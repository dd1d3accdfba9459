use dynlang::ast::Arguments;
use dynlang::ast::Array;
use dynlang::ast::BinExpr;
use dynlang::ast::BinExprKind;
use dynlang::ast::Boolean;
use dynlang::ast::Code;
use dynlang::ast::Expr;
use dynlang::ast::ExprKind;
use dynlang::ast::Function;
use dynlang::ast::Ident;
use dynlang::ast::Integer;
use dynlang::ast::Literal;
use dynlang::ast::Nil;
use dynlang::ast::Parameters;
use dynlang::ast::StringT;
use dynlang::ast::UnaryExprKind;
use dynlang::parser::parse;
use dynlang::span::Span;

fn sp(start: usize, end: usize) -> Span {
    Span::new(start, end)
}

fn bx(e: Expr) -> Box<Expr> {
    Box::new(e)
}

// An integer literal that starts at `start` and is as long as its digits.
fn n(v: i32, start: usize) -> Expr {
    let span = sp(start, start + v.to_string().len());
    Expr::new(ExprKind::Literal(Literal::Integer(Integer::new(v, span))), span)
}

fn ident(name: &str, start: usize, end: usize) -> Expr {
    Expr::new(ExprKind::Ident(Ident::new(name, sp(start, end))), sp(start, end))
}

fn var(name: &str, start: usize, end: usize) -> Ident {
    Ident::new(name, sp(start, end))
}

// A string literal that starts at `start`; its quotes add two to its length.
fn string(s: &str, start: usize) -> Expr {
    let span = sp(start, start + s.len() + 2);
    Expr::new(ExprKind::Literal(Literal::String(StringT::new(s, span))), span)
}

fn arr(elements: Vec<Expr>, start: usize, end: usize) -> Expr {
    Expr::new(ExprKind::Array(Array::new(elements, sp(start, end))), sp(start, end))
}

// An empty array literal that starts at `start`.
fn arr0(start: usize) -> Expr {
    arr(vec![], start, start + 2)
}

fn nil(start: usize) -> Expr {
    let span = sp(start, start + 3);
    Expr::new(ExprKind::Literal(Literal::Nil(Nil::new(span))), span)
}

fn tru(start: usize) -> Expr {
    let span = sp(start, start + 4);
    Expr::new(ExprKind::Literal(Literal::Boolean(Boolean::new(true, span))), span)
}

fn fal(start: usize) -> Expr {
    let span = sp(start, start + 5);
    Expr::new(ExprKind::Literal(Literal::Boolean(Boolean::new(false, span))), span)
}

fn code(stmts: Vec<Expr>, start: usize, end: usize) -> Code {
    Code::new(stmts, sp(start, end))
}

fn call(callee: Expr, start: usize, end: usize, args: Vec<Expr>) -> Expr {
    Expr::new(ExprKind::Call(bx(callee), Arguments(args)), sp(start, end))
}

// A call of the identifier `name`, which starts where the call starts.
fn call_ident(name: &str, start: usize, end: usize, args: Vec<Expr>) -> Expr {
    call(ident(name, start, start + name.len()), start, end, args)
}

// An infix expression that spans both operands.
fn bin(op: BinExprKind, lhs: Expr, rhs: Expr) -> Expr {
    let span = lhs.span + rhs.span;
    Expr::new_lalr_binexpr((span.start, (lhs, op, rhs), span.end))
}

fn bin_at(op: BinExprKind, lhs: Expr, rhs: Expr, start: usize, end: usize) -> Expr {
    Expr::new(ExprKind::BinExpr(BinExpr::new(op, lhs, rhs, sp(start, end))), sp(start, end))
}

fn unary(op: UnaryExprKind, operand: Expr, start: usize, end: usize) -> Expr {
    Expr::new_lalr_unaryexpr((start, (op, operand), end))
}

fn plus(lhs: Expr, rhs: Expr) -> Expr {
    bin(BinExprKind::Add, lhs, rhs)
}

fn minus(lhs: Expr, rhs: Expr) -> Expr {
    bin(BinExprKind::Sub, lhs, rhs)
}

fn times(lhs: Expr, rhs: Expr) -> Expr {
    bin(BinExprKind::Mul, lhs, rhs)
}

fn over(lhs: Expr, rhs: Expr) -> Expr {
    bin(BinExprKind::Div, lhs, rhs)
}

fn modulo(lhs: Expr, rhs: Expr) -> Expr {
    bin(BinExprKind::Mod, lhs, rhs)
}

#[test]
fn parse_math_expr() {
    let res = parse("1 + 2 * 3");

    assert_eq!(res, Ok(plus(n(1, 0), times(n(2, 4), n(3, 8)))))
}

#[test]
fn parse_declare_expr() {
    let res = parse("let xy = 1 + 2");

    assert_eq!(
        res,
        Ok(Expr::new(ExprKind::Declare(var("xy", 4, 6), bx(plus(n(1, 9), n(2, 13)))), sp(0, 14)))
    )
}

#[test]
fn parse_math_expr_involving_variable() {
    let res = parse("2 * pi * r");

    assert_eq!(res, Ok(times(times(n(2, 0), ident("pi", 4, 6)), ident("r", 9, 10))))
}

#[test]
fn parse_indexing() {
    let res = parse("arr[123]");

    assert_eq!(
        res,
        Ok(Expr::new(ExprKind::Index(bx(ident("arr", 0, 3)), bx(n(123, 4))), sp(0, 8)))
    )
}

#[test]
fn parse_nested_indexing() {
    let res = parse("arr[1][2][3]");

    assert_eq!(
        res,
        Ok(Expr::new(
            ExprKind::Index(
                bx(Expr::new(
                    ExprKind::Index(
                        bx(Expr::new(ExprKind::Index(bx(ident("arr", 0, 3)), bx(n(1, 4))), sp(0, 6))),
                        bx(n(2, 7))
                    ),
                    sp(0, 9)
                )),
                bx(n(3, 10))
            ),
            sp(0, 12)
        ))
    )
}

#[test]
fn parse_indexing_expr() {
    let res = parse("(a + b)[123]");

    assert_eq!(
        res,
        Ok(Expr::new(
            ExprKind::Index(bx(plus(ident("a", 1, 2), ident("b", 5, 6))), bx(n(123, 8))),
            sp(0, 12)
        ))
    )
}

#[test]
fn parse_array() {
    let res = parse(r#"[1, a, "str"]"#);

    assert_eq!(res, Ok(arr(vec![n(1, 1), ident("a", 4, 5), string("str", 7)], 0, 13)))
}

#[test]
fn parse_empty_array() {
    let res = parse(r#"[]"#);

    assert_eq!(res, Ok(arr0(0)))
}

#[test]
fn parse_array_with_one_element() {
    let res = parse(r#"[1]"#);

    assert_eq!(res, Ok(arr(vec![n(1, 1)], 0, 3)))
}

#[test]
fn parse_nested_array() {
    let res = parse(r#"[[[]]]"#);

    assert_eq!(res, Ok(arr(vec![arr(vec![arr0(2)], 1, 5)], 0, 6)))
}

#[test]
fn parse_nested_array2() {
    let res = parse(r#"[[[], []], [[], []]]"#);

    assert_eq!(
        res,
        Ok(arr(
            vec![arr(vec![arr0(2), arr0(6)], 1, 9), arr(vec![arr0(12), arr0(16)], 11, 19)],
            0,
            20
        ))
    )
}

#[test]
fn parse_array_with_indexing() {
    let res = parse(r#"[[]][[]]"#);

    assert_eq!(
        res,
        Ok(Expr::new(ExprKind::Index(bx(arr(vec![arr0(1)], 0, 4)), bx(arr0(5))), sp(0, 8)))
    )
}

#[test]
fn parse_function_call() {
    let res = parse(r#"func(x)"#);

    assert_eq!(res, Ok(call_ident("func", 0, 7, vec![ident("x", 5, 6)])))
}

#[test]
fn parse_function_call_without_arguments() {
    let res = parse(r#"func()"#);

    assert_eq!(res, Ok(call_ident("func", 0, 6, vec![])))
}

#[test]
fn parse_function_call_with_more_than_one_argument() {
    let res = parse(r#"add(1, 2)"#);

    assert_eq!(res, Ok(call_ident("add", 0, 9, vec![n(1, 4), n(2, 7)])))
}

#[test]
fn parse_function_call_spanning_multiple_lines() {
    let res = parse("add(\n\t1,\n\t2,\n)");

    assert_eq!(res, Ok(call_ident("add", 0, 14, vec![n(1, 6), n(2, 10)])))
}

#[test]
fn parse_function_call_spanning_multiple_lines_without_trailing_comma() {
    let res = parse("add(\n\t1,\n\t2\n)");

    assert_eq!(res, Ok(call_ident("add", 0, 13, vec![n(1, 6), n(2, 10)])))
}

#[test]
fn parse_function_call_spanning_multiple_lines_separated_by_only_newlines() {
    let res = parse("add(\n\t1\n\t2\n)");

    assert_eq!(res, Ok(call_ident("add", 0, 12, vec![n(1, 6), n(2, 9)])))
}

#[test]
fn call_expression() {
    let res = parse(r#"(c + d)(a, b)"#);

    assert_eq!(
        res,
        Ok(call(
            plus(ident("c", 1, 2), ident("d", 5, 6)),
            0,
            13,
            vec![ident("a", 8, 9), ident("b", 11, 12)]
        ))
    )
}

#[test]
fn nested_call() {
    let res = parse(r#"(a())(b())"#);

    assert_eq!(
        res,
        Ok(call(call_ident("a", 1, 4, vec![]), 0, 10, vec![call_ident("b", 6, 9, vec![])]))
    )
}

#[test]
fn nested_call2() {
    let res = parse(r#"f(x)(y)(z)"#);

    assert_eq!(
        res,
        Ok(call(
            call(call_ident("f", 0, 4, vec![ident("x", 2, 3)]), 0, 7, vec![ident("y", 5, 6)]),
            0,
            10,
            vec![ident("z", 8, 9)]
        )),
    )
}

#[test]
fn parse_sub() {
    let res = parse(r#"a - 123"#);

    assert_eq!(res, Ok(minus(ident("a", 0, 1), n(123, 4))))
}

#[test]
fn parse_sequential_sub() {
    let res = parse(r#"a - b - c - d"#);

    assert_eq!(
        res,
        Ok(minus(
            minus(minus(ident("a", 0, 1), ident("b", 4, 5)), ident("c", 8, 9)),
            ident("d", 12, 13)
        ))
    )
}

#[test]
fn parse_unary_minus() {
    let res = parse(r#"- 123"#);

    assert_eq!(res, Ok(unary(UnaryExprKind::Minus, n(123, 2), 0, 5)));
}

#[test]
fn does_not_support_decrement_operator() {
    let res = parse(r#"--a"#);

    assert_eq!(
        res,
        Ok(unary(
            UnaryExprKind::Minus,
            unary(UnaryExprKind::Minus, ident("a", 2, 3), 1, 3),
            0,
            3
        ))
    );
}

#[test]
fn unary_minus_followed_by_multiplication() {
    let res = parse(r#"- a*b"#);

    assert_eq!(
        res,
        Ok(times(unary(UnaryExprKind::Minus, ident("a", 2, 3), 0, 3), ident("b", 4, 5)))
    );
}

#[test]
fn parse_unary_not() {
    let res = parse(r#"!true"#);

    assert_eq!(res, Ok(unary(UnaryExprKind::Not, tru(1), 0, 5)));
}

#[test]
fn parse_nested_unary_not() {
    let res = parse(r#"!!a"#);

    assert_eq!(
        res,
        Ok(unary(UnaryExprKind::Not, unary(UnaryExprKind::Not, ident("a", 2, 3), 1, 3), 0, 3))
    );
}

#[test]
fn parse_and() {
    let res = parse(r#"true && false"#);

    assert_eq!(res, Ok(bin_at(BinExprKind::And, tru(0), fal(8), 0, 13)));
}

#[test]
fn parse_or() {
    let res = parse(r#"true || false"#);

    assert_eq!(res, Ok(bin_at(BinExprKind::Or, tru(0), fal(8), 0, 13)));
}

#[test]
fn boolean_operator_precedence() {
    let res = parse(r#"true || false && true"#);

    assert_eq!(
        res,
        Ok(bin_at(
            BinExprKind::Or,
            tru(0),
            bin_at(BinExprKind::And, fal(8), tru(17), 8, 21),
            0,
            21
        ))
    );
}

#[test]
fn parse_div() {
    let res = parse(r#"a / 123"#);

    assert_eq!(res, Ok(over(ident("a", 0, 1), n(123, 4))))
}

#[test]
fn parse_mod() {
    let res = parse(r#"a % 123"#);

    assert_eq!(res, Ok(modulo(ident("a", 0, 1), n(123, 4))))
}

#[test]
fn parse_equal() {
    let res = parse(r#"1 == 3"#);

    assert_eq!(res, Ok(bin_at(BinExprKind::Equal, n(1, 0), n(3, 5), 0, 6)))
}

#[test]
fn parse_not_equal() {
    let res = parse(r#"1 != 3"#);

    assert_eq!(res, Ok(bin_at(BinExprKind::NotEqual, n(1, 0), n(3, 5), 0, 6)))
}

#[test]
fn parse_less_than() {
    let res = parse(r#"1 < 2"#);

    assert_eq!(res, Ok(bin_at(BinExprKind::LessThan, n(1, 0), n(2, 4), 0, 5)))
}

#[test]
fn parse_less_than_equal() {
    let res = parse(r#"1 <= 2"#);

    assert_eq!(res, Ok(bin_at(BinExprKind::LessThanEqual, n(1, 0), n(2, 5), 0, 6)))
}

#[test]
fn parse_greater_than() {
    let res = parse(r#"1 > 2"#);

    assert_eq!(res, Ok(bin_at(BinExprKind::GreaterThan, n(1, 0), n(2, 4), 0, 5)))
}

#[test]
fn parse_greater_than_equal() {
    let res = parse(r#"1 >= 2"#);

    assert_eq!(res, Ok(bin_at(BinExprKind::GreaterThanEqual, n(1, 0), n(2, 5), 0, 6)))
}

#[test]
fn parse_nested_declare() {
    let res = parse(r#"let a = let b = 123"#);

    assert_eq!(
        res,
        Ok(Expr::new(
            ExprKind::Declare(
                var("a", 4, 5),
                bx(Expr::new(ExprKind::Declare(var("b", 12, 13), bx(n(123, 16))), sp(8, 19)))
            ),
            sp(0, 19)
        ))
    )
}

#[test]
fn parse_mutable_declare() {
    let res = parse(r#"let! v = []"#);

    assert_eq!(
        res,
        Ok(Expr::new(ExprKind::DeclareMut(var("v", 5, 6), bx(arr0(9))), sp(0, 11)))
    )
}

#[test]
fn parse_assign() {
    let res = parse(r#"a = 123"#);

    assert_eq!(res, Ok(Expr::new(ExprKind::Assign(var("a", 0, 1), bx(n(123, 4))), sp(0, 7))))
}

#[test]
fn parse_nested_assign() {
    let res = parse(r#"a = b = c"#);

    assert_eq!(
        res,
        Ok(Expr::new(
            ExprKind::Assign(
                var("a", 0, 1),
                bx(Expr::new(ExprKind::Assign(var("b", 4, 5), bx(ident("c", 8, 9))), sp(4, 9)))
            ),
            sp(0, 9)
        ),)
    )
}

#[test]
fn parse_nested_assign2() {
    let res = parse(r#"a = !(b = c + 2)"#);

    assert_eq!(
        res,
        Ok(Expr::new(
            ExprKind::Assign(
                var("a", 0, 1),
                bx(unary(
                    UnaryExprKind::Not,
                    Expr::new(
                        ExprKind::Assign(var("b", 6, 7), bx(plus(ident("c", 10, 11), n(2, 14)))),
                        sp(6, 15)
                    ),
                    4,
                    16
                ))
            ),
            sp(0, 16)
        ))
    )
}

#[test]
fn parse_mixed_assignments() {
    let res = parse(r#"a = let b = 123 + (let! c = 1)"#);

    assert_eq!(
        res,
        Ok(Expr::new(
            ExprKind::Assign(
                var("a", 0, 1),
                bx(Expr::new(
                    ExprKind::Declare(
                        var("b", 8, 9),
                        bx(bin_at(
                            BinExprKind::Add,
                            n(123, 12),
                            Expr::new(ExprKind::DeclareMut(var("c", 24, 25), bx(n(1, 28))), sp(19, 29)),
                            12,
                            30
                        ))
                    ),
                    sp(4, 30)
                ))
            ),
            sp(0, 30)
        ))
    )
}

#[test]
fn parse_if_expr() {
    let res = parse(r#"if true { print("it's true!") }"#);

    assert_eq!(
        res,
        Ok(Expr::new(
            ExprKind::If {
                condition: bx(tru(3)),
                yes: code(vec![call_ident("print", 10, 29, vec![string("it's true!", 16)])], 10, 29)
            },
            sp(0, 31)
        ))
    )
}

#[test]
fn parse_if_expr2() {
    let res = parse("if a - 4 >= 0 {abc()\ndef()}");

    assert_eq!(
        res,
        Ok(Expr::new(
            ExprKind::If {
                condition: bx(bin_at(
                    BinExprKind::GreaterThanEqual,
                    minus(ident("a", 3, 4), n(4, 7)),
                    n(0, 12),
                    3,
                    13
                )),
                yes: code(
                    vec![call_ident("abc", 15, 20, vec![]), call_ident("def", 21, 26, vec![])],
                    15,
                    26
                )
            },
            sp(0, 27)
        ))
    )
}

#[test]
fn parse_nested_if() {
    let res = parse(r#"if true { if false {} }"#);

    assert_eq!(
        res,
        Ok(Expr::new(
            ExprKind::If {
                condition: bx(tru(3)),
                yes: code(
                    vec![Expr::new(
                        ExprKind::If { condition: bx(fal(13)), yes: code(vec![], 20, 20) },
                        sp(10, 21)
                    )],
                    10,
                    21
                )
            },
            sp(0, 23)
        ))
    )
}

#[test]
fn parse_else_expression() {
    let res = parse(r#"if a > b { fetch() } else { cancel() }"#);

    assert_eq!(
        res,
        Ok(Expr::new(
            ExprKind::IfElse {
                condition: bx(bin_at(
                    BinExprKind::GreaterThan,
                    ident("a", 3, 4),
                    ident("b", 7, 8),
                    3,
                    8
                )),
                yes: code(vec![call_ident("fetch", 11, 18, vec![])], 11, 18),
                no: code(vec![call_ident("cancel", 28, 36, vec![])], 28, 36)
            },
            sp(0, 38)
        ))
    )
}

#[test]
fn parse_return_expr() {
    let res = parse("return res");

    assert_eq!(res, Ok(Expr::new(ExprKind::Return(bx(ident("res", 7, 10))), sp(0, 10))));
}

#[test]
fn parse_nested_return_expr() {
    let res = parse("return return res");

    assert_eq!(
        res,
        Ok(Expr::new(
            ExprKind::Return(bx(Expr::new(ExprKind::Return(bx(ident("res", 14, 17))), sp(7, 17)))),
            sp(0, 17)
        ))
    );
}

#[test]
fn parse_break_expr() {
    let res = parse("break res");

    assert_eq!(res, Ok(Expr::new(ExprKind::Break(bx(ident("res", 6, 9))), sp(0, 9))));
}

#[test]
fn parse_nested_break_expr() {
    let res = parse("break break res");

    assert_eq!(
        res,
        Ok(Expr::new(
            ExprKind::Break(bx(Expr::new(ExprKind::Break(bx(ident("res", 12, 15))), sp(6, 15)))),
            sp(0, 15)
        ))
    );
}

#[test]
fn parse_continue_expr() {
    let res = parse("continue res");

    assert_eq!(res, Ok(Expr::new(ExprKind::Continue(bx(ident("res", 9, 12))), sp(0, 12))));
}

#[test]
fn parse_nested_continue_expr() {
    let res = parse("continue continue res");

    assert_eq!(
        res,
        Ok(Expr::new(
            ExprKind::Continue(bx(Expr::new(
                ExprKind::Continue(bx(ident("res", 18, 21))),
                sp(9, 21)
            ))),
            sp(0, 21)
        ))
    );
}

#[test]
fn parse_panic_expr() {
    let res = parse("panic res");

    assert_eq!(res, Ok(Expr::new(ExprKind::Panic(bx(ident("res", 6, 9))), sp(0, 9))));
}

#[test]
fn parse_nested_panic_expr() {
    let res = parse("panic panic res");

    assert_eq!(
        res,
        Ok(Expr::new(
            ExprKind::Panic(bx(Expr::new(ExprKind::Panic(bx(ident("res", 12, 15))), sp(6, 15)))),
            sp(0, 15)
        ))
    );
}

#[test]
fn parse_assert_expr() {
    let res = parse("assert res");

    assert_eq!(res, Ok(Expr::new(ExprKind::Assert(bx(ident("res", 7, 10))), sp(0, 10))));
}

#[test]
fn parse_nested_assert_expr() {
    let res = parse("assert assert res");

    assert_eq!(
        res,
        Ok(Expr::new(
            ExprKind::Assert(bx(Expr::new(ExprKind::Assert(bx(ident("res", 14, 17))), sp(7, 17)))),
            sp(0, 17)
        ))
    );
}

#[test]
fn parse_add_assign() {
    let res = parse("a += 1");

    assert_eq!(res, Ok(Expr::new(ExprKind::AddAssign(var("a", 0, 1), bx(n(1, 5))), sp(0, 6))));
}

#[test]
fn parse_sub_assign() {
    let res = parse("a -= 1");

    assert_eq!(res, Ok(Expr::new(ExprKind::SubAssign(var("a", 0, 1), bx(n(1, 5))), sp(0, 6))));
}

#[test]
fn parse_mul_assign() {
    let res = parse("a *= 1");

    assert_eq!(res, Ok(Expr::new(ExprKind::MulAssign(var("a", 0, 1), bx(n(1, 5))), sp(0, 6))));
}

#[test]
fn parse_div_assign() {
    let res = parse("a /= 1");

    assert_eq!(res, Ok(Expr::new(ExprKind::DivAssign(var("a", 0, 1), bx(n(1, 5))), sp(0, 6))));
}

#[test]
fn parse_mod_assign() {
    let res = parse("a %= 1");

    assert_eq!(res, Ok(Expr::new(ExprKind::ModAssign(var("a", 0, 1), bx(n(1, 5))), sp(0, 6))));
}

#[test]
fn parse_for_loop_expr() {
    let res = parse("iter arr of item { print(item) }");

    assert_eq!(
        res,
        Ok(Expr::new(
            ExprKind::For {
                collection: bx(ident("arr", 5, 8)),
                item: var("item", 12, 16),
                body: code(vec![call_ident("print", 19, 30, vec![ident("item", 25, 29)])], 19, 30),
            },
            sp(0, 32)
        ))
    );
}

#[test]
fn parse_for_loop_expr_spanning_multiple_lines() {
    let res = parse("iter arr of item {\n\tprint(item)\n}");

    assert_eq!(
        res,
        Ok(Expr::new(
            ExprKind::For {
                collection: bx(ident("arr", 5, 8)),
                item: var("item", 12, 16),
                body: code(vec![call_ident("print", 20, 31, vec![ident("item", 26, 30)])], 20, 32),
            },
            sp(0, 33)
        ))
    );
}

#[test]
fn parse_for_loop_over_expression() {
    let res = parse("iter [\n\t\"some string\"\n\t12345\n] of item {\n\tprint(item)\n}");

    assert_eq!(
        res,
        Ok(Expr::new(
            ExprKind::For {
                collection: bx(arr(vec![string("some string", 8), n(12345, 23)], 5, 30)),
                item: var("item", 34, 38),
                body: code(vec![call_ident("print", 42, 53, vec![ident("item", 48, 52)])], 42, 54),
            },
            sp(0, 55)
        ))
    );
}

#[test]
fn parse_for_loop_over_if_else_expression() {
    let res = parse(
        "iter if a > 10 {\n\t\"this\"\n} else {\n\t[\"or\", \"this\"]\n} of item {\n\tprint(item)\n}",
    );

    assert_eq!(
        res,
        Ok(Expr::new(
            ExprKind::For {
                collection: bx(Expr::new(
                    ExprKind::IfElse {
                        condition: bx(bin_at(
                            BinExprKind::GreaterThan,
                            ident("a", 8, 9),
                            n(10, 12),
                            8,
                            14
                        )),
                        yes: code(vec![string("this", 18)], 18, 25),
                        no: code(vec![arr(vec![string("or", 36), string("this", 42)], 35, 49)], 35, 50)
                    },
                    sp(5, 51)
                )),
                item: var("item", 55, 59),
                body: code(vec![call_ident("print", 63, 74, vec![ident("item", 69, 73)])], 63, 75),
            },
            sp(0, 76)
        ))
    );
}

#[test]
fn parse_for_loop_with_break_expression_in_it() {
    let res = parse("iter arr of x {\n\tif x > 10 {\n\t\tbreak x\n\t}\n}");

    assert_eq!(
        res,
        Ok(Expr::new(
            ExprKind::For {
                collection: bx(ident("arr", 5, 8)),
                item: var("x", 12, 13),
                body: code(
                    vec![Expr::new(
                        ExprKind::If {
                            condition: bx(bin_at(
                                BinExprKind::GreaterThan,
                                ident("x", 20, 21),
                                n(10, 24),
                                20,
                                26
                            )),
                            yes: code(
                                vec![Expr::new(ExprKind::Break(bx(ident("x", 37, 38))), sp(31, 38))],
                                31,
                                39
                            )
                        },
                        sp(17, 41)
                    )],
                    17,
                    42
                ),
            },
            sp(0, 43)
        ))
    );
}

#[test]
fn parse_function_expr() {
    let res = parse("|x, y| -> x + y");

    assert_eq!(
        res,
        Ok(Expr::new(
            ExprKind::Function(Function {
                parameters: Parameters(vec![var("x", 1, 2), var("y", 4, 5)]),
                body: code(vec![plus(ident("x", 10, 11), ident("y", 14, 15))], 0, 0)
            }),
            sp(0, 15)
        ))
    );
}

#[test]
fn parse_function_expr_with_block_body() {
    let res = parse("|x, y| -> {\n\tlet local = 2 * x\n\tkok(local + y)\n}");

    assert_eq!(
        res,
        Ok(Expr::new(
            ExprKind::Function(Function {
                parameters: Parameters(vec![var("x", 1, 2), var("y", 4, 5)]),
                body: code(
                    vec![
                        Expr::new(
                            ExprKind::Declare(
                                var("local", 17, 22),
                                bx(times(n(2, 25), ident("x", 29, 30)))
                            ),
                            sp(13, 30)
                        ),
                        call_ident(
                            "kok",
                            32,
                            46,
                            vec![plus(ident("local", 36, 41), ident("y", 44, 45))]
                        ),
                    ],
                    13,
                    47
                )
            }),
            sp(0, 48)
        ))
    );
}

#[test]
fn parse_iife() {
    let res = parse("|x| -> {\n\tprint(x)\n}(123)");

    assert_eq!(
        res,
        Ok(call(
            Expr::new(
                ExprKind::Function(Function {
                    parameters: Parameters(vec![var("x", 1, 2)]),
                    body: code(vec![call_ident("print", 10, 18, vec![ident("x", 16, 17)])], 10, 19)
                }),
                sp(0, 20)
            ),
            0,
            25,
            vec![n(123, 21)]
        ))
    );
}

#[test]
fn parse_function_expression_with_zero_arguments() {
    let res = parse("|| -> { 123 }");

    assert_eq!(
        res,
        Ok(Expr::new(
            ExprKind::Function(Function {
                parameters: Parameters(vec![]),
                body: code(vec![n(123, 8)], 8, 11)
            }),
            sp(0, 13)
        ))
    );
}

#[test]
fn parse_lambda_expression_with_zero_arguments() {
    let res = parse("|| -> 123");

    assert_eq!(
        res,
        Ok(Expr::new(
            ExprKind::Function(Function {
                parameters: Parameters(vec![]),
                body: code(vec![n(123, 6)], 0, 0)
            }),
            sp(0, 9)
        ))
    );
}

#[test]
fn parse_function_expr_with_multiple_argument_delimited_by_newline() {
    let res = parse("|\n\tx\n\ty\n| -> {\n\tlet local = 2 * x\n\tkok(local + y)\n}");

    assert_eq!(
        res,
        Ok(Expr::new(
            ExprKind::Function(Function {
                parameters: Parameters(vec![var("x", 3, 4), var("y", 6, 7)]),
                body: code(
                    vec![
                        Expr::new(
                            ExprKind::Declare(
                                var("local", 20, 25),
                                bx(times(n(2, 28), ident("x", 32, 33)))
                            ),
                            sp(16, 33)
                        ),
                        call_ident(
                            "kok",
                            35,
                            49,
                            vec![plus(ident("local", 39, 44), ident("y", 47, 48))]
                        ),
                    ],
                    16,
                    50
                )
            }),
            sp(0, 51)
        ))
    );
}
