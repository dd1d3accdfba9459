use dynlang::ast::BinExprKind;
use dynlang::ast::Code;
use dynlang::ast::Expr;
use dynlang::ast::ExprKind;
use dynlang::ast::Ident;
use dynlang::ast::Integer;
use dynlang::ast::Literal;
use dynlang::ast::Record;
use dynlang::ast::UnaryExprKind;
use dynlang::grammar::Expectation;
use dynlang::lexer::tokenize;
use dynlang::lexer::LexerConfig;
use dynlang::parser::expected_list;
use dynlang::parser::parse;
use dynlang::parser::parse_code;
use dynlang::parser::parse_code_tokens;
use dynlang::parser::parse_expr;
use dynlang::parser::parse_stmts;
use dynlang::parser::parse_tokens;
use dynlang::parser::ParseError;
use dynlang::span::Span;
use dynlang::span::Spanned;
use dynlang::token::LexError;
use dynlang::token::Token;
use dynlang::token::TokenKind;

fn sp(start: usize, end: usize) -> Span {
    Span::new(start, end)
}

fn n(v: i32, start: usize) -> Expr {
    let span = sp(start, start + v.to_string().len());
    Expr::new(ExprKind::Literal(Literal::Integer(Integer::new(v, span))), span)
}

fn ident(name: &str, start: usize) -> Expr {
    let span = sp(start, start + name.len());
    Expr::new(ExprKind::Ident(Ident::new(name, span)), span)
}

fn bin(op: BinExprKind, lhs: Expr, rhs: Expr) -> Expr {
    let span = lhs.span + rhs.span;
    Expr::new_lalr_binexpr((span.start, (lhs, op, rhs), span.end))
}

// The shape of an expression, with every infix and prefix expression in
// parentheses.
fn shape(e: &Expr) -> String {
    match &e.kind {
        ExprKind::Literal(Literal::Integer(i)) => i.value.to_string(),
        ExprKind::Literal(Literal::Boolean(b)) => b.value.to_string(),
        ExprKind::Literal(Literal::Nil(_)) => "nil".to_owned(),
        ExprKind::Literal(Literal::String(s)) => format!("'{}'", s.value),
        ExprKind::Ident(i) => i.symbol.clone(),
        ExprKind::BinExpr(b) => {
            let op = match b.op {
                BinExprKind::Add => "+",
                BinExprKind::Sub => "-",
                BinExprKind::Mul => "*",
                BinExprKind::Div => "/",
                BinExprKind::Mod => "%",
                BinExprKind::Equal => "==",
                BinExprKind::NotEqual => "!=",
                BinExprKind::LessThan => "<",
                BinExprKind::GreaterThan => ">",
                BinExprKind::LessThanEqual => "<=",
                BinExprKind::GreaterThanEqual => ">=",
                BinExprKind::And => "&&",
                BinExprKind::Or => "||",
            };
            format!("({} {} {})", shape(&b.lhs), op, shape(&b.rhs))
        }
        ExprKind::UnaryExpr(u) => match u.op {
            UnaryExprKind::Minus => format!("(-{})", shape(&u.expr)),
            UnaryExprKind::Not => format!("(!{})", shape(&u.expr)),
        },
        ExprKind::Call(f, args) => {
            let args: Vec<String> = args.0.iter().map(shape).collect();
            format!("{}({})", shape(f), args.join(", "))
        }
        ExprKind::Index(a, i) => format!("{}[{}]", shape(a), shape(i)),
        ExprKind::Prop(a, i) => format!("{}.{}", shape(a), i.symbol),
        ExprKind::Assign(i, e) => format!("({} = {})", i.symbol, shape(e)),
        ExprKind::AddAssign(i, e) => format!("({} += {})", i.symbol, shape(e)),
        ExprKind::Declare(i, e) => format!("(let {} = {})", i.symbol, shape(e)),
        ExprKind::DeclareMut(i, e) => format!("(let! {} = {})", i.symbol, shape(e)),
        ExprKind::Return(e) => format!("(return {})", shape(e)),
        ExprKind::Array(a) => {
            let items: Vec<String> = a.elements.iter().map(shape).collect();
            format!("[{}]", items.join(", "))
        }
        ExprKind::Record(r) => {
            let items: Vec<String> =
                r.fields.iter().map(|(k, v)| format!("{}: {}", k.symbol, shape(v))).collect();
            format!("{{{}}}", items.join(", "))
        }
        ExprKind::Function(f) => {
            let names: Vec<&str> = f.parameters.0.iter().map(|p| p.symbol.as_str()).collect();
            format!("|{}| -> {}", names.join(", "), shapes(&f.body))
        }
        ExprKind::If { condition, yes } => format!("if {} {}", shape(condition), shapes(yes)),
        ExprKind::IfElse { condition, yes, no } => {
            format!("if {} {} else {}", shape(condition), shapes(yes), shapes(no))
        }
        ExprKind::For { collection, item, body } => {
            format!("iter {} of {} {}", shape(collection), item.symbol, shapes(body))
        }
        other => format!("{:?}", other),
    }
}

fn shapes(code: &Code) -> String {
    let stmts: Vec<String> = code.stmts.iter().map(shape).collect();
    format!("{{{}}}", stmts.join("; "))
}

fn parsed(code: &str) -> String {
    shape(&parse(code).unwrap())
}

fn program(code: &str) -> String {
    shapes(&parse_code(code).unwrap())
}

#[test]
fn multiplication_binds_tighter_than_addition() {
    assert_eq!(parse("1 + 2 * 3"), Ok(bin(BinExprKind::Add, n(1, 0), bin(BinExprKind::Mul, n(2, 4), n(3, 8)))));
    assert_eq!(parsed("1 + 2 * 3"), "(1 + (2 * 3))");
    assert_eq!(parsed("1 * 2 + 3"), "((1 * 2) + 3)");
    assert_eq!(parsed("(1 + 2) * 3"), "((1 + 2) * 3)");
}

#[test]
fn the_levels_of_infix_operators() {
    assert_eq!(
        parsed("a || b && c == d < e + f * g"),
        "(a || (b && (c == (d < (e + (f * g))))))"
    );
    assert_eq!(
        parsed("a * b + c < d == e && f || g"),
        "((((((a * b) + c) < d) == e) && f) || g)"
    );
    assert_eq!(parsed("a != b >= c"), "(a != (b >= c))");
    assert_eq!(parsed("a <= b - c"), "(a <= (b - c))");
    assert_eq!(parsed("a > b / c"), "(a > (b / c))");
    assert_eq!(parsed("a - b % c"), "(a - (b % c))");
}

#[test]
fn infix_operators_group_to_the_left() {
    assert_eq!(parsed("a - b - c"), "((a - b) - c)");
    assert_eq!(parsed("a / b / c"), "((a / b) / c)");
    assert_eq!(parsed("a / b * c % d"), "(((a / b) * c) % d)");
    assert_eq!(parsed("a + b - c + d"), "(((a + b) - c) + d)");
    assert_eq!(parsed("a == b != c"), "((a == b) != c)");
    assert_eq!(parsed("a < b > c"), "((a < b) > c)");
    assert_eq!(parsed("a && b && c"), "((a && b) && c)");
    assert_eq!(parsed("a || b || c"), "((a || b) || c)");
}

#[test]
fn prefix_operators_bind_tighter_than_infix_operators() {
    assert_eq!(parsed("- a * b"), "((-a) * b)");
    assert_eq!(parsed("!a && b"), "((!a) && b)");
    assert_eq!(parsed("- - a"), "(-(-a))");
    assert_eq!(parsed("!-a"), "(!(-a))");
    assert_eq!(parsed("a - - b"), "(a - (-b))");
}

#[test]
fn postfix_operators_bind_tighter_than_prefix_operators() {
    assert_eq!(parsed("- f(x)"), "(-f(x))");
    assert_eq!(parsed("!a[0]"), "(!a[0])");
    assert_eq!(parsed("- a.b"), "(-a.b)");
    assert_eq!(parsed("a.b.c"), "a.b.c");
    assert_eq!(parsed("a.b(c)[d].e"), "a.b(c)[d].e");
    assert_eq!(parsed("f(x)(y)(z)"), "f(x)(y)(z)");
    assert_eq!(parsed("a[1][2][3]"), "a[1][2][3]");
}

#[test]
fn assignments_take_everything_to_their_right() {
    assert_eq!(parsed("a = b = c"), "(a = (b = c))");
    assert_eq!(parsed("a = b + c"), "(a = (b + c))");
    assert_eq!(parsed("a += b || c"), "(a += (b || c))");
    assert_eq!(parsed("let a = b == c"), "(let a = (b == c))");
    assert_eq!(parsed("let! a = let b = 1"), "(let! a = (let b = 1))");
    assert_eq!(parsed("return a + b"), "(return (a + b))");
    assert_eq!(parsed("a = |x| -> x + 1"), "(a = |x| -> {(x + 1)})");
}

#[test]
fn only_a_bare_name_can_be_assigned_to() {
    assert!(matches!(parse("a[0] = 1"), Err(ParseError::ExtraToken { .. })));
    assert!(matches!(parse("a.b = 1"), Err(ParseError::ExtraToken { .. })));
    assert!(matches!(parse("(a) = 1"), Err(ParseError::ExtraToken { .. })));
    assert!(matches!(parse("1 = 1"), Err(ParseError::ExtraToken { .. })));
    assert!(matches!(parse("a + b = 1"), Err(ParseError::ExtraToken { .. })));
}

#[test]
fn a_statement_form_as_an_operand_needs_parentheses() {
    assert_eq!(parsed("1 + (let a = 2)"), "(1 + (let a = 2))");
    assert!(parse("1 + let a = 2").is_err());
    assert_eq!(parsed("!(a = b)"), "(!(a = b))");
    assert!(parse("!a = b").is_err());
}

#[test]
fn a_negative_literal_is_no_subtraction() {
    // the number takes the minus: two literals side by side
    assert!(parse("1 -2").is_err());
    assert_eq!(parsed("1 - 2"), "(1 - 2)");
    assert_eq!(parsed("1 - -2"), "(1 - -2)");
}

#[test]
fn a_newline_after_a_literal_ends_the_statement() {
    assert_eq!(program("a = 1\n-3"), "{(a = 1); -3}");
    assert_eq!(program("a = 1\n- 3"), "{(a = 1); (-3)}");
    assert_eq!(program("a = 1 -\n3"), "{(a = (1 - 3))}");
    let code = parse_code("a = 1\n- 3").unwrap();
    assert_eq!(code.stmts.len(), 2);
    assert_eq!(
        code.stmts[1],
        Expr::new_lalr_unaryexpr((6, (UnaryExprKind::Minus, n(3, 8)), 9))
    );
    // a + does not start a statement
    assert!(parse_code("a = 1 + 2\n+ 3").is_err());
}

#[test]
fn a_newline_after_an_operator_goes_on() {
    assert_eq!(parsed("1 +\n2"), "(1 + 2)");
    assert_eq!(parsed("a =\n1"), "(a = 1)");
    assert_eq!(parsed("f(\n)"), "f()");
    assert_eq!(parsed("[\n]"), "[]");
    assert_eq!(parsed("(\n1\n)"), "1");
    assert_eq!(parsed("a[\n1\n]"), "a[1]");
}

#[test]
fn programs() {
    assert_eq!(program(""), "{}");
    assert_eq!(program("\n"), "{}");
    assert_eq!(program("1"), "{1}");
    assert_eq!(program("1\n"), "{1}");
    assert_eq!(program("1\n2\n\n\n3\n"), "{1; 2; 3}");
    assert_eq!(program("// c\na\n/* d */\nb"), "{a; b}");
    assert_eq!(program("let a = 1\nlet b = a + 1\nb"), "{(let a = 1); (let b = (a + 1)); b}");
}

#[test]
fn the_span_of_a_program() {
    assert_eq!(parse_code("").unwrap().span, sp(0, 0));
    assert_eq!(parse_code("// c").unwrap().span, sp(0, 0));
    assert_eq!(parse_code("1").unwrap().span, sp(0, 1));
    assert_eq!(parse_code("1\n").unwrap().span, sp(0, 2));
    assert_eq!(parse_code("  1 + 2\n3\n").unwrap().span, sp(2, 10));
    assert_eq!(parse_code("// c\n1").unwrap().span, sp(5, 6));
}

#[test]
fn statements_stand_on_lines_of_their_own() {
    assert_eq!(
        parse_code("a b"),
        Err(ParseError::UnrecognizedToken {
            token: (2, Token::Identifier("b".to_owned()), 3),
            expected: vec![TokenKind::NewLine, TokenKind::RightBrace],
        })
    );
    assert!(parse_code("if a { b c }").is_err());
    assert_eq!(program("if a { b\nc }"), "{if a {b; c}}");
}

#[test]
fn record_literals() {
    assert_eq!(parsed("{}"), "{}");
    assert_eq!(parsed("{a: 1}"), "{a: 1}");
    assert_eq!(parsed("{a: 1, b: x + 1,}"), "{a: 1, b: (x + 1)}");
    assert_eq!(parsed("{\n\ta: 1\n\tb: 2\n}"), "{a: 1, b: 2}");
    assert_eq!(parsed("{a: {b: []}}"), "{a: {b: []}}");
    assert_eq!(parsed("{a: 1}.a"), "{a: 1}.a");
    assert_eq!(
        parse("{ab: 1}"),
        Ok(Expr::new(
            ExprKind::Record(Record { span: sp(0, 7), fields: vec![(Ident::new("ab", sp(1, 3)), n(1, 5))] }),
            sp(0, 7)
        ))
    );
    assert!(parse("{a}").is_err());
    assert!(parse("{a: }").is_err());
    assert!(parse("{1: 2}").is_err());
    assert!(parse("{a: 1 b: 2}").is_err());
}

#[test]
fn lists() {
    assert_eq!(parsed("[1, 2, 3]"), "[1, 2, 3]");
    assert_eq!(parsed("[1, 2, 3,]"), "[1, 2, 3]");
    assert_eq!(parsed("[1\n2\n3\n]"), "[1, 2, 3]");
    assert_eq!(parsed("[1,\n2\n,3]"), "[1, 2, 3]");
    assert_eq!(parsed("f(a, b,)"), "f(a, b)");
    assert!(parse("[1 2]").is_err());
    assert!(parse("[,]").is_err());
    assert!(parse("[1").is_err());
    assert!(parse("f(a").is_err());
}

#[test]
fn functions() {
    assert_eq!(parsed("|| -> 1"), "|| -> {1}");
    assert_eq!(parsed("|x| -> x"), "|x| -> {x}");
    assert_eq!(parsed("|x, y,| -> { x\ny }"), "|x, y| -> {x; y}");
    assert_eq!(parsed("|x| -> |y| -> x + y"), "|x| -> {|y| -> {(x + y)}}");
    assert_eq!(parsed("|x| -> { }"), "|x| -> {}");
    // after the arrow a brace opens a block, not a record
    assert!(parse("|| -> {a: 1}").is_err());
    assert_eq!(parsed("|| -> ({a: 1})"), "|| -> {{a: 1}}");
    assert!(parse("|x| x").is_err());
    assert!(parse("|x -> x").is_err());
    assert!(parse("|1| -> x").is_err());
}

#[test]
fn conditions_and_loops() {
    assert_eq!(parsed("if a { b }"), "if a {b}");
    assert_eq!(parsed("if a { b } else { c }"), "if a {b} else {c}");
    assert_eq!(parsed("if a { } else { }"), "if a {} else {}");
    assert_eq!(parsed("if a { if b { c } else { d } }"), "if a {if b {c} else {d}}");
    assert_eq!(parsed("iter a of b { c }"), "iter a of b {c}");
    assert_eq!(parsed("1 + if a { 2 } else { 3 }"), "(1 + if a {2} else {3})");
    assert!(parse("if a b").is_err());
    assert!(parse("if { a }").is_err());
    assert!(parse("if a { b } else c").is_err());
    assert!(parse("iter a { b }").is_err());
    assert!(parse("iter a of 1 { b }").is_err());
    // an else on the next line belongs to nothing
    assert!(parse_code("if a { b }\nelse { c }").is_err());
}

#[test]
fn the_end_of_the_input_where_more_is_needed() {
    assert_eq!(
        parse("1 +"),
        Err(ParseError::UnrecognizedEof { location: 3, expected: expected_list(Expectation::Expression) })
    );
    assert_eq!(
        parse(""),
        Err(ParseError::UnrecognizedEof { location: 0, expected: expected_list(Expectation::Expression) })
    );
    assert_eq!(
        parse("let"),
        Err(ParseError::UnrecognizedEof { location: 3, expected: vec![TokenKind::Identifier] })
    );
    assert_eq!(
        parse("let a"),
        Err(ParseError::UnrecognizedEof { location: 5, expected: vec![TokenKind::Equal] })
    );
    assert_eq!(
        parse("(1"),
        Err(ParseError::UnrecognizedEof { location: 2, expected: vec![TokenKind::RightParenthesis] })
    );
    assert_eq!(
        parse("a[1"),
        Err(ParseError::UnrecognizedEof { location: 3, expected: vec![TokenKind::RightBracket] })
    );
    assert_eq!(
        parse("a."),
        Err(ParseError::UnrecognizedEof { location: 2, expected: vec![TokenKind::Identifier] })
    );
    assert_eq!(
        parse("if a"),
        Err(ParseError::UnrecognizedEof { location: 4, expected: vec![TokenKind::LeftBrace] })
    );
    assert_eq!(
        parse("|x|"),
        Err(ParseError::UnrecognizedEof { location: 3, expected: vec![TokenKind::Arrow] })
    );
    assert_eq!(
        parse("iter a"),
        Err(ParseError::UnrecognizedEof { location: 6, expected: vec![TokenKind::Of] })
    );
    assert_eq!(
        parse("[1"),
        Err(ParseError::UnrecognizedEof {
            location: 2,
            expected: vec![TokenKind::Comma, TokenKind::NewLine, TokenKind::RightBracket]
        })
    );
}

#[test]
fn a_token_where_it_cannot_stand() {
    assert_eq!(
        parse(")"),
        Err(ParseError::UnrecognizedToken {
            token: (0, Token::RightParenthesis, 1),
            expected: expected_list(Expectation::Expression)
        })
    );
    assert_eq!(
        parse("1 + *"),
        Err(ParseError::UnrecognizedToken {
            token: (4, Token::Asterisk, 5),
            expected: expected_list(Expectation::Expression)
        })
    );
    assert_eq!(
        parse("let 1 = 2"),
        Err(ParseError::UnrecognizedToken {
            token: (4, Token::Integer(1), 5),
            expected: vec![TokenKind::Identifier]
        })
    );
    assert_eq!(
        parse("f(a b)"),
        Err(ParseError::UnrecognizedToken {
            token: (4, Token::Identifier("b".to_owned()), 5),
            expected: vec![TokenKind::Comma, TokenKind::NewLine, TokenKind::RightParenthesis]
        })
    );
    assert_eq!(
        parse("use"),
        Err(ParseError::UnrecognizedToken {
            token: (0, Token::Use, 3),
            expected: expected_list(Expectation::Expression)
        })
    );
    for code in ["export", "..", ":", "@", "else", "of", "=", "->", ","] {
        assert!(matches!(parse(code), Err(ParseError::UnrecognizedToken { .. })), "{}", code);
    }
}

#[test]
fn a_token_after_an_expression_that_is_complete() {
    assert_eq!(parse("1 2"), Err(ParseError::ExtraToken { token: (2, Token::Integer(2), 3) }));
    assert_eq!(parse("a)"), Err(ParseError::ExtraToken { token: (1, Token::RightParenthesis, 2) }));
    assert_eq!(parse("1\n"), Err(ParseError::ExtraToken { token: (1, Token::NewLine, 2) }));
    assert_eq!(parse("1\n2"), Err(ParseError::ExtraToken { token: (1, Token::NewLine, 2) }));
}

#[test]
fn a_lexical_error_where_the_parser_meets_it() {
    assert_eq!(
        parse("$"),
        Err(ParseError::User { error: Spanned::new(sp(0, 1), LexError::InvalidToken) })
    );
    assert_eq!(
        parse("1 + 2x"),
        Err(ParseError::User { error: Spanned::new(sp(4, 6), LexError::InvalidIdentifier) })
    );
    assert_eq!(
        parse("1 $"),
        Err(ParseError::User { error: Spanned::new(sp(2, 3), LexError::InvalidToken) })
    );
    assert_eq!(
        parse_code("a\n'b"),
        Err(ParseError::User { error: Spanned::new(sp(2, 3), LexError::InvalidToken) })
    );
    // the first error in the order of the text is the one reported
    assert_eq!(
        parse(") $"),
        Err(ParseError::UnrecognizedToken {
            token: (0, Token::RightParenthesis, 1),
            expected: expected_list(Expectation::Expression)
        })
    );
}

#[test]
fn what_an_expectation_accepts() {
    assert_eq!(expected_list(Expectation::Kind(TokenKind::Colon)), vec![TokenKind::Colon]);
    assert_eq!(expected_list(Expectation::StatementEnd), vec![TokenKind::NewLine, TokenKind::RightBrace]);
    assert_eq!(
        expected_list(Expectation::ItemEnd(TokenKind::Pipe)),
        vec![TokenKind::Comma, TokenKind::NewLine, TokenKind::Pipe]
    );
    let starts = expected_list(Expectation::Expression);
    assert_eq!(starts.len(), 22);
    assert_eq!(starts[0], TokenKind::Identifier);
    assert!(starts.contains(&TokenKind::PipePipe));
    assert!(!starts.contains(&TokenKind::Plus));
}

#[test]
fn parsing_from_tokens() {
    let tokens = tokenize("a + 1\nb", LexerConfig::default());
    assert_eq!(parse_expr(&tokens, 0), Ok((bin(BinExprKind::Add, ident("a", 0), n(1, 4)), 3)));
    assert_eq!(parse_expr(&tokens, 2), Ok((n(1, 4), 3)));
    assert_eq!(parse_expr(&tokens, 4), Ok((ident("b", 6), 5)));
    assert!(parse_expr(&tokens, 5).is_err());
    assert!(parse_expr(&tokens, 99).is_err());
    assert!(parse_tokens(&tokens).is_err());
    assert_eq!(parse_code_tokens(&tokens).map(|c| c.stmts.len()), Ok(2));
    let (code, end) = parse_stmts(&tokens, 0, None).unwrap();
    assert_eq!(end, 5);
    assert_eq!(code.span, sp(0, 7));
    let tokens = tokenize("{ a\nb }", LexerConfig::default());
    let (code, end) = parse_stmts(&tokens, 1, Some(TokenKind::RightBrace)).unwrap();
    assert_eq!(end, 4);
    assert_eq!(code.stmts.len(), 2);
    assert_eq!(code.span, sp(2, 5));
    // tokens of another configuration are read as they are
    let tokens = tokenize("a b", LexerConfig { ignore_whitespace: false, ..Default::default() });
    assert_eq!(
        parse_tokens(&tokens),
        Err(ParseError::ExtraToken { token: (1, Token::Whitespace, 2) })
    );
}

fn inside(inner: Span, outer: Span) -> bool {
    outer.start <= inner.start && inner.end <= outer.end
}

fn all_inside(items: &[Expr], outer: Span) -> bool {
    items.iter().all(|e| inside(e.span, outer) && encloses(e))
}

fn block_inside(code: &Code, outer: Span) -> bool {
    inside(code.span, outer) && all_inside(&code.stmts, code.span)
}

// Whether every node of the tree encloses its children.
fn encloses(e: &Expr) -> bool {
    let part = |x: &Expr| inside(x.span, e.span) && encloses(x);
    match &e.kind {
        ExprKind::Literal(Literal::Nil(l)) => l.span == e.span,
        ExprKind::Literal(Literal::Boolean(l)) => l.span == e.span,
        ExprKind::Literal(Literal::Integer(l)) => l.span == e.span,
        ExprKind::Literal(Literal::String(l)) => l.span == e.span,
        ExprKind::Ident(i) => i.span == e.span,
        ExprKind::Array(a) => a.span == e.span && all_inside(&a.elements, e.span),
        ExprKind::Record(r) => {
            r.span == e.span && r.fields.iter().all(|(k, v)| inside(k.span, e.span) && part(v))
        }
        ExprKind::Function(f) => {
            f.parameters.0.iter().all(|p| inside(p.span, e.span))
                && (f.body.span.is_dummy() || inside(f.body.span, e.span))
                && all_inside(&f.body.stmts, e.span)
        }
        ExprKind::Call(f, args) => part(f) && all_inside(&args.0, e.span),
        ExprKind::Prop(t, name) => part(t) && inside(name.span, e.span),
        ExprKind::Index(t, i) => part(t) && part(i),
        ExprKind::UnaryExpr(u) => u.span == e.span && part(&u.expr),
        ExprKind::BinExpr(b) => b.span == e.span && part(&b.lhs) && part(&b.rhs),
        ExprKind::Assign(i, r)
        | ExprKind::AddAssign(i, r)
        | ExprKind::SubAssign(i, r)
        | ExprKind::MulAssign(i, r)
        | ExprKind::DivAssign(i, r)
        | ExprKind::ModAssign(i, r)
        | ExprKind::Declare(i, r)
        | ExprKind::DeclareMut(i, r) => inside(i.span, e.span) && part(r),
        ExprKind::If { condition, yes } => part(condition) && block_inside(yes, e.span),
        ExprKind::IfElse { condition, yes, no } => {
            part(condition) && block_inside(yes, e.span) && block_inside(no, e.span)
        }
        ExprKind::For { collection, item, body } => {
            part(collection) && inside(item.span, e.span) && block_inside(body, e.span)
        }
        ExprKind::Panic(x)
        | ExprKind::Assert(x)
        | ExprKind::Return(x)
        | ExprKind::Break(x)
        | ExprKind::Continue(x) => part(x),
    }
}

#[test]
fn every_node_encloses_its_children() {
    for code in [
        "1",
        "  a  ",
        "(((a)))",
        "1 + 2 * (3 - x) / -y % !z",
        "f(a, g(b)[c].d)(e)",
        "[1, [2, [3, []]], {a: {b: 1}, c: [x]}]",
        "a = b += let c = let! d = 1",
        "|x, y| -> x + y",
        "|x| -> {\n\tlet y = x\n\ty\n}(1)",
        "|| -> || -> { }",
        "if a { } else { if b { c } }",
        "iter [\n1\n2\n] of i {\n\tif i > 1 { f(i) }\n\n}",
        "return break continue panic assert (1)",
        "{\n\ta: |x| -> {\n\t\tx\n\t},\n}.a(\n\t1\n)",
    ] {
        let e = parse(code).unwrap();
        assert!(encloses(&e), "{}", code);
        assert!(inside(e.span, sp(0, code.len())), "{}", code);
    }
    for code in ["", "\n", "a\nb\n", "// c\n  f(x)\n\n  g(y) // d\n", "if a {\n}\nb"] {
        let c = parse_code(code).unwrap();
        assert!(block_inside(&c, sp(0, code.len())), "{}", code);
    }
}
