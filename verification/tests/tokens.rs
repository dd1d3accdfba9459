use dynlang::ast::Array;
use dynlang::ast::BinExpr;
use dynlang::ast::BinExprKind;
use dynlang::ast::Boolean;
use dynlang::ast::Code;
use dynlang::ast::Expr;
use dynlang::ast::ExprKind;
use dynlang::ast::Ident;
use dynlang::ast::Integer;
use dynlang::ast::Literal;
use dynlang::ast::Nil;
use dynlang::ast::Record;
use dynlang::ast::StringT;
use dynlang::ast::UnaryExpr;
use dynlang::ast::UnaryExprKind;
use dynlang::ast_clone::clone_code;
use dynlang::ast_clone::clone_expr;
use dynlang::ast_clone::clone_function;
use dynlang::ast_clone::clone_ident;
use dynlang::ast_clone::clone_kind;
use dynlang::ast_clone::clone_literal;
use dynlang::ast_eq::same_code;
use dynlang::ast_eq::same_expr;
use dynlang::ast_eq::same_function;
use dynlang::ast_eq::same_ident;
use dynlang::ast_eq::same_kind;
use dynlang::ast_eq::same_literal;
use dynlang::parser::parse;
use dynlang::span::HasSpan;
use dynlang::span::Span;
use dynlang::span::Spanned;
use dynlang::token::LexError;
use dynlang::token::QuoteKind;
use dynlang::token::QuotedString;
use dynlang::token::SpannedToken;
use dynlang::token::Token;
use dynlang::token::TokenKind;

fn s(a: usize, b: usize) -> Span {
    Span::new(a, b)
}

#[test]
fn tokens_as_they_are_written() {
    let fixed = [
        (Token::Whitespace, "[WS]"),
        (Token::Plus, "+"),
        (Token::Minus, "-"),
        (Token::Asterisk, "*"),
        (Token::Slash, "/"),
        (Token::Percent, "%"),
        (Token::Equal, "="),
        (Token::PlusEqual, "+="),
        (Token::MinusEqual, "-="),
        (Token::AsteriskEqual, "*="),
        (Token::SlashEqual, "/="),
        (Token::PercentEqual, "%="),
        (Token::EqualEqual, "=="),
        (Token::BangEqual, "!="),
        (Token::LeftAngledBracket, "<"),
        (Token::RightAngledBracket, ">"),
        (Token::LeftAngledBracketEqual, "<="),
        (Token::RightAngledBracketEqual, ">="),
        (Token::AndAnd, "&&"),
        (Token::PipePipe, "||"),
        (Token::LeftParenthesis, "("),
        (Token::RightParenthesis, ")"),
        (Token::LeftBrace, "{"),
        (Token::RightBrace, "}"),
        (Token::LeftBracket, "["),
        (Token::RightBracket, "]"),
        (Token::Bang, "!"),
        (Token::Dot, "."),
        (Token::DotDot, ".."),
        (Token::Comma, ","),
        (Token::Colon, ":"),
        (Token::Pipe, "|"),
        (Token::At, "@"),
        (Token::Arrow, "->"),
        (Token::Nil, "nil"),
        (Token::True, "true"),
        (Token::False, "false"),
        (Token::Panic, "panic"),
        (Token::Assert, "assert"),
        (Token::Let, "let"),
        (Token::LetMut, "let!"),
        (Token::If, "if"),
        (Token::Else, "else"),
        (Token::Iter, "iter"),
        (Token::Of, "of"),
        (Token::Return, "return"),
        (Token::Break, "break"),
        (Token::Continue, "continue"),
        (Token::Use, "use"),
        (Token::Export, "export"),
        (Token::NewLine, "\\n"),
    ];
    for (token, text) in &fixed {
        assert_eq!(token.to_source(), *text);
        // the kind of a plain token is written the same way
        assert_eq!(token.kind().source(), *text);
        assert_eq!(&token.kind().token(), token);
    }
    assert_eq!(Token::Integer(42).to_source(), "42");
    assert_eq!(Token::Integer(-42).to_source(), "-42");
    assert_eq!(Token::Integer(i32::MIN).to_source(), "-2147483648");
    assert_eq!(Token::Identifier("abc".to_owned()).to_source(), "abc");
    let single = QuotedString { content: "a b".to_owned(), quote: QuoteKind::Single };
    let double = QuotedString { content: "a b".to_owned(), quote: QuoteKind::Double };
    assert_eq!(Token::String(single.clone()).to_source(), "'a b'");
    assert_eq!(Token::String(double.clone()).to_source(), "\"a b\"");
    assert_eq!(single.into_string(), "a b");
    assert_eq!(double.into_string(), "a b");
    assert_eq!(Token::TemplateStringLeadingFragment("x".to_owned()).to_source(), "\"x{");
    assert_eq!(Token::TemplateStringCentralFragment("x".to_owned()).to_source(), "}x{");
    assert_eq!(Token::TemplateStringTrailingFragment("x".to_owned()).to_source(), "}x\"");
}

#[test]
fn kinds_of_tokens() {
    assert_eq!(Token::Integer(1).kind(), TokenKind::Integer);
    assert_eq!(Token::Identifier("a".to_owned()).kind(), TokenKind::Identifier);
    assert_eq!(
        Token::String(QuotedString { content: "".to_owned(), quote: QuoteKind::Single }).kind(),
        TokenKind::String
    );
    assert_eq!(Token::LineComment.kind(), TokenKind::LineComment);
    assert_eq!(Token::BlockComment.kind(), TokenKind::BlockComment);
    assert_eq!(Token::TemplateStringLeadingFragment("".to_owned()).kind(), TokenKind::TemplateStringLeadingFragment);
    assert_eq!(TokenKind::Integer.token(), Token::Integer(0));
    assert_eq!(TokenKind::Identifier.token(), Token::Identifier(String::new()));
    assert_eq!(
        TokenKind::String.token(),
        Token::String(QuotedString { content: String::new(), quote: QuoteKind::Double })
    );
    assert_eq!(TokenKind::LineComment.token(), Token::LineComment);
}

#[test]
fn spanned_tokens() {
    let t = SpannedToken::new(Token::Plus, s(1, 2));
    assert_eq!(t.token, Ok(Token::Plus));
    assert_eq!(t.span, s(1, 2));
    assert_eq!(t.span(), s(1, 2));
    let e = SpannedToken::new_err(LexError::InvalidIdentifier, s(3, 7));
    assert_eq!(e.token, Err(LexError::InvalidIdentifier));
    assert_eq!(e.span, s(3, 7));
    assert_eq!(e.clone(), e);
    let mut moved = t.clone();
    moved.set_span(s(5, 6));
    assert_eq!(moved, SpannedToken::new(Token::Plus, s(5, 6)));
    assert_eq!(t.clone().with_span(s(5, 6)), moved);
    let id = Token::Identifier("x".to_owned());
    assert_eq!(id.clone(), id);
}

#[test]
fn spans() {
    let a = Span::new(3, 8);
    assert_eq!(a.start(), 3);
    assert_eq!(a.end(), 8);
    assert_eq!(a.range(), 3..8);
    assert_eq!(a.tuple(), (3, 8));
    assert!(!a.is_dummy());
    assert!(Span::dummy().is_dummy());
    assert!(Span::new(0, 0).is_dummy());
    assert!(!Span::new(0, 1).is_dummy());
    assert_eq!(Span::dummy(), Span::new(0, 0));
    assert_eq!(Span::from(3..8), a);
    assert_eq!(Span::from((3, 8)), a);
}

#[test]
fn the_union_of_spans() {
    let a = Span::new(10, 20);
    let b = Span::new(30, 40);
    assert_eq!(a + b, Span::new(10, 40));
    assert_eq!(b + a, Span::new(10, 40));
    assert_eq!(a.union(b), a + b);
    assert_eq!(a + a, a);
    assert_eq!((a + b) + b, a + b);
    assert_eq!(Span::new(5, 50) + a, Span::new(5, 50));
    assert_eq!(Span::new(15, 18) + a, a);
    assert_eq!(Span::new(15, 25) + a, Span::new(10, 25));
    for (x, y) in [(a, b), (Span::new(0, 0), a), (Span::new(7, 7), Span::new(3, 3))] {
        let u = x + y;
        assert_eq!(u, y + x);
        assert_eq!(u.start, x.start.min(y.start));
        assert_eq!(u.end, x.end.max(y.end));
    }
}

#[test]
fn the_order_of_spans() {
    assert!(Span::new(10, 20) < Span::new(11, 100));
    assert!(Span::new(10, 100) < Span::new(10, 20));
    assert!(Span::new(11, 12) > Span::new(10, 100));
    assert!(Span::new(10, 20) > Span::new(10, 21));
    assert!(Span::new(10, 20) <= Span::new(10, 20));
    assert!(Span::new(10, 20) >= Span::new(10, 20));
    assert!(!(Span::new(10, 20) < Span::new(10, 20)));
    assert_eq!(Span::new(1, 2).partial_cmp(&Span::new(1, 2)), Some(std::cmp::Ordering::Equal));
    assert_eq!(Span::new(1, 3).partial_cmp(&Span::new(1, 2)), Some(std::cmp::Ordering::Less));
    assert_eq!(Span::new(2, 3).partial_cmp(&Span::new(1, 9)), Some(std::cmp::Ordering::Greater));
}

#[test]
fn spanned_values() {
    let mut v = Spanned::new(s(1, 2), 5);
    assert_eq!(*v.get(), 5);
    *v.get_mut() = 6;
    assert_eq!(*v.get(), 6);
    assert_eq!(v.span(), s(1, 2));
    v.set_span(s(3, 4));
    assert_eq!(v.span(), s(3, 4));
    let v = v.with_span(s(5, 6));
    assert_eq!(v, Spanned::new(s(5, 6), 6));
    assert_eq!(v.into_inner(), 6);
}

#[test]
fn leaves_of_the_tree() {
    assert_eq!(Nil::new(s(1, 4)).span(), s(1, 4));
    assert!(Nil::new_dummy().span().is_dummy());
    let b = Boolean::new(true, s(1, 5));
    assert!(b.value());
    assert_eq!(b.span(), s(1, 5));
    assert!(!Boolean::new_dummy(false).value());
    assert!(Boolean::new_dummy(false).span().is_dummy());
    let i = Integer::new(-3, s(0, 2));
    assert_eq!(i.value, -3);
    assert_eq!(i.span(), s(0, 2));
    assert_eq!(Integer::new_dummy(9).value, 9);
    let t = StringT::new("abc", s(0, 5));
    assert_eq!(t.value, "abc");
    assert_eq!(t.span(), s(0, 5));
    assert_eq!(t.into_string(), "abc");
    assert_eq!(StringT::new_dummy("x").value, "x");
    assert!(StringT::new_dummy("x").span().is_dummy());
}

#[test]
fn identifiers_are_equal_by_their_text() {
    let a = Ident::new("name", s(1, 5));
    assert_eq!(a.symbol(), "name");
    assert_eq!(a.span(), s(1, 5));
    assert_eq!(a, Ident::new("name", s(7, 11)));
    assert_eq!(a, Ident::new_dummy("name"));
    assert_ne!(a, Ident::new("other", s(1, 5)));
    assert_ne!(a, Ident::new("Name", s(1, 5)));
    assert_eq!(a.clone().into_symbol(), "name");
    // but not the same
    assert!(same_ident(&a, &Ident::new("name", s(1, 5))));
    assert!(!same_ident(&a, &Ident::new("name", s(7, 11))));
    assert!(!same_ident(&a, &Ident::new("other", s(1, 5))));
    assert!(same_ident(&clone_ident(&a), &a));
}

#[test]
fn nodes_of_the_tree() {
    let one = || Expr::new(ExprKind::Literal(Literal::Integer(Integer::new(1, s(0, 1)))), s(0, 1));
    let two = || Expr::new(ExprKind::Literal(Literal::Integer(Integer::new(2, s(4, 5)))), s(4, 5));
    let a = Array::new(vec![one(), two()], s(0, 9));
    assert_eq!(a.elements.len(), 2);
    assert_eq!(a.span(), s(0, 9));
    assert!(Array::new_dummy(vec![]).span().is_dummy());
    let b = BinExpr::new(BinExprKind::Add, one(), two(), s(0, 5));
    assert_eq!(b.op, BinExprKind::Add);
    assert_eq!(*b.lhs, one());
    assert_eq!(*b.rhs, two());
    assert_eq!(b.span(), s(0, 5));
    let e = Expr::new_lalr_binexpr((0, (one(), BinExprKind::Add, two()), 5));
    assert_eq!(e, Expr::new(ExprKind::BinExpr(b), s(0, 5)));
    let u = Expr::new_lalr_unaryexpr((0, (UnaryExprKind::Not, one()), 2));
    assert_eq!(
        u,
        Expr::new(
            ExprKind::UnaryExpr(UnaryExpr { span: s(0, 2), op: UnaryExprKind::Not, expr: Box::new(one()) }),
            s(0, 2)
        )
    );
    assert!(Expr::new_dummy(ExprKind::Literal(Literal::Nil(Nil::new_dummy()))).span().is_dummy());
    let c = Code::new(vec![one()], s(0, 1));
    assert_eq!(c.stmts, vec![one()]);
    assert_eq!(c.span(), s(0, 1));
    assert!(Code::new_dummy(vec![]).span().is_dummy());
    assert_eq!(Record { span: s(0, 2), fields: vec![] }.span(), s(0, 2));
}

#[test]
fn moving_a_node_keeps_what_it_holds() {
    let e = parse("a + 1").unwrap();
    let moved = e.clone().with_span(s(7, 9));
    assert_eq!(moved.span(), s(7, 9));
    assert_eq!(moved.kind, e.kind);
    let mut again = e.clone();
    again.set_span(s(7, 9));
    assert_eq!(again, moved);
    let mut i = Ident::new("x", s(0, 1));
    i.set_span(s(2, 3));
    assert!(same_ident(&i, &Ident::new("x", s(2, 3))));
    assert_eq!(Integer::new(4, s(0, 1)).with_span(s(1, 2)), Integer::new(4, s(1, 2)));
}

#[test]
fn a_copy_of_a_tree_is_the_same_tree() {
    for code in [
        "nil",
        "a",
        "1 + 2 * -x",
        "[1, 'a', [true]]",
        "{a: 1, b: {c: nil}}",
        "|x, y| -> { let z = x\nz + y }",
        "f(a, b)(c)[d].e",
        "a = b += 1",
        "let a = let! b = 1",
        "if a { 1 } else { 2 }",
        "if a { 1 }",
        "iter xs of x { x -= 1\nx *= 2\nx /= 3\nx %= 4 }",
        "return break continue panic assert 1",
    ] {
        let e = parse(code).unwrap();
        let copy = clone_expr(&e);
        assert_eq!(copy, e, "{}", code);
        assert!(same_expr(&copy, &e), "{}", code);
        assert!(same_kind(&clone_kind(&e.kind), &e.kind), "{}", code);
        assert_eq!(e.clone(), e, "{}", code);
        assert_eq!(e.kind.clone(), e.kind, "{}", code);
    }
}

#[test]
fn trees_that_differ_are_not_the_same() {
    let same = |a: &str, b: &str| same_expr(&parse(a).unwrap(), &parse(b).unwrap());
    assert!(same("1 + 2", "1 + 2"));
    assert!(!same("1 + 2", "1 + 3"));
    assert!(!same("1 + 2", "1 - 2"));
    assert!(!same("1 + 2", "1  + 2"));
    assert!(!same("a", "b"));
    assert!(!same("a", "1"));
    assert!(!same("[1]", "[1, 2]"));
    assert!(!same("[1]", "{}"));
    assert!(!same("{a: 1}", "{b: 1}"));
    assert!(!same("f(a)", "f(b)"));
    assert!(!same("f(a)", "f[a]"));
    assert!(!same("a = 1", "a += 1"));
    assert!(!same("let a = 1", "a = 1"));
    assert!(!same("if a { 1 }", "if a { 2 }"));
    assert!(!same("if a { b } else { c }", "if a { b } else { d }"));
    assert!(!same("|x| -> x", "|y| -> y"));
    assert!(!same("- 1", "! 1"));
    assert!(!same("return 1", "break  1"));
    assert!(same_literal(&Literal::Nil(Nil::new(s(0, 3))), &clone_literal(&Literal::Nil(Nil::new(s(0, 3))))));
    assert!(!same_literal(&Literal::Nil(Nil::new(s(0, 3))), &Literal::Nil(Nil::new(s(1, 4)))));
    assert!(!same_literal(
        &Literal::Boolean(Boolean::new(true, s(0, 4))),
        &Literal::Boolean(Boolean::new(false, s(0, 4)))
    ));
    assert!(!same_literal(
        &Literal::Integer(Integer::new(1, s(0, 1))),
        &Literal::String(StringT::new("1", s(0, 1)))
    ));
}

#[test]
fn copies_of_blocks_and_functions() {
    let e = parse("|a| -> { a\nb }").unwrap();
    let ExprKind::Function(f) = &e.kind else { panic!() };
    assert!(same_function(&clone_function(f), f));
    assert_eq!(f.clone(), *f);
    assert!(same_code(&clone_code(&f.body), &f.body));
    assert_eq!(f.body.clone(), f.body);
    let g = parse("|a| -> { a\nc }").unwrap();
    let ExprKind::Function(g) = &g.kind else { panic!() };
    assert!(!same_function(f, g));
    assert!(!same_code(&f.body, &g.body));
}

#[test]
fn a_quoted_string_turns_into_its_text() {
    let quoted = QuotedString { content: "a b".to_string(), quote: QuoteKind::Double };
    assert_eq!(String::from(quoted), "a b");
}

#[test]
fn an_infix_expression_turns_into_an_expression_at_its_span() {
    let one = Expr::new(ExprKind::Literal(Literal::Integer(Integer::new(1, Span::new(0, 1)))), Span::new(0, 1));
    let two = Expr::new(ExprKind::Literal(Literal::Integer(Integer::new(2, Span::new(4, 5)))), Span::new(4, 5));
    let sum = BinExpr::new(BinExprKind::Add, one, two, Span::new(0, 5));
    let e = Expr::from(sum);
    assert_eq!(e.span, Span::new(0, 5));
    match e.kind {
        ExprKind::BinExpr(b) => {
            assert_eq!(b.op, BinExprKind::Add);
            assert_eq!(b.span, Span::new(0, 5));
        }
        other => panic!("{:?}", other),
    }
    let three = Expr::new_dummy(ExprKind::Literal(Literal::Integer(Integer::new_dummy(3))));
    let four = Expr::new_dummy(ExprKind::Literal(Literal::Integer(Integer::new_dummy(4))));
    let kind = ExprKind::from(BinExpr::new(BinExprKind::Mul, three, four, Span::new(2, 7)));
    assert!(matches!(kind, ExprKind::BinExpr(_)));
}
