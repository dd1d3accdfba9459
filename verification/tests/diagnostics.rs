use dynlang::ast::BinExprKind;
use dynlang::ast::Ident;
use dynlang::ast::UnaryExprKind;
use dynlang::diagnostics::display_vec;
use dynlang::diagnostics::value_to_message;
use dynlang::error::InterpreterError;
use dynlang::error::ReferenceError;
use dynlang::error::RuntimeError;
use dynlang::error::TypeError;
use dynlang::interpreter::Interpreter;
use dynlang::parser::parse;
use dynlang::parser::ParseError;
use dynlang::span::Span;
use dynlang::span::Spanned;
use dynlang::token::LexError;
use dynlang::token::Token;
use dynlang::token::TokenKind;
use dynlang::value::NoBuiltins;
use dynlang::value::Value;

fn s(a: usize, b: usize) -> Span {
    Span::new(a, b)
}

fn label(a: usize, b: usize, text: &str) -> (Span, String) {
    (s(a, b), text.to_owned())
}

fn bin(op: BinExprKind, lhs: Value, rhs: Value) -> TypeError {
    TypeError::BinOp { op, lhs, lhs_span: s(0, 1), rhs, rhs_span: s(4, 5) }
}

fn failure(code: &str) -> InterpreterError {
    Interpreter::init().run(code, &NoBuiltins).unwrap_err()
}

#[test]
fn lists_are_set_apart_by_commas() {
    assert_eq!(display_vec(&vec![]), "");
    assert_eq!(display_vec(&vec!["a".to_owned()]), "a");
    assert_eq!(display_vec(&vec!["a".to_owned(), "b".to_owned(), "c".to_owned()]), "a, b, c");
}

#[test]
fn symbols_of_operators() {
    assert_eq!(UnaryExprKind::Minus.symbol(), "-");
    assert_eq!(UnaryExprKind::Not.symbol(), "!");
    let symbols: Vec<&str> = [
        BinExprKind::Add,
        BinExprKind::Sub,
        BinExprKind::Mul,
        BinExprKind::Div,
        BinExprKind::Mod,
        BinExprKind::Equal,
        BinExprKind::NotEqual,
        BinExprKind::LessThan,
        BinExprKind::GreaterThan,
        BinExprKind::LessThanEqual,
        BinExprKind::GreaterThanEqual,
        BinExprKind::And,
        BinExprKind::Or,
    ]
    .iter()
    .map(|op| op.symbol())
    .collect();
    assert_eq!(symbols, ["+", "-", "*", "/", "%", "==", "!=", "<", ">", "<=", ">=", "&&", "||"]);
}

#[test]
fn what_a_label_says_of_a_value() {
    assert_eq!(value_to_message(s(1, 2), &Value::Integer(5)), label(1, 2, "5 is of type number"));
    assert_eq!(value_to_message(s(1, 2), &Value::Nil), label(1, 2, "nil is of type nil"));
    assert_eq!(
        value_to_message(s(1, 2), &Value::String("a".to_owned())),
        label(1, 2, "\"a\" is of type string")
    );
    assert_eq!(
        value_to_message(s(0, 9), &Value::Array(vec![Value::Boolean(true)])),
        label(0, 9, "[true] is of type array")
    );
}

#[test]
fn messages_of_type_errors() {
    let unary = |op, expr| TypeError::UnaryOp { op, expr, expr_span: s(0, 1) };
    assert_eq!(unary(UnaryExprKind::Minus, Value::Boolean(true)).message(), "true is not a number");
    assert_eq!(unary(UnaryExprKind::Minus, Value::String("x".to_owned())).message(), "\"x\" is not a number");
    assert_eq!(
        unary(UnaryExprKind::Not, Value::Integer(1)).message(),
        "cannot apply unary operator `!` to type `number`"
    );
    let l = Value::Integer(1);
    let r = Value::String("a".to_owned());
    assert_eq!(bin(BinExprKind::Add, l.clone(), Value::Nil).message(), "cannot add `nil` to `number`");
    assert_eq!(bin(BinExprKind::Sub, l.clone(), r.clone()).message(), "cannot subtract `string` from `number`");
    assert_eq!(bin(BinExprKind::Mul, l.clone(), r.clone()).message(), "cannot multiply `string` by `number`");
    assert_eq!(bin(BinExprKind::Div, l.clone(), r.clone()).message(), "cannot divide `string` by `number`");
    assert_eq!(
        bin(BinExprKind::Mod, l.clone(), r.clone()).message(),
        "cannot calculate the remainder of `string` divided by `number`"
    );
    assert_eq!(
        bin(BinExprKind::LessThan, l.clone(), r.clone()).message(),
        "`<` cannot be applied to `string` and `number`"
    );
    assert_eq!(
        bin(BinExprKind::And, Value::Boolean(true), Value::Array(vec![])).message(),
        "`&&` cannot be applied to `array` and `bool`"
    );
}

#[test]
fn labels_of_type_errors() {
    assert_eq!(
        TypeError::UnaryOp { op: UnaryExprKind::Not, expr: Value::Integer(1), expr_span: s(0, 2) }.labels(),
        [label(0, 2, "1 is of type number")]
    );
    assert_eq!(
        bin(BinExprKind::Sub, Value::Integer(1), Value::String("a".to_owned())).labels(),
        [label(0, 1, "1 is of type number"), label(4, 5, "\"a\" is of type string")]
    );
}

#[test]
fn reference_errors() {
    let e = ReferenceError::UndefinedIdentifier { ident: Ident::new("abc", s(2, 5)) };
    assert_eq!(e.message(), "UndefinedIdentifier");
    assert_eq!(e.labels(), [label(2, 5, "can't find `abc` in this scope")]);
}

#[test]
fn messages_of_runtime_errors() {
    let v = Value::Nil;
    let cases = [
        (
            RuntimeError::ReferenceError(ReferenceError::UndefinedIdentifier { ident: Ident::new_dummy("a") }),
            "Reference Error",
        ),
        (RuntimeError::AssignmentToImmutableVariable, "Assignment to immutable variable"),
        (RuntimeError::AlreadyDeclared, "Already declared"),
        (RuntimeError::TypeError(bin(BinExprKind::Add, Value::Nil, Value::Nil)), "Type Error"),
        (RuntimeError::DivisionByZero { span: s(0, 1) }, "Division by zero"),
        (RuntimeError::IntegerOverflow { span: s(0, 1) }, "Integer overflow"),
        (RuntimeError::NotCallable { value: v.clone(), span: s(0, 1) }, "Not callable"),
        (RuntimeError::NotIndexable { value: v.clone(), span: s(0, 1) }, "Not indexable"),
        (RuntimeError::InvalidIndex { value: v.clone(), span: s(0, 1) }, "Invalid index"),
        (RuntimeError::NotARecord { value: v.clone(), span: s(0, 1) }, "Not a record"),
        (RuntimeError::NotABoolean { value: v.clone(), span: s(0, 1) }, "Not a boolean"),
        (RuntimeError::NotIterable { value: v.clone(), span: s(0, 1) }, "Not iterable"),
        (RuntimeError::Unsupported { span: s(0, 1) }, "Unsupported"),
        (RuntimeError::CallDepthExceeded { span: s(0, 1) }, "Call depth exceeded"),
        (RuntimeError::UnknownFrame { span: s(0, 1) }, "Unknown frame"),
    ];
    for (e, m) in cases {
        assert_eq!(e.message(), m);
    }
}

#[test]
fn labels_of_runtime_errors() {
    assert_eq!(RuntimeError::AlreadyDeclared.labels(), []);
    assert_eq!(RuntimeError::AssignmentToImmutableVariable.labels(), []);
    assert_eq!(
        RuntimeError::ReferenceError(ReferenceError::UndefinedIdentifier { ident: Ident::new("x", s(1, 2)) })
            .labels(),
        [label(1, 2, "can't find `x` in this scope")]
    );
    assert_eq!(
        RuntimeError::TypeError(bin(BinExprKind::Add, Value::Nil, Value::Integer(2))).labels(),
        [label(0, 1, "nil is of type nil"), label(4, 5, "2 is of type number")]
    );
    assert_eq!(RuntimeError::DivisionByZero { span: s(4, 5) }.labels(), [label(4, 5, "Division by zero")]);
    assert_eq!(RuntimeError::IntegerOverflow { span: s(0, 5) }.labels(), [label(0, 5, "Integer overflow")]);
    assert_eq!(RuntimeError::Unsupported { span: s(0, 5) }.labels(), [label(0, 5, "Unsupported")]);
    assert_eq!(RuntimeError::CallDepthExceeded { span: s(0, 5) }.labels(), [label(0, 5, "Call depth exceeded")]);
    assert_eq!(RuntimeError::UnknownFrame { span: s(0, 5) }.labels(), [label(0, 5, "Unknown frame")]);
    let v = Value::Integer(3);
    assert_eq!(
        RuntimeError::NotCallable { value: v.clone(), span: s(0, 1) }.labels(),
        [label(0, 1, "3 is of type number")]
    );
    assert_eq!(
        RuntimeError::NotIndexable { value: v.clone(), span: s(0, 1) }.labels(),
        [label(0, 1, "3 is of type number")]
    );
    assert_eq!(
        RuntimeError::InvalidIndex { value: v.clone(), span: s(0, 1) }.labels(),
        [label(0, 1, "3 is of type number")]
    );
    assert_eq!(
        RuntimeError::NotARecord { value: v.clone(), span: s(0, 1) }.labels(),
        [label(0, 1, "3 is of type number")]
    );
    assert_eq!(
        RuntimeError::NotABoolean { value: v.clone(), span: s(0, 1) }.labels(),
        [label(0, 1, "3 is of type number")]
    );
    assert_eq!(
        RuntimeError::NotIterable { value: v.clone(), span: s(0, 1) }.labels(),
        [label(0, 1, "3 is of type number")]
    );
}

#[test]
fn lexical_errors() {
    assert_eq!(LexError::InvalidIdentifier.message(), "Invalid Identifier");
    assert_eq!(LexError::InvalidToken.message(), "Invalid Token");
}

#[test]
fn names_of_kinds() {
    assert_eq!(TokenKind::Plus.describe(), "+");
    assert_eq!(TokenKind::LetMut.describe(), "let!");
    assert_eq!(TokenKind::NewLine.describe(), "\\n");
    assert_eq!(TokenKind::Comma.describe(), ",");
    assert_eq!(TokenKind::Arrow.describe(), "->");
    assert_eq!(TokenKind::Identifier.describe(), "identifier");
    assert_eq!(TokenKind::Integer.describe(), "integer");
    assert_eq!(TokenKind::String.describe(), "string");
    assert_eq!(TokenKind::LineComment.describe(), "comment");
    assert_eq!(TokenKind::BlockComment.describe(), "comment");
    assert_eq!(TokenKind::TemplateStringLeadingFragment.describe(), "template string");
    assert_eq!(TokenKind::Whitespace.describe(), "[WS]");
    assert_eq!(TokenKind::Plus.source(), "+");
    assert_eq!(TokenKind::Identifier.source(), "");
}

#[test]
fn labels_of_parse_errors() {
    assert_eq!(ParseError::InvalidToken { location: 3 }.message(), "ParseError");
    assert_eq!(ParseError::InvalidToken { location: 3 }.labels(), [label(3, 4, "Invalid Token")]);
    assert_eq!(
        ParseError::UnrecognizedEof { location: 5, expected: vec![TokenKind::Equal] }.labels(),
        [label(5, 6, "Expected one of = but found EOF")]
    );
    assert_eq!(
        ParseError::UnrecognizedEof { location: usize::MAX, expected: vec![] }.labels(),
        [(s(usize::MAX, usize::MAX), "Expected one of  but found EOF".to_owned())]
    );
    assert_eq!(
        ParseError::UnrecognizedToken {
            token: (2, Token::Identifier("b".to_owned()), 3),
            expected: vec![TokenKind::NewLine, TokenKind::RightBrace]
        }
        .labels(),
        [label(2, 3, "Expected one of \\n, } but found b")]
    );
    assert_eq!(
        ParseError::UnrecognizedToken { token: (0, Token::LineComment, 4), expected: vec![TokenKind::Identifier] }
            .labels(),
        [label(0, 4, "Expected one of identifier but found comment")]
    );
    assert_eq!(
        ParseError::ExtraToken { token: (2, Token::Integer(-7), 4) }.labels(),
        [label(2, 4, "Unexpected -7")]
    );
    assert_eq!(
        ParseError::User { error: Spanned::new(s(1, 4), LexError::InvalidIdentifier) }.labels(),
        [label(1, 4, "Invalid Identifier")]
    );
    assert_eq!(
        parse("let").unwrap_err().labels(),
        [label(3, 4, "Expected one of identifier but found EOF")]
    );
    assert_eq!(
        parse(")").unwrap_err().labels(),
        [label(
            0,
            1,
            "Expected one of identifier, integer, string, nil, true, false, (, [, {, |, ||, -, !, let, let!, \
             if, iter, return, break, continue, panic, assert but found )"
        )]
    );
}

#[test]
fn interpreter_errors_show_the_error_inside() {
    let e = failure("1 +");
    assert_eq!(e.message(), "InterpreterError");
    assert_eq!(e.labels().len(), 1);
    assert_eq!(e.labels()[0].0, s(3, 4));
    let e = failure("nope");
    assert_eq!(e.message(), "InterpreterError");
    assert_eq!(e.labels(), [label(0, 4, "can't find `nope` in this scope")]);
    let e = failure("1 - 'a'");
    assert_eq!(e.labels(), [label(0, 1, "1 is of type number"), label(4, 7, "\"a\" is of type string")]);
    let InterpreterError::RuntimeError(RuntimeError::TypeError(t)) = e else { panic!() };
    assert_eq!(t.message(), "cannot subtract `string` from `number`");
    let e = failure("let a = 1\nlet a = 2");
    assert_eq!(e.labels(), []);
}
