use dynlang::interpreter::Interpreter;
use dynlang::lexer::tokenize;
use dynlang::lexer::LexerConfig;
use dynlang::parser::parse;
use dynlang::span::Span;
use dynlang::token::Token;
use dynlang::value::NoBuiltins;
use dynlang::value::Value;

#[test]
fn smoke_tokenize() {
    let toks = tokenize("let! x = 10\nx += 20", LexerConfig::default());
    let kinds: Vec<String> = toks.iter().map(|t| format!("{:?}@{:?}", t.token, t.span)).collect();
    println!("{:?}", kinds);
    assert_eq!(toks.len(), 8);
    assert_eq!(toks[0].token, Ok(Token::LetMut));
    assert_eq!(toks[0].span, Span::new(0, 4));
}

#[test]
fn smoke_parse() {
    let e = parse("1 + 2 * 3").unwrap();
    println!("{:?}", e);
    assert_eq!(e.span, Span::new(0, 9));
}

#[test]
fn smoke_run() {
    let mut i = Interpreter::init();
    let r = i.run("let! x = 10\nx += 20\nlet y = x * 3\ny - x", &NoBuiltins);
    assert_eq!(r, Ok(Value::Integer(60)));
    let r = i.run("let f = |a, b| -> a + b\nf(1, 2) + f(3, 4)", &NoBuiltins);
    assert_eq!(r, Ok(Value::Integer(10)));
    let r = i.run("\"a\" + 1 + 'b'", &NoBuiltins);
    assert_eq!(r, Ok(Value::String("a1b".to_owned())));
    let r = i.run("[1, 2, 3][1]", &NoBuiltins);
    assert_eq!(r, Ok(Value::Integer(2)));
    let r = i.run("let r = {a: 1, b: [2]}\nr.b[0] + r.a", &NoBuiltins);
    assert_eq!(r, Ok(Value::Integer(3)));
    let r = i.run("-7 / 2", &NoBuiltins);
    assert_eq!(r, Ok(Value::Integer(-3)));
    let r = i.run("-7 % 2", &NoBuiltins);
    assert_eq!(r, Ok(Value::Integer(-1)));
}
