use dynlang::ast::Boolean;
use dynlang::ast::Expr;
use dynlang::ast::ExprKind;
use dynlang::ast::Ident;
use dynlang::ast::Integer;
use dynlang::ast::Literal;
use dynlang::ast::Nil;
use dynlang::ast::StringT;
use dynlang::leaves::code_leaves;
use dynlang::leaves::leaves;
use dynlang::leaves::Node;
use dynlang::parser::parse;
use dynlang::parser::parse_code;
use dynlang::span::Span;
use dynlang::visitor::visit_code;
use dynlang::visitor::visit_expr;
use dynlang::visitor::Visit;
use dynlang::visitor_mut::visit_mut_code;
use dynlang::visitor_mut::visit_mut_expr;
use dynlang::visitor_mut::VisitMut;

/// Writes down every leaf as a word.
struct Words {
    words: Vec<String>,
}

impl Visit for Words {
    fn visit_nil(&mut self, _: &Nil) {
        self.words.push("nil".to_string());
    }

    fn visit_boolean(&mut self, i: &Boolean) {
        self.words.push(i.value.to_string());
    }

    fn visit_integer(&mut self, i: &Integer) {
        self.words.push(i.value.to_string());
    }

    fn visit_string(&mut self, i: &StringT) {
        self.words.push(format!("{:?}", i.value));
    }

    fn visit_ident(&mut self, i: &Ident) {
        self.words.push(i.symbol.clone());
    }
}

fn words_of(text: &str) -> Vec<String> {
    let tree = parse(text).unwrap();
    let mut v = Words { words: Vec::new() };
    visit_expr(&mut v, &tree);
    v.words
}

fn words_of_code(text: &str) -> Vec<String> {
    let code = parse_code(text).unwrap();
    let mut v = Words { words: Vec::new() };
    visit_code(&mut v, &code);
    v.words
}

fn word(node: &Node) -> String {
    match node {
        Node::Literal(Literal::Nil(_)) => "nil".to_string(),
        Node::Literal(Literal::Boolean(b)) => b.value.to_string(),
        Node::Literal(Literal::Integer(i)) => i.value.to_string(),
        Node::Literal(Literal::String(s)) => format!("{:?}", s.value),
        Node::Ident(i) => i.symbol.clone(),
    }
}

/// Doubles every integer and writes every name in capitals.
struct Loud {
    handed: usize,
}

impl VisitMut for Loud {
    fn visit_mut_nil(&mut self, _: &mut Nil) {
        self.handed += 1;
    }

    fn visit_mut_boolean(&mut self, i: &mut Boolean) {
        self.handed += 1;
        i.value = !i.value;
    }

    fn visit_mut_integer(&mut self, i: &mut Integer) {
        self.handed += 1;
        i.value *= 2;
    }

    fn visit_mut_string(&mut self, i: &mut StringT) {
        self.handed += 1;
        i.value.push('!');
    }

    fn visit_mut_ident(&mut self, i: &mut Ident) {
        self.handed += 1;
        i.symbol = i.symbol.to_uppercase();
    }
}

#[test]
fn a_walk_shows_the_operands_from_left_to_right() {
    assert_eq!(words_of("a + 2 * b"), ["a", "2", "b"]);
    assert_eq!(words_of("x[1].y"), ["x", "1", "y"]);
    assert_eq!(words_of("!done"), ["done"]);
}

#[test]
fn a_walk_shows_the_arguments_of_a_call_before_the_callee() {
    assert_eq!(words_of("f(1, x)"), ["1", "x", "f"]);
    assert_eq!(words_of("f(g(2))"), ["2", "g", "f"]);
}

#[test]
fn a_walk_shows_every_kind_of_literal() {
    assert_eq!(words_of("[nil, true, false, 7, \"s\"]"), ["nil", "true", "false", "7", "\"s\""]);
}

#[test]
fn a_walk_shows_names_that_are_bound_before_their_values() {
    assert_eq!(words_of("let x = 1"), ["x", "1"]);
    assert_eq!(words_of("let! x = y"), ["x", "y"]);
    assert_eq!(words_of("x += 3"), ["x", "3"]);
    assert_eq!(words_of("{a: 1, b: c}"), ["a", "1", "b", "c"]);
}

#[test]
fn a_walk_goes_through_functions_and_blocks() {
    assert_eq!(words_of("|a, b| -> a + b"), ["a", "b", "a", "b"]);
    assert_eq!(words_of("if c { 1 } else { 2 }"), ["c", "1", "2"]);
    assert_eq!(words_of("if c { x }"), ["c", "x"]);
    assert_eq!(words_of("iter xs of i { i }"), ["xs", "i", "i"]);
    assert_eq!(words_of("return v"), ["v"]);
}

#[test]
fn a_walk_goes_through_the_statements_of_a_program() {
    assert_eq!(words_of_code("let x = 1\nx + 2\n"), ["x", "1", "x", "2"]);
    assert_eq!(words_of_code(""), Vec::<String>::new());
}

#[test]
fn the_collector_keeps_the_leaves_in_the_order_of_the_walk() {
    let tree = parse("f(1, x) + [nil, \"s\"]").unwrap();
    let found: Vec<String> = leaves(&tree).iter().map(word).collect();
    assert_eq!(found, ["1", "x", "f", "nil", "\"s\""]);
    assert_eq!(found, words_of("f(1, x) + [nil, \"s\"]"));
}

#[test]
fn the_collector_keeps_the_spans_of_the_leaves() {
    let tree = parse("ab + 12").unwrap();
    let found = leaves(&tree);
    assert_eq!(found.len(), 2);
    match &found[0] {
        Node::Ident(i) => assert_eq!(i.span, Span::new(0, 2)),
        other => panic!("{:?}", other),
    }
    match &found[1] {
        Node::Literal(Literal::Integer(i)) => assert_eq!(i.span, Span::new(5, 7)),
        other => panic!("{:?}", other),
    }
}

#[test]
fn the_collector_goes_through_a_program() {
    let code = parse_code("let x = 1\nlet y = x\n").unwrap();
    let found: Vec<String> = code_leaves(&code).iter().map(word).collect();
    assert_eq!(found, ["x", "1", "y", "x"]);
}

#[test]
fn a_changing_walk_is_handed_every_leaf_once() {
    let mut tree = parse("f(1, x) + [nil, \"s\", true]").unwrap();
    let mut v = Loud { handed: 0 };
    visit_mut_expr(&mut v, &mut tree);
    assert_eq!(v.handed, 6);
    let found: Vec<String> = leaves(&tree).iter().map(word).collect();
    assert_eq!(found, ["2", "X", "F", "nil", "\"s!\"", "false"]);
}

#[test]
fn a_changing_walk_keeps_the_shape_of_the_tree() {
    let mut tree = parse("a + b * 3").unwrap();
    let mut v = Loud { handed: 0 };
    visit_mut_expr(&mut v, &mut tree);
    let expected = parse("A + B * 6").unwrap();
    assert_eq!(tree, expected);
}

#[test]
fn a_changing_walk_goes_through_functions_records_and_blocks() {
    let mut tree = parse("|a| -> { let r = {k: a}\nif r.k { 1 } else { iter a of i { i } } }").unwrap();
    let mut v = Loud { handed: 0 };
    visit_mut_expr(&mut v, &mut tree);
    let found: Vec<String> = leaves(&tree).iter().map(word).collect();
    assert_eq!(found, ["A", "R", "K", "A", "R", "K", "2", "A", "I", "I"]);
    assert_eq!(v.handed, 10);
}

#[test]
fn a_changing_walk_goes_through_a_program() {
    let mut code = parse_code("let x = 2\nx\n").unwrap();
    let mut v = Loud { handed: 0 };
    visit_mut_code(&mut v, &mut code);
    assert_eq!(code.stmts.len(), 2);
    let found: Vec<String> = code_leaves(&code).iter().map(word).collect();
    assert_eq!(found, ["X", "4", "X"]);
    match &code.stmts[1].kind {
        ExprKind::Ident(i) => assert_eq!(i.symbol, "X"),
        other => panic!("{:?}", other),
    }
}

#[test]
fn a_changing_walk_leaves_the_spans_of_inner_nodes() {
    let mut tree: Expr = parse("(a + 1)").unwrap();
    let before = tree.span;
    let mut v = Loud { handed: 0 };
    visit_mut_expr(&mut v, &mut tree);
    assert_eq!(tree.span, before);
}
