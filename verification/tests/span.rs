use dynlang::span::HasSpan;
use dynlang::span::Span;

#[test]
fn whoever_starts_first_should_be_less() {
    assert!(Span::from(10..20) < Span::from(11..100));
}

#[test]
fn wider_should_be_less() {
    assert!(Span::from(10..100) < Span::from(10..20));
}

#[test]
fn should_be_equal_if_and_only_if_start_and_end_are_same() {
    assert_eq!(Span::from(10..20), Span::from(10..20));
}

#[test]
fn span_addition_should_be_symmetric() {
    assert_eq!(Span::from(10..20) + Span::from(30..40), Span::from(10..40));

    assert_eq!(Span::from(30..40) + Span::from(10..20), Span::from(10..40));
}

#[test]
fn a_syntax_node_carries_its_span() {
    let mut node = dynlang::cst::CstNode { span: Span::new(1, 4) };
    assert_eq!(node.span(), Span::new(1, 4));
    node.set_span(Span::new(2, 9));
    assert_eq!(node.span(), Span::new(2, 9));
    assert_eq!(node.with_span(Span::new(0, 1)).span, Span::new(0, 1));
}

#[test]
fn a_span_turns_into_a_pair_and_a_range() {
    let pair: (usize, usize) = Span::new(3, 8).into();
    assert_eq!(pair, (3, 8));
    let range: std::ops::Range<usize> = Span::new(3, 8).into();
    assert_eq!(range, 3..8);
    assert_eq!(Span::from(range), Span::new(3, 8));
    assert_eq!(Span::from(pair), Span::new(3, 8));
}
