//! The parser: tokens to a syntax tree. It reads what the grammar says is
//! there, and nothing else.

use crate::ast::Arguments;
use crate::ast::Array;
use crate::ast::BinExprKind;
use crate::ast::Boolean;
use crate::ast::Code;
use crate::ast::Expr;
use crate::ast::ExprKind;
use crate::ast::Function;
use crate::ast::Ident;
use crate::ast::Integer;
use crate::ast::Literal;
use crate::ast::Nil;
use crate::ast::Parameters;
use crate::ast::Record;
use crate::ast::StringT;
use crate::ast::UnaryExprKind;
use crate::ast_model::expr_fields_view;
use crate::ast_model::exprs_view;
use crate::ast_model::idents_view;
use crate::ast_model::lemma_arguments_view;
use crate::ast_model::lemma_array_literal_view;
use crate::ast_model::lemma_code_view;
use crate::ast_model::lemma_record_literal_view;
use crate::ast_model::CodeView;
use crate::ast_model::ExprView;
use crate::ast_model::FunctionView;
use crate::ast_model::IdentView;
use crate::grammar;
use crate::grammar::Expectation;
use crate::grammar::ParseErrorView;
use crate::grammar::Parsed;
use crate::grammar_laws::lemma_never_invalid_token;
use crate::grammar_spans::all_within;
use crate::grammar_spans::lemma_parsed_trees_are_well_spanned;
use crate::grammar_spans::well_spanned;
use crate::lexer::tokenize;
use crate::lexer::tokens_of;
use crate::lexer::LexerConfig;
use crate::span::Span;
use crate::span::Spanned;
use crate::token::spanned_views;
use crate::token::LexError;
use crate::token::SpannedToken;
use crate::token::Token;
use crate::token::TokenKind;
use vstd::prelude::*;
use vstd::string::StringSliceAdditionalSpecFns;

verus! {

/// Why a text is no program.
#[derive(Debug, PartialEq)]
pub enum ParseError {
    /// A token that the lexer could not read. The lexer reports such a
    /// token as `User`; the parser never returns this.
    InvalidToken { location: usize },
    /// The input ended where more was needed.
    UnrecognizedEof { location: usize, expected: Vec<TokenKind> },
    /// A token stands where it cannot: its start, the token, its end, and
    /// the kinds of token that could stand there.
    UnrecognizedToken { token: (usize, Token, usize), expected: Vec<TokenKind> },
    /// A token follows an expression that is complete.
    ExtraToken { token: (usize, Token, usize) },
    /// A lexical error, with its span.
    User { error: Spanned<LexError> },
}

impl ParseError {
    pub open spec fn view(&self) -> ParseErrorView {
        match self {
            ParseError::InvalidToken { location } => ParseErrorView::InvalidToken { location: *location },
            ParseError::UnrecognizedEof { location, expected } => ParseErrorView::UnrecognizedEof {
                location: *location,
                expected: expected@,
            },
            ParseError::UnrecognizedToken { token, expected } => ParseErrorView::UnrecognizedToken {
                start: token.0,
                token: token.1.view(),
                end: token.2,
                expected: expected@,
            },
            ParseError::ExtraToken { token } => ParseErrorView::ExtraToken {
                start: token.0,
                token: token.1.view(),
                end: token.2,
            },
            ParseError::User { error } => ParseErrorView::User { span: error.span, error: error.value },
        }
    }
}

/// The model of what was read as an expression.
pub open spec fn expr_result(r: Result<(Expr, usize), ParseError>) -> Parsed<ExprView> {
    match r {
        Ok((e, n)) => Ok((e.view(), n as int)),
        Err(e) => Err(e.view()),
    }
}

/// The model of what was read as a block.
pub open spec fn code_result(r: Result<(Code, usize), ParseError>) -> Parsed<CodeView> {
    match r {
        Ok((c, n)) => Ok((c.view(), n as int)),
        Err(e) => Err(e.view()),
    }
}

/// Whether something was read, and then from `pos` to a later place in the
/// input.
pub open spec fn advanced<T>(r: Result<(T, usize), ParseError>, pos: usize, len: int) -> bool {
    match r {
        Ok((_, n)) => pos < n <= len,
        Err(_) => true,
    }
}

/// The kinds of token that an expectation accepts.
pub fn expected_list(e: Expectation) -> (r: Vec<TokenKind>)
    ensures
        r@ == grammar::expected_kinds(e),
{
    reveal(grammar::expected_kinds);
    let mut v: Vec<TokenKind> = Vec::new();
    match e {
        Expectation::Expression => {
            v.push(TokenKind::Identifier);
            v.push(TokenKind::Integer);
            v.push(TokenKind::String);
            v.push(TokenKind::Nil);
            v.push(TokenKind::True);
            v.push(TokenKind::False);
            v.push(TokenKind::LeftParenthesis);
            v.push(TokenKind::LeftBracket);
            v.push(TokenKind::LeftBrace);
            v.push(TokenKind::Pipe);
            v.push(TokenKind::PipePipe);
            v.push(TokenKind::Minus);
            v.push(TokenKind::Bang);
            v.push(TokenKind::Let);
            v.push(TokenKind::LetMut);
            v.push(TokenKind::If);
            v.push(TokenKind::Iter);
            v.push(TokenKind::Return);
            v.push(TokenKind::Break);
            v.push(TokenKind::Continue);
            v.push(TokenKind::Panic);
            v.push(TokenKind::Assert);
        },
        Expectation::Kind(k) => {
            v.push(k);
        },
        Expectation::StatementEnd => {
            v.push(TokenKind::NewLine);
            v.push(TokenKind::RightBrace);
        },
        Expectation::ItemEnd(close) => {
            v.push(TokenKind::Comma);
            v.push(TokenKind::NewLine);
            v.push(close);
        },
    }
    v
}

/// The kind of the token at `pos`.
fn kind_at(tokens: &Vec<SpannedToken>, pos: usize) -> (r: Option<TokenKind>)
    ensures
        r == grammar::kind_at(spanned_views(tokens@), pos as int),
        r is Some ==> pos < tokens@.len(),
        tokens@.len() <= usize::MAX,
{
    if pos < tokens.len() {
        match &tokens[pos].token {
            Ok(t) => Some(t.kind()),
            Err(_) => None,
        }
    } else {
        None
    }
}

/// Whether a token of kind `k` stands at `pos`.
fn is_kind(tokens: &Vec<SpannedToken>, pos: usize, k: TokenKind) -> (r: bool)
    ensures
        r == grammar::is_kind(spanned_views(tokens@), pos as int, k),
        r ==> pos < tokens@.len(),
        tokens@.len() <= usize::MAX,
{
    match kind_at(tokens, pos) {
        Some(found) => found == k,
        None => false,
    }
}

/// The error of a token that does not fit.
fn unexpected(tokens: &Vec<SpannedToken>, pos: usize, e: Expectation) -> (r: ParseError)
    ensures
        r.view() == grammar::unexpected(spanned_views(tokens@), pos as int, e),
{
    if pos < tokens.len() {
        match &tokens[pos].token {
            Ok(t) => ParseError::UnrecognizedToken {
                token: (tokens[pos].span.start, t.clone(), tokens[pos].span.end),
                expected: expected_list(e),
            },
            Err(err) => ParseError::User { error: Spanned { span: tokens[pos].span, value: *err } },
        }
    } else {
        let location = if tokens.len() > 0 {
            tokens[tokens.len() - 1].span.end
        } else {
            0
        };
        ParseError::UnrecognizedEof { location, expected: expected_list(e) }
    }
}

/// The span from the start of the token at `from` to the end of the token
/// before `to`.
fn span_between(tokens: &Vec<SpannedToken>, from: usize, to: usize) -> (r: Span)
    requires
        from < to <= tokens@.len(),
    ensures
        r == grammar::span_between(spanned_views(tokens@), from as int, to as int),
{
    Span { start: tokens[from].span.start, end: tokens[to - 1].span.end }
}

/// Reads an identifier at `pos`.
fn parse_ident(tokens: &Vec<SpannedToken>, pos: usize) -> (r: Result<(Ident, usize), ParseError>)
    ensures
        match r {
            Ok((i, n)) => grammar::g_ident(spanned_views(tokens@), pos as int) == Ok::<
                (IdentView, int),
                ParseErrorView,
            >((i.view(), n as int)) && n == pos + 1 && pos < tokens@.len(),
            Err(e) => grammar::g_ident(spanned_views(tokens@), pos as int) == Err::<
                (IdentView, int),
                ParseErrorView,
            >(e.view()),
        },
{
    reveal(Token::spec_kind);
    if pos < tokens.len() {
        match &tokens[pos].token {
            Ok(Token::Identifier(s)) => {
                return Ok((Ident { span: tokens[pos].span, symbol: s.clone() }, pos + 1));
            },
            _ => {},
        }
    }
    Err(unexpected(tokens, pos, Expectation::Kind(TokenKind::Identifier)))
}

/// Reads a token of kind `k` at `pos`.
fn expect(tokens: &Vec<SpannedToken>, pos: usize, k: TokenKind) -> (r: Result<usize, ParseError>)
    ensures
        match r {
            Ok(n) => grammar::g_expect(spanned_views(tokens@), pos as int, k) == Ok::<int, ParseErrorView>(n as int)
                && n == pos + 1 && pos < tokens@.len(),
            Err(e) => grammar::g_expect(spanned_views(tokens@), pos as int, k) == Err::<int, ParseErrorView>(
                e.view(),
            ),
        },
{
    if is_kind(tokens, pos, k) {
        Ok(pos + 1)
    } else {
        Err(unexpected(tokens, pos, Expectation::Kind(k)))
    }
}

/// Skips commas and newlines from `pos` on.
fn skip_separators(tokens: &Vec<SpannedToken>, pos: usize) -> (r: usize)
    requires
        pos <= tokens@.len(),
    ensures
        r == grammar::skip_separators(spanned_views(tokens@), pos as int),
        pos <= r <= tokens@.len(),
{
    let mut i = pos;
    while is_kind(tokens, i, TokenKind::Comma) || is_kind(tokens, i, TokenKind::NewLine)
        invariant
            pos <= i <= tokens@.len(),
            grammar::skip_separators(spanned_views(tokens@), pos as int) == grammar::skip_separators(
                spanned_views(tokens@),
                i as int,
            ),
        decreases tokens@.len() - i,
    {
        i = i + 1;
    }
    i
}

/// Skips newlines from `pos` on.
fn skip_newlines(tokens: &Vec<SpannedToken>, pos: usize) -> (r: usize)
    requires
        pos <= tokens@.len(),
    ensures
        r == grammar::skip_newlines(spanned_views(tokens@), pos as int),
        pos <= r <= tokens@.len(),
{
    let mut i = pos;
    while is_kind(tokens, i, TokenKind::NewLine)
        invariant
            pos <= i <= tokens@.len(),
            grammar::skip_newlines(spanned_views(tokens@), pos as int) == grammar::skip_newlines(
                spanned_views(tokens@),
                i as int,
            ),
        decreases tokens@.len() - i,
    {
        i = i + 1;
    }
    i
}

/// Whether a block ends at `pos`.
fn at_close(tokens: &Vec<SpannedToken>, pos: usize, close: Option<TokenKind>) -> (r: bool)
    ensures
        r == grammar::at_close(spanned_views(tokens@), pos as int, close),
{
    match close {
        Some(k) => is_kind(tokens, pos, k),
        None => pos >= tokens.len(),
    }
}

/// The infix operator that the token at `pos` writes at `level`.
fn infix_at(tokens: &Vec<SpannedToken>, pos: usize, level: u8) -> (r: Option<BinExprKind>)
    ensures
        r == grammar::infix_op(grammar::kind_at(spanned_views(tokens@), pos as int), level as nat),
        r is Some ==> pos < tokens@.len(),
        tokens@.len() <= usize::MAX,
{
    match kind_at(tokens, pos) {
        Some(TokenKind::PipePipe) => if level == 0 {
            Some(BinExprKind::Or)
        } else {
            None
        },
        Some(TokenKind::AndAnd) => if level == 1 {
            Some(BinExprKind::And)
        } else {
            None
        },
        Some(TokenKind::EqualEqual) => if level == 2 {
            Some(BinExprKind::Equal)
        } else {
            None
        },
        Some(TokenKind::BangEqual) => if level == 2 {
            Some(BinExprKind::NotEqual)
        } else {
            None
        },
        Some(TokenKind::LeftAngledBracket) => if level == 3 {
            Some(BinExprKind::LessThan)
        } else {
            None
        },
        Some(TokenKind::RightAngledBracket) => if level == 3 {
            Some(BinExprKind::GreaterThan)
        } else {
            None
        },
        Some(TokenKind::LeftAngledBracketEqual) => if level == 3 {
            Some(BinExprKind::LessThanEqual)
        } else {
            None
        },
        Some(TokenKind::RightAngledBracketEqual) => if level == 3 {
            Some(BinExprKind::GreaterThanEqual)
        } else {
            None
        },
        Some(TokenKind::Plus) => if level == 4 {
            Some(BinExprKind::Add)
        } else {
            None
        },
        Some(TokenKind::Minus) => if level == 4 {
            Some(BinExprKind::Sub)
        } else {
            None
        },
        Some(TokenKind::Asterisk) => if level == 5 {
            Some(BinExprKind::Mul)
        } else {
            None
        },
        Some(TokenKind::Slash) => if level == 5 {
            Some(BinExprKind::Div)
        } else {
            None
        },
        Some(TokenKind::Percent) => if level == 5 {
            Some(BinExprKind::Mod)
        } else {
            None
        },
        _ => None,
    }
}

/// An infix expression whose node and wrapper carry `span`.
fn binary_expr(span: Span, op: BinExprKind, lhs: Expr, rhs: Expr) -> (e: Expr)
    ensures
        e.view() == grammar::binary_view(span, op, lhs.view(), rhs.view()),
{
    let e = Expr::new_lalr_binexpr((span.start, (lhs, op, rhs), span.end));
    assert(e.view().kind == e.kind->BinExpr_0.view());
    e
}

/// A prefix expression whose node and wrapper carry `span`.
fn unary_expr(span: Span, op: UnaryExprKind, operand: Expr) -> (e: Expr)
    ensures
        e.view() == grammar::unary_view(span, op, operand.view()),
{
    let e = Expr::new_lalr_unaryexpr((span.start, (op, operand), span.end));
    assert(e.view().kind == e.kind->UnaryExpr_0.view());
    e
}

/// Reads an expression at `pos`.
pub fn parse_expr(tokens: &Vec<SpannedToken>, pos: usize) -> (r: Result<(Expr, usize), ParseError>)
    ensures
        expr_result(r) == grammar::g_expr(spanned_views(tokens@), pos as int),
        advanced(r, pos, tokens@.len() as int),
    decreases tokens@.len() - pos, 40nat,
{
    proof {
        grammar::unfold_g_expr(spanned_views(tokens@), pos as int);
    }
    let k = kind_at(tokens, pos);
    match k {
        Some(TokenKind::Let) | Some(TokenKind::LetMut) => {
            let name = match parse_ident(tokens, pos + 1) {
                Err(e) => {
                    return Err(e);
                },
                Ok((name, _)) => name,
            };
            match expect(tokens, pos + 2, TokenKind::Equal) {
                Err(e) => {
                    return Err(e);
                },
                Ok(_) => {},
            }
            match parse_expr(tokens, pos + 3) {
                Err(e) => Err(e),
                Ok((rhs, n)) => {
                    let span = span_between(tokens, pos, n);
                    let kind = match k {
                        Some(TokenKind::LetMut) => ExprKind::DeclareMut(name, Box::new(rhs)),
                        _ => ExprKind::Declare(name, Box::new(rhs)),
                    };
                    Ok((Expr { span, kind }, n))
                },
            }
        },
        Some(TokenKind::Panic) | Some(TokenKind::Assert) | Some(TokenKind::Return) | Some(TokenKind::Break) | Some(
            TokenKind::Continue,
        ) => {
            match parse_expr(tokens, pos + 1) {
                Err(e) => Err(e),
                Ok((operand, n)) => {
                    let span = span_between(tokens, pos, n);
                    let kind = match k {
                        Some(TokenKind::Panic) => ExprKind::Panic(Box::new(operand)),
                        Some(TokenKind::Assert) => ExprKind::Assert(Box::new(operand)),
                        Some(TokenKind::Return) => ExprKind::Return(Box::new(operand)),
                        Some(TokenKind::Break) => ExprKind::Break(Box::new(operand)),
                        _ => ExprKind::Continue(Box::new(operand)),
                    };
                    Ok((Expr { span, kind }, n))
                },
            }
        },
        Some(TokenKind::Identifier) => {
            let op = kind_at(tokens, pos + 1);
            match op {
                Some(TokenKind::Equal) | Some(TokenKind::PlusEqual) | Some(TokenKind::MinusEqual) | Some(
                    TokenKind::AsteriskEqual,
                ) | Some(TokenKind::SlashEqual) | Some(TokenKind::PercentEqual) => {
                    let name = match parse_ident(tokens, pos) {
                        Err(e) => {
                            return Err(e);
                        },
                        Ok((name, _)) => name,
                    };
                    match parse_expr(tokens, pos + 2) {
                        Err(e) => Err(e),
                        Ok((rhs, n)) => {
                            let span = span_between(tokens, pos, n);
                            let kind = match op {
                                Some(TokenKind::Equal) => ExprKind::Assign(name, Box::new(rhs)),
                                Some(TokenKind::PlusEqual) => ExprKind::AddAssign(name, Box::new(rhs)),
                                Some(TokenKind::MinusEqual) => ExprKind::SubAssign(name, Box::new(rhs)),
                                Some(TokenKind::AsteriskEqual) => ExprKind::MulAssign(name, Box::new(rhs)),
                                Some(TokenKind::SlashEqual) => ExprKind::DivAssign(name, Box::new(rhs)),
                                _ => ExprKind::ModAssign(name, Box::new(rhs)),
                            };
                            Ok((Expr { span, kind }, n))
                        },
                    }
                },
                _ => parse_binary(tokens, pos, 0),
            }
        },
        _ => parse_binary(tokens, pos, 0),
    }
}

/// Reads an operand of the infix operators of `level`.
fn parse_operand(tokens: &Vec<SpannedToken>, pos: usize, level: u8) -> (r: Result<(Expr, usize), ParseError>)
    ensures
        expr_result(r) == grammar::g_operand(spanned_views(tokens@), pos as int, level as nat),
        advanced(r, pos, tokens@.len() as int),
    decreases tokens@.len() - pos, (29 - 2 * level) as nat,
{
    proof {
        grammar::unfold_g_operand(spanned_views(tokens@), pos as int, level as nat);
    }
    if level >= 6 {
        Err(ParseError::InvalidToken { location: 0 })
    } else if level + 1 < 6 {
        parse_binary(tokens, pos, level + 1)
    } else {
        parse_unary(tokens, pos)
    }
}

/// Reads operands of `level` joined by the operators of that level.
fn parse_binary(tokens: &Vec<SpannedToken>, pos: usize, level: u8) -> (r: Result<(Expr, usize), ParseError>)
    ensures
        expr_result(r) == grammar::g_binary(spanned_views(tokens@), pos as int, level as nat),
        advanced(r, pos, tokens@.len() as int),
    decreases tokens@.len() - pos, (30 - 2 * level) as nat,
{
    proof {
        grammar::unfold_g_binary(spanned_views(tokens@), pos as int, level as nat);
    }
    if level >= 6 {
        return Err(ParseError::InvalidToken { location: 0 });
    }
    match parse_operand(tokens, pos, level) {
        Err(e) => Err(e),
        Ok((lhs, n)) => parse_binary_tail(tokens, pos, lhs, n, level),
    }
}

/// Reads the operators of `level` and their operands that follow `lhs`.
fn parse_binary_tail(tokens: &Vec<SpannedToken>, from: usize, lhs: Expr, pos: usize, level: u8) -> (r: Result<
    (Expr, usize),
    ParseError,
>)
    requires
        from < pos <= tokens@.len(),
    ensures
        expr_result(r) == grammar::g_binary_tail(
            spanned_views(tokens@),
            from as int,
            lhs.view(),
            pos as int,
            level as nat,
        ),
        r is Ok ==> pos <= r->Ok_0.1 <= tokens@.len(),
    decreases tokens@.len() - pos, 0nat,
{
    proof {
        grammar::unfold_g_binary_tail(spanned_views(tokens@), from as int, lhs.view(), pos as int, level as nat);
    }
    match infix_at(tokens, pos, level) {
        None => Ok((lhs, pos)),
        Some(op) => {
            match parse_operand(tokens, pos + 1, level) {
                Err(e) => Err(e),
                Ok((rhs, n)) => {
                    let span = span_between(tokens, from, n);
                    parse_binary_tail(tokens, from, binary_expr(span, op, lhs, rhs), n, level)
                },
            }
        },
    }
}

/// Reads a prefix expression.
fn parse_unary(tokens: &Vec<SpannedToken>, pos: usize) -> (r: Result<(Expr, usize), ParseError>)
    ensures
        expr_result(r) == grammar::g_unary(spanned_views(tokens@), pos as int),
        advanced(r, pos, tokens@.len() as int),
    decreases tokens@.len() - pos, 10nat,
{
    proof {
        grammar::unfold_g_unary(spanned_views(tokens@), pos as int);
    }
    let k = kind_at(tokens, pos);
    match k {
        Some(TokenKind::Minus) | Some(TokenKind::Bang) => {
            match parse_unary(tokens, pos + 1) {
                Err(e) => Err(e),
                Ok((operand, n)) => {
                    let span = span_between(tokens, pos, n);
                    let op = match k {
                        Some(TokenKind::Minus) => UnaryExprKind::Minus,
                        _ => UnaryExprKind::Not,
                    };
                    Ok((unary_expr(span, op, operand), n))
                },
            }
        },
        _ => {
            match parse_primary(tokens, pos) {
                Err(e) => Err(e),
                Ok((e, n)) => parse_postfix_tail(tokens, pos, e, n),
            }
        },
    }
}

/// Reads the calls, indexings and property accesses that follow `e`.
fn parse_postfix_tail(tokens: &Vec<SpannedToken>, from: usize, e: Expr, pos: usize) -> (r: Result<
    (Expr, usize),
    ParseError,
>)
    requires
        from < pos <= tokens@.len(),
    ensures
        expr_result(r) == grammar::g_postfix_tail(spanned_views(tokens@), from as int, e.view(), pos as int),
        r is Ok ==> pos <= r->Ok_0.1 <= tokens@.len(),
    decreases tokens@.len() - pos, 0nat,
{
    proof {
        grammar::unfold_g_postfix_tail(spanned_views(tokens@), from as int, e.view(), pos as int);
    }
    match kind_at(tokens, pos) {
        Some(TokenKind::LeftParenthesis) => {
            match parse_list(tokens, pos + 1, TokenKind::RightParenthesis) {
                Err(err) => Err(err),
                Ok((items, n)) => {
                    let span = span_between(tokens, from, n);
                    let args = Arguments(items);
                    proof {
                        lemma_arguments_view(&args);
                    }
                    parse_postfix_tail(tokens, from, Expr { span, kind: ExprKind::Call(Box::new(e), args) }, n)
                },
            }
        },
        Some(TokenKind::LeftBracket) => {
            match parse_expr(tokens, pos + 1) {
                Err(err) => Err(err),
                Ok((index, n)) => {
                    match expect(tokens, skip_newlines(tokens, n), TokenKind::RightBracket) {
                        Err(err) => Err(err),
                        Ok(m) => {
                            let span = span_between(tokens, from, m);
                            parse_postfix_tail(
                                tokens,
                                from,
                                Expr { span, kind: ExprKind::Index(Box::new(e), Box::new(index)) },
                                m,
                            )
                        },
                    }
                },
            }
        },
        Some(TokenKind::Dot) => {
            match parse_ident(tokens, pos + 1) {
                Err(err) => Err(err),
                Ok((name, m)) => {
                    let span = span_between(tokens, from, m);
                    parse_postfix_tail(tokens, from, Expr { span, kind: ExprKind::Prop(Box::new(e), name) }, m)
                },
            }
        },
        _ => Ok((e, pos)),
    }
}

/// Reads the items of a list from `pos` up to the closing delimiter.
fn parse_list(tokens: &Vec<SpannedToken>, pos: usize, close: TokenKind) -> (r: Result<(Vec<Expr>, usize), ParseError>)
    requires
        pos <= tokens@.len(),
    ensures
        match r {
            Ok((items, n)) => grammar::g_list(spanned_views(tokens@), pos as int, Seq::empty(), close) == Ok::<
                (Seq<ExprView>, int),
                ParseErrorView,
            >((exprs_view(items@), n as int)) && pos < n <= tokens@.len(),
            Err(e) => grammar::g_list(spanned_views(tokens@), pos as int, Seq::empty(), close) == Err::<
                (Seq<ExprView>, int),
                ParseErrorView,
            >(e.view()),
        },
    decreases tokens@.len() - pos, 41nat,
{
    let ghost ts = spanned_views(tokens@);
    let mut items: Vec<Expr> = Vec::new();
    let mut p = pos;
    assert(exprs_view(items@) =~= Seq::empty());
    loop
        invariant
            pos <= p <= tokens@.len(),
            ts == spanned_views(tokens@),
            grammar::g_list(ts, pos as int, Seq::empty(), close) == grammar::g_list(
                ts,
                p as int,
                exprs_view(items@),
                close,
            ),
        decreases tokens@.len() - p,
    {
        proof {
            grammar::unfold_g_list(ts, p as int, exprs_view(items@), close);
        }
        if is_kind(tokens, p, close) {
            return Ok((items, p + 1));
        }
        let ghost acc = exprs_view(items@);
        match parse_expr(tokens, p) {
            Err(e) => {
                return Err(e);
            },
            Ok((item, n)) => {
                let m = skip_separators(tokens, n);
                if n < m || is_kind(tokens, m, close) {
                    items.push(item);
                    assert(exprs_view(items@) =~= acc.push(item.view()));
                    p = m;
                } else {
                    return Err(unexpected(tokens, n, Expectation::ItemEnd(close)));
                }
            },
        }
    }
}

/// Reads the fields of a record literal from `pos` up to the closing brace.
fn parse_fields(tokens: &Vec<SpannedToken>, pos: usize) -> (r: Result<(Vec<(Ident, Expr)>, usize), ParseError>)
    requires
        pos <= tokens@.len(),
    ensures
        match r {
            Ok((fields, n)) => grammar::g_fields(spanned_views(tokens@), pos as int, Seq::empty()) == Ok::<
                (Seq<(IdentView, ExprView)>, int),
                ParseErrorView,
            >((expr_fields_view(fields@), n as int)) && pos < n <= tokens@.len(),
            Err(e) => grammar::g_fields(spanned_views(tokens@), pos as int, Seq::empty()) == Err::<
                (Seq<(IdentView, ExprView)>, int),
                ParseErrorView,
            >(e.view()),
        },
    decreases tokens@.len() - pos, 41nat,
{
    let ghost ts = spanned_views(tokens@);
    let mut fields: Vec<(Ident, Expr)> = Vec::new();
    let mut p = pos;
    assert(expr_fields_view(fields@) =~= Seq::empty());
    loop
        invariant
            pos <= p <= tokens@.len(),
            ts == spanned_views(tokens@),
            grammar::g_fields(ts, pos as int, Seq::empty()) == grammar::g_fields(
                ts,
                p as int,
                expr_fields_view(fields@),
            ),
        decreases tokens@.len() - p,
    {
        proof {
            grammar::unfold_g_fields(ts, p as int, expr_fields_view(fields@));
        }
        if is_kind(tokens, p, TokenKind::RightBrace) {
            return Ok((fields, p + 1));
        }
        let ghost acc = expr_fields_view(fields@);
        let name = match parse_ident(tokens, p) {
            Err(e) => {
                return Err(e);
            },
            Ok((name, _)) => name,
        };
        match expect(tokens, p + 1, TokenKind::Colon) {
            Err(e) => {
                return Err(e);
            },
            Ok(_) => {},
        }
        match parse_expr(tokens, p + 2) {
            Err(e) => {
                return Err(e);
            },
            Ok((value, n)) => {
                let m = skip_separators(tokens, n);
                if n < m || is_kind(tokens, m, TokenKind::RightBrace) {
                    fields.push((name, value));
                    assert(expr_fields_view(fields@) =~= acc.push((name.view(), value.view())));
                    p = m;
                } else {
                    return Err(unexpected(tokens, n, Expectation::ItemEnd(TokenKind::RightBrace)));
                }
            },
        }
    }
}

/// Reads the parameter names of a function literal from `pos` up to the
/// closing `|`.
fn parse_params(tokens: &Vec<SpannedToken>, pos: usize) -> (r: Result<(Vec<Ident>, usize), ParseError>)
    requires
        pos <= tokens@.len(),
    ensures
        match r {
            Ok((names, n)) => grammar::g_params(spanned_views(tokens@), pos as int, Seq::empty()) == Ok::<
                (Seq<IdentView>, int),
                ParseErrorView,
            >((idents_view(names@), n as int)) && pos < n <= tokens@.len(),
            Err(e) => grammar::g_params(spanned_views(tokens@), pos as int, Seq::empty()) == Err::<
                (Seq<IdentView>, int),
                ParseErrorView,
            >(e.view()),
        },
{
    let ghost ts = spanned_views(tokens@);
    let mut names: Vec<Ident> = Vec::new();
    let mut p = pos;
    assert(idents_view(names@) =~= Seq::empty());
    loop
        invariant
            pos <= p <= tokens@.len(),
            ts == spanned_views(tokens@),
            grammar::g_params(ts, pos as int, Seq::empty()) == grammar::g_params(ts, p as int, idents_view(names@)),
        decreases tokens@.len() - p,
    {
        proof {
            grammar::unfold_g_params(ts, p as int, idents_view(names@));
        }
        if is_kind(tokens, p, TokenKind::Pipe) {
            return Ok((names, p + 1));
        }
        let ghost acc = idents_view(names@);
        match parse_ident(tokens, p) {
            Err(e) => {
                return Err(e);
            },
            Ok((name, n)) => {
                let m = skip_separators(tokens, n);
                if n < m || is_kind(tokens, m, TokenKind::Pipe) {
                    names.push(name);
                    assert(idents_view(names@) =~= acc.push(name.view()));
                    p = m;
                } else {
                    return Err(unexpected(tokens, n, Expectation::ItemEnd(TokenKind::Pipe)));
                }
            },
        }
    }
}

/// The span of a block whose statements stand from `from` up to `to`.
fn code_span(tokens: &Vec<SpannedToken>, from: usize, to: usize) -> (r: Span)
    requires
        from <= to <= tokens@.len(),
    ensures
        r == grammar::code_span(spanned_views(tokens@), from as int, to as int),
{
    if from < to {
        span_between(tokens, from, to)
    } else if from < tokens.len() {
        Span { start: tokens[from].span.start, end: tokens[from].span.start }
    } else {
        let at = if tokens.len() > 0 {
            tokens[tokens.len() - 1].span.end
        } else {
            0
        };
        Span { start: at, end: at }
    }
}

/// Reads the statements of a block from `pos` up to where the block closes.
pub fn parse_stmts(tokens: &Vec<SpannedToken>, pos: usize, close: Option<TokenKind>) -> (r: Result<
    (Code, usize),
    ParseError,
>)
    requires
        pos <= tokens@.len(),
    ensures
        code_result(r) == grammar::g_stmts(spanned_views(tokens@), pos as int, pos as int, Seq::empty(), close),
        r is Ok ==> pos <= r->Ok_0.1 <= tokens@.len() && grammar::at_close(
            spanned_views(tokens@),
            r->Ok_0.1 as int,
            close,
        ),
    decreases tokens@.len() - pos, 41nat,
{
    let ghost ts = spanned_views(tokens@);
    let mut stmts: Vec<Expr> = Vec::new();
    let mut p = pos;
    assert(exprs_view(stmts@) =~= Seq::empty());
    loop
        invariant
            pos <= p <= tokens@.len(),
            ts == spanned_views(tokens@),
            grammar::g_stmts(ts, pos as int, pos as int, Seq::empty(), close) == grammar::g_stmts(
                ts,
                pos as int,
                p as int,
                exprs_view(stmts@),
                close,
            ),
        decreases tokens@.len() - p,
    {
        proof {
            grammar::unfold_g_stmts(ts, pos as int, p as int, exprs_view(stmts@), close);
        }
        let q = skip_newlines(tokens, p);
        if at_close(tokens, q, close) {
            let code = Code { span: code_span(tokens, pos, q), stmts };
            proof {
                lemma_code_view(&code);
            }
            return Ok((code, q));
        }
        let ghost acc = exprs_view(stmts@);
        match parse_expr(tokens, q) {
            Err(e) => {
                return Err(e);
            },
            Ok((stmt, n)) => {
                if is_kind(tokens, n, TokenKind::NewLine) || at_close(tokens, n, close) {
                    stmts.push(stmt);
                    assert(exprs_view(stmts@) =~= acc.push(stmt.view()));
                    p = n;
                } else {
                    return Err(unexpected(tokens, n, Expectation::StatementEnd));
                }
            },
        }
    }
}

/// Reads a block in braces.
fn parse_block(tokens: &Vec<SpannedToken>, pos: usize) -> (r: Result<(Code, usize), ParseError>)
    ensures
        code_result(r) == grammar::g_block(spanned_views(tokens@), pos as int),
        advanced(r, pos, tokens@.len() as int),
    decreases tokens@.len() - pos, 42nat,
{
    proof {
        grammar::unfold_g_block(spanned_views(tokens@), pos as int);
    }
    // a length is a `usize`: places up to it can be counted without overflow
    let _ = tokens.len();
    match expect(tokens, pos, TokenKind::LeftBrace) {
        Err(e) => Err(e),
        Ok(_) => {
            match parse_stmts(tokens, pos + 1, Some(TokenKind::RightBrace)) {
                Err(e) => Err(e),
                Ok((code, n)) => Ok((code, n + 1)),
            }
        },
    }
}

/// Reads the body of a function literal.
fn parse_body(tokens: &Vec<SpannedToken>, pos: usize) -> (r: Result<(Code, usize), ParseError>)
    ensures
        code_result(r) == grammar::g_body(spanned_views(tokens@), pos as int),
        advanced(r, pos, tokens@.len() as int),
    decreases tokens@.len() - pos, 43nat,
{
    proof {
        grammar::unfold_g_body(spanned_views(tokens@), pos as int);
    }
    // a length is a `usize`: places up to it can be counted without overflow
    let _ = tokens.len();
    if is_kind(tokens, pos, TokenKind::LeftBrace) {
        parse_block(tokens, pos)
    } else {
        match parse_expr(tokens, pos) {
            Err(e) => Err(e),
            Ok((e, n)) => {
                let mut stmts: Vec<Expr> = Vec::new();
                stmts.push(e);
                let code = Code { span: Span::dummy(), stmts };
                proof {
                    lemma_code_view(&code);
                    assert(exprs_view(code.stmts@) =~= seq![e.view()]);
                }
                Ok((code, n))
            },
        }
    }
}

/// A literal or an identifier as an expression.
fn leaf(t: &SpannedToken) -> (r: Option<ExprKind>)
    ensures
        match r {
            Some(k) => grammar::leaf_view(t.view()) == Some(k.view()),
            None => grammar::leaf_view(t.view()) is None,
        },
{
    reveal(Token::spec_kind);
    match &t.token {
        Ok(Token::Nil) => Some(ExprKind::Literal(Literal::Nil(Nil { span: t.span }))),
        Ok(Token::True) => Some(ExprKind::Literal(Literal::Boolean(Boolean { span: t.span, value: true }))),
        Ok(Token::False) => Some(ExprKind::Literal(Literal::Boolean(Boolean { span: t.span, value: false }))),
        Ok(Token::Integer(v)) => Some(ExprKind::Literal(Literal::Integer(Integer { span: t.span, value: *v }))),
        Ok(Token::String(q)) => Some(
            ExprKind::Literal(Literal::String(StringT { span: t.span, value: q.content.clone() })),
        ),
        Ok(Token::Identifier(s)) => Some(ExprKind::Ident(Ident { span: t.span, symbol: s.clone() })),
        _ => None,
    }
}

/// Reads a function literal at `pos`, where `|` or `||` stands.
fn parse_function(tokens: &Vec<SpannedToken>, pos: usize) -> (r: Result<(Expr, usize), ParseError>)
    requires
        grammar::is_kind(spanned_views(tokens@), pos as int, TokenKind::Pipe) || grammar::is_kind(
            spanned_views(tokens@),
            pos as int,
            TokenKind::PipePipe,
        ),
    ensures
        expr_result(r) == grammar::g_function(spanned_views(tokens@), pos as int),
        advanced(r, pos, tokens@.len() as int),
    decreases tokens@.len() - pos, 8nat,
{
    proof {
        grammar::unfold_g_function(spanned_views(tokens@), pos as int);
    }
    let params = if is_kind(tokens, pos, TokenKind::Pipe) {
        parse_params(tokens, pos + 1)
    } else {
        let v: Vec<Ident> = Vec::new();
        assert(idents_view(v@) =~= Seq::empty());
        Ok((v, pos + 1))
    };
    match params {
        Err(e) => Err(e),
        Ok((names, n)) => {
            match expect(tokens, n, TokenKind::Arrow) {
                Err(e) => Err(e),
                Ok(b) => {
                    match parse_body(tokens, b) {
                        Err(e) => Err(e),
                        Ok((body, m)) => {
                            let span = span_between(tokens, pos, m);
                            let f = Function { parameters: Parameters(names), body };
                            assert(f.view() == (FunctionView { parameters: idents_view(names@), body: body.view() }));
                            Ok((Expr { span, kind: ExprKind::Function(f) }, m))
                        },
                    }
                },
            }
        },
    }
}

/// Reads an `if` at `pos`, where `if` stands.
fn parse_if(tokens: &Vec<SpannedToken>, pos: usize) -> (r: Result<(Expr, usize), ParseError>)
    requires
        grammar::is_kind(spanned_views(tokens@), pos as int, TokenKind::If),
    ensures
        expr_result(r) == grammar::g_if(spanned_views(tokens@), pos as int),
        advanced(r, pos, tokens@.len() as int),
    decreases tokens@.len() - pos, 8nat,
{
    proof {
        grammar::unfold_g_if(spanned_views(tokens@), pos as int);
    }
    // a length is a `usize`: places up to it can be counted without overflow
    let _ = tokens.len();
    match parse_expr(tokens, pos + 1) {
        Err(e) => Err(e),
        Ok((condition, n)) => {
            match parse_block(tokens, n) {
                Err(e) => Err(e),
                Ok((yes, m)) => {
                    if !is_kind(tokens, m, TokenKind::Else) {
                        let span = span_between(tokens, pos, m);
                        Ok((Expr { span, kind: ExprKind::If { condition: Box::new(condition), yes } }, m))
                    } else {
                        match parse_block(tokens, m + 1) {
                            Err(e) => Err(e),
                            Ok((no, q)) => {
                                let span = span_between(tokens, pos, q);
                                Ok(
                                    (
                                        Expr {
                                            span,
                                            kind: ExprKind::IfElse { condition: Box::new(condition), yes, no },
                                        },
                                        q,
                                    ),
                                )
                            },
                        }
                    }
                },
            }
        },
    }
}

/// Reads a loop at `pos`, where `iter` stands.
fn parse_for(tokens: &Vec<SpannedToken>, pos: usize) -> (r: Result<(Expr, usize), ParseError>)
    requires
        grammar::is_kind(spanned_views(tokens@), pos as int, TokenKind::Iter),
    ensures
        expr_result(r) == grammar::g_for(spanned_views(tokens@), pos as int),
        advanced(r, pos, tokens@.len() as int),
    decreases tokens@.len() - pos, 8nat,
{
    proof {
        grammar::unfold_g_for(spanned_views(tokens@), pos as int);
    }
    // a length is a `usize`: places up to it can be counted without overflow
    let _ = tokens.len();
    match parse_expr(tokens, pos + 1) {
        Err(e) => Err(e),
        Ok((collection, n)) => {
            match expect(tokens, n, TokenKind::Of) {
                Err(e) => Err(e),
                Ok(_) => {
                    match parse_ident(tokens, n + 1) {
                        Err(e) => Err(e),
                        Ok((item, b)) => {
                            match parse_block(tokens, b) {
                                Err(e) => Err(e),
                                Ok((body, m)) => {
                                    let span = span_between(tokens, pos, m);
                                    Ok(
                                        (
                                            Expr {
                                                span,
                                                kind: ExprKind::For {
                                                    collection: Box::new(collection),
                                                    item,
                                                    body,
                                                },
                                            },
                                            m,
                                        ),
                                    )
                                },
                            }
                        },
                    }
                },
            }
        },
    }
}

/// Reads an expression in parentheses at `pos`, where `(` stands.
fn parse_paren(tokens: &Vec<SpannedToken>, pos: usize) -> (r: Result<(Expr, usize), ParseError>)
    requires
        grammar::is_kind(spanned_views(tokens@), pos as int, TokenKind::LeftParenthesis),
    ensures
        expr_result(r) == grammar::g_paren(spanned_views(tokens@), pos as int),
        advanced(r, pos, tokens@.len() as int),
    decreases tokens@.len() - pos, 8nat,
{
    proof {
        grammar::unfold_g_paren(spanned_views(tokens@), pos as int);
    }
    // a length is a `usize`: places up to it can be counted without overflow
    let _ = tokens.len();
    match parse_expr(tokens, pos + 1) {
        Err(e) => Err(e),
        Ok((inner, n)) => {
            match expect(tokens, skip_newlines(tokens, n), TokenKind::RightParenthesis) {
                Err(e) => Err(e),
                Ok(m) => Ok((inner, m)),
            }
        },
    }
}

/// Reads an array literal at `pos`, where `[` stands.
fn parse_array(tokens: &Vec<SpannedToken>, pos: usize) -> (r: Result<(Expr, usize), ParseError>)
    requires
        grammar::is_kind(spanned_views(tokens@), pos as int, TokenKind::LeftBracket),
    ensures
        expr_result(r) == grammar::g_array(spanned_views(tokens@), pos as int),
        advanced(r, pos, tokens@.len() as int),
    decreases tokens@.len() - pos, 8nat,
{
    proof {
        grammar::unfold_g_array(spanned_views(tokens@), pos as int);
    }
    // a length is a `usize`: places up to it can be counted without overflow
    let _ = tokens.len();
    match parse_list(tokens, pos + 1, TokenKind::RightBracket) {
        Err(e) => Err(e),
        Ok((elements, n)) => {
            let span = span_between(tokens, pos, n);
            let array = Array { span, elements };
            proof {
                lemma_array_literal_view(&array);
            }
            Ok((Expr { span, kind: ExprKind::Array(array) }, n))
        },
    }
}

/// Reads a record literal at `pos`, where `{` stands.
fn parse_record(tokens: &Vec<SpannedToken>, pos: usize) -> (r: Result<(Expr, usize), ParseError>)
    requires
        grammar::is_kind(spanned_views(tokens@), pos as int, TokenKind::LeftBrace),
    ensures
        expr_result(r) == grammar::g_record(spanned_views(tokens@), pos as int),
        advanced(r, pos, tokens@.len() as int),
    decreases tokens@.len() - pos, 8nat,
{
    proof {
        grammar::unfold_g_record(spanned_views(tokens@), pos as int);
    }
    // a length is a `usize`: places up to it can be counted without overflow
    let _ = tokens.len();
    match parse_fields(tokens, pos + 1) {
        Err(e) => Err(e),
        Ok((fields, n)) => {
            let span = span_between(tokens, pos, n);
            let record = Record { span, fields };
            proof {
                lemma_record_literal_view(&record);
            }
            Ok((Expr { span, kind: ExprKind::Record(record) }, n))
        },
    }
}

/// Reads a primary expression.
fn parse_primary(tokens: &Vec<SpannedToken>, pos: usize) -> (r: Result<(Expr, usize), ParseError>)
    ensures
        expr_result(r) == grammar::g_primary(spanned_views(tokens@), pos as int),
        advanced(r, pos, tokens@.len() as int),
    decreases tokens@.len() - pos, 9nat,
{
    proof {
        grammar::unfold_g_primary(spanned_views(tokens@), pos as int);
    }
    if pos < tokens.len() {
        match leaf(&tokens[pos]) {
            Some(kind) => {
                return Ok((Expr { span: tokens[pos].span, kind }, pos + 1));
            },
            None => {},
        }
    }
    match kind_at(tokens, pos) {
        Some(TokenKind::LeftParenthesis) => parse_paren(tokens, pos),
        Some(TokenKind::LeftBracket) => parse_array(tokens, pos),
        Some(TokenKind::LeftBrace) => parse_record(tokens, pos),
        Some(TokenKind::Pipe) => parse_function(tokens, pos),
        Some(TokenKind::PipePipe) => parse_function(tokens, pos),
        Some(TokenKind::If) => parse_if(tokens, pos),
        Some(TokenKind::Iter) => parse_for(tokens, pos),
        _ => Err(unexpected(tokens, pos, Expectation::Expression)),
    }
}

/// Reads the tokens as one expression.
pub fn parse_tokens(tokens: &Vec<SpannedToken>) -> (r: Result<Expr, ParseError>)
    ensures
        match r {
            Ok(e) => grammar::g_single(spanned_views(tokens@)) == Ok::<ExprView, ParseErrorView>(e.view()),
            Err(e) => grammar::g_single(spanned_views(tokens@)) == Err::<ExprView, ParseErrorView>(e.view()),
        },
{
    match parse_expr(tokens, 0) {
        Err(e) => Err(e),
        Ok((e, n)) => {
            if n >= tokens.len() {
                Ok(e)
            } else {
                match &tokens[n].token {
                    Ok(t) => Err(
                        ParseError::ExtraToken { token: (tokens[n].span.start, t.clone(), tokens[n].span.end) },
                    ),
                    Err(err) => Err(ParseError::User { error: Spanned { span: tokens[n].span, value: *err } }),
                }
            }
        },
    }
}

/// Reads the tokens as the statements of a program.
pub fn parse_code_tokens(tokens: &Vec<SpannedToken>) -> (r: Result<Code, ParseError>)
    ensures
        match r {
            Ok(c) => grammar::g_program(spanned_views(tokens@)) == Ok::<CodeView, ParseErrorView>(c.view()),
            Err(e) => grammar::g_program(spanned_views(tokens@)) == Err::<CodeView, ParseErrorView>(e.view()),
        },
{
    match parse_stmts(tokens, 0, None) {
        Err(e) => Err(e),
        Ok((code, _)) => Ok(code),
    }
}

/// The expression that a text is, if it is one.
pub open spec fn spec_parse(s: Seq<u8>) -> Result<ExprView, ParseErrorView> {
    grammar::g_single(tokens_of(s, LexerConfig::spec_default()))
}

/// The program that a text is, if it is one.
pub open spec fn spec_parse_code(s: Seq<u8>) -> Result<CodeView, ParseErrorView> {
    grammar::g_program(tokens_of(s, LexerConfig::spec_default()))
}

/// Parses a text as one expression. In the tree that comes back every
/// node encloses its children.
pub fn parse(code: &str) -> (r: Result<Expr, ParseError>)
    ensures
        match r {
            Ok(e) => spec_parse(code.spec_bytes()) == Ok::<ExprView, ParseErrorView>(e.view()) && well_spanned(
                e.view(),
            ),
            Err(e) => spec_parse(code.spec_bytes()) == Err::<ExprView, ParseErrorView>(e.view()) && !(e
                is InvalidToken),
        },
{
    // a length is a `usize`: places up to it can be counted without overflow
    let _ = code.as_bytes().len();
    proof {
        lemma_parsed_trees_are_well_spanned(code.spec_bytes());
        lemma_never_invalid_token(tokens_of(code.spec_bytes(), LexerConfig::spec_default()));
    }
    let tokens = tokenize(code, LexerConfig::default());
    parse_tokens(&tokens)
}

/// Parses a text as a program: statements, one to a line. Every statement
/// lies inside the span of the program, and in every statement every node
/// encloses its children.
pub fn parse_code(code: &str) -> (r: Result<Code, ParseError>)
    ensures
        match r {
            Ok(c) => spec_parse_code(code.spec_bytes()) == Ok::<CodeView, ParseErrorView>(c.view())
                && all_within(c.view().stmts, c.view().span),
            Err(e) => spec_parse_code(code.spec_bytes()) == Err::<CodeView, ParseErrorView>(e.view()) && !(e
                is InvalidToken),
        },
{
    // a length is a `usize`: places up to it can be counted without overflow
    let _ = code.as_bytes().len();
    proof {
        lemma_parsed_trees_are_well_spanned(code.spec_bytes());
        lemma_never_invalid_token(tokens_of(code.spec_bytes(), LexerConfig::spec_default()));
    }
    let tokens = tokenize(code, LexerConfig::default());
    parse_code_tokens(&tokens)
}

} // verus!
