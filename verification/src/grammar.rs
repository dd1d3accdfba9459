//! The grammar, as functions from a token sequence and a place in it to the
//! tree that is read there and the place after it, or to the error that
//! stops the reading.
//!
//! Expressions, loosest binding first: assignments, declarations and
//! keyword forms, which take everything to their right; `||`; `&&`;
//! `== !=`; `< > <= >=`; `+ -`; `* / %`, all left to right; prefix `-` and
//! `!`; call, index and property access, left to right; and the primary
//! forms.
//!
//! The functions that call one another are closed: outside this file their
//! definitions are not unfolded on their own. Each of them comes with a
//! lemma, `unfold_..`, that states its defining equation; a proof calls the
//! lemma for the place at which it needs the definition.

use crate::ast::BinExprKind;
use crate::ast::UnaryExprKind;
use crate::ast_model::AssignOp;
use crate::ast_model::CodeView;
use crate::ast_model::ControlKind;
use crate::ast_model::ExprKindView;
use crate::ast_model::ExprView;
use crate::ast_model::FunctionView;
use crate::ast_model::IdentView;
use crate::ast_model::LiteralView;
use crate::span::Span;
use crate::token::LexError;
use crate::token::SpannedTokenView;
use crate::token::TokenKind;
use crate::token::TokenView;
use vstd::prelude::*;

verus! {

/// What the parser was looking for where it stopped.
#[derive(Debug, Clone, Copy, PartialEq, Eq, Structural)]
pub enum Expectation {
    /// The start of an expression.
    Expression,
    /// One kind of token.
    Kind(TokenKind),
    /// The end of a statement: a newline or the end of the block.
    StatementEnd,
    /// After an item of a list: a separator or the closing delimiter.
    ItemEnd(TokenKind),
}

/// The model of a parse error.
pub enum ParseErrorView {
    InvalidToken { location: usize },
    UnrecognizedEof { location: usize, expected: Seq<TokenKind> },
    UnrecognizedToken { start: usize, token: TokenView, end: usize, expected: Seq<TokenKind> },
    ExtraToken { start: usize, token: TokenView, end: usize },
    User { span: Span, error: LexError },
}

/// What is read at a place: a tree and the place after it, or an error.
pub type Parsed<T> = Result<(T, int), ParseErrorView>;

/// The kinds of token that an expectation accepts.
#[verifier::opaque]
pub open spec fn expected_kinds(e: Expectation) -> Seq<TokenKind> {
    match e {
        Expectation::Expression => seq![
            TokenKind::Identifier,
            TokenKind::Integer,
            TokenKind::String,
            TokenKind::Nil,
            TokenKind::True,
            TokenKind::False,
            TokenKind::LeftParenthesis,
            TokenKind::LeftBracket,
            TokenKind::LeftBrace,
            TokenKind::Pipe,
            TokenKind::PipePipe,
            TokenKind::Minus,
            TokenKind::Bang,
            TokenKind::Let,
            TokenKind::LetMut,
            TokenKind::If,
            TokenKind::Iter,
            TokenKind::Return,
            TokenKind::Break,
            TokenKind::Continue,
            TokenKind::Panic,
            TokenKind::Assert,
        ],
        Expectation::Kind(k) => seq![k],
        Expectation::StatementEnd => seq![TokenKind::NewLine, TokenKind::RightBrace],
        Expectation::ItemEnd(close) => seq![TokenKind::Comma, TokenKind::NewLine, close],
    }
}

/// The kind of the token at `pos`, if a token stands there.
pub open spec fn kind_at(ts: Seq<SpannedTokenView>, pos: int) -> Option<TokenKind> {
    if 0 <= pos < ts.len() {
        match ts[pos].token {
            Ok(t) => Some(t.kind),
            Err(_) => None,
        }
    } else {
        None
    }
}

/// Whether a token of kind `k` stands at `pos`.
pub open spec fn is_kind(ts: Seq<SpannedTokenView>, pos: int, k: TokenKind) -> bool {
    kind_at(ts, pos) == Some(k)
}

/// Where the input ends: the end of the last token, or 0 without tokens.
pub open spec fn end_of_input(ts: Seq<SpannedTokenView>) -> usize {
    if ts.len() > 0 {
        ts[ts.len() - 1].span.end
    } else {
        0
    }
}

/// The error of a token that does not fit: the end of the input where no
/// token is left, the lexical error where the token is invalid, else the
/// token with what was looked for.
pub open spec fn unexpected(ts: Seq<SpannedTokenView>, pos: int, e: Expectation) -> ParseErrorView {
    if 0 <= pos < ts.len() {
        match ts[pos].token {
            Ok(t) => ParseErrorView::UnrecognizedToken {
                start: ts[pos].span.start,
                token: t,
                end: ts[pos].span.end,
                expected: expected_kinds(e),
            },
            Err(err) => ParseErrorView::User { span: ts[pos].span, error: err },
        }
    } else {
        ParseErrorView::UnrecognizedEof { location: end_of_input(ts), expected: expected_kinds(e) }
    }
}

/// The span from the start of the token at `from` to the end of the token
/// before `to`.
pub open spec fn span_between(ts: Seq<SpannedTokenView>, from: int, to: int) -> Span {
    Span { start: ts[from].span.start, end: ts[to - 1].span.end }
}

/// The span of a block whose statements stand from `from` up to `to`: from
/// the first token to the last, separators included. The span of an empty
/// block is empty and stands where the next token starts, or where the
/// input ends.
pub open spec fn code_span(ts: Seq<SpannedTokenView>, from: int, to: int) -> Span {
    if from < to {
        span_between(ts, from, to)
    } else if 0 <= from < ts.len() {
        Span { start: ts[from].span.start, end: ts[from].span.start }
    } else {
        Span { start: end_of_input(ts), end: end_of_input(ts) }
    }
}

/// The identifier at `pos`.
pub open spec fn g_ident(ts: Seq<SpannedTokenView>, pos: int) -> Parsed<IdentView> {
    if is_kind(ts, pos, TokenKind::Identifier) {
        Ok((IdentView { span: ts[pos].span, symbol: ts[pos].token->Ok_0.text }, pos + 1))
    } else {
        Err(unexpected(ts, pos, Expectation::Kind(TokenKind::Identifier)))
    }
}

/// The place after the token of kind `k` at `pos`.
pub open spec fn g_expect(ts: Seq<SpannedTokenView>, pos: int, k: TokenKind) -> Result<int, ParseErrorView> {
    if is_kind(ts, pos, k) {
        Ok(pos + 1)
    } else {
        Err(unexpected(ts, pos, Expectation::Kind(k)))
    }
}

/// The assignment operator that a kind of token writes.
pub open spec fn assign_op(k: Option<TokenKind>) -> Option<AssignOp> {
    match k {
        Some(TokenKind::Equal) => Some(AssignOp::Plain),
        Some(TokenKind::PlusEqual) => Some(AssignOp::Add),
        Some(TokenKind::MinusEqual) => Some(AssignOp::Sub),
        Some(TokenKind::AsteriskEqual) => Some(AssignOp::Mul),
        Some(TokenKind::SlashEqual) => Some(AssignOp::Div),
        Some(TokenKind::PercentEqual) => Some(AssignOp::Mod),
        _ => None,
    }
}

/// The keyword form that a kind of token starts.
pub open spec fn control_kind(k: Option<TokenKind>) -> Option<ControlKind> {
    match k {
        Some(TokenKind::Panic) => Some(ControlKind::Panic),
        Some(TokenKind::Assert) => Some(ControlKind::Assert),
        Some(TokenKind::Return) => Some(ControlKind::Return),
        Some(TokenKind::Break) => Some(ControlKind::Break),
        Some(TokenKind::Continue) => Some(ControlKind::Continue),
        _ => None,
    }
}

/// The number of levels of infix operators.
pub open spec fn levels() -> nat {
    6
}

/// The infix operator that a kind of token writes at a level. Level 0 binds
/// loosest.
pub open spec fn infix_op(k: Option<TokenKind>, level: nat) -> Option<BinExprKind> {
    match k {
        Some(TokenKind::PipePipe) => if level == 0 {
            Some(BinExprKind::Or)
        } else {
            None
        },
        Some(TokenKind::AndAnd) => if level == 1 {
            Some(BinExprKind::And)
        } else {
            None
        },
        Some(TokenKind::EqualEqual) => if level == 2 {
            Some(BinExprKind::Equal)
        } else {
            None
        },
        Some(TokenKind::BangEqual) => if level == 2 {
            Some(BinExprKind::NotEqual)
        } else {
            None
        },
        Some(TokenKind::LeftAngledBracket) => if level == 3 {
            Some(BinExprKind::LessThan)
        } else {
            None
        },
        Some(TokenKind::RightAngledBracket) => if level == 3 {
            Some(BinExprKind::GreaterThan)
        } else {
            None
        },
        Some(TokenKind::LeftAngledBracketEqual) => if level == 3 {
            Some(BinExprKind::LessThanEqual)
        } else {
            None
        },
        Some(TokenKind::RightAngledBracketEqual) => if level == 3 {
            Some(BinExprKind::GreaterThanEqual)
        } else {
            None
        },
        Some(TokenKind::Plus) => if level == 4 {
            Some(BinExprKind::Add)
        } else {
            None
        },
        Some(TokenKind::Minus) => if level == 4 {
            Some(BinExprKind::Sub)
        } else {
            None
        },
        Some(TokenKind::Asterisk) => if level == 5 {
            Some(BinExprKind::Mul)
        } else {
            None
        },
        Some(TokenKind::Slash) => if level == 5 {
            Some(BinExprKind::Div)
        } else {
            None
        },
        Some(TokenKind::Percent) => if level == 5 {
            Some(BinExprKind::Mod)
        } else {
            None
        },
        _ => None,
    }
}

/// The place after the separators, commas and newlines, that start at
/// `pos`.
pub open spec fn skip_separators(ts: Seq<SpannedTokenView>, pos: int) -> int
    decreases ts.len() - pos,
{
    if is_kind(ts, pos, TokenKind::Comma) || is_kind(ts, pos, TokenKind::NewLine) {
        skip_separators(ts, pos + 1)
    } else {
        pos
    }
}

/// The place after the newlines that start at `pos`.
pub open spec fn skip_newlines(ts: Seq<SpannedTokenView>, pos: int) -> int
    decreases ts.len() - pos,
{
    if is_kind(ts, pos, TokenKind::NewLine) {
        skip_newlines(ts, pos + 1)
    } else {
        pos
    }
}

/// Whether a block ends at `pos`: on its closing delimiter, or at the end
/// of the input where it has none.
pub open spec fn at_close(ts: Seq<SpannedTokenView>, pos: int, close: Option<TokenKind>) -> bool {
    match close {
        Some(k) => is_kind(ts, pos, k),
        None => pos >= ts.len(),
    }
}

/// An expression whose node and wrapper carry the same span.
pub open spec fn unary_view(span: Span, op: UnaryExprKind, operand: ExprView) -> ExprView {
    ExprView { span, kind: ExprKindView::Unary { span, op, expr: Box::new(operand) } }
}

/// An infix expression whose node and wrapper carry the same span.
pub open spec fn binary_view(span: Span, op: BinExprKind, lhs: ExprView, rhs: ExprView) -> ExprView {
    ExprView { span, kind: ExprKindView::Binary { span, op, lhs: Box::new(lhs), rhs: Box::new(rhs) } }
}

/// The error that stands for a step the grammar never takes.
pub open spec fn stuck() -> ParseErrorView {
    ParseErrorView::InvalidToken { location: 0 }
}

/// An expression.
pub closed spec fn g_expr(ts: Seq<SpannedTokenView>, pos: int) -> Parsed<ExprView>
    decreases ts.len() - pos, 40nat,
{
    let k = kind_at(ts, pos);
    if k == Some(TokenKind::Let) || k == Some(TokenKind::LetMut) {
        match g_ident(ts, pos + 1) {
            Err(e) => Err(e),
            Ok((name, _)) => match g_expect(ts, pos + 2, TokenKind::Equal) {
                Err(e) => Err(e),
                Ok(_) => match g_expr(ts, pos + 3) {
                    Err(e) => Err(e),
                    Ok((rhs, n)) => Ok(
                        (
                            ExprView {
                                span: span_between(ts, pos, n),
                                kind: ExprKindView::Declare(k == Some(TokenKind::LetMut), name, Box::new(rhs)),
                            },
                            n,
                        ),
                    ),
                },
            },
        }
    } else if control_kind(k) is Some {
        match g_expr(ts, pos + 1) {
            Err(e) => Err(e),
            Ok((operand, n)) => Ok(
                (
                    ExprView {
                        span: span_between(ts, pos, n),
                        kind: ExprKindView::Control(control_kind(k)->0, Box::new(operand)),
                    },
                    n,
                ),
            ),
        }
    } else if k == Some(TokenKind::Identifier) && assign_op(kind_at(ts, pos + 1)) is Some {
        match g_expr(ts, pos + 2) {
            Err(e) => Err(e),
            Ok((rhs, n)) => Ok(
                (
                    ExprView {
                        span: span_between(ts, pos, n),
                        kind: ExprKindView::Assign(
                            assign_op(kind_at(ts, pos + 1))->0,
                            IdentView { span: ts[pos].span, symbol: ts[pos].token->Ok_0.text },
                            Box::new(rhs),
                        ),
                    },
                    n,
                ),
            ),
        }
    } else {
        g_binary(ts, pos, 0)
    }
}

/// An operand of the infix operators of `level`: an expression of the next
/// level, or a prefix expression above the last level.
pub closed spec fn g_operand(ts: Seq<SpannedTokenView>, pos: int, level: nat) -> Parsed<ExprView>
    decreases ts.len() - pos, (29 - 2 * level) as nat,
{
    if level >= levels() {
        Err(stuck())
    } else if level + 1 < levels() {
        g_binary(ts, pos, level + 1)
    } else {
        g_unary(ts, pos)
    }
}

/// Operands of `level` joined by the infix operators of that level, left to
/// right.
pub closed spec fn g_binary(ts: Seq<SpannedTokenView>, pos: int, level: nat) -> Parsed<ExprView>
    decreases ts.len() - pos, (30 - 2 * level) as nat,
{
    if level >= levels() {
        Err(stuck())
    } else {
        match g_operand(ts, pos, level) {
            Err(e) => Err(e),
            Ok((lhs, n)) => if pos < n <= ts.len() {
                g_binary_tail(ts, pos, lhs, n, level)
            } else {
                Err(stuck())
            },
        }
    }
}

/// What follows the operand `lhs`, which was read from `from` up to `pos`:
/// as long as an operator of `level` stands there, the next operand joins
/// what was read so far as its right-hand side.
pub closed spec fn g_binary_tail(ts: Seq<SpannedTokenView>, from: int, lhs: ExprView, pos: int, level: nat) -> Parsed<
    ExprView,
>
    decreases ts.len() - pos, 0nat,
{
    match infix_op(kind_at(ts, pos), level) {
        None => Ok((lhs, pos)),
        Some(op) => match g_operand(ts, pos + 1, level) {
            Err(e) => Err(e),
            Ok((rhs, n)) => if pos < n <= ts.len() {
                g_binary_tail(ts, from, binary_view(span_between(ts, from, n), op, lhs, rhs), n, level)
            } else {
                Err(stuck())
            },
        },
    }
}

/// A prefix expression: `-` or `!` before a prefix expression, or a
/// postfix expression.
pub closed spec fn g_unary(ts: Seq<SpannedTokenView>, pos: int) -> Parsed<ExprView>
    decreases ts.len() - pos, 10nat,
{
    let k = kind_at(ts, pos);
    if k == Some(TokenKind::Minus) || k == Some(TokenKind::Bang) {
        match g_unary(ts, pos + 1) {
            Err(e) => Err(e),
            Ok((operand, n)) => Ok(
                (
                    unary_view(
                        span_between(ts, pos, n),
                        if k == Some(TokenKind::Minus) {
                            UnaryExprKind::Minus
                        } else {
                            UnaryExprKind::Not
                        },
                        operand,
                    ),
                    n,
                ),
            ),
        }
    } else {
        match g_primary(ts, pos) {
            Err(e) => Err(e),
            Ok((e, n)) => if pos < n <= ts.len() {
                g_postfix_tail(ts, pos, e, n)
            } else {
                Err(stuck())
            },
        }
    }
}

/// What follows the expression `e`, which was read from `from` up to `pos`:
/// calls, indexings and property accesses, each applied to what was read so
/// far.
pub closed spec fn g_postfix_tail(ts: Seq<SpannedTokenView>, from: int, e: ExprView, pos: int) -> Parsed<ExprView>
    decreases ts.len() - pos, 0nat,
{
    let k = kind_at(ts, pos);
    if k == Some(TokenKind::LeftParenthesis) {
        match g_list(ts, pos + 1, Seq::empty(), TokenKind::RightParenthesis) {
            Err(err) => Err(err),
            Ok((args, n)) => if pos < n <= ts.len() {
                g_postfix_tail(
                    ts,
                    from,
                    ExprView { span: span_between(ts, from, n), kind: ExprKindView::Call(Box::new(e), args) },
                    n,
                )
            } else {
                Err(stuck())
            },
        }
    } else if k == Some(TokenKind::LeftBracket) {
        match g_expr(ts, pos + 1) {
            Err(err) => Err(err),
            Ok((index, n)) => match g_expect(ts, skip_newlines(ts, n), TokenKind::RightBracket) {
                Err(err) => Err(err),
                Ok(m) => if pos < m <= ts.len() {
                    g_postfix_tail(
                        ts,
                        from,
                        ExprView {
                            span: span_between(ts, from, m),
                            kind: ExprKindView::Index(Box::new(e), Box::new(index)),
                        },
                        m,
                    )
                } else {
                    Err(stuck())
                },
            },
        }
    } else if k == Some(TokenKind::Dot) {
        match g_ident(ts, pos + 1) {
            Err(err) => Err(err),
            Ok((name, m)) => if pos < m <= ts.len() {
                g_postfix_tail(
                    ts,
                    from,
                    ExprView { span: span_between(ts, from, m), kind: ExprKindView::Prop(Box::new(e), name) },
                    m,
                )
            } else {
                Err(stuck())
            },
        }
    } else {
        Ok((e, pos))
    }
}

/// The items of a list from `pos` on, added to `acc`, up to the closing
/// delimiter. Items are set apart by commas or newlines, any number of
/// them, which may also follow the last item.
pub closed spec fn g_list(ts: Seq<SpannedTokenView>, pos: int, acc: Seq<ExprView>, close: TokenKind) -> Parsed<
    Seq<ExprView>,
>
    decreases ts.len() - pos, 41nat,
{
    if is_kind(ts, pos, close) {
        Ok((acc, pos + 1))
    } else {
        match g_expr(ts, pos) {
            Err(e) => Err(e),
            Ok((item, n)) => {
                let m = skip_separators(ts, n);
                if !(pos < n <= m <= ts.len()) {
                    Err(stuck())
                } else if n < m || is_kind(ts, m, close) {
                    g_list(ts, m, acc.push(item), close)
                } else {
                    Err(unexpected(ts, n, Expectation::ItemEnd(close)))
                }
            },
        }
    }
}

/// The fields of a record literal from `pos` on, added to `acc`, up to the
/// closing brace: a name, a colon and an expression each, set apart like
/// the items of a list.
pub closed spec fn g_fields(ts: Seq<SpannedTokenView>, pos: int, acc: Seq<(IdentView, ExprView)>) -> Parsed<
    Seq<(IdentView, ExprView)>,
>
    decreases ts.len() - pos, 41nat,
{
    if is_kind(ts, pos, TokenKind::RightBrace) {
        Ok((acc, pos + 1))
    } else {
        match g_ident(ts, pos) {
            Err(e) => Err(e),
            Ok((name, _)) => match g_expect(ts, pos + 1, TokenKind::Colon) {
                Err(e) => Err(e),
                Ok(_) => match g_expr(ts, pos + 2) {
                    Err(e) => Err(e),
                    Ok((value, n)) => {
                        let m = skip_separators(ts, n);
                        if !(pos < n <= m <= ts.len()) {
                            Err(stuck())
                        } else if n < m || is_kind(ts, m, TokenKind::RightBrace) {
                            g_fields(ts, m, acc.push((name, value)))
                        } else {
                            Err(unexpected(ts, n, Expectation::ItemEnd(TokenKind::RightBrace)))
                        }
                    },
                },
            },
        }
    }
}

/// The parameter names of a function literal from `pos` on, added to
/// `acc`, up to the closing `|`, set apart like the items of a list.
pub closed spec fn g_params(ts: Seq<SpannedTokenView>, pos: int, acc: Seq<IdentView>) -> Parsed<Seq<IdentView>>
    decreases ts.len() - pos,
{
    if is_kind(ts, pos, TokenKind::Pipe) {
        Ok((acc, pos + 1))
    } else {
        match g_ident(ts, pos) {
            Err(e) => Err(e),
            Ok((name, n)) => {
                let m = skip_separators(ts, n);
                if !(pos < n <= m <= ts.len()) {
                    Err(stuck())
                } else if n < m || is_kind(ts, m, TokenKind::Pipe) {
                    g_params(ts, m, acc.push(name))
                } else {
                    Err(unexpected(ts, n, Expectation::ItemEnd(TokenKind::Pipe)))
                }
            },
        }
    }
}

/// The statements of a block from `pos` on, added to `acc`, up to where the
/// block closes. The block started at `from`. Statements are set apart by
/// newlines; the place returned is that of the closing delimiter.
pub closed spec fn g_stmts(
    ts: Seq<SpannedTokenView>,
    from: int,
    pos: int,
    acc: Seq<ExprView>,
    close: Option<TokenKind>,
) -> Parsed<CodeView>
    decreases ts.len() - pos, 41nat,
{
    let p = skip_newlines(ts, pos);
    if !(pos <= p <= ts.len()) {
        Err(stuck())
    } else if at_close(ts, p, close) {
        Ok((CodeView { span: code_span(ts, from, p), stmts: acc }, p))
    } else {
        match g_expr(ts, p) {
            Err(e) => Err(e),
            Ok((stmt, n)) => if !(p < n <= ts.len()) {
                Err(stuck())
            } else if is_kind(ts, n, TokenKind::NewLine) || at_close(ts, n, close) {
                g_stmts(ts, from, n, acc.push(stmt), close)
            } else {
                Err(unexpected(ts, n, Expectation::StatementEnd))
            },
        }
    }
}

/// A block in braces; the place returned is the one after the closing
/// brace.
pub closed spec fn g_block(ts: Seq<SpannedTokenView>, pos: int) -> Parsed<CodeView>
    decreases ts.len() - pos, 42nat,
{
    match g_expect(ts, pos, TokenKind::LeftBrace) {
        Err(e) => Err(e),
        Ok(_) => match g_stmts(ts, pos + 1, pos + 1, Seq::empty(), Some(TokenKind::RightBrace)) {
            Err(e) => Err(e),
            Ok((code, n)) => Ok((code, n + 1)),
        },
    }
}

/// The body of a function literal: a block, or one expression, which stands
/// as the one statement of a block without a span of its own.
pub closed spec fn g_body(ts: Seq<SpannedTokenView>, pos: int) -> Parsed<CodeView>
    decreases ts.len() - pos, 43nat,
{
    if is_kind(ts, pos, TokenKind::LeftBrace) {
        g_block(ts, pos)
    } else {
        match g_expr(ts, pos) {
            Err(e) => Err(e),
            Ok((e, n)) => Ok((CodeView { span: Span::spec_dummy(), stmts: seq![e] }, n)),
        }
    }
}

/// A literal or an identifier, as an expression that carries the span of
/// its token.
pub open spec fn leaf_view(t: SpannedTokenView) -> Option<ExprKindView> {
    match t.token {
        Ok(tok) => match tok.kind {
            TokenKind::Nil => Some(ExprKindView::Literal(LiteralView::Nil(t.span))),
            TokenKind::True => Some(ExprKindView::Literal(LiteralView::Boolean(t.span, true))),
            TokenKind::False => Some(ExprKindView::Literal(LiteralView::Boolean(t.span, false))),
            TokenKind::Integer => Some(ExprKindView::Literal(LiteralView::Integer(t.span, tok.number))),
            TokenKind::String => Some(ExprKindView::Literal(LiteralView::String(t.span, tok.text))),
            TokenKind::Identifier => Some(ExprKindView::Ident(IdentView { span: t.span, symbol: tok.text })),
            _ => None,
        },
        Err(_) => None,
    }
}

/// An expression in parentheses; it keeps its own span.
pub closed spec fn g_paren(ts: Seq<SpannedTokenView>, pos: int) -> Parsed<ExprView>
    decreases ts.len() - pos, 8nat,
{
    if !is_kind(ts, pos, TokenKind::LeftParenthesis) {
        Err(stuck())
    } else {
        match g_expr(ts, pos + 1) {
            Err(e) => Err(e),
            Ok((inner, n)) => match g_expect(ts, skip_newlines(ts, n), TokenKind::RightParenthesis) {
                Err(e) => Err(e),
                Ok(m) => Ok((inner, m)),
            },
        }
    }
}

/// An array literal.
pub closed spec fn g_array(ts: Seq<SpannedTokenView>, pos: int) -> Parsed<ExprView>
    decreases ts.len() - pos, 8nat,
{
    if !is_kind(ts, pos, TokenKind::LeftBracket) {
        Err(stuck())
    } else {
        match g_list(ts, pos + 1, Seq::empty(), TokenKind::RightBracket) {
            Err(e) => Err(e),
            Ok((items, n)) => Ok(
                (
                    ExprView {
                        span: span_between(ts, pos, n),
                        kind: ExprKindView::Array { span: span_between(ts, pos, n), elements: items },
                    },
                    n,
                ),
            ),
        }
    }
}

/// A record literal.
pub closed spec fn g_record(ts: Seq<SpannedTokenView>, pos: int) -> Parsed<ExprView>
    decreases ts.len() - pos, 8nat,
{
    if !is_kind(ts, pos, TokenKind::LeftBrace) {
        Err(stuck())
    } else {
        match g_fields(ts, pos + 1, Seq::empty()) {
            Err(e) => Err(e),
            Ok((fields, n)) => Ok(
                (
                    ExprView {
                        span: span_between(ts, pos, n),
                        kind: ExprKindView::Record { span: span_between(ts, pos, n), fields },
                    },
                    n,
                ),
            ),
        }
    }
}

/// A function literal: parameter names between `|`, or `||` for none, then
/// `->` and the body.
pub closed spec fn g_function(ts: Seq<SpannedTokenView>, pos: int) -> Parsed<ExprView>
    decreases ts.len() - pos, 8nat,
{
    let params = if is_kind(ts, pos, TokenKind::Pipe) {
        g_params(ts, pos + 1, Seq::empty())
    } else if is_kind(ts, pos, TokenKind::PipePipe) {
        Ok((Seq::empty(), pos + 1))
    } else {
        Err(stuck())
    };
    match params {
        Err(e) => Err(e),
        Ok((names, n)) => match g_expect(ts, n, TokenKind::Arrow) {
            Err(e) => Err(e),
            Ok(b) => if !(pos < b <= ts.len()) {
                Err(stuck())
            } else {
                match g_body(ts, b) {
                    Err(e) => Err(e),
                    Ok((body, m)) => Ok(
                        (
                            ExprView {
                                span: span_between(ts, pos, m),
                                kind: ExprKindView::Function(FunctionView { parameters: names, body }),
                            },
                            m,
                        ),
                    ),
                }
            },
        },
    }
}

/// An `if`: a condition and a block, and after `else` a second block.
pub closed spec fn g_if(ts: Seq<SpannedTokenView>, pos: int) -> Parsed<ExprView>
    decreases ts.len() - pos, 8nat,
{
    if !is_kind(ts, pos, TokenKind::If) {
        Err(stuck())
    } else {
        match g_expr(ts, pos + 1) {
            Err(e) => Err(e),
            Ok((condition, n)) => if !(pos < n <= ts.len()) {
                Err(stuck())
            } else {
                match g_block(ts, n) {
                    Err(e) => Err(e),
                    Ok((yes, m)) => if !is_kind(ts, m, TokenKind::Else) {
                        Ok(
                            (
                                ExprView {
                                    span: span_between(ts, pos, m),
                                    kind: ExprKindView::If(Box::new(condition), yes, None),
                                },
                                m,
                            ),
                        )
                    } else if !(pos < m < ts.len()) {
                        Err(stuck())
                    } else {
                        match g_block(ts, m + 1) {
                            Err(e) => Err(e),
                            Ok((no, q)) => Ok(
                                (
                                    ExprView {
                                        span: span_between(ts, pos, q),
                                        kind: ExprKindView::If(Box::new(condition), yes, Some(no)),
                                    },
                                    q,
                                ),
                            ),
                        }
                    },
                }
            },
        }
    }
}

/// A loop: `iter`, the collection, `of`, the loop variable and the body.
pub closed spec fn g_for(ts: Seq<SpannedTokenView>, pos: int) -> Parsed<ExprView>
    decreases ts.len() - pos, 8nat,
{
    if !is_kind(ts, pos, TokenKind::Iter) {
        Err(stuck())
    } else {
        match g_expr(ts, pos + 1) {
            Err(e) => Err(e),
            Ok((collection, n)) => match g_expect(ts, n, TokenKind::Of) {
                Err(e) => Err(e),
                Ok(_) => match g_ident(ts, n + 1) {
                    Err(e) => Err(e),
                    Ok((item, b)) => if !(pos < b <= ts.len()) {
                        Err(stuck())
                    } else {
                        match g_block(ts, b) {
                            Err(e) => Err(e),
                            Ok((body, m)) => Ok(
                                (
                                    ExprView {
                                        span: span_between(ts, pos, m),
                                        kind: ExprKindView::For(Box::new(collection), item, body),
                                    },
                                    m,
                                ),
                            ),
                        }
                    },
                },
            },
        }
    }
}

/// A primary expression: a literal, an identifier, an expression in
/// parentheses, an array literal, a record literal, a function literal, an
/// `if` with or without `else`, or a loop.
pub closed spec fn g_primary(ts: Seq<SpannedTokenView>, pos: int) -> Parsed<ExprView>
    decreases ts.len() - pos, 9nat,
{
    let k = kind_at(ts, pos);
    if 0 <= pos < ts.len() && leaf_view(ts[pos]) is Some {
        Ok((ExprView { span: ts[pos].span, kind: leaf_view(ts[pos])->0 }, pos + 1))
    } else if k == Some(TokenKind::LeftParenthesis) {
        g_paren(ts, pos)
    } else if k == Some(TokenKind::LeftBracket) {
        g_array(ts, pos)
    } else if k == Some(TokenKind::LeftBrace) {
        g_record(ts, pos)
    } else if k == Some(TokenKind::Pipe) || k == Some(TokenKind::PipePipe) {
        g_function(ts, pos)
    } else if k == Some(TokenKind::If) {
        g_if(ts, pos)
    } else if k == Some(TokenKind::Iter) {
        g_for(ts, pos)
    } else {
        Err(unexpected(ts, pos, Expectation::Expression))
    }
}

/// One expression that is all the input.
pub open spec fn g_single(ts: Seq<SpannedTokenView>) -> Result<ExprView, ParseErrorView> {
    match g_expr(ts, 0) {
        Err(e) => Err(e),
        Ok((e, n)) => if n >= ts.len() {
            Ok(e)
        } else {
            match ts[n].token {
                Ok(t) => Err(ParseErrorView::ExtraToken { start: ts[n].span.start, token: t, end: ts[n].span.end }),
                Err(err) => Err(ParseErrorView::User { span: ts[n].span, error: err }),
            }
        },
    }
}

/// The statements that are all the input.
pub open spec fn g_program(ts: Seq<SpannedTokenView>) -> Result<CodeView, ParseErrorView> {
    match g_stmts(ts, 0, 0, Seq::empty(), None) {
        Err(e) => Err(e),
        Ok((code, _)) => Ok(code),
    }
}

/// The defining equation of `g_expr`.
pub proof fn unfold_g_expr(ts: Seq<SpannedTokenView>, pos: int)
    ensures
        g_expr(ts, pos) == ({
            let k = kind_at(ts, pos);
            if k == Some(TokenKind::Let) || k == Some(TokenKind::LetMut) {
                match g_ident(ts, pos + 1) {
                    Err(e) => Err(e),
                    Ok((name, _)) => match g_expect(ts, pos + 2, TokenKind::Equal) {
                        Err(e) => Err(e),
                        Ok(_) => match g_expr(ts, pos + 3) {
                            Err(e) => Err(e),
                            Ok((rhs, n)) => Ok(
                                (
                                    ExprView {
                                        span: span_between(ts, pos, n),
                                        kind: ExprKindView::Declare(k == Some(TokenKind::LetMut), name, Box::new(rhs)),
                                    },
                                    n,
                                ),
                            ),
                        },
                    },
                }
            } else if control_kind(k) is Some {
                match g_expr(ts, pos + 1) {
                    Err(e) => Err(e),
                    Ok((operand, n)) => Ok(
                        (
                            ExprView {
                                span: span_between(ts, pos, n),
                                kind: ExprKindView::Control(control_kind(k)->0, Box::new(operand)),
                            },
                            n,
                        ),
                    ),
                }
            } else if k == Some(TokenKind::Identifier) && assign_op(kind_at(ts, pos + 1)) is Some {
                match g_expr(ts, pos + 2) {
                    Err(e) => Err(e),
                    Ok((rhs, n)) => Ok(
                        (
                            ExprView {
                                span: span_between(ts, pos, n),
                                kind: ExprKindView::Assign(
                                    assign_op(kind_at(ts, pos + 1))->0,
                                    IdentView { span: ts[pos].span, symbol: ts[pos].token->Ok_0.text },
                                    Box::new(rhs),
                                ),
                            },
                            n,
                        ),
                    ),
                }
            } else {
                g_binary(ts, pos, 0)
            }
        }),
{
}

/// The defining equation of `g_operand`.
pub proof fn unfold_g_operand(ts: Seq<SpannedTokenView>, pos: int, level: nat)
    ensures
        g_operand(ts, pos, level) == ({
            if level >= levels() {
                Err(stuck())
            } else if level + 1 < levels() {
                g_binary(ts, pos, level + 1)
            } else {
                g_unary(ts, pos)
            }
        }),
{
}

/// The defining equation of `g_binary`.
pub proof fn unfold_g_binary(ts: Seq<SpannedTokenView>, pos: int, level: nat)
    ensures
        g_binary(ts, pos, level) == ({
            if level >= levels() {
                Err(stuck())
            } else {
                match g_operand(ts, pos, level) {
                    Err(e) => Err(e),
                    Ok((lhs, n)) => if pos < n <= ts.len() {
                        g_binary_tail(ts, pos, lhs, n, level)
                    } else {
                        Err(stuck())
                    },
                }
            }
        }),
{
}

/// The defining equation of `g_binary_tail`.
pub proof fn unfold_g_binary_tail(ts: Seq<SpannedTokenView>, from: int, lhs: ExprView, pos: int, level: nat)
    ensures
        g_binary_tail(ts, from, lhs, pos, level) == ({
            match infix_op(kind_at(ts, pos), level) {
                None => Ok((lhs, pos)),
                Some(op) => match g_operand(ts, pos + 1, level) {
                    Err(e) => Err(e),
                    Ok((rhs, n)) => if pos < n <= ts.len() {
                        g_binary_tail(ts, from, binary_view(span_between(ts, from, n), op, lhs, rhs), n, level)
                    } else {
                        Err(stuck())
                    },
                },
            }
        }),
{
}

/// The defining equation of `g_unary`.
pub proof fn unfold_g_unary(ts: Seq<SpannedTokenView>, pos: int)
    ensures
        g_unary(ts, pos) == ({
            let k = kind_at(ts, pos);
            if k == Some(TokenKind::Minus) || k == Some(TokenKind::Bang) {
                match g_unary(ts, pos + 1) {
                    Err(e) => Err(e),
                    Ok((operand, n)) => Ok(
                        (
                            unary_view(
                                span_between(ts, pos, n),
                                if k == Some(TokenKind::Minus) {
                                    UnaryExprKind::Minus
                                } else {
                                    UnaryExprKind::Not
                                },
                                operand,
                            ),
                            n,
                        ),
                    ),
                }
            } else {
                match g_primary(ts, pos) {
                    Err(e) => Err(e),
                    Ok((e, n)) => if pos < n <= ts.len() {
                        g_postfix_tail(ts, pos, e, n)
                    } else {
                        Err(stuck())
                    },
                }
            }
        }),
{
}

/// The defining equation of `g_postfix_tail`.
pub proof fn unfold_g_postfix_tail(ts: Seq<SpannedTokenView>, from: int, e: ExprView, pos: int)
    ensures
        g_postfix_tail(ts, from, e, pos) == ({
            let k = kind_at(ts, pos);
            if k == Some(TokenKind::LeftParenthesis) {
                match g_list(ts, pos + 1, Seq::empty(), TokenKind::RightParenthesis) {
                    Err(err) => Err(err),
                    Ok((args, n)) => if pos < n <= ts.len() {
                        g_postfix_tail(
                            ts,
                            from,
                            ExprView { span: span_between(ts, from, n), kind: ExprKindView::Call(Box::new(e), args) },
                            n,
                        )
                    } else {
                        Err(stuck())
                    },
                }
            } else if k == Some(TokenKind::LeftBracket) {
                match g_expr(ts, pos + 1) {
                    Err(err) => Err(err),
                    Ok((index, n)) => match g_expect(ts, skip_newlines(ts, n), TokenKind::RightBracket) {
                        Err(err) => Err(err),
                        Ok(m) => if pos < m <= ts.len() {
                            g_postfix_tail(
                                ts,
                                from,
                                ExprView {
                                    span: span_between(ts, from, m),
                                    kind: ExprKindView::Index(Box::new(e), Box::new(index)),
                                },
                                m,
                            )
                        } else {
                            Err(stuck())
                        },
                    },
                }
            } else if k == Some(TokenKind::Dot) {
                match g_ident(ts, pos + 1) {
                    Err(err) => Err(err),
                    Ok((name, m)) => if pos < m <= ts.len() {
                        g_postfix_tail(
                            ts,
                            from,
                            ExprView { span: span_between(ts, from, m), kind: ExprKindView::Prop(Box::new(e), name) },
                            m,
                        )
                    } else {
                        Err(stuck())
                    },
                }
            } else {
                Ok((e, pos))
            }
        }),
{
}

/// The defining equation of `g_list`.
pub proof fn unfold_g_list(ts: Seq<SpannedTokenView>, pos: int, acc: Seq<ExprView>, close: TokenKind)
    ensures
        g_list(ts, pos, acc, close) == ({
            if is_kind(ts, pos, close) {
                Ok((acc, pos + 1))
            } else {
                match g_expr(ts, pos) {
                    Err(e) => Err(e),
                    Ok((item, n)) => {
                        let m = skip_separators(ts, n);
                        if !(pos < n <= m <= ts.len()) {
                            Err(stuck())
                        } else if n < m || is_kind(ts, m, close) {
                            g_list(ts, m, acc.push(item), close)
                        } else {
                            Err(unexpected(ts, n, Expectation::ItemEnd(close)))
                        }
                    },
                }
            }
        }),
{
}

/// The defining equation of `g_fields`.
pub proof fn unfold_g_fields(ts: Seq<SpannedTokenView>, pos: int, acc: Seq<(IdentView, ExprView)>)
    ensures
        g_fields(ts, pos, acc) == ({
            if is_kind(ts, pos, TokenKind::RightBrace) {
                Ok((acc, pos + 1))
            } else {
                match g_ident(ts, pos) {
                    Err(e) => Err(e),
                    Ok((name, _)) => match g_expect(ts, pos + 1, TokenKind::Colon) {
                        Err(e) => Err(e),
                        Ok(_) => match g_expr(ts, pos + 2) {
                            Err(e) => Err(e),
                            Ok((value, n)) => {
                                let m = skip_separators(ts, n);
                                if !(pos < n <= m <= ts.len()) {
                                    Err(stuck())
                                } else if n < m || is_kind(ts, m, TokenKind::RightBrace) {
                                    g_fields(ts, m, acc.push((name, value)))
                                } else {
                                    Err(unexpected(ts, n, Expectation::ItemEnd(TokenKind::RightBrace)))
                                }
                            },
                        },
                    },
                }
            }
        }),
{
}

/// The defining equation of `g_params`.
pub proof fn unfold_g_params(ts: Seq<SpannedTokenView>, pos: int, acc: Seq<IdentView>)
    ensures
        g_params(ts, pos, acc) == ({
            if is_kind(ts, pos, TokenKind::Pipe) {
                Ok((acc, pos + 1))
            } else {
                match g_ident(ts, pos) {
                    Err(e) => Err(e),
                    Ok((name, n)) => {
                        let m = skip_separators(ts, n);
                        if !(pos < n <= m <= ts.len()) {
                            Err(stuck())
                        } else if n < m || is_kind(ts, m, TokenKind::Pipe) {
                            g_params(ts, m, acc.push(name))
                        } else {
                            Err(unexpected(ts, n, Expectation::ItemEnd(TokenKind::Pipe)))
                        }
                    },
                }
            }
        }),
{
}

/// The defining equation of `g_stmts`.
pub proof fn unfold_g_stmts(
    ts: Seq<SpannedTokenView>,
    from: int,
    pos: int,
    acc: Seq<ExprView>,
    close: Option<TokenKind>,
)
    ensures
        g_stmts(ts, from, pos, acc, close) == ({
            let p = skip_newlines(ts, pos);
            if !(pos <= p <= ts.len()) {
                Err(stuck())
            } else if at_close(ts, p, close) {
                Ok((CodeView { span: code_span(ts, from, p), stmts: acc }, p))
            } else {
                match g_expr(ts, p) {
                    Err(e) => Err(e),
                    Ok((stmt, n)) => if !(p < n <= ts.len()) {
                        Err(stuck())
                    } else if is_kind(ts, n, TokenKind::NewLine) || at_close(ts, n, close) {
                        g_stmts(ts, from, n, acc.push(stmt), close)
                    } else {
                        Err(unexpected(ts, n, Expectation::StatementEnd))
                    },
                }
            }
        }),
{
}

/// The defining equation of `g_block`.
pub proof fn unfold_g_block(ts: Seq<SpannedTokenView>, pos: int)
    ensures
        g_block(ts, pos) == ({
            match g_expect(ts, pos, TokenKind::LeftBrace) {
                Err(e) => Err(e),
                Ok(_) => match g_stmts(ts, pos + 1, pos + 1, Seq::empty(), Some(TokenKind::RightBrace)) {
                    Err(e) => Err(e),
                    Ok((code, n)) => Ok((code, n + 1)),
                },
            }
        }),
{
}

/// The defining equation of `g_body`.
pub proof fn unfold_g_body(ts: Seq<SpannedTokenView>, pos: int)
    ensures
        g_body(ts, pos) == ({
            if is_kind(ts, pos, TokenKind::LeftBrace) {
                g_block(ts, pos)
            } else {
                match g_expr(ts, pos) {
                    Err(e) => Err(e),
                    Ok((e, n)) => Ok((CodeView { span: Span::spec_dummy(), stmts: seq![e] }, n)),
                }
            }
        }),
{
}

/// The defining equation of `g_paren`.
pub proof fn unfold_g_paren(ts: Seq<SpannedTokenView>, pos: int)
    ensures
        g_paren(ts, pos) == ({
            if !is_kind(ts, pos, TokenKind::LeftParenthesis) {
                Err(stuck())
            } else {
                match g_expr(ts, pos + 1) {
                    Err(e) => Err(e),
                    Ok((inner, n)) => match g_expect(ts, skip_newlines(ts, n), TokenKind::RightParenthesis) {
                        Err(e) => Err(e),
                        Ok(m) => Ok((inner, m)),
                    },
                }
            }
        }),
{
}

/// The defining equation of `g_array`.
pub proof fn unfold_g_array(ts: Seq<SpannedTokenView>, pos: int)
    ensures
        g_array(ts, pos) == ({
            if !is_kind(ts, pos, TokenKind::LeftBracket) {
                Err(stuck())
            } else {
                match g_list(ts, pos + 1, Seq::empty(), TokenKind::RightBracket) {
                    Err(e) => Err(e),
                    Ok((items, n)) => Ok(
                        (
                            ExprView {
                                span: span_between(ts, pos, n),
                                kind: ExprKindView::Array { span: span_between(ts, pos, n), elements: items },
                            },
                            n,
                        ),
                    ),
                }
            }
        }),
{
}

/// The defining equation of `g_record`.
pub proof fn unfold_g_record(ts: Seq<SpannedTokenView>, pos: int)
    ensures
        g_record(ts, pos) == ({
            if !is_kind(ts, pos, TokenKind::LeftBrace) {
                Err(stuck())
            } else {
                match g_fields(ts, pos + 1, Seq::empty()) {
                    Err(e) => Err(e),
                    Ok((fields, n)) => Ok(
                        (
                            ExprView {
                                span: span_between(ts, pos, n),
                                kind: ExprKindView::Record { span: span_between(ts, pos, n), fields },
                            },
                            n,
                        ),
                    ),
                }
            }
        }),
{
}

/// The defining equation of `g_function`.
pub proof fn unfold_g_function(ts: Seq<SpannedTokenView>, pos: int)
    ensures
        g_function(ts, pos) == ({
            let params = if is_kind(ts, pos, TokenKind::Pipe) {
                g_params(ts, pos + 1, Seq::empty())
            } else if is_kind(ts, pos, TokenKind::PipePipe) {
                Ok((Seq::empty(), pos + 1))
            } else {
                Err(stuck())
            };
            match params {
                Err(e) => Err(e),
                Ok((names, n)) => match g_expect(ts, n, TokenKind::Arrow) {
                    Err(e) => Err(e),
                    Ok(b) => if !(pos < b <= ts.len()) {
                        Err(stuck())
                    } else {
                        match g_body(ts, b) {
                            Err(e) => Err(e),
                            Ok((body, m)) => Ok(
                                (
                                    ExprView {
                                        span: span_between(ts, pos, m),
                                        kind: ExprKindView::Function(FunctionView { parameters: names, body }),
                                    },
                                    m,
                                ),
                            ),
                        }
                    },
                },
            }
        }),
{
}

/// The defining equation of `g_if`.
pub proof fn unfold_g_if(ts: Seq<SpannedTokenView>, pos: int)
    ensures
        g_if(ts, pos) == ({
            if !is_kind(ts, pos, TokenKind::If) {
                Err(stuck())
            } else {
                match g_expr(ts, pos + 1) {
                    Err(e) => Err(e),
                    Ok((condition, n)) => if !(pos < n <= ts.len()) {
                        Err(stuck())
                    } else {
                        match g_block(ts, n) {
                            Err(e) => Err(e),
                            Ok((yes, m)) => if !is_kind(ts, m, TokenKind::Else) {
                                Ok(
                                    (
                                        ExprView {
                                            span: span_between(ts, pos, m),
                                            kind: ExprKindView::If(Box::new(condition), yes, None),
                                        },
                                        m,
                                    ),
                                )
                            } else if !(pos < m < ts.len()) {
                                Err(stuck())
                            } else {
                                match g_block(ts, m + 1) {
                                    Err(e) => Err(e),
                                    Ok((no, q)) => Ok(
                                        (
                                            ExprView {
                                                span: span_between(ts, pos, q),
                                                kind: ExprKindView::If(Box::new(condition), yes, Some(no)),
                                            },
                                            q,
                                        ),
                                    ),
                                }
                            },
                        }
                    },
                }
            }
        }),
{
}

/// The defining equation of `g_for`.
pub proof fn unfold_g_for(ts: Seq<SpannedTokenView>, pos: int)
    ensures
        g_for(ts, pos) == ({
            if !is_kind(ts, pos, TokenKind::Iter) {
                Err(stuck())
            } else {
                match g_expr(ts, pos + 1) {
                    Err(e) => Err(e),
                    Ok((collection, n)) => match g_expect(ts, n, TokenKind::Of) {
                        Err(e) => Err(e),
                        Ok(_) => match g_ident(ts, n + 1) {
                            Err(e) => Err(e),
                            Ok((item, b)) => if !(pos < b <= ts.len()) {
                                Err(stuck())
                            } else {
                                match g_block(ts, b) {
                                    Err(e) => Err(e),
                                    Ok((body, m)) => Ok(
                                        (
                                            ExprView {
                                                span: span_between(ts, pos, m),
                                                kind: ExprKindView::For(Box::new(collection), item, body),
                                            },
                                            m,
                                        ),
                                    ),
                                }
                            },
                        },
                    },
                }
            }
        }),
{
}

/// The defining equation of `g_primary`.
pub proof fn unfold_g_primary(ts: Seq<SpannedTokenView>, pos: int)
    ensures
        g_primary(ts, pos) == ({
            let k = kind_at(ts, pos);
            if 0 <= pos < ts.len() && leaf_view(ts[pos]) is Some {
                Ok((ExprView { span: ts[pos].span, kind: leaf_view(ts[pos])->0 }, pos + 1))
            } else if k == Some(TokenKind::LeftParenthesis) {
                g_paren(ts, pos)
            } else if k == Some(TokenKind::LeftBracket) {
                g_array(ts, pos)
            } else if k == Some(TokenKind::LeftBrace) {
                g_record(ts, pos)
            } else if k == Some(TokenKind::Pipe) || k == Some(TokenKind::PipePipe) {
                g_function(ts, pos)
            } else if k == Some(TokenKind::If) {
                g_if(ts, pos)
            } else if k == Some(TokenKind::Iter) {
                g_for(ts, pos)
            } else {
                Err(unexpected(ts, pos, Expectation::Expression))
            }
        }),
{
}

} // verus!
