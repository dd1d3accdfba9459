//! What holds of the grammar on every input: whatever it reads is a
//! stretch of tokens inside the input, never an empty one, and it never
//! reports an invalid token of its own.

use crate::ast_model::ExprView;
use crate::ast_model::IdentView;
use crate::grammar::at_close;
use crate::grammar::g_array;
use crate::grammar::g_binary;
use crate::grammar::g_binary_tail;
use crate::grammar::g_block;
use crate::grammar::g_body;
use crate::grammar::g_expr;
use crate::grammar::g_fields;
use crate::grammar::g_for;
use crate::grammar::g_function;
use crate::grammar::g_if;
use crate::grammar::g_list;
use crate::grammar::g_operand;
use crate::grammar::g_params;
use crate::grammar::g_paren;
use crate::grammar::g_postfix_tail;
use crate::grammar::g_primary;
use crate::grammar::g_program;
use crate::grammar::g_record;
use crate::grammar::g_single;
use crate::grammar::g_stmts;
use crate::grammar::g_unary;
use crate::grammar::is_kind;
use crate::grammar::levels;
use crate::grammar::skip_newlines;
use crate::grammar::skip_separators;
use crate::grammar::unfold_g_array;
use crate::grammar::unfold_g_binary;
use crate::grammar::unfold_g_binary_tail;
use crate::grammar::unfold_g_block;
use crate::grammar::unfold_g_body;
use crate::grammar::unfold_g_expr;
use crate::grammar::unfold_g_fields;
use crate::grammar::unfold_g_for;
use crate::grammar::unfold_g_function;
use crate::grammar::unfold_g_if;
use crate::grammar::unfold_g_list;
use crate::grammar::unfold_g_operand;
use crate::grammar::unfold_g_params;
use crate::grammar::unfold_g_paren;
use crate::grammar::unfold_g_postfix_tail;
use crate::grammar::unfold_g_primary;
use crate::grammar::unfold_g_record;
use crate::grammar::unfold_g_stmts;
use crate::grammar::unfold_g_unary;
use crate::grammar::Parsed;
use crate::token::SpannedTokenView;
use crate::token::TokenKind;
use vstd::prelude::*;

verus! {

/// Something was read from `pos` up to a later place inside the input, or
/// reading failed with an error that is not `InvalidToken`.
pub open spec fn reads<T>(r: Parsed<T>, pos: int, len: int) -> bool {
    match r {
        Ok((_, n)) => pos < n <= len,
        Err(e) => !(e is InvalidToken),
    }
}

/// Like `reads`, but what was read may be empty.
pub open spec fn reads_on<T>(r: Parsed<T>, pos: int, len: int) -> bool {
    match r {
        Ok((_, n)) => pos <= n <= len,
        Err(e) => !(e is InvalidToken),
    }
}

/// Skipping separators stays inside the input.
pub proof fn lemma_skip_separators(ts: Seq<SpannedTokenView>, pos: int)
    requires
        0 <= pos <= ts.len(),
    ensures
        pos <= skip_separators(ts, pos) <= ts.len(),
    decreases ts.len() - pos,
{
    if is_kind(ts, pos, TokenKind::Comma) || is_kind(ts, pos, TokenKind::NewLine) {
        lemma_skip_separators(ts, pos + 1);
    }
}

/// Skipping newlines stays inside the input.
pub proof fn lemma_skip_newlines(ts: Seq<SpannedTokenView>, pos: int)
    requires
        0 <= pos <= ts.len(),
    ensures
        pos <= skip_newlines(ts, pos) <= ts.len(),
    decreases ts.len() - pos,
{
    if is_kind(ts, pos, TokenKind::NewLine) {
        lemma_skip_newlines(ts, pos + 1);
    }
}

/// An expression is at least one token long.
pub proof fn lemma_expr(ts: Seq<SpannedTokenView>, pos: int)
    requires
        0 <= pos,
    ensures
        reads(g_expr(ts, pos), pos, ts.len() as int),
    decreases ts.len() - pos, 40nat,
{
    unfold_g_expr(ts, pos);
    if pos < ts.len() {
        lemma_expr(ts, pos + 1);
        if pos + 2 <= ts.len() {
            lemma_expr(ts, pos + 2);
        }
        if pos + 3 <= ts.len() {
            lemma_expr(ts, pos + 3);
        }
    }
    lemma_binary(ts, pos, 0);
}

/// An operand is at least one token long.
pub proof fn lemma_operand(ts: Seq<SpannedTokenView>, pos: int, level: nat)
    requires
        0 <= pos,
        level < levels(),
    ensures
        reads(g_operand(ts, pos, level), pos, ts.len() as int),
    decreases ts.len() - pos, (29 - 2 * level) as nat,
{
    unfold_g_operand(ts, pos, level);
    if level + 1 < levels() {
        lemma_binary(ts, pos, level + 1);
    } else {
        lemma_unary(ts, pos);
    }
}

/// Operands joined by operators are at least one token long.
pub proof fn lemma_binary(ts: Seq<SpannedTokenView>, pos: int, level: nat)
    requires
        0 <= pos,
        level < levels(),
    ensures
        reads(g_binary(ts, pos, level), pos, ts.len() as int),
    decreases ts.len() - pos, (30 - 2 * level) as nat,
{
    unfold_g_binary(ts, pos, level);
    lemma_operand(ts, pos, level);
    match g_operand(ts, pos, level) {
        Ok((lhs, n)) => {
            lemma_binary_tail(ts, pos, lhs, n, level);
        },
        Err(_) => {},
    }
}

/// What follows an operand stays inside the input.
pub proof fn lemma_binary_tail(ts: Seq<SpannedTokenView>, from: int, lhs: ExprView, pos: int, level: nat)
    requires
        0 <= from < pos <= ts.len(),
        level < levels(),
    ensures
        reads_on(g_binary_tail(ts, from, lhs, pos, level), pos, ts.len() as int),
    decreases ts.len() - pos, 0nat,
{
    unfold_g_binary_tail(ts, from, lhs, pos, level);
    match crate::grammar::infix_op(crate::grammar::kind_at(ts, pos), level) {
        None => {},
        Some(op) => {
            lemma_operand(ts, pos + 1, level);
            match g_operand(ts, pos + 1, level) {
                Ok((rhs, n)) => {
                    lemma_binary_tail(
                        ts,
                        from,
                        crate::grammar::binary_view(crate::grammar::span_between(ts, from, n), op, lhs, rhs),
                        n,
                        level,
                    );
                },
                Err(_) => {},
            }
        },
    }
}

/// A prefix expression is at least one token long.
pub proof fn lemma_unary(ts: Seq<SpannedTokenView>, pos: int)
    requires
        0 <= pos,
    ensures
        reads(g_unary(ts, pos), pos, ts.len() as int),
    decreases ts.len() - pos, 10nat,
{
    unfold_g_unary(ts, pos);
    let k = crate::grammar::kind_at(ts, pos);
    if k == Some(TokenKind::Minus) || k == Some(TokenKind::Bang) {
        lemma_unary(ts, pos + 1);
    } else {
        lemma_primary(ts, pos);
        match g_primary(ts, pos) {
            Ok((e, n)) => {
                lemma_postfix_tail(ts, pos, e, n);
            },
            Err(_) => {},
        }
    }
}

/// What follows a primary expression stays inside the input.
pub proof fn lemma_postfix_tail(ts: Seq<SpannedTokenView>, from: int, e: ExprView, pos: int)
    requires
        0 <= from < pos <= ts.len(),
    ensures
        reads_on(g_postfix_tail(ts, from, e, pos), pos, ts.len() as int),
    decreases ts.len() - pos, 0nat,
{
    unfold_g_postfix_tail(ts, from, e, pos);
    let k = crate::grammar::kind_at(ts, pos);
    if k == Some(TokenKind::LeftParenthesis) {
        lemma_list(ts, pos + 1, Seq::empty(), TokenKind::RightParenthesis);
        match g_list(ts, pos + 1, Seq::empty(), TokenKind::RightParenthesis) {
            Ok((args, n)) => {
                lemma_postfix_tail(
                    ts,
                    from,
                    ExprView {
                        span: crate::grammar::span_between(ts, from, n),
                        kind: crate::ast_model::ExprKindView::Call(Box::new(e), args),
                    },
                    n,
                );
            },
            Err(_) => {},
        }
    } else if k == Some(TokenKind::LeftBracket) {
        lemma_expr(ts, pos + 1);
        match g_expr(ts, pos + 1) {
            Ok((index, n)) => {
                lemma_skip_newlines(ts, n);
                match crate::grammar::g_expect(ts, skip_newlines(ts, n), TokenKind::RightBracket) {
                    Ok(m) => {
                        lemma_postfix_tail(
                            ts,
                            from,
                            ExprView {
                                span: crate::grammar::span_between(ts, from, m),
                                kind: crate::ast_model::ExprKindView::Index(Box::new(e), Box::new(index)),
                            },
                            m,
                        );
                    },
                    Err(_) => {},
                }
            },
            Err(_) => {},
        }
    } else if k == Some(TokenKind::Dot) {
        match crate::grammar::g_ident(ts, pos + 1) {
            Ok((name, m)) => {
                lemma_postfix_tail(
                    ts,
                    from,
                    ExprView {
                        span: crate::grammar::span_between(ts, from, m),
                        kind: crate::ast_model::ExprKindView::Prop(Box::new(e), name),
                    },
                    m,
                );
            },
            Err(_) => {},
        }
    }
}

/// A list ends after its closing delimiter, inside the input.
pub proof fn lemma_list(ts: Seq<SpannedTokenView>, pos: int, acc: Seq<ExprView>, close: TokenKind)
    requires
        0 <= pos <= ts.len(),
    ensures
        reads(g_list(ts, pos, acc, close), pos, ts.len() as int),
    decreases ts.len() - pos, 41nat,
{
    unfold_g_list(ts, pos, acc, close);
    if !is_kind(ts, pos, close) {
        lemma_expr(ts, pos);
        match g_expr(ts, pos) {
            Ok((item, n)) => {
                lemma_skip_separators(ts, n);
                let m = skip_separators(ts, n);
                if n < m || is_kind(ts, m, close) {
                    lemma_list(ts, m, acc.push(item), close);
                }
            },
            Err(_) => {},
        }
    }
}

/// The fields of a record literal end after the closing brace, inside the
/// input.
pub proof fn lemma_fields(ts: Seq<SpannedTokenView>, pos: int, acc: Seq<(IdentView, ExprView)>)
    requires
        0 <= pos <= ts.len(),
    ensures
        reads(g_fields(ts, pos, acc), pos, ts.len() as int),
    decreases ts.len() - pos, 41nat,
{
    unfold_g_fields(ts, pos, acc);
    if !is_kind(ts, pos, TokenKind::RightBrace) {
        match crate::grammar::g_ident(ts, pos) {
            Ok((name, _)) => {
                match crate::grammar::g_expect(ts, pos + 1, TokenKind::Colon) {
                    Ok(_) => {
                        lemma_expr(ts, pos + 2);
                        match g_expr(ts, pos + 2) {
                            Ok((value, n)) => {
                                lemma_skip_separators(ts, n);
                                let m = skip_separators(ts, n);
                                if n < m || is_kind(ts, m, TokenKind::RightBrace) {
                                    lemma_fields(ts, m, acc.push((name, value)));
                                }
                            },
                            Err(_) => {},
                        }
                    },
                    Err(_) => {},
                }
            },
            Err(_) => {},
        }
    }
}

/// The parameter names of a function literal end after the closing `|`,
/// inside the input.
pub proof fn lemma_params(ts: Seq<SpannedTokenView>, pos: int, acc: Seq<IdentView>)
    requires
        0 <= pos <= ts.len(),
    ensures
        reads(g_params(ts, pos, acc), pos, ts.len() as int),
    decreases ts.len() - pos,
{
    unfold_g_params(ts, pos, acc);
    if !is_kind(ts, pos, TokenKind::Pipe) {
        match crate::grammar::g_ident(ts, pos) {
            Ok((name, n)) => {
                lemma_skip_separators(ts, n);
                let m = skip_separators(ts, n);
                if n < m || is_kind(ts, m, TokenKind::Pipe) {
                    lemma_params(ts, m, acc.push(name));
                }
            },
            Err(_) => {},
        }
    }
}

/// The statements of a block end where the block closes, inside the input.
pub proof fn lemma_stmts(
    ts: Seq<SpannedTokenView>,
    from: int,
    pos: int,
    acc: Seq<ExprView>,
    close: Option<TokenKind>,
)
    requires
        0 <= pos <= ts.len(),
    ensures
        reads_on(g_stmts(ts, from, pos, acc, close), pos, ts.len() as int),
        g_stmts(ts, from, pos, acc, close) is Ok ==> at_close(ts, g_stmts(ts, from, pos, acc, close)->Ok_0.1, close),
    decreases ts.len() - pos, 41nat,
{
    unfold_g_stmts(ts, from, pos, acc, close);
    lemma_skip_newlines(ts, pos);
    let p = skip_newlines(ts, pos);
    if !at_close(ts, p, close) {
        lemma_expr(ts, p);
        match g_expr(ts, p) {
            Ok((stmt, n)) => {
                if is_kind(ts, n, TokenKind::NewLine) || at_close(ts, n, close) {
                    lemma_stmts(ts, from, n, acc.push(stmt), close);
                }
            },
            Err(_) => {},
        }
    }
}

/// A block is at least two tokens long: its braces.
pub proof fn lemma_block(ts: Seq<SpannedTokenView>, pos: int)
    requires
        0 <= pos,
    ensures
        reads(g_block(ts, pos), pos, ts.len() as int),
    decreases ts.len() - pos, 42nat,
{
    unfold_g_block(ts, pos);
    if is_kind(ts, pos, TokenKind::LeftBrace) {
        lemma_stmts(ts, pos + 1, pos + 1, Seq::empty(), Some(TokenKind::RightBrace));
    }
}

/// The body of a function literal is at least one token long.
pub proof fn lemma_body(ts: Seq<SpannedTokenView>, pos: int)
    requires
        0 <= pos,
    ensures
        reads(g_body(ts, pos), pos, ts.len() as int),
    decreases ts.len() - pos, 43nat,
{
    unfold_g_body(ts, pos);
    if is_kind(ts, pos, TokenKind::LeftBrace) {
        lemma_block(ts, pos);
    } else {
        lemma_expr(ts, pos);
    }
}

/// An expression in parentheses is at least one token long.
pub proof fn lemma_paren(ts: Seq<SpannedTokenView>, pos: int)
    requires
        0 <= pos,
        is_kind(ts, pos, TokenKind::LeftParenthesis),
    ensures
        reads(g_paren(ts, pos), pos, ts.len() as int),
    decreases ts.len() - pos, 8nat,
{
    unfold_g_paren(ts, pos);
    lemma_expr(ts, pos + 1);
    match g_expr(ts, pos + 1) {
        Ok((_, n)) => {
            lemma_skip_newlines(ts, n);
        },
        Err(_) => {},
    }
}

/// An array literal is at least one token long.
pub proof fn lemma_array(ts: Seq<SpannedTokenView>, pos: int)
    requires
        0 <= pos,
        is_kind(ts, pos, TokenKind::LeftBracket),
    ensures
        reads(g_array(ts, pos), pos, ts.len() as int),
    decreases ts.len() - pos, 8nat,
{
    unfold_g_array(ts, pos);
    lemma_list(ts, pos + 1, Seq::empty(), TokenKind::RightBracket);
}

/// A record literal is at least one token long.
pub proof fn lemma_record(ts: Seq<SpannedTokenView>, pos: int)
    requires
        0 <= pos,
        is_kind(ts, pos, TokenKind::LeftBrace),
    ensures
        reads(g_record(ts, pos), pos, ts.len() as int),
    decreases ts.len() - pos, 8nat,
{
    unfold_g_record(ts, pos);
    lemma_fields(ts, pos + 1, Seq::empty());
}

/// A function literal is at least one token long.
pub proof fn lemma_function(ts: Seq<SpannedTokenView>, pos: int)
    requires
        0 <= pos,
        is_kind(ts, pos, TokenKind::Pipe) || is_kind(ts, pos, TokenKind::PipePipe),
    ensures
        reads(g_function(ts, pos), pos, ts.len() as int),
    decreases ts.len() - pos, 8nat,
{
    unfold_g_function(ts, pos);
    let params: Parsed<Seq<IdentView>> = if is_kind(ts, pos, TokenKind::Pipe) {
        lemma_params(ts, pos + 1, Seq::empty());
        g_params(ts, pos + 1, Seq::empty())
    } else {
        Ok((Seq::empty(), pos + 1))
    };
    match params {
        Ok((_, n)) => {
            match crate::grammar::g_expect(ts, n, TokenKind::Arrow) {
                Ok(b) => {
                    lemma_body(ts, b);
                },
                Err(_) => {},
            }
        },
        Err(_) => {},
    }
}

/// An `if` is at least one token long.
pub proof fn lemma_if(ts: Seq<SpannedTokenView>, pos: int)
    requires
        0 <= pos,
        is_kind(ts, pos, TokenKind::If),
    ensures
        reads(g_if(ts, pos), pos, ts.len() as int),
    decreases ts.len() - pos, 8nat,
{
    unfold_g_if(ts, pos);
    lemma_expr(ts, pos + 1);
    match g_expr(ts, pos + 1) {
        Ok((_, n)) => {
            lemma_block(ts, n);
            match g_block(ts, n) {
                Ok((_, m)) => {
                    if is_kind(ts, m, TokenKind::Else) {
                        lemma_block(ts, m + 1);
                    }
                },
                Err(_) => {},
            }
        },
        Err(_) => {},
    }
}

/// A loop is at least one token long.
pub proof fn lemma_for(ts: Seq<SpannedTokenView>, pos: int)
    requires
        0 <= pos,
        is_kind(ts, pos, TokenKind::Iter),
    ensures
        reads(g_for(ts, pos), pos, ts.len() as int),
    decreases ts.len() - pos, 8nat,
{
    unfold_g_for(ts, pos);
    lemma_expr(ts, pos + 1);
    match g_expr(ts, pos + 1) {
        Ok((_, n)) => {
            match crate::grammar::g_expect(ts, n, TokenKind::Of) {
                Ok(_) => {
                    match crate::grammar::g_ident(ts, n + 1) {
                        Ok((_, b)) => {
                            lemma_block(ts, b);
                        },
                        Err(_) => {},
                    }
                },
                Err(_) => {},
            }
        },
        Err(_) => {},
    }
}

/// A primary expression is at least one token long.
pub proof fn lemma_primary(ts: Seq<SpannedTokenView>, pos: int)
    requires
        0 <= pos,
    ensures
        reads(g_primary(ts, pos), pos, ts.len() as int),
    decreases ts.len() - pos, 9nat,
{
    unfold_g_primary(ts, pos);
    let k = crate::grammar::kind_at(ts, pos);
    if 0 <= pos < ts.len() && crate::grammar::leaf_view(ts[pos]) is Some {
    } else if k == Some(TokenKind::LeftParenthesis) {
        lemma_paren(ts, pos);
    } else if k == Some(TokenKind::LeftBracket) {
        lemma_array(ts, pos);
    } else if k == Some(TokenKind::LeftBrace) {
        lemma_record(ts, pos);
    } else if k == Some(TokenKind::Pipe) || k == Some(TokenKind::PipePipe) {
        lemma_function(ts, pos);
    } else if k == Some(TokenKind::If) {
        lemma_if(ts, pos);
    } else if k == Some(TokenKind::Iter) {
        lemma_for(ts, pos);
    }
}

/// The parser never reports `InvalidToken`: text that the lexer could not
/// read comes back as `User`, with the lexical error.
pub proof fn lemma_never_invalid_token(ts: Seq<SpannedTokenView>)
    ensures
        !(g_single(ts) is Err && g_single(ts)->Err_0 is InvalidToken),
        !(g_program(ts) is Err && g_program(ts)->Err_0 is InvalidToken),
{
    lemma_expr(ts, 0);
    lemma_stmts(ts, 0, 0, Seq::empty(), None);
}

/// A program is read to the end of the input: what `parse_code` accepts
/// leaves no token over.
pub proof fn lemma_program_reads_all(ts: Seq<SpannedTokenView>)
    requires
        g_stmts(ts, 0, 0, Seq::empty(), None) is Ok,
    ensures
        g_stmts(ts, 0, 0, Seq::empty(), None)->Ok_0.1 == ts.len(),
{
    lemma_stmts(ts, 0, 0, Seq::empty(), None);
}

} // verus!
