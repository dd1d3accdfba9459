//! The lexer: source text to spanned tokens.

pub mod bytes;
pub mod comment;
pub mod identifier;
pub mod integer;
pub mod punctuation;
pub mod string;
pub mod whitespace;

use crate::lexer::bytes::lemma_boundary_after_ascii;
use crate::lexer::bytes::lemma_boundary_at_ascii;
use crate::lexer::bytes::slice_text;
use crate::lexer::bytes::text_of;
use crate::lexer::bytes::lemma_run_is_longest;
use crate::lexer::bytes::ByteClass;
use crate::lexer::comment::block_comment;
use crate::lexer::comment::block_comment_at;
use crate::lexer::comment::lemma_block_comment_closed;
use crate::lexer::comment::line_comment;
use crate::lexer::comment::line_comment_at;
use crate::lexer::identifier::identifier;
use crate::lexer::identifier::word_at;
use crate::lexer::integer::integer;
use crate::lexer::integer::number_at;
use crate::lexer::punctuation::punctuation;
use crate::lexer::punctuation::punctuation_at;
use crate::lexer::string::lemma_string_closed;
use crate::lexer::string::string;
use crate::lexer::string::string_at;
use crate::lexer::whitespace::whitespace;
use crate::lexer::whitespace::whitespace_at;
use crate::span::Span;
use crate::token::in_order;
use crate::token::spanned_views;
use crate::token::LexError;
use crate::token::QuotedString;
use crate::token::SpannedToken;
use crate::token::SpannedTokenView;
use crate::token::Token;
use crate::token::TokenKind;
use crate::token::TokenView;
use vstd::prelude::*;
use vstd::string::StringSliceAdditionalSpecFns;

verus! {

/// What the lexer leaves out of its output.
#[derive(Debug, Clone, Copy, PartialEq, Eq, Structural)]
pub struct LexerConfig {
    /// Leave out whitespace tokens.
    pub ignore_whitespace: bool,
    /// Leave out comment tokens.
    pub ignore_comments: bool,
    /// Leave out a newline unless the token before it can end a statement.
    pub asi: bool,
}

impl LexerConfig {
    /// The configuration that leaves out whitespace and comments and
    /// applies the newline rule.
    pub open spec fn spec_default() -> LexerConfig {
        LexerConfig { ignore_whitespace: true, ignore_comments: true, asi: true }
    }
}

impl Default for LexerConfig {
    fn default() -> (r: LexerConfig)
        ensures
            r == LexerConfig::spec_default(),
    {
        LexerConfig { ignore_whitespace: true, ignore_comments: true, asi: true }
    }
}

/// The token that stands at `p`, or the reason why none does, and where it
/// ends. The forms are tried in this order: whitespace, line comment, block
/// comment, word, number, string literal, operator. Where none of them
/// stands, the one byte at `p` is an invalid token.
pub open spec fn lexeme_at(s: Seq<u8>, p: int) -> (Result<TokenView, LexError>, int) {
    if whitespace_at(s, p) is Some {
        (Ok(TokenKind::Whitespace.plain()), whitespace_at(s, p)->0)
    } else if line_comment_at(s, p) is Some {
        (Ok(TokenKind::LineComment.plain()), line_comment_at(s, p)->0)
    } else if block_comment_at(s, p) is Some {
        (Ok(TokenKind::BlockComment.plain()), block_comment_at(s, p)->0)
    } else if word_at(s, p) is Some {
        let (k, e) = word_at(s, p)->0;
        if k is Identifier {
            (Ok(TokenView { kind: k, text: text_of(s, p, e), number: 0i32, quote: None }), e)
        } else {
            (Ok(k.plain()), e)
        }
    } else if number_at(s, p) is Some {
        let (v, e) = number_at(s, p)->0;
        match v {
            Ok(n) => (Ok(TokenView { kind: TokenKind::Integer, text: Seq::empty(), number: n, quote: None }), e),
            Err(err) => (Err(err), e),
        }
    } else if string_at(s, p) is Some {
        let (q, e) = string_at(s, p)->0;
        (Ok(TokenView { kind: TokenKind::String, text: text_of(s, p + 1, e - 1), number: 0i32, quote: Some(q) }), e)
    } else if punctuation_at(s, p) is Some {
        let (k, e) = punctuation_at(s, p)->0;
        (Ok(k.plain()), e)
    } else {
        (Err(LexError::InvalidToken), p + 1)
    }
}

/// Every token is at least one byte long and ends inside the text, so the
/// lexer always moves on.
pub proof fn lemma_lexeme_advances(s: Seq<u8>, p: int)
    requires
        0 <= p < s.len(),
    ensures
        p < lexeme_at(s, p).1 <= s.len(),
{
    lemma_run_is_longest(s, p + 1, ByteClass::Space);
    lemma_run_is_longest(s, p + 1, ByteClass::IdentPart);
    lemma_run_is_longest(s, p + 1, ByteClass::Digit);
    if p + 2 <= s.len() {
        lemma_run_is_longest(s, p + 2, ByteClass::NotNewline);
        lemma_run_is_longest(s, p + 2, ByteClass::Digit);
    }
    if whitespace_at(s, p) is Some {
    } else if line_comment_at(s, p) is Some {
    } else if block_comment_at(s, p) is Some {
        lemma_block_comment_closed(s, p + 2, 1);
    } else if word_at(s, p) is Some {
    } else if number_at(s, p) is Some {
        let d = crate::lexer::bytes::run_end(s, p + 1, ByteClass::Digit);
        if d < s.len() {
            lemma_run_is_longest(s, d + 1, ByteClass::IdentStart);
        }
    } else if string_at(s, p) is Some {
        lemma_string_closed(s, p + 1, s[p]);
    } else {
    }
}

/// The model of a token or of the reason why there is none.
pub open spec fn token_result(r: Result<Token, LexError>) -> Result<TokenView, LexError> {
    match r {
        Ok(t) => Ok(t.view()),
        Err(e) => Err(e),
    }
}

/// Reads the token that stands at byte `pos` of `code`.
pub fn token(code: &str, pos: usize) -> (r: (Result<Token, LexError>, usize))
    requires
        pos < code.spec_bytes().len(),
    ensures
        token_result(r.0) == lexeme_at(code.spec_bytes(), pos as int).0,
        r.1 == lexeme_at(code.spec_bytes(), pos as int).1,
        pos < r.1 <= code.spec_bytes().len(),
{
    reveal(Token::spec_kind);
    let src = code.as_bytes();
    let n = src.len();
    let ghost s = code.spec_bytes();
    proof {
        vstd::utf8::encode_utf8_valid_utf8(code@);
    }
    if let Some(e) = whitespace(src, pos) {
        return (Ok(Token::Whitespace), e);
    }
    if let Some(e) = line_comment(src, pos) {
        return (Ok(Token::LineComment), e);
    }
    if let Some(e) = block_comment(src, pos) {
        return (Ok(Token::BlockComment), e);
    }
    if let Some((k, e)) = identifier(src, pos) {
        if k == TokenKind::Identifier {
            proof {
                lemma_boundary_at_ascii(s, pos as int);
                lemma_boundary_after_ascii(s, e - 1);
            }
            return (Ok(Token::Identifier(slice_text(code, pos, e))), e);
        }
        return (Ok(k.token()), e);
    }
    if let Some((v, e)) = integer(src, pos) {
        return match v {
            Ok(n) => (Ok(Token::Integer(n)), e),
            Err(err) => (Err(err), e),
        };
    }
    if let Some((q, e)) = string(src, pos) {
        proof {
            lemma_boundary_after_ascii(s, pos as int);
            lemma_boundary_at_ascii(s, e - 1);
        }
        let content = slice_text(code, pos + 1, e - 1);
        return (Ok(Token::String(QuotedString { content, quote: q })), e);
    }
    if let Some((k, e)) = punctuation(src, pos) {
        return (Ok(k.token()), e);
    }
    (Err(LexError::InvalidToken), pos + 1)
}

/// Whether a token of this kind can end a statement: an identifier, a
/// literal, a closing delimiter or `>`.
pub open spec fn can_end_statement(k: TokenKind) -> bool {
    k is Identifier || k is Integer || k is String || k is Nil || k is True || k is False
        || k is RightParenthesis || k is RightBrace || k is RightBracket || k is RightAngledBracket
}

/// The kind of a token or the reason why there is none.
pub open spec fn kind_result(r: Result<TokenView, LexError>) -> Result<TokenKind, LexError> {
    match r {
        Ok(t) => Ok(t.kind),
        Err(e) => Err(e),
    }
}

/// Whether the lexer hands a token out. Whitespace and comments are left
/// out where the configuration says so. With `asi` a newline is handed out
/// only if the token before it can end a statement. Everything else, an
/// invalid token too, is handed out.
pub open spec fn emits(config: LexerConfig, last: Option<TokenKind>, kind: Result<TokenKind, LexError>) -> bool {
    match kind {
        Ok(TokenKind::Whitespace) => !config.ignore_whitespace,
        Ok(TokenKind::LineComment) => !config.ignore_comments,
        Ok(TokenKind::BlockComment) => !config.ignore_comments,
        Ok(TokenKind::NewLine) => !config.asi || (last is Some && can_end_statement(last->0)),
        _ => true,
    }
}

/// The kind of the last token that counts for the newline rule, after a
/// token was read: whitespace, comments and invalid tokens do not count.
pub open spec fn next_last(last: Option<TokenKind>, kind: Result<TokenKind, LexError>) -> Option<TokenKind> {
    match kind {
        Ok(TokenKind::Whitespace) => last,
        Ok(TokenKind::LineComment) => last,
        Ok(TokenKind::BlockComment) => last,
        Ok(k) => Some(k),
        Err(_) => last,
    }
}

/// The next token that the lexer hands out from byte `pos` on, with the
/// position and the last kind after it; `None` where no token is handed out
/// before the text ends. (A token always ends after it starts and inside
/// the text, see `lemma_lexeme_advances`: the reading never stops halfway.)
pub open spec fn spec_next(s: Seq<u8>, pos: int, last: Option<TokenKind>, config: LexerConfig) -> Option<
    (SpannedTokenView, int, Option<TokenKind>),
>
    decreases s.len() - pos,
{
    if pos < 0 || pos >= s.len() {
        None
    } else {
        let (t, end) = lexeme_at(s, pos);
        if end <= pos || end > s.len() {
            None
        } else {
            let now = next_last(last, kind_result(t));
            if emits(config, last, kind_result(t)) {
                Some((SpannedTokenView { token: t, span: Span { start: pos as usize, end: end as usize } }, end, now))
            } else {
                spec_next(s, end, now, config)
            }
        }
    }
}

/// All tokens that the lexer hands out from byte `pos` on, appended to
/// `acc`.
pub open spec fn spec_tokens(
    s: Seq<u8>,
    pos: int,
    last: Option<TokenKind>,
    config: LexerConfig,
    acc: Seq<SpannedTokenView>,
) -> Seq<SpannedTokenView>
    decreases s.len() - pos,
{
    match spec_next(s, pos, last, config) {
        None => acc,
        Some((t, end, now)) => if pos < end <= s.len() {
            spec_tokens(s, end, now, config, acc.push(t))
        } else {
            acc
        },
    }
}

/// The tokens of a text under a configuration.
pub open spec fn tokens_of(s: Seq<u8>, config: LexerConfig) -> Seq<SpannedTokenView> {
    spec_tokens(s, 0, None, config, Seq::empty())
}

/// Where the token at `pos` is handed out, it is the next token.
pub proof fn lemma_next_takes_first(s: Seq<u8>, pos: int, last: Option<TokenKind>, config: LexerConfig)
    requires
        0 <= pos < s.len(),
        s.len() <= usize::MAX,
        emits(config, last, kind_result(lexeme_at(s, pos).0)),
    ensures
        spec_next(s, pos, last, config) == Some(
            (
                SpannedTokenView {
                    token: lexeme_at(s, pos).0,
                    span: Span { start: pos as usize, end: lexeme_at(s, pos).1 as usize },
                },
                lexeme_at(s, pos).1,
                next_last(last, kind_result(lexeme_at(s, pos).0)),
            ),
        ),
{
    lemma_lexeme_advances(s, pos);
}

/// Where the token at `pos` is left out, the next token is the one that
/// the lexer finds after it.
pub proof fn lemma_next_skips(s: Seq<u8>, pos: int, last: Option<TokenKind>, config: LexerConfig)
    requires
        0 <= pos < s.len(),
        !emits(config, last, kind_result(lexeme_at(s, pos).0)),
    ensures
        spec_next(s, pos, last, config) == spec_next(
            s,
            lexeme_at(s, pos).1,
            next_last(last, kind_result(lexeme_at(s, pos).0)),
            config,
        ),
{
    lemma_lexeme_advances(s, pos);
}

/// The tokens come in the order of the text: the next token starts at or
/// after the place the lexer stands at, is not empty, and ends where the
/// lexer stands afterwards, inside the text.
pub proof fn lemma_next_in_order(s: Seq<u8>, pos: int, last: Option<TokenKind>, config: LexerConfig)
    requires
        0 <= pos,
        s.len() <= usize::MAX,
        spec_next(s, pos, last, config) is Some,
    ensures
        ({
            let (token, end, _) = spec_next(s, pos, last, config)->0;
            &&& pos <= token.span.start
            &&& token.span.start < token.span.end
            &&& token.span.end == end
            &&& end <= s.len()
        }),
    decreases s.len() - pos,
{
    let (t, end) = lexeme_at(s, pos);
    if !emits(config, last, kind_result(t)) {
        lemma_next_in_order(s, end, next_last(last, kind_result(t)), config);
    }
}

/// What the configuration leaves out is never handed out: no whitespace
/// with `ignore_whitespace`, no comment with `ignore_comments`, and with
/// `asi` no newline unless the token before it can end a statement.
pub proof fn lemma_next_respects_config(s: Seq<u8>, pos: int, last: Option<TokenKind>, config: LexerConfig)
    requires
        spec_next(s, pos, last, config) is Some,
    ensures
        ({
            let (token, _, _) = spec_next(s, pos, last, config)->0;
            let kind = kind_result(token.token);
            &&& config.ignore_whitespace ==> kind != Ok::<TokenKind, LexError>(TokenKind::Whitespace)
            &&& config.ignore_comments ==> kind != Ok::<TokenKind, LexError>(TokenKind::LineComment) && kind
                != Ok::<TokenKind, LexError>(TokenKind::BlockComment)
        }),
    decreases s.len() - pos,
{
    let (t, end) = lexeme_at(s, pos);
    if !emits(config, last, kind_result(t)) {
        lemma_next_respects_config(s, end, next_last(last, kind_result(t)), config);
    }
}

/// The configuration that leaves nothing out.
pub open spec fn spec_raw() -> LexerConfig {
    LexerConfig { ignore_whitespace: false, ignore_comments: false, asi: false }
}

/// The tokens lie end to end from the start of the text up to byte `to`:
/// the first starts at 0, each of the others where the one before it ends,
/// none is empty, and the last ends at `to`.
pub open spec fn end_to_end(ts: Seq<SpannedTokenView>, to: int) -> bool {
    &&& forall|i: int|
        0 <= i < ts.len() ==> (#[trigger] ts[i]).span.start < ts[i].span.end && ts[i].span.start == if i == 0 {
            0
        } else {
            ts[i - 1].span.end
        }
    &&& to == if ts.len() == 0 {
        0
    } else {
        ts[ts.len() - 1].span.end as int
    }
}

/// With nothing left out, the tokens that follow tokens which lie end to
/// end up to `pos` lie end to end with them up to the end of the text.
pub proof fn lemma_raw_tokens_go_on(s: Seq<u8>, pos: int, last: Option<TokenKind>, acc: Seq<SpannedTokenView>)
    requires
        0 <= pos <= s.len() <= usize::MAX,
        end_to_end(acc, pos),
    ensures
        end_to_end(spec_tokens(s, pos, last, spec_raw(), acc), s.len() as int),
    decreases s.len() - pos,
{
    if pos < s.len() {
        lemma_next_takes_first(s, pos, last, spec_raw());
        let (t, end, now) = spec_next(s, pos, last, spec_raw())->0;
        lemma_lexeme_advances(s, pos);
        let next = acc.push(t);
        assert forall|i: int| 0 <= i < next.len() implies (#[trigger] next[i]).span.start < next[i].span.end
            && next[i].span.start == if i == 0 {
            0
        } else {
            next[i - 1].span.end
        } by {
        }
        lemma_raw_tokens_go_on(s, end, now, next);
    }
}

/// With nothing left out, the tokens of a text cover the text: they lie end
/// to end from its first byte to its last.
pub proof fn lemma_raw_tokens_cover_the_text(s: Seq<u8>)
    requires
        s.len() <= usize::MAX,
    ensures
        end_to_end(tokens_of(s, spec_raw()), s.len() as int),
{
    lemma_raw_tokens_go_on(s, 0, None, Seq::empty());
}

/// The tokens that follow tokens in order, which end at or before `pos`,
/// are in order with them.
pub proof fn lemma_tokens_go_on_in_order(
    s: Seq<u8>,
    pos: int,
    last: Option<TokenKind>,
    config: LexerConfig,
    acc: Seq<SpannedTokenView>,
)
    requires
        0 <= pos,
        s.len() <= usize::MAX,
        in_order(acc),
        forall|i: int| 0 <= i < acc.len() ==> (#[trigger] acc[i]).span.end <= pos,
    ensures
        in_order(spec_tokens(s, pos, last, config, acc)),
    decreases s.len() - pos,
{
    match spec_next(s, pos, last, config) {
        None => {},
        Some((t, end, now)) => {
            lemma_next_in_order(s, pos, last, config);
            let next = acc.push(t);
            assert forall|i: int| 0 <= i < next.len() implies (#[trigger] next[i]).span.start <= next[i].span.end
                && next[i].span.end <= end by {
            }
            assert forall|i: int, j: int| 0 <= i < j < next.len() implies (#[trigger] next[i]).span.end <= (
            #[trigger] next[j]).span.start by {
            }
            lemma_tokens_go_on_in_order(s, end, now, config, next);
        },
    }
}

/// The tokens of a text stand in the order of the text.
pub proof fn lemma_tokens_in_order(s: Seq<u8>, config: LexerConfig)
    requires
        s.len() <= usize::MAX,
    ensures
        in_order(tokens_of(s, config)),
{
    lemma_tokens_go_on_in_order(s, 0, None, config, Seq::empty());
}

/// A lexer over a text: hands out the tokens one by one, front to back.
pub struct SpannedLexer<'a> {
    pub code: &'a str,
    pub pos: usize,
    pub last: Option<TokenKind>,
    pub config: LexerConfig,
}

/// The kind of a token that was read.
fn kind_of(t: &Result<Token, LexError>) -> (r: Result<TokenKind, LexError>)
    ensures
        r == kind_result(token_result(*t)),
{
    match t {
        Ok(t) => Ok(t.kind()),
        Err(e) => Err(*e),
    }
}

/// Whether a token of this kind can end a statement.
pub fn ends_statement(k: TokenKind) -> (r: bool)
    ensures
        r == can_end_statement(k),
{
    match k {
        TokenKind::Identifier => true,
        TokenKind::Integer => true,
        TokenKind::String => true,
        TokenKind::Nil => true,
        TokenKind::True => true,
        TokenKind::False => true,
        TokenKind::RightParenthesis => true,
        TokenKind::RightBrace => true,
        TokenKind::RightBracket => true,
        TokenKind::RightAngledBracket => true,
        _ => false,
    }
}

impl<'a> SpannedLexer<'a> {
    /// A lexer at the start of `code`.
    pub fn new(code: &'a str, config: LexerConfig) -> (r: SpannedLexer<'a>)
        ensures
            r.code == code,
            r.pos == 0,
            r.last is None,
            r.config == config,
    {
        SpannedLexer { code, pos: 0, last: None, config }
    }

    /// The next token, or `None` at the end of the text; after a `None` the
    /// lexer stands at the end and every later call gives `None` again.
    pub fn next(&mut self) -> (r: Option<SpannedToken>)
        ensures
            final(self).code == old(self).code,
            final(self).config == old(self).config,
            match r {
                Some(t) => spec_next(
                    old(self).code.spec_bytes(),
                    old(self).pos as int,
                    old(self).last,
                    old(self).config,
                ) == Some((t.view(), final(self).pos as int, final(self).last)) && old(self).pos < final(self).pos
                    <= old(self).code.spec_bytes().len(),
                None => spec_next(
                    old(self).code.spec_bytes(),
                    old(self).pos as int,
                    old(self).last,
                    old(self).config,
                ) is None && old(self).pos <= final(self).pos && final(self).pos >= old(self).code.spec_bytes().len(),
            },
    {
        let ghost s = self.code.spec_bytes();
        let n = self.code.as_bytes().len();
        loop
            invariant
                self.code == old(self).code,
                self.config == old(self).config,
                s == self.code.spec_bytes(),
                n == s.len(),
                old(self).pos <= self.pos,
                spec_next(s, old(self).pos as int, old(self).last, self.config) == spec_next(
                    s,
                    self.pos as int,
                    self.last,
                    self.config,
                ),
            decreases n - self.pos,
        {
            if self.pos >= n {
                return None;
            }
            let start = self.pos;
            let (t, end) = token(self.code, start);
            let kind = kind_of(&t);
            let emit = match kind {
                Ok(TokenKind::Whitespace) => !self.config.ignore_whitespace,
                Ok(TokenKind::LineComment) => !self.config.ignore_comments,
                Ok(TokenKind::BlockComment) => !self.config.ignore_comments,
                Ok(TokenKind::NewLine) => !self.config.asi || match self.last {
                    Some(k) => ends_statement(k),
                    None => false,
                },
                _ => true,
            };
            let now = match kind {
                Ok(TokenKind::Whitespace) => self.last,
                Ok(TokenKind::LineComment) => self.last,
                Ok(TokenKind::BlockComment) => self.last,
                Ok(k) => Some(k),
                Err(_) => self.last,
            };
            self.pos = end;
            self.last = now;
            if emit {
                return Some(SpannedToken { token: t, span: Span { start, end } });
            }
        }
    }
}

/// All tokens of `code` under `config`.
pub fn tokenize(code: &str, config: LexerConfig) -> (r: Vec<SpannedToken>)
    ensures
        spanned_views(r@) == tokens_of(code.spec_bytes(), config),
{
    let ghost s = code.spec_bytes();
    let mut lexer = SpannedLexer::new(code, config);
    let mut out: Vec<SpannedToken> = Vec::new();
    assert(spanned_views(out@) =~= Seq::empty());
    loop
        invariant
            lexer.code == code,
            lexer.config == config,
            s == code.spec_bytes(),
            lexer.pos <= s.len(),
            tokens_of(s, config) == spec_tokens(s, lexer.pos as int, lexer.last, config, spanned_views(out@)),
        decreases s.len() - lexer.pos,
    {
        let ghost acc = spanned_views(out@);
        match lexer.next() {
            None => {
                return out;
            },
            Some(t) => {
                out.push(t);
                assert(spanned_views(out@) =~= acc.push(t.view()));
            },
        }
    }
}

} // verus!
