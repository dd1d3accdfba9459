//! Tokens: the closed set of lexical kinds, each with the span it was read
//! from.

use crate::span::HasSpan;
use crate::span::Span;
use crate::text::decimal;
use crate::text::decimal_string;
use vstd::prelude::*;
use vstd::std_specs::convert::FromSpecImpl;
use vstd::string::StringExecFns;

verus! {

/// Why a piece of source text is no token.
#[derive(Debug, Clone, Copy, PartialEq, Eq, Structural)]
pub enum LexError {
    /// An identifier that starts with a digit.
    InvalidIdentifier,
    /// A character that starts no token.
    InvalidToken,
}

impl Default for LexError {
    fn default() -> (r: LexError)
        ensures
            r == LexError::InvalidToken,
    {
        LexError::InvalidToken
    }
}

/// The quote a string literal was written with.
#[derive(Debug, Clone, Copy, PartialEq, Eq, Structural)]
pub enum QuoteKind {
    Single,
    Double,
}

/// The text of a string literal, as written between its quotes, and the
/// quote it was written with.
#[derive(Debug, Clone, PartialEq)]
pub struct QuotedString {
    pub content: String,
    pub quote: QuoteKind,
}

impl QuotedString {
    pub fn into_string(self) -> (r: String)
        ensures
            r == self.content,
    {
        self.content
    }
}

impl From<QuotedString> for String {
    fn from(value: QuotedString) -> (r: String) {
        value.content
    }
}

impl FromSpecImpl<QuotedString> for String {
    open spec fn obeys_from_spec() -> bool {
        true
    }

    open spec fn from_spec(value: QuotedString) -> String {
        value.content
    }
}

/// A token.
#[derive(Debug, PartialEq)]
pub enum Token {
    Whitespace,
    Plus,
    Minus,
    Asterisk,
    Slash,
    Percent,
    Equal,
    PlusEqual,
    MinusEqual,
    AsteriskEqual,
    SlashEqual,
    PercentEqual,
    EqualEqual,
    BangEqual,
    LeftAngledBracket,
    RightAngledBracket,
    LeftAngledBracketEqual,
    RightAngledBracketEqual,
    AndAnd,
    PipePipe,
    LeftParenthesis,
    RightParenthesis,
    LeftBrace,
    RightBrace,
    LeftBracket,
    RightBracket,
    Bang,
    Dot,
    DotDot,
    Comma,
    Colon,
    Pipe,
    At,
    Arrow,
    Nil,
    True,
    False,
    Panic,
    Assert,
    Let,
    LetMut,
    If,
    Else,
    Iter,
    Of,
    Return,
    Break,
    Continue,
    Use,
    Export,
    NewLine,
    LineComment,
    BlockComment,
    Integer(i32),
    String(QuotedString),
    TemplateStringLeadingFragment(String),
    TemplateStringCentralFragment(String),
    TemplateStringTrailingFragment(String),
    Identifier(String),
}

/// The kind of a token: the token without what it carries.
#[derive(Debug, Clone, Copy, PartialEq, Eq, Structural)]
pub enum TokenKind {
    Whitespace,
    Plus,
    Minus,
    Asterisk,
    Slash,
    Percent,
    Equal,
    PlusEqual,
    MinusEqual,
    AsteriskEqual,
    SlashEqual,
    PercentEqual,
    EqualEqual,
    BangEqual,
    LeftAngledBracket,
    RightAngledBracket,
    LeftAngledBracketEqual,
    RightAngledBracketEqual,
    AndAnd,
    PipePipe,
    LeftParenthesis,
    RightParenthesis,
    LeftBrace,
    RightBrace,
    LeftBracket,
    RightBracket,
    Bang,
    Dot,
    DotDot,
    Comma,
    Colon,
    Pipe,
    At,
    Arrow,
    Nil,
    True,
    False,
    Panic,
    Assert,
    Let,
    LetMut,
    If,
    Else,
    Iter,
    Of,
    Return,
    Break,
    Continue,
    Use,
    Export,
    NewLine,
    LineComment,
    BlockComment,
    Integer,
    String,
    TemplateStringLeadingFragment,
    TemplateStringCentralFragment,
    TemplateStringTrailingFragment,
    Identifier,
}

/// The mathematical model of a token: its kind and what it carries. A token
/// that carries no text has the empty text, one that carries no number has
/// zero, and only a string literal has a quote.
pub struct TokenView {
    pub kind: TokenKind,
    pub text: Seq<char>,
    pub number: i32,
    pub quote: Option<QuoteKind>,
}

impl Token {
    /// The kind of the token.
    #[verifier::opaque]
    pub open spec fn spec_kind(&self) -> TokenKind {
        match self {
            Token::Whitespace => TokenKind::Whitespace,
            Token::Plus => TokenKind::Plus,
            Token::Minus => TokenKind::Minus,
            Token::Asterisk => TokenKind::Asterisk,
            Token::Slash => TokenKind::Slash,
            Token::Percent => TokenKind::Percent,
            Token::Equal => TokenKind::Equal,
            Token::PlusEqual => TokenKind::PlusEqual,
            Token::MinusEqual => TokenKind::MinusEqual,
            Token::AsteriskEqual => TokenKind::AsteriskEqual,
            Token::SlashEqual => TokenKind::SlashEqual,
            Token::PercentEqual => TokenKind::PercentEqual,
            Token::EqualEqual => TokenKind::EqualEqual,
            Token::BangEqual => TokenKind::BangEqual,
            Token::LeftAngledBracket => TokenKind::LeftAngledBracket,
            Token::RightAngledBracket => TokenKind::RightAngledBracket,
            Token::LeftAngledBracketEqual => TokenKind::LeftAngledBracketEqual,
            Token::RightAngledBracketEqual => TokenKind::RightAngledBracketEqual,
            Token::AndAnd => TokenKind::AndAnd,
            Token::PipePipe => TokenKind::PipePipe,
            Token::LeftParenthesis => TokenKind::LeftParenthesis,
            Token::RightParenthesis => TokenKind::RightParenthesis,
            Token::LeftBrace => TokenKind::LeftBrace,
            Token::RightBrace => TokenKind::RightBrace,
            Token::LeftBracket => TokenKind::LeftBracket,
            Token::RightBracket => TokenKind::RightBracket,
            Token::Bang => TokenKind::Bang,
            Token::Dot => TokenKind::Dot,
            Token::DotDot => TokenKind::DotDot,
            Token::Comma => TokenKind::Comma,
            Token::Colon => TokenKind::Colon,
            Token::Pipe => TokenKind::Pipe,
            Token::At => TokenKind::At,
            Token::Arrow => TokenKind::Arrow,
            Token::Nil => TokenKind::Nil,
            Token::True => TokenKind::True,
            Token::False => TokenKind::False,
            Token::Panic => TokenKind::Panic,
            Token::Assert => TokenKind::Assert,
            Token::Let => TokenKind::Let,
            Token::LetMut => TokenKind::LetMut,
            Token::If => TokenKind::If,
            Token::Else => TokenKind::Else,
            Token::Iter => TokenKind::Iter,
            Token::Of => TokenKind::Of,
            Token::Return => TokenKind::Return,
            Token::Break => TokenKind::Break,
            Token::Continue => TokenKind::Continue,
            Token::Use => TokenKind::Use,
            Token::Export => TokenKind::Export,
            Token::NewLine => TokenKind::NewLine,
            Token::LineComment => TokenKind::LineComment,
            Token::BlockComment => TokenKind::BlockComment,
            Token::Integer(_) => TokenKind::Integer,
            Token::String(_) => TokenKind::String,
            Token::TemplateStringLeadingFragment(_) => TokenKind::TemplateStringLeadingFragment,
            Token::TemplateStringCentralFragment(_) => TokenKind::TemplateStringCentralFragment,
            Token::TemplateStringTrailingFragment(_) => TokenKind::TemplateStringTrailingFragment,
            Token::Identifier(_) => TokenKind::Identifier,
        }
    }

    /// The text that the token carries.
    pub open spec fn spec_text(&self) -> Seq<char> {
        match self {
            Token::String(q) => q.content@,
            Token::TemplateStringLeadingFragment(s) => s@,
            Token::TemplateStringCentralFragment(s) => s@,
            Token::TemplateStringTrailingFragment(s) => s@,
            Token::Identifier(s) => s@,
            _ => Seq::empty(),
        }
    }

    pub open spec fn view(&self) -> TokenView {
        TokenView {
            kind: self.spec_kind(),
            text: self.spec_text(),
            number: match self {
                Token::Integer(v) => *v,
                _ => 0i32,
            },
            quote: match self {
                Token::String(q) => Some(q.quote),
                _ => None,
            },
        }
    }

    /// The kind of the token.
    pub fn kind(&self) -> (r: TokenKind)
        ensures
            r == self.spec_kind(),
    {
        reveal(Token::spec_kind);
        match self {
            Token::Whitespace => TokenKind::Whitespace,
            Token::Plus => TokenKind::Plus,
            Token::Minus => TokenKind::Minus,
            Token::Asterisk => TokenKind::Asterisk,
            Token::Slash => TokenKind::Slash,
            Token::Percent => TokenKind::Percent,
            Token::Equal => TokenKind::Equal,
            Token::PlusEqual => TokenKind::PlusEqual,
            Token::MinusEqual => TokenKind::MinusEqual,
            Token::AsteriskEqual => TokenKind::AsteriskEqual,
            Token::SlashEqual => TokenKind::SlashEqual,
            Token::PercentEqual => TokenKind::PercentEqual,
            Token::EqualEqual => TokenKind::EqualEqual,
            Token::BangEqual => TokenKind::BangEqual,
            Token::LeftAngledBracket => TokenKind::LeftAngledBracket,
            Token::RightAngledBracket => TokenKind::RightAngledBracket,
            Token::LeftAngledBracketEqual => TokenKind::LeftAngledBracketEqual,
            Token::RightAngledBracketEqual => TokenKind::RightAngledBracketEqual,
            Token::AndAnd => TokenKind::AndAnd,
            Token::PipePipe => TokenKind::PipePipe,
            Token::LeftParenthesis => TokenKind::LeftParenthesis,
            Token::RightParenthesis => TokenKind::RightParenthesis,
            Token::LeftBrace => TokenKind::LeftBrace,
            Token::RightBrace => TokenKind::RightBrace,
            Token::LeftBracket => TokenKind::LeftBracket,
            Token::RightBracket => TokenKind::RightBracket,
            Token::Bang => TokenKind::Bang,
            Token::Dot => TokenKind::Dot,
            Token::DotDot => TokenKind::DotDot,
            Token::Comma => TokenKind::Comma,
            Token::Colon => TokenKind::Colon,
            Token::Pipe => TokenKind::Pipe,
            Token::At => TokenKind::At,
            Token::Arrow => TokenKind::Arrow,
            Token::Nil => TokenKind::Nil,
            Token::True => TokenKind::True,
            Token::False => TokenKind::False,
            Token::Panic => TokenKind::Panic,
            Token::Assert => TokenKind::Assert,
            Token::Let => TokenKind::Let,
            Token::LetMut => TokenKind::LetMut,
            Token::If => TokenKind::If,
            Token::Else => TokenKind::Else,
            Token::Iter => TokenKind::Iter,
            Token::Of => TokenKind::Of,
            Token::Return => TokenKind::Return,
            Token::Break => TokenKind::Break,
            Token::Continue => TokenKind::Continue,
            Token::Use => TokenKind::Use,
            Token::Export => TokenKind::Export,
            Token::NewLine => TokenKind::NewLine,
            Token::LineComment => TokenKind::LineComment,
            Token::BlockComment => TokenKind::BlockComment,
            Token::Integer(_) => TokenKind::Integer,
            Token::String(_) => TokenKind::String,
            Token::TemplateStringLeadingFragment(_) => TokenKind::TemplateStringLeadingFragment,
            Token::TemplateStringCentralFragment(_) => TokenKind::TemplateStringCentralFragment,
            Token::TemplateStringTrailingFragment(_) => TokenKind::TemplateStringTrailingFragment,
            Token::Identifier(_) => TokenKind::Identifier,
        }
    }

    /// The token as it is written in source text. Whitespace is shown as
    /// `[WS]` and a newline as a backslash and `n`.
    pub open spec fn spec_to_source(&self) -> Seq<char> {
        match self {
            Token::Whitespace => "[WS]"@,
            Token::Plus => "+"@,
            Token::Minus => "-"@,
            Token::Asterisk => "*"@,
            Token::Slash => "/"@,
            Token::Percent => "%"@,
            Token::Equal => "="@,
            Token::PlusEqual => "+="@,
            Token::MinusEqual => "-="@,
            Token::AsteriskEqual => "*="@,
            Token::SlashEqual => "/="@,
            Token::PercentEqual => "%="@,
            Token::EqualEqual => "=="@,
            Token::BangEqual => "!="@,
            Token::LeftAngledBracket => "<"@,
            Token::RightAngledBracket => ">"@,
            Token::LeftAngledBracketEqual => "<="@,
            Token::RightAngledBracketEqual => ">="@,
            Token::AndAnd => "&&"@,
            Token::PipePipe => "||"@,
            Token::LeftParenthesis => "("@,
            Token::RightParenthesis => ")"@,
            Token::LeftBrace => "{"@,
            Token::RightBrace => "}"@,
            Token::LeftBracket => "["@,
            Token::RightBracket => "]"@,
            Token::Bang => "!"@,
            Token::Dot => "."@,
            Token::DotDot => ".."@,
            Token::Comma => ","@,
            Token::Colon => ":"@,
            Token::Pipe => "|"@,
            Token::At => "@"@,
            Token::Arrow => "->"@,
            Token::Nil => "nil"@,
            Token::True => "true"@,
            Token::False => "false"@,
            Token::Panic => "panic"@,
            Token::Assert => "assert"@,
            Token::Let => "let"@,
            Token::LetMut => "let!"@,
            Token::If => "if"@,
            Token::Else => "else"@,
            Token::Iter => "iter"@,
            Token::Of => "of"@,
            Token::Return => "return"@,
            Token::Break => "break"@,
            Token::Continue => "continue"@,
            Token::Use => "use"@,
            Token::Export => "export"@,
            Token::NewLine => "\\n"@,
            Token::LineComment => Seq::empty(),
            Token::BlockComment => Seq::empty(),
            Token::Integer(v) => decimal(*v as int),
            Token::String(q) => match q.quote {
                QuoteKind::Single => "'"@ + q.content@ + "'"@,
                QuoteKind::Double => "\""@ + q.content@ + "\""@,
            },
            Token::TemplateStringLeadingFragment(s) => "\""@ + s@ + "{"@,
            Token::TemplateStringCentralFragment(s) => "}"@ + s@ + "{"@,
            Token::TemplateStringTrailingFragment(s) => "}"@ + s@ + "\""@,
            Token::Identifier(s) => s@,
        }
    }

    /// The token as it is written in source text.
    pub fn to_source(&self) -> (r: String)
        requires
            !(self is LineComment),
            !(self is BlockComment),
        ensures
            r@ == self.spec_to_source(),
    {
        match self {
            Token::Whitespace => String::from_str("[WS]"),
            Token::Plus => String::from_str("+"),
            Token::Minus => String::from_str("-"),
            Token::Asterisk => String::from_str("*"),
            Token::Slash => String::from_str("/"),
            Token::Percent => String::from_str("%"),
            Token::Equal => String::from_str("="),
            Token::PlusEqual => String::from_str("+="),
            Token::MinusEqual => String::from_str("-="),
            Token::AsteriskEqual => String::from_str("*="),
            Token::SlashEqual => String::from_str("/="),
            Token::PercentEqual => String::from_str("%="),
            Token::EqualEqual => String::from_str("=="),
            Token::BangEqual => String::from_str("!="),
            Token::LeftAngledBracket => String::from_str("<"),
            Token::RightAngledBracket => String::from_str(">"),
            Token::LeftAngledBracketEqual => String::from_str("<="),
            Token::RightAngledBracketEqual => String::from_str(">="),
            Token::AndAnd => String::from_str("&&"),
            Token::PipePipe => String::from_str("||"),
            Token::LeftParenthesis => String::from_str("("),
            Token::RightParenthesis => String::from_str(")"),
            Token::LeftBrace => String::from_str("{"),
            Token::RightBrace => String::from_str("}"),
            Token::LeftBracket => String::from_str("["),
            Token::RightBracket => String::from_str("]"),
            Token::Bang => String::from_str("!"),
            Token::Dot => String::from_str("."),
            Token::DotDot => String::from_str(".."),
            Token::Comma => String::from_str(","),
            Token::Colon => String::from_str(":"),
            Token::Pipe => String::from_str("|"),
            Token::At => String::from_str("@"),
            Token::Arrow => String::from_str("->"),
            Token::Nil => String::from_str("nil"),
            Token::True => String::from_str("true"),
            Token::False => String::from_str("false"),
            Token::Panic => String::from_str("panic"),
            Token::Assert => String::from_str("assert"),
            Token::Let => String::from_str("let"),
            Token::LetMut => String::from_str("let!"),
            Token::If => String::from_str("if"),
            Token::Else => String::from_str("else"),
            Token::Iter => String::from_str("iter"),
            Token::Of => String::from_str("of"),
            Token::Return => String::from_str("return"),
            Token::Break => String::from_str("break"),
            Token::Continue => String::from_str("continue"),
            Token::Use => String::from_str("use"),
            Token::Export => String::from_str("export"),
            Token::NewLine => String::from_str("\\n"),
            Token::LineComment => String::new(),
            Token::BlockComment => String::new(),
            Token::Integer(v) => decimal_string(*v),
            Token::String(q) => {
                match q.quote {
                    QuoteKind::Single => wrap("'", &q.content, "'"),
                    QuoteKind::Double => wrap("\"", &q.content, "\""),
                }
            },
            Token::TemplateStringLeadingFragment(s) => wrap("\"", s, "{"),
            Token::TemplateStringCentralFragment(s) => wrap("}", s, "{"),
            Token::TemplateStringTrailingFragment(s) => wrap("}", s, "\""),
            Token::Identifier(s) => s.clone(),
        }
    }
}

impl Clone for Token {
    fn clone(&self) -> (r: Token)
        ensures
            r == *self,
    {
        match self {
            Token::Whitespace => Token::Whitespace,
            Token::Plus => Token::Plus,
            Token::Minus => Token::Minus,
            Token::Asterisk => Token::Asterisk,
            Token::Slash => Token::Slash,
            Token::Percent => Token::Percent,
            Token::Equal => Token::Equal,
            Token::PlusEqual => Token::PlusEqual,
            Token::MinusEqual => Token::MinusEqual,
            Token::AsteriskEqual => Token::AsteriskEqual,
            Token::SlashEqual => Token::SlashEqual,
            Token::PercentEqual => Token::PercentEqual,
            Token::EqualEqual => Token::EqualEqual,
            Token::BangEqual => Token::BangEqual,
            Token::LeftAngledBracket => Token::LeftAngledBracket,
            Token::RightAngledBracket => Token::RightAngledBracket,
            Token::LeftAngledBracketEqual => Token::LeftAngledBracketEqual,
            Token::RightAngledBracketEqual => Token::RightAngledBracketEqual,
            Token::AndAnd => Token::AndAnd,
            Token::PipePipe => Token::PipePipe,
            Token::LeftParenthesis => Token::LeftParenthesis,
            Token::RightParenthesis => Token::RightParenthesis,
            Token::LeftBrace => Token::LeftBrace,
            Token::RightBrace => Token::RightBrace,
            Token::LeftBracket => Token::LeftBracket,
            Token::RightBracket => Token::RightBracket,
            Token::Bang => Token::Bang,
            Token::Dot => Token::Dot,
            Token::DotDot => Token::DotDot,
            Token::Comma => Token::Comma,
            Token::Colon => Token::Colon,
            Token::Pipe => Token::Pipe,
            Token::At => Token::At,
            Token::Arrow => Token::Arrow,
            Token::Nil => Token::Nil,
            Token::True => Token::True,
            Token::False => Token::False,
            Token::Panic => Token::Panic,
            Token::Assert => Token::Assert,
            Token::Let => Token::Let,
            Token::LetMut => Token::LetMut,
            Token::If => Token::If,
            Token::Else => Token::Else,
            Token::Iter => Token::Iter,
            Token::Of => Token::Of,
            Token::Return => Token::Return,
            Token::Break => Token::Break,
            Token::Continue => Token::Continue,
            Token::Use => Token::Use,
            Token::Export => Token::Export,
            Token::NewLine => Token::NewLine,
            Token::LineComment => Token::LineComment,
            Token::BlockComment => Token::BlockComment,
            Token::Integer(v) => Token::Integer(*v),
            Token::String(q) => Token::String(QuotedString { content: q.content.clone(), quote: q.quote }),
            Token::TemplateStringLeadingFragment(s) => Token::TemplateStringLeadingFragment(s.clone()),
            Token::TemplateStringCentralFragment(s) => Token::TemplateStringCentralFragment(s.clone()),
            Token::TemplateStringTrailingFragment(s) => Token::TemplateStringTrailingFragment(s.clone()),
            Token::Identifier(s) => Token::Identifier(s.clone()),
        }
    }
}

impl TokenKind {
    /// The kind as it is written in source text, for a kind that carries
    /// nothing; the empty text for the others.
    pub open spec fn plain_source(self) -> Seq<char> {
        match self {
            TokenKind::Whitespace => "[WS]"@,
            TokenKind::Plus => "+"@,
            TokenKind::Minus => "-"@,
            TokenKind::Asterisk => "*"@,
            TokenKind::Slash => "/"@,
            TokenKind::Percent => "%"@,
            TokenKind::Equal => "="@,
            TokenKind::PlusEqual => "+="@,
            TokenKind::MinusEqual => "-="@,
            TokenKind::AsteriskEqual => "*="@,
            TokenKind::SlashEqual => "/="@,
            TokenKind::PercentEqual => "%="@,
            TokenKind::EqualEqual => "=="@,
            TokenKind::BangEqual => "!="@,
            TokenKind::LeftAngledBracket => "<"@,
            TokenKind::RightAngledBracket => ">"@,
            TokenKind::LeftAngledBracketEqual => "<="@,
            TokenKind::RightAngledBracketEqual => ">="@,
            TokenKind::AndAnd => "&&"@,
            TokenKind::PipePipe => "||"@,
            TokenKind::LeftParenthesis => "("@,
            TokenKind::RightParenthesis => ")"@,
            TokenKind::LeftBrace => "{"@,
            TokenKind::RightBrace => "}"@,
            TokenKind::LeftBracket => "["@,
            TokenKind::RightBracket => "]"@,
            TokenKind::Bang => "!"@,
            TokenKind::Dot => "."@,
            TokenKind::DotDot => ".."@,
            TokenKind::Comma => ","@,
            TokenKind::Colon => ":"@,
            TokenKind::Pipe => "|"@,
            TokenKind::At => "@"@,
            TokenKind::Arrow => "->"@,
            TokenKind::Nil => "nil"@,
            TokenKind::True => "true"@,
            TokenKind::False => "false"@,
            TokenKind::Panic => "panic"@,
            TokenKind::Assert => "assert"@,
            TokenKind::Let => "let"@,
            TokenKind::LetMut => "let!"@,
            TokenKind::If => "if"@,
            TokenKind::Else => "else"@,
            TokenKind::Iter => "iter"@,
            TokenKind::Of => "of"@,
            TokenKind::Return => "return"@,
            TokenKind::Break => "break"@,
            TokenKind::Continue => "continue"@,
            TokenKind::Use => "use"@,
            TokenKind::Export => "export"@,
            TokenKind::NewLine => "\\n"@,
            _ => Seq::empty(),
        }
    }

    /// The kind as it is written in source text, for a kind that carries
    /// nothing; the empty text for the others.
    pub fn source(&self) -> (r: String)
        ensures
            r@ == self.plain_source(),
    {
        match self {
            TokenKind::Whitespace => String::from_str("[WS]"),
            TokenKind::Plus => String::from_str("+"),
            TokenKind::Minus => String::from_str("-"),
            TokenKind::Asterisk => String::from_str("*"),
            TokenKind::Slash => String::from_str("/"),
            TokenKind::Percent => String::from_str("%"),
            TokenKind::Equal => String::from_str("="),
            TokenKind::PlusEqual => String::from_str("+="),
            TokenKind::MinusEqual => String::from_str("-="),
            TokenKind::AsteriskEqual => String::from_str("*="),
            TokenKind::SlashEqual => String::from_str("/="),
            TokenKind::PercentEqual => String::from_str("%="),
            TokenKind::EqualEqual => String::from_str("=="),
            TokenKind::BangEqual => String::from_str("!="),
            TokenKind::LeftAngledBracket => String::from_str("<"),
            TokenKind::RightAngledBracket => String::from_str(">"),
            TokenKind::LeftAngledBracketEqual => String::from_str("<="),
            TokenKind::RightAngledBracketEqual => String::from_str(">="),
            TokenKind::AndAnd => String::from_str("&&"),
            TokenKind::PipePipe => String::from_str("||"),
            TokenKind::LeftParenthesis => String::from_str("("),
            TokenKind::RightParenthesis => String::from_str(")"),
            TokenKind::LeftBrace => String::from_str("{"),
            TokenKind::RightBrace => String::from_str("}"),
            TokenKind::LeftBracket => String::from_str("["),
            TokenKind::RightBracket => String::from_str("]"),
            TokenKind::Bang => String::from_str("!"),
            TokenKind::Dot => String::from_str("."),
            TokenKind::DotDot => String::from_str(".."),
            TokenKind::Comma => String::from_str(","),
            TokenKind::Colon => String::from_str(":"),
            TokenKind::Pipe => String::from_str("|"),
            TokenKind::At => String::from_str("@"),
            TokenKind::Arrow => String::from_str("->"),
            TokenKind::Nil => String::from_str("nil"),
            TokenKind::True => String::from_str("true"),
            TokenKind::False => String::from_str("false"),
            TokenKind::Panic => String::from_str("panic"),
            TokenKind::Assert => String::from_str("assert"),
            TokenKind::Let => String::from_str("let"),
            TokenKind::LetMut => String::from_str("let!"),
            TokenKind::If => String::from_str("if"),
            TokenKind::Else => String::from_str("else"),
            TokenKind::Iter => String::from_str("iter"),
            TokenKind::Of => String::from_str("of"),
            TokenKind::Return => String::from_str("return"),
            TokenKind::Break => String::from_str("break"),
            TokenKind::Continue => String::from_str("continue"),
            TokenKind::Use => String::from_str("use"),
            TokenKind::Export => String::from_str("export"),
            TokenKind::NewLine => String::from_str("\\n"),
            _ => String::new(),
        }
    }

    /// The model of a token of this kind that carries nothing.
    pub open spec fn plain(self) -> TokenView {
        TokenView { kind: self, text: Seq::empty(), number: 0i32, quote: None }
    }

    /// A token of this kind: the token itself where the kind carries
    /// nothing, else the token that carries the empty text or zero.
    pub fn token(self) -> (t: Token)
        ensures
            t.spec_kind() == self,
            !(self is String) ==> t.view() == self.plain(),
            self is String ==> t.view() == (
                TokenView { kind: self, text: Seq::empty(), number: 0i32, quote: Some(QuoteKind::Double) }
            ),
    {
        reveal(Token::spec_kind);
        match self {
            TokenKind::Whitespace => Token::Whitespace,
            TokenKind::Plus => Token::Plus,
            TokenKind::Minus => Token::Minus,
            TokenKind::Asterisk => Token::Asterisk,
            TokenKind::Slash => Token::Slash,
            TokenKind::Percent => Token::Percent,
            TokenKind::Equal => Token::Equal,
            TokenKind::PlusEqual => Token::PlusEqual,
            TokenKind::MinusEqual => Token::MinusEqual,
            TokenKind::AsteriskEqual => Token::AsteriskEqual,
            TokenKind::SlashEqual => Token::SlashEqual,
            TokenKind::PercentEqual => Token::PercentEqual,
            TokenKind::EqualEqual => Token::EqualEqual,
            TokenKind::BangEqual => Token::BangEqual,
            TokenKind::LeftAngledBracket => Token::LeftAngledBracket,
            TokenKind::RightAngledBracket => Token::RightAngledBracket,
            TokenKind::LeftAngledBracketEqual => Token::LeftAngledBracketEqual,
            TokenKind::RightAngledBracketEqual => Token::RightAngledBracketEqual,
            TokenKind::AndAnd => Token::AndAnd,
            TokenKind::PipePipe => Token::PipePipe,
            TokenKind::LeftParenthesis => Token::LeftParenthesis,
            TokenKind::RightParenthesis => Token::RightParenthesis,
            TokenKind::LeftBrace => Token::LeftBrace,
            TokenKind::RightBrace => Token::RightBrace,
            TokenKind::LeftBracket => Token::LeftBracket,
            TokenKind::RightBracket => Token::RightBracket,
            TokenKind::Bang => Token::Bang,
            TokenKind::Dot => Token::Dot,
            TokenKind::DotDot => Token::DotDot,
            TokenKind::Comma => Token::Comma,
            TokenKind::Colon => Token::Colon,
            TokenKind::Pipe => Token::Pipe,
            TokenKind::At => Token::At,
            TokenKind::Arrow => Token::Arrow,
            TokenKind::Nil => Token::Nil,
            TokenKind::True => Token::True,
            TokenKind::False => Token::False,
            TokenKind::Panic => Token::Panic,
            TokenKind::Assert => Token::Assert,
            TokenKind::Let => Token::Let,
            TokenKind::LetMut => Token::LetMut,
            TokenKind::If => Token::If,
            TokenKind::Else => Token::Else,
            TokenKind::Iter => Token::Iter,
            TokenKind::Of => Token::Of,
            TokenKind::Return => Token::Return,
            TokenKind::Break => Token::Break,
            TokenKind::Continue => Token::Continue,
            TokenKind::Use => Token::Use,
            TokenKind::Export => Token::Export,
            TokenKind::NewLine => Token::NewLine,
            TokenKind::LineComment => Token::LineComment,
            TokenKind::BlockComment => Token::BlockComment,
            TokenKind::Integer => Token::Integer(0),
            TokenKind::String => Token::String(QuotedString { content: String::new(), quote: QuoteKind::Double }),
            TokenKind::TemplateStringLeadingFragment => Token::TemplateStringLeadingFragment(String::new()),
            TokenKind::TemplateStringCentralFragment => Token::TemplateStringCentralFragment(String::new()),
            TokenKind::TemplateStringTrailingFragment => Token::TemplateStringTrailingFragment(String::new()),
            TokenKind::Identifier => Token::Identifier(String::new()),
        }
    }
}

/// The model of a token with the span it was read from.
pub struct SpannedTokenView {
    pub token: Result<TokenView, LexError>,
    pub span: Span,
}

impl SpannedToken {
    pub open spec fn view(&self) -> SpannedTokenView {
        SpannedTokenView {
            token: match self.token {
                Ok(t) => Ok(t.view()),
                Err(e) => Err(e),
            },
            span: self.span,
        }
    }
}

/// The tokens stand in the order of the text: none ends before it starts,
/// and none starts before the one before it ends.
pub open spec fn in_order(ts: Seq<SpannedTokenView>) -> bool {
    &&& forall|i: int| 0 <= i < ts.len() ==> (#[trigger] ts[i]).span.start <= ts[i].span.end
    &&& forall|i: int, j: int|
        0 <= i < j < ts.len() ==> (#[trigger] ts[i]).span.end <= (#[trigger] ts[j]).span.start
}

/// The models of a sequence of spanned tokens.
pub open spec fn spanned_views(s: Seq<SpannedToken>) -> Seq<SpannedTokenView> {
    Seq::new(s.len(), |i: int| s[i].view())
}

/// `text` between `before` and `after`.
fn wrap(before: &str, text: &String, after: &str) -> (r: String)
    ensures
        r@ == before@ + text@ + after@,
{
    let mut s = String::from_str(before);
    s.append(text.as_str());
    s.append(after);
    s
}

/// A token, or the reason why there is none, with the span it was read from.
#[derive(Debug, PartialEq)]
pub struct SpannedToken {
    pub token: Result<Token, LexError>,
    pub span: Span,
}

impl SpannedToken {
    pub fn new(token: Token, span: Span) -> (r: SpannedToken)
        ensures
            r.token == Ok::<Token, LexError>(token),
            r.span == span,
    {
        SpannedToken { token: Ok(token), span }
    }

    pub fn new_err(error: LexError, span: Span) -> (r: SpannedToken)
        ensures
            r.token == Err::<Token, LexError>(error),
            r.span == span,
    {
        SpannedToken { token: Err(error), span }
    }
}

impl Clone for SpannedToken {
    fn clone(&self) -> (r: SpannedToken)
        ensures
            r == *self,
    {
        match &self.token {
            Ok(t) => SpannedToken { token: Ok(t.clone()), span: self.span },
            Err(e) => SpannedToken { token: Err(*e), span: self.span },
        }
    }
}

impl HasSpan for SpannedToken {
    open spec fn spec_span(&self) -> Span {
        self.span
    }

    fn span(&self) -> (r: Span) {
        self.span
    }

    fn set_span(&mut self, span: Span)
        ensures
            final(self).token == old(self).token,
    {
        self.span = span;
    }

    fn with_span(self, span: Span) -> (r: Self)
        ensures
            r.token == self.token,
    {
        SpannedToken { token: self.token, span }
    }
}

} // verus!
