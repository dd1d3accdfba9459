//! A small scripting language: a lexer that reads source text into spanned
//! tokens, a parser that reads tokens into a syntax tree, and an evaluator
//! that walks the tree in an environment of frames and scopes.
//!
//! Each part has a mathematical model: `lexer::tokens_of` says what the
//! tokens of a text are, `grammar` what tree a token sequence is, and
//! `semantics` what evaluating a tree means. The executable code is proved
//! to compute exactly what the models say.
//!
//! `visitor` and `visitor_mut` walk a tree for a visitor of the caller's;
//! `diagnostics` words the errors of every part.

pub mod assoc;
pub mod ast;
pub mod ast_clone;
pub mod ast_eq;
pub mod ast_model;
pub mod cst;
pub mod diagnostics;
pub mod environment;
pub mod error;
pub mod grammar;
pub mod grammar_laws;
pub mod grammar_spans;
pub mod interpreter;
pub mod leaves;
pub mod lexer;
pub mod ops;
pub mod parser;
pub mod semantics;
pub mod semantics_laws;
pub mod span;
pub mod text;
pub mod token;
pub mod value;
pub mod visitor;
pub mod visitor_mut;

pub use error::InterpreterError;
pub use error::ReferenceError;
pub use error::RuntimeError;
pub use error::TypeError;
pub use interpreter::Interpreter;
pub use lexer::LexerConfig;
pub use lexer::SpannedLexer;
pub use parser::parse;
pub use parser::parse_code;
pub use parser::ParseError;
pub use span::HasSpan;
pub use span::Span;
pub use span::Spanned;
pub use token::LexError;
pub use token::QuoteKind;
pub use token::QuotedString;
pub use token::SpannedToken;
pub use token::Token;
pub use token::TokenKind;
pub use value::ArgumentValues;
pub use value::BuiltinFunction;
pub use value::FunctionValue;
pub use value::Value;
pub use visitor::Visit;
pub use visitor_mut::VisitMut;
