//! What errors say: a message for each error, and labels that point at the
//! places in the source text that an error is about.

use crate::ast::BinExprKind;
use crate::ast::UnaryExprKind;
use crate::error::InterpreterError;
use crate::error::ReferenceError;
use crate::error::RuntimeError;
use crate::error::TypeError;
use crate::parser::ParseError;
use crate::span::Span;
use crate::token::LexError;
use crate::token::Token;
use crate::token::TokenKind;
use crate::value::debug_text;
use crate::value::type_of;
use crate::value::Value;
use vstd::prelude::*;
use vstd::string::StringExecFns;

verus! {

/// The models of a list of labels.
pub open spec fn labels_view(s: Seq<(Span, String)>) -> Seq<(Span, Seq<char>)> {
    Seq::new(s.len(), |i: int| (s[i].0, s[i].1@))
}

impl UnaryExprKind {
    /// The operator as it is written.
    pub open spec fn spec_symbol(self) -> Seq<char> {
        match self {
            UnaryExprKind::Minus => "-"@,
            UnaryExprKind::Not => "!"@,
        }
    }

    /// The operator as it is written.
    pub fn symbol(&self) -> (r: &'static str)
        ensures
            r@ == self.spec_symbol(),
    {
        match self {
            UnaryExprKind::Minus => "-",
            UnaryExprKind::Not => "!",
        }
    }
}

impl BinExprKind {
    /// The operator as it is written.
    pub open spec fn spec_symbol(self) -> Seq<char> {
        match self {
            BinExprKind::Add => "+"@,
            BinExprKind::Sub => "-"@,
            BinExprKind::Mul => "*"@,
            BinExprKind::Div => "/"@,
            BinExprKind::Mod => "%"@,
            BinExprKind::Equal => "=="@,
            BinExprKind::NotEqual => "!="@,
            BinExprKind::LessThan => "<"@,
            BinExprKind::GreaterThan => ">"@,
            BinExprKind::LessThanEqual => "<="@,
            BinExprKind::GreaterThanEqual => ">="@,
            BinExprKind::And => "&&"@,
            BinExprKind::Or => "||"@,
        }
    }

    /// The operator as it is written.
    pub fn symbol(&self) -> (r: &'static str)
        ensures
            r@ == self.spec_symbol(),
    {
        match self {
            BinExprKind::Add => "+",
            BinExprKind::Sub => "-",
            BinExprKind::Mul => "*",
            BinExprKind::Div => "/",
            BinExprKind::Mod => "%",
            BinExprKind::Equal => "==",
            BinExprKind::NotEqual => "!=",
            BinExprKind::LessThan => "<",
            BinExprKind::GreaterThan => ">",
            BinExprKind::LessThanEqual => "<=",
            BinExprKind::GreaterThanEqual => ">=",
            BinExprKind::And => "&&",
            BinExprKind::Or => "||",
        }
    }
}

/// `a`, `x`, `b`, `y` and `c`, one after the other.
fn sentence(a: &str, x: &str, b: &str, y: &str, c: &str) -> (r: String)
    ensures
        r@ == a@ + x@ + b@ + y@ + c@,
{
    let mut s = String::from_str(a);
    s.append(x);
    s.append(b);
    s.append(y);
    s.append(c);
    s
}

/// The items of a list, set apart by `, `, from place `i` on, appended to
/// `acc`.
pub open spec fn joined(items: Seq<Seq<char>>, i: int, acc: Seq<char>) -> Seq<char>
    decreases items.len() - i,
{
    if i < 0 || i >= items.len() {
        acc
    } else if i == 0 {
        joined(items, i + 1, acc + items[i])
    } else {
        joined(items, i + 1, acc + ", "@ + items[i])
    }
}

/// The texts of a list of strings.
pub open spec fn texts(s: Seq<String>) -> Seq<Seq<char>> {
    Seq::new(s.len(), |i: int| s[i]@)
}

/// The items of a list, set apart by `, `.
pub fn display_vec(v: &Vec<String>) -> (r: String)
    ensures
        r@ == joined(texts(v@), 0, Seq::empty()),
{
    let mut out = String::new();
    let mut i: usize = 0;
    while i < v.len()
        invariant
            i <= v@.len(),
            joined(texts(v@), 0, Seq::empty()) == joined(texts(v@), i as int, out@),
        decreases v@.len() - i,
    {
        if i > 0 {
            out.append(", ");
        }
        out.append(v[i].as_str());
        i = i + 1;
    }
    out
}

impl TokenKind {
    /// The kind as a parse error names it: an operator or a keyword as it is
    /// written, any other kind by a word.
    pub open spec fn spec_describe(self) -> Seq<char> {
        match self {
            TokenKind::Integer => "integer"@,
            TokenKind::String => "string"@,
            TokenKind::Identifier => "identifier"@,
            TokenKind::TemplateStringLeadingFragment => "template string"@,
            TokenKind::TemplateStringCentralFragment => "template string"@,
            TokenKind::TemplateStringTrailingFragment => "template string"@,
            TokenKind::LineComment => "comment"@,
            TokenKind::BlockComment => "comment"@,
            _ => self.plain_source(),
        }
    }

    /// The kind as a parse error names it.
    pub fn describe(&self) -> (r: String)
        ensures
            r@ == self.spec_describe(),
    {
        match self {
            TokenKind::Integer => String::from_str("integer"),
            TokenKind::String => String::from_str("string"),
            TokenKind::Identifier => String::from_str("identifier"),
            TokenKind::TemplateStringLeadingFragment => String::from_str("template string"),
            TokenKind::TemplateStringCentralFragment => String::from_str("template string"),
            TokenKind::TemplateStringTrailingFragment => String::from_str("template string"),
            TokenKind::LineComment => String::from_str("comment"),
            TokenKind::BlockComment => String::from_str("comment"),
            _ => self.source(),
        }
    }
}

/// A token as a parse error names it: a comment by a word, any other token
/// as it is written.
pub open spec fn describe_token(t: &Token) -> Seq<char> {
    if t is LineComment || t is BlockComment {
        "comment"@
    } else {
        t.spec_to_source()
    }
}

/// The names of the kinds from place `i` on, added to `acc`.
pub open spec fn kind_names(kinds: Seq<TokenKind>) -> Seq<Seq<char>> {
    Seq::new(kinds.len(), |i: int| kinds[i].spec_describe())
}

/// The names of a list of kinds, set apart by `, `.
fn describe_kinds(kinds: &Vec<TokenKind>) -> (r: String)
    ensures
        r@ == joined(kind_names(kinds@), 0, Seq::empty()),
{
    let mut names: Vec<String> = Vec::new();
    let mut i: usize = 0;
    while i < kinds.len()
        invariant
            i <= kinds@.len(),
            names@.len() == i,
            forall|j: int| 0 <= j < i ==> (#[trigger] names@[j])@ == kinds@[j].spec_describe(),
        decreases kinds@.len() - i,
    {
        names.push(kinds[i].describe());
        i = i + 1;
    }
    assert(texts(names@) =~= kind_names(kinds@));
    display_vec(&names)
}

impl LexError {
    /// What the error says.
    pub open spec fn spec_message(self) -> Seq<char> {
        match self {
            LexError::InvalidIdentifier => "Invalid Identifier"@,
            LexError::InvalidToken => "Invalid Token"@,
        }
    }

    /// What the error says.
    pub fn message(&self) -> (r: String)
        ensures
            r@ == self.spec_message(),
    {
        match self {
            LexError::InvalidIdentifier => String::from_str("Invalid Identifier"),
            LexError::InvalidToken => String::from_str("Invalid Token"),
        }
    }
}

/// The one byte, or nothing at the end of the addressable range, that
/// follows `location`.
pub open spec fn span_after(location: usize) -> Span {
    Span {
        start: location,
        end: if location < usize::MAX {
            (location + 1) as usize
        } else {
            location
        },
    }
}

impl ParseError {
    /// What the error says.
    pub open spec fn spec_message(&self) -> Seq<char> {
        "ParseError"@
    }

    /// What the error says.
    pub fn message(&self) -> (r: String)
        ensures
            r@ == self.spec_message(),
    {
        String::from_str("ParseError")
    }

    /// The places the error is about: where the input ended, the token
    /// that does not fit, or the text that is no token, each with what was
    /// looked for or what is wrong.
    pub open spec fn spec_labels(&self) -> Seq<(Span, Seq<char>)> {
        match self {
            ParseError::InvalidToken { location } => seq![(span_after(*location), "Invalid Token"@)],
            ParseError::UnrecognizedEof { location, expected } => seq![
                (
                    span_after(*location),
                    "Expected one of "@ + joined(kind_names(expected@), 0, Seq::empty()) + " but found EOF"@,
                ),
            ],
            ParseError::UnrecognizedToken { token, expected } => seq![
                (
                    Span { start: token.0, end: token.2 },
                    "Expected one of "@ + joined(kind_names(expected@), 0, Seq::empty()) + " but found "@
                        + describe_token(&token.1),
                ),
            ],
            ParseError::ExtraToken { token } => seq![
                (Span { start: token.0, end: token.2 }, "Unexpected "@ + describe_token(&token.1)),
            ],
            ParseError::User { error } => seq![(error.span, error.value.spec_message())],
        }
    }

    /// The places the error is about.
    pub fn labels(&self) -> (r: Vec<(Span, String)>)
        ensures
            labels_view(r@) == self.spec_labels(),
    {
        let mut out: Vec<(Span, String)> = Vec::new();
        match self {
            ParseError::InvalidToken { location } => {
                out.push((after(*location), String::from_str("Invalid Token")));
            },
            ParseError::UnrecognizedEof { location, expected } => {
                let mut m = String::from_str("Expected one of ");
                let names = describe_kinds(expected);
                m.append(names.as_str());
                m.append(" but found EOF");
                out.push((after(*location), m));
            },
            ParseError::UnrecognizedToken { token, expected } => {
                let mut m = String::from_str("Expected one of ");
                let names = describe_kinds(expected);
                m.append(names.as_str());
                m.append(" but found ");
                let found = token_text(&token.1);
                m.append(found.as_str());
                out.push((Span { start: token.0, end: token.2 }, m));
            },
            ParseError::ExtraToken { token } => {
                let mut m = String::from_str("Unexpected ");
                let found = token_text(&token.1);
                m.append(found.as_str());
                out.push((Span { start: token.0, end: token.2 }, m));
            },
            ParseError::User { error } => {
                out.push((error.span, error.value.message()));
            },
        }
        out
    }
}

/// The one byte that follows `location`.
fn after(location: usize) -> (r: Span)
    ensures
        r == span_after(location),
{
    Span {
        start: location,
        end: if location < usize::MAX {
            location + 1
        } else {
            location
        },
    }
}

/// A token as a parse error names it.
fn token_text(t: &Token) -> (r: String)
    ensures
        r@ == describe_token(t),
{
    match t {
        Token::LineComment => String::from_str("comment"),
        Token::BlockComment => String::from_str("comment"),
        _ => t.to_source(),
    }
}

/// What a label says of a value: how it is shown, and its type.
pub open spec fn value_note(v: &Value) -> Seq<char> {
    debug_text(v.view()) + " is of type "@ + type_of(v.view()).spec_name()
}

/// The label that says of what type the value at `span` is.
pub fn value_to_message(span: Span, v: &Value) -> (r: (Span, String))
    ensures
        r.0 == span,
        r.1@ == value_note(v),
{
    let mut m = v.to_debug();
    m.append(" is of type ");
    m.append(v.get_type().name());
    (span, m)
}

impl TypeError {
    /// What the error says: which operator could not be applied to which
    /// types. Of the two operands of an infix operator the right one is
    /// named first.
    pub open spec fn spec_message(&self) -> Seq<char> {
        match self {
            TypeError::UnaryOp { op, expr, .. } => match op {
                UnaryExprKind::Minus => debug_text(expr.view()) + " is not a number"@,
                UnaryExprKind::Not => "cannot apply unary operator `"@ + op.spec_symbol() + "` to type `"@
                    + type_of(expr.view()).spec_name() + "`"@,
            },
            TypeError::BinOp { op, lhs, rhs, .. } => {
                let l = type_of(lhs.view()).spec_name();
                let r = type_of(rhs.view()).spec_name();
                match op {
                    BinExprKind::Add => "cannot add `"@ + r + "` to `"@ + l + "`"@,
                    BinExprKind::Sub => "cannot subtract `"@ + r + "` from `"@ + l + "`"@,
                    BinExprKind::Mul => "cannot multiply `"@ + r + "` by `"@ + l + "`"@,
                    BinExprKind::Div => "cannot divide `"@ + r + "` by `"@ + l + "`"@,
                    BinExprKind::Mod => "cannot calculate the remainder of `"@ + r + "` divided by `"@ + l + "`"@,
                    _ => "`"@ + op.spec_symbol() + "` cannot be applied to `"@ + r + "` and `"@ + l + "`"@,
                }
            },
        }
    }

    /// What the error says.
    pub fn message(&self) -> (r: String)
        ensures
            r@ == self.spec_message(),
    {
        match self {
            TypeError::UnaryOp { op, expr, .. } => {
                match op {
                    UnaryExprKind::Minus => {
                        let mut m = expr.to_debug();
                        m.append(" is not a number");
                        m
                    },
                    UnaryExprKind::Not => {
                        let mut m = String::from_str("cannot apply unary operator `");
                        m.append(op.symbol());
                        m.append("` to type `");
                        m.append(expr.get_type().name());
                        m.append("`");
                        m
                    },
                }
            },
            TypeError::BinOp { op, lhs, rhs, .. } => {
                let l = lhs.get_type().name();
                let r = rhs.get_type().name();
                match op {
                    BinExprKind::Add => sentence("cannot add `", r, "` to `", l, "`"),
                    BinExprKind::Sub => sentence("cannot subtract `", r, "` from `", l, "`"),
                    BinExprKind::Mul => sentence("cannot multiply `", r, "` by `", l, "`"),
                    BinExprKind::Div => sentence("cannot divide `", r, "` by `", l, "`"),
                    BinExprKind::Mod => sentence(
                        "cannot calculate the remainder of `",
                        r,
                        "` divided by `",
                        l,
                        "`",
                    ),
                    _ => {
                        let mut m = String::from_str("`");
                        m.append(op.symbol());
                        m.append("` cannot be applied to `");
                        m.append(r);
                        m.append("` and `");
                        m.append(l);
                        m.append("`");
                        m
                    },
                }
            },
        }
    }

    /// The operands the error is about, each with its value and type.
    pub open spec fn spec_labels(&self) -> Seq<(Span, Seq<char>)> {
        match self {
            TypeError::UnaryOp { expr, expr_span, .. } => seq![(*expr_span, value_note(expr))],
            TypeError::BinOp { lhs, lhs_span, rhs, rhs_span, .. } => seq![
                (*lhs_span, value_note(lhs)),
                (*rhs_span, value_note(rhs)),
            ],
        }
    }

    /// The operands the error is about.
    pub fn labels(&self) -> (r: Vec<(Span, String)>)
        ensures
            labels_view(r@) == self.spec_labels(),
    {
        let mut out: Vec<(Span, String)> = Vec::new();
        match self {
            TypeError::UnaryOp { expr, expr_span, .. } => {
                out.push(value_to_message(*expr_span, expr));
            },
            TypeError::BinOp { lhs, lhs_span, rhs, rhs_span, .. } => {
                out.push(value_to_message(*lhs_span, lhs));
                out.push(value_to_message(*rhs_span, rhs));
            },
        }
        out
    }
}

impl ReferenceError {
    /// What the error says.
    pub open spec fn spec_message(&self) -> Seq<char> {
        "UndefinedIdentifier"@
    }

    /// What the error says.
    pub fn message(&self) -> (r: String)
        ensures
            r@ == self.spec_message(),
    {
        String::from_str("UndefinedIdentifier")
    }

    /// The name that is not bound, where it was used.
    pub open spec fn spec_labels(&self) -> Seq<(Span, Seq<char>)> {
        match self {
            ReferenceError::UndefinedIdentifier { ident } => seq![
                (ident.span, "can't find `"@ + ident.symbol@ + "` in this scope"@),
            ],
        }
    }

    /// The name that is not bound, where it was used.
    pub fn labels(&self) -> (r: Vec<(Span, String)>)
        ensures
            labels_view(r@) == self.spec_labels(),
    {
        let mut out: Vec<(Span, String)> = Vec::new();
        match self {
            ReferenceError::UndefinedIdentifier { ident } => {
                let mut m = String::from_str("can't find `");
                m.append(ident.symbol.as_str());
                m.append("` in this scope");
                out.push((ident.span, m));
            },
        }
        out
    }
}

impl RuntimeError {
    /// What the error says.
    pub open spec fn spec_message(&self) -> Seq<char> {
        match self {
            RuntimeError::ReferenceError(_) => "Reference Error"@,
            RuntimeError::AssignmentToImmutableVariable => "Assignment to immutable variable"@,
            RuntimeError::AlreadyDeclared => "Already declared"@,
            RuntimeError::TypeError(_) => "Type Error"@,
            RuntimeError::DivisionByZero { .. } => "Division by zero"@,
            RuntimeError::IntegerOverflow { .. } => "Integer overflow"@,
            RuntimeError::NotCallable { .. } => "Not callable"@,
            RuntimeError::NotIndexable { .. } => "Not indexable"@,
            RuntimeError::InvalidIndex { .. } => "Invalid index"@,
            RuntimeError::NotARecord { .. } => "Not a record"@,
            RuntimeError::NotABoolean { .. } => "Not a boolean"@,
            RuntimeError::NotIterable { .. } => "Not iterable"@,
            RuntimeError::Unsupported { .. } => "Unsupported"@,
            RuntimeError::CallDepthExceeded { .. } => "Call depth exceeded"@,
            RuntimeError::UnknownFrame { .. } => "Unknown frame"@,
        }
    }

    /// What the error says.
    pub fn message(&self) -> (r: String)
        ensures
            r@ == self.spec_message(),
    {
        match self {
            RuntimeError::ReferenceError(_) => String::from_str("Reference Error"),
            RuntimeError::AssignmentToImmutableVariable => String::from_str("Assignment to immutable variable"),
            RuntimeError::AlreadyDeclared => String::from_str("Already declared"),
            RuntimeError::TypeError(_) => String::from_str("Type Error"),
            RuntimeError::DivisionByZero { .. } => String::from_str("Division by zero"),
            RuntimeError::IntegerOverflow { .. } => String::from_str("Integer overflow"),
            RuntimeError::NotCallable { .. } => String::from_str("Not callable"),
            RuntimeError::NotIndexable { .. } => String::from_str("Not indexable"),
            RuntimeError::InvalidIndex { .. } => String::from_str("Invalid index"),
            RuntimeError::NotARecord { .. } => String::from_str("Not a record"),
            RuntimeError::NotABoolean { .. } => String::from_str("Not a boolean"),
            RuntimeError::NotIterable { .. } => String::from_str("Not iterable"),
            RuntimeError::Unsupported { .. } => String::from_str("Unsupported"),
            RuntimeError::CallDepthExceeded { .. } => String::from_str("Call depth exceeded"),
            RuntimeError::UnknownFrame { .. } => String::from_str("Unknown frame"),
        }
    }

    /// The places the error is about. An error that carries a value shows
    /// the value and its type where it came from; an error that carries
    /// only a span repeats its message there; an error about a binding has
    /// no place.
    pub open spec fn spec_labels(&self) -> Seq<(Span, Seq<char>)> {
        match self {
            RuntimeError::ReferenceError(e) => e.spec_labels(),
            RuntimeError::AssignmentToImmutableVariable => Seq::empty(),
            RuntimeError::AlreadyDeclared => Seq::empty(),
            RuntimeError::TypeError(e) => e.spec_labels(),
            RuntimeError::DivisionByZero { span } => seq![(*span, self.spec_message())],
            RuntimeError::IntegerOverflow { span } => seq![(*span, self.spec_message())],
            RuntimeError::NotCallable { value, span } => seq![(*span, value_note(value))],
            RuntimeError::NotIndexable { value, span } => seq![(*span, value_note(value))],
            RuntimeError::InvalidIndex { value, span } => seq![(*span, value_note(value))],
            RuntimeError::NotARecord { value, span } => seq![(*span, value_note(value))],
            RuntimeError::NotABoolean { value, span } => seq![(*span, value_note(value))],
            RuntimeError::NotIterable { value, span } => seq![(*span, value_note(value))],
            RuntimeError::Unsupported { span } => seq![(*span, self.spec_message())],
            RuntimeError::CallDepthExceeded { span } => seq![(*span, self.spec_message())],
            RuntimeError::UnknownFrame { span } => seq![(*span, self.spec_message())],
        }
    }

    /// The places the error is about.
    pub fn labels(&self) -> (r: Vec<(Span, String)>)
        ensures
            labels_view(r@) == self.spec_labels(),
    {
        let mut out: Vec<(Span, String)> = Vec::new();
        match self {
            RuntimeError::ReferenceError(e) => {
                return e.labels();
            },
            RuntimeError::AssignmentToImmutableVariable => {},
            RuntimeError::AlreadyDeclared => {},
            RuntimeError::TypeError(e) => {
                return e.labels();
            },
            RuntimeError::DivisionByZero { span } => {
                out.push((*span, self.message()));
            },
            RuntimeError::IntegerOverflow { span } => {
                out.push((*span, self.message()));
            },
            RuntimeError::NotCallable { value, span } => {
                out.push(value_to_message(*span, value));
            },
            RuntimeError::NotIndexable { value, span } => {
                out.push(value_to_message(*span, value));
            },
            RuntimeError::InvalidIndex { value, span } => {
                out.push(value_to_message(*span, value));
            },
            RuntimeError::NotARecord { value, span } => {
                out.push(value_to_message(*span, value));
            },
            RuntimeError::NotABoolean { value, span } => {
                out.push(value_to_message(*span, value));
            },
            RuntimeError::NotIterable { value, span } => {
                out.push(value_to_message(*span, value));
            },
            RuntimeError::Unsupported { span } => {
                out.push((*span, self.message()));
            },
            RuntimeError::CallDepthExceeded { span } => {
                out.push((*span, self.message()));
            },
            RuntimeError::UnknownFrame { span } => {
                out.push((*span, self.message()));
            },
        }
        out
    }
}

impl InterpreterError {
    /// What the error says.
    pub open spec fn spec_message(&self) -> Seq<char> {
        "InterpreterError"@
    }

    /// What the error says.
    pub fn message(&self) -> (r: String)
        ensures
            r@ == self.spec_message(),
    {
        String::from_str("InterpreterError")
    }

    /// The places the error is about: those of the error inside.
    pub open spec fn spec_labels(&self) -> Seq<(Span, Seq<char>)> {
        match self {
            InterpreterError::ParseError(e) => e.spec_labels(),
            InterpreterError::RuntimeError(e) => e.spec_labels(),
        }
    }

    /// The places the error is about.
    pub fn labels(&self) -> (r: Vec<(Span, String)>)
        ensures
            labels_view(r@) == self.spec_labels(),
    {
        match self {
            InterpreterError::ParseError(e) => e.labels(),
            InterpreterError::RuntimeError(e) => e.labels(),
        }
    }
}

} // verus!
