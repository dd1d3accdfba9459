//! The errors of evaluation.

use crate::ast::BinExprKind;
use crate::ast::Ident;
use crate::ast::UnaryExprKind;
use crate::ast_model::IdentView;
use crate::grammar::ParseErrorView;
use crate::parser::ParseError;
use crate::span::Span;
use crate::value::Value;
use crate::value::ValueView;
use vstd::prelude::*;

verus! {

/// A name was used that no scope in reach binds.
#[derive(Debug, PartialEq)]
pub enum ReferenceError {
    UndefinedIdentifier { ident: Ident },
}

/// An operator met an operand of a type it does not take.
#[derive(Debug, PartialEq)]
pub enum TypeError {
    UnaryOp { op: UnaryExprKind, expr: Value, expr_span: Span },
    BinOp { op: BinExprKind, lhs: Value, lhs_span: Span, rhs: Value, rhs_span: Span },
}

/// Why an evaluation stopped.
#[derive(Debug, PartialEq)]
pub enum RuntimeError {
    ReferenceError(ReferenceError),
    AssignmentToImmutableVariable,
    AlreadyDeclared,
    TypeError(TypeError),
    /// Division or remainder by zero.
    DivisionByZero { span: Span },
    /// The result of an arithmetic operation does not fit in an integer.
    IntegerOverflow { span: Span },
    /// A call of a value that is no function.
    NotCallable { value: Value, span: Span },
    /// An index into a value that is no array.
    NotIndexable { value: Value, span: Span },
    /// An index that is no integer, or is negative.
    InvalidIndex { value: Value, span: Span },
    /// A property of a value that is no record.
    NotARecord { value: Value, span: Span },
    /// A condition that is no boolean.
    NotABoolean { value: Value, span: Span },
    /// A loop over a value that is no array.
    NotIterable { value: Value, span: Span },
    /// A form that the evaluator does not carry out.
    Unsupported { span: Span },
    /// Calls are nested deeper than the evaluator allows.
    CallDepthExceeded { span: Span },
    /// A closure names a frame that the environment does not hold.
    UnknownFrame { span: Span },
}

/// The mathematical model of a runtime error.
pub enum RuntimeErrorView {
    UndefinedIdentifier(IdentView),
    AssignmentToImmutableVariable,
    AlreadyDeclared,
    UnaryOp(UnaryExprKind, ValueView, Span),
    BinOp(BinExprKind, ValueView, Span, ValueView, Span),
    DivisionByZero(Span),
    IntegerOverflow(Span),
    NotCallable(ValueView, Span),
    NotIndexable(ValueView, Span),
    InvalidIndex(ValueView, Span),
    NotARecord(ValueView, Span),
    NotABoolean(ValueView, Span),
    NotIterable(ValueView, Span),
    Unsupported(Span),
    CallDepthExceeded(Span),
    UnknownFrame(Span),
}

impl RuntimeError {
    pub open spec fn view(&self) -> RuntimeErrorView {
        match self {
            RuntimeError::ReferenceError(ReferenceError::UndefinedIdentifier { ident }) =>
                RuntimeErrorView::UndefinedIdentifier(ident.view()),
            RuntimeError::AssignmentToImmutableVariable => RuntimeErrorView::AssignmentToImmutableVariable,
            RuntimeError::AlreadyDeclared => RuntimeErrorView::AlreadyDeclared,
            RuntimeError::TypeError(TypeError::UnaryOp { op, expr, expr_span }) => RuntimeErrorView::UnaryOp(
                *op,
                expr.view(),
                *expr_span,
            ),
            RuntimeError::TypeError(TypeError::BinOp { op, lhs, lhs_span, rhs, rhs_span }) =>
                RuntimeErrorView::BinOp(*op, lhs.view(), *lhs_span, rhs.view(), *rhs_span),
            RuntimeError::DivisionByZero { span } => RuntimeErrorView::DivisionByZero(*span),
            RuntimeError::IntegerOverflow { span } => RuntimeErrorView::IntegerOverflow(*span),
            RuntimeError::NotCallable { value, span } => RuntimeErrorView::NotCallable(value.view(), *span),
            RuntimeError::NotIndexable { value, span } => RuntimeErrorView::NotIndexable(value.view(), *span),
            RuntimeError::InvalidIndex { value, span } => RuntimeErrorView::InvalidIndex(value.view(), *span),
            RuntimeError::NotARecord { value, span } => RuntimeErrorView::NotARecord(value.view(), *span),
            RuntimeError::NotABoolean { value, span } => RuntimeErrorView::NotABoolean(value.view(), *span),
            RuntimeError::NotIterable { value, span } => RuntimeErrorView::NotIterable(value.view(), *span),
            RuntimeError::Unsupported { span } => RuntimeErrorView::Unsupported(*span),
            RuntimeError::CallDepthExceeded { span } => RuntimeErrorView::CallDepthExceeded(*span),
            RuntimeError::UnknownFrame { span } => RuntimeErrorView::UnknownFrame(*span),
        }
    }
}

/// Why a run stopped: the text is no program, or its evaluation failed.
#[derive(Debug, PartialEq)]
pub enum InterpreterError {
    ParseError(ParseError),
    RuntimeError(RuntimeError),
}

/// The model of an interpreter error.
pub enum InterpreterErrorView {
    ParseError(ParseErrorView),
    RuntimeError(RuntimeErrorView),
}

impl InterpreterError {
    pub open spec fn view(&self) -> InterpreterErrorView {
        match self {
            InterpreterError::ParseError(e) => InterpreterErrorView::ParseError(e.view()),
            InterpreterError::RuntimeError(e) => InterpreterErrorView::RuntimeError(e.view()),
        }
    }
}

} // verus!
