//! What can go wrong in a compilation, as values the caller can inspect.
//! Each error carries the token or the name that it is about.

use vstd::prelude::*;
use crate::ast::{DangBinaryOperationType, DangBuiltIn};
use crate::lexer::{LexerToken, LexerTokenView};

verus! {

/// Why a token stream is no program.
#[derive(Debug, PartialEq, Eq)]
pub enum ParseError {
    /// The input ended where a token was required.
    UnexpectedEnd,
    /// This token cannot open or continue a top-level form.
    UnexpectedTopLevel(LexerToken),
    /// This token has no place inside a parameter list.
    UnexpectedInParameters(LexerToken),
    /// This operator found no value before it, or the parameter that this
    /// token ends has more than one value left over.
    MalformedOperands(LexerToken),
}

/// A parse error as contracts speak of it.
pub enum ParseErrorView {
    UnexpectedEnd,
    UnexpectedTopLevel(LexerTokenView),
    UnexpectedInParameters(LexerTokenView),
    MalformedOperands(LexerTokenView),
}

impl View for ParseError {
    type V = ParseErrorView;

    open spec fn view(&self) -> ParseErrorView {
        match self {
            ParseError::UnexpectedEnd => ParseErrorView::UnexpectedEnd,
            ParseError::UnexpectedTopLevel(token) => ParseErrorView::UnexpectedTopLevel(token@),
            ParseError::UnexpectedInParameters(token) => ParseErrorView::UnexpectedInParameters(
                token@,
            ),
            ParseError::MalformedOperands(token) => ParseErrorView::MalformedOperands(token@),
        }
    }
}

/// Why a syntax tree has no stack-machine program.
#[derive(Debug, PartialEq, Eq)]
pub enum LowerError {
    /// This name was referred to; there are no bindings.
    NameReference(String),
    /// A top-level statement other than a call: its value would be dropped.
    DroppedValue,
    /// A block, which is parsed but has no lowering at any position.
    BlockNotAllowed,
    /// An expression without symbols where a value is needed.
    EmptyExpression,
    /// A call of this name without `!`; there are no function definitions.
    NotBuiltIn(String),
    /// A built-in call of this name, which is not in the table.
    UnknownBuiltIn(String),
    /// This built-in called with this many arguments, which is not its
    /// arity.
    WrongArity(DangBuiltIn, usize),
    /// This built-in, which returns nothing, called where a value is
    /// needed.
    ResultUsed(DangBuiltIn),
    /// An operator for which no opcode exists.
    UnimplementedOperator(DangBinaryOperationType),
}

/// A lowering error as contracts speak of it.
pub enum LowerErrorView {
    NameReference(Seq<char>),
    DroppedValue,
    BlockNotAllowed,
    EmptyExpression,
    NotBuiltIn(Seq<char>),
    UnknownBuiltIn(Seq<char>),
    WrongArity(DangBuiltIn, usize),
    ResultUsed(DangBuiltIn),
    UnimplementedOperator(DangBinaryOperationType),
}

impl View for LowerError {
    type V = LowerErrorView;

    open spec fn view(&self) -> LowerErrorView {
        match self {
            LowerError::NameReference(name) => LowerErrorView::NameReference(name@),
            LowerError::DroppedValue => LowerErrorView::DroppedValue,
            LowerError::BlockNotAllowed => LowerErrorView::BlockNotAllowed,
            LowerError::EmptyExpression => LowerErrorView::EmptyExpression,
            LowerError::NotBuiltIn(name) => LowerErrorView::NotBuiltIn(name@),
            LowerError::UnknownBuiltIn(name) => LowerErrorView::UnknownBuiltIn(name@),
            LowerError::WrongArity(target, found) => LowerErrorView::WrongArity(*target, *found),
            LowerError::ResultUsed(target) => LowerErrorView::ResultUsed(*target),
            LowerError::UnimplementedOperator(kind) => LowerErrorView::UnimplementedOperator(
                *kind,
            ),
        }
    }
}

/// Why a source text was not compiled.
#[derive(Debug, PartialEq, Eq)]
pub enum CompileError {
    Parse(ParseError),
    Lower(LowerError),
}

/// A compile error as contracts speak of it.
pub enum CompileErrorView {
    Parse(ParseErrorView),
    Lower(LowerErrorView),
}

impl View for CompileError {
    type V = CompileErrorView;

    open spec fn view(&self) -> CompileErrorView {
        match self {
            CompileError::Parse(e) => CompileErrorView::Parse(e@),
            CompileError::Lower(e) => CompileErrorView::Lower(e@),
        }
    }
}

} // verus!
