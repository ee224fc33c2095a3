//! Errors of the AST builder.
use vstd::prelude::*;

use crate::ast::JunoSpan;
use crate::parser::text::{FloatError, NumberError};
use crate::parser::tree::Rule;

verus! {

/// Where a node of an unexpected rule was met.
#[derive(Clone, Copy, Debug, PartialEq, Eq, Structural)]
pub enum ParseContext {
    TypeComponent,
    BaseType,
    Program,
    Item,
    Statement,
    ExpressionCore,
    PrimaryToken,
    ArgumentType,
}

/// The precedence levels of binary operators, loosest first.
#[derive(Clone, Copy, Debug, PartialEq, Eq, Structural)]
pub enum OperatorClass {
    Logical,
    Bitwise,
    Comparison,
    Arithmetic,
    Term,
}

#[derive(Debug)]
pub enum ParseErrorKind {
    UnexpectedRule(ParseContext, Rule),
    DuplicateBaseType,
    TypeMissingBase,
    InvalidTypePrefix(String),
    InvalidArraySize(String, NumberError),
    FunctionMissingBody,
    DeclarationMissingReturnType,
    InvalidInteger(String, NumberError),
    InvalidFloat(String, FloatError),
    InvalidStringLiteral,
    InvalidOperator(OperatorClass, String),
    UnknownUnaryOperator(String),
}

/// An error, with the byte range of the source that it is about.
#[derive(Debug)]
pub struct ParseError {
    pub span: JunoSpan,
    pub kind: ParseErrorKind,
}

pub enum ErrorKindV {
    UnexpectedRule(ParseContext, Rule),
    DuplicateBaseType,
    TypeMissingBase,
    InvalidTypePrefix(Seq<char>),
    InvalidArraySize(Seq<char>, NumberError),
    FunctionMissingBody,
    DeclarationMissingReturnType,
    InvalidInteger(Seq<char>, NumberError),
    InvalidFloat(Seq<char>, FloatError),
    InvalidStringLiteral,
    InvalidOperator(OperatorClass, Seq<char>),
    UnknownUnaryOperator(Seq<char>),
}

pub struct ParseErrorV {
    pub span: JunoSpan,
    pub kind: ErrorKindV,
}

impl View for ParseErrorKind {
    type V = ErrorKindV;

    open spec fn view(&self) -> ErrorKindV {
        match self {
            ParseErrorKind::UnexpectedRule(c, r) => ErrorKindV::UnexpectedRule(*c, *r),
            ParseErrorKind::DuplicateBaseType => ErrorKindV::DuplicateBaseType,
            ParseErrorKind::TypeMissingBase => ErrorKindV::TypeMissingBase,
            ParseErrorKind::InvalidTypePrefix(s) => ErrorKindV::InvalidTypePrefix(s@),
            ParseErrorKind::InvalidArraySize(s, e) => ErrorKindV::InvalidArraySize(s@, *e),
            ParseErrorKind::FunctionMissingBody => ErrorKindV::FunctionMissingBody,
            ParseErrorKind::DeclarationMissingReturnType => ErrorKindV::DeclarationMissingReturnType,
            ParseErrorKind::InvalidInteger(s, e) => ErrorKindV::InvalidInteger(s@, *e),
            ParseErrorKind::InvalidFloat(s, e) => ErrorKindV::InvalidFloat(s@, *e),
            ParseErrorKind::InvalidStringLiteral => ErrorKindV::InvalidStringLiteral,
            ParseErrorKind::InvalidOperator(c, s) => ErrorKindV::InvalidOperator(*c, s@),
            ParseErrorKind::UnknownUnaryOperator(s) => ErrorKindV::UnknownUnaryOperator(s@),
        }
    }
}

impl View for ParseError {
    type V = ParseErrorV;

    open spec fn view(&self) -> ParseErrorV {
        ParseErrorV { span: self.span, kind: self.kind@ }
    }
}

/// An error of kind `kind` about `span`.
pub open spec fn err_at(span: JunoSpan, kind: ErrorKindV) -> ParseErrorV {
    ParseErrorV { span, kind }
}

} // verus!
