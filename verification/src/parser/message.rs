//! The messages of the builder's errors.
use vstd::prelude::*;

use crate::parser::error::{ErrorKindV, OperatorClass, ParseContext, ParseError, ParseErrorKind};
use crate::parser::text::{FloatError, NumberError};
use crate::parser::tree::Rule;

verus! {

broadcast use vstd::string::group_string_axioms;

/// The name of a rule as the grammar writes it.
pub open spec fn rule_name_spec(r: Rule) -> Seq<char> {
    match r {
        Rule::program => "program"@,
        Rule::item => "item"@,
        Rule::EOI => "EOI"@,
        Rule::function => "function"@,
        Rule::import_stmt => "import_stmt"@,
        Rule::struct_def => "struct_def"@,
        Rule::declaration => "declaration"@,
        Rule::params => "params"@,
        Rule::type_ => "type_"@,
        Rule::type_prefix => "type_prefix"@,
        Rule::base_type => "base_type"@,
        Rule::generics => "generics"@,
        Rule::array_type => "array_type"@,
        Rule::var_ident => "var_ident"@,
        Rule::block => "block"@,
        Rule::let_stmt => "let_stmt"@,
        Rule::assign_stmt => "assign_stmt"@,
        Rule::expr_stmt => "expr_stmt"@,
        Rule::return_stmt => "return_stmt"@,
        Rule::break_stmt => "break_stmt"@,
        Rule::continue_stmt => "continue_stmt"@,
        Rule::if_stmt => "if_stmt"@,
        Rule::else_if => "else_if"@,
        Rule::else_block => "else_block"@,
        Rule::while_stmt => "while_stmt"@,
        Rule::for_stmt => "for_stmt"@,
        Rule::loop_stmt => "loop_stmt"@,
        Rule::expr => "expr"@,
        Rule::logical => "logical"@,
        Rule::bitwise => "bitwise"@,
        Rule::comparison => "comparison"@,
        Rule::arithmetic => "arithmetic"@,
        Rule::term => "term"@,
        Rule::unary => "unary"@,
        Rule::unary_ops => "unary_ops"@,
        Rule::primary => "primary"@,
        Rule::integer => "integer"@,
        Rule::fractional => "fractional"@,
        Rule::boolean => "boolean"@,
        Rule::string => "string"@,
        Rule::char => "char"@,
        Rule::call => "call"@,
        Rule::array => "array"@,
        Rule::struct_init => "struct_init"@,
        Rule::positional_arg => "positional_arg"@,
        Rule::named_arg => "named_arg"@,
        Rule::other => "other"@,
    }
}

/// The name of a rule as the grammar writes it.
pub fn rule_name(r: Rule) -> (res: &'static str)
    ensures
        res@ == rule_name_spec(r),
{
    match r {
        Rule::program => "program",
        Rule::item => "item",
        Rule::EOI => "EOI",
        Rule::function => "function",
        Rule::import_stmt => "import_stmt",
        Rule::struct_def => "struct_def",
        Rule::declaration => "declaration",
        Rule::params => "params",
        Rule::type_ => "type_",
        Rule::type_prefix => "type_prefix",
        Rule::base_type => "base_type",
        Rule::generics => "generics",
        Rule::array_type => "array_type",
        Rule::var_ident => "var_ident",
        Rule::block => "block",
        Rule::let_stmt => "let_stmt",
        Rule::assign_stmt => "assign_stmt",
        Rule::expr_stmt => "expr_stmt",
        Rule::return_stmt => "return_stmt",
        Rule::break_stmt => "break_stmt",
        Rule::continue_stmt => "continue_stmt",
        Rule::if_stmt => "if_stmt",
        Rule::else_if => "else_if",
        Rule::else_block => "else_block",
        Rule::while_stmt => "while_stmt",
        Rule::for_stmt => "for_stmt",
        Rule::loop_stmt => "loop_stmt",
        Rule::expr => "expr",
        Rule::logical => "logical",
        Rule::bitwise => "bitwise",
        Rule::comparison => "comparison",
        Rule::arithmetic => "arithmetic",
        Rule::term => "term",
        Rule::unary => "unary",
        Rule::unary_ops => "unary_ops",
        Rule::primary => "primary",
        Rule::integer => "integer",
        Rule::fractional => "fractional",
        Rule::boolean => "boolean",
        Rule::string => "string",
        Rule::char => "char",
        Rule::call => "call",
        Rule::array => "array",
        Rule::struct_init => "struct_init",
        Rule::positional_arg => "positional_arg",
        Rule::named_arg => "named_arg",
        Rule::other => "other",
    }
}

/// Why a number could not be read, in the words of `core::num::ParseIntError`.
pub open spec fn number_error_text(e: NumberError) -> Seq<char> {
    match e {
        NumberError::Empty => "cannot parse integer from empty string"@,
        NumberError::InvalidDigit => "invalid digit found in string"@,
        NumberError::PosOverflow => "number too large to fit in target type"@,
        NumberError::NegOverflow => "number too small to fit in target type"@,
    }
}

fn number_error_str(e: NumberError) -> (res: &'static str)
    ensures
        res@ == number_error_text(e),
{
    match e {
        NumberError::Empty => "cannot parse integer from empty string",
        NumberError::InvalidDigit => "invalid digit found in string",
        NumberError::PosOverflow => "number too large to fit in target type",
        NumberError::NegOverflow => "number too small to fit in target type",
    }
}

/// Why a float could not be read, in the words of `core::num::ParseFloatError`.
pub open spec fn float_error_text(e: FloatError) -> Seq<char> {
    match e {
        FloatError::Empty => "cannot parse float from empty string"@,
        FloatError::Invalid => "invalid float literal"@,
    }
}

fn float_error_str(e: FloatError) -> (res: &'static str)
    ensures
        res@ == float_error_text(e),
{
    match e {
        FloatError::Empty => "cannot parse float from empty string",
        FloatError::Invalid => "invalid float literal",
    }
}

/// What comes before the rule's name in an unexpected-rule message.
pub open spec fn context_text(c: ParseContext) -> Seq<char> {
    match c {
        ParseContext::TypeComponent => "unexpected type component: "@,
        ParseContext::BaseType => "unexpected base type: "@,
        ParseContext::Program => "unexpected rule in program: "@,
        ParseContext::Item => "unexpected item rule: "@,
        ParseContext::Statement => "unexpected statement rule: "@,
        ParseContext::ExpressionCore => "unexpected expression core: "@,
        ParseContext::PrimaryToken => "unexpected primary token: "@,
        ParseContext::ArgumentType => "unexpected argument type: "@,
    }
}

fn context_str(c: ParseContext) -> (res: &'static str)
    ensures
        res@ == context_text(c),
{
    match c {
        ParseContext::TypeComponent => "unexpected type component: ",
        ParseContext::BaseType => "unexpected base type: ",
        ParseContext::Program => "unexpected rule in program: ",
        ParseContext::Item => "unexpected item rule: ",
        ParseContext::Statement => "unexpected statement rule: ",
        ParseContext::ExpressionCore => "unexpected expression core: ",
        ParseContext::PrimaryToken => "unexpected primary token: ",
        ParseContext::ArgumentType => "unexpected argument type: ",
    }
}

/// What comes before the operator in an invalid-operator message.
pub open spec fn class_text(c: OperatorClass) -> Seq<char> {
    match c {
        OperatorClass::Logical => "invalid logical operator: "@,
        OperatorClass::Bitwise => "invalid bitwise operator: "@,
        OperatorClass::Comparison => "invalid comparison operator: "@,
        OperatorClass::Arithmetic => "invalid arithmetic operator: "@,
        OperatorClass::Term => "invalid term operator: "@,
    }
}

fn class_str(c: OperatorClass) -> (res: &'static str)
    ensures
        res@ == class_text(c),
{
    match c {
        OperatorClass::Logical => "invalid logical operator: ",
        OperatorClass::Bitwise => "invalid bitwise operator: ",
        OperatorClass::Comparison => "invalid comparison operator: ",
        OperatorClass::Arithmetic => "invalid arithmetic operator: ",
        OperatorClass::Term => "invalid term operator: ",
    }
}

/// The message shown with an error.
pub open spec fn error_message(k: ErrorKindV) -> Seq<char> {
    match k {
        ErrorKindV::UnexpectedRule(c, r) => context_text(c) + rule_name_spec(r),
        ErrorKindV::DuplicateBaseType => "duplicate base type"@,
        ErrorKindV::TypeMissingBase => "type missing base"@,
        ErrorKindV::InvalidTypePrefix(s) => "invalid type prefix: "@ + s,
        ErrorKindV::InvalidArraySize(s, e) => "invalid array size '"@ + s + "': "@ + number_error_text(e),
        ErrorKindV::FunctionMissingBody => "function missing body"@,
        ErrorKindV::DeclarationMissingReturnType => "declaration missing return type"@,
        ErrorKindV::InvalidInteger(s, e) => "invalid integer '"@ + s + "': "@ + number_error_text(e),
        ErrorKindV::InvalidFloat(s, e) => "invalid float '"@ + s + "': "@ + float_error_text(e),
        ErrorKindV::InvalidStringLiteral => "invalid string literal: expected quoted string"@,
        ErrorKindV::InvalidOperator(c, s) => class_text(c) + s,
        ErrorKindV::UnknownUnaryOperator(s) => "unknown unary operator: "@ + s,
    }
}

impl ParseError {
    /// The message shown with the error.
    pub fn message(&self) -> (res: String)
        ensures
            res@ == error_message(self.kind@),
    {
        let mut m = String::new();
        match &self.kind {
            ParseErrorKind::UnexpectedRule(c, r) => {
                m.append(context_str(*c));
                m.append(rule_name(*r));
            },
            ParseErrorKind::DuplicateBaseType => m.append("duplicate base type"),
            ParseErrorKind::TypeMissingBase => m.append("type missing base"),
            ParseErrorKind::InvalidTypePrefix(s) => {
                m.append("invalid type prefix: ");
                m.append(s.as_str());
            },
            ParseErrorKind::InvalidArraySize(s, e) => {
                m.append("invalid array size '");
                m.append(s.as_str());
                m.append("': ");
                m.append(number_error_str(*e));
            },
            ParseErrorKind::FunctionMissingBody => m.append("function missing body"),
            ParseErrorKind::DeclarationMissingReturnType => m.append("declaration missing return type"),
            ParseErrorKind::InvalidInteger(s, e) => {
                m.append("invalid integer '");
                m.append(s.as_str());
                m.append("': ");
                m.append(number_error_str(*e));
            },
            ParseErrorKind::InvalidFloat(s, e) => {
                m.append("invalid float '");
                m.append(s.as_str());
                m.append("': ");
                m.append(float_error_str(*e));
            },
            ParseErrorKind::InvalidStringLiteral => m.append("invalid string literal: expected quoted string"),
            ParseErrorKind::InvalidOperator(c, s) => {
                m.append(class_str(*c));
                m.append(s.as_str());
            },
            ParseErrorKind::UnknownUnaryOperator(s) => {
                m.append("unknown unary operator: ");
                m.append(s.as_str());
            },
        }
        m
    }
}

} // verus!
