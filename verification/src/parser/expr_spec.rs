//! What building an expression from its tree gives.
use vstd::prelude::*;

use crate::ast::{BinOp, Expr, UnOp};
use crate::parser::error::{err_at, ErrorKindV, OperatorClass, ParseContext, ParseError, ParseErrorV};
use crate::parser::text::{float_literal_spec, int_literal_value, replace_pair_spec, trim_spec, without_underscores};
use crate::parser::tree::{Node, Rule};
use crate::parser::view::{expr_v, ArgV, ExprV, TypeV};
use crate::parser::{char_literal_value, ident_ok, namespaced, ParserStateV};

verus! {

/// A built expression or its error, seen through the views.
pub open spec fn expr_result_v(r: Result<Expr, ParseError>) -> Result<ExprV, ParseErrorV> {
    match r {
        Ok(e) => Ok(expr_v(e)),
        Err(e) => Err(e@),
    }
}

/// A built expression, its error, or `None` where the builder would stop,
/// seen through the views.
pub open spec fn expr_outcome(r: Option<Result<Expr, ParseError>>) -> Option<Result<ExprV, ParseErrorV>> {
    match r {
        Some(r) => Some(expr_result_v(r)),
        None => None,
    }
}

/// The binary operator that `text` names at a precedence level.
pub open spec fn binop_of(class: OperatorClass, text: Seq<char>) -> Option<BinOp> {
    match class {
        OperatorClass::Logical => if text == seq!['&', '&'] {
            Some(BinOp::And)
        } else if text == seq!['|', '|'] {
            Some(BinOp::Or)
        } else {
            None
        },
        OperatorClass::Bitwise => if text == seq!['&'] {
            Some(BinOp::BitAnd)
        } else if text == seq!['|'] {
            Some(BinOp::BitOr)
        } else if text == seq!['^'] {
            Some(BinOp::BitXOR)
        } else if text == seq!['<', '<'] {
            Some(BinOp::BitSHL)
        } else if text == seq!['>', '>'] {
            Some(BinOp::BitSHR)
        } else {
            None
        },
        OperatorClass::Comparison => if text == seq!['=', '='] {
            Some(BinOp::Eq)
        } else if text == seq!['!', '='] {
            Some(BinOp::Neq)
        } else if text == seq!['>'] {
            Some(BinOp::Gt)
        } else if text == seq!['<'] {
            Some(BinOp::Lt)
        } else if text == seq!['>', '='] {
            Some(BinOp::Gte)
        } else if text == seq!['<', '='] {
            Some(BinOp::Lte)
        } else {
            None
        },
        OperatorClass::Arithmetic => if text == seq!['+'] {
            Some(BinOp::Add)
        } else if text == seq!['-'] {
            Some(BinOp::Sub)
        } else {
            None
        },
        OperatorClass::Term => if text == seq!['*'] {
            Some(BinOp::Mul)
        } else if text == seq!['/'] {
            Some(BinOp::Div)
        } else if text == seq!['%'] {
            Some(BinOp::Mod)
        } else if text == seq!['/', '/'] {
            Some(BinOp::DivFloor)
        } else {
            None
        },
    }
}

/// The unary operator that `text` names.
pub open spec fn unop_of(text: Seq<char>) -> Option<UnOp> {
    if text == seq!['&'] {
        Some(UnOp::Ref)
    } else if text == seq!['*'] {
        Some(UnOp::Deref)
    } else if text == seq!['!'] {
        Some(UnOp::Not)
    } else if text == seq!['-'] {
        Some(UnOp::Neg)
    } else if text == seq!['~'] {
        Some(UnOp::BitNot)
    } else {
        None
    }
}

/// The text of a string literal between its quotes with the escapes
/// `\n`, `\t`, `\r`, `\"`, `\\` replaced, one after the other.
pub open spec fn unescape(s: Seq<char>) -> Seq<char> {
    replace_pair_spec(
        replace_pair_spec(
            replace_pair_spec(
                replace_pair_spec(replace_pair_spec(s, '\\', 'n', '\n'), '\\', 't', '\t'),
                '\\',
                'r',
                '\r',
            ),
            '\\',
            '"',
            '"',
        ),
        '\\',
        '\\',
        '\\',
    )
}

/// The type suffix of a numeric literal: its name without underscores.
pub open spec fn literal_suffix(n: Node) -> Option<TypeV> {
    if n.children@.len() >= 2 {
        Some(TypeV::Named(without_underscores(n.children@[1].text@), n.children@[1].span))
    } else {
        None
    }
}

/// An integer literal: its digits read as an `i64`, and its suffix.
pub open spec fn integer_spec(n: Node) -> Option<Result<ExprV, ParseErrorV>> {
    if n.children@.len() == 0 {
        None
    } else {
        let v = n.children@[0].text@;
        match int_literal_value(v, true, i64::MIN as int, i64::MAX as int) {
            Ok(x) => Some(Ok(ExprV::Integer(x as i64, literal_suffix(n), n.span))),
            Err(e) => Some(Err(err_at(n.span, ErrorKindV::InvalidInteger(v, e)))),
        }
    }
}

/// A fractional literal: the text of its digits, which must read as an
/// `f64`, and its suffix.
pub open spec fn fractional_spec(n: Node) -> Option<Result<ExprV, ParseErrorV>> {
    if n.children@.len() == 0 {
        None
    } else {
        let v = n.children@[0].text@;
        match float_literal_spec(v) {
            Ok(_) => Some(Ok(ExprV::Fractional(v, literal_suffix(n), n.span))),
            Err(e) => Some(Err(err_at(n.span, ErrorKindV::InvalidFloat(v, e)))),
        }
    }
}

/// A string literal: a quoted text, unescaped.
pub open spec fn string_spec(n: Node) -> Result<ExprV, ParseErrorV> {
    let raw = n.text@;
    if raw.len() < 2 || raw[0] != '"' || raw.last() != '"' {
        Err(err_at(n.span, ErrorKindV::InvalidStringLiteral))
    } else {
        Ok(ExprV::String(unescape(raw.subrange(1, raw.len() - 1)), n.span))
    }
}

/// The number of `unary_ops` children at the front, from position `i` on.
pub open spec fn leading_ops(ch: Seq<Node>, i: int) -> int
    decreases ch.len() - i,
{
    if 0 <= i < ch.len() && ch[i].rule == Rule::unary_ops {
        leading_ops(ch, i + 1)
    } else {
        i
    }
}

/// `e` under the unary operators at positions `k - j .. k` of `n`, the
/// last of them innermost.
pub open spec fn unary_chain(n: Node, e: ExprV, k: int, j: int) -> Result<ExprV, ParseErrorV>
    decreases j,
{
    if j <= 0 {
        Ok(e)
    } else {
        match unary_chain(n, e, k, j - 1) {
            Ok(inner) => {
                let t = n.children@[k - j];
                match unop_of(t.text@) {
                    Some(op) => Ok(ExprV::Unary { span: n.span, op, expr: Box::new(inner) }),
                    None => Err(err_at(t.span, ErrorKindV::UnknownUnaryOperator(t.text@))),
                }
            },
            Err(err) => Err(err),
        }
    }
}

/// The name that a call targets: the function's namespaced name where a
/// function of that source name has been built, else the name itself.
pub open spec fn call_target(st: ParserStateV, raw: Seq<char>) -> Seq<char> {
    if st.functions.contains(raw) {
        namespaced(st.namespace, raw)
    } else {
        raw
    }
}

/// An expression: the node wraps a node that wraps one of the precedence
/// levels, a unary expression or a primary one.
pub open spec fn expr_spec(st: ParserStateV, n: Node) -> Option<Result<ExprV, ParseErrorV>>
    decreases n, 0int,
{
    if n.children@.len() == 0 || n.children@[0].children@.len() == 0 {
        None
    } else {
        let inner = n.children@[0].children@[0];
        match inner.rule {
            Rule::logical => level_spec(st, inner, OperatorClass::Logical),
            Rule::comparison => level_spec(st, inner, OperatorClass::Comparison),
            Rule::arithmetic => level_spec(st, inner, OperatorClass::Arithmetic),
            Rule::term => level_spec(st, inner, OperatorClass::Term),
            Rule::unary => unary_spec(st, inner),
            Rule::primary => if inner.children@.len() == 0 {
                None
            } else {
                primary_spec(st, inner.children@[0])
            },
            Rule::bitwise => level_spec(st, inner, OperatorClass::Bitwise),
            r => Some(Err(err_at(n.span, ErrorKindV::UnexpectedRule(ParseContext::ExpressionCore, r)))),
        }
    }
}

/// A chain `a op b op c ...` at a precedence level, grouped to the left.
pub open spec fn level_spec(st: ParserStateV, n: Node, class: OperatorClass) -> Option<
    Result<ExprV, ParseErrorV>,
>
    decreases n, 2 * n.children@.len() + 2,
{
    level_fold(st, n, class, (n.children@.len() / 2) as int)
}

/// The chain after its first `j` operators.
pub open spec fn level_fold(st: ParserStateV, n: Node, class: OperatorClass, j: int) -> Option<
    Result<ExprV, ParseErrorV>,
>
    decreases n, j,
{
    if n.children@.len() == 0 {
        None
    } else if j <= 0 {
        operand_spec(st, n.children@[0], class)
    } else {
        match level_fold(st, n, class, j - 1) {
            Some(Ok(left)) => if 2 * j >= n.children@.len() {
                None
            } else {
                match operand_spec(st, n.children@[2 * j], class) {
                    Some(Ok(right)) => {
                        let op_token = n.children@[2 * j - 1];
                        match binop_of(class, op_token.text@) {
                            Some(op) => Some(
                                Ok(
                                    ExprV::Binary {
                                        span: n.span,
                                        left: Box::new(left),
                                        op,
                                        right: Box::new(right),
                                    },
                                ),
                            ),
                            None => Some(
                                Err(
                                    err_at(
                                        op_token.span,
                                        ErrorKindV::InvalidOperator(class, op_token.text@),
                                    ),
                                ),
                            ),
                        }
                    },
                    other => other,
                }
            },
            other => other,
        }
    }
}

/// An operand of a chain at a precedence level: a chain at the next level,
/// or a unary expression below the tightest level.
pub open spec fn operand_spec(st: ParserStateV, n: Node, class: OperatorClass) -> Option<
    Result<ExprV, ParseErrorV>,
>
    decreases n, 2 * n.children@.len() + 4,
{
    match class {
        OperatorClass::Logical => level_spec(st, n, OperatorClass::Bitwise),
        OperatorClass::Bitwise => level_spec(st, n, OperatorClass::Comparison),
        OperatorClass::Comparison => level_spec(st, n, OperatorClass::Arithmetic),
        OperatorClass::Arithmetic => level_spec(st, n, OperatorClass::Term),
        OperatorClass::Term => unary_spec(st, n),
    }
}

/// A primary expression under the unary operators in front of it.
pub open spec fn unary_spec(st: ParserStateV, n: Node) -> Option<Result<ExprV, ParseErrorV>>
    decreases n, 0int,
{
    let k = leading_ops(n.children@, 0);
    if 0 <= k < n.children@.len() {
        match primary_spec(st, n.children@[k]) {
            Some(Ok(e)) => Some(unary_chain(n, e, k, k)),
            other => other,
        }
    } else {
        None
    }
}

/// A primary expression, told apart by the rule of its first child.
pub open spec fn primary_spec(st: ParserStateV, n: Node) -> Option<Result<ExprV, ParseErrorV>>
    decreases n, 0int,
{
    if n.children@.len() == 0 {
        None
    } else {
        let first = n.children@[0];
        match first.rule {
            Rule::expr => expr_spec(st, first),
            Rule::integer => integer_spec(first),
            Rule::fractional => fractional_spec(first),
            Rule::boolean => Some(Ok(ExprV::Boolean(first.text@ == seq!['t', 'r', 'u', 'e'], n.span))),
            Rule::string => Some(string_spec(first)),
            Rule::char => Some(Ok(ExprV::Char(char_literal_value(first.text@), n.span))),
            Rule::var_ident => if ident_ok(first.text@) {
                Some(Ok(ExprV::Var(trim_spec(first.text@), n.span)))
            } else {
                None
            },
            Rule::call => call_spec(st, first),
            Rule::array => array_spec(st, first),
            Rule::struct_init => struct_init_spec(st, first),
            r => Some(Err(err_at(n.span, ErrorKindV::UnexpectedRule(ParseContext::PrimaryToken, r)))),
        }
    }
}

/// A call: its target and, where there is an argument list, its arguments.
pub open spec fn call_spec(st: ParserStateV, n: Node) -> Option<Result<ExprV, ParseErrorV>>
    decreases n, 0int,
{
    if n.children@.len() == 0 || !ident_ok(n.children@[0].text@) {
        None
    } else {
        let target = call_target(st, trim_spec(n.children@[0].text@));
        if n.children@.len() < 2 {
            Some(Ok(ExprV::Call { span: n.span, target, args: Seq::empty() }))
        } else {
            let list = n.children@[1];
            match args_fold(st, list, list.children@.len() as int) {
                Some(Ok(args)) => Some(Ok(ExprV::Call { span: n.span, target, args })),
                Some(Err(e)) => Some(Err(e)),
                None => None,
            }
        }
    }
}

/// The first `j` arguments of an argument list.
pub open spec fn args_fold(st: ParserStateV, list: Node, j: int) -> Option<Result<Seq<ArgV>, ParseErrorV>>
    decreases list, j,
{
    if j <= 0 {
        Some(Ok(Seq::empty()))
    } else if j > list.children@.len() {
        None
    } else {
        match args_fold(st, list, j - 1) {
            Some(Ok(args)) => match arg_spec(st, list.children@[j - 1]) {
                Some(Ok(a)) => Some(Ok(args.push(a))),
                Some(Err(e)) => Some(Err(e)),
                None => None,
            },
            other => other,
        }
    }
}

/// One argument: positional, or named with `name = value`.
pub open spec fn arg_spec(st: ParserStateV, a: Node) -> Option<Result<ArgV, ParseErrorV>>
    decreases a, 0int,
{
    if a.children@.len() == 0 {
        None
    } else {
        let token = a.children@[0];
        match token.rule {
            Rule::positional_arg => if token.children@.len() == 0 {
                None
            } else {
                match expr_spec(st, token.children@[0]) {
                    Some(Ok(e)) => Some(Ok(ArgV::Positional(e, token.span))),
                    Some(Err(e)) => Some(Err(e)),
                    None => None,
                }
            },
            Rule::named_arg => if token.children@.len() < 2 || !ident_ok(
                token.children@[0].text@,
            ) {
                None
            } else {
                match expr_spec(st, token.children@[1]) {
                    Some(Ok(e)) => Some(
                        Ok(ArgV::Named(trim_spec(token.children@[0].text@), e, token.span)),
                    ),
                    Some(Err(e)) => Some(Err(e)),
                    None => None,
                }
            },
            r => Some(Err(err_at(token.span, ErrorKindV::UnexpectedRule(ParseContext::ArgumentType, r)))),
        }
    }
}

/// An array literal: each child an element.
pub open spec fn array_spec(st: ParserStateV, n: Node) -> Option<Result<ExprV, ParseErrorV>>
    decreases n, 2 * n.children@.len() + 2,
{
    match exprs_fold(st, n, n.children@.len() as int) {
        Some(Ok(items)) => Some(Ok(ExprV::Array(items, n.span))),
        Some(Err(e)) => Some(Err(e)),
        None => None,
    }
}

/// The first `j` children of `n`, each an expression.
pub open spec fn exprs_fold(st: ParserStateV, n: Node, j: int) -> Option<Result<Seq<ExprV>, ParseErrorV>>
    decreases n, j,
{
    if j <= 0 {
        Some(Ok(Seq::empty()))
    } else if j > n.children@.len() {
        None
    } else {
        match exprs_fold(st, n, j - 1) {
            Some(Ok(items)) => match expr_spec(st, n.children@[j - 1]) {
                Some(Ok(e)) => Some(Ok(items.push(e))),
                Some(Err(e)) => Some(Err(e)),
                None => None,
            },
            other => other,
        }
    }
}

/// A struct literal: the struct's name and its fields `name: value`.
pub open spec fn struct_init_spec(st: ParserStateV, n: Node) -> Option<Result<ExprV, ParseErrorV>>
    decreases n, 0int,
{
    if n.children@.len() < 2 || !ident_ok(n.children@[0].text@) {
        None
    } else {
        let fields = n.children@[1];
        match init_fields_fold(st, fields, fields.children@.len() as int) {
            Some(Ok(fs)) => Some(
                Ok(
                    ExprV::StructInit {
                        span: n.span,
                        name: trim_spec(n.children@[0].text@),
                        fields: fs,
                    },
                ),
            ),
            Some(Err(e)) => Some(Err(e)),
            None => None,
        }
    }
}

/// The first `j` fields of a struct literal.
pub open spec fn init_fields_fold(st: ParserStateV, n: Node, j: int) -> Option<
    Result<Seq<(crate::ast::JunoSpan, Seq<char>, ExprV)>, ParseErrorV>,
>
    decreases n, j,
{
    if j <= 0 {
        Some(Ok(Seq::empty()))
    } else if j > n.children@.len() {
        None
    } else {
        match init_fields_fold(st, n, j - 1) {
            Some(Ok(fs)) => {
                let f = n.children@[j - 1];
                if f.children@.len() < 2 || !ident_ok(f.children@[0].text@) {
                    None
                } else {
                    match expr_spec(st, f.children@[1]) {
                        Some(Ok(v)) => Some(Ok(fs.push((f.span, trim_spec(f.children@[0].text@), v)))),
                        Some(Err(e)) => Some(Err(e)),
                        None => None,
                    }
                }
            },
            other => other,
        }
    }
}

/// Once a chain has failed, the later operators keep the failure.
pub proof fn lemma_level_fold_absorbs(st: ParserStateV, n: Node, class: OperatorClass, k: int, j: int)
    requires
        0 <= k <= j,
    ensures
        level_fold(st, n, class, k) is None ==> level_fold(st, n, class, j) is None,
        level_fold(st, n, class, k) matches Some(Err(e)) ==> level_fold(st, n, class, j)
            == level_fold(st, n, class, k),
    decreases j - k,
{
    if k < j {
        lemma_level_fold_absorbs(st, n, class, k, j - 1);
    }
}

/// Once a unary operator has failed, the outer ones keep the error.
pub proof fn lemma_unary_chain_absorbs(n: Node, e: ExprV, k: int, i: int, j: int)
    requires
        0 <= i <= j,
    ensures
        unary_chain(n, e, k, i) is Err ==> unary_chain(n, e, k, j) == unary_chain(n, e, k, i),
    decreases j - i,
{
    if i < j {
        lemma_unary_chain_absorbs(n, e, k, i, j - 1);
    }
}

/// Once an argument has failed, the later ones keep the failure.
pub proof fn lemma_args_fold_absorbs(st: ParserStateV, list: Node, k: int, j: int)
    requires
        0 <= k <= j <= list.children@.len(),
    ensures
        args_fold(st, list, k) is None ==> args_fold(st, list, j) is None,
        args_fold(st, list, k) matches Some(Err(e)) ==> args_fold(st, list, j) == args_fold(
            st,
            list,
            k,
        ),
    decreases j - k,
{
    if k < j {
        lemma_args_fold_absorbs(st, list, k, j - 1);
    }
}

/// Once an element has failed, the later ones keep the failure.
pub proof fn lemma_exprs_fold_absorbs(st: ParserStateV, n: Node, k: int, j: int)
    requires
        0 <= k <= j <= n.children@.len(),
    ensures
        exprs_fold(st, n, k) is None ==> exprs_fold(st, n, j) is None,
        exprs_fold(st, n, k) matches Some(Err(e)) ==> exprs_fold(st, n, j) == exprs_fold(st, n, k),
    decreases j - k,
{
    if k < j {
        lemma_exprs_fold_absorbs(st, n, k, j - 1);
    }
}

/// Once a field has failed, the later ones keep the failure.
pub proof fn lemma_init_fields_fold_absorbs(st: ParserStateV, n: Node, k: int, j: int)
    requires
        0 <= k <= j <= n.children@.len(),
    ensures
        init_fields_fold(st, n, k) is None ==> init_fields_fold(st, n, j) is None,
        init_fields_fold(st, n, k) matches Some(Err(e)) ==> init_fields_fold(st, n, j)
            == init_fields_fold(st, n, k),
    decreases j - k,
{
    if k < j {
        lemma_init_fields_fold_absorbs(st, n, k, j - 1);
    }
}

} // verus!
