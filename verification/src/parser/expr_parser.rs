//! Building expressions.
use vstd::prelude::*;

use crate::ast::{Arg, BinOp, BinaryExpr, Call, Expr, StructInit, StructInitField, Type, UnOp, UnaryExpr};
use crate::parser::error::{err_at, ErrorKindV, OperatorClass, ParseContext, ParseError, ParseErrorKind, ParseErrorV};
use crate::parser::expr_spec::{
    args_fold, arg_spec, array_spec, binop_of, call_spec, expr_result_v, expr_spec, exprs_fold,
    fractional_spec, init_fields_fold, integer_spec, leading_ops, lemma_args_fold_absorbs,
    lemma_exprs_fold_absorbs, lemma_init_fields_fold_absorbs, lemma_level_fold_absorbs,
    lemma_unary_chain_absorbs, level_fold, level_spec, literal_suffix, operand_spec, primary_spec,
    string_spec, struct_init_spec, unary_chain, unary_spec, unop_of, expr_outcome,
};
use crate::parser::text::{float_literal, parse_i64, remove_underscores, replace_pair, text_eq};
use crate::parser::tree::{Node, Rule};
use crate::parser::view::{arg_v, args_v, expr_v, exprs_v, init_field_v, init_fields_v, ArgV, ExprV, type_v};
use crate::parser::ParserState;

verus! {

broadcast use vstd::string::group_string_axioms;

/// A built argument, its error, or `None`, seen through the views.
pub open spec fn arg_outcome(r: Option<Result<Arg, ParseError>>) -> Option<Result<ArgV, ParseErrorV>> {
    match r {
        Some(Ok(a)) => Some(Ok(arg_v(a))),
        Some(Err(e)) => Some(Err(e@)),
        None => None,
    }
}

impl ParserState {
    /// Builds an expression from the node that wraps its precedence level.
    pub fn parse_expr(&self, n: &Node) -> (res: Result<Expr, ParseError>)
        requires
            expr_spec(self@, *n) is Some,
        ensures
            expr_spec(self@, *n) == Some(expr_result_v(res)),
    {
        self.try_parse_expr(n).unwrap()
    }

    /// Builds an expression, or gives `None` where the tree lacks a node
    /// that the builder takes for granted or a name holds white space.
    pub fn try_parse_expr(&self, n: &Node) -> (res: Option<Result<Expr, ParseError>>)
        ensures
            expr_spec(self@, *n) == expr_outcome(res),
        decreases n, 0int,
    {
        if n.children.len() == 0 || n.children[0].children.len() == 0 {
            return None;
        }
        let inner = &n.children[0].children[0];
        match inner.rule {
            Rule::logical => self.parse_logical(inner),
            Rule::comparison => self.parse_comparison(inner),
            Rule::arithmetic => self.parse_arithmetic(inner),
            Rule::term => self.parse_term(inner),
            Rule::unary => self.parse_unary(inner),
            Rule::primary => {
                if inner.children.len() == 0 {
                    return None;
                }
                self.parse_primary(&inner.children[0])
            },
            Rule::bitwise => self.parse_bitwise(inner),
            r => Some(
                Err(
                    ParseError {
                        span: n.span,
                        kind: ParseErrorKind::UnexpectedRule(ParseContext::ExpressionCore, r),
                    },
                ),
            ),
        }
    }

    /// A chain of `&&` and `||`.
    pub fn parse_logical(&self, n: &Node) -> (res: Option<Result<Expr, ParseError>>)
        ensures
            level_spec(self@, *n, OperatorClass::Logical) == expr_outcome(res),
        decreases n, 2 * n.children@.len() + 3,
    {
        self.parse_level(n, OperatorClass::Logical)
    }

    /// A chain of `&`, `|`, `^`, `<<` and `>>`.
    pub fn parse_bitwise(&self, n: &Node) -> (res: Option<Result<Expr, ParseError>>)
        ensures
            level_spec(self@, *n, OperatorClass::Bitwise) == expr_outcome(res),
        decreases n, 2 * n.children@.len() + 3,
    {
        self.parse_level(n, OperatorClass::Bitwise)
    }

    /// A chain of comparisons.
    pub fn parse_comparison(&self, n: &Node) -> (res: Option<Result<Expr, ParseError>>)
        ensures
            level_spec(self@, *n, OperatorClass::Comparison) == expr_outcome(res),
        decreases n, 2 * n.children@.len() + 3,
    {
        self.parse_level(n, OperatorClass::Comparison)
    }

    /// A chain of `+` and `-`.
    pub fn parse_arithmetic(&self, n: &Node) -> (res: Option<Result<Expr, ParseError>>)
        ensures
            level_spec(self@, *n, OperatorClass::Arithmetic) == expr_outcome(res),
        decreases n, 2 * n.children@.len() + 3,
    {
        self.parse_level(n, OperatorClass::Arithmetic)
    }

    /// A chain of `*`, `/`, `%` and `//`.
    pub fn parse_term(&self, n: &Node) -> (res: Option<Result<Expr, ParseError>>)
        ensures
            level_spec(self@, *n, OperatorClass::Term) == expr_outcome(res),
        decreases n, 2 * n.children@.len() + 3,
    {
        self.parse_level(n, OperatorClass::Term)
    }

    /// An operand of a chain at a precedence level.
    fn parse_operand(&self, n: &Node, class: OperatorClass) -> (res: Option<Result<Expr, ParseError>>)
        ensures
            operand_spec(self@, *n, class) == expr_outcome(res),
        decreases n, 2 * n.children@.len() + 4,
    {
        match class {
            OperatorClass::Logical => self.parse_bitwise(n),
            OperatorClass::Bitwise => self.parse_comparison(n),
            OperatorClass::Comparison => self.parse_arithmetic(n),
            OperatorClass::Arithmetic => self.parse_term(n),
            OperatorClass::Term => self.parse_unary(n),
        }
    }

    /// A chain `a op b op c ...` at a precedence level, grouped to the left.
    fn parse_level(&self, n: &Node, class: OperatorClass) -> (res: Option<Result<Expr, ParseError>>)
        ensures
            level_spec(self@, *n, class) == expr_outcome(res),
        decreases n, 2 * n.children@.len() + 2,
    {
        let len = n.children.len();
        if len == 0 {
            return None;
        }
        let half = len / 2;
        proof {
            lemma_level_fold_absorbs(self@, *n, class, 0, half as int);
        }
        let mut left = match self.parse_operand(&n.children[0], class) {
            Some(Ok(e)) => e,
            Some(Err(e)) => {
                return Some(Err(e));
            },
            None => {
                return None;
            },
        };
        let mut j: usize = 1;
        while j <= half
            invariant
                len == n.children@.len(),
                len > 0,
                half == len / 2,
                1 <= j <= half + 1,
                level_spec(self@, *n, class) == level_fold(self@, *n, class, half as int),
                level_fold(self@, *n, class, j - 1) == Some(Ok::<ExprV, ParseErrorV>(expr_v(left))),
            decreases half + 1 - j,
        {
            proof {
                lemma_level_fold_absorbs(self@, *n, class, j as int, half as int);
            }
            if 2 * j >= len {
                return None;
            }
            let right = match self.parse_operand(&n.children[2 * j], class) {
                Some(Ok(e)) => e,
                Some(Err(e)) => {
                    return Some(Err(e));
                },
                None => {
                    return None;
                },
            };
            let op_token = &n.children[2 * j - 1];
            match self.binary_op(class, op_token.text.as_str()) {
                Some(op) => {
                    let ghost lv = expr_v(left);
                    left = Expr::Binary(
                        BinaryExpr { span: n.span, left: Box::new(left), op, right: Box::new(right) },
                    );
                    assert(expr_v(left) == ExprV::Binary {
                        span: n.span,
                        left: Box::new(lv),
                        op,
                        right: Box::new(expr_v(right)),
                    });
                },
                None => {
                    return Some(
                        Err(
                            ParseError {
                                span: op_token.span,
                                kind: ParseErrorKind::InvalidOperator(class, op_token.text.clone()),
                            },
                        ),
                    );
                },
            }
            j = j + 1;
        }
        Some(Ok(left))
    }

    /// The binary operator that `text` names at a precedence level.
    pub fn binary_op(&self, class: OperatorClass, text: &str) -> (res: Option<BinOp>)
        ensures
            res == binop_of(class, text@),
    {
        let n = text.unicode_len();
        if n == 0 || n > 2 {
            return None;
        }
        let a = text.get_char(0);
        if n == 1 {
            assert(text@ =~= seq![a]);
            match class {
                OperatorClass::Logical => None,
                OperatorClass::Bitwise => if a == '&' {
                    Some(BinOp::BitAnd)
                } else if a == '|' {
                    Some(BinOp::BitOr)
                } else if a == '^' {
                    Some(BinOp::BitXOR)
                } else {
                    None
                },
                OperatorClass::Comparison => if a == '>' {
                    Some(BinOp::Gt)
                } else if a == '<' {
                    Some(BinOp::Lt)
                } else {
                    None
                },
                OperatorClass::Arithmetic => if a == '+' {
                    Some(BinOp::Add)
                } else if a == '-' {
                    Some(BinOp::Sub)
                } else {
                    None
                },
                OperatorClass::Term => if a == '*' {
                    Some(BinOp::Mul)
                } else if a == '/' {
                    Some(BinOp::Div)
                } else if a == '%' {
                    Some(BinOp::Mod)
                } else {
                    None
                },
            }
        } else {
            let b = text.get_char(1);
            assert(text@ =~= seq![a, b]);
            match class {
                OperatorClass::Logical => if a == '&' && b == '&' {
                    Some(BinOp::And)
                } else if a == '|' && b == '|' {
                    Some(BinOp::Or)
                } else {
                    None
                },
                OperatorClass::Bitwise => if a == '<' && b == '<' {
                    Some(BinOp::BitSHL)
                } else if a == '>' && b == '>' {
                    Some(BinOp::BitSHR)
                } else {
                    None
                },
                OperatorClass::Comparison => if a == '=' && b == '=' {
                    Some(BinOp::Eq)
                } else if a == '!' && b == '=' {
                    Some(BinOp::Neq)
                } else if a == '>' && b == '=' {
                    Some(BinOp::Gte)
                } else if a == '<' && b == '=' {
                    Some(BinOp::Lte)
                } else {
                    None
                },
                OperatorClass::Arithmetic => None,
                OperatorClass::Term => if a == '/' && b == '/' {
                    Some(BinOp::DivFloor)
                } else {
                    None
                },
            }
        }
    }

    /// A primary expression under the unary operators in front of it; the
    /// operator nearest the operand applies first.
    pub fn parse_unary(&self, n: &Node) -> (res: Option<Result<Expr, ParseError>>)
        ensures
            unary_spec(self@, *n) == expr_outcome(res),
        decreases n, 0int,
    {
        let len = n.children.len();
        let mut k: usize = 0;
        while k < len && n.children[k].rule == Rule::unary_ops
            invariant
                len == n.children@.len(),
                k <= len,
                leading_ops(n.children@, 0) == leading_ops(n.children@, k as int),
            decreases len - k,
        {
            k = k + 1;
        }
        if k >= len {
            return None;
        }
        let mut expr = match self.parse_primary(&n.children[k]) {
            Some(Ok(e)) => e,
            Some(Err(e)) => {
                return Some(Err(e));
            },
            None => {
                return None;
            },
        };
        let ghost e0 = expr_v(expr);
        let mut j: usize = 1;
        while j <= k
            invariant
                len == n.children@.len(),
                k < len,
                k == leading_ops(n.children@, 0),
                1 <= j <= k + 1,
                unary_spec(self@, *n) == Some(unary_chain(*n, e0, k as int, k as int)),
                unary_chain(*n, e0, k as int, j - 1) == Ok::<ExprV, ParseErrorV>(expr_v(expr)),
            decreases k + 1 - j,
        {
            proof {
                lemma_unary_chain_absorbs(*n, e0, k as int, j as int, k as int);
            }
            let t = &n.children[k - j];
            match self.parse_unary_op(t) {
                Ok(op) => {
                    let ghost ev = expr_v(expr);
                    expr = Expr::Unary(UnaryExpr { span: n.span, op, expr: Box::new(expr) });
                    assert(expr_v(expr) == ExprV::Unary { span: n.span, op, expr: Box::new(ev) });
                },
                Err(e) => {
                    return Some(Err(e));
                },
            }
            j = j + 1;
        }
        Some(Ok(expr))
    }

    /// The unary operator that a token names.
    pub fn parse_unary_op(&self, n: &Node) -> (res: Result<UnOp, ParseError>)
        ensures
            match unop_of(n.text@) {
                Some(op) => res == Ok::<UnOp, ParseError>(op),
                None => res matches Err(e) && e@ == err_at(
                    n.span,
                    ErrorKindV::UnknownUnaryOperator(n.text@),
                ),
            },
    {
        let text = n.text.as_str();
        let len = text.unicode_len();
        if len == 1 {
            let a = text.get_char(0);
            assert(text@ =~= seq![a]);
            if a == '&' {
                return Ok(UnOp::Ref);
            } else if a == '*' {
                return Ok(UnOp::Deref);
            } else if a == '!' {
                return Ok(UnOp::Not);
            } else if a == '-' {
                return Ok(UnOp::Neg);
            } else if a == '~' {
                return Ok(UnOp::BitNot);
            }
        }
        Err(ParseError { span: n.span, kind: ParseErrorKind::UnknownUnaryOperator(n.text.clone()) })
    }

    /// A primary expression, told apart by the rule of its first child.
    pub fn parse_primary(&self, n: &Node) -> (res: Option<Result<Expr, ParseError>>)
        ensures
            primary_spec(self@, *n) == expr_outcome(res),
        decreases n, 0int,
    {
        if n.children.len() == 0 {
            return None;
        }
        let first = &n.children[0];
        match first.rule {
            Rule::expr => self.try_parse_expr(first),
            Rule::integer => self.parse_integer(first),
            Rule::fractional => self.parse_fractional(first),
            Rule::boolean => {
                proof {
                    reveal_strlit("true");
                    assert("true"@ =~= seq!['t', 'r', 'u', 'e']);
                }
                Some(Ok(Expr::Boolean(text_eq(first.text.as_str(), "true"), n.span)))
            },
            Rule::string => Some(self.parse_string(first)),
            Rule::char => Some(Ok(Expr::Char(self.parse_char_literal(first.text.as_str()), n.span))),
            Rule::var_ident => {
                if !self.ident_usable(first.text.as_str()) {
                    return None;
                }
                Some(Ok(Expr::Var(self.clean_ident(first.text.as_str()), n.span)))
            },
            Rule::call => self.parse_call(first),
            Rule::array => self.parse_array(first),
            Rule::struct_init => self.parse_struct_init(first),
            r => Some(
                Err(
                    ParseError {
                        span: n.span,
                        kind: ParseErrorKind::UnexpectedRule(ParseContext::PrimaryToken, r),
                    },
                ),
            ),
        }
    }

    /// The type suffix of a numeric literal, where it has one.
    fn literal_suffix(&self, n: &Node) -> (res: Option<Type>)
        ensures
            match res {
                Some(t) => literal_suffix(*n) == Some(type_v(t)),
                None => literal_suffix(*n) is None,
            },
    {
        if n.children.len() >= 2 {
            let t = &n.children[1];
            Some(Type::Named(remove_underscores(t.text.as_str()), t.span))
        } else {
            None
        }
    }

    /// An integer literal, read as an `i64`.
    pub fn parse_integer(&self, n: &Node) -> (res: Option<Result<Expr, ParseError>>)
        ensures
            integer_spec(*n) == expr_outcome(res),
    {
        if n.children.len() == 0 {
            return None;
        }
        let value_token = &n.children[0];
        let ty = self.literal_suffix(n);
        match parse_i64(value_token.text.as_str()) {
            Ok(v) => {
                let e = Expr::Integer(v, ty, n.span);
                assert(expr_v(e) == ExprV::Integer(v, literal_suffix(*n), n.span));
                Some(Ok(e))
            },
            Err(e) => Some(
                Err(
                    ParseError {
                        span: n.span,
                        kind: ParseErrorKind::InvalidInteger(value_token.text.clone(), e),
                    },
                ),
            ),
        }
    }

    /// A fractional literal, kept as the text of its digits once they read
    /// as an `f64`.
    pub fn parse_fractional(&self, n: &Node) -> (res: Option<Result<Expr, ParseError>>)
        ensures
            fractional_spec(*n) == expr_outcome(res),
    {
        if n.children.len() == 0 {
            return None;
        }
        let value_token = &n.children[0];
        let ty = self.literal_suffix(n);
        match float_literal(value_token.text.as_str()) {
            Ok(()) => {},
            Err(e) => {
                return Some(
                    Err(
                        ParseError {
                            span: n.span,
                            kind: ParseErrorKind::InvalidFloat(value_token.text.clone(), e),
                        },
                    ),
                );
            },
        }
        let e = Expr::Fractional(value_token.text.clone(), ty, n.span);
        assert(expr_v(e) == ExprV::Fractional(value_token.text@, literal_suffix(*n), n.span));
        Some(Ok(e))
    }

    /// A string literal, unescaped.
    pub fn parse_string(&self, n: &Node) -> (res: Result<Expr, ParseError>)
        ensures
            string_spec(*n) == expr_result_v(res),
    {
        let raw = n.text.as_str();
        let len = raw.unicode_len();
        if len < 2 || raw.get_char(0) != '"' || raw.get_char(len - 1) != '"' {
            return Err(ParseError { span: n.span, kind: ParseErrorKind::InvalidStringLiteral });
        }
        let inner = raw.substring_char(1, len - 1);
        let s = replace_pair(inner, '\\', 'n', '\n');
        let s = replace_pair(s.as_str(), '\\', 't', '\t');
        let s = replace_pair(s.as_str(), '\\', 'r', '\r');
        let s = replace_pair(s.as_str(), '\\', '"', '"');
        let s = replace_pair(s.as_str(), '\\', '\\', '\\');
        Ok(Expr::String(s, n.span))
    }

    /// A call: its target, namespaced where it names a function built
    /// earlier, and its arguments.
    pub fn parse_call(&self, n: &Node) -> (res: Option<Result<Expr, ParseError>>)
        ensures
            call_spec(self@, *n) == expr_outcome(res),
        decreases n, 0int,
    {
        if n.children.len() == 0 || !self.ident_usable(n.children[0].text.as_str()) {
            return None;
        }
        let raw = self.clean_ident(n.children[0].text.as_str());
        let target = if self.knows_function(&raw) {
            self.with_namespace(raw.as_str())
        } else {
            raw
        };
        let mut args: Vec<Arg> = Vec::new();
        if n.children.len() >= 2 {
            let list = &n.children[1];
            let count = list.children.len();
            proof {
                assert(args_v(args@) =~= Seq::<ArgV>::empty());
            }
            assert(call_spec(self@, *n) == match args_fold(self@, *list, count as int) {
                Some(Ok(args)) => Some(Ok(ExprV::Call { span: n.span, target: target@, args })),
                Some(Err(e)) => Some(Err(e)),
                None => None,
            });
            for i in 0..count
                invariant
                    n.children@.len() >= 2,
                    count == list.children@.len(),
                    *list == n.children@[1],
                    call_spec(self@, *n) == match args_fold(self@, *list, count as int) {
                        Some(Ok(args)) => Some(Ok(ExprV::Call { span: n.span, target: target@, args })),
                        Some(Err(e)) => Some(Err(e)),
                        None => None,
                    },
                    args_fold(self@, *list, i as int) == Some(
                        Ok::<Seq<ArgV>, ParseErrorV>(args_v(args@)),
                    ),
            {
                proof {
                    lemma_args_fold_absorbs(self@, *list, i + 1, count as int);
                }
                match self.parse_arg(&list.children[i]) {
                    Some(Ok(a)) => {
                        let ghost before = args_v(args@);
                        args.push(a);
                        assert(args_v(args@) =~= before.push(arg_v(a)));
                    },
                    Some(Err(e)) => {
                        return Some(Err(e));
                    },
                    None => {
                        return None;
                    },
                }
            }
        }
        proof {
            if n.children@.len() < 2 {
                assert(args_v(args@) =~= Seq::<ArgV>::empty());
            }
        }
        let ghost av = args_v(args@);
        let e = Expr::Call(Call { span: n.span, target, args });
        assert(expr_v(e)->args =~= av);
        assert(expr_v(e) == ExprV::Call { span: n.span, target: target@, args: av });
        Some(Ok(e))
    }

    /// One argument of a call.
    fn parse_arg(&self, a: &Node) -> (res: Option<Result<Arg, ParseError>>)
        ensures
            arg_spec(self@, *a) == arg_outcome(res),
        decreases a, 0int,
    {
        if a.children.len() == 0 {
            return None;
        }
        let token = &a.children[0];
        match token.rule {
            Rule::positional_arg => {
                if token.children.len() == 0 {
                    return None;
                }
                match self.try_parse_expr(&token.children[0]) {
                    Some(Ok(e)) => Some(Ok(Arg::Positional(e, token.span))),
                    Some(Err(e)) => Some(Err(e)),
                    None => None,
                }
            },
            Rule::named_arg => {
                if token.children.len() < 2 || !self.ident_usable(token.children[0].text.as_str()) {
                    return None;
                }
                let name = self.clean_ident(token.children[0].text.as_str());
                match self.try_parse_expr(&token.children[1]) {
                    Some(Ok(e)) => Some(Ok(Arg::Named(name, e, token.span))),
                    Some(Err(e)) => Some(Err(e)),
                    None => None,
                }
            },
            r => Some(
                Err(
                    ParseError {
                        span: token.span,
                        kind: ParseErrorKind::UnexpectedRule(ParseContext::ArgumentType, r),
                    },
                ),
            ),
        }
    }

    /// An array literal.
    pub fn parse_array(&self, n: &Node) -> (res: Option<Result<Expr, ParseError>>)
        ensures
            array_spec(self@, *n) == expr_outcome(res),
        decreases n, 2 * n.children@.len() + 2,
    {
        let count = n.children.len();
        let mut items: Vec<Expr> = Vec::new();
        proof {
            assert(exprs_v(items@) =~= Seq::<ExprV>::empty());
        }
        for i in 0..count
            invariant
                count == n.children@.len(),
                array_spec(self@, *n) == match exprs_fold(self@, *n, count as int) {
                    Some(Ok(items)) => Some(Ok(ExprV::Array(items, n.span))),
                    Some(Err(e)) => Some(Err(e)),
                    None => None,
                },
                exprs_fold(self@, *n, i as int) == Some(Ok::<Seq<ExprV>, ParseErrorV>(exprs_v(items@))),
        {
            proof {
                lemma_exprs_fold_absorbs(self@, *n, i + 1, count as int);
            }
            match self.try_parse_expr(&n.children[i]) {
                Some(Ok(e)) => {
                    let ghost before = exprs_v(items@);
                    items.push(e);
                    assert(exprs_v(items@) =~= before.push(expr_v(e)));
                },
                Some(Err(e)) => {
                    return Some(Err(e));
                },
                None => {
                    return None;
                },
            }
        }
        let ghost iv = exprs_v(items@);
        let e = Expr::Array(items, n.span);
        assert(expr_v(e)->Array_0 =~= iv);
        assert(expr_v(e) == ExprV::Array(iv, n.span));
        Some(Ok(e))
    }

    /// A struct literal.
    pub fn parse_struct_init(&self, n: &Node) -> (res: Option<Result<Expr, ParseError>>)
        ensures
            struct_init_spec(self@, *n) == expr_outcome(res),
        decreases n, 0int,
    {
        if n.children.len() < 2 || !self.ident_usable(n.children[0].text.as_str()) {
            return None;
        }
        let name = self.clean_ident(n.children[0].text.as_str());
        let fields_token = &n.children[1];
        let count = fields_token.children.len();
        let mut fields: Vec<StructInitField> = Vec::new();
        proof {
            assert(init_fields_v(fields@) =~= Seq::<(crate::ast::JunoSpan, Seq<char>, ExprV)>::empty());
        }
        assert(struct_init_spec(self@, *n) == match init_fields_fold(self@, *fields_token, count as int) {
            Some(Ok(fs)) => Some(Ok(ExprV::StructInit { span: n.span, name: name@, fields: fs })),
            Some(Err(e)) => Some(Err(e)),
            None => None,
        });
        for i in 0..count
            invariant
                n.children@.len() >= 2,
                count == fields_token.children@.len(),
                *fields_token == n.children@[1],
                struct_init_spec(self@, *n) == match init_fields_fold(self@, *fields_token, count as int) {
                    Some(Ok(fs)) => Some(Ok(ExprV::StructInit { span: n.span, name: name@, fields: fs })),
                    Some(Err(e)) => Some(Err(e)),
                    None => None,
                },
                init_fields_fold(self@, *fields_token, i as int) == Some(
                    Ok::<Seq<(crate::ast::JunoSpan, Seq<char>, ExprV)>, ParseErrorV>(
                        init_fields_v(fields@),
                    ),
                ),
        {
            proof {
                lemma_init_fields_fold_absorbs(self@, *fields_token, i + 1, count as int);
            }
            let f = &fields_token.children[i];
            if f.children.len() < 2 || !self.ident_usable(f.children[0].text.as_str()) {
                return None;
            }
            let field_name = self.clean_ident(f.children[0].text.as_str());
            match self.try_parse_expr(&f.children[1]) {
                Some(Ok(value)) => {
                    let ghost before = init_fields_v(fields@);
                    let field = StructInitField { span: f.span, name: field_name, value };
                    fields.push(field);
                    assert(init_fields_v(fields@) =~= before.push(init_field_v(field)));
                },
                Some(Err(e)) => {
                    return Some(Err(e));
                },
                None => {
                    return None;
                },
            }
        }
        let ghost fv = init_fields_v(fields@);
        let e = Expr::StructInit(StructInit { span: n.span, name, fields });
        assert(expr_v(e)->fields =~= fv);
        assert(expr_v(e) == ExprV::StructInit { span: n.span, name: name@, fields: fv });
        Some(Ok(e))
    }
}

} // verus!
