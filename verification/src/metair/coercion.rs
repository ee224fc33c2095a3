//! Type coercion of expressions.
use vstd::prelude::*;

use crate::ast::JunoSpan;
use crate::metair::copy::{clone_expr, clone_type};
use crate::metair::generator::MetaIRGen;
use crate::metair::metair::{
    expr_view, exprs_view, ExprV, MetaConst, MetaExpr, MetaExprKind, MetaType, TypeV,
};
use crate::metair::semantics::{coerce_all_spec, coerce_binary_spec, coerce_spec};
use crate::metair::type_eq::types_equal;

verus! {

/// Why lowering refused a program.
#[derive(Debug)]
pub enum LowerError {
    /// The operands of a binary expression have different types and
    /// neither is an integer constant.
    TypeMismatch { span: JunoSpan, lhs: MetaType, rhs: MetaType },
}

/// A prefix of a list that coerces coerces too.
pub proof fn lemma_coerce_all_prefix(values: Seq<ExprV>, t: TypeV, i: int)
    requires
        coerce_all_spec(values, t) is Some,
        0 <= i <= values.len(),
    ensures
        coerce_all_spec(values.subrange(0, i), t) is Some,
    decreases values.len() - i,
{
    if i < values.len() {
        let next = values.subrange(0, i + 1);
        lemma_coerce_all_prefix(values, t, i + 1);
        assert(next.subrange(0, next.len() - 1) =~= values.subrange(0, i));
    } else {
        assert(values.subrange(0, i) =~= values);
    }
}

impl<'a> MetaIRGen<'a> {
    /// `expr` made to have the type `expected` (see `coerce_spec`), where it
    /// can be.
    pub(crate) fn coerce_expr(&self, expr: MetaExpr, expected: &MetaType) -> (res: MetaExpr)
        requires
            coerce_spec(expr@, expected@) is Some,
        ensures
            coerce_spec(expr@, expected@) == Some(res@),
    {
        self.try_coerce_expr(expr, expected).unwrap()
    }

    /// `expr` made to have the type `expected` (see `coerce_spec`), or
    /// `None` where it cannot be.
    pub(crate) fn try_coerce_expr(&self, expr: MetaExpr, expected: &MetaType) -> (res: Option<MetaExpr>)
        ensures
            match res {
                Some(e) => coerce_spec(expr@, expected@) == Some(e@),
                None => coerce_spec(expr@, expected@) is None,
            },
    {
        self.coerce_ref(&expr, expected)
    }

    fn coerce_ref(&self, expr: &MetaExpr, expected: &MetaType) -> (res: Option<MetaExpr>)
        ensures
            match res {
                Some(e) => coerce_spec(expr@, expected@) == Some(e@),
                None => coerce_spec(expr@, expected@) is None,
            },
        decreases expr,
    {
        if types_equal(&expr.ty, expected) {
            return Some(clone_expr(expr));
        }
        match (&expr.kind, &expr.ty, expected) {
            (
                MetaExprKind::Const(MetaConst::Int(v, s1), s2),
                MetaType::Named(_, _),
                MetaType::Named(_, _),
            ) => Some(
                MetaExpr {
                    span: expr.span,
                    kind: MetaExprKind::Const(MetaConst::Int(*v, *s1), *s2),
                    ty: clone_type(expected),
                },
            ),
            (
                MetaExprKind::Array(values, vs),
                MetaType::Array { .. },
                MetaType::Array { elem, size, .. },
            ) => {
                assert(exprs_view(values@) =~= expr@.kind->Array_0);
                if values.len() > *size as usize {
                    return None;
                }
                match self.coerce_all(values, elem) {
                    Some(values2) => {
                        let res = MetaExpr {
                            span: expr.span,
                            kind: MetaExprKind::Array(values2, *vs),
                            ty: clone_type(expected),
                        };
                        assert(exprs_view(values2@) =~= res@.kind->Array_0);
                        Some(res)
                    },
                    None => None,
                }
            },
            _ => None,
        }
    }

    fn coerce_all(&self, values: &Vec<MetaExpr>, elem: &MetaType) -> (res: Option<Vec<MetaExpr>>)
        ensures
            match res {
                Some(r) => coerce_all_spec(exprs_view(values@), elem@) == Some(exprs_view(r@)),
                None => coerce_all_spec(exprs_view(values@), elem@) is None,
            },
        decreases values,
    {
        let ghost vs = exprs_view(values@);
        let mut res: Vec<MetaExpr> = Vec::new();
        assert(vs.subrange(0, 0) =~= Seq::<ExprV>::empty());
        assert(exprs_view(res@) =~= Seq::<ExprV>::empty());
        for i in 0..values.len()
            invariant
                vs == exprs_view(values@),
                coerce_all_spec(vs.subrange(0, i as int), elem@) == Some(exprs_view(res@)),
        {
            proof {
                assert(vs.subrange(0, i + 1).subrange(0, i as int) =~= vs.subrange(0, i as int));
            }
            match self.coerce_ref(&values[i], elem) {
                Some(v) => {
                    let ghost before = exprs_view(res@);
                    res.push(v);
                    assert(exprs_view(res@) =~= before.push(expr_view(v)));
                },
                None => {
                    proof {
                        if coerce_all_spec(vs, elem@) is Some {
                            lemma_coerce_all_prefix(vs, elem@, i + 1);
                        }
                    }
                    return None;
                },
            }
        }
        assert(vs.subrange(0, values@.len() as int) =~= vs);
        Some(res)
    }

    /// The operands of a binary expression made to have one type, or the
    /// type-mismatch error where neither is an integer constant and their
    /// types differ; on operands where an integer constant can take the
    /// other's type.
    pub(crate) fn coerce_binary(&self, lhs: MetaExpr, rhs: MetaExpr) -> (res: Result<(MetaExpr, MetaExpr), LowerError>)
        requires
            coerce_binary_spec(lhs@, rhs@) is Some,
        ensures
            match res {
                Ok((l, r)) => coerce_binary_spec(lhs@, rhs@) == Some(Ok::<_, ()>((l@, r@))),
                Err(e) => {
                    &&& coerce_binary_spec(lhs@, rhs@) == Some(Err::<(ExprV, ExprV), ()>(()))
                    &&& e matches LowerError::TypeMismatch { span, lhs: lt, rhs: rt }
                    &&& span == lhs.span
                    &&& lt@ == lhs.ty@
                    &&& rt@ == rhs.ty@
                },
            },
    {
        self.try_coerce_binary(lhs, rhs).unwrap()
    }

    /// The operands of a binary expression made to have one type, an error
    /// where neither is an integer constant and their types differ, or
    /// `None` where an integer constant cannot take the other's type.
    pub(crate) fn try_coerce_binary(&self, lhs: MetaExpr, rhs: MetaExpr) -> (res: Option<Result<(MetaExpr, MetaExpr), LowerError>>)
        ensures
            match res {
                Some(Ok((l, r))) => coerce_binary_spec(lhs@, rhs@) == Some(Ok::<_, ()>((l@, r@))),
                Some(Err(e)) => {
                    &&& coerce_binary_spec(lhs@, rhs@) == Some(Err::<(ExprV, ExprV), ()>(()))
                    &&& e matches LowerError::TypeMismatch { span, lhs: lt, rhs: rt }
                    &&& span == lhs.span
                    &&& lt@ == lhs.ty@
                    &&& rt@ == rhs.ty@
                },
                None => coerce_binary_spec(lhs@, rhs@) is None,
            },
    {
        if types_equal(&lhs.ty, &rhs.ty) {
            return Some(Ok((lhs, rhs)));
        }
        if matches!(rhs.kind, MetaExprKind::Const(MetaConst::Int(..), _)) {
            return match self.try_coerce_expr(rhs, &lhs.ty) {
                Some(r) => Some(Ok((lhs, r))),
                None => None,
            };
        }
        if matches!(lhs.kind, MetaExprKind::Const(MetaConst::Int(..), _)) {
            return match self.try_coerce_expr(lhs, &rhs.ty) {
                Some(l) => Some(Ok((l, rhs))),
                None => None,
            };
        }
        Some(Err(LowerError::TypeMismatch { span: lhs.span, lhs: clone_type(&lhs.ty), rhs: clone_type(&rhs.ty) }))
    }
}

} // verus!
