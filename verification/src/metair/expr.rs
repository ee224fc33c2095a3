//! Lowering of expressions.
use vstd::prelude::*;

use crate::ast::{Arg, BinOp, Expr, JunoSpan, StructInitField, UnOp};
use crate::metair::copy::clone_type;
use crate::metair::generator::MetaIRGen;
use crate::metair::metair::{
    arg_view, expr_view, exprs_view, ArgV, ExprV, TypeV, MetaArg, MetaConst, MetaExpr, MetaExprKind,
    MetaType,
};
use crate::metair::prefix::{
    lemma_lower_args_prefix, lemma_lower_exprs_prefix, lemma_lower_init_fields_prefix,
};
use crate::metair::semantics::{
    call_type_spec, intern_string_spec, lower_arg_spec, lower_args_spec, lower_expr_spec, lower_exprs_spec,
    lower_init_fields_spec,
};

verus! {

broadcast use vstd::string::group_string_axioms;

/// The views of the arguments of a call.
pub open spec fn args_view(v: Seq<MetaArg>) -> Seq<ArgV> {
    Seq::new(v.len(), |i: int| arg_view(v[i]))
}

/// The views of the fields of a struct literal.
pub open spec fn init_fields_view(v: Seq<(u32, MetaExpr)>) -> Seq<(u32, ExprV)> {
    Seq::new(v.len(), |i: int| (v[i].0, expr_view(v[i].1)))
}

impl<'a> MetaIRGen<'a> {
    /// The type of a call of `target` (see `call_type_spec`), or `None`
    /// where no function, declaration or builtin has that name.
    fn call_type(&self, target: &String, span: JunoSpan) -> (res: Option<MetaType>)
        ensures
            match res {
                Some(t) => call_type_spec(self@, target@, span) == Some(t@),
                None => call_type_spec(self@, target@, span) is None,
            },
    {
        match self.find_function(target) {
            Some(f) => match &f.return_type {
                Some(t) => Some(self.lower_type(t)),
                None => Some(MetaType::Named("void".to_string(), span)),
            },
            None => match self.declarations.get(target.as_str()) {
                Some(d) => match &d.ret {
                    Some(t) => Some(clone_type(t)),
                    None => Some(MetaType::Named("void".to_string(), d.span)),
                },
                None => match self.builtins.get(target.as_str()) {
                    Some(t) => Some(self.lower_type(t)),
                    None => None,
                },
            },
        }
    }

    /// The meta IR of an expression (see `lower_expr_spec`), on an
    /// expression that lowers.
    pub(crate) fn lower_expr(&mut self, expr: &Expr) -> (res: MetaExpr)
        requires
            lower_expr_spec(old(self)@, *expr) is Some,
        ensures
            lower_expr_spec(old(self)@, *expr) == Some((final(self)@, res@)),
    {
        self.try_lower_expr(expr).unwrap()
    }

    /// The meta IR of an expression (see `lower_expr_spec`), or `None` where
    /// lowering it fails.
    pub(crate) fn try_lower_expr(&mut self, expr: &Expr) -> (res: Option<MetaExpr>)
        ensures
            match res {
                Some(e) => lower_expr_spec(old(self)@, *expr) == Some((final(self)@, e@)),
                None => lower_expr_spec(old(self)@, *expr) is None,
            },
        decreases expr,
    {
        let ghost g0 = self@;
        match expr {
            Expr::Integer(value, ty, span) => {
                let ty = match ty {
                    Some(t) => self.lower_type(t),
                    None => MetaType::Named("i32".to_string(), *span),
                };
                Some(MetaExpr { span: *span, kind: MetaExprKind::Const(MetaConst::Int(*value, *span), *span), ty })
            },
            Expr::Fractional(value, ty, span) => {
                let ty = match ty {
                    Some(t) => self.lower_type(t),
                    None => MetaType::Named("f32".to_string(), *span),
                };
                Some(
                    MetaExpr {
                        span: *span,
                        kind: MetaExprKind::Const(MetaConst::Fractional(value.clone(), *span), *span),
                        ty,
                    },
                )
            },
            Expr::Boolean(value, span) => Some(
                MetaExpr {
                    span: *span,
                    kind: MetaExprKind::Const(MetaConst::Bool(*value, *span), *span),
                    ty: MetaType::Named("bool".to_string(), *span),
                },
            ),
            Expr::Char(value, span) => Some(
                MetaExpr {
                    span: *span,
                    kind: MetaExprKind::Const(MetaConst::Char(*value, *span), *span),
                    ty: MetaType::Named("char".to_string(), *span),
                },
            ),
            Expr::String(value, span) => {
                let vs = value.as_str();
                let id = match self.try_intern_string(vs) {
                    Some(id) => id,
                    None => {
                        return None;
                    },
                };
                assert(intern_string_spec(g0, value@) == Some((self@, id)));
                let char_ty = MetaType::Named("char".to_string(), *span);
                assert(char_ty@ == TypeV::Named("char"@, *span));
                let res = MetaExpr {
                    span: *span,
                    kind: MetaExprKind::String(id, *span),
                    ty: MetaType::Pointer(Box::new(char_ty), *span),
                };
                assert(lower_expr_spec(g0, *expr) == Some((self@, res@)));
                Some(res)
            },
            Expr::Var(name, span) => {
                match self.find_local(name) {
                    Some(ty) => Some(MetaExpr { span: *span, kind: MetaExprKind::Var(name.clone(), *span), ty }),
                    None => None,
                }
            },
            Expr::Array(values, span) => {
                let values = match self.lower_exprs(values) {
                    Some(v) => v,
                    None => {
                        return None;
                    },
                };
                let elem_ty = if values.len() > 0 {
                    clone_type(&values[0].ty)
                } else {
                    MetaType::Unit(*span)
                };
                let size = #[verifier::truncate] (values.len() as u32);
                let res = MetaExpr {
                    span: *span,
                    kind: MetaExprKind::Array(values, *span),
                    ty: MetaType::Array { span: *span, elem: Box::new(elem_ty), size },
                };
                assert(res@.kind->Array_0 =~= exprs_view(values@));
                Some(res)
            },
            Expr::StructInit(init) => {
                let ty = MetaType::Named(init.name.clone(), init.span);
                let fields = match self.lower_init_fields(&init.name, &init.fields) {
                    Some(f) => f,
                    None => {
                        return None;
                    },
                };
                let res = MetaExpr {
                    span: init.span,
                    kind: MetaExprKind::StructInit { name: init.name.clone(), fields, span: init.span },
                    ty,
                };
                assert(res@.kind->fields =~= init_fields_view(fields@));
                Some(res)
            },
            Expr::Call(call) => {
                let target = call.target.clone();
                let args = match self.lower_args(&call.args) {
                    Some(a) => a,
                    None => {
                        return None;
                    },
                };
                let ty = match self.call_type(&target, call.span) {
                    Some(t) => t,
                    None => {
                        return None;
                    },
                };
                let res = MetaExpr {
                    span: call.span,
                    kind: MetaExprKind::Call { target, args, span: call.span },
                    ty,
                };
                assert(res@.kind->args =~= args_view(args@));
                Some(res)
            },
            Expr::Binary(binary) => {
                let lhs = match self.try_lower_expr(&binary.left) {
                    Some(e) => e,
                    None => {
                        return None;
                    },
                };
                let rhs = match self.try_lower_expr(&binary.right) {
                    Some(e) => e,
                    None => {
                        return None;
                    },
                };
                let (lhs, rhs) = match self.try_coerce_binary(lhs, rhs) {
                    Some(Ok(pair)) => pair,
                    _ => {
                        return None;
                    },
                };
                let op = match self.try_lower_binop(&binary.op) {
                    Some(op) => op,
                    None => {
                        return None;
                    },
                };
                let ty = match binary.op {
                    BinOp::Eq | BinOp::Neq | BinOp::Lt | BinOp::Lte | BinOp::Gt | BinOp::Gte
                    | BinOp::And | BinOp::Or => MetaType::Named("bool".to_string(), binary.span),
                    _ => clone_type(&lhs.ty),
                };
                Some(
                    MetaExpr {
                        span: binary.span,
                        kind: MetaExprKind::Binary {
                            span: binary.span,
                            op,
                            lhs: Box::new(lhs),
                            rhs: Box::new(rhs),
                        },
                        ty,
                    },
                )
            },
            Expr::Unary(unary) => {
                let inner = match self.try_lower_expr(&unary.expr) {
                    Some(e) => e,
                    None => {
                        return None;
                    },
                };
                let ty = match unary.op {
                    UnOp::Ref => MetaType::Pointer(Box::new(clone_type(&inner.ty)), unary.span),
                    UnOp::Deref => match &inner.ty {
                        MetaType::Pointer(t, _) => clone_type(t),
                        MetaType::Reference(t, _) => clone_type(t),
                        _ => clone_type(&inner.ty),
                    },
                    _ => clone_type(&inner.ty),
                };
                let res = MetaExpr {
                    span: unary.span,
                    kind: MetaExprKind::Unary {
                        span: unary.span,
                        op: self.lower_unop(&unary.op),
                        expr: Box::new(inner),
                    },
                    ty,
                };
                assert(lower_expr_spec(g0, *expr) == Some((self@, res@)));
                Some(res)
            },
        }
    }

    /// The meta IR of each expression of a list, in order.
    fn lower_exprs(&mut self, es: &Vec<Expr>) -> (res: Option<Vec<MetaExpr>>)
        ensures
            match res {
                Some(r) => lower_exprs_spec(old(self)@, es@) == Some((final(self)@, exprs_view(r@))),
                None => lower_exprs_spec(old(self)@, es@) is None,
            },
        decreases es,
    {
        let ghost g0 = self@;
        let mut res: Vec<MetaExpr> = Vec::new();
        assert(es@.subrange(0, 0) =~= Seq::<Expr>::empty());
        assert(exprs_view(res@) =~= Seq::<ExprV>::empty());
        for i in 0..es.len()
            invariant
                g0 == old(self)@,
                lower_exprs_spec(g0, es@.subrange(0, i as int)) == Some((self@, exprs_view(res@))),
        {
            proof {
                assert(es@.subrange(0, i + 1).subrange(0, i as int) =~= es@.subrange(0, i as int));
                if lower_exprs_spec(g0, es@) is Some {
                    lemma_lower_exprs_prefix(g0, es@, i + 1);
                }
            }
            match self.try_lower_expr(&es[i]) {
                Some(v) => {
                    let ghost before = exprs_view(res@);
                    res.push(v);
                    assert(exprs_view(res@) =~= before.push(expr_view(v)));
                },
                None => {
                    return None;
                },
            }
        }
        assert(es@.subrange(0, es@.len() as int) =~= es@);
        Some(res)
    }

    fn lower_arg(&mut self, arg: &Arg) -> (res: Option<MetaArg>)
        ensures
            match res {
                Some(a) => lower_arg_spec(old(self)@, *arg) == Some((final(self)@, arg_view(a))),
                None => lower_arg_spec(old(self)@, *arg) is None,
            },
        decreases arg,
    {
        match arg {
            Arg::Positional(e, span) => match self.try_lower_expr(e) {
                Some(x) => Some(MetaArg::Pos(x, *span)),
                None => None,
            },
            Arg::Named(name, e, span) => match self.try_lower_expr(e) {
                Some(x) => Some(MetaArg::Named(name.clone(), x, *span)),
                None => None,
            },
        }
    }

    fn lower_args(&mut self, args: &Vec<Arg>) -> (res: Option<Vec<MetaArg>>)
        ensures
            match res {
                Some(r) => lower_args_spec(old(self)@, args@) == Some((final(self)@, args_view(r@))),
                None => lower_args_spec(old(self)@, args@) is None,
            },
        decreases args,
    {
        let ghost g0 = self@;
        let mut res: Vec<MetaArg> = Vec::new();
        assert(args@.subrange(0, 0) =~= Seq::<Arg>::empty());
        assert(args_view(res@) =~= Seq::<ArgV>::empty());
        for i in 0..args.len()
            invariant
                g0 == old(self)@,
                lower_args_spec(g0, args@.subrange(0, i as int)) == Some((self@, args_view(res@))),
        {
            proof {
                assert(args@.subrange(0, i + 1).subrange(0, i as int) =~= args@.subrange(0, i as int));
                if lower_args_spec(g0, args@) is Some {
                    lemma_lower_args_prefix(g0, args@, i + 1);
                }
            }
            match self.lower_arg(&args[i]) {
                Some(v) => {
                    let ghost before = args_view(res@);
                    res.push(v);
                    assert(args_view(res@) =~= before.push(arg_view(v)));
                },
                None => {
                    return None;
                },
            }
        }
        assert(args@.subrange(0, args@.len() as int) =~= args@);
        Some(res)
    }

    fn lower_init_fields(&mut self, name: &String, fields: &Vec<StructInitField>) -> (res: Option<Vec<(u32, MetaExpr)>>)
        ensures
            match res {
                Some(r) => lower_init_fields_spec(old(self)@, name@, fields@) == Some(
                    (final(self)@, init_fields_view(r@)),
                ),
                None => lower_init_fields_spec(old(self)@, name@, fields@) is None,
            },
        decreases fields,
    {
        let ghost g0 = self@;
        let mut res: Vec<(u32, MetaExpr)> = Vec::new();
        assert(fields@.subrange(0, 0) =~= Seq::<StructInitField>::empty());
        assert(init_fields_view(res@) =~= Seq::<(u32, ExprV)>::empty());
        for i in 0..fields.len()
            invariant
                g0 == old(self)@,
                lower_init_fields_spec(g0, name@, fields@.subrange(0, i as int)) == Some((self@, init_fields_view(res@))),
        {
            proof {
                assert(fields@.subrange(0, i + 1).subrange(0, i as int) =~= fields@.subrange(0, i as int));
                if lower_init_fields_spec(g0, name@, fields@) is Some {
                    lemma_lower_init_fields_prefix(g0, name@, fields@, i + 1);
                }
            }
            let field = &fields[i];
            let index = match self.try_intern_struct_field(name.clone(), field.name.as_str()) {
                Some(index) => index,
                None => {
                    return None;
                },
            };
            let value = match self.try_lower_expr(&field.value) {
                Some(v) => v,
                None => {
                    return None;
                },
            };
            let ghost before = init_fields_view(res@);
            res.push((index, value));
            assert(init_fields_view(res@) =~= before.push((index, expr_view(value))));
        }
        assert(fields@.subrange(0, fields@.len() as int) =~= fields@);
        Some(res)
    }
}

} // verus!
