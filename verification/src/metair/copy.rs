//! Copies of meta IR values that keep their views.
use vstd::prelude::*;

use crate::metair::metair::{
    arg_view, expr_view, params_view, MetaArg, MetaConst, MetaDeclaration, MetaExpr, MetaExprKind,
    MetaField, MetaParam, MetaStruct, MetaType,
};
use crate::symbol_map::DeepClone;

verus! {

pub fn clone_type(t: &MetaType) -> (res: MetaType)
    ensures
        res@ == t@,
    decreases t,
{
    match t {
        MetaType::Named(n, s) => MetaType::Named(n.clone(), *s),
        MetaType::Pointer(inner, s) => MetaType::Pointer(Box::new(clone_type(inner)), *s),
        MetaType::Reference(inner, s) => MetaType::Reference(Box::new(clone_type(inner)), *s),
        MetaType::Array { span, elem, size } => MetaType::Array {
            span: *span,
            elem: Box::new(clone_type(elem)),
            size: *size,
        },
        MetaType::Unit(s) => MetaType::Unit(*s),
    }
}

pub fn clone_opt_type(t: &Option<MetaType>) -> (res: Option<MetaType>)
    ensures
        crate::metair::metair::opt_type_view(res) == crate::metair::metair::opt_type_view(*t),
{
    match t {
        Some(t) => Some(clone_type(t)),
        None => None,
    }
}

pub fn clone_const(c: &MetaConst) -> (res: MetaConst)
    ensures
        res@ == c@,
{
    match c {
        MetaConst::Int(v, s) => MetaConst::Int(*v, *s),
        MetaConst::Bool(v, s) => MetaConst::Bool(*v, *s),
        MetaConst::Char(v, s) => MetaConst::Char(*v, *s),
        MetaConst::Fractional(v, s) => MetaConst::Fractional(v.clone(), *s),
    }
}

pub fn clone_expr(e: &MetaExpr) -> (res: MetaExpr)
    ensures
        res@ == e@,
    decreases e,
{
    let ty = clone_type(&e.ty);
    match &e.kind {
        MetaExprKind::Const(c, s) => MetaExpr {
            span: e.span,
            kind: MetaExprKind::Const(clone_const(c), *s),
            ty,
        },
        MetaExprKind::Var(n, s) => MetaExpr { span: e.span, kind: MetaExprKind::Var(n.clone(), *s), ty },
        MetaExprKind::String(id, s) => MetaExpr {
            span: e.span,
            kind: MetaExprKind::String(*id, *s),
            ty,
        },
        MetaExprKind::Call { span, target, args } => {
            let args2 = clone_args(args);
            let res = MetaExpr {
                span: e.span,
                kind: MetaExprKind::Call { span: *span, target: target.clone(), args: args2 },
                ty,
            };
            assert(res@.kind->args =~= e@.kind->args) by {
                assert forall|i: int| 0 <= i < args@.len() implies arg_view(args2@[i]) == arg_view(args@[i]) by {}
            }
            assert(res@.kind == e@.kind);
            res
        },
        MetaExprKind::Binary { span, op, lhs, rhs } => MetaExpr {
            span: e.span,
            kind: MetaExprKind::Binary {
                span: *span,
                op: *op,
                lhs: Box::new(clone_expr(lhs)),
                rhs: Box::new(clone_expr(rhs)),
            },
            ty,
        },
        MetaExprKind::Unary { span, op, expr } => MetaExpr {
            span: e.span,
            kind: MetaExprKind::Unary { span: *span, op: *op, expr: Box::new(clone_expr(expr)) },
            ty,
        },
        MetaExprKind::Array(values, s) => {
            let values2 = clone_exprs(values);
            let res = MetaExpr { span: e.span, kind: MetaExprKind::Array(values2, *s), ty };
            assert(res@.kind->Array_0 =~= e@.kind->Array_0) by {
                assert forall|i: int| 0 <= i < values@.len() implies expr_view(values2@[i]) == expr_view(values@[i]) by {}
            }
            assert(res@.kind == e@.kind);
            res
        },
        MetaExprKind::Void(s) => MetaExpr { span: e.span, kind: MetaExprKind::Void(*s), ty },
        MetaExprKind::StructInit { span, name, fields } => {
            let fields2 = clone_init_fields(fields);
            let res = MetaExpr {
                span: e.span,
                kind: MetaExprKind::StructInit { span: *span, name: name.clone(), fields: fields2 },
                ty,
            };
            assert(res@.kind->fields =~= e@.kind->fields) by {
                assert forall|i: int| 0 <= i < fields@.len() implies fields2@[i].0 == fields@[i].0
                    && expr_view(fields2@[i].1) == expr_view(fields@[i].1) by {}
            }
            assert(res@.kind == e@.kind);
            res
        },
    }
}

pub fn clone_exprs(v: &Vec<MetaExpr>) -> (res: Vec<MetaExpr>)
    ensures
        res@.len() == v@.len(),
        forall|i: int| 0 <= i < v@.len() ==> expr_view(#[trigger] res@[i]) == expr_view(v@[i]),
    decreases v,
{
    let mut res: Vec<MetaExpr> = Vec::new();
    for i in 0..v.len()
        invariant
            res@.len() == i,
            forall|j: int| 0 <= j < i ==> expr_view(#[trigger] res@[j]) == expr_view(v@[j]),
    {
        res.push(clone_expr(&v[i]));
    }
    res
}

pub fn clone_arg(a: &MetaArg) -> (res: MetaArg)
    ensures
        res@ == a@,
    decreases a,
{
    match a {
        MetaArg::Pos(e, s) => MetaArg::Pos(clone_expr(e), *s),
        MetaArg::Named(n, e, s) => MetaArg::Named(n.clone(), clone_expr(e), *s),
    }
}

pub fn clone_args(v: &Vec<MetaArg>) -> (res: Vec<MetaArg>)
    ensures
        res@.len() == v@.len(),
        forall|i: int| 0 <= i < v@.len() ==> arg_view(#[trigger] res@[i]) == arg_view(v@[i]),
    decreases v,
{
    let mut res: Vec<MetaArg> = Vec::new();
    for i in 0..v.len()
        invariant
            res@.len() == i,
            forall|j: int| 0 <= j < i ==> arg_view(#[trigger] res@[j]) == arg_view(v@[j]),
    {
        res.push(clone_arg(&v[i]));
    }
    res
}

pub fn clone_init_fields(v: &Vec<(u32, MetaExpr)>) -> (res: Vec<(u32, MetaExpr)>)
    ensures
        res@.len() == v@.len(),
        forall|i: int| 0 <= i < v@.len() ==> (#[trigger] res@[i]).0 == v@[i].0 && expr_view(res@[i].1) == expr_view(v@[i].1),
    decreases v,
{
    let mut res: Vec<(u32, MetaExpr)> = Vec::new();
    for i in 0..v.len()
        invariant
            res@.len() == i,
            forall|j: int| 0 <= j < i ==> (#[trigger] res@[j]).0 == v@[j].0 && expr_view(res@[j].1) == expr_view(v@[j].1),
    {
        res.push((v[i].0, clone_expr(&v[i].1)));
    }
    res
}

pub fn clone_params(v: &Vec<MetaParam>) -> (res: Vec<MetaParam>)
    ensures
        params_view(res@) == params_view(v@),
{
    let mut res: Vec<MetaParam> = Vec::new();
    for i in 0..v.len()
        invariant
            res@.len() == i,
            forall|j: int| 0 <= j < i ==> #[trigger] res@[j]@ == v@[j]@,
    {
        res.push(v[i].deep_clone());
    }
    assert(params_view(res@) =~= params_view(v@));
    res
}

impl DeepClone for MetaType {
    fn deep_clone(&self) -> (res: MetaType) {
        clone_type(self)
    }
}

impl DeepClone for MetaExpr {
    fn deep_clone(&self) -> (res: MetaExpr) {
        clone_expr(self)
    }
}

impl DeepClone for MetaParam {
    fn deep_clone(&self) -> (res: MetaParam) {
        MetaParam { span: self.span, name: self.name.clone(), ty: clone_type(&self.ty) }
    }
}

impl DeepClone for MetaDeclaration {
    fn deep_clone(&self) -> (res: MetaDeclaration) {
        MetaDeclaration {
            span: self.span,
            name: self.name.clone(),
            params: clone_params(&self.params),
            ret: clone_opt_type(&self.ret),
        }
    }
}

impl DeepClone for MetaField {
    fn deep_clone(&self) -> (res: MetaField) {
        MetaField {
            span: self.span,
            name: self.name.clone(),
            index: self.index,
            ty: clone_type(&self.ty),
        }
    }
}

impl DeepClone for MetaStruct {
    fn deep_clone(&self) -> (res: MetaStruct) {
        let mut fields: Vec<MetaField> = Vec::new();
        for i in 0..self.fields.len()
            invariant
                fields@.len() == i,
                forall|j: int| 0 <= j < i ==> #[trigger] fields@[j]@ == self.fields@[j]@,
        {
            fields.push(self.fields[i].deep_clone());
        }
        let res = MetaStruct { span: self.span, name: self.name.clone(), fields };
        assert(res@.fields =~= self@.fields);
        res
    }
}

} // verus!
