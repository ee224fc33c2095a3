//! The meta IR: a typed form of the program, with statements, expressions
//! and types resolved. Each type has a view in which names are the
//! character sequences of their strings; contracts speak of views.
use vstd::prelude::*;

use crate::ast::JunoSpan;
use crate::symbol_map::{DeepClone, SymbolMap};

verus! {

pub type SymbolId = String;

pub type StringId = u32;

pub type FunctionId = String;

pub type TypeId = String;

// =======================
// Program
// =======================
#[derive(Debug)]
pub struct MetaStruct {
    pub span: JunoSpan,
    pub name: SymbolId,
    pub fields: Vec<MetaField>,
}

#[derive(Debug)]
pub struct MetaField {
    pub span: JunoSpan,
    pub name: String,
    pub index: u32,
    pub ty: MetaType,
}

#[derive(Debug)]
pub struct MetaProgram {
    pub span: JunoSpan,
    pub functions: SymbolMap<MetaFunction>,
    pub declarations: SymbolMap<MetaDeclaration>,
    pub structs: SymbolMap<MetaStruct>,
    pub struct_fields: SymbolMap<Vec<String>>,
    pub string_table: Vec<String>,
    pub symbol_table: Vec<String>,
}

// =======================
// Functions
// =======================
#[derive(Debug)]
pub struct MetaFunction {
    pub span: JunoSpan,
    pub name: SymbolId,
    pub params: Vec<MetaParam>,
    pub ret: Option<MetaType>,
    pub body: Vec<MetaStmt>,
    pub locals: SymbolMap<MetaType>,
}

#[derive(Debug)]
pub struct MetaDeclaration {
    pub span: JunoSpan,
    pub name: SymbolId,
    pub params: Vec<MetaParam>,
    pub ret: Option<MetaType>,
}

#[derive(Debug)]
pub struct MetaParam {
    pub span: JunoSpan,
    pub name: SymbolId,
    pub ty: MetaType,
}

// =======================
// Statements
// =======================
#[derive(Debug)]
pub enum MetaStmt {
    Let {
        span: JunoSpan,
        name: SymbolId,
        mutable: bool,
        ty: Option<MetaType>,
        value: Option<MetaExpr>,
    },
    Assign { span: JunoSpan, target: SymbolId, value: MetaExpr },
    Expr(MetaExpr),
    Return(Option<MetaExpr>, JunoSpan),
    Break(JunoSpan),
    Continue(JunoSpan),
    If {
        span: JunoSpan,
        cond: MetaExpr,
        then_body: Vec<MetaStmt>,
        else_ifs: Vec<(MetaExpr, Vec<MetaStmt>)>,
        else_body: Option<Vec<MetaStmt>>,
    },
    Loop { span: JunoSpan, body: Vec<MetaStmt> },
}

// =======================
// Expressions
// =======================
#[derive(Debug)]
pub struct MetaExpr {
    pub span: JunoSpan,
    pub kind: MetaExprKind,
    pub ty: MetaType,
}

#[derive(Debug)]
pub enum MetaExprKind {
    Const(MetaConst, JunoSpan),
    Var(SymbolId, JunoSpan),
    String(StringId, JunoSpan),
    Call { span: JunoSpan, target: SymbolId, args: Vec<MetaArg> },
    Binary { span: JunoSpan, op: MetaBinOp, lhs: Box<MetaExpr>, rhs: Box<MetaExpr> },
    Unary { span: JunoSpan, op: MetaUnOp, expr: Box<MetaExpr> },
    Array(Vec<MetaExpr>, JunoSpan),
    Void(JunoSpan),
    StructInit { span: JunoSpan, name: SymbolId, fields: Vec<(u32, MetaExpr)> },
}

#[derive(Debug)]
pub enum MetaArg {
    Pos(MetaExpr, JunoSpan),
    Named(SymbolId, MetaExpr, JunoSpan),
}

// =======================
// Constants
// =======================
/// Constants. A fractional constant keeps the digits of its literal.
#[derive(Debug)]
pub enum MetaConst {
    Int(i64, JunoSpan),
    Bool(bool, JunoSpan),
    Char(char, JunoSpan),
    Fractional(String, JunoSpan),
}

// =======================
// Operations
// =======================
#[derive(Clone, Copy, Debug, PartialEq, Eq)]
pub enum MetaBinOp {
    Add,
    Sub,
    Mul,
    Div,
    Mod,
    Eq,
    Neq,
    Lt,
    Gt,
    Lte,
    Gte,
    And,
    Or,
    BitAnd,
    BitOr,
    BitXOR,
    BitSHL,
    BitSHR,
}

#[derive(Clone, Copy, Debug, PartialEq, Eq)]
pub enum MetaUnOp {
    Neg,
    Not,
    Ref,
    Deref,
    BitNot,
}

// =======================
// Types
// =======================
#[derive(Debug)]
pub enum MetaType {
    Named(SymbolId, JunoSpan),
    Pointer(Box<MetaType>, JunoSpan),
    Reference(Box<MetaType>, JunoSpan),
    Array { span: JunoSpan, elem: Box<MetaType>, size: u32 },
    Unit(JunoSpan),
}

// =======================
// Views
// =======================
pub enum TypeV {
    Named(Seq<char>, JunoSpan),
    Pointer(Box<TypeV>, JunoSpan),
    Reference(Box<TypeV>, JunoSpan),
    Array { span: JunoSpan, elem: Box<TypeV>, size: u32 },
    Unit(JunoSpan),
}

pub enum ConstV {
    Int(i64, JunoSpan),
    Bool(bool, JunoSpan),
    Char(char, JunoSpan),
    Fractional(Seq<char>, JunoSpan),
}

pub struct ExprV {
    pub span: JunoSpan,
    pub kind: ExprKindV,
    pub ty: TypeV,
}

pub enum ExprKindV {
    Const(ConstV, JunoSpan),
    Var(Seq<char>, JunoSpan),
    String(StringId, JunoSpan),
    Call { span: JunoSpan, target: Seq<char>, args: Seq<ArgV> },
    Binary { span: JunoSpan, op: MetaBinOp, lhs: Box<ExprV>, rhs: Box<ExprV> },
    Unary { span: JunoSpan, op: MetaUnOp, expr: Box<ExprV> },
    Array(Seq<ExprV>, JunoSpan),
    Void(JunoSpan),
    StructInit { span: JunoSpan, name: Seq<char>, fields: Seq<(u32, ExprV)> },
}

pub enum ArgV {
    Pos(ExprV, JunoSpan),
    Named(Seq<char>, ExprV, JunoSpan),
}

pub enum StmtV {
    Let {
        span: JunoSpan,
        name: Seq<char>,
        mutable: bool,
        ty: Option<TypeV>,
        value: Option<ExprV>,
    },
    Assign { span: JunoSpan, target: Seq<char>, value: ExprV },
    Expr(ExprV),
    Return(Option<ExprV>, JunoSpan),
    Break(JunoSpan),
    Continue(JunoSpan),
    If {
        span: JunoSpan,
        cond: ExprV,
        then_body: Seq<StmtV>,
        else_ifs: Seq<(ExprV, Seq<StmtV>)>,
        else_body: Option<Seq<StmtV>>,
    },
    Loop { span: JunoSpan, body: Seq<StmtV> },
}

pub struct ParamV {
    pub span: JunoSpan,
    pub name: Seq<char>,
    pub ty: TypeV,
}

pub struct DeclV {
    pub span: JunoSpan,
    pub name: Seq<char>,
    pub params: Seq<ParamV>,
    pub ret: Option<TypeV>,
}

pub struct FunctionV {
    pub span: JunoSpan,
    pub name: Seq<char>,
    pub params: Seq<ParamV>,
    pub ret: Option<TypeV>,
    pub body: Seq<StmtV>,
    pub locals: Map<Seq<char>, TypeV>,
}

pub struct FieldV {
    pub span: JunoSpan,
    pub name: Seq<char>,
    pub index: u32,
    pub ty: TypeV,
}

pub struct StructV {
    pub span: JunoSpan,
    pub name: Seq<char>,
    pub fields: Seq<FieldV>,
}

pub open spec fn type_view(t: MetaType) -> TypeV
    decreases t,
{
    match t {
        MetaType::Named(n, s) => TypeV::Named(n@, s),
        MetaType::Pointer(inner, s) => TypeV::Pointer(Box::new(type_view(*inner)), s),
        MetaType::Reference(inner, s) => TypeV::Reference(Box::new(type_view(*inner)), s),
        MetaType::Array { span, elem, size } => TypeV::Array {
            span,
            elem: Box::new(type_view(*elem)),
            size,
        },
        MetaType::Unit(s) => TypeV::Unit(s),
    }
}

pub open spec fn opt_type_view(t: Option<MetaType>) -> Option<TypeV> {
    match t {
        Some(t) => Some(type_view(t)),
        None => None,
    }
}

pub open spec fn const_view(c: MetaConst) -> ConstV {
    match c {
        MetaConst::Int(v, s) => ConstV::Int(v, s),
        MetaConst::Bool(v, s) => ConstV::Bool(v, s),
        MetaConst::Char(v, s) => ConstV::Char(v, s),
        MetaConst::Fractional(v, s) => ConstV::Fractional(v@, s),
    }
}

pub open spec fn expr_view(e: MetaExpr) -> ExprV
    decreases e,
{
    ExprV {
        span: e.span,
        ty: type_view(e.ty),
        kind: match e.kind {
            MetaExprKind::Const(c, s) => ExprKindV::Const(const_view(c), s),
            MetaExprKind::Var(n, s) => ExprKindV::Var(n@, s),
            MetaExprKind::String(id, s) => ExprKindV::String(id, s),
            MetaExprKind::Call { span, target, args } => ExprKindV::Call {
                span,
                target: target@,
                args: Seq::new(
                    args@.len(),
                    |i: int|
                        if 0 <= i < args@.len() {
                            arg_view(args@[i])
                        } else {
                            arbitrary()
                        },
                ),
            },
            MetaExprKind::Binary { span, op, lhs, rhs } => ExprKindV::Binary {
                span,
                op,
                lhs: Box::new(expr_view(*lhs)),
                rhs: Box::new(expr_view(*rhs)),
            },
            MetaExprKind::Unary { span, op, expr } => ExprKindV::Unary {
                span,
                op,
                expr: Box::new(expr_view(*expr)),
            },
            MetaExprKind::Array(values, s) => ExprKindV::Array(
                Seq::new(
                    values@.len(),
                    |i: int|
                        if 0 <= i < values@.len() {
                            expr_view(values@[i])
                        } else {
                            arbitrary()
                        },
                ),
                s,
            ),
            MetaExprKind::Void(s) => ExprKindV::Void(s),
            MetaExprKind::StructInit { span, name, fields } => ExprKindV::StructInit {
                span,
                name: name@,
                fields: Seq::new(
                    fields@.len(),
                    |i: int|
                        if 0 <= i < fields@.len() {
                            (fields@[i].0, expr_view(fields@[i].1))
                        } else {
                            arbitrary()
                        },
                ),
            },
        },
    }
}

pub open spec fn arg_view(a: MetaArg) -> ArgV
    decreases a,
{
    match a {
        MetaArg::Pos(e, s) => ArgV::Pos(expr_view(e), s),
        MetaArg::Named(n, e, s) => ArgV::Named(n@, expr_view(e), s),
    }
}

pub open spec fn opt_expr_view(e: Option<MetaExpr>) -> Option<ExprV> {
    match e {
        Some(e) => Some(expr_view(e)),
        None => None,
    }
}

pub open spec fn stmt_view(s: MetaStmt) -> StmtV
    decreases s,
{
    match s {
        MetaStmt::Let { span, name, mutable, ty, value } => StmtV::Let {
            span,
            name: name@,
            mutable,
            ty: opt_type_view(ty),
            value: opt_expr_view(value),
        },
        MetaStmt::Assign { span, target, value } => StmtV::Assign {
            span,
            target: target@,
            value: expr_view(value),
        },
        MetaStmt::Expr(e) => StmtV::Expr(expr_view(e)),
        MetaStmt::Return(e, s) => StmtV::Return(opt_expr_view(e), s),
        MetaStmt::Break(s) => StmtV::Break(s),
        MetaStmt::Continue(s) => StmtV::Continue(s),
        MetaStmt::If { span, cond, then_body, else_ifs, else_body } => StmtV::If {
            span,
            cond: expr_view(cond),
            then_body: Seq::new(
                then_body@.len(),
                |i: int|
                    if 0 <= i < then_body@.len() {
                        stmt_view(then_body@[i])
                    } else {
                        arbitrary()
                    },
            ),
            else_ifs: Seq::new(
                else_ifs@.len(),
                |i: int|
                    if 0 <= i < else_ifs@.len() {
                        (
                            expr_view(else_ifs@[i].0),
                            Seq::new(
                                else_ifs@[i].1@.len(),
                                |j: int|
                                    if 0 <= j < else_ifs@[i].1@.len() {
                                        stmt_view(else_ifs@[i].1@[j])
                                    } else {
                                        arbitrary()
                                    },
                            ),
                        )
                    } else {
                        arbitrary()
                    },
            ),
            else_body: match else_body {
                Some(b) => Some(
                    Seq::new(
                        b@.len(),
                        |i: int|
                            if 0 <= i < b@.len() {
                                stmt_view(b@[i])
                            } else {
                                arbitrary()
                            },
                    ),
                ),
                None => None,
            },
        },
        MetaStmt::Loop { span, body } => StmtV::Loop {
            span,
            body: Seq::new(
                body@.len(),
                |i: int|
                    if 0 <= i < body@.len() {
                        stmt_view(body@[i])
                    } else {
                        arbitrary()
                    },
            ),
        },
    }
}

/// The views of a list of statements.
pub open spec fn stmts_view(v: Seq<MetaStmt>) -> Seq<StmtV> {
    Seq::new(v.len(), |i: int| stmt_view(v[i]))
}

/// The views of a list of parameters.
pub open spec fn params_view(v: Seq<MetaParam>) -> Seq<ParamV> {
    Seq::new(v.len(), |i: int| v[i]@)
}

impl View for MetaType {
    type V = TypeV;

    open spec fn view(&self) -> TypeV {
        type_view(*self)
    }
}

impl View for MetaConst {
    type V = ConstV;

    open spec fn view(&self) -> ConstV {
        const_view(*self)
    }
}

impl View for MetaExpr {
    type V = ExprV;

    open spec fn view(&self) -> ExprV {
        expr_view(*self)
    }
}

impl View for MetaArg {
    type V = ArgV;

    open spec fn view(&self) -> ArgV {
        arg_view(*self)
    }
}

impl View for MetaStmt {
    type V = StmtV;

    open spec fn view(&self) -> StmtV {
        stmt_view(*self)
    }
}

impl View for MetaParam {
    type V = ParamV;

    open spec fn view(&self) -> ParamV {
        ParamV { span: self.span, name: self.name@, ty: self.ty@ }
    }
}

impl View for MetaDeclaration {
    type V = DeclV;

    open spec fn view(&self) -> DeclV {
        DeclV {
            span: self.span,
            name: self.name@,
            params: params_view(self.params@),
            ret: opt_type_view(self.ret),
        }
    }
}

impl View for MetaFunction {
    type V = FunctionV;

    open spec fn view(&self) -> FunctionV {
        FunctionV {
            span: self.span,
            name: self.name@,
            params: params_view(self.params@),
            ret: opt_type_view(self.ret),
            body: stmts_view(self.body@),
            locals: self.locals@,
        }
    }
}

impl View for MetaField {
    type V = FieldV;

    open spec fn view(&self) -> FieldV {
        FieldV { span: self.span, name: self.name@, index: self.index, ty: self.ty@ }
    }
}

impl View for MetaStruct {
    type V = StructV;

    open spec fn view(&self) -> StructV {
        StructV {
            span: self.span,
            name: self.name@,
            fields: Seq::new(self.fields@.len(), |i: int| self.fields@[i]@),
        }
    }
}

} // verus!

verus! {

/// The views of a list of expressions.
pub open spec fn exprs_view(v: Seq<MetaExpr>) -> Seq<ExprV> {
    Seq::new(v.len(), |i: int| expr_view(v[i]))
}

} // verus!

verus! {

/// The views of the branches of `else if`s.
pub open spec fn else_ifs_view(v: Seq<(MetaExpr, Vec<MetaStmt>)>) -> Seq<(ExprV, Seq<StmtV>)> {
    Seq::new(v.len(), |i: int| (expr_view(v[i].0), stmts_view(v[i].1@)))
}

} // verus!
