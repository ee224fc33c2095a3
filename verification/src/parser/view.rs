//! Views of the syntax tree in which names and texts are character
//! sequences, so that the builder's contracts can say what it produces.
use vstd::prelude::*;

use crate::ast::{
    Arg, BinOp, Block, Declaration, Expr, Function, Import, Item, Param, Program, Stmt, StructDef,
    StructField, StructInitField, Type, UnOp, JunoSpan,
};

verus! {

pub enum TypeV {
    Named(Seq<char>, JunoSpan),
    Pointer(Box<TypeV>, JunoSpan),
    Reference(Box<TypeV>, JunoSpan),
    Array { elem: Box<TypeV>, size: u32, span: JunoSpan },
    Generic { base: Seq<char>, args: Seq<TypeV>, span: JunoSpan },
}

pub enum ExprV {
    Integer(i64, Option<TypeV>, JunoSpan),
    Fractional(Seq<char>, Option<TypeV>, JunoSpan),
    Boolean(bool, JunoSpan),
    Char(char, JunoSpan),
    String(Seq<char>, JunoSpan),
    Var(Seq<char>, JunoSpan),
    Array(Seq<ExprV>, JunoSpan),
    StructInit { span: JunoSpan, name: Seq<char>, fields: Seq<(JunoSpan, Seq<char>, ExprV)> },
    Call { span: JunoSpan, target: Seq<char>, args: Seq<ArgV> },
    Binary { span: JunoSpan, left: Box<ExprV>, op: BinOp, right: Box<ExprV> },
    Unary { span: JunoSpan, op: UnOp, expr: Box<ExprV> },
}

pub enum ArgV {
    Positional(ExprV, JunoSpan),
    Named(Seq<char>, ExprV, JunoSpan),
}

pub struct BlockV {
    pub span: JunoSpan,
    pub stmts: Seq<StmtV>,
}

pub enum StmtV {
    Let { span: JunoSpan, mutable: bool, name: Seq<char>, ty: TypeV, value: Option<ExprV> },
    Assign { span: JunoSpan, name: Seq<char>, value: ExprV },
    Expr(ExprV),
    Return(Option<ExprV>, JunoSpan),
    Break(JunoSpan),
    Continue(JunoSpan),
    If {
        span: JunoSpan,
        condition: ExprV,
        then_block: BlockV,
        else_ifs: Seq<(ExprV, BlockV)>,
        else_block: Option<BlockV>,
    },
    While { span: JunoSpan, condition: ExprV, body: BlockV },
    For { span: JunoSpan, init: ExprV, iter: ExprV, body: BlockV },
    Loop(BlockV),
}

/// A parameter or a struct field: its span, name and type.
pub struct BindingV {
    pub span: JunoSpan,
    pub name: Seq<char>,
    pub ty: TypeV,
}

pub struct FunctionV {
    pub span: JunoSpan,
    pub name: Seq<char>,
    pub raw_name: Seq<char>,
    pub params: Seq<BindingV>,
    pub return_type: Option<TypeV>,
    pub body: BlockV,
}

pub struct DeclarationV {
    pub span: JunoSpan,
    pub name: Seq<char>,
    pub params: Seq<BindingV>,
    pub return_type: Option<TypeV>,
}

pub struct StructDefV {
    pub span: JunoSpan,
    pub name: Seq<char>,
    pub fields: Seq<BindingV>,
}

pub struct ImportV {
    pub span: JunoSpan,
    pub path: Seq<char>,
}

pub enum ItemV {
    Function(FunctionV, JunoSpan),
    Import(ImportV, JunoSpan),
    Struct(StructDefV, JunoSpan),
    Declaration(DeclarationV, JunoSpan),
}

pub struct ProgramV {
    pub span: JunoSpan,
    pub items: Seq<ItemV>,
}

pub open spec fn type_v(t: Type) -> TypeV
    decreases t,
{
    match t {
        Type::Named(n, s) => TypeV::Named(n@, s),
        Type::Pointer(b, s) => TypeV::Pointer(Box::new(type_v(*b)), s),
        Type::Reference(b, s) => TypeV::Reference(Box::new(type_v(*b)), s),
        Type::Array { elem, size, span } => TypeV::Array {
            elem: Box::new(type_v(*elem)),
            size,
            span,
        },
        Type::Generic { base, args, span } => TypeV::Generic {
            base: base@,
            args: Seq::new(
                args@.len(),
                |i: int|
                    if 0 <= i < args@.len() {
                        type_v(args@[i])
                    } else {
                        arbitrary()
                    },
            ),
            span,
        },
    }
}

pub open spec fn opt_type_v(t: Option<Type>) -> Option<TypeV> {
    match t {
        Some(t) => Some(type_v(t)),
        None => None,
    }
}

pub open spec fn expr_v(e: Expr) -> ExprV
    decreases e,
{
    match e {
        Expr::Integer(v, t, s) => ExprV::Integer(
            v,
            match t {
                Some(t) => Some(type_v(t)),
                None => None,
            },
            s,
        ),
        Expr::Fractional(v, t, s) => ExprV::Fractional(
            v@,
            match t {
                Some(t) => Some(type_v(t)),
                None => None,
            },
            s,
        ),
        Expr::Boolean(b, s) => ExprV::Boolean(b, s),
        Expr::Char(c, s) => ExprV::Char(c, s),
        Expr::String(v, s) => ExprV::String(v@, s),
        Expr::Var(v, s) => ExprV::Var(v@, s),
        Expr::Array(items, s) => ExprV::Array(
            Seq::new(
                items@.len(),
                |i: int|
                    if 0 <= i < items@.len() {
                        expr_v(items@[i])
                    } else {
                        arbitrary()
                    },
            ),
            s,
        ),
        Expr::StructInit(si) => ExprV::StructInit {
            span: si.span,
            name: si.name@,
            fields: Seq::new(
                si.fields@.len(),
                |i: int|
                    if 0 <= i < si.fields@.len() {
                        (si.fields@[i].span, si.fields@[i].name@, expr_v(si.fields@[i].value))
                    } else {
                        arbitrary()
                    },
            ),
        },
        Expr::Call(c) => ExprV::Call {
            span: c.span,
            target: c.target@,
            args: Seq::new(
                c.args@.len(),
                |i: int|
                    if 0 <= i < c.args@.len() {
                        match c.args@[i] {
                            Arg::Positional(e, s) => ArgV::Positional(expr_v(e), s),
                            Arg::Named(n, e, s) => ArgV::Named(n@, expr_v(e), s),
                        }
                    } else {
                        arbitrary()
                    },
            ),
        },
        Expr::Binary(b) => ExprV::Binary {
            span: b.span,
            left: Box::new(expr_v(*b.left)),
            op: b.op,
            right: Box::new(expr_v(*b.right)),
        },
        Expr::Unary(u) => ExprV::Unary { span: u.span, op: u.op, expr: Box::new(expr_v(*u.expr)) },
    }
}

pub open spec fn opt_expr_v(e: Option<Expr>) -> Option<ExprV> {
    match e {
        Some(e) => Some(expr_v(e)),
        None => None,
    }
}

pub open spec fn exprs_v(v: Seq<Expr>) -> Seq<ExprV> {
    Seq::new(v.len(), |i: int| expr_v(v[i]))
}

pub open spec fn arg_v(a: Arg) -> ArgV {
    match a {
        Arg::Positional(e, s) => ArgV::Positional(expr_v(e), s),
        Arg::Named(n, e, s) => ArgV::Named(n@, expr_v(e), s),
    }
}

pub open spec fn args_v(v: Seq<Arg>) -> Seq<ArgV> {
    Seq::new(v.len(), |i: int| arg_v(v[i]))
}

pub open spec fn init_field_v(f: StructInitField) -> (JunoSpan, Seq<char>, ExprV) {
    (f.span, f.name@, expr_v(f.value))
}

pub open spec fn init_fields_v(v: Seq<StructInitField>) -> Seq<(JunoSpan, Seq<char>, ExprV)> {
    Seq::new(v.len(), |i: int| init_field_v(v[i]))
}

pub open spec fn block_v(b: Block) -> BlockV
    decreases b,
{
    BlockV {
        span: b.span,
        stmts: Seq::new(
            b.stmts@.len(),
            |i: int|
                if 0 <= i < b.stmts@.len() {
                    stmt_v(b.stmts@[i])
                } else {
                    arbitrary()
                },
        ),
    }
}

pub open spec fn stmt_v(s: Stmt) -> StmtV
    decreases s,
{
    match s {
        Stmt::Let(l) => StmtV::Let {
            span: l.span,
            mutable: l.mutable,
            name: l.name@,
            ty: type_v(l.ty),
            value: opt_expr_v(l.value),
        },
        Stmt::AssignStmt(a) => StmtV::Assign { span: a.span, name: a.name@, value: expr_v(a.value) },
        Stmt::Expr(e) => StmtV::Expr(expr_v(e)),
        Stmt::Return(e, s) => StmtV::Return(opt_expr_v(e), s),
        Stmt::Break(s) => StmtV::Break(s),
        Stmt::Continue(s) => StmtV::Continue(s),
        Stmt::If(i) => StmtV::If {
            span: i.span,
            condition: expr_v(i.condition),
            then_block: block_v(i.then_block),
            else_ifs: Seq::new(
                i.else_ifs@.len(),
                |k: int|
                    if 0 <= k < i.else_ifs@.len() {
                        (expr_v(i.else_ifs@[k].0), block_v(i.else_ifs@[k].1))
                    } else {
                        arbitrary()
                    },
            ),
            else_block: match i.else_block {
                Some(b) => Some(block_v(b)),
                None => None,
            },
        },
        Stmt::While(w) => StmtV::While {
            span: w.span,
            condition: expr_v(w.condition),
            body: block_v(w.body),
        },
        Stmt::For(f) => StmtV::For {
            span: f.span,
            init: expr_v(f.init),
            iter: expr_v(f.iter),
            body: block_v(f.body),
        },
        Stmt::Loop(b) => StmtV::Loop(block_v(b)),
    }
}

pub open spec fn stmts_v(v: Seq<Stmt>) -> Seq<StmtV> {
    Seq::new(v.len(), |i: int| stmt_v(v[i]))
}

pub open spec fn else_ifs_v(v: Seq<(Expr, Block)>) -> Seq<(ExprV, BlockV)> {
    Seq::new(v.len(), |i: int| (expr_v(v[i].0), block_v(v[i].1)))
}

pub open spec fn opt_block_v(b: Option<Block>) -> Option<BlockV> {
    match b {
        Some(b) => Some(block_v(b)),
        None => None,
    }
}

pub open spec fn param_v(p: Param) -> BindingV {
    BindingV { span: p.span, name: p.name@, ty: type_v(p.ty) }
}

pub open spec fn params_v(v: Seq<Param>) -> Seq<BindingV> {
    Seq::new(v.len(), |i: int| param_v(v[i]))
}

pub open spec fn field_v(f: StructField) -> BindingV {
    BindingV { span: f.span, name: f.name@, ty: type_v(f.ty) }
}

pub open spec fn fields_v(v: Seq<StructField>) -> Seq<BindingV> {
    Seq::new(v.len(), |i: int| field_v(v[i]))
}

pub open spec fn function_v(f: Function) -> FunctionV {
    FunctionV {
        span: f.span,
        name: f.name@,
        raw_name: f.raw_name@,
        params: params_v(f.params@),
        return_type: opt_type_v(f.return_type),
        body: block_v(f.body),
    }
}

pub open spec fn declaration_v(d: Declaration) -> DeclarationV {
    DeclarationV {
        span: d.span,
        name: d.name@,
        params: params_v(d.params@),
        return_type: opt_type_v(d.return_type),
    }
}

pub open spec fn struct_def_v(s: StructDef) -> StructDefV {
    StructDefV { span: s.span, name: s.name@, fields: fields_v(s.fields@) }
}

pub open spec fn import_v(i: Import) -> ImportV {
    ImportV { span: i.span, path: i.path@ }
}

pub open spec fn item_v(i: Item) -> ItemV {
    match i {
        Item::Function(f, s) => ItemV::Function(function_v(f), s),
        Item::Import(i, s) => ItemV::Import(import_v(i), s),
        Item::Struct(st, s) => ItemV::Struct(struct_def_v(st), s),
        Item::Declaration(d, s) => ItemV::Declaration(declaration_v(d), s),
    }
}

pub open spec fn items_v(v: Seq<Item>) -> Seq<ItemV> {
    Seq::new(v.len(), |i: int| item_v(v[i]))
}

pub open spec fn program_v(p: Program) -> ProgramV {
    ProgramV { span: p.span, items: items_v(p.items@) }
}

} // verus!
