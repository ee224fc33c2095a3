//! What lowering computes. Each function takes the generator's state and a
//! piece of syntax and gives the state afterwards and the view of the meta
//! IR built, or `None` where lowering fails (an unknown variable or
//! function, a type mismatch, an array too large, a counter that would
//! overflow, or an operator that has no meta IR form).
use vstd::prelude::*;

use crate::ast::{
    Arg, BinOp, Block, Declaration, Expr, Function, IfStmt, Item, JunoSpan, LetStmt, Param, Program,
    Stmt, WhileStmt,
    StructDef, StructField, StructInitField, Type, UnOp,
};
use crate::metair::generator::GenState;
use crate::metair::metair::{
    ArgV, ConstV, DeclV, ExprKindV, ExprV, FieldV, FunctionV, MetaBinOp, MetaUnOp, ParamV, StmtV,
    StructV, TypeV,
};
use crate::metair::type_eq::type_eq;

verus! {

// =======================
// Interning and scopes
// =======================
pub open spec fn intern_symbol_spec(g: GenState, s: Seq<char>) -> GenState {
    if g.symbols.contains(s) {
        g
    } else {
        GenState { symbols: g.symbols.push(s), ..g }
    }
}

pub open spec fn intern_string_spec(g: GenState, s: Seq<char>) -> Option<(GenState, u32)> {
    if g.strings.dom().contains(s) {
        Some((g, g.strings[s]))
    } else if g.next_string == u32::MAX {
        None
    } else {
        Some(
            (
                GenState {
                    strings: g.strings.insert(s, g.next_string),
                    string_list: g.string_list.push(s),
                    next_string: (g.next_string + 1) as u32,
                    ..g
                },
                g.next_string,
            ),
        )
    }
}

/// The fields recorded for a struct so far.
pub open spec fn fields_of(g: GenState, st: Seq<char>) -> Map<Seq<char>, u32> {
    if g.struct_fields.dom().contains(st) {
        g.struct_fields[st]
    } else {
        Map::empty()
    }
}

pub open spec fn intern_struct_field_spec(g: GenState, st: Seq<char>, field: Seq<char>) -> Option<
    (GenState, u32),
> {
    if fields_of(g, st).dom().contains(field) {
        Some((g, fields_of(g, st)[field]))
    } else if g.next_struct_field == u32::MAX {
        None
    } else {
        Some(
            (
                GenState {
                    struct_fields: g.struct_fields.insert(
                        st,
                        fields_of(g, st).insert(field, g.next_struct_field),
                    ),
                    next_struct_field: (g.next_struct_field + 1) as u32,
                    ..g
                },
                g.next_struct_field,
            ),
        )
    }
}

pub open spec fn push_scope_spec(g: GenState) -> GenState {
    GenState { locals: g.locals.push(Map::empty()), ..g }
}

pub open spec fn pop_scope_spec(g: GenState) -> GenState {
    if g.locals.len() == 0 {
        g
    } else {
        GenState { locals: g.locals.drop_last(), ..g }
    }
}

/// Adds a local variable to the innermost scope.
pub open spec fn insert_local_spec(g: GenState, name: Seq<char>, ty: TypeV) -> Option<GenState> {
    if g.locals.len() == 0 {
        None
    } else {
        Some(
            GenState {
                locals: g.locals.update(
                    g.locals.len() - 1,
                    g.locals[g.locals.len() - 1].insert(name, ty),
                ),
                ..g
            },
        )
    }
}

/// The type of a local variable, searching from the innermost scope out.
pub open spec fn lookup_local_spec(scopes: Seq<Map<Seq<char>, TypeV>>, name: Seq<char>) -> Option<
    TypeV,
>
    decreases scopes.len(),
{
    if scopes.len() == 0 {
        None
    } else if scopes[scopes.len() - 1].dom().contains(name) {
        Some(scopes[scopes.len() - 1][name])
    } else {
        lookup_local_spec(scopes.subrange(0, scopes.len() - 1), name)
    }
}

// =======================
// Types and operators
// =======================
pub open spec fn lower_type_spec(t: Type) -> TypeV
    decreases t,
{
    match t {
        Type::Named(n, s) => TypeV::Named(n@, s),
        Type::Pointer(inner, s) => TypeV::Pointer(Box::new(lower_type_spec(*inner)), s),
        Type::Reference(inner, s) => TypeV::Reference(Box::new(lower_type_spec(*inner)), s),
        Type::Array { elem, size, span } => TypeV::Array {
            span,
            elem: Box::new(lower_type_spec(*elem)),
            size,
        },
        Type::Generic { base, span, .. } => TypeV::Named(base@, span),
    }
}

pub open spec fn lower_opt_type_spec(t: Option<Type>) -> Option<TypeV> {
    match t {
        Some(t) => Some(lower_type_spec(t)),
        None => None,
    }
}

/// The meta IR operator of a binary operator; floor division has none.
pub open spec fn binop_spec(op: BinOp) -> Option<MetaBinOp> {
    match op {
        BinOp::Add => Some(MetaBinOp::Add),
        BinOp::Sub => Some(MetaBinOp::Sub),
        BinOp::Mul => Some(MetaBinOp::Mul),
        BinOp::Div => Some(MetaBinOp::Div),
        BinOp::Mod => Some(MetaBinOp::Mod),
        BinOp::DivFloor => None,
        BinOp::Eq => Some(MetaBinOp::Eq),
        BinOp::Neq => Some(MetaBinOp::Neq),
        BinOp::Lt => Some(MetaBinOp::Lt),
        BinOp::Gt => Some(MetaBinOp::Gt),
        BinOp::Lte => Some(MetaBinOp::Lte),
        BinOp::Gte => Some(MetaBinOp::Gte),
        BinOp::And => Some(MetaBinOp::And),
        BinOp::Or => Some(MetaBinOp::Or),
        BinOp::BitAnd => Some(MetaBinOp::BitAnd),
        BinOp::BitOr => Some(MetaBinOp::BitOr),
        BinOp::BitXOR => Some(MetaBinOp::BitXOR),
        BinOp::BitSHL => Some(MetaBinOp::BitSHL),
        BinOp::BitSHR => Some(MetaBinOp::BitSHR),
    }
}

pub open spec fn unop_spec(op: UnOp) -> MetaUnOp {
    match op {
        UnOp::Neg => MetaUnOp::Neg,
        UnOp::Not => MetaUnOp::Not,
        UnOp::Ref => MetaUnOp::Ref,
        UnOp::Deref => MetaUnOp::Deref,
        UnOp::BitNot => MetaUnOp::BitNot,
    }
}

/// Comparisons and logical operators give a `bool`.
pub open spec fn is_bool_op(op: BinOp) -> bool {
    match op {
        BinOp::Eq | BinOp::Neq | BinOp::Lt | BinOp::Lte | BinOp::Gt | BinOp::Gte | BinOp::And
        | BinOp::Or => true,
        _ => false,
    }
}

// =======================
// Coercion
// =======================
pub open spec fn is_int_const(e: ExprV) -> bool {
    e.kind matches ExprKindV::Const(ConstV::Int(..), _)
}

/// An expression made to have the expected type: unchanged if it has it
/// already; an integer constant of a named type takes any named type; an
/// array literal of an array type takes an array type at least as long,
/// each element coerced to the element type. `None` for anything else.
pub open spec fn coerce_spec(e: ExprV, expected: TypeV) -> Option<ExprV>
    decreases e,
{
    if type_eq(e.ty, expected) {
        Some(e)
    } else {
        match (e.kind, e.ty, expected) {
            (ExprKindV::Const(ConstV::Int(..), _), TypeV::Named(..), TypeV::Named(..)) => Some(
                ExprV { ty: expected, ..e },
            ),
            (ExprKindV::Array(values, vs), TypeV::Array { .. }, TypeV::Array { elem, size, .. }) => {
                if values.len() > size {
                    None
                } else {
                    match coerce_all_spec(values, *elem) {
                        Some(values2) => Some(
                            ExprV { kind: ExprKindV::Array(values2, vs), ty: expected, ..e },
                        ),
                        None => None,
                    }
                }
            },
            _ => None,
        }
    }
}

pub open spec fn coerce_all_spec(values: Seq<ExprV>, expected: TypeV) -> Option<Seq<ExprV>>
    decreases values,
{
    if values.len() == 0 {
        Some(Seq::empty())
    } else {
        match coerce_all_spec(values.subrange(0, values.len() - 1), expected) {
            Some(prefix) => match coerce_spec(values[values.len() - 1], expected) {
                Some(v) => Some(prefix.push(v)),
                None => None,
            },
            None => None,
        }
    }
}

/// The operands of a binary expression made to have one type: `Some(Err(()))`
/// where neither is an integer constant and their types differ.
pub open spec fn coerce_binary_spec(lhs: ExprV, rhs: ExprV) -> Option<Result<(ExprV, ExprV), ()>> {
    if type_eq(lhs.ty, rhs.ty) {
        Some(Ok((lhs, rhs)))
    } else if is_int_const(rhs) {
        match coerce_spec(rhs, lhs.ty) {
            Some(r) => Some(Ok((lhs, r))),
            None => None,
        }
    } else if is_int_const(lhs) {
        match coerce_spec(lhs, rhs.ty) {
            Some(l) => Some(Ok((l, rhs))),
            None => None,
        }
    } else {
        Some(Err(()))
    }
}

// =======================
// Expressions
// =======================
/// The first function of the program with the given name.
pub open spec fn find_function_spec(items: Seq<Item>, name: Seq<char>) -> Option<Function>
    decreases items.len(),
{
    if items.len() == 0 {
        None
    } else {
        match items[0] {
            Item::Function(f, _) if f.name@ == name => Some(f),
            _ => find_function_spec(items.subrange(1, items.len() as int), name),
        }
    }
}

/// The type of a call: the return type of the program's function of that
/// name, else of the declaration, else of the builtin; `void` where the
/// function or declaration gives none.
pub open spec fn call_type_spec(g: GenState, target: Seq<char>, span: JunoSpan) -> Option<TypeV> {
    match find_function_spec(g.program.items@, target) {
        Some(f) => Some(
            match f.return_type {
                Some(t) => lower_type_spec(t),
                None => TypeV::Named("void"@, span),
            },
        ),
        None => if g.declarations.dom().contains(target) {
            let d = g.declarations[target];
            Some(
                match d.ret {
                    Some(t) => t,
                    None => TypeV::Named("void"@, d.span),
                },
            )
        } else if g.builtins.dom().contains(target) {
            Some(lower_type_spec(g.builtins[target]))
        } else {
            None
        },
    }
}

pub open spec fn const_expr(span: JunoSpan, c: ConstV, ty: TypeV) -> ExprV {
    ExprV { span, kind: ExprKindV::Const(c, span), ty }
}

pub open spec fn named(name: Seq<char>, span: JunoSpan) -> TypeV {
    TypeV::Named(name, span)
}

pub open spec fn lower_expr_spec(g: GenState, e: Expr) -> Option<(GenState, ExprV)>
    decreases e,
{
    match e {
        Expr::Integer(v, ty, s) => Some(
            (
                g,
                const_expr(
                    s,
                    ConstV::Int(v, s),
                    match ty {
                        Some(t) => lower_type_spec(t),
                        None => named("i32"@, s),
                    },
                ),
            ),
        ),
        Expr::Fractional(v, ty, s) => Some(
            (
                g,
                const_expr(
                    s,
                    ConstV::Fractional(v@, s),
                    match ty {
                        Some(t) => lower_type_spec(t),
                        None => named("f32"@, s),
                    },
                ),
            ),
        ),
        Expr::Boolean(b, s) => Some((g, const_expr(s, ConstV::Bool(b, s), named("bool"@, s)))),
        Expr::Char(c, s) => Some((g, const_expr(s, ConstV::Char(c, s), named("char"@, s)))),
        Expr::String(v, s) => match intern_string_spec(g, v@) {
            Some((g1, id)) => Some(
                (
                    g1,
                    ExprV {
                        span: s,
                        kind: ExprKindV::String(id, s),
                        ty: TypeV::Pointer(Box::new(named("char"@, s)), s),
                    },
                ),
            ),
            None => None,
        },
        Expr::Var(name, s) => match lookup_local_spec(g.locals, name@) {
            Some(ty) => Some((g, ExprV { span: s, kind: ExprKindV::Var(name@, s), ty })),
            None => None,
        },
        Expr::Array(values, s) => match lower_exprs_spec(g, values@) {
            Some((g1, vs)) => Some(
                (
                    g1,
                    ExprV {
                        span: s,
                        kind: ExprKindV::Array(vs, s),
                        ty: TypeV::Array {
                            span: s,
                            elem: Box::new(
                                if vs.len() > 0 {
                                    vs[0].ty
                                } else {
                                    TypeV::Unit(s)
                                },
                            ),
                            size: vs.len() as u32,
                        },
                    },
                ),
            ),
            None => None,
        },
        Expr::StructInit(init) => match lower_init_fields_spec(g, init.name@, init.fields@) {
            Some((g1, fields)) => Some(
                (
                    g1,
                    ExprV {
                        span: init.span,
                        kind: ExprKindV::StructInit { span: init.span, name: init.name@, fields },
                        ty: named(init.name@, init.span),
                    },
                ),
            ),
            None => None,
        },
        Expr::Call(call) => match lower_args_spec(g, call.args@) {
            Some((g1, args)) => match call_type_spec(g1, call.target@, call.span) {
                Some(ty) => Some(
                    (
                        g1,
                        ExprV {
                            span: call.span,
                            kind: ExprKindV::Call { span: call.span, target: call.target@, args },
                            ty,
                        },
                    ),
                ),
                None => None,
            },
            None => None,
        },
        Expr::Binary(b) => match lower_expr_spec(g, *b.left) {
            Some((g1, l)) => match lower_expr_spec(g1, *b.right) {
                Some((g2, r)) => match coerce_binary_spec(l, r) {
                    Some(Ok((l2, r2))) => match binop_spec(b.op) {
                        Some(op) => Some(
                            (
                                g2,
                                ExprV {
                                    span: b.span,
                                    kind: ExprKindV::Binary {
                                        span: b.span,
                                        op,
                                        lhs: Box::new(l2),
                                        rhs: Box::new(r2),
                                    },
                                    ty: if is_bool_op(b.op) {
                                        named("bool"@, b.span)
                                    } else {
                                        l2.ty
                                    },
                                },
                            ),
                        ),
                        None => None,
                    },
                    _ => None,
                },
                None => None,
            },
            None => None,
        },
        Expr::Unary(u) => match lower_expr_spec(g, *u.expr) {
            Some((g1, x)) => Some(
                (
                    g1,
                    ExprV {
                        span: u.span,
                        kind: ExprKindV::Unary {
                            span: u.span,
                            op: unop_spec(u.op),
                            expr: Box::new(x),
                        },
                        ty: unary_type_spec(u.op, x.ty, u.span),
                    },
                ),
            ),
            None => None,
        },
    }
}

/// The type of a unary expression: a reference points to its operand's
/// type; a dereference of a pointer or reference has the pointee's type.
pub open spec fn unary_type_spec(op: UnOp, t: TypeV, span: JunoSpan) -> TypeV {
    match op {
        UnOp::Ref => TypeV::Pointer(Box::new(t), span),
        UnOp::Deref => match t {
            TypeV::Pointer(inner, _) => *inner,
            TypeV::Reference(inner, _) => *inner,
            _ => t,
        },
        _ => t,
    }
}

/// Lowers the expressions of a list in order.
pub open spec fn lower_exprs_spec(g: GenState, es: Seq<Expr>) -> Option<(GenState, Seq<ExprV>)>
    decreases es,
{
    if es.len() == 0 {
        Some((g, Seq::empty()))
    } else {
        match lower_exprs_spec(g, es.subrange(0, es.len() - 1)) {
            Some((g1, vs)) => match lower_expr_spec(g1, es[es.len() - 1]) {
                Some((g2, v)) => Some((g2, vs.push(v))),
                None => None,
            },
            None => None,
        }
    }
}

pub open spec fn lower_arg_spec(g: GenState, a: Arg) -> Option<(GenState, ArgV)>
    decreases a,
{
    match a {
        Arg::Positional(e, s) => match lower_expr_spec(g, e) {
            Some((g1, x)) => Some((g1, ArgV::Pos(x, s))),
            None => None,
        },
        Arg::Named(n, e, s) => match lower_expr_spec(g, e) {
            Some((g1, x)) => Some((g1, ArgV::Named(n@, x, s))),
            None => None,
        },
    }
}

pub open spec fn lower_args_spec(g: GenState, args: Seq<Arg>) -> Option<(GenState, Seq<ArgV>)>
    decreases args,
{
    if args.len() == 0 {
        Some((g, Seq::empty()))
    } else {
        match lower_args_spec(g, args.subrange(0, args.len() - 1)) {
            Some((g1, vs)) => match lower_arg_spec(g1, args[args.len() - 1]) {
                Some((g2, v)) => Some((g2, vs.push(v))),
                None => None,
            },
            None => None,
        }
    }
}

/// Each field of a struct literal: its index, interned first, then its
/// value.
pub open spec fn lower_init_fields_spec(
    g: GenState,
    st: Seq<char>,
    fields: Seq<StructInitField>,
) -> Option<(GenState, Seq<(u32, ExprV)>)>
    decreases fields,
{
    if fields.len() == 0 {
        Some((g, Seq::empty()))
    } else {
        match lower_init_fields_spec(g, st, fields.subrange(0, fields.len() - 1)) {
            Some((g1, vs)) => {
                let f = fields[fields.len() - 1];
                match intern_struct_field_spec(g1, st, f.name@) {
                    Some((g2, index)) => match lower_expr_spec(g2, f.value) {
                        Some((g3, x)) => Some((g3, vs.push((index, x)))),
                        None => None,
                    },
                    None => None,
                }
            },
            None => None,
        }
    }
}

// =======================
// Statements
// =======================
pub open spec fn lower_let_spec(g: GenState, l: LetStmt) -> Option<(GenState, StmtV)> {
    let declared = lower_type_spec(l.ty);
    let value: Option<(GenState, Option<ExprV>)> = match l.value {
        None => Some((g, None)),
        Some(e) => match lower_expr_spec(g, e) {
            Some((g1, x)) => match coerce_spec(x, declared) {
                Some(c) => Some((g1, Some(c))),
                None => None,
            },
            None => None,
        },
    };
    match value {
        Some((g1, v)) => match insert_local_spec(g1, l.name@, declared) {
            Some(g2) => Some(
                (
                    g2,
                    StmtV::Let {
                        span: l.span,
                        name: l.name@,
                        mutable: l.mutable,
                        ty: Some(declared),
                        value: v,
                    },
                ),
            ),
            None => None,
        },
        None => None,
    }
}

/// The loop that a `while` statement becomes: a loop whose body breaks when
/// the condition is false and runs the body otherwise.
pub open spec fn while_loop_spec(span: JunoSpan, cond: ExprV, body: Seq<StmtV>) -> StmtV {
    StmtV::Loop {
        span,
        body: seq![
            StmtV::If {
                span: cond.span,
                cond: ExprV {
                    span: cond.span,
                    kind: ExprKindV::Unary { span: cond.span, op: MetaUnOp::Not, expr: Box::new(cond) },
                    ty: named("bool"@, cond.span),
                },
                then_body: seq![StmtV::Break(span)],
                else_ifs: Seq::empty(),
                else_body: Some(body),
            },
        ],
    }
}

pub open spec fn lower_stmt_spec(g: GenState, s: Stmt) -> Option<(GenState, StmtV)>
    decreases s,
{
    match s {
        Stmt::Let(l) => lower_let_spec(g, l),
        Stmt::AssignStmt(a) => match lower_expr_spec(g, a.value) {
            Some((g1, x)) => Some((g1, StmtV::Assign { span: a.span, target: a.name@, value: x })),
            None => None,
        },
        Stmt::Expr(e) => match lower_expr_spec(g, e) {
            Some((g1, x)) => Some((g1, StmtV::Expr(x))),
            None => None,
        },
        Stmt::Return(e, span) => match e {
            None => Some((g, StmtV::Return(None, span))),
            Some(e) => match lower_expr_spec(g, e) {
                Some((g1, x)) => Some((g1, StmtV::Return(Some(x), span))),
                None => None,
            },
        },
        Stmt::Break(span) => Some((g, StmtV::Break(span))),
        Stmt::Continue(span) => Some((g, StmtV::Continue(span))),
        Stmt::If(i) => lower_if_spec(g, i),
        Stmt::While(w) => lower_while_spec(g, w),
        Stmt::Loop(b) => match lower_block_spec(g, b) {
            Some((g1, body, _)) => Some((g1, StmtV::Loop { span: b.span, body })),
            None => None,
        },
        Stmt::For(f) => Some((g, StmtV::Break(f.span))),
    }
}

/// An `if` statement: the condition, the then-block, each `else if` and the
/// `else` block, in that order.
pub open spec fn lower_if_spec(g: GenState, i: IfStmt) -> Option<(GenState, StmtV)>
    decreases i,
{
    match lower_expr_spec(g, i.condition) {
        Some((g1, c)) => match lower_block_spec(g1, i.then_block) {
            Some((g2, then_body, _)) => match lower_else_ifs_spec(g2, i.else_ifs@) {
                Some((g3, else_ifs)) => match i.else_block {
                    None => Some(
                        (
                            g3,
                            StmtV::If { span: i.span, cond: c, then_body, else_ifs, else_body: None },
                        ),
                    ),
                    Some(b) => match lower_block_spec(g3, b) {
                        Some((g4, body, _)) => Some(
                            (
                                g4,
                                StmtV::If {
                                    span: i.span,
                                    cond: c,
                                    then_body,
                                    else_ifs,
                                    else_body: Some(body),
                                },
                            ),
                        ),
                        None => None,
                    },
                },
                None => None,
            },
            None => None,
        },
        None => None,
    }
}

/// A `while` statement: the condition, then the body.
pub open spec fn lower_while_spec(g: GenState, w: WhileStmt) -> Option<(GenState, StmtV)>
    decreases w,
{
    match lower_expr_spec(g, w.condition) {
        Some((g1, c)) => match lower_block_spec(g1, w.body) {
            Some((g2, body, _)) => Some((g2, while_loop_spec(w.span, c, body))),
            None => None,
        },
        None => None,
    }
}

pub open spec fn lower_stmts_spec(g: GenState, ss: Seq<Stmt>) -> Option<(GenState, Seq<StmtV>)>
    decreases ss,
{
    if ss.len() == 0 {
        Some((g, Seq::empty()))
    } else {
        match lower_stmts_spec(g, ss.subrange(0, ss.len() - 1)) {
            Some((g1, vs)) => match lower_stmt_spec(g1, ss[ss.len() - 1]) {
                Some((g2, v)) => Some((g2, vs.push(v))),
                None => None,
            },
            None => None,
        }
    }
}

/// A block: its statements lowered in a new scope, which is dropped after
/// and given back with them.
pub open spec fn lower_block_spec(g: GenState, b: Block) -> Option<
    (GenState, Seq<StmtV>, Map<Seq<char>, TypeV>),
>
    decreases b,
{
    match lower_stmts_spec(push_scope_spec(g), b.stmts@) {
        Some((g1, body)) => if g1.locals.len() == 0 {
            None
        } else {
            Some((pop_scope_spec(g1), body, g1.locals[g1.locals.len() - 1]))
        },
        None => None,
    }
}

pub open spec fn lower_else_ifs_spec(g: GenState, branches: Seq<(Expr, Block)>) -> Option<
    (GenState, Seq<(ExprV, Seq<StmtV>)>),
>
    decreases branches,
{
    if branches.len() == 0 {
        Some((g, Seq::empty()))
    } else {
        match lower_else_ifs_spec(g, branches.subrange(0, branches.len() - 1)) {
            Some((g1, vs)) => {
                let (c, b) = branches[branches.len() - 1];
                match lower_expr_spec(g1, c) {
                    Some((g2, x)) => match lower_block_spec(g2, b) {
                        Some((g3, body, _)) => Some((g3, vs.push((x, body)))),
                        None => None,
                    },
                    None => None,
                }
            },
            None => None,
        }
    }
}

// =======================
// Items
// =======================
/// The parameters of a function or declaration, each added to the
/// innermost scope.
pub open spec fn lower_params_spec(g: GenState, params: Seq<Param>) -> Option<(GenState, Seq<ParamV>)>
    decreases params.len(),
{
    if params.len() == 0 {
        Some((g, Seq::empty()))
    } else {
        match lower_params_spec(g, params.subrange(0, params.len() - 1)) {
            Some((g1, vs)) => {
                let p = params[params.len() - 1];
                let ty = lower_type_spec(p.ty);
                match insert_local_spec(g1, p.name@, ty) {
                    Some(g2) => Some((g2, vs.push(ParamV { span: p.span, name: p.name@, ty }))),
                    None => None,
                }
            },
            None => None,
        }
    }
}

pub open spec fn lower_function_spec(g: GenState, f: Function) -> Option<(GenState, FunctionV)> {
    let g1 = intern_symbol_spec(push_scope_spec(g), f.name@);
    match lower_params_spec(g1, f.params@) {
        Some((g2, params)) => {
            let ret = lower_opt_type_spec(f.return_type);
            let decl = DeclV { span: f.span, name: f.name@, params, ret };
            let g3 = GenState { declarations: g2.declarations.insert(f.name@, decl), ..g2 };
            match lower_block_spec(g3, f.body) {
                Some((g4, body, locals)) => Some(
                    (
                        pop_scope_spec(g4),
                        FunctionV { span: f.span, name: f.name@, params, ret, body, locals },
                    ),
                ),
                None => None,
            }
        },
        None => None,
    }
}

pub open spec fn lower_declaration_spec(g: GenState, d: Declaration) -> Option<(GenState, DeclV)> {
    let g1 = intern_symbol_spec(push_scope_spec(g), d.name@);
    match lower_params_spec(g1, d.params@) {
        Some((g2, params)) => {
            let decl = DeclV {
                span: d.span,
                name: d.name@,
                params,
                ret: lower_opt_type_spec(d.return_type),
            };
            let g3 = pop_scope_spec(g2);
            Some((GenState { declarations: g3.declarations.insert(d.name@, decl), ..g3 }, decl))
        },
        None => None,
    }
}

/// The fields of a struct definition: the index of each, then its type.
pub open spec fn lower_fields_spec(g: GenState, st: Seq<char>, fields: Seq<StructField>) -> Option<
    (GenState, Seq<FieldV>),
>
    decreases fields.len(),
{
    if fields.len() == 0 {
        Some((g, Seq::empty()))
    } else {
        match lower_fields_spec(g, st, fields.subrange(0, fields.len() - 1)) {
            Some((g1, vs)) => {
                let f = fields[fields.len() - 1];
                match intern_struct_field_spec(g1, st, f.name@) {
                    Some((g2, index)) => Some(
                        (
                            g2,
                            vs.push(
                                FieldV {
                                    span: f.span,
                                    name: f.name@,
                                    index,
                                    ty: lower_type_spec(f.ty),
                                },
                            ),
                        ),
                    ),
                    None => None,
                }
            },
            None => None,
        }
    }
}

/// A struct definition; the field counter starts again at zero after it.
pub open spec fn lower_struct_spec(g: GenState, s: StructDef) -> Option<(GenState, StructV)> {
    let g1 = intern_symbol_spec(g, s.name@);
    match lower_fields_spec(g1, s.name@, s.fields@) {
        Some((g2, fields)) => Some(
            (
                GenState { next_struct_field: 0, ..g2 },
                StructV { span: s.span, name: s.name@, fields },
            ),
        ),
        None => None,
    }
}

/// The items of a program in order: the functions and declarations lowered
/// so far, by name; lowered structs go into the generator's table.
pub open spec fn lower_items_spec(g: GenState, items: Seq<Item>) -> Option<
    (GenState, Map<Seq<char>, FunctionV>, Map<Seq<char>, DeclV>),
>
    decreases items.len(),
{
    if items.len() == 0 {
        Some((g, Map::empty(), Map::empty()))
    } else {
        match lower_items_spec(g, items.subrange(0, items.len() - 1)) {
            Some((g1, fs, ds)) => match items[items.len() - 1] {
                Item::Function(f, _) => match lower_function_spec(g1, f) {
                    Some((g2, mf)) => Some((g2, fs.insert(f.name@, mf), ds)),
                    None => None,
                },
                Item::Struct(s, _) => match lower_struct_spec(g1, s) {
                    Some((g2, ms)) => Some(
                        (GenState { structs: g2.structs.insert(ms.name, ms), ..g2 }, fs, ds),
                    ),
                    None => None,
                },
                Item::Declaration(d, _) => match lower_declaration_spec(g1, d) {
                    Some((g2, md)) => Some((g2, fs, ds.insert(d.name@, md))),
                    None => None,
                },
                Item::Import(..) => Some((g1, fs, ds)),
            },
            None => None,
        }
    }
}

/// Every field index of every struct is below the number of its fields,
/// so that the fields can be listed by index.
pub open spec fn field_indices_in_range(sf: Map<Seq<char>, Map<Seq<char>, u32>>) -> bool {
    forall|st: Seq<char>, f: Seq<char>|
        #[trigger] sf.dom().contains(st) && #[trigger] sf[st].dom().contains(f) ==> sf[st][f]
            < sf[st].dom().len()
}

/// A list of a struct's field names by index: as long as the struct has
/// fields; at each index a field that has it, or the empty name where none
/// has it.
pub open spec fn fields_by_index(fields: Map<Seq<char>, u32>, names: Seq<Seq<char>>) -> bool {
    &&& names.len() == fields.dom().len()
    &&& forall|i: int|
        0 <= i < names.len() ==> {
            if exists|f: Seq<char>| fields.dom().contains(f) && fields[f] == i {
                fields.dom().contains(#[trigger] names[i]) && fields[names[i]] == i
            } else {
                names[i] == Seq::<char>::empty()
            }
        }
}

/// What lowering a program gives besides the field table: the generator's
/// state after it, the functions and the declarations.
pub open spec fn lower_program_spec(g: GenState, p: Program) -> Option<
    (GenState, Map<Seq<char>, FunctionV>, Map<Seq<char>, DeclV>),
> {
    match lower_items_spec(GenState { program: p, ..g }, p.items@) {
        Some((g1, fs, ds)) => if field_indices_in_range(g1.struct_fields) {
            Some((g1, fs, ds))
        } else {
            None
        },
        None => None,
    }
}

} // verus!
