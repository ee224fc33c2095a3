//! Abstract syntax tree of a Juno source file, as produced by the parser
//! and consumed by the meta IR generator.
use vstd::prelude::*;

verus! {

/// A byte range of the source text.
#[derive(Clone, Copy, Debug, PartialEq, Eq)]
pub struct JunoSpan {
    pub start: usize,
    pub end: usize,
}

#[derive(Debug)]
pub struct Program {
    pub span: JunoSpan,
    pub items: Vec<Item>,
}

#[derive(Debug)]
pub enum Item {
    Function(Function, JunoSpan),
    Import(Import, JunoSpan),
    Struct(StructDef, JunoSpan),
    Declaration(Declaration, JunoSpan),
}

#[derive(Clone, Debug)]
pub struct Import {
    pub span: JunoSpan,
    pub path: String,
}

/// A function definition. `name` is the namespaced name, `raw_name` the
/// name as written in the source.
#[derive(Debug)]
pub struct Function {
    pub span: JunoSpan,
    pub name: String,
    pub raw_name: String,
    pub params: Vec<Param>,
    pub return_type: Option<Type>,
    pub body: Block,
}

/// An external function declaration (`decl f(a: i32) -> i32;`).
#[derive(Debug)]
pub struct Declaration {
    pub span: JunoSpan,
    pub name: String,
    pub params: Vec<Param>,
    pub return_type: Option<Type>,
}

#[derive(Debug)]
pub struct Param {
    pub span: JunoSpan,
    pub name: String,
    pub ty: Type,
}

#[derive(Debug)]
pub struct StructDef {
    pub span: JunoSpan,
    pub name: String,
    pub fields: Vec<StructField>,
}

#[derive(Debug)]
pub struct StructField {
    pub span: JunoSpan,
    pub name: String,
    pub ty: Type,
}

#[derive(Debug)]
pub struct Block {
    pub span: JunoSpan,
    pub stmts: Vec<Stmt>,
}

#[derive(Debug)]
pub enum Stmt {
    Let(LetStmt),
    AssignStmt(AssignStmt),
    Expr(Expr),
    Return(Option<Expr>, JunoSpan),
    Break(JunoSpan),
    Continue(JunoSpan),
    If(IfStmt),
    While(WhileStmt),
    For(ForStmt),
    Loop(Block),
}

#[derive(Debug)]
pub struct LetStmt {
    pub span: JunoSpan,
    pub mutable: bool,
    pub name: String,
    pub ty: Type,
    pub value: Option<Expr>,
}

#[derive(Debug)]
pub struct AssignStmt {
    pub span: JunoSpan,
    pub name: String,
    pub value: Expr,
}

#[derive(Debug)]
pub struct IfStmt {
    pub span: JunoSpan,
    pub condition: Expr,
    pub then_block: Block,
    pub else_ifs: Vec<(Expr, Block)>,
    pub else_block: Option<Block>,
}

#[derive(Debug)]
pub struct WhileStmt {
    pub span: JunoSpan,
    pub condition: Expr,
    pub body: Block,
}

#[derive(Debug)]
pub struct ForStmt {
    pub span: JunoSpan,
    pub init: Expr,
    pub iter: Expr,
    pub body: Block,
}

/// Expressions. A fractional literal keeps the digits of its source text;
/// converting them to a machine float is left to the code generator.
#[derive(Debug)]
pub enum Expr {
    Integer(i64, Option<Type>, JunoSpan),
    Fractional(String, Option<Type>, JunoSpan),
    Boolean(bool, JunoSpan),
    Char(char, JunoSpan),
    String(String, JunoSpan),
    Var(String, JunoSpan),
    Array(Vec<Expr>, JunoSpan),
    StructInit(StructInit),
    Call(Call),
    Binary(BinaryExpr),
    Unary(UnaryExpr),
}

#[derive(Debug)]
pub struct StructInit {
    pub span: JunoSpan,
    pub name: String,
    pub fields: Vec<StructInitField>,
}

#[derive(Debug)]
pub struct StructInitField {
    pub span: JunoSpan,
    pub name: String,
    pub value: Expr,
}

#[derive(Debug)]
pub struct Call {
    pub span: JunoSpan,
    pub target: String,
    pub args: Vec<Arg>,
}

#[derive(Debug)]
pub enum Arg {
    Positional(Expr, JunoSpan),
    Named(String, Expr, JunoSpan),
}

#[derive(Debug)]
pub struct BinaryExpr {
    pub span: JunoSpan,
    pub left: Box<Expr>,
    pub op: BinOp,
    pub right: Box<Expr>,
}

#[derive(Debug)]
pub struct UnaryExpr {
    pub span: JunoSpan,
    pub op: UnOp,
    pub expr: Box<Expr>,
}

#[derive(Clone, Copy, Debug, PartialEq, Eq)]
pub enum BinOp {
    Add,
    Sub,
    Mul,
    Div,
    Mod,
    DivFloor,
    Eq,
    Neq,
    Lt,
    Gt,
    Lte,
    Gte,
    And,
    Or,
    BitAnd,
    BitOr,
    BitXOR,
    BitSHL,
    BitSHR,
}

#[derive(Clone, Copy, Debug, PartialEq, Eq)]
pub enum UnOp {
    Neg,
    Not,
    Ref,
    Deref,
    BitNot,
}

#[derive(Debug)]
pub enum Type {
    Named(String, JunoSpan),
    Pointer(Box<Type>, JunoSpan),
    Reference(Box<Type>, JunoSpan),
    Array { elem: Box<Type>, size: u32, span: JunoSpan },
    Generic { base: String, args: Vec<Type>, span: JunoSpan },
}

impl View for Type {
    type V = Type;

    open spec fn view(&self) -> Type {
        *self
    }
}

} // verus!
