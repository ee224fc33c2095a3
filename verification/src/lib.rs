//! Juno front end: the syntax tree, the builder that makes it from the
//! grammar's concrete syntax tree, and the lowering of a program into the
//! meta IR.
pub mod ast;
pub mod symbol_map;
pub mod metair;
pub mod parser;

pub use crate::metair::generator::MetaIRGen;
pub use crate::metair::metair::{
    MetaArg, MetaBinOp, MetaConst, MetaDeclaration, MetaExpr, MetaExprKind, MetaField, MetaFunction,
    MetaParam, MetaProgram, MetaStmt, MetaStruct, MetaType, MetaUnOp,
};
