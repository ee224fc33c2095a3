//! Lowering of the syntax tree into the meta IR.
pub mod metair;
pub mod type_eq;
pub mod generator;
pub mod semantics;
pub mod intern;
pub mod lookup;
pub mod ops;
pub mod scope;
pub mod types;
pub mod copy;
pub mod coercion;
pub mod prefix;
pub mod expr;
pub mod stmt;
pub mod program;
pub mod laws;
pub mod display;

pub use crate::metair::generator::MetaIRGen;
pub use crate::metair::metair::{
    MetaArg, MetaBinOp, MetaConst, MetaDeclaration, MetaExpr, MetaExprKind, MetaField, MetaFunction,
    MetaParam, MetaProgram, MetaStmt, MetaStruct, MetaType, MetaUnOp,
};
