//! Lowering of operators.
use vstd::prelude::*;

use crate::ast::{BinOp, UnOp};
use crate::metair::generator::MetaIRGen;
use crate::metair::metair::{MetaBinOp, MetaUnOp};
use crate::metair::semantics::{binop_spec, unop_spec};

verus! {

impl<'a> MetaIRGen<'a> {
    /// The meta IR operator of a binary operator other than floor division.
    pub(crate) fn lower_binop(&self, op: &BinOp) -> (res: MetaBinOp)
        requires
            binop_spec(*op) is Some,
        ensures
            binop_spec(*op) == Some(res),
    {
        self.try_lower_binop(op).unwrap()
    }

    /// The meta IR operator of a binary operator; floor division has none.
    pub(crate) fn try_lower_binop(&self, op: &BinOp) -> (res: Option<MetaBinOp>)
        ensures
            res == binop_spec(*op),
    {
        match op {
            BinOp::Add => Some(MetaBinOp::Add),
            BinOp::Sub => Some(MetaBinOp::Sub),
            BinOp::Mul => Some(MetaBinOp::Mul),
            BinOp::Div => Some(MetaBinOp::Div),
            BinOp::Mod => Some(MetaBinOp::Mod),
            BinOp::Eq => Some(MetaBinOp::Eq),
            BinOp::Neq => Some(MetaBinOp::Neq),
            BinOp::Lt => Some(MetaBinOp::Lt),
            BinOp::Lte => Some(MetaBinOp::Lte),
            BinOp::Gt => Some(MetaBinOp::Gt),
            BinOp::Gte => Some(MetaBinOp::Gte),
            BinOp::And => Some(MetaBinOp::And),
            BinOp::Or => Some(MetaBinOp::Or),
            BinOp::BitAnd => Some(MetaBinOp::BitAnd),
            BinOp::BitOr => Some(MetaBinOp::BitOr),
            BinOp::BitXOR => Some(MetaBinOp::BitXOR),
            BinOp::BitSHL => Some(MetaBinOp::BitSHL),
            BinOp::BitSHR => Some(MetaBinOp::BitSHR),
            BinOp::DivFloor => None,
        }
    }

    pub(crate) fn lower_unop(&self, op: &UnOp) -> (res: MetaUnOp)
        ensures
            res == unop_spec(*op),
    {
        match op {
            UnOp::Neg => MetaUnOp::Neg,
            UnOp::Not => MetaUnOp::Not,
            UnOp::Ref => MetaUnOp::Ref,
            UnOp::Deref => MetaUnOp::Deref,
            UnOp::BitNot => MetaUnOp::BitNot,
        }
    }
}

} // verus!
