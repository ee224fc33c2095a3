//! Equality of meta types. Spans are ignored; a unit type equals no type,
//! not even another unit type.
use vstd::prelude::*;

use crate::metair::metair::{MetaType, TypeV};

verus! {

/// When two types are equal: named types by name, pointers and references
/// by what they point to, arrays by element type and size.
pub open spec fn type_eq(a: TypeV, b: TypeV) -> bool
    decreases a,
{
    match (a, b) {
        (TypeV::Named(x, _), TypeV::Named(y, _)) => x == y,
        (TypeV::Pointer(x, _), TypeV::Pointer(y, _)) => type_eq(*x, *y),
        (TypeV::Reference(x, _), TypeV::Reference(y, _)) => type_eq(*x, *y),
        (TypeV::Array { elem: x, size: sx, .. }, TypeV::Array { elem: y, size: sy, .. }) => type_eq(
            *x,
            *y,
        ) && sx == sy,
        _ => false,
    }
}

/// A type with no unit type inside it.
pub open spec fn unit_free(t: TypeV) -> bool
    decreases t,
{
    match t {
        TypeV::Named(..) => true,
        TypeV::Pointer(x, _) => unit_free(*x),
        TypeV::Reference(x, _) => unit_free(*x),
        TypeV::Array { elem, .. } => unit_free(*elem),
        TypeV::Unit(_) => false,
    }
}

/// Type equality is symmetric.
pub proof fn lemma_type_eq_symmetric(a: TypeV, b: TypeV)
    ensures
        type_eq(a, b) == type_eq(b, a),
    decreases a,
{
    match (a, b) {
        (TypeV::Pointer(x, _), TypeV::Pointer(y, _)) => lemma_type_eq_symmetric(*x, *y),
        (TypeV::Reference(x, _), TypeV::Reference(y, _)) => lemma_type_eq_symmetric(*x, *y),
        (TypeV::Array { elem: x, .. }, TypeV::Array { elem: y, .. }) => lemma_type_eq_symmetric(
            *x,
            *y,
        ),
        _ => {},
    }
}

/// Type equality is transitive.
pub proof fn lemma_type_eq_transitive(a: TypeV, b: TypeV, c: TypeV)
    requires
        type_eq(a, b),
        type_eq(b, c),
    ensures
        type_eq(a, c),
    decreases a,
{
    match (a, b, c) {
        (TypeV::Pointer(x, _), TypeV::Pointer(y, _), TypeV::Pointer(z, _)) => {
            lemma_type_eq_transitive(*x, *y, *z)
        },
        (TypeV::Reference(x, _), TypeV::Reference(y, _), TypeV::Reference(z, _)) => {
            lemma_type_eq_transitive(*x, *y, *z)
        },
        (
            TypeV::Array { elem: x, .. },
            TypeV::Array { elem: y, .. },
            TypeV::Array { elem: z, .. },
        ) => lemma_type_eq_transitive(*x, *y, *z),
        _ => {},
    }
}

/// Every type without a unit type inside equals itself; a type with one
/// does not.
pub proof fn lemma_type_eq_reflexive(a: TypeV)
    ensures
        type_eq(a, a) == unit_free(a),
    decreases a,
{
    match a {
        TypeV::Pointer(x, _) => lemma_type_eq_reflexive(*x),
        TypeV::Reference(x, _) => lemma_type_eq_reflexive(*x),
        TypeV::Array { elem, .. } => lemma_type_eq_reflexive(*elem),
        _ => {},
    }
}

/// Whether two meta types are equal, as `type_eq` says.
pub fn types_equal(a: &MetaType, b: &MetaType) -> (res: bool)
    ensures
        res == type_eq(a@, b@),
    decreases a,
{
    match (a, b) {
        (MetaType::Named(x, _), MetaType::Named(y, _)) => *x == *y,
        (MetaType::Pointer(x, _), MetaType::Pointer(y, _)) => types_equal(x, y),
        (MetaType::Reference(x, _), MetaType::Reference(y, _)) => types_equal(x, y),
        (
            MetaType::Array { elem: x, size: sx, .. },
            MetaType::Array { elem: y, size: sy, .. },
        ) => {
            if *sx != *sy {
                false
            } else {
                types_equal(x, y)
            }
        },
        _ => false,
    }
}

impl PartialEq for MetaType {
    fn eq(&self, other: &Self) -> (res: bool) {
        types_equal(self, other)
    }
}

impl vstd::std_specs::cmp::PartialEqSpecImpl for MetaType {
    open spec fn obeys_eq_spec() -> bool {
        true
    }

    open spec fn eq_spec(&self, other: &MetaType) -> bool {
        type_eq(self@, other@)
    }
}

} // verus!
