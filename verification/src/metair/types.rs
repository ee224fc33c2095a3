//! Lowering of syntax types into meta types.
use vstd::prelude::*;

use crate::ast::Type;
use crate::metair::generator::MetaIRGen;
use crate::metair::metair::MetaType;
use crate::metair::semantics::lower_type_spec;

verus! {

impl<'a> MetaIRGen<'a> {
    /// The meta type of a syntax type; generic arguments are erased.
    pub(crate) fn lower_type(&self, ty: &Type) -> (res: MetaType)
        ensures
            res@ == lower_type_spec(*ty),
        decreases ty,
    {
        match ty {
            Type::Named(name, span) => MetaType::Named(name.clone(), *span),
            Type::Pointer(inner, span) => MetaType::Pointer(Box::new(self.lower_type(inner)), *span),
            Type::Reference(inner, span) => MetaType::Reference(
                Box::new(self.lower_type(inner)),
                *span,
            ),
            Type::Array { elem, size, span } => MetaType::Array {
                span: *span,
                elem: Box::new(self.lower_type(elem)),
                size: *size,
            },
            Type::Generic { base, span, .. } => MetaType::Named(base.clone(), *span),
        }
    }
}

} // verus!
