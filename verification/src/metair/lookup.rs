//! Lookup of the program's functions.
use vstd::prelude::*;

use crate::ast::{Function, Item, Program};
use crate::metair::generator::MetaIRGen;
use crate::metair::semantics::find_function_spec;

verus! {

impl<'a> MetaIRGen<'a> {
    /// The first function of the program named `name`.
    pub(crate) fn find_function(&self, name: &String) -> (res: Option<&'a Function>)
        ensures
            match res {
                Some(f) => find_function_spec(self@.program.items@, name@) == Some(*f),
                None => find_function_spec(self@.program.items@, name@) is None,
            },
    {
        let program: &'a Program = self.program;
        let ghost items = program.items@;
        let mut i: usize = 0;
        assert(items.subrange(0, items.len() as int) =~= items);
        while i < program.items.len()
            invariant
                i <= items.len(),
                items == program.items@,
                items == self@.program.items@,
                find_function_spec(items, name@) == find_function_spec(
                    items.subrange(i as int, items.len() as int),
                    name@,
                ),
            decreases items.len() - i,
        {
            let ghost rest = items.subrange(i as int, items.len() as int);
            assert(rest[0] == items[i as int]);
            match &program.items[i] {
                Item::Function(f, _) => {
                    if f.name == *name {
                        assert(find_function_spec(rest, name@) == Some(*f));
                        return Some(f);
                    }
                },
                _ => {},
            }
            assert(rest.subrange(1, rest.len() as int) =~= items.subrange(i + 1, items.len() as int));
            i = i + 1;
        }
        None
    }
}

} // verus!
