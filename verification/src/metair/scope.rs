//! Scopes of local variables.
use vstd::prelude::*;

use crate::metair::generator::{scopes_view, MetaIRGen};
use crate::metair::metair::{MetaType, SymbolId};
use crate::metair::semantics::{
    insert_local_spec, lookup_local_spec, pop_scope_spec, push_scope_spec,
};
use crate::symbol_map::{DeepClone, SymbolMap};

verus! {

impl<'a> MetaIRGen<'a> {
    /// Opens a new innermost scope.
    pub fn push_scope(&mut self)
        ensures
            final(self)@ == push_scope_spec(old(self)@),
    {
        let ghost old_scopes = scopes_view(self.locals@);
        self.locals.push(SymbolMap::new());
        assert(scopes_view(self.locals@) =~= old_scopes.push(Map::empty()));
    }

    /// Closes the innermost scope, if there is one.
    pub fn pop_scope(&mut self)
        ensures
            final(self)@ == pop_scope_spec(old(self)@),
    {
        self.pop_scope_map();
    }

    /// Closes the innermost scope and returns it.
    pub(crate) fn pop_scope_map(&mut self) -> (res: Option<SymbolMap<MetaType>>)
        ensures
            final(self)@ == pop_scope_spec(old(self)@),
            match res {
                Some(m) => old(self)@.locals.len() > 0 && m@ == old(self)@.locals.last(),
                None => old(self)@.locals.len() == 0,
            },
    {
        let ghost old_scopes = scopes_view(self.locals@);
        let res = self.locals.pop();
        if res.is_some() {
            assert(scopes_view(self.locals@) =~= old_scopes.drop_last());
        }
        res
    }

    /// Adds a local variable of type `ty` to the innermost scope.
    pub fn insert_local(&mut self, id: SymbolId, ty: MetaType)
        requires
            old(self)@.locals.len() > 0,
        ensures
            insert_local_spec(old(self)@, id@, ty@) == Some(final(self)@),
    {
        let ghost old_scopes = scopes_view(self.locals@);
        let mut scope = self.locals.pop().unwrap();
        let ghost n = old_scopes.len() - 1;
        assert(scope@ == old_scopes[n]);
        scope.insert(id, ty);
        self.locals.push(scope);
        assert(scopes_view(self.locals@) =~= old_scopes.update(n, old_scopes[n].insert(id@, ty@)));
    }

    /// The type of a local variable, from the innermost scope that has it.
    pub fn lookup_local(&self, id: SymbolId) -> (res: MetaType)
        requires
            lookup_local_spec(self@.locals, id@) is Some,
        ensures
            lookup_local_spec(self@.locals, id@) == Some(res@),
    {
        self.lookup_local_type(id)
    }

    /// The type of a local variable, from the innermost scope that has it.
    pub fn lookup_local_type(&self, id: SymbolId) -> (res: MetaType)
        requires
            lookup_local_spec(self@.locals, id@) is Some,
        ensures
            lookup_local_spec(self@.locals, id@) == Some(res@),
    {
        self.find_local(&id).unwrap()
    }

    /// The type of a local variable, from the innermost scope that has it,
    /// or `None` where no scope has it.
    pub fn find_local(&self, id: &SymbolId) -> (res: Option<MetaType>)
        ensures
            match res {
                Some(t) => lookup_local_spec(self@.locals, id@) == Some(t@),
                None => lookup_local_spec(self@.locals, id@) is None,
            },
    {
        let ghost scopes = scopes_view(self.locals@);
        let mut i = self.locals.len();
        assert(scopes.subrange(0, i as int) =~= scopes);
        while i > 0
            invariant
                i <= scopes.len(),
                scopes == scopes_view(self.locals@),
                lookup_local_spec(scopes, id@) == lookup_local_spec(scopes.subrange(0, i as int), id@),
            decreases i,
        {
            let ghost prefix = scopes.subrange(0, i as int);
            assert(prefix[i - 1] == self.locals@[i - 1]@);
            match self.locals[i - 1].get(id.as_str()) {
                Some(ty) => {
                    return Some(ty.deep_clone());
                },
                None => {},
            }
            assert(prefix.subrange(0, i - 1) =~= scopes.subrange(0, i - 1));
            i = i - 1;
        }
        None
    }
}

} // verus!
