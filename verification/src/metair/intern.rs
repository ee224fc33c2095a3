//! Interning of symbols, string literals and struct fields.
use vstd::prelude::*;

use crate::metair::generator::MetaIRGen;
use crate::metair::metair::{StringId, SymbolId};
use crate::metair::semantics::{
    fields_of, intern_string_spec, intern_struct_field_spec, intern_symbol_spec,
};
use crate::symbol_map::{strings_view, SymbolMap};

verus! {

broadcast use vstd::string::group_string_axioms;

impl<'a> MetaIRGen<'a> {
    /// Whether `sym` is in the symbol list.
    fn has_symbol(&self, sym: &String) -> (res: bool)
        ensures
            res == self@.symbols.contains(sym@),
    {
        let ghost symbols = strings_view(self.symbol_list@);
        let mut i: usize = 0;
        while i < self.symbol_list.len()
            invariant
                i <= self.symbol_list@.len(),
                symbols == strings_view(self.symbol_list@),
                forall|j: int| 0 <= j < i ==> self.symbol_list@[j]@ != sym@,
            decreases self.symbol_list@.len() - i,
        {
            if self.symbol_list[i] == *sym {
                assert(symbols[i as int] == sym@);
                return true;
            }
            i = i + 1;
        }
        assert(!symbols.contains(sym@)) by {
            if symbols.contains(sym@) {
                let j = choose|j: int| 0 <= j < symbols.len() && symbols[j] == sym@;
                assert(self.symbol_list@[j]@ == sym@);
            }
        }
        false
    }

    /// Records `s` in the symbol list unless it is there, and returns it.
    pub fn intern_symbol(&mut self, s: &str) -> (res: SymbolId)
        ensures
            final(self)@ == intern_symbol_spec(old(self)@, s@),
            res@ == s@,
    {
        let sym = s.to_string();
        let ghost symbols = strings_view(self.symbol_list@);
        let found = self.has_symbol(&sym);
        if !found {
            self.symbol_list.push(sym.clone());
            assert(strings_view(self.symbol_list@) =~= symbols.push(s@));
        }
        sym
    }

    /// The index of a field of a struct, assigning the next free index to a
    /// field not seen before; while an index is free.
    pub fn intern_struct_field(&mut self, struct_id: SymbolId, field_name: &str) -> (res: u32)
        requires
            intern_struct_field_spec(old(self)@, struct_id@, field_name@) is Some,
        ensures
            intern_struct_field_spec(old(self)@, struct_id@, field_name@) == Some((final(self)@, res)),
    {
        self.try_intern_struct_field(struct_id, field_name).unwrap()
    }

    /// The index of a field of a struct, as `intern_struct_field` gives it,
    /// or `None` where every index is taken; the generator is then unchanged.
    pub fn try_intern_struct_field(&mut self, struct_id: SymbolId, field_name: &str) -> (res: Option<u32>)
        ensures
            match res {
                Some(id) => intern_struct_field_spec(old(self)@, struct_id@, field_name@) == Some(
                    (final(self)@, id),
                ),
                None => intern_struct_field_spec(old(self)@, struct_id@, field_name@) is None
                    && final(self)@ == old(self)@,
            },
    {
        let ghost g = self@;
        let mut existed = false;
        let mut fields = match self.struct_fields.remove(struct_id.as_str()) {
            Some(fields) => {
                existed = true;
                fields
            },
            None => SymbolMap::new(),
        };
        assert(existed == g.struct_fields.dom().contains(struct_id@));
        assert(fields@ == fields_of(g, struct_id@));
        match fields.get(field_name) {
            Some(id) => {
                let id = *id;
                self.struct_fields.insert(struct_id, fields);
                assert(self@.struct_fields =~= g.struct_fields);
                return Some(id);
            },
            None => {},
        }
        if self.next_struct_field == u32::MAX {
            if existed {
                self.struct_fields.insert(struct_id, fields);
                assert(self@.struct_fields =~= g.struct_fields);
            } else {
                assert(self@.struct_fields =~= g.struct_fields);
            }
            return None;
        }
        let id = self.next_struct_field;
        self.next_struct_field = self.next_struct_field + 1;
        fields.insert(field_name.to_string(), id);
        self.struct_fields.insert(struct_id, fields);
        assert(self@.struct_fields =~= g.struct_fields.insert(
            struct_id@,
            fields_of(g, struct_id@).insert(field_name@, id),
        ));
        Some(id)
    }

    /// The id of a string literal, assigning the next id to a string not
    /// seen before; while an id is free.
    pub fn intern_string(&mut self, s: &str) -> (res: StringId)
        requires
            intern_string_spec(old(self)@, s@) is Some,
        ensures
            intern_string_spec(old(self)@, s@) == Some((final(self)@, res)),
    {
        self.try_intern_string(s).unwrap()
    }

    /// The id of a string literal, as `intern_string` gives it, adding a
    /// new string to the string list; `None` where every id is taken, the
    /// generator then unchanged.
    pub fn try_intern_string(&mut self, s: &str) -> (res: Option<StringId>)
        ensures
            match res {
                Some(id) => intern_string_spec(old(self)@, s@) == Some((final(self)@, id)),
                None => intern_string_spec(old(self)@, s@) is None && final(self)@ == old(self)@,
            },
    {
        match self.strings.get(s) {
            Some(id) => {
                return Some(*id);
            },
            None => {},
        }
        if self.next_string == u32::MAX {
            return None;
        }
        let ghost old_list = strings_view(self.string_list@);
        let id = self.next_string;
        self.next_string = self.next_string + 1;
        self.strings.insert(s.to_string(), id);
        self.string_list.push(s.to_string());
        assert(strings_view(self.string_list@) =~= old_list.push(s@));
        Some(id)
    }
}

} // verus!
