//! The state of the meta IR generator.
use vstd::prelude::*;

use crate::ast::{Program, Type};
use crate::metair::metair::{
    DeclV, MetaDeclaration, MetaProgram, MetaStruct, MetaType, StringId, StructV, TypeV,
};
use crate::symbol_map::{strings_view, SymbolMap};

verus! {

pub struct MetaIRGen<'a> {
    pub program: &'a Program,
    pub source_code: String,
    pub source_file_name: String,
    /// struct name => field name => field index
    pub struct_fields: SymbolMap<SymbolMap<u32>>,
    pub strings: SymbolMap<StringId>,
    pub declarations: SymbolMap<MetaDeclaration>,
    pub symbol_list: Vec<String>,
    pub string_list: Vec<String>,
    pub locals: Vec<SymbolMap<MetaType>>,
    pub structs: SymbolMap<MetaStruct>,
    /// Return types of the functions that the runtime provides.
    pub builtins: SymbolMap<Type>,
    pub next_string: u32,
    pub next_struct_field: u32,
}

/// The view of the generator: its tables, with names as character
/// sequences.
pub struct GenState {
    pub program: Program,
    pub source_code: Seq<char>,
    pub source_file_name: Seq<char>,
    pub builtins: Map<Seq<char>, Type>,
    pub symbols: Seq<Seq<char>>,
    pub strings: Map<Seq<char>, u32>,
    pub string_list: Seq<Seq<char>>,
    pub next_string: u32,
    pub struct_fields: Map<Seq<char>, Map<Seq<char>, u32>>,
    pub next_struct_field: u32,
    pub declarations: Map<Seq<char>, DeclV>,
    pub locals: Seq<Map<Seq<char>, TypeV>>,
    pub structs: Map<Seq<char>, StructV>,
}

/// The views of the scopes of local variables, innermost last.
pub open spec fn scopes_view(v: Seq<SymbolMap<MetaType>>) -> Seq<Map<Seq<char>, TypeV>> {
    Seq::new(v.len(), |i: int| v[i]@)
}

impl<'a> View for MetaIRGen<'a> {
    type V = GenState;

    open spec fn view(&self) -> GenState {
        GenState {
            program: *self.program,
            source_code: self.source_code@,
            source_file_name: self.source_file_name@,
            builtins: self.builtins@,
            symbols: strings_view(self.symbol_list@),
            strings: self.strings@,
            string_list: strings_view(self.string_list@),
            next_string: self.next_string,
            struct_fields: self.struct_fields@,
            next_struct_field: self.next_struct_field,
            declarations: self.declarations@,
            locals: scopes_view(self.locals@),
            structs: self.structs@,
        }
    }
}

/// The state of a generator that has just been made for a program.
pub open spec fn initial_state(program: Program, source_code: Seq<char>, source_file_name: Seq<char>) -> GenState {
    GenState {
        program,
        source_code,
        source_file_name,
        builtins: Map::empty(),
        symbols: Seq::empty(),
        strings: Map::empty(),
        string_list: Seq::empty(),
        next_string: 0,
        struct_fields: Map::empty(),
        next_struct_field: 0,
        declarations: Map::empty(),
        locals: Seq::empty(),
        structs: Map::empty(),
    }
}

impl<'a> MetaIRGen<'a> {
    pub fn new(program: &'a Program, source_code: String, source_file_name: String) -> (res: Self)
        ensures
            res@ == initial_state(*program, source_code@, source_file_name@),
    {
        let res = MetaIRGen {
            program,
            source_code,
            source_file_name,
            struct_fields: SymbolMap::new(),
            strings: SymbolMap::new(),
            declarations: SymbolMap::new(),
            symbol_list: Vec::new(),
            string_list: Vec::new(),
            locals: Vec::new(),
            structs: SymbolMap::new(),
            builtins: SymbolMap::new(),
            next_string: 0,
            next_struct_field: 0,
        };
        assert(strings_view(res.symbol_list@) =~= Seq::empty());
        assert(strings_view(res.string_list@) =~= Seq::empty());
        assert(scopes_view(res.locals@) =~= Seq::empty());
        res
    }

    /// Makes `name` a function that the runtime provides, returning `ret`.
    pub fn register_builtin(&mut self, name: String, ret: Type)
        ensures
            final(self)@ == (GenState { builtins: old(self)@.builtins.insert(name@, ret), ..old(self)@ }),
    {
        self.builtins.insert(name, ret);
    }
}

impl MetaProgram {
    pub fn get_struct(&self, name: String) -> (res: Option<&MetaStruct>)
        ensures
            match res {
                Some(s) => self.structs@.dom().contains(name@) && s@ == self.structs@[name@],
                None => !self.structs@.dom().contains(name@),
            },
    {
        self.structs.get(name.as_str())
    }
}

} // verus!
