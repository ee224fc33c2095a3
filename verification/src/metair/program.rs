//! Lowering of whole programs and of their items.
use vstd::prelude::*;

use crate::ast::{Declaration, Function, Item, Param, Program, StructDef, StructField};
use crate::metair::copy::{clone_opt_type, clone_params, clone_type};
use crate::metair::generator::{GenState, MetaIRGen};
use crate::metair::metair::{
    params_view, FieldV, MetaDeclaration, MetaField, MetaFunction,
    MetaParam, MetaProgram, MetaStruct, ParamV,
};
use crate::metair::prefix::{
    lemma_lower_fields_prefix, lemma_lower_items_prefix, lemma_lower_params_prefix,
};
use crate::metair::semantics::{
    field_indices_in_range, fields_by_index, lower_declaration_spec, lower_fields_spec,
    lower_function_spec, lower_items_spec, lower_params_spec, lower_program_spec,
    lower_struct_spec,
};
use crate::symbol_map::{clone_strings, strings_view, SymbolMap};

verus! {

broadcast use vstd::string::group_string_axioms;

/// The views of the fields of a struct.
pub open spec fn fields_view(v: Seq<MetaField>) -> Seq<FieldV> {
    Seq::new(v.len(), |i: int| v[i]@)
}

/// What lowering a program gives, as `lower_program_spec` says, and the
/// struct field table listing each struct's fields by index.
pub open spec fn lowered_program(old_state: GenState, program: Program, new_state: GenState, res: MetaProgram) -> bool {
    match lower_program_spec(old_state, program) {
        Some((g, fs, ds)) => {
            &&& new_state == g
            &&& res.span == program.span
            &&& res.functions@ == fs
            &&& res.declarations@ == ds
            &&& res.structs@ == g.structs
            &&& strings_view(res.string_table@) == g.string_list
            &&& strings_view(res.symbol_table@) == g.symbols
            &&& res.struct_fields@.dom() == g.struct_fields.dom()
            &&& forall|st: Seq<char>|
                #[trigger] res.struct_fields@.dom().contains(st) ==> fields_by_index(
                    g.struct_fields[st],
                    strings_view(res.struct_fields@[st]),
                )
        },
        None => false,
    }
}

/// The names of a struct's fields, listed by index.
fn fields_in_order(fields: &SymbolMap<u32>) -> (res: Vec<String>)
    requires
        forall|f: Seq<char>| #[trigger] fields@.dom().contains(f) ==> fields@[f] < fields@.dom().len(),
    ensures
        fields_by_index(fields@, strings_view(res@)),
{
    proof {
        use_type_invariant(fields);
        fields.lemma_entries();
    }
    let n = fields.len();
    let mut ordered: Vec<String> = Vec::new();
    for i in 0..n
        invariant
            ordered@.len() == i,
            forall|k: int| 0 <= k < i ==> (#[trigger] ordered@[k])@ == Seq::<char>::empty(),
    {
        ordered.push(String::new());
    }
    let ghost keys = fields.key_seq();
    let ghost vals = fields.value_seq();
    for j in 0..n
        invariant
            n == fields.spec_len(),
            keys == fields.key_seq(),
            vals == fields.value_seq(),
            keys.len() == n,
            vals.len() == n,
            ordered@.len() == n,
            forall|k: int| 0 <= k < n ==> #[trigger] fields@[keys[k]] == vals[k],
            forall|k: int| 0 <= k < n ==> #[trigger] fields@.dom().contains(keys[k]),
            forall|f: Seq<char>| #[trigger] fields@.dom().contains(f) ==> fields@[f] < n,
            forall|i: int|
                0 <= i < n ==> {
                    ||| ((#[trigger] ordered@[i])@ == Seq::<char>::empty() && forall|k: int|
                        0 <= k < j ==> vals[k] != i)
                    ||| exists|k: int| 0 <= k < j && vals[k] == i && ordered@[i]@ == keys[k]
                },
    {
        let key = fields.key_at(j);
        let idx = *fields.value_at(j);
        assert(idx == vals[j as int]);
        assert(fields@.dom().contains(keys[j as int]));
        let ghost before = ordered@;
        ordered.set(idx as usize, key.clone());
        assert forall|i: int| 0 <= i < n implies {
            ||| ((#[trigger] ordered@[i])@ == Seq::<char>::empty() && forall|k: int|
                0 <= k < j + 1 ==> vals[k] != i)
            ||| exists|k: int| 0 <= k < j + 1 && vals[k] == i && ordered@[i]@ == keys[k]
        } by {
            if i == idx {
                assert(vals[j as int] == i && ordered@[i]@ == keys[j as int]);
            } else {
                assert(ordered@[i] == before[i]);
            }
        }
    }
    proof {
        assert forall|i: int| 0 <= i < n implies {
            if exists|f: Seq<char>| fields@.dom().contains(f) && fields@[f] == i {
                fields@.dom().contains(#[trigger] strings_view(ordered@)[i]) && fields@[strings_view(ordered@)[i]] == i
            } else {
                strings_view(ordered@)[i] == Seq::<char>::empty()
            }
        } by {
            if exists|f: Seq<char>| fields@.dom().contains(f) && fields@[f] == i {
                let f = choose|f: Seq<char>| fields@.dom().contains(f) && fields@[f] == i;
                let k = choose|k: int| 0 <= k < n && keys[k] == f;
                assert(vals[k] == i);
                let k2 = choose|k: int| 0 <= k < n && vals[k] == i && ordered@[i]@ == keys[k];
                assert(fields@[keys[k2]] == vals[k2]);
            } else {
                if exists|k: int| 0 <= k < n && vals[k] == i && ordered@[i]@ == keys[k] {
                    let k = choose|k: int| 0 <= k < n && vals[k] == i && ordered@[i]@ == keys[k];
                    assert(fields@.dom().contains(keys[k]) && fields@[keys[k]] == i);
                }
            }
        }
    }
    ordered
}

impl<'a> MetaIRGen<'a> {
    /// Lowers a program: its functions, structs and declarations in order
    /// (see `lower_program_spec`), then lists the fields of each struct by
    /// index.
    pub fn lower_program(&mut self, program: &'a Program) -> (res: MetaProgram)
        requires
            lower_program_spec(old(self)@, *program) is Some,
        ensures
            lowered_program(old(self)@, *program, final(self)@, res),
    {
        self.try_lower_program(program).unwrap()
    }

    /// Lowers a program, or gives `None` where lowering it fails: an
    /// unknown variable or function, operands whose types cannot be made
    /// to agree, a value that cannot take its declared type, floor
    /// division, or a field index outside its struct.
    #[verifier::rlimit(60)]
    pub fn try_lower_program(&mut self, program: &'a Program) -> (res: Option<MetaProgram>)
        ensures
            match res {
                Some(p) => lowered_program(old(self)@, *program, final(self)@, p),
                None => lower_program_spec(old(self)@, *program) is None,
            },
    {
        self.program = program;
        let ghost g0 = self@;
        assert(g0 == (GenState { program: *program, ..old(self)@ }));
        let mut functions: SymbolMap<MetaFunction> = SymbolMap::new();
        let mut declarations: SymbolMap<MetaDeclaration> = SymbolMap::new();
        let items = &program.items;
        assert(items@.subrange(0, 0) =~= Seq::<Item>::empty());
        for i in 0..items.len()
            invariant
                g0.program == *program,
                items@ == program.items@,
                g0 == (GenState { program: *program, ..old(self)@ }),
                lower_items_spec(g0, items@.subrange(0, i as int)) == Some((self@, functions@, declarations@)),
        {
            proof {
                assert(items@.subrange(0, i + 1).subrange(0, i as int) =~= items@.subrange(0, i as int));
                if lower_items_spec(g0, items@) is Some {
                    lemma_lower_items_prefix(g0, items@, i + 1);
                }
            }
            match &items[i] {
                Item::Function(function, _) => {
                    match self.lower_function(function) {
                        Some(f) => {
                            functions.insert(function.name.clone(), f);
                        },
                        None => {
                            return None;
                        },
                    }
                },
                Item::Struct(struct_def, _) => {
                    match self.lower_struct(struct_def) {
                        Some(meta) => {
                            self.structs.insert(meta.name.clone(), meta);
                        },
                        None => {
                            return None;
                        },
                    }
                },
                Item::Declaration(decl, _) => {
                    match self.lower_declaration(decl) {
                        Some(d) => {
                            declarations.insert(decl.name.clone(), d);
                        },
                        None => {
                            return None;
                        },
                    }
                },
                Item::Import(_, _) => {},
            }
        }
        assert(items@.subrange(0, items@.len() as int) =~= items@);
        let ghost g1 = self@;
        assert(lower_items_spec(g0, items@) == Some((g1, functions@, declarations@)));
        if !self.field_indices_ok() {
            return None;
        }
        let struct_fields = self.struct_field_table();
        let string_table = clone_strings(&self.string_list);
        let symbol_table = clone_strings(&self.symbol_list);
        assert(strings_view(string_table@) =~= g1.string_list);
        assert(strings_view(symbol_table@) =~= g1.symbols);
        Some(
            MetaProgram {
                span: program.span,
                functions,
                structs: self.structs.deep_copy(),
                declarations,
                string_table,
                symbol_table,
                struct_fields,
            },
        )
    }

    /// Whether every field index of every struct is below the number of
    /// fields of that struct.
    fn field_indices_ok(&self) -> (res: bool)
        ensures
            res == field_indices_in_range(self@.struct_fields),
    {
        let sf = &self.struct_fields;
        proof {
            use_type_invariant(sf);
            sf.lemma_entries();
        }
        let ghost keys = sf.key_seq();
        let n = sf.len();
        for j in 0..n
            invariant
                n == sf.spec_len(),
                keys == sf.key_seq(),
                keys.len() == n,
                sf@ == self@.struct_fields,
                forall|k: int| 0 <= k < n ==> #[trigger] sf@.dom().contains(keys[k]),
                forall|st: Seq<char>| #[trigger] sf@.dom().contains(st) ==> exists|k: int| 0 <= k < n && keys[k] == st,
                forall|k: int, f: Seq<char>|
                    0 <= k < j && #[trigger] sf@[keys[k]].dom().contains(f) ==> sf@[keys[k]][f]
                        < sf@[keys[k]].dom().len(),
        {
            let fields = sf.value_at(j);
            proof {
                use_type_invariant(fields);
                fields.lemma_entries();
            }
            let m = fields.len();
            for i in 0..m
                invariant
                    j < n,
                    n == sf.spec_len(),
                    keys == sf.key_seq(),
                    keys.len() == n,
                    sf@ == self@.struct_fields,
                    sf@.dom().contains(keys[j as int]),
                    m == fields.spec_len(),
                    m == fields@.dom().len(),
                    fields@ == sf@[keys[j as int]],
                    forall|t: int| 0 <= t < m ==> #[trigger] fields@.dom().contains(fields.key_seq()[t]),
                    forall|f: Seq<char>| #[trigger] fields@.dom().contains(f) ==> exists|t: int| 0 <= t < m && fields.key_seq()[t] == f,
                    forall|t: int| 0 <= t < i ==> #[trigger] fields@[fields.key_seq()[t]] < m,
            {
                let v = *fields.value_at(i);
                if (v as usize) >= m {
                    assert(sf@.dom().contains(keys[j as int]));
                    assert(fields@.dom().contains(fields.key_seq()[i as int]));
                    return false;
                }
            }
            assert forall|f: Seq<char>| #[trigger] sf@[keys[j as int]].dom().contains(f) implies sf@[keys[j as int]][f]
                < sf@[keys[j as int]].dom().len() by {
                let t = choose|t: int| 0 <= t < m && fields.key_seq()[t] == f;
                assert(fields@[fields.key_seq()[t]] < m);
            }
        }
        assert forall|st: Seq<char>, f: Seq<char>|
            #[trigger] sf@.dom().contains(st) && #[trigger] sf@[st].dom().contains(f) implies sf@[st][f]
                < sf@[st].dom().len() by {
            let k = choose|k: int| 0 <= k < n && keys[k] == st;
            assert(sf@[keys[k]].dom().contains(f));
        }
        true
    }

    /// The field names of each struct, listed by index.
    fn struct_field_table(&self) -> (res: SymbolMap<Vec<String>>)
        requires
            field_indices_in_range(self@.struct_fields),
        ensures
            res@.dom() == self@.struct_fields.dom(),
            forall|st: Seq<char>|
                #[trigger] res@.dom().contains(st) ==> fields_by_index(
                    self@.struct_fields[st],
                    strings_view(res@[st]),
                ),
    {
        let sf = &self.struct_fields;
        proof {
            use_type_invariant(sf);
            sf.lemma_entries();
        }
        let ghost keys = sf.key_seq();
        let mut table: SymbolMap<Vec<String>> = SymbolMap::new();
        let n = sf.len();
        for j in 0..n
            invariant
                n == sf.spec_len(),
                keys == sf.key_seq(),
                keys.len() == sf.spec_len(),
                sf@ == self@.struct_fields,
                field_indices_in_range(sf@),
                forall|k: int| 0 <= k < keys.len() ==> #[trigger] sf@.dom().contains(keys[k]),
                forall|k: int| 0 <= k < keys.len() ==> #[trigger] sf@[keys[k]] == sf.value_seq()[k]@,
                forall|st: Seq<char>| #[trigger] table@.dom().contains(st) <==> exists|k: int| 0 <= k < j && keys[k] == st,
                forall|st: Seq<char>|
                    #[trigger] table@.dom().contains(st) ==> fields_by_index(sf@[st], strings_view(table@[st])),
        {
            let st = sf.key_at(j);
            let fields = sf.value_at(j);
            assert(sf@.dom().contains(keys[j as int]));
            assert forall|f: Seq<char>| #[trigger] fields@.dom().contains(f) implies fields@[f] < fields@.dom().len() by {
                assert(sf@.dom().contains(keys[j as int]) && sf@[keys[j as int]].dom().contains(f));
            }
            let ordered = fields_in_order(fields);
            let ghost before = table@;
            table.insert(st.clone(), ordered);
            assert forall|s2: Seq<char>| #[trigger] table@.dom().contains(s2) <==> exists|k: int| 0 <= k < j + 1 && keys[k] == s2 by {
                if table@.dom().contains(s2) && s2 != keys[j as int] {
                    assert(before.dom().contains(s2));
                }
                if exists|k: int| 0 <= k < j + 1 && keys[k] == s2 {
                    let k = choose|k: int| 0 <= k < j + 1 && keys[k] == s2;
                    if k < j {
                        assert(before.dom().contains(s2));
                    }
                }
            }
        }
        proof {
            assert forall|st: Seq<char>| #[trigger] table@.dom().contains(st) <==> sf@.dom().contains(st) by {
                if sf@.dom().contains(st) {
                    let k = choose|k: int| 0 <= k < sf.spec_len() && sf.key_seq()[k] == st;
                    assert(keys[k] == st);
                }
            }
            assert(table@.dom() =~= sf@.dom());
        }
        table
    }

    fn lower_params(&mut self, params: &Vec<Param>) -> (res: Option<Vec<MetaParam>>)
        ensures
            match res {
                Some(r) => lower_params_spec(old(self)@, params@) == Some((final(self)@, params_view(r@))),
                None => lower_params_spec(old(self)@, params@) is None,
            },
    {
        let ghost g0 = self@;
        let mut res: Vec<MetaParam> = Vec::new();
        assert(params@.subrange(0, 0) =~= Seq::<Param>::empty());
        assert(params_view(res@) =~= Seq::<ParamV>::empty());
        for i in 0..params.len()
            invariant
                g0 == old(self)@,
                lower_params_spec(g0, params@.subrange(0, i as int)) == Some((self@, params_view(res@))),
        {
            proof {
                assert(params@.subrange(0, i + 1).subrange(0, i as int) =~= params@.subrange(0, i as int));
                if lower_params_spec(g0, params@) is Some {
                    lemma_lower_params_prefix(g0, params@, i + 1);
                }
            }
            let param = &params[i];
            let ty = self.lower_type(&param.ty);
            if self.locals.len() == 0 {
                return None;
            }
            self.insert_local(param.name.clone(), clone_type(&ty));
            let p = MetaParam { span: param.span, name: param.name.clone(), ty };
            let ghost before = params_view(res@);
            res.push(p);
            assert(params_view(res@) =~= before.push(p@));
        }
        assert(params@.subrange(0, params@.len() as int) =~= params@);
        Some(res)
    }

    fn lower_function(&mut self, function: &Function) -> (res: Option<MetaFunction>)
        ensures
            match res {
                Some(f) => lower_function_spec(old(self)@, *function) == Some((final(self)@, f@)),
                None => lower_function_spec(old(self)@, *function) is None,
            },
    {
        self.push_scope();
        let name = self.intern_symbol(function.name.as_str());
        let params = match self.lower_params(&function.params) {
            Some(p) => p,
            None => {
                return None;
            },
        };
        let ret = match &function.return_type {
            Some(t) => Some(self.lower_type(t)),
            None => None,
        };
        self.declarations.insert(
            name.clone(),
            MetaDeclaration {
                span: function.span,
                name: name.clone(),
                params: clone_params(&params),
                ret: clone_opt_type(&ret),
            },
        );
        let (body, locals) = match self.lower_block(&function.body) {
            Some(r) => r,
            None => {
                return None;
            },
        };
        self.pop_scope();
        Some(MetaFunction { span: function.span, name, locals, params, ret, body })
    }

    fn lower_declaration(&mut self, declaration: &Declaration) -> (res: Option<MetaDeclaration>)
        ensures
            match res {
                Some(d) => lower_declaration_spec(old(self)@, *declaration) == Some((final(self)@, d@)),
                None => lower_declaration_spec(old(self)@, *declaration) is None,
            },
    {
        self.push_scope();
        let name = self.intern_symbol(declaration.name.as_str());
        let params = match self.lower_params(&declaration.params) {
            Some(p) => p,
            None => {
                return None;
            },
        };
        self.pop_scope();
        let ret = match &declaration.return_type {
            Some(t) => Some(self.lower_type(t)),
            None => None,
        };
        let meta = MetaDeclaration { span: declaration.span, name: name.clone(), params, ret };
        let copy = MetaDeclaration {
            span: meta.span,
            name: meta.name.clone(),
            params: clone_params(&meta.params),
            ret: clone_opt_type(&meta.ret),
        };
        self.declarations.insert(name, copy);
        Some(meta)
    }

    fn lower_fields(&mut self, name: &String, fields: &Vec<StructField>) -> (res: Option<Vec<MetaField>>)
        ensures
            match res {
                Some(r) => lower_fields_spec(old(self)@, name@, fields@) == Some((final(self)@, fields_view(r@))),
                None => lower_fields_spec(old(self)@, name@, fields@) is None,
            },
    {
        let ghost g0 = self@;
        let mut res: Vec<MetaField> = Vec::new();
        assert(fields@.subrange(0, 0) =~= Seq::<StructField>::empty());
        assert(fields_view(res@) =~= Seq::<FieldV>::empty());
        for i in 0..fields.len()
            invariant
                g0 == old(self)@,
                lower_fields_spec(g0, name@, fields@.subrange(0, i as int)) == Some((self@, fields_view(res@))),
        {
            proof {
                assert(fields@.subrange(0, i + 1).subrange(0, i as int) =~= fields@.subrange(0, i as int));
                if lower_fields_spec(g0, name@, fields@) is Some {
                    lemma_lower_fields_prefix(g0, name@, fields@, i + 1);
                }
            }
            let field = &fields[i];
            let index = match self.try_intern_struct_field(name.clone(), field.name.as_str()) {
                Some(index) => index,
                None => {
                    return None;
                },
            };
            let ty = self.lower_type(&field.ty);
            let f = MetaField { span: field.span, name: field.name.clone(), index, ty };
            let ghost before = fields_view(res@);
            res.push(f);
            assert(fields_view(res@) =~= before.push(f@));
        }
        assert(fields@.subrange(0, fields@.len() as int) =~= fields@);
        Some(res)
    }

    fn lower_struct(&mut self, strukt: &StructDef) -> (res: Option<MetaStruct>)
        ensures
            match res {
                Some(st) => lower_struct_spec(old(self)@, *strukt) == Some((final(self)@, st@)),
                None => lower_struct_spec(old(self)@, *strukt) is None,
            },
    {
        let name = self.intern_symbol(strukt.name.as_str());
        let fields = match self.lower_fields(&strukt.name, &strukt.fields) {
            Some(f) => f,
            None => {
                return None;
            },
        };
        let meta = MetaStruct { span: strukt.span, name, fields };
        assert(meta@.fields =~= fields_view(meta.fields@));
        // Field indices are local to each struct.
        self.next_struct_field = 0;
        Some(meta)
    }
}

} // verus!
