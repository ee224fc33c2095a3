//! Properties of the generator's operations that hold across calls.
use vstd::prelude::*;

use crate::ast::{BinOp, Expr, JunoSpan, LetStmt, Stmt, StructDef, StructField, UnOp, UnaryExpr};
use crate::metair::generator::{initial_state, GenState};
use crate::metair::metair::{ExprKindV, ExprV, FieldV, MetaUnOp, StmtV, StructV, TypeV};
use crate::metair::semantics::{
    binop_spec, coerce_all_spec, coerce_binary_spec, coerce_spec, fields_of, insert_local_spec,
    intern_string_spec, intern_struct_field_spec, intern_symbol_spec, lookup_local_spec,
    lower_expr_spec, lower_fields_spec, lower_items_spec, lower_let_spec, lower_program_spec,
    lower_stmt_spec, lower_struct_spec, lower_type_spec, pop_scope_spec, push_scope_spec,
    field_indices_in_range,
};
use crate::metair::type_eq::{lemma_type_eq_reflexive, lemma_type_eq_symmetric, type_eq, unit_free};
use crate::ast::{Item, Program};

verus! {

/// Interning a symbol twice is interning it once; the symbol is then in
/// the table, and the symbols that were there stay, in their order.
pub proof fn lemma_intern_symbol_idempotent(g: GenState, s: Seq<char>)
    ensures
        intern_symbol_spec(intern_symbol_spec(g, s), s) == intern_symbol_spec(g, s),
        intern_symbol_spec(g, s).symbols.contains(s),
        g.symbols.is_prefix_of(intern_symbol_spec(g, s).symbols),
{
    if !g.symbols.contains(s) {
        let g1 = intern_symbol_spec(g, s);
        assert(g1.symbols[g.symbols.len() as int] == s);
        assert(g.symbols.is_prefix_of(g1.symbols)) by {
            assert(g1.symbols.subrange(0, g.symbols.len() as int) =~= g.symbols);
        }
    } else {
        assert(g.symbols.is_prefix_of(g.symbols)) by {
            assert(g.symbols.subrange(0, g.symbols.len() as int) =~= g.symbols);
        }
    }
}

/// The string table agrees with the string ids: the ids given out are
/// `0 .. next_string`, the list and the map each have one entry per id, each
/// string of the list is a key of the map with its position as id, and the
/// entry at each string's id is that string.
pub open spec fn string_table_ok(g: GenState) -> bool {
    &&& g.string_list.len() == g.next_string
    &&& g.strings.dom().finite()
    &&& g.strings.dom().len() == g.next_string
    &&& forall|i: int|
        0 <= i < g.string_list.len() ==> g.strings.dom().contains(#[trigger] g.string_list[i])
            && g.strings[g.string_list[i]] == i
    &&& forall|s: Seq<char>| #[trigger]
        g.strings.dom().contains(s) ==> g.strings[s] < g.next_string && g.string_list[g.strings[s] as int]
            == s
}

/// A generator that has just been made has an agreeing string table.
pub proof fn lemma_initial_string_table_ok(program: Program, source_code: Seq<char>, source_file_name: Seq<char>)
    ensures
        string_table_ok(initial_state(program, source_code, source_file_name)),
{
}

/// Interning a string keeps the table agreeing, and the table gives the
/// string back at the id returned. A string already interned gets its id
/// again and changes nothing; a new one gets the next id, `string_list.len()`,
/// and is appended to the list. Interning it again returns the same id and
/// changes nothing, and the ids of the strings interned before stay.
pub proof fn lemma_intern_string_table(g: GenState, s: Seq<char>)
    requires
        string_table_ok(g),
        intern_string_spec(g, s) is Some,
    ensures
        intern_string_spec(g, s) matches Some((g1, id)) && {
            &&& string_table_ok(g1)
            &&& g1.string_list[id as int] == s
            &&& g.strings.dom().contains(s) ==> id == g.strings[s] && g1 == g
            &&& !g.strings.dom().contains(s) ==> id == g.string_list.len() && g1.string_list
                == g.string_list.push(s)
            &&& intern_string_spec(g1, s) == Some((g1, id))
            &&& forall|t: Seq<char>| #[trigger]
                g.strings.dom().contains(t) ==> g1.strings.dom().contains(t) && g1.strings[t]
                    == g.strings[t]
        },
{
    if !g.strings.dom().contains(s) {
        let g1 = GenState {
            strings: g.strings.insert(s, g.next_string),
            string_list: g.string_list.push(s),
            next_string: (g.next_string + 1) as u32,
            ..g
        };
        assert(g1.strings.dom() =~= g.strings.dom().insert(s));
        assert forall|t: Seq<char>| #[trigger] g1.strings.dom().contains(t) implies g1.strings[t]
            < g1.next_string && g1.string_list[g1.strings[t] as int] == t by {
            if t != s {
                assert(g.strings.dom().contains(t));
            }
        }
        assert forall|i: int| 0 <= i < g1.string_list.len() implies g1.strings.dom().contains(
            #[trigger] g1.string_list[i],
        ) && g1.strings[g1.string_list[i]] == i by {
            if i < g.string_list.len() {
                assert(g1.string_list[i] == g.string_list[i]);
                assert(g.strings.dom().contains(g.string_list[i]));
                assert(g.string_list[i] != s);
            }
        }
    }
}

/// In an agreeing table, distinct strings have distinct ids, and distinct
/// positions of the list hold distinct strings.
pub proof fn lemma_string_ids_distinct(g: GenState)
    requires
        string_table_ok(g),
    ensures
        forall|s: Seq<char>, t: Seq<char>|
            #[trigger] g.strings.dom().contains(s) && #[trigger] g.strings.dom().contains(t) && s
                != t ==> g.strings[s] != g.strings[t],
        forall|i: int, j: int|
            0 <= i < j < g.string_list.len() ==> #[trigger] g.string_list[i] != #[trigger] g.string_list[j],
{
    assert forall|i: int, j: int|
        0 <= i < j < g.string_list.len() implies #[trigger] g.string_list[i] != #[trigger] g.string_list[j] by {
        assert(g.strings[g.string_list[i]] == i);
        assert(g.strings[g.string_list[j]] == j);
    }
}

/// Two strings interned one after the other get the same id only if they
/// are equal.
pub proof fn lemma_intern_string_ids_distinct(g: GenState, s: Seq<char>, t: Seq<char>)
    requires
        string_table_ok(g),
        intern_string_spec(g, s) matches Some((g1, i1)) && intern_string_spec(g1, t) matches Some(
            (g2, i2),
        ) && i1 == i2,
    ensures
        s == t,
{
    lemma_intern_string_table(g, s);
    let (g1, i1) = intern_string_spec(g, s)->0;
    lemma_intern_string_table(g1, t);
}

/// Interning a field of a struct twice gives the same index and changes
/// nothing the second time.
pub proof fn lemma_intern_struct_field_idempotent(g: GenState, st: Seq<char>, f: Seq<char>)
    requires
        intern_struct_field_spec(g, st, f) is Some,
    ensures
        intern_struct_field_spec(g, st, f) matches Some((g1, idx)) && intern_struct_field_spec(
            g1,
            st,
            f,
        ) == Some((g1, idx)),
{
}

/// Opening a scope and closing it again leaves the generator as it was.
pub proof fn lemma_push_pop_scope(g: GenState)
    ensures
        pop_scope_spec(push_scope_spec(g)) == g,
{
    assert(push_scope_spec(g).locals.drop_last() =~= g.locals);
}

/// After a local is added to the innermost scope, looking it up gives its
/// type, and looking up any other name gives what it gave before.
pub proof fn lemma_insert_then_lookup(g: GenState, name: Seq<char>, ty: TypeV, other: Seq<char>)
    requires
        g.locals.len() > 0,
        other != name,
    ensures
        insert_local_spec(g, name, ty) matches Some(g1) && {
            &&& lookup_local_spec(g1.locals, name) == Some(ty)
            &&& lookup_local_spec(g1.locals, other) == lookup_local_spec(g.locals, other)
        },
{
    let g1 = insert_local_spec(g, name, ty)->0;
    let n = g.locals.len() as int;
    assert(g1.locals.subrange(0, n - 1) =~= g.locals.subrange(0, n - 1));
}

/// A coerced expression has the type it was coerced to.
pub proof fn lemma_coerce_gives_expected(e: ExprV, t: TypeV)
    requires
        unit_free(t),
        coerce_spec(e, t) is Some,
    ensures
        type_eq(coerce_spec(e, t)->0.ty, t),
{
    lemma_type_eq_reflexive(t);
}

/// After the operands of a binary expression are made to agree, both have
/// the same type.
pub proof fn lemma_coerce_binary_agrees(lhs: ExprV, rhs: ExprV)
    requires
        unit_free(lhs.ty),
        unit_free(rhs.ty),
        coerce_binary_spec(lhs, rhs) matches Some(Ok(_)),
    ensures
        coerce_binary_spec(lhs, rhs) matches Some(Ok((l, r))) && type_eq(l.ty, r.ty),
{
    if type_eq(lhs.ty, rhs.ty) {
    } else if crate::metair::semantics::is_int_const(rhs) {
        lemma_coerce_gives_expected(rhs, lhs.ty);
        lemma_type_eq_symmetric(coerce_spec(rhs, lhs.ty)->0.ty, lhs.ty);
    } else {
        lemma_coerce_gives_expected(lhs, rhs.ty);
    }
}

/// Distinct operators of the source are lowered to distinct operators of
/// the meta IR.
pub proof fn lemma_binop_injective(a: BinOp, b: BinOp)
    requires
        binop_spec(a) is Some,
        binop_spec(a) == binop_spec(b),
    ensures
        a == b,
{
}

/// Every function and every declaration among `items` has an entry, under
/// its name, in what lowering the items gives.
pub open spec fn items_kept(
    items: Seq<Item>,
    fs: Map<Seq<char>, crate::metair::metair::FunctionV>,
    ds: Map<Seq<char>, crate::metair::metair::DeclV>,
) -> bool {
    &&& forall|k: int|
        0 <= k < items.len() && #[trigger] items[k] is Function ==> fs.dom().contains(
            items[k]->Function_0.name@,
        )
    &&& forall|k: int|
        0 <= k < items.len() && #[trigger] items[k] is Declaration ==> ds.dom().contains(
            items[k]->Declaration_0.name@,
        )
}

proof fn lemma_lower_items_keeps(g: GenState, items: Seq<Item>)
    requires
        lower_items_spec(g, items) is Some,
    ensures
        lower_items_spec(g, items) matches Some((_, fs, ds)) && items_kept(items, fs, ds),
    decreases items.len(),
{
    if items.len() > 0 {
        let prefix = items.subrange(0, items.len() - 1);
        lemma_lower_items_keeps(g, prefix);
        let (g1, fs1, ds1) = lower_items_spec(g, prefix)->0;
        let (g2, fs, ds) = lower_items_spec(g, items)->0;
        assert forall|k: int| 0 <= k < items.len() && #[trigger] items[k] is Function implies fs.dom().contains(
            items[k]->Function_0.name@,
        ) by {
            if k < items.len() - 1 {
                assert(items[k] == prefix[k]);
            }
        }
        assert forall|k: int| 0 <= k < items.len() && #[trigger] items[k] is Declaration implies ds.dom().contains(
            items[k]->Declaration_0.name@,
        ) by {
            if k < items.len() - 1 {
                assert(items[k] == prefix[k]);
            }
        }
    }
}

/// Lowering a program drops none of its functions or declarations: each
/// has an entry under its name.
pub proof fn lemma_lowering_keeps_functions(g: GenState, p: Program)
    requires
        lower_program_spec(g, p) is Some,
    ensures
        lower_program_spec(g, p) matches Some((_, fs, ds)) && items_kept(p.items@, fs, ds),
{
    lemma_lower_items_keeps(GenState { program: p, ..g }, p.items@);
}

/// Dereferencing an expression whose type is a reference or a pointer
/// gives the type it points to, and taking a reference to an expression
/// gives a pointer to its type. The operand is lowered as it is alone.
pub proof fn lemma_unary_pointee(g: GenState, e: Expr, span: JunoSpan)
    requires
        lower_expr_spec(g, e) is Some,
    ensures
        lower_expr_spec(g, e) matches Some((g1, x)) && {
            &&& lower_expr_spec(
                g,
                Expr::Unary(UnaryExpr { span, op: UnOp::Deref, expr: Box::new(e) }),
            ) matches Some((g2, y)) && {
                &&& g2 == g1
                &&& y.kind == ExprKindV::Unary { span, op: MetaUnOp::Deref, expr: Box::new(x) }
                &&& (x.ty matches TypeV::Reference(t, _) ==> y.ty == *t)
                &&& (x.ty matches TypeV::Pointer(t, _) ==> y.ty == *t)
            }
            &&& lower_expr_spec(
                g,
                Expr::Unary(UnaryExpr { span, op: UnOp::Ref, expr: Box::new(e) }),
            ) matches Some((g3, z)) && {
                &&& g3 == g1
                &&& z.ty == TypeV::Pointer(Box::new(x.ty), span)
            }
        },
{
}

proof fn lemma_coerce_all_each(values: Seq<ExprV>, te: TypeV)
    requires
        coerce_all_spec(values, te) is Some,
    ensures
        coerce_all_spec(values, te) matches Some(vs) && {
            &&& vs.len() == values.len()
            &&& forall|i: int| 0 <= i < values.len() ==> coerce_spec(values[i], te) == Some(#[trigger] vs[i])
        },
    decreases values.len(),
{
    if values.len() > 0 {
        let prefix = values.subrange(0, values.len() - 1);
        lemma_coerce_all_each(prefix, te);
        let vs = coerce_all_spec(values, te)->0;
        let ps = coerce_all_spec(prefix, te)->0;
        assert forall|i: int| 0 <= i < values.len() implies coerce_spec(values[i], te) == Some(#[trigger] vs[i]) by {
            if i < values.len() - 1 {
                assert(values[i] == prefix[i]);
                assert(vs[i] == ps[i]);
            }
        }
    }
}

/// When an array literal is coerced to an array type with element type
/// `te`, the result is an array literal with one element for each element
/// of the literal, each coerced to `te`, so that each has a type equal to
/// `te`, as the whole has the expected type.
pub proof fn lemma_coerce_array_elements(e: ExprV, t: TypeV)
    requires
        e.kind is Array,
        e.ty is Array,
        t is Array,
        unit_free(t),
        !type_eq(e.ty, t),
        coerce_spec(e, t) is Some,
    ensures
        coerce_spec(e, t) matches Some(e2) && e2.kind matches ExprKindV::Array(vs, _) && {
            &&& type_eq(e2.ty, t)
            &&& vs.len() == e.kind->Array_0.len()
            &&& forall|i: int|
                0 <= i < vs.len() ==> type_eq(#[trigger] vs[i].ty, *t->Array_elem)
                    && coerce_spec(e.kind->Array_0[i], *t->Array_elem) == Some(vs[i])
        },
{
    let values = e.kind->Array_0;
    let te = *t->Array_elem;
    lemma_coerce_gives_expected(e, t);
    lemma_coerce_all_each(values, te);
    let vs = coerce_all_spec(values, te)->0;
    assert forall|i: int| 0 <= i < vs.len() implies type_eq(#[trigger] vs[i].ty, te) by {
        assert(coerce_spec(values[i], te) == Some(vs[i]));
        lemma_coerce_gives_expected(values[i], te);
    }
}

/// Lowering a `let` statement gives a `let` of the same name, span and
/// mutability, with the declared type, and with a value exactly where the
/// statement has one, that value having the declared type. Afterwards the
/// name is a local variable of the declared type.
pub proof fn lemma_let_binding(g: GenState, l: LetStmt)
    requires
        lower_let_spec(g, l) is Some,
    ensures
        lower_stmt_spec(g, Stmt::Let(l)) == lower_let_spec(g, l),
        lower_let_spec(g, l) matches Some((g2, StmtV::Let { span, name, mutable, ty, value })) && {
            &&& span == l.span
            &&& name == l.name@
            &&& mutable == l.mutable
            &&& ty == Some(lower_type_spec(l.ty))
            &&& (value is Some <==> l.value is Some)
            &&& (unit_free(lower_type_spec(l.ty)) && value is Some) ==> type_eq(
                value->0.ty,
                lower_type_spec(l.ty),
            )
            &&& lookup_local_spec(g2.locals, l.name@) == Some(lower_type_spec(l.ty))
        },
{
    let declared = lower_type_spec(l.ty);
    let g1 = match l.value {
        None => g,
        Some(e) => {
            let (g1, x) = lower_expr_spec(g, e)->0;
            if unit_free(declared) {
                lemma_coerce_gives_expected(x, declared);
            }
            g1
        },
    };
    let other = l.name@.push('x');
    assert(other.len() != l.name@.len());
    lemma_insert_then_lookup(g1, l.name@, declared, other);
}

/// The names of a struct definition's fields are pairwise distinct.
pub open spec fn field_names_distinct(fields: Seq<StructField>) -> bool {
    forall|i: int, j: int|
        0 <= i < j < fields.len() ==> #[trigger] fields[i].name@ != #[trigger] fields[j].name@
}

/// `m` gives each field its position among `fields`, and has no other key.
pub open spec fn indexed_by_position(m: Map<Seq<char>, u32>, fields: Seq<StructField>) -> bool {
    &&& m.dom().finite()
    &&& m.dom().len() == fields.len()
    &&& forall|k: int|
        0 <= k < fields.len() ==> m.dom().contains(#[trigger] fields[k].name@) && m[fields[k].name@]
            == k
    &&& forall|f: Seq<char>| #[trigger]
        m.dom().contains(f) ==> exists|k: int| 0 <= k < fields.len() && fields[k].name@ == f
}

/// The field a struct's lowered definition lists for a field of its source.
pub open spec fn lowered_field(f: StructField, index: int) -> FieldV {
    FieldV { span: f.span, name: f.name@, index: index as u32, ty: lower_type_spec(f.ty) }
}

proof fn lemma_fields_by_position(g: GenState, st: Seq<char>, fields: Seq<StructField>)
    requires
        g.next_struct_field == 0,
        !g.struct_fields.dom().contains(st),
        field_names_distinct(fields),
        fields.len() <= u32::MAX,
    ensures
        lower_fields_spec(g, st, fields) matches Some((g2, vs)) && {
            &&& g2 == (GenState {
                struct_fields: g2.struct_fields,
                next_struct_field: g2.next_struct_field,
                ..g
            })
            &&& g2.next_struct_field == fields.len()
            &&& g2.struct_fields.remove(st) == g.struct_fields
            &&& indexed_by_position(fields_of(g2, st), fields)
            &&& vs.len() == fields.len()
            &&& forall|k: int| 0 <= k < fields.len() ==> #[trigger] vs[k] == lowered_field(fields[k], k)
        },
    decreases fields.len(),
{
    let n = fields.len() as int;
    if n == 0 {
        assert(g.struct_fields.remove(st) =~= g.struct_fields);
        assert(fields_of(g, st).dom() =~= Set::<Seq<char>>::empty());
    } else {
        let prefix = fields.subrange(0, n - 1);
        assert(field_names_distinct(prefix)) by {
            assert forall|i: int, j: int| 0 <= i < j < prefix.len() implies #[trigger] prefix[i].name@
                != #[trigger] prefix[j].name@ by {
                assert(prefix[i] == fields[i]);
                assert(prefix[j] == fields[j]);
            }
        }
        lemma_fields_by_position(g, st, prefix);
        let (g1, vs1) = lower_fields_spec(g, st, prefix)->0;
        let f = fields[n - 1];
        let m1 = fields_of(g1, st);
        assert(!m1.dom().contains(f.name@)) by {
            if m1.dom().contains(f.name@) {
                let k = choose|k: int| 0 <= k < prefix.len() && prefix[k].name@ == f.name@;
                assert(prefix[k] == fields[k]);
                assert(fields[k].name@ != fields[n - 1].name@);
            }
        }
        let (g2, vs) = lower_fields_spec(g, st, fields)->0;
        let m2 = m1.insert(f.name@, (n - 1) as u32);
        assert(g2.struct_fields == g1.struct_fields.insert(st, m2));
        assert(fields_of(g2, st) == m2);
        assert(m2.dom() =~= m1.dom().insert(f.name@));
        assert(g2.struct_fields.remove(st) =~= g1.struct_fields.remove(st));
        assert forall|k: int| 0 <= k < fields.len() implies m2.dom().contains(
            #[trigger] fields[k].name@,
        ) && m2[fields[k].name@] == k by {
            if k < n - 1 {
                assert(prefix[k] == fields[k]);
                assert(fields[k].name@ != fields[n - 1].name@);
            }
        }
        assert forall|x: Seq<char>| #[trigger] m2.dom().contains(x) implies exists|k: int|
            0 <= k < fields.len() && fields[k].name@ == x by {
            if x != f.name@ {
                let k = choose|k: int| 0 <= k < prefix.len() && prefix[k].name@ == x;
                assert(prefix[k] == fields[k]);
            }
        }
        assert forall|k: int| 0 <= k < fields.len() implies #[trigger] vs[k] == lowered_field(
            fields[k],
            k,
        ) by {
            if k < n - 1 {
                assert(prefix[k] == fields[k]);
                assert(vs[k] == vs1[k]);
            }
        }
    }
}

/// Field indices are local to each struct: lowering a struct definition
/// whose field names are distinct, with no field recorded for its name yet
/// and the field counter at zero, succeeds; the `k`-th field gets index `k`,
/// the field table gets for the struct's name exactly these indices and
/// keeps every other entry, and the counter is at zero again afterwards.
pub proof fn lemma_struct_field_indices(g: GenState, s: StructDef)
    requires
        g.next_struct_field == 0,
        !g.struct_fields.dom().contains(s.name@),
        field_names_distinct(s.fields@),
        s.fields@.len() <= u32::MAX,
    ensures
        lower_struct_spec(g, s) matches Some((g2, sv)) && {
            &&& sv.span == s.span
            &&& sv.name == s.name@
            &&& sv.fields.len() == s.fields@.len()
            &&& forall|k: int| 0 <= k < sv.fields.len() ==> #[trigger] sv.fields[k] == lowered_field(s.fields@[k], k)
            &&& g2.next_struct_field == 0
            &&& g2.struct_fields.remove(s.name@) == g.struct_fields
            &&& indexed_by_position(fields_of(g2, s.name@), s.fields@)
            &&& g2.structs == g.structs
            &&& g2.declarations == g.declarations
            &&& g2.strings == g.strings
            &&& g2.locals == g.locals
        },
{
    let g1 = intern_symbol_spec(g, s.name@);
    lemma_fields_by_position(g1, s.name@, s.fields@);
}

/// `sv` is what a struct definition `s` lowers to: its span and name, and
/// its fields in order, the `k`-th with index `k`.
pub open spec fn struct_lowered(s: StructDef, sv: StructV) -> bool {
    &&& sv.span == s.span
    &&& sv.name == s.name@
    &&& sv.fields.len() == s.fields@.len()
    &&& forall|k: int| 0 <= k < sv.fields.len() ==> #[trigger] sv.fields[k] == lowered_field(s.fields@[k], k)
}

/// After lowering, the generator holds struct definition `s` as it lowers,
/// and its field table holds for `s` the index of each field, its position.
pub open spec fn struct_recorded(g: GenState, s: StructDef) -> bool {
    &&& indexed_by_position(fields_of(g, s.name@), s.fields@)
    &&& g.structs.dom().contains(s.name@)
    &&& struct_lowered(s, g.structs[s.name@])
}

/// A program of struct definitions only, with distinct names, each with
/// distinct field names and fewer than `u32::MAX` fields.
pub open spec fn distinct_structs(items: Seq<Item>) -> bool {
    &&& forall|i: int| 0 <= i < items.len() ==> #[trigger] items[i] is Struct
    &&& forall|i: int, j: int|
        0 <= i < j < items.len() ==> #[trigger] items[i]->Struct_0.name@
            != #[trigger] items[j]->Struct_0.name@
    &&& forall|i: int|
        0 <= i < items.len() ==> field_names_distinct(#[trigger] items[i]->Struct_0.fields@)
            && items[i]->Struct_0.fields@.len() <= u32::MAX
}

proof fn lemma_structs_lowered(g: GenState, items: Seq<Item>)
    requires
        g.next_struct_field == 0,
        g.struct_fields == Map::<Seq<char>, Map<Seq<char>, u32>>::empty(),
        distinct_structs(items),
    ensures
        lower_items_spec(g, items) matches Some((g1, _, _)) && {
            &&& g1.next_struct_field == 0
            &&& forall|st: Seq<char>| #[trigger]
                g1.struct_fields.dom().contains(st) ==> exists|i: int|
                    0 <= i < items.len() && items[i]->Struct_0.name@ == st
            &&& forall|i: int|
                0 <= i < items.len() ==> struct_recorded(g1, #[trigger] items[i]->Struct_0)
        },
    decreases items.len(),
{
    let n = items.len() as int;
    if n > 0 {
        let prefix = items.subrange(0, n - 1);
        assert(distinct_structs(prefix)) by {
            assert forall|i: int| 0 <= i < prefix.len() implies #[trigger] prefix[i] is Struct by {
                assert(prefix[i] == items[i]);
            }
            assert forall|i: int, j: int| 0 <= i < j < prefix.len() implies #[trigger] prefix[i]->Struct_0.name@
                != #[trigger] prefix[j]->Struct_0.name@ by {
                assert(prefix[i] == items[i]);
                assert(prefix[j] == items[j]);
            }
            assert forall|i: int| 0 <= i < prefix.len() implies field_names_distinct(
                #[trigger] prefix[i]->Struct_0.fields@,
            ) && prefix[i]->Struct_0.fields@.len() <= u32::MAX by {
                assert(prefix[i] == items[i]);
            }
        }
        lemma_structs_lowered(g, prefix);
        let (g1, fs1, ds1) = lower_items_spec(g, prefix)->0;
        assert(items[n - 1] is Struct);
        let s = items[n - 1]->Struct_0;
        assert(!g1.struct_fields.dom().contains(s.name@)) by {
            if g1.struct_fields.dom().contains(s.name@) {
                let i = choose|i: int| 0 <= i < prefix.len() && prefix[i]->Struct_0.name@ == s.name@;
                assert(prefix[i] == items[i]);
            }
        }
        assert(field_names_distinct(items[n - 1]->Struct_0.fields@));
        lemma_struct_field_indices(g1, s);
        let (g2, sv) = lower_struct_spec(g1, s)->0;
        let g3 = GenState { structs: g2.structs.insert(sv.name, sv), ..g2 };
        assert(lower_items_spec(g, items) == Some((g3, fs1, ds1)));
        assert(g2.struct_fields.remove(s.name@) == g1.struct_fields);
        assert forall|st: Seq<char>| st != s.name@ implies fields_of(g3, st) == fields_of(g1, st) by {
            assert(g1.struct_fields.dom().contains(st) == g2.struct_fields.remove(s.name@).dom().contains(st));
            if g1.struct_fields.dom().contains(st) {
                assert(g1.struct_fields[st] == g2.struct_fields.remove(s.name@)[st]);
            }
        }
        assert forall|st: Seq<char>| #[trigger] g3.struct_fields.dom().contains(st) implies exists|i: int|
            0 <= i < items.len() && items[i]->Struct_0.name@ == st by {
            if st == s.name@ {
                assert(items[n - 1]->Struct_0.name@ == st);
            } else {
                assert(g2.struct_fields.remove(s.name@).dom().contains(st));
                let i = choose|i: int| 0 <= i < prefix.len() && prefix[i]->Struct_0.name@ == st;
                assert(prefix[i] == items[i]);
            }
        }
        assert forall|i: int| 0 <= i < items.len() implies struct_recorded(
            g3,
            #[trigger] items[i]->Struct_0,
        ) by {
            if i < n - 1 {
                assert(prefix[i] == items[i]);
                let t = items[i]->Struct_0;
                assert(t.name@ != s.name@);
                assert(fields_of(g3, t.name@) == fields_of(g1, t.name@));
            }
        }
    }
}

/// Field indices are local to each struct: a program made of struct
/// definitions with distinct names, each with distinct field names, lowers
/// with a generator that has no fields recorded and its field counter at
/// zero; in what it gives, the `k`-th field of each struct has index `k`,
/// whatever structs came before it, and the field table holds for each
/// struct exactly these indices.
pub proof fn lemma_program_struct_indices(g: GenState, p: Program)
    requires
        g.next_struct_field == 0,
        g.struct_fields == Map::<Seq<char>, Map<Seq<char>, u32>>::empty(),
        distinct_structs(p.items@),
    ensures
        lower_program_spec(g, p) matches Some((g1, _, _)) && forall|i: int|
            0 <= i < p.items@.len() ==> struct_recorded(g1, #[trigger] p.items@[i]->Struct_0),
{
    let items = p.items@;
    let g0 = GenState { program: p, ..g };
    lemma_structs_lowered(g0, items);
    let (g1, fs, ds) = lower_items_spec(g0, items)->0;
    assert(field_indices_in_range(g1.struct_fields)) by {
        assert forall|st: Seq<char>, f: Seq<char>|
            #[trigger] g1.struct_fields.dom().contains(st) && #[trigger] g1.struct_fields[st].dom().contains(f)
            implies g1.struct_fields[st][f] < g1.struct_fields[st].dom().len() by {
            let i = choose|i: int| 0 <= i < items.len() && items[i]->Struct_0.name@ == st;
            let t = items[i]->Struct_0;
            assert(struct_recorded(g1, t));
            let m = fields_of(g1, st);
            assert(m.dom().contains(f));
            let k = choose|k: int| 0 <= k < t.fields@.len() && t.fields@[k].name@ == f;
            assert(m[t.fields@[k].name@] == k);
        }
    }
}

} // verus!
