//! Lowering a list succeeds on every prefix of a list whose lowering
//! succeeds.
use vstd::prelude::*;

use crate::ast::{Arg, Expr, Item, Param, Stmt, StructField, StructInitField, Block};
use crate::metair::generator::GenState;
use crate::metair::semantics::{
    lower_args_spec, lower_else_ifs_spec, lower_exprs_spec, lower_fields_spec,
    lower_init_fields_spec, lower_items_spec, lower_params_spec, lower_stmts_spec,
};

verus! {

pub proof fn lemma_lower_exprs_prefix(g: GenState, es: Seq<Expr>, i: int)
    requires
        lower_exprs_spec(g, es) is Some,
        0 <= i <= es.len(),
    ensures
        lower_exprs_spec(g, es.subrange(0, i)) is Some,
    decreases es.len() - i,
{
    if i < es.len() {
        lemma_lower_exprs_prefix(g, es, i + 1);
        let next = es.subrange(0, i + 1);
        assert(next.subrange(0, next.len() - 1) =~= es.subrange(0, i));
    } else {
        assert(es.subrange(0, i) =~= es);
    }
}

pub proof fn lemma_lower_args_prefix(g: GenState, es: Seq<Arg>, i: int)
    requires
        lower_args_spec(g, es) is Some,
        0 <= i <= es.len(),
    ensures
        lower_args_spec(g, es.subrange(0, i)) is Some,
    decreases es.len() - i,
{
    if i < es.len() {
        lemma_lower_args_prefix(g, es, i + 1);
        let next = es.subrange(0, i + 1);
        assert(next.subrange(0, next.len() - 1) =~= es.subrange(0, i));
    } else {
        assert(es.subrange(0, i) =~= es);
    }
}

pub proof fn lemma_lower_init_fields_prefix(g: GenState, st: Seq<char>, es: Seq<StructInitField>, i: int)
    requires
        lower_init_fields_spec(g, st, es) is Some,
        0 <= i <= es.len(),
    ensures
        lower_init_fields_spec(g, st, es.subrange(0, i)) is Some,
    decreases es.len() - i,
{
    if i < es.len() {
        lemma_lower_init_fields_prefix(g, st, es, i + 1);
        let next = es.subrange(0, i + 1);
        assert(next.subrange(0, next.len() - 1) =~= es.subrange(0, i));
    } else {
        assert(es.subrange(0, i) =~= es);
    }
}

pub proof fn lemma_lower_stmts_prefix(g: GenState, es: Seq<Stmt>, i: int)
    requires
        lower_stmts_spec(g, es) is Some,
        0 <= i <= es.len(),
    ensures
        lower_stmts_spec(g, es.subrange(0, i)) is Some,
    decreases es.len() - i,
{
    if i < es.len() {
        lemma_lower_stmts_prefix(g, es, i + 1);
        let next = es.subrange(0, i + 1);
        assert(next.subrange(0, next.len() - 1) =~= es.subrange(0, i));
    } else {
        assert(es.subrange(0, i) =~= es);
    }
}

pub proof fn lemma_lower_else_ifs_prefix(g: GenState, es: Seq<(Expr, Block)>, i: int)
    requires
        lower_else_ifs_spec(g, es) is Some,
        0 <= i <= es.len(),
    ensures
        lower_else_ifs_spec(g, es.subrange(0, i)) is Some,
    decreases es.len() - i,
{
    if i < es.len() {
        lemma_lower_else_ifs_prefix(g, es, i + 1);
        let next = es.subrange(0, i + 1);
        assert(next.subrange(0, next.len() - 1) =~= es.subrange(0, i));
    } else {
        assert(es.subrange(0, i) =~= es);
    }
}

pub proof fn lemma_lower_params_prefix(g: GenState, es: Seq<Param>, i: int)
    requires
        lower_params_spec(g, es) is Some,
        0 <= i <= es.len(),
    ensures
        lower_params_spec(g, es.subrange(0, i)) is Some,
    decreases es.len() - i,
{
    if i < es.len() {
        lemma_lower_params_prefix(g, es, i + 1);
        let next = es.subrange(0, i + 1);
        assert(next.subrange(0, next.len() - 1) =~= es.subrange(0, i));
    } else {
        assert(es.subrange(0, i) =~= es);
    }
}

pub proof fn lemma_lower_fields_prefix(g: GenState, st: Seq<char>, es: Seq<StructField>, i: int)
    requires
        lower_fields_spec(g, st, es) is Some,
        0 <= i <= es.len(),
    ensures
        lower_fields_spec(g, st, es.subrange(0, i)) is Some,
    decreases es.len() - i,
{
    if i < es.len() {
        lemma_lower_fields_prefix(g, st, es, i + 1);
        let next = es.subrange(0, i + 1);
        assert(next.subrange(0, next.len() - 1) =~= es.subrange(0, i));
    } else {
        assert(es.subrange(0, i) =~= es);
    }
}

pub proof fn lemma_lower_items_prefix(g: GenState, es: Seq<Item>, i: int)
    requires
        lower_items_spec(g, es) is Some,
        0 <= i <= es.len(),
    ensures
        lower_items_spec(g, es.subrange(0, i)) is Some,
    decreases es.len() - i,
{
    if i < es.len() {
        lemma_lower_items_prefix(g, es, i + 1);
        let next = es.subrange(0, i + 1);
        assert(next.subrange(0, next.len() - 1) =~= es.subrange(0, i));
    } else {
        assert(es.subrange(0, i) =~= es);
    }
}

} // verus!
