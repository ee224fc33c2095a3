//! What building items and programs from their trees gives.
use vstd::prelude::*;

use crate::ast::{Declaration, Function, Item, Program};
use crate::parser::error::{err_at, ErrorKindV, ParseContext, ParseError, ParseErrorV};
use crate::parser::stmt_spec::block_spec;
use crate::parser::text::trim_spec;
use crate::parser::tree::{Node, Rule};
use crate::parser::type_spec::type_spec;
use crate::parser::view::{
    item_v, program_v, BindingV, DeclarationV, FunctionV,
    ImportV, ItemV, ProgramV, StructDefV, TypeV,
};
use crate::parser::{add_name, ident_ok, namespaced, ParserStateV};

verus! {

pub open spec fn item_result_v(r: Result<Item, ParseError>) -> Result<ItemV, ParseErrorV> {
    match r {
        Ok(i) => Ok(item_v(i)),
        Err(e) => Err(e@),
    }
}

pub open spec fn program_result_v(r: Result<Program, ParseError>) -> Result<ProgramV, ParseErrorV> {
    match r {
        Ok(p) => Ok(program_v(p)),
        Err(e) => Err(e@),
    }
}

/// A built item, its error, or `None`, seen through the views.
pub open spec fn item_outcome(r: Option<Result<Item, ParseError>>) -> Option<Result<ItemV, ParseErrorV>> {
    match r {
        Some(r) => Some(item_result_v(r)),
        None => None,
    }
}

/// `import path`.
pub open spec fn import_spec(n: Node) -> Option<ImportV> {
    if n.children@.len() == 0 || !ident_ok(n.children@[0].text@) {
        None
    } else {
        Some(ImportV { span: n.span, path: trim_spec(n.children@[0].text@) })
    }
}

/// The children of `n` from position `i` on, each `name: type`, after the
/// bindings `acc` read before them.
pub open spec fn bindings_scan(n: Node, i: int, acc: Seq<BindingV>) -> Option<
    Result<Seq<BindingV>, ParseErrorV>,
>
    decreases n.children@.len() - i,
{
    if i < 0 || i >= n.children@.len() {
        Some(Ok(acc))
    } else {
        let p = n.children@[i];
        if p.children@.len() < 2 || !ident_ok(p.children@[0].text@) {
            None
        } else {
            match type_spec(p.children@[1]) {
                Some(Ok(ty)) => bindings_scan(
                    n,
                    i + 1,
                    acc.push(BindingV { span: p.span, name: trim_spec(p.children@[0].text@), ty }),
                ),
                Some(Err(e)) => Some(Err(e)),
                None => None,
            }
        }
    }
}

/// A list of parameters, or of struct fields.
pub open spec fn bindings_spec(n: Node) -> Option<Result<Seq<BindingV>, ParseErrorV>> {
    bindings_scan(n, 0, Seq::empty())
}

/// The name a function gets: `main` stays as it is, other names are put
/// in the namespace.
pub open spec fn function_name(st: ParserStateV, raw: Seq<char>) -> Seq<char> {
    if raw == seq!['m', 'a', 'i', 'n'] {
        raw
    } else {
        namespaced(st.namespace, raw)
    }
}

/// The children of a function node from position `i` on, after the
/// parameters and return type read before them: the first block is the
/// body and ends the function; a later parameter list or return type
/// replaces an earlier one.
pub open spec fn function_scan(
    st: ParserStateV,
    n: Node,
    i: int,
    name: Seq<char>,
    raw_name: Seq<char>,
    params: Seq<BindingV>,
    return_type: Option<TypeV>,
) -> Option<Result<FunctionV, ParseErrorV>>
    decreases n.children@.len() - i,
{
    if i < 0 || i >= n.children@.len() {
        Some(Err(err_at(n.span, ErrorKindV::FunctionMissingBody)))
    } else {
        let p = n.children@[i];
        match p.rule {
            Rule::params => match bindings_spec(p) {
                Some(Ok(ps)) => function_scan(st, n, i + 1, name, raw_name, ps, return_type),
                Some(Err(e)) => Some(Err(e)),
                None => None,
            },
            Rule::type_ => match type_spec(p) {
                Some(Ok(t)) => function_scan(st, n, i + 1, name, raw_name, params, Some(t)),
                Some(Err(e)) => Some(Err(e)),
                None => None,
            },
            Rule::block => match block_spec(st, p) {
                Some(Ok(body)) => Some(
                    Ok(FunctionV { span: n.span, name, raw_name, params, return_type, body }),
                ),
                Some(Err(e)) => Some(Err(e)),
                None => None,
            },
            _ => function_scan(st, n, i + 1, name, raw_name, params, return_type),
        }
    }
}

/// A function: its name, then parameters, return type and body.
pub open spec fn function_spec(st: ParserStateV, n: Node) -> Option<Result<FunctionV, ParseErrorV>> {
    if n.children@.len() == 0 || !ident_ok(n.children@[0].text@) {
        None
    } else {
        let raw = trim_spec(n.children@[0].text@);
        function_scan(st, n, 1, function_name(st, raw), raw, Seq::empty(), None)
    }
}

/// The children of a declaration node from position `i` on: the first
/// return type ends the declaration.
pub open spec fn declaration_scan(n: Node, i: int, name: Seq<char>, params: Seq<BindingV>) -> Option<
    Result<DeclarationV, ParseErrorV>,
>
    decreases n.children@.len() - i,
{
    if i < 0 || i >= n.children@.len() {
        Some(Err(err_at(n.span, ErrorKindV::DeclarationMissingReturnType)))
    } else {
        let p = n.children@[i];
        match p.rule {
            Rule::params => match bindings_spec(p) {
                Some(Ok(ps)) => declaration_scan(n, i + 1, name, ps),
                Some(Err(e)) => Some(Err(e)),
                None => None,
            },
            Rule::type_ => match type_spec(p) {
                Some(Ok(t)) => Some(
                    Ok(DeclarationV { span: n.span, name, params, return_type: Some(t) }),
                ),
                Some(Err(e)) => Some(Err(e)),
                None => None,
            },
            _ => declaration_scan(n, i + 1, name, params),
        }
    }
}

/// An external declaration: its name as written, parameters and return
/// type.
pub open spec fn declaration_spec(n: Node) -> Option<Result<DeclarationV, ParseErrorV>> {
    if n.children@.len() == 0 || !ident_ok(n.children@[0].text@) {
        None
    } else {
        declaration_scan(n, 1, trim_spec(n.children@[0].text@), Seq::empty())
    }
}

/// A struct definition: its name and fields.
pub open spec fn struct_def_spec(n: Node) -> Option<Result<StructDefV, ParseErrorV>> {
    if n.children@.len() < 2 || !ident_ok(n.children@[0].text@) {
        None
    } else {
        match bindings_spec(n.children@[1]) {
            Some(Ok(fields)) => Some(
                Ok(StructDefV { span: n.span, name: trim_spec(n.children@[0].text@), fields }),
            ),
            Some(Err(e)) => Some(Err(e)),
            None => None,
        }
    }
}

/// An item, told apart by the rule of its last child.
pub open spec fn item_spec(st: ParserStateV, n: Node) -> Option<Result<ItemV, ParseErrorV>> {
    if n.children@.len() == 0 {
        None
    } else {
        let inner = n.children@.last();
        let span = inner.span;
        match inner.rule {
            Rule::function => match function_spec(st, inner) {
                Some(Ok(f)) => Some(Ok(ItemV::Function(f, span))),
                Some(Err(e)) => Some(Err(e)),
                None => None,
            },
            Rule::import_stmt => match import_spec(inner) {
                Some(i) => Some(Ok(ItemV::Import(i, span))),
                None => None,
            },
            Rule::struct_def => match struct_def_spec(inner) {
                Some(Ok(s)) => Some(Ok(ItemV::Struct(s, span))),
                Some(Err(e)) => Some(Err(e)),
                None => None,
            },
            Rule::declaration => match declaration_spec(inner) {
                Some(Ok(d)) => Some(Ok(ItemV::Declaration(d, span))),
                Some(Err(e)) => Some(Err(e)),
                None => None,
            },
            r => Some(Err(err_at(inner.span, ErrorKindV::UnexpectedRule(ParseContext::Item, r)))),
        }
    }
}

/// The functions known after an item: a function adds its source name.
pub open spec fn functions_after(functions: Seq<Seq<char>>, item: ItemV) -> Seq<Seq<char>> {
    match item {
        ItemV::Function(f, _) => add_name(functions, f.raw_name),
        _ => functions,
    }
}

/// The children of a program node from position `i` on, after the items
/// read before them, with the functions known so far: the known functions
/// at the end, and the program or the first error.
pub open spec fn program_scan(
    st: ParserStateV,
    n: Node,
    i: int,
    functions: Seq<Seq<char>>,
    items: Seq<ItemV>,
) -> Option<(Seq<Seq<char>>, Result<ProgramV, ParseErrorV>)>
    decreases n.children@.len() - i,
{
    if i < 0 || i >= n.children@.len() {
        Some((functions, Ok(ProgramV { span: n.span, items })))
    } else {
        let c = n.children@[i];
        match c.rule {
            Rule::item => match item_spec(ParserStateV { functions, ..st }, c) {
                Some(Ok(item)) => program_scan(
                    st,
                    n,
                    i + 1,
                    functions_after(functions, item),
                    items.push(item),
                ),
                Some(Err(e)) => Some((functions, Err(e))),
                None => None,
            },
            Rule::EOI => program_scan(st, n, i + 1, functions, items),
            r => Some(
                (functions, Err(err_at(n.span, ErrorKindV::UnexpectedRule(ParseContext::Program, r)))),
            ),
        }
    }
}

/// A program, built by a state with view `st`: the functions that state
/// knows at the end, and the program or the first error.
pub open spec fn program_spec(st: ParserStateV, n: Node) -> Option<
    (Seq<Seq<char>>, Result<ProgramV, ParseErrorV>),
> {
    program_scan(st, n, 0, st.functions, Seq::empty())
}

} // verus!
