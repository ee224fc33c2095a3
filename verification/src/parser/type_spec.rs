//! What building a type from its tree gives.
use vstd::prelude::*;

use crate::ast::Type;
use crate::parser::error::{err_at, ErrorKindV, ParseContext, ParseError, ParseErrorV};
use crate::parser::ident_ok;
use crate::parser::text::{int_literal_value, trim_spec};
use crate::parser::tree::{Node, Rule};
use crate::parser::view::{type_v, TypeV};

verus! {

/// A built type or its error, seen through the views.
pub open spec fn type_result_v(r: Result<Type, ParseError>) -> Result<TypeV, ParseErrorV> {
    match r {
        Ok(t) => Ok(type_v(t)),
        Err(e) => Err(e@),
    }
}

/// A built type, its error, or `None` where the builder would stop,
/// seen through the views.
pub open spec fn type_outcome(r: Option<Result<Type, ParseError>>) -> Option<Result<TypeV, ParseErrorV>> {
    match r {
        Some(r) => Some(type_result_v(r)),
        None => None,
    }
}

/// A base type: an array type `[size]elem` or a named type. `None` where
/// the tree lacks a node that the builder takes for granted, or where a
/// name holds white space.
pub open spec fn base_type_spec(n: Node) -> Option<Result<TypeV, ParseErrorV>> {
    match n.child(0) {
        None => None,
        Some(first) => match first.rule {
            Rule::array_type => match first.child(0) {
                None => None,
                Some(size_token) => match int_literal_value(
                    size_token.text@,
                    false,
                    0,
                    u32::MAX as int,
                ) {
                    Err(e) => Some(
                        Err(
                            err_at(
                                size_token.span,
                                ErrorKindV::InvalidArraySize(size_token.text@, e),
                            ),
                        ),
                    ),
                    Ok(size) => match n.child(1) {
                        None => None,
                        Some(elem) => if ident_ok(elem.text@) {
                            Some(
                                Ok(
                                    TypeV::Array {
                                        span: first.span,
                                        elem: Box::new(TypeV::Named(trim_spec(elem.text@), elem.span)),
                                        size: size as u32,
                                    },
                                ),
                            )
                        } else {
                            None
                        },
                    },
                },
            },
            Rule::var_ident => if ident_ok(first.text@) {
                Some(Ok(TypeV::Named(trim_spec(first.text@), first.span)))
            } else {
                None
            },
            r => Some(Err(err_at(first.span, ErrorKindV::UnexpectedRule(ParseContext::BaseType, r)))),
        },
    }
}

/// The children of a type node before position `k`, read in order: the
/// positions of the prefixes (`&`, `*`) and the base type, which must come
/// once.
pub open spec fn type_scan(n: Node, k: int) -> Option<Result<(Seq<usize>, Option<TypeV>), ParseErrorV>>
    decreases k,
{
    if k <= 0 {
        Some(Ok((Seq::empty(), None)))
    } else {
        match type_scan(n, k - 1) {
            Some(Ok((ps, base))) => {
                let p = n.children@[k - 1];
                match p.rule {
                    Rule::type_prefix => Some(Ok((ps.push((k - 1) as usize), base))),
                    Rule::base_type => if base is Some {
                        Some(Err(err_at(p.span, ErrorKindV::DuplicateBaseType)))
                    } else {
                        match base_type_spec(p) {
                            Some(Ok(t)) => Some(Ok((ps, Some(t)))),
                            Some(Err(e)) => Some(Err(e)),
                            None => None,
                        }
                    },
                    Rule::generics => Some(Ok((ps, base))),
                    r => Some(
                        Err(err_at(n.span, ErrorKindV::UnexpectedRule(ParseContext::TypeComponent, r))),
                    ),
                }
            },
            other => other,
        }
    }
}

/// `ty` under the prefix `p`: `&` makes a reference, `*` a pointer.
pub open spec fn prefix_type(ty: TypeV, p: Node) -> Result<TypeV, ParseErrorV> {
    if p.text@ == seq!['&'] {
        Ok(TypeV::Reference(Box::new(ty), p.span))
    } else if p.text@ == seq!['*'] {
        Ok(TypeV::Pointer(Box::new(ty), p.span))
    } else {
        Err(err_at(p.span, ErrorKindV::InvalidTypePrefix(p.text@)))
    }
}

/// `ty` under the prefixes at positions `ps`, the first prefix innermost.
pub open spec fn apply_prefixes(n: Node, ty: TypeV, ps: Seq<usize>) -> Result<TypeV, ParseErrorV>
    decreases ps.len(),
{
    if ps.len() == 0 {
        Ok(ty)
    } else {
        match apply_prefixes(n, ty, ps.drop_last()) {
            Ok(t) => prefix_type(t, n.children@[ps.last() as int]),
            Err(e) => Err(e),
        }
    }
}

/// A type: its base type under its prefixes.
pub open spec fn type_spec(n: Node) -> Option<Result<TypeV, ParseErrorV>> {
    match type_scan(n, n.arity()) {
        Some(Ok((ps, base))) => match base {
            Some(b) => Some(apply_prefixes(n, b, ps)),
            None => Some(Err(err_at(n.span, ErrorKindV::TypeMissingBase))),
        },
        Some(Err(e)) => Some(Err(e)),
        None => None,
    }
}

/// Once the builder has stopped or met an error, reading more children
/// keeps it.
pub proof fn lemma_type_scan_absorbs(n: Node, k: int, j: int)
    requires
        0 <= k <= j,
    ensures
        type_scan(n, k) is None ==> type_scan(n, j) is None,
        type_scan(n, k) matches Some(Err(e)) ==> type_scan(n, j) == type_scan(n, k),
    decreases j - k,
{
    if k < j {
        lemma_type_scan_absorbs(n, k, j - 1);
    }
}

/// Once a prefix has failed, the later ones keep the error.
pub proof fn lemma_apply_prefixes_absorbs(n: Node, ty: TypeV, ps: Seq<usize>, k: int)
    requires
        0 <= k <= ps.len(),
    ensures
        apply_prefixes(n, ty, ps.subrange(0, k)) is Err ==> apply_prefixes(n, ty, ps)
            == apply_prefixes(n, ty, ps.subrange(0, k)),
    decreases ps.len() - k,
{
    if k < ps.len() {
        lemma_apply_prefixes_absorbs(n, ty, ps.drop_last(), k);
        assert(ps.drop_last().subrange(0, k) =~= ps.subrange(0, k));
    } else {
        assert(ps.subrange(0, k) =~= ps);
    }
}

} // verus!
