//! Building types.
use vstd::prelude::*;

use crate::ast::Type;
use crate::parser::error::{ParseContext, ParseError, ParseErrorKind, ParseErrorV};
use crate::parser::text::{parse_u32, text_eq, trim_spec};
use crate::parser::tree::{Node, Rule};
use crate::parser::type_spec::{
    apply_prefixes, base_type_spec, lemma_apply_prefixes_absorbs, lemma_type_scan_absorbs,
    type_outcome, type_result_v, type_scan, type_spec,
};
use crate::parser::view::{opt_type_v, type_v, TypeV};
use crate::parser::ParserState;

verus! {

broadcast use vstd::string::group_string_axioms;

impl ParserState {
    /// Builds a type: its base type under its `&` and `*` prefixes.
    pub fn parse_type(&self, n: &Node) -> (res: Result<Type, ParseError>)
        requires
            type_spec(*n) is Some,
        ensures
            type_spec(*n) == Some(type_result_v(res)),
    {
        self.try_parse_type(n).unwrap()
    }

    /// Builds a type, or gives `None` where the tree lacks a node that the
    /// builder takes for granted or a name holds white space.
    pub fn try_parse_type(&self, n: &Node) -> (res: Option<Result<Type, ParseError>>)
        ensures
            type_spec(*n) == type_outcome(res),
    {
        let mut prefixes: Vec<usize> = Vec::new();
        let mut base: Option<Type> = None;
        let len = n.children.len();
        assert(prefixes@ =~= Seq::<usize>::empty());
        for i in 0..len
            invariant
                len == n.children@.len(),
                type_scan(*n, i as int) == Some(
                    Ok::<(Seq<usize>, Option<TypeV>), ParseErrorV>((prefixes@, opt_type_v(base))),
                ),
                forall|k: int| 0 <= k < prefixes@.len() ==> prefixes@[k] < i,
        {
            proof {
                lemma_type_scan_absorbs(*n, i + 1, len as int);
            }
            let p = &n.children[i];
            match p.rule {
                Rule::type_prefix => {
                    prefixes.push(i);
                },
                Rule::base_type => {
                    if base.is_some() {
                        return Some(
                            Err(ParseError { span: p.span, kind: ParseErrorKind::DuplicateBaseType }),
                        );
                    }
                    match self.parse_base_type(p) {
                        Some(Ok(t)) => {
                            base = Some(t);
                        },
                        Some(Err(e)) => {
                            return Some(Err(e));
                        },
                        None => {
                            return None;
                        },
                    }
                },
                Rule::generics => {},
                r => {
                    return Some(
                        Err(
                            ParseError {
                                span: n.span,
                                kind: ParseErrorKind::UnexpectedRule(ParseContext::TypeComponent, r),
                            },
                        ),
                    );
                },
            }
        }
        let mut ty = match base {
            Some(b) => b,
            None => {
                return Some(Err(ParseError { span: n.span, kind: ParseErrorKind::TypeMissingBase }));
            },
        };
        let ghost base_v = type_v(ty);
        let ghost ps = prefixes@;
        assert(ps.subrange(0, 0) =~= Seq::<usize>::empty());
        for j in 0..prefixes.len()
            invariant
                ps == prefixes@,
                len == n.children@.len(),
                forall|k: int| 0 <= k < ps.len() ==> ps[k] < len,
                apply_prefixes(*n, base_v, ps.subrange(0, j as int)) == Ok::<TypeV, ParseErrorV>(type_v(ty)),
                type_spec(*n) == Some(apply_prefixes(*n, base_v, ps)),
        {
            proof {
                assert(ps.subrange(0, j + 1).drop_last() =~= ps.subrange(0, j as int));
                lemma_apply_prefixes_absorbs(*n, base_v, ps, j + 1);
            }
            let p = &n.children[prefixes[j]];
            proof {
                reveal_strlit("&");
                reveal_strlit("*");
                assert("&"@ =~= seq!['&']);
                assert("*"@ =~= seq!['*']);
            }
            if text_eq(p.text.as_str(), "&") {
                assert(p.text@ =~= seq!['&']);
                ty = Type::Reference(Box::new(ty), p.span);
            } else if text_eq(p.text.as_str(), "*") {
                assert(p.text@ =~= seq!['*']);
                ty = Type::Pointer(Box::new(ty), p.span);
            } else {
                return Some(
                    Err(
                        ParseError {
                            span: p.span,
                            kind: ParseErrorKind::InvalidTypePrefix(p.text.clone()),
                        },
                    ),
                );
            }
        }
        assert(ps.subrange(0, ps.len() as int) =~= ps);
        Some(Ok(ty))
    }

    /// Builds a base type: an array type or a named type.
    pub fn parse_base_type(&self, n: &Node) -> (res: Option<Result<Type, ParseError>>)
        ensures
            base_type_spec(*n) == type_outcome(res),
    {
        if n.children.len() == 0 {
            return None;
        }
        let first = &n.children[0];
        match first.rule {
            Rule::array_type => {
                if first.children.len() == 0 {
                    return None;
                }
                let size_token = &first.children[0];
                let size = match parse_u32(size_token.text.as_str()) {
                    Ok(v) => v,
                    Err(e) => {
                        return Some(
                            Err(
                                ParseError {
                                    span: size_token.span,
                                    kind: ParseErrorKind::InvalidArraySize(size_token.text.clone(), e),
                                },
                            ),
                        );
                    },
                };
                if n.children.len() < 2 {
                    return None;
                }
                let elem_token = &n.children[1];
                if !self.ident_usable(elem_token.text.as_str()) {
                    return None;
                }
                let elem_ty = Type::Named(self.clean_ident(elem_token.text.as_str()), elem_token.span);
                assert(type_v(elem_ty) == TypeV::Named(trim_spec(elem_token.text@), elem_token.span));
                let res = Type::Array { span: first.span, elem: Box::new(elem_ty), size };
                assert(type_v(res) == (TypeV::Array {
                    span: first.span,
                    elem: Box::new(TypeV::Named(trim_spec(elem_token.text@), elem_token.span)),
                    size,
                }));
                Some(Ok(res))
            },
            Rule::var_ident => {
                if !self.ident_usable(first.text.as_str()) {
                    return None;
                }
                Some(Ok(Type::Named(self.clean_ident(first.text.as_str()), first.span)))
            },
            r => Some(
                Err(
                    ParseError {
                        span: first.span,
                        kind: ParseErrorKind::UnexpectedRule(ParseContext::BaseType, r),
                    },
                ),
            ),
        }
    }
}

} // verus!
