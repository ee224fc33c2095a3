//! Building items and programs.
use vstd::prelude::*;

use crate::ast::{Declaration, Function, Import, Item, Param, Program, StructDef, StructField, Type};
use crate::parser::error::{ParseContext, ParseError, ParseErrorKind, ParseErrorV};
use crate::parser::item_spec::{
    bindings_scan, bindings_spec, declaration_scan, declaration_spec, function_scan, function_spec,
    import_spec, item_outcome, item_spec, program_result_v, program_scan, program_spec,
    struct_def_spec,
};
use crate::parser::text::text_eq;
use crate::parser::tree::{Node, Rule};
use crate::parser::view::{
    declaration_v, fields_v, function_v, import_v, item_v, items_v, opt_type_v, params_v, program_v,
    struct_def_v, type_v, BindingV, DeclarationV, FunctionV, ItemV, StructDefV,
};
use crate::parser::{ParserState, ParserStateV};

verus! {

broadcast use vstd::string::group_string_axioms;

impl ParserState {
    /// Builds a program, item by item. Each function built adds its
    /// source name to the state's functions, so that later calls to it
    /// are namespaced.
    pub fn parse_program(&mut self, n: &Node) -> (res: Result<Program, ParseError>)
        requires
            program_spec(old(self)@, *n) is Some,
        ensures
            program_spec(old(self)@, *n) == Some((final(self)@.functions, program_result_v(res))),
            final(self)@ == (ParserStateV { functions: final(self)@.functions, ..old(self)@ }),
    {
        self.try_parse_program(n).unwrap()
    }

    /// Builds a program, or gives `None` where the tree lacks a node that
    /// the builder takes for granted or a name holds white space; the
    /// functions recorded are then those of the items built before.
    #[verifier::rlimit(40)]
    pub fn try_parse_program(&mut self, n: &Node) -> (res: Option<Result<Program, ParseError>>)
        ensures
            match res {
                Some(r) => program_spec(old(self)@, *n) == Some(
                    (final(self)@.functions, program_result_v(r)),
                ),
                None => program_spec(old(self)@, *n) is None,
            },
            final(self)@ == (ParserStateV { functions: final(self)@.functions, ..old(self)@ }),
    {
        let ghost st0 = self@;
        let count = n.children.len();
        let mut items: Vec<Item> = Vec::new();
        assert(items_v(items@) =~= Seq::<ItemV>::empty());
        for i in 0..count
            invariant
                count == n.children@.len(),
                st0 == old(self)@,
                self@ == (ParserStateV { functions: self@.functions, ..st0 }),
                program_spec(st0, *n) == program_scan(st0, *n, i as int, self@.functions, items_v(items@)),
        {
            let c = &n.children[i];
            match c.rule {
                Rule::item => {
                    match self.parse_item(c) {
                        Some(Ok(item)) => {
                            let ghost before = items_v(items@);
                            if let Item::Function(f, _) = &item {
                                self.add_function(f.raw_name.clone());
                            }
                            items.push(item);
                            assert(items_v(items@) =~= before.push(item_v(item)));
                        },
                        Some(Err(e)) => {
                            return Some(Err(e));
                        },
                        None => {
                            return None;
                        },
                    }
                },
                Rule::EOI => {},
                r => {
                    return Some(
                        Err(
                            ParseError {
                                span: n.span,
                                kind: ParseErrorKind::UnexpectedRule(ParseContext::Program, r),
                            },
                        ),
                    );
                },
            }
        }
        let p = Program { span: n.span, items };
        assert(program_v(p).items =~= items_v(p.items@));
        Some(Ok(p))
    }

    /// Builds an item, told apart by the rule of its last child.
    pub fn parse_item(&self, n: &Node) -> (res: Option<Result<Item, ParseError>>)
        ensures
            item_spec(self@, *n) == item_outcome(res),
    {
        if n.children.len() == 0 {
            return None;
        }
        let inner = &n.children[n.children.len() - 1];
        let span = inner.span;
        match inner.rule {
            Rule::function => match self.parse_function(inner) {
                Some(Ok(f)) => Some(Ok(Item::Function(f, span))),
                Some(Err(e)) => Some(Err(e)),
                None => None,
            },
            Rule::import_stmt => match self.parse_import(inner) {
                Some(i) => Some(Ok(Item::Import(i, span))),
                None => None,
            },
            Rule::struct_def => match self.parse_struct_def(inner) {
                Some(Ok(s)) => Some(Ok(Item::Struct(s, span))),
                Some(Err(e)) => Some(Err(e)),
                None => None,
            },
            Rule::declaration => match self.parse_declaration(inner) {
                Some(Ok(d)) => Some(Ok(Item::Declaration(d, span))),
                Some(Err(e)) => Some(Err(e)),
                None => None,
            },
            r => Some(
                Err(
                    ParseError {
                        span: inner.span,
                        kind: ParseErrorKind::UnexpectedRule(ParseContext::Item, r),
                    },
                ),
            ),
        }
    }

    /// Builds an import: its path.
    pub fn parse_import(&self, n: &Node) -> (res: Option<Import>)
        ensures
            match res {
                Some(i) => import_spec(*n) == Some(import_v(i)),
                None => import_spec(*n) is None,
            },
    {
        if n.children.len() == 0 || !self.ident_usable(n.children[0].text.as_str()) {
            return None;
        }
        let path = self.clean_ident(n.children[0].text.as_str());
        Some(Import { span: n.span, path })
    }

    /// Builds a function: its name, parameters, return type and body.
    #[verifier::rlimit(40)]
    pub fn parse_function(&self, n: &Node) -> (res: Option<Result<Function, ParseError>>)
        ensures
            function_spec(self@, *n) == match res {
                Some(Ok(f)) => Some(Ok::<FunctionV, ParseErrorV>(function_v(f))),
                Some(Err(e)) => Some(Err(e@)),
                None => None,
            },
    {
        if n.children.len() == 0 || !self.ident_usable(n.children[0].text.as_str()) {
            return None;
        }
        let raw_name = self.clean_ident(n.children[0].text.as_str());
        proof {
            reveal_strlit("main");
            assert("main"@ =~= seq!['m', 'a', 'i', 'n']);
        }
        let name = if text_eq(raw_name.as_str(), "main") {
            raw_name.clone()
        } else {
            self.with_namespace(raw_name.as_str())
        };
        let mut params: Vec<Param> = Vec::new();
        let mut return_type: Option<Type> = None;
        let count = n.children.len();
        assert(params_v(params@) =~= Seq::<BindingV>::empty());
        for i in 1..count
            invariant
                count == n.children@.len(),
                count >= 1,
                function_spec(self@, *n) == function_scan(
                    self@,
                    *n,
                    i as int,
                    name@,
                    raw_name@,
                    params_v(params@),
                    opt_type_v(return_type),
                ),
        {
            let p = &n.children[i];
            match p.rule {
                Rule::params => {
                    params = match self.parse_params(p) {
                        Some(Ok(ps)) => ps,
                        Some(Err(e)) => {
                            return Some(Err(e));
                        },
                        None => {
                            return None;
                        },
                    };
                },
                Rule::type_ => {
                    return_type = match self.try_parse_type(p) {
                        Some(Ok(t)) => Some(t),
                        Some(Err(e)) => {
                            return Some(Err(e));
                        },
                        None => {
                            return None;
                        },
                    };
                },
                Rule::block => {
                    let body = match self.try_parse_block(p) {
                        Some(Ok(b)) => b,
                        Some(Err(e)) => {
                            return Some(Err(e));
                        },
                        None => {
                            return None;
                        },
                    };
                    return Some(Ok(Function { span: n.span, name, raw_name, params, return_type, body }));
                },
                _ => {},
            }
        }
        Some(Err(ParseError { span: n.span, kind: ParseErrorKind::FunctionMissingBody }))
    }

    /// Builds an external declaration: its name, parameters and return
    /// type.
    pub fn parse_declaration(&self, n: &Node) -> (res: Option<Result<Declaration, ParseError>>)
        ensures
            declaration_spec(*n) == match res {
                Some(Ok(d)) => Some(Ok::<DeclarationV, ParseErrorV>(declaration_v(d))),
                Some(Err(e)) => Some(Err(e@)),
                None => None,
            },
    {
        if n.children.len() == 0 || !self.ident_usable(n.children[0].text.as_str()) {
            return None;
        }
        let name = self.clean_ident(n.children[0].text.as_str());
        let mut params: Vec<Param> = Vec::new();
        let count = n.children.len();
        assert(params_v(params@) =~= Seq::<BindingV>::empty());
        for i in 1..count
            invariant
                count == n.children@.len(),
                count >= 1,
                declaration_spec(*n) == declaration_scan(*n, i as int, name@, params_v(params@)),
        {
            let p = &n.children[i];
            match p.rule {
                Rule::params => {
                    params = match self.parse_params(p) {
                        Some(Ok(ps)) => ps,
                        Some(Err(e)) => {
                            return Some(Err(e));
                        },
                        None => {
                            return None;
                        },
                    };
                },
                Rule::type_ => {
                    return match self.try_parse_type(p) {
                        Some(Ok(t)) => Some(
                            Ok(Declaration { span: n.span, name, params, return_type: Some(t) }),
                        ),
                        Some(Err(e)) => Some(Err(e)),
                        None => None,
                    };
                },
                _ => {},
            }
        }
        Some(Err(ParseError { span: n.span, kind: ParseErrorKind::DeclarationMissingReturnType }))
    }

    /// Builds a parameter list: each child `name: type`.
    pub fn parse_params(&self, n: &Node) -> (res: Option<Result<Vec<Param>, ParseError>>)
        ensures
            bindings_spec(*n) == match res {
                Some(Ok(ps)) => Some(Ok::<Seq<BindingV>, ParseErrorV>(params_v(ps@))),
                Some(Err(e)) => Some(Err(e@)),
                None => None,
            },
    {
        let count = n.children.len();
        let mut params: Vec<Param> = Vec::new();
        assert(params_v(params@) =~= Seq::<BindingV>::empty());
        for i in 0..count
            invariant
                count == n.children@.len(),
                bindings_spec(*n) == bindings_scan(*n, i as int, params_v(params@)),
        {
            let p = &n.children[i];
            if p.children.len() < 2 || !self.ident_usable(p.children[0].text.as_str()) {
                return None;
            }
            let name = self.clean_ident(p.children[0].text.as_str());
            let ty = match self.try_parse_type(&p.children[1]) {
                Some(Ok(t)) => t,
                Some(Err(e)) => {
                    return Some(Err(e));
                },
                None => {
                    return None;
                },
            };
            let ghost before = params_v(params@);
            let param = Param { span: p.span, name, ty };
            params.push(param);
            assert(params_v(params@) =~= before.push(
                BindingV { span: p.span, name: name@, ty: type_v(ty) },
            ));
        }
        Some(Ok(params))
    }

    /// Builds a struct definition: its name and fields.
    pub fn parse_struct_def(&self, n: &Node) -> (res: Option<Result<StructDef, ParseError>>)
        ensures
            struct_def_spec(*n) == match res {
                Some(Ok(s)) => Some(Ok::<StructDefV, ParseErrorV>(struct_def_v(s))),
                Some(Err(e)) => Some(Err(e@)),
                None => None,
            },
    {
        if n.children.len() < 2 || !self.ident_usable(n.children[0].text.as_str()) {
            return None;
        }
        let name = self.clean_ident(n.children[0].text.as_str());
        let fields_token = &n.children[1];
        let count = fields_token.children.len();
        let mut fields: Vec<StructField> = Vec::new();
        assert(fields_v(fields@) =~= Seq::<BindingV>::empty());
        for i in 0..count
            invariant
                count == fields_token.children@.len(),
                n.children@.len() >= 2,
                *fields_token == n.children@[1],
                struct_def_spec(*n) == match bindings_scan(*fields_token, i as int, fields_v(fields@)) {
                    Some(Ok(fs)) => Some(Ok(StructDefV { span: n.span, name: name@, fields: fs })),
                    Some(Err(e)) => Some(Err(e)),
                    None => None,
                },
        {
            let f = &fields_token.children[i];
            if f.children.len() < 2 || !self.ident_usable(f.children[0].text.as_str()) {
                return None;
            }
            let field_name = self.clean_ident(f.children[0].text.as_str());
            let ty = match self.try_parse_type(&f.children[1]) {
                Some(Ok(t)) => t,
                Some(Err(e)) => {
                    return Some(Err(e));
                },
                None => {
                    return None;
                },
            };
            let ghost before = fields_v(fields@);
            let field = StructField { span: f.span, name: field_name, ty };
            fields.push(field);
            assert(fields_v(fields@) =~= before.push(
                BindingV { span: f.span, name: field_name@, ty: type_v(ty) },
            ));
        }
        Some(Ok(StructDef { span: n.span, name, fields }))
    }
}

} // verus!
