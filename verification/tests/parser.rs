use libjuno::ast::{Arg, BinOp, Expr, Item, JunoSpan, Stmt, Type, UnOp};
use libjuno::parser::error::{OperatorClass, ParseContext, ParseErrorKind};
use libjuno::parser::text::{float_literal, FloatError, parse_i64, parse_u32, remove_underscores, replace_pair, text_eq, trim, NumberError};
use libjuno::parser::tree::{Node, Rule};
use libjuno::parser::{JunoASTParser, ParserState};

fn sp(start: usize, end: usize) -> JunoSpan {
    JunoSpan { start, end }
}

fn leaf(rule: Rule, text: &str) -> Node {
    Node { rule, text: text.to_string(), span: sp(0, text.len()), children: vec![] }
}

fn node(rule: Rule, children: Vec<Node>) -> Node {
    Node { rule, text: String::new(), span: sp(0, 0), children }
}

fn node_at(rule: Rule, span: JunoSpan, children: Vec<Node>) -> Node {
    Node { rule, text: String::new(), span, children }
}

fn ident(s: &str) -> Node {
    leaf(Rule::var_ident, s)
}

fn ty(name: &str) -> Node {
    node(Rule::type_, vec![node(Rule::base_type, vec![ident(name)])])
}

/// A primary token: a node whose first child says what it is.
fn prim(first: Node) -> Node {
    node(Rule::other, vec![first])
}

fn int_tok(v: &str) -> Node {
    node(Rule::integer, vec![leaf(Rule::other, v)])
}

fn expr_of(core: Node) -> Node {
    node(Rule::expr, vec![node(Rule::other, vec![core])])
}

fn e_int(v: &str) -> Node {
    expr_of(node(Rule::primary, vec![prim(int_tok(v))]))
}

fn e_var(v: &str) -> Node {
    expr_of(node(Rule::primary, vec![prim(ident(v))]))
}

fn un(p: Node) -> Node {
    node(Rule::unary, vec![p])
}

fn op(s: &str) -> Node {
    leaf(Rule::other, s)
}

fn parser() -> ParserState {
    ParserState::new("test".to_string())
}

#[test]
fn parse_type_prefixes_wrap_in_order() {
    let t = node(
        Rule::type_,
        vec![
            leaf(Rule::type_prefix, "&"),
            leaf(Rule::type_prefix, "*"),
            node(Rule::base_type, vec![ident(" i32 ")]),
            node(Rule::generics, vec![]),
        ],
    );
    let got = parser().parse_type(&t).unwrap();
    match got {
        Type::Pointer(inner, _) => match *inner {
            Type::Reference(base, _) => assert!(matches!(*base, Type::Named(ref n, _) if n == "i32")),
            other => panic!("unexpected {:?}", other),
        },
        other => panic!("unexpected {:?}", other),
    }
}

#[test]
fn parse_array_type() {
    let t = node(
        Rule::type_,
        vec![node(
            Rule::base_type,
            vec![node(Rule::array_type, vec![leaf(Rule::other, "16")]), ident("u8")],
        )],
    );
    match parser().parse_type(&t).unwrap() {
        Type::Array { elem, size, .. } => {
            assert_eq!(size, 16);
            assert!(matches!(*elem, Type::Named(ref n, _) if n == "u8"));
        },
        other => panic!("unexpected {:?}", other),
    }
}

#[test]
fn type_errors() {
    let dup = node(
        Rule::type_,
        vec![node(Rule::base_type, vec![ident("i32")]), node_at(Rule::base_type, sp(4, 7), vec![ident("i64")])],
    );
    let e = parser().parse_type(&dup).unwrap_err();
    assert!(matches!(e.kind, ParseErrorKind::DuplicateBaseType));
    assert_eq!(e.span, sp(4, 7));

    let missing = node_at(Rule::type_, sp(1, 2), vec![leaf(Rule::type_prefix, "&")]);
    let e = parser().parse_type(&missing).unwrap_err();
    assert!(matches!(e.kind, ParseErrorKind::TypeMissingBase));
    assert_eq!(e.span, sp(1, 2));

    let bad_prefix = node(Rule::type_, vec![leaf(Rule::type_prefix, "%"), node(Rule::base_type, vec![ident("i8")])]);
    let e = parser().parse_type(&bad_prefix).unwrap_err();
    assert!(matches!(e.kind, ParseErrorKind::InvalidTypePrefix(ref s) if s == "%"));

    let unexpected = node(Rule::type_, vec![leaf(Rule::block, "{}")]);
    let e = parser().parse_type(&unexpected).unwrap_err();
    assert!(matches!(e.kind, ParseErrorKind::UnexpectedRule(ParseContext::TypeComponent, Rule::block)));

    let too_big = node(
        Rule::type_,
        vec![node(Rule::base_type, vec![node(Rule::array_type, vec![leaf(Rule::other, "4294967296")]), ident("u8")])],
    );
    let e = parser().parse_type(&too_big).unwrap_err();
    assert!(matches!(e.kind, ParseErrorKind::InvalidArraySize(ref s, NumberError::PosOverflow) if s == "4294967296"));

    let bad_base = node(Rule::type_, vec![node(Rule::base_type, vec![leaf(Rule::integer, "1")])]);
    let e = parser().parse_type(&bad_base).unwrap_err();
    assert!(matches!(e.kind, ParseErrorKind::UnexpectedRule(ParseContext::BaseType, Rule::integer)));
}

#[test]
fn binary_chains_group_to_the_left() {
    // 10 - 4 - 3
    let t = |v: &str| node(Rule::term, vec![un(prim(int_tok(v)))]);
    let arith = node_at(Rule::arithmetic, sp(0, 10), vec![t("10"), op("-"), t("4"), op("-"), t("3")]);
    let e = parser().parse_expr(&expr_of(arith)).unwrap();
    match e {
        Expr::Binary(b) => {
            assert_eq!(b.op, BinOp::Sub);
            assert_eq!(b.span, sp(0, 10));
            assert!(matches!(*b.right, Expr::Integer(3, None, _)));
            match *b.left {
                Expr::Binary(inner) => {
                    assert!(matches!(*inner.left, Expr::Integer(10, None, _)));
                    assert!(matches!(*inner.right, Expr::Integer(4, None, _)));
                },
                other => panic!("unexpected {:?}", other),
            }
        },
        other => panic!("unexpected {:?}", other),
    }
}

#[test]
fn every_operator_spelling() {
    let cases: Vec<(Rule, &str, BinOp)> = vec![
        (Rule::logical, "&&", BinOp::And),
        (Rule::logical, "||", BinOp::Or),
        (Rule::bitwise, "&", BinOp::BitAnd),
        (Rule::bitwise, "|", BinOp::BitOr),
        (Rule::bitwise, "^", BinOp::BitXOR),
        (Rule::bitwise, "<<", BinOp::BitSHL),
        (Rule::bitwise, ">>", BinOp::BitSHR),
        (Rule::comparison, "==", BinOp::Eq),
        (Rule::comparison, "!=", BinOp::Neq),
        (Rule::comparison, ">", BinOp::Gt),
        (Rule::comparison, "<", BinOp::Lt),
        (Rule::comparison, ">=", BinOp::Gte),
        (Rule::comparison, "<=", BinOp::Lte),
        (Rule::arithmetic, "+", BinOp::Add),
        (Rule::arithmetic, "-", BinOp::Sub),
        (Rule::term, "*", BinOp::Mul),
        (Rule::term, "/", BinOp::Div),
        (Rule::term, "%", BinOp::Mod),
        (Rule::term, "//", BinOp::DivFloor),
    ];
    for (rule, spelling, expected) in cases {
        // The operands of a level are nodes of the next level, down to a unary node.
        let levels = [Rule::logical, Rule::bitwise, Rule::comparison, Rule::arithmetic, Rule::term];
        let pos = levels.iter().position(|r| *r == rule).unwrap();
        let operand = |v: &str| {
            let mut n = un(prim(int_tok(v)));
            for r in levels[pos + 1..].iter().rev() {
                n = node(*r, vec![n]);
            }
            n
        };
        let chain = node(rule, vec![operand("1"), op(spelling), operand("2")]);
        match parser().parse_expr(&expr_of(chain)).unwrap() {
            Expr::Binary(b) => assert_eq!(b.op, expected),
            other => panic!("unexpected {:?}", other),
        }
    }
}

#[test]
fn invalid_operator_is_reported_at_its_token() {
    let t = |v: &str| node(Rule::term, vec![un(prim(int_tok(v)))]);
    let mut bad = op("*");
    bad.span = sp(3, 4);
    let arith = node(Rule::arithmetic, vec![t("1"), bad, t("2")]);
    let e = parser().parse_expr(&expr_of(arith)).unwrap_err();
    assert!(matches!(e.kind, ParseErrorKind::InvalidOperator(OperatorClass::Arithmetic, ref s) if s == "*"));
    assert_eq!(e.span, sp(3, 4));
}

#[test]
fn unary_operators_apply_nearest_first() {
    let u = node(
        Rule::unary,
        vec![leaf(Rule::unary_ops, "-"), leaf(Rule::unary_ops, "!"), prim(ident("x"))],
    );
    match parser().parse_expr(&expr_of(u)).unwrap() {
        Expr::Unary(outer) => {
            assert_eq!(outer.op, UnOp::Neg);
            match *outer.expr {
                Expr::Unary(inner) => {
                    assert_eq!(inner.op, UnOp::Not);
                    assert!(matches!(*inner.expr, Expr::Var(ref n, _) if n == "x"));
                },
                other => panic!("unexpected {:?}", other),
            }
        },
        other => panic!("unexpected {:?}", other),
    }
    let bad = node(Rule::unary, vec![leaf(Rule::unary_ops, "+"), prim(ident("x"))]);
    let e = parser().parse_expr(&expr_of(bad)).unwrap_err();
    assert!(matches!(e.kind, ParseErrorKind::UnknownUnaryOperator(ref s) if s == "+"));
    let all = ["&", "*", "!", "-", "~"];
    let ops = [UnOp::Ref, UnOp::Deref, UnOp::Not, UnOp::Neg, UnOp::BitNot];
    for (s, o) in all.iter().zip(ops.iter()) {
        assert_eq!(parser().parse_unary_op(&leaf(Rule::unary_ops, s)).unwrap(), *o);
    }
}

#[test]
fn literals() {
    let p = parser();
    let suffixed = node(Rule::integer, vec![leaf(Rule::other, "-42"), leaf(Rule::other, "i_64")]);
    match p.parse_primary(&prim(suffixed)).unwrap().unwrap() {
        Expr::Integer(v, Some(Type::Named(t, _)), _) => {
            assert_eq!(v, -42);
            assert_eq!(t, "i64");
        },
        other => panic!("unexpected {:?}", other),
    }
    let overflow = node_at(Rule::integer, sp(2, 30), vec![leaf(Rule::other, "9223372036854775808")]);
    let e = p.parse_primary(&prim(overflow)).unwrap().unwrap_err();
    assert!(matches!(e.kind, ParseErrorKind::InvalidInteger(_, NumberError::PosOverflow)));
    assert_eq!(e.span, sp(2, 30));
    let frac = node(Rule::fractional, vec![leaf(Rule::other, "2.5"), leaf(Rule::other, "f32")]);
    assert!(matches!(p.parse_primary(&prim(frac)).unwrap().unwrap(), Expr::Fractional(ref s, Some(_), _) if s == "2.5"));
    assert!(matches!(p.parse_primary(&prim(leaf(Rule::boolean, "true"))).unwrap().unwrap(), Expr::Boolean(true, _)));
    assert!(matches!(p.parse_primary(&prim(leaf(Rule::boolean, "false"))).unwrap().unwrap(), Expr::Boolean(false, _)));
    assert!(matches!(p.parse_primary(&prim(leaf(Rule::char, "'a'"))).unwrap().unwrap(), Expr::Char('a', _)));
    assert!(matches!(p.parse_primary(&prim(leaf(Rule::char, "'\\n'"))).unwrap().unwrap(), Expr::Char('\n', _)));
    let s = p.parse_primary(&prim(leaf(Rule::string, "\"a\\tb\\\\\""))).unwrap().unwrap();
    assert!(matches!(s, Expr::String(ref v, _) if v == "a\tb\\"));
    let e = p.parse_string(&leaf(Rule::string, "\"")).unwrap_err();
    assert!(matches!(e.kind, ParseErrorKind::InvalidStringLiteral));
    let e = p.parse_primary(&node_at(Rule::other, sp(5, 6), vec![leaf(Rule::block, "")])).unwrap().unwrap_err();
    assert!(matches!(e.kind, ParseErrorKind::UnexpectedRule(ParseContext::PrimaryToken, Rule::block)));
    assert_eq!(e.span, sp(5, 6));
}

#[test]
fn char_literal_forms() {
    let p = parser();
    assert_eq!(p.parse_char_literal("'x'"), 'x');
    assert_eq!(p.parse_char_literal("'\\t'"), '\t');
    assert_eq!(p.parse_char_literal("'\\r'"), '\r');
    assert_eq!(p.parse_char_literal("'\\''"), '\'');
    assert_eq!(p.parse_char_literal("'\\\\'"), '\\');
    assert_eq!(p.parse_char_literal("''"), '\0');
    assert_eq!(p.parse_char_literal("z"), 'z');
    assert_eq!(p.parse_char_literal("'é'"), 'é');
}

#[test]
fn calls_are_namespaced_only_for_known_functions() {
    let mut p = parser();
    let call = |name: &str| {
        prim(node(
            Rule::call,
            vec![
                ident(name),
                node(
                    Rule::other,
                    vec![
                        node(Rule::other, vec![node(Rule::positional_arg, vec![e_int("1")])]),
                        node(Rule::other, vec![node(Rule::named_arg, vec![ident("y"), e_var("z")])]),
                    ],
                ),
            ],
        ))
    };
    match p.parse_primary(&call("f")).unwrap().unwrap() {
        Expr::Call(c) => {
            assert_eq!(c.target, "f");
            assert_eq!(c.args.len(), 2);
            assert!(matches!(c.args[0], Arg::Positional(Expr::Integer(1, None, _), _)));
            assert!(matches!(c.args[1], Arg::Named(ref n, Expr::Var(ref v, _), _) if n == "y" && v == "z"));
        },
        other => panic!("unexpected {:?}", other),
    }
    p.add_function("f".to_string());
    p.add_function("f".to_string());
    assert_eq!(p.functions.len(), 1);
    match p.parse_primary(&call("f")).unwrap().unwrap() {
        Expr::Call(c) => assert_eq!(c.target, "test::f"),
        other => panic!("unexpected {:?}", other),
    }
    let bad = prim(node(
        Rule::call,
        vec![ident("g"), node(Rule::other, vec![node(Rule::other, vec![leaf(Rule::block, "")])])],
    ));
    let e = p.parse_primary(&bad).unwrap().unwrap_err();
    assert!(matches!(e.kind, ParseErrorKind::UnexpectedRule(ParseContext::ArgumentType, Rule::block)));
}

#[test]
fn arrays_and_struct_literals() {
    let p = parser();
    let arr = prim(node(Rule::array, vec![e_int("1"), e_int("2"), e_int("3")]));
    assert!(matches!(p.parse_primary(&arr).unwrap().unwrap(), Expr::Array(ref v, _) if v.len() == 3));
    let init = prim(node(
        Rule::struct_init,
        vec![
            ident("Point"),
            node(
                Rule::other,
                vec![node(Rule::other, vec![ident("x"), e_int("1")]), node(Rule::other, vec![ident("y"), e_int("2")])],
            ),
        ],
    ));
    match p.parse_primary(&init).unwrap().unwrap() {
        Expr::StructInit(s) => {
            assert_eq!(s.name, "Point");
            assert_eq!(s.fields.len(), 2);
            assert_eq!(s.fields[1].name, "y");
        },
        other => panic!("unexpected {:?}", other),
    }
}

#[test]
fn statements() {
    let p = parser();
    let stmt = |inner: Node| node(Rule::other, vec![inner]);
    let let_mut = stmt(node(Rule::let_stmt, vec![leaf(Rule::other, "mut"), ident("x"), ty("i32"), e_int("1")]));
    match p.parse_stmt(&let_mut).unwrap() {
        Stmt::Let(l) => {
            assert!(l.mutable);
            assert_eq!(l.name, "x");
            assert!(l.value.is_some());
        },
        other => panic!("unexpected {:?}", other),
    }
    let let_plain = stmt(node(Rule::let_stmt, vec![ident("y"), ty("bool")]));
    assert!(matches!(p.parse_stmt(&let_plain).unwrap(), Stmt::Let(ref l) if !l.mutable && l.value.is_none()));
    let assign = stmt(node(Rule::assign_stmt, vec![ident("x"), e_int("2")]));
    assert!(matches!(p.parse_stmt(&assign).unwrap(), Stmt::AssignStmt(ref a) if a.name == "x"));
    let ret = node_at(Rule::other, sp(8, 9), vec![node(Rule::return_stmt, vec![])]);
    assert!(matches!(p.parse_stmt(&ret).unwrap(), Stmt::Return(None, s) if s == sp(8, 9)));
    assert!(matches!(p.parse_stmt(&stmt(leaf(Rule::break_stmt, "break"))).unwrap(), Stmt::Break(_)));
    assert!(matches!(p.parse_stmt(&stmt(leaf(Rule::continue_stmt, "continue"))).unwrap(), Stmt::Continue(_)));
    let body = || node(Rule::block, vec![]);
    let if_stmt = stmt(node(
        Rule::if_stmt,
        vec![
            e_var("c"),
            body(),
            node(Rule::else_if, vec![e_var("d"), body()]),
            node(Rule::else_block, vec![body()]),
            node(Rule::else_if, vec![e_var("e"), body()]),
        ],
    ));
    match p.parse_stmt(&if_stmt).unwrap() {
        Stmt::If(i) => {
            assert_eq!(i.else_ifs.len(), 2);
            assert!(i.else_block.is_some());
        },
        other => panic!("unexpected {:?}", other),
    }
    let while_stmt = stmt(node(Rule::while_stmt, vec![e_var("c"), body()]));
    assert!(matches!(p.parse_stmt(&while_stmt).unwrap(), Stmt::While(_)));
    let for_stmt = stmt(node(Rule::for_stmt, vec![e_int("0"), e_int("1"), body()]));
    assert!(matches!(p.parse_stmt(&for_stmt).unwrap(), Stmt::For(_)));
    let loop_stmt = stmt(node(Rule::loop_stmt, vec![body()]));
    assert!(matches!(p.parse_stmt(&loop_stmt).unwrap(), Stmt::Loop(_)));
    let e = p.parse_stmt(&stmt(leaf(Rule::integer, "1"))).unwrap_err();
    assert!(matches!(e.kind, ParseErrorKind::UnexpectedRule(ParseContext::Statement, Rule::integer)));
    let block = node(Rule::block, vec![assign, let_plain]);
    assert_eq!(p.parse_block(&block).unwrap().stmts.len(), 2);
}

#[test]
fn programs_record_functions_and_name_them() {
    let function = |name: &str| {
        node(
            Rule::item,
            vec![node(
                Rule::function,
                vec![
                    ident(name),
                    node(Rule::params, vec![node(Rule::other, vec![ident("a"), ty("i32")])]),
                    ty("i32"),
                    node(Rule::block, vec![]),
                ],
            )],
        )
    };
    let decl = node(
        Rule::item,
        vec![node(Rule::declaration, vec![ident("puts"), node(Rule::params, vec![]), ty("i32")])],
    );
    let import = node(Rule::item, vec![node(Rule::import_stmt, vec![ident(" std ")])]);
    let tree = node_at(
        Rule::program,
        sp(0, 99),
        vec![import, function("add"), function("main"), decl, leaf(Rule::EOI, "")],
    );
    let mut p: JunoASTParser = ParserState::new("m".to_string());
    let prog = p.parse_program(&tree).unwrap();
    assert_eq!(prog.span, sp(0, 99));
    assert_eq!(prog.items.len(), 4);
    assert!(matches!(prog.items[0], Item::Import(ref i, _) if i.path == "std"));
    assert!(matches!(prog.items[1], Item::Function(ref f, _) if f.name == "m::add" && f.raw_name == "add"));
    assert!(matches!(prog.items[2], Item::Function(ref f, _) if f.name == "main" && f.params.len() == 1));
    assert!(matches!(prog.items[3], Item::Declaration(ref d, _) if d.name == "puts"));
    assert_eq!(p.functions, vec!["add".to_string(), "main".to_string()]);

    let free = libjuno::parser::parse_program(&tree, "m".to_string(), String::new(), String::new()).unwrap();
    assert_eq!(free.items.len(), 4);
}

#[test]
fn item_errors() {
    let mut p = parser();
    let no_body = node(Rule::item, vec![node_at(Rule::function, sp(1, 5), vec![ident("f"), ty("i32")])]);
    let e = p.parse_item(&no_body).unwrap().unwrap_err();
    assert!(matches!(e.kind, ParseErrorKind::FunctionMissingBody));
    assert_eq!(e.span, sp(1, 5));
    let no_ret = node(Rule::item, vec![node(Rule::declaration, vec![ident("f"), node(Rule::params, vec![])])]);
    let e = p.parse_item(&no_ret).unwrap().unwrap_err();
    assert!(matches!(e.kind, ParseErrorKind::DeclarationMissingReturnType));
    let odd = node(Rule::item, vec![leaf(Rule::block, "")]);
    let e = p.parse_item(&odd).unwrap().unwrap_err();
    assert!(matches!(e.kind, ParseErrorKind::UnexpectedRule(ParseContext::Item, Rule::block)));
    let prog = node(Rule::program, vec![leaf(Rule::block, "")]);
    let e = p.parse_program(&prog).unwrap_err();
    assert!(matches!(e.kind, ParseErrorKind::UnexpectedRule(ParseContext::Program, Rule::block)));
    let s = node(
        Rule::item,
        vec![node(
            Rule::struct_def,
            vec![ident("P"), node(Rule::other, vec![node(Rule::other, vec![ident("x"), ty("i32")])])],
        )],
    );
    assert!(matches!(p.parse_item(&s).unwrap().unwrap(), Item::Struct(ref d, _) if d.fields.len() == 1 && d.name == "P"));
}

#[test]
fn state_helpers() {
    let p = ParserState::new("ns".to_string()).with_source("src".to_string(), "f.juno".to_string());
    assert_eq!(p.source_code, "src");
    assert_eq!(p.source_file_name, "f.juno");
    assert_eq!(p.with_namespace("x"), "ns::x");
    assert_eq!(p.clean_ident("  abc\t"), "abc");
}

#[test]
fn text_helpers() {
    assert_eq!(trim(" \u{3000}a b\n"), "a b");
    assert_eq!(trim(trim("  x  ").as_str()), trim("  x  "));
    assert_eq!(replace_pair("a\\nb\\\\n", '\\', 'n', '\n'), "a\nb\\\n");
    assert_eq!(remove_underscores("_i_3_2"), "i32");
    assert!(text_eq("abc", "abc"));
    assert!(!text_eq("abc", "abd"));
    assert_eq!(parse_i64("+17"), Ok(17));
    assert_eq!(parse_i64("-9223372036854775808"), Ok(i64::MIN));
    assert_eq!(parse_i64("-9223372036854775809"), Err(NumberError::NegOverflow));
    assert_eq!(parse_i64(""), Err(NumberError::Empty));
    assert_eq!(parse_i64("-"), Err(NumberError::InvalidDigit));
    assert_eq!(parse_i64("12a"), Err(NumberError::InvalidDigit));
    assert_eq!(parse_u32("4294967295"), Ok(u32::MAX));
    assert_eq!(parse_u32("-1"), Err(NumberError::InvalidDigit));
    assert_eq!(parse_u32("99999999999x"), Err(NumberError::PosOverflow));
    for s in ["0", "12", "+5", "-3", "", "+", "x1", "4294967296", "007"] {
        assert_eq!(parse_u32(s).ok(), s.parse::<u32>().ok(), "{}", s);
    }
    for s in ["0", "-12", "+5", "9223372036854775807", "9223372036854775808", "-", "1_0"] {
        assert_eq!(parse_i64(s).ok(), s.parse::<i64>().ok(), "{}", s);
    }
}

#[test]
fn trees_missing_nodes_give_none() {
    let mut p = parser();
    assert!(p.try_parse_expr(&node(Rule::expr, vec![])).is_none());
    assert!(p.try_parse_type(&node(Rule::type_, vec![node(Rule::base_type, vec![])])).is_none());
    assert!(p.try_parse_type(&node(Rule::type_, vec![node(Rule::base_type, vec![ident("a b")])])).is_none());
    assert!(p.try_parse_stmt(&node(Rule::other, vec![node(Rule::let_stmt, vec![ident("x")])])).is_none());
    assert!(p.try_parse_block(&node(Rule::block, vec![node(Rule::other, vec![])])).is_none());
    // A chain whose last operator has no right operand.
    let t = node(Rule::term, vec![un(prim(int_tok("1")))]);
    let dangling = node(Rule::arithmetic, vec![t, op("+")]);
    assert!(p.try_parse_expr(&expr_of(dangling)).is_none());
    // An error met before a missing node is what the builder gives.
    let bad_then_missing = node(
        Rule::arithmetic,
        vec![node(Rule::term, vec![un(prim(leaf(Rule::block, "")))]), op("+")],
    );
    assert!(matches!(p.try_parse_expr(&expr_of(bad_then_missing)), Some(Err(_))));
    let prog = node(Rule::program, vec![node(Rule::item, vec![])]);
    assert!(p.try_parse_program(&prog).is_none());
}

#[test]
fn error_messages() {
    let p = parser();
    let e = p.try_parse_type(&node(Rule::type_, vec![leaf(Rule::type_prefix, "%"), node(Rule::base_type, vec![ident("i8")])]))
        .unwrap()
        .unwrap_err();
    assert_eq!(e.message(), "invalid type prefix: %");
    let e = p.try_parse_type(&node(Rule::type_, vec![leaf(Rule::block, "")])).unwrap().unwrap_err();
    assert_eq!(e.message(), "unexpected type component: block");
    let e = p.parse_primary(&prim(node(Rule::integer, vec![leaf(Rule::other, "1x")]))).unwrap().unwrap_err();
    assert_eq!(e.message(), "invalid integer '1x': invalid digit found in string");
    assert_eq!(e.message(), format!("invalid integer '1x': {}", "1x".parse::<i64>().unwrap_err()));
    let e = p.parse_string(&leaf(Rule::string, "x")).unwrap_err();
    assert_eq!(e.message(), "invalid string literal: expected quoted string");
    let too_big = node(
        Rule::type_,
        vec![node(Rule::base_type, vec![node(Rule::array_type, vec![leaf(Rule::other, "")]), ident("u8")])],
    );
    let e = p.try_parse_type(&too_big).unwrap().unwrap_err();
    assert_eq!(e.message(), "invalid array size '': cannot parse integer from empty string");
}

#[test]
fn plain_string_literal_is_kept() {
    let p = parser();
    let s = p.parse_string(&leaf(Rule::string, "\"plain text, no escapes\"")).unwrap();
    assert!(matches!(s, Expr::String(ref v, _) if v == "plain text, no escapes"));
}

#[test]
fn float_literals_read_as_std_reads_them() {
    let samples = [
        "1.5", "0.", ".5", ".", "", "+", "-", "1", "12e3", "1.5E-7", "1e", "1e+", "e5", "1.2.3", "+.5",
        "-0.0", "inf", "-Infinity", "NaN", "nAn", "infin", "1_0.0", " 1.0", "1.0 ", "1.5f", "0x10",
        "١.٥", "1e+07", "1..", "..1", "+inf", "infinityx",
    ];
    for s in samples {
        let ours = float_literal(s);
        match s.parse::<f64>() {
            Ok(_) => assert_eq!(ours, Ok(()), "{:?}", s),
            Err(_) if s.is_empty() => assert_eq!(ours, Err(FloatError::Empty)),
            Err(_) => assert_eq!(ours, Err(FloatError::Invalid), "{:?}", s),
        }
    }
}

#[test]
fn invalid_fractional_literal_is_an_error() {
    let p = parser();
    let bad = node_at(Rule::fractional, sp(3, 9), vec![leaf(Rule::other, "1.2.3")]);
    let e = p.parse_primary(&prim(bad)).unwrap().unwrap_err();
    assert!(matches!(e.kind, ParseErrorKind::InvalidFloat(ref t, FloatError::Invalid) if t == "1.2.3"));
    assert_eq!(e.span, sp(3, 9));
    assert_eq!(e.message(), format!("invalid float '1.2.3': {}", "1.2.3".parse::<f64>().unwrap_err()));
    let empty = node(Rule::fractional, vec![leaf(Rule::other, "")]);
    let e = p.parse_primary(&prim(empty)).unwrap().unwrap_err();
    assert_eq!(e.message(), format!("invalid float '': {}", "".parse::<f64>().unwrap_err()));
}
