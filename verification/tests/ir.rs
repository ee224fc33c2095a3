use libjuno::ast::{
    AssignStmt, BinOp, BinaryExpr, Block, Declaration, Expr, ForStmt, Function, Item, JunoSpan,
    LetStmt, Param, Program, Stmt, StructDef, StructField, Type, UnOp, UnaryExpr, WhileStmt,
};
use libjuno::metair::coercion::LowerError;
use libjuno::metair::display::decimal;
use libjuno::metair::type_eq::types_equal;
use libjuno::symbol_map::SymbolMap;
use libjuno::{
    MetaBinOp, MetaConst, MetaDeclaration, MetaExpr, MetaExprKind, MetaIRGen, MetaProgram, MetaStmt,
    MetaStruct, MetaType, MetaUnOp,
};

fn sp() -> JunoSpan {
    JunoSpan { start: 0, end: 0 }
}

fn at(start: usize, end: usize) -> JunoSpan {
    JunoSpan { start, end }
}

fn named(t: &str) -> Type {
    Type::Named(t.to_string(), sp())
}

fn mnamed(t: &str) -> MetaType {
    MetaType::Named(t.to_string(), sp())
}

fn int_(v: i64) -> Expr {
    Expr::Integer(v, None, sp())
}

fn var(n: &str) -> Expr {
    Expr::Var(n.to_string(), sp())
}

fn bin(l: Expr, op: BinOp, r: Expr) -> Expr {
    Expr::Binary(BinaryExpr { span: sp(), left: Box::new(l), op, right: Box::new(r) })
}

fn let_(name: &str, ty: Type, value: Option<Expr>) -> Stmt {
    Stmt::Let(LetStmt { span: sp(), mutable: false, name: name.to_string(), ty, value })
}

fn block(stmts: Vec<Stmt>) -> Block {
    Block { span: sp(), stmts }
}

fn param(name: &str, ty: Type) -> Param {
    Param { span: sp(), name: name.to_string(), ty }
}

fn function(name: &str, params: Vec<Param>, ret: Option<Type>, stmts: Vec<Stmt>) -> Item {
    Item::Function(
        Function {
            span: sp(),
            name: name.to_string(),
            raw_name: name.to_string(),
            params,
            return_type: ret,
            body: block(stmts),
        },
        sp(),
    )
}

fn program(items: Vec<Item>) -> Program {
    Program { span: at(0, 10), items }
}

fn lower(p: &Program) -> MetaProgram {
    let mut gen = MetaIRGen::new(p, String::new(), "test.juno".to_string());
    gen.lower_program(p)
}

fn empty_meta_program() -> MetaProgram {
    MetaProgram {
        span: sp(),
        functions: SymbolMap::new(),
        declarations: SymbolMap::new(),
        structs: SymbolMap::new(),
        struct_fields: SymbolMap::new(),
        string_table: Vec::new(),
        symbol_table: Vec::new(),
    }
}

fn body_of<'a>(p: &'a MetaProgram, f: &str) -> &'a Vec<MetaStmt> {
    &p.functions.get(f).unwrap().body
}

fn let_value(s: &MetaStmt) -> &MetaExpr {
    match s {
        MetaStmt::Let { value: Some(v), .. } => v,
        other => panic!("not a let with a value: {:?}", other),
    }
}

/// Lowering a declaration adds it to the program's declaration table.
#[test]
fn lowering_a_declaration_adds_it_to_the_table() {
    let p = program(vec![Item::Declaration(
        Declaration {
            span: sp(),
            name: "add".to_string(),
            params: vec![param("a", named("i32")), param("b", named("i32"))],
            return_type: Some(named("i32")),
        },
        sp(),
    )]);
    let meta = lower(&p);
    let decl = meta.declarations.get("add").unwrap();
    assert_eq!(decl.name, "add");
    assert_eq!(decl.params.len(), 2);
    assert_eq!(decl.params[0].name, "a");
    assert!(types_equal(&decl.params[1].ty, &mnamed("i32")));
    assert!(matches!(&decl.ret, Some(MetaType::Named(n, _)) if n == "i32"));
    assert!(meta.functions.get("add").is_none());

    let mut prog = empty_meta_program();
    prog.declarations.insert(
        "add".into(),
        MetaDeclaration {
            name: "add".into(),
            params: vec![
                libjuno::metair::MetaParam { name: "a".into(), ty: mnamed("i32"), span: sp() },
                libjuno::metair::MetaParam { name: "b".into(), ty: mnamed("i32"), span: sp() },
            ],
            ret: Some(mnamed("i32")),
            span: sp(),
        },
    );
    assert!(prog.declarations.get("add").is_some());
}

/// A named type is shown as its name alone.
#[test]
fn named_type_text_is_its_name() {
    assert_eq!(mnamed("hello").to_text(), "hello");
}

/// A type-mismatch message names both types.
#[test]
fn type_mismatch_message_names_both_types() {
    let err = LowerError::TypeMismatch { span: sp(), lhs: mnamed("x"), rhs: mnamed("bool") };
    let msg = err.message();
    assert!(msg.contains("x"));
    assert_eq!(msg, "type mismatch: x vs bool");
}

/// Lowering an empty program adds nothing to any table.
#[test]
fn lowering_an_empty_program_adds_nothing() {
    let p = program(vec![]);
    let meta = lower(&p);
    assert_eq!(meta.functions.len(), 0);
    assert_eq!(meta.declarations.len(), 0);
    assert_eq!(meta.structs.len(), 0);
    assert_eq!(meta.struct_fields.len(), 0);
    assert!(meta.string_table.is_empty());
    assert!(meta.symbol_table.is_empty());
    assert_eq!(meta.span, at(0, 10));
}

/// Lowering a struct adds it to the struct table with its fields by index.
#[test]
fn lowering_a_struct_adds_it_with_fields_by_index() {
    let p = program(vec![Item::Struct(
        StructDef {
            span: sp(),
            name: "Point".to_string(),
            fields: vec![
                StructField { span: sp(), name: "x".to_string(), ty: named("i32") },
                StructField { span: sp(), name: "y".to_string(), ty: named("i64") },
            ],
        },
        sp(),
    )]);
    let meta = lower(&p);
    let s = meta.get_struct("Point".to_string()).unwrap();
    assert_eq!(s.name, "Point");
    assert_eq!(s.fields.len(), 2);
    assert_eq!(s.fields[0].index, 0);
    assert_eq!(s.fields[1].index, 1);
    assert!(types_equal(&s.fields[1].ty, &mnamed("i64")));
    let order = meta.struct_fields.get("Point").unwrap();
    assert_eq!(order, &vec!["x".to_string(), "y".to_string()]);
    assert_eq!(meta.symbol_table, vec!["Point".to_string()]);
}

/// A struct is found only by its own name.
#[test]
fn struct_is_found_only_by_its_own_name() {
    let mut prog = empty_meta_program();
    prog.structs.insert(
        "Point".into(),
        MetaStruct { name: "Point".into(), fields: Vec::new(), span: sp() },
    );
    assert!(prog.get_struct("mod.Point".to_string()).is_none());
    assert!(prog.get_struct("Point".to_string()).is_some());
}

/// A parameter of a struct type keeps that type in the meta IR.
#[test]
fn struct_typed_parameter_keeps_its_type() {
    let p = program(vec![
        Item::Struct(StructDef { span: sp(), name: "Point".to_string(), fields: vec![] }, sp()),
        function("take", vec![param("p", named("Point"))], None, vec![]),
    ]);
    let meta = lower(&p);
    assert!(meta.get_struct("Point".to_string()).is_some());
    let f = meta.functions.get("take").unwrap();
    assert!(matches!(&f.params[0].ty, MetaType::Named(n, _) if n == "Point"));
}

#[test]
fn intern_symbol_twice_keeps_one_entry() {
    let p = program(vec![]);
    let mut gen = MetaIRGen::new(&p, String::new(), String::new());
    let a = gen.intern_symbol("main");
    let b = gen.intern_symbol("main");
    gen.intern_symbol("other");
    assert_eq!(a, "main");
    assert_eq!(a, b);
    assert_eq!(gen.symbol_list, vec!["main".to_string(), "other".to_string()]);
}

#[test]
fn intern_string_gives_table_entry_and_stable_id() {
    let p = program(vec![]);
    let mut gen = MetaIRGen::new(&p, String::new(), String::new());
    let a = gen.intern_string("hello");
    let b = gen.intern_string("world");
    let c = gen.intern_string("hello");
    assert_eq!(a, 0);
    assert_eq!(b, 1);
    assert_eq!(c, a);
    assert_eq!(gen.string_list[a as usize], "hello");
    assert_eq!(gen.string_list[b as usize], "world");
    assert_eq!(gen.next_string, 2);
    gen.next_string = u32::MAX;
    assert_eq!(gen.try_intern_string("new"), None);
    assert_eq!(gen.try_intern_string("world"), Some(1));
}

#[test]
fn intern_struct_field_twice_same_index() {
    let p = program(vec![]);
    let mut gen = MetaIRGen::new(&p, String::new(), String::new());
    let x = gen.intern_struct_field("P".to_string(), "x");
    let y = gen.intern_struct_field("P".to_string(), "y");
    let x2 = gen.intern_struct_field("P".to_string(), "x");
    assert_eq!((x, y, x2), (0, 1, 0));
    gen.next_struct_field = u32::MAX;
    assert_eq!(gen.try_intern_struct_field("P".to_string(), "z"), None);
    assert_eq!(gen.try_intern_struct_field("P".to_string(), "y"), Some(1));
}

#[test]
fn push_then_pop_scope_restores() {
    let p = program(vec![]);
    let mut gen = MetaIRGen::new(&p, String::new(), String::new());
    gen.push_scope();
    gen.insert_local("a".to_string(), mnamed("i32"));
    gen.push_scope();
    assert_eq!(gen.locals.len(), 2);
    gen.pop_scope();
    assert_eq!(gen.locals.len(), 1);
    assert!(types_equal(&gen.lookup_local("a".to_string()), &mnamed("i32")));
}

#[test]
fn insert_local_shadows_and_leaves_others() {
    let p = program(vec![]);
    let mut gen = MetaIRGen::new(&p, String::new(), String::new());
    gen.push_scope();
    gen.insert_local("a".to_string(), mnamed("i32"));
    gen.insert_local("b".to_string(), mnamed("bool"));
    gen.push_scope();
    gen.insert_local("a".to_string(), mnamed("i64"));
    assert!(types_equal(&gen.lookup_local_type("a".to_string()), &mnamed("i64")));
    assert!(types_equal(&gen.lookup_local("b".to_string()), &mnamed("bool")));
    gen.pop_scope();
    assert!(types_equal(&gen.lookup_local("a".to_string()), &mnamed("i32")));
}

#[test]
fn type_equality_ignores_spans_and_refuses_unit() {
    let a = MetaType::Pointer(Box::new(MetaType::Named("i8".into(), at(1, 2))), at(0, 3));
    let b = MetaType::Pointer(Box::new(MetaType::Named("i8".into(), at(5, 6))), at(4, 7));
    let c = MetaType::Reference(Box::new(mnamed("i8")), sp());
    assert!(types_equal(&a, &b) && types_equal(&b, &a));
    assert!(!types_equal(&a, &c));
    assert!(a == b);
    let arr3 = MetaType::Array { span: sp(), elem: Box::new(mnamed("i16")), size: 3 };
    let arr4 = MetaType::Array { span: sp(), elem: Box::new(mnamed("i16")), size: 4 };
    assert!(!types_equal(&arr3, &arr4));
    assert!(!types_equal(&MetaType::Unit(sp()), &MetaType::Unit(sp())));
}

#[test]
fn type_text_forms() {
    let arr = MetaType::Array { span: sp(), elem: Box::new(mnamed("i16")), size: 40 };
    assert_eq!(arr.to_text(), "[i16; 40] (arr)");
    let p = MetaType::Pointer(Box::new(MetaType::Reference(Box::new(mnamed("u8")), sp())), sp());
    assert_eq!(p.to_text(), "*&u8 (ref) (ptr)");
    assert_eq!(MetaType::Unit(sp()).to_text(), "Unit");
    assert_eq!(decimal(0), "0");
    assert_eq!(decimal(4294967295), "4294967295");
}

#[test]
fn stmt_span_is_the_statement_span() {
    let e = MetaExpr {
        span: at(3, 4),
        kind: MetaExprKind::Const(MetaConst::Int(1, at(3, 4)), at(3, 4)),
        ty: mnamed("i32"),
    };
    assert_eq!(*MetaStmt::Expr(e).span(), at(3, 4));
    assert_eq!(*MetaStmt::Break(at(7, 9)).span(), at(7, 9));
    assert_eq!(*MetaStmt::Loop { span: at(1, 2), body: vec![] }.span(), at(1, 2));
}

#[test]
fn integer_constant_takes_the_other_operand_type() {
    let p = program(vec![function(
        "main",
        vec![],
        None,
        vec![
            let_("a", named("i64"), Some(int_(1))),
            let_("b", named("i64"), Some(bin(var("a"), BinOp::Add, int_(2)))),
            let_("c", named("bool"), Some(bin(int_(3), BinOp::Lt, var("a")))),
        ],
    )]);
    let meta = lower(&p);
    let body = body_of(&meta, "main");
    let a = let_value(&body[0]);
    assert!(types_equal(&a.ty, &mnamed("i64")));
    let b = let_value(&body[1]);
    match &b.kind {
        MetaExprKind::Binary { op, lhs, rhs, .. } => {
            assert_eq!(*op, MetaBinOp::Add);
            assert!(types_equal(&lhs.ty, &rhs.ty));
            assert!(types_equal(&rhs.ty, &mnamed("i64")));
        },
        other => panic!("unexpected {:?}", other),
    }
    let c = let_value(&body[2]);
    assert!(types_equal(&c.ty, &mnamed("bool")));
    match &c.kind {
        MetaExprKind::Binary { op, lhs, .. } => {
            assert_eq!(*op, MetaBinOp::Lt);
            assert!(types_equal(&lhs.ty, &mnamed("i64")));
        },
        other => panic!("unexpected {:?}", other),
    }
}

#[test]
fn each_operator_lowers_to_its_own() {
    let ops = [
        (BinOp::Add, MetaBinOp::Add),
        (BinOp::Sub, MetaBinOp::Sub),
        (BinOp::Mul, MetaBinOp::Mul),
        (BinOp::Div, MetaBinOp::Div),
        (BinOp::Mod, MetaBinOp::Mod),
        (BinOp::Eq, MetaBinOp::Eq),
        (BinOp::Neq, MetaBinOp::Neq),
        (BinOp::Lt, MetaBinOp::Lt),
        (BinOp::Gt, MetaBinOp::Gt),
        (BinOp::Lte, MetaBinOp::Lte),
        (BinOp::Gte, MetaBinOp::Gte),
        (BinOp::And, MetaBinOp::And),
        (BinOp::Or, MetaBinOp::Or),
        (BinOp::BitAnd, MetaBinOp::BitAnd),
        (BinOp::BitOr, MetaBinOp::BitOr),
        (BinOp::BitXOR, MetaBinOp::BitXOR),
        (BinOp::BitSHL, MetaBinOp::BitSHL),
        (BinOp::BitSHR, MetaBinOp::BitSHR),
    ];
    let stmts: Vec<Stmt> = ops.iter().map(|(op, _)| Stmt::Expr(bin(int_(1), *op, int_(2)))).collect();
    let p = program(vec![function("main", vec![], None, stmts)]);
    let meta = lower(&p);
    let body = body_of(&meta, "main");
    for (i, (op, mop)) in ops.iter().enumerate() {
        match &body[i] {
            MetaStmt::Expr(MetaExpr { kind: MetaExprKind::Binary { op: got, .. }, ty, .. }) => {
                assert_eq!(got, mop);
                let boolean = matches!(
                    op,
                    BinOp::Eq | BinOp::Neq | BinOp::Lt | BinOp::Gt | BinOp::Lte | BinOp::Gte | BinOp::And | BinOp::Or
                );
                let expected = if boolean { "bool" } else { "i32" };
                assert!(types_equal(ty, &mnamed(expected)));
            },
            other => panic!("unexpected {:?}", other),
        }
    }
}

#[test]
fn while_becomes_loop_with_negated_break() {
    let p = program(vec![function(
        "main",
        vec![],
        None,
        vec![
            let_("i", named("i32"), Some(int_(0))),
            Stmt::While(WhileStmt {
                span: at(10, 20),
                condition: bin(var("i"), BinOp::Lt, int_(10)),
                body: block(vec![Stmt::AssignStmt(AssignStmt {
                    span: sp(),
                    name: "i".to_string(),
                    value: bin(var("i"), BinOp::Add, int_(1)),
                })]),
            }),
        ],
    )]);
    let meta = lower(&p);
    match &body_of(&meta, "main")[1] {
        MetaStmt::Loop { span, body } => {
            assert_eq!(*span, at(10, 20));
            assert_eq!(body.len(), 1);
            match &body[0] {
                MetaStmt::If { cond, then_body, else_ifs, else_body, .. } => {
                    assert!(matches!(cond.kind, MetaExprKind::Unary { op: MetaUnOp::Not, .. }));
                    assert!(matches!(then_body[0], MetaStmt::Break(_)));
                    assert!(else_ifs.is_empty());
                    assert_eq!(else_body.as_ref().unwrap().len(), 1);
                },
                other => panic!("unexpected {:?}", other),
            }
        },
        other => panic!("unexpected {:?}", other),
    }
}

#[test]
fn for_statement_lowers_to_break() {
    let p = program(vec![function(
        "main",
        vec![],
        None,
        vec![Stmt::For(ForStmt { span: at(2, 8), init: int_(0), iter: int_(1), body: block(vec![]) })],
    )]);
    let meta = lower(&p);
    assert!(matches!(body_of(&meta, "main")[0], MetaStmt::Break(s) if s == at(2, 8)));
}

#[test]
fn unary_reference_and_dereference_types() {
    let p = program(vec![function(
        "main",
        vec![],
        None,
        vec![
            let_("x", named("i32"), Some(int_(5))),
            let_(
                "p",
                Type::Pointer(Box::new(named("i32")), sp()),
                Some(Expr::Unary(UnaryExpr { span: sp(), op: UnOp::Ref, expr: Box::new(var("x")) })),
            ),
            let_(
                "y",
                named("i32"),
                Some(Expr::Unary(UnaryExpr { span: sp(), op: UnOp::Deref, expr: Box::new(var("p")) })),
            ),
        ],
    )]);
    let meta = lower(&p);
    let body = body_of(&meta, "main");
    assert!(matches!(let_value(&body[1]).ty, MetaType::Pointer(..)));
    assert!(types_equal(&let_value(&body[2]).ty, &mnamed("i32")));
    let f = meta.functions.get("main").unwrap();
    assert_eq!(f.locals.len(), 3);
}

#[test]
fn call_takes_return_type_of_function_declaration_or_builtin() {
    let p = program(vec![
        function("one", vec![], Some(named("i64")), vec![Stmt::Return(Some(int_(1)), sp())]),
        Item::Declaration(
            Declaration { span: sp(), name: "ext".to_string(), params: vec![], return_type: None },
            sp(),
        ),
        function(
            "main",
            vec![],
            None,
            vec![
                Stmt::Expr(Expr::Call(libjuno::ast::Call { span: sp(), target: "one".into(), args: vec![] })),
                Stmt::Expr(Expr::Call(libjuno::ast::Call { span: sp(), target: "ext".into(), args: vec![] })),
                Stmt::Expr(Expr::Call(libjuno::ast::Call { span: sp(), target: "print".into(), args: vec![] })),
            ],
        ),
    ]);
    let mut gen = MetaIRGen::new(&p, String::new(), String::new());
    gen.register_builtin("print".to_string(), named("u8"));
    let meta = gen.lower_program(&p);
    let body = body_of(&meta, "main");
    let ty = |s: &MetaStmt| match s {
        MetaStmt::Expr(e) => e.ty.to_text(),
        other => panic!("unexpected {:?}", other),
    };
    assert_eq!(ty(&body[0]), "i64");
    assert_eq!(ty(&body[1]), "void");
    assert_eq!(ty(&body[2]), "u8");
}

#[test]
fn symbol_map_insert_get_remove() {
    let mut m: SymbolMap<u32> = SymbolMap::new();
    assert_eq!(m.insert("a".to_string(), 1), None);
    assert_eq!(m.insert("b".to_string(), 2), None);
    assert_eq!(m.insert("a".to_string(), 3), Some(1));
    assert_eq!(m.len(), 2);
    assert_eq!(m.get("a"), Some(&3));
    assert!(m.contains_key("b"));
    assert_eq!(m.remove("b"), Some(2));
    assert_eq!(m.remove("b"), None);
    assert!(!m.contains_key("b"));
    assert_eq!(m.len(), 1);
}

#[test]
fn failed_lowering_gives_none() {
    // An unknown variable.
    let p = program(vec![function("main", vec![], None, vec![Stmt::Expr(var("nope"))])]);
    let mut gen = MetaIRGen::new(&p, String::new(), String::new());
    assert!(gen.try_lower_program(&p).is_none());
    // An unknown function.
    let call = Expr::Call(libjuno::ast::Call { span: sp(), target: "nowhere".into(), args: vec![] });
    let p = program(vec![function("main", vec![], None, vec![Stmt::Expr(call)])]);
    let mut gen = MetaIRGen::new(&p, String::new(), String::new());
    assert!(gen.try_lower_program(&p).is_none());
    // Operands whose types cannot agree.
    let p = program(vec![function(
        "main",
        vec![param("a", named("i32")), param("b", named("bool"))],
        None,
        vec![Stmt::Expr(bin(var("a"), BinOp::Add, var("b")))],
    )]);
    let mut gen = MetaIRGen::new(&p, String::new(), String::new());
    assert!(gen.try_lower_program(&p).is_none());
    // Floor division.
    let p = program(vec![function("main", vec![], None, vec![Stmt::Expr(bin(int_(1), BinOp::DivFloor, int_(2)))])]);
    let mut gen = MetaIRGen::new(&p, String::new(), String::new());
    assert!(gen.try_lower_program(&p).is_none());
    // A value that cannot take its declared type.
    let p = program(vec![function("main", vec![], None, vec![let_("b", named("bool"), Some(bin(int_(1), BinOp::Add, int_(2))))])]);
    let mut gen = MetaIRGen::new(&p, String::new(), String::new());
    assert!(gen.try_lower_program(&p).is_none());
    // An array literal longer than its declared type.
    let arr = Expr::Array(vec![int_(1), int_(2), int_(3)], sp());
    let small = Type::Array { elem: Box::new(named("i32")), size: 2, span: sp() };
    let p = program(vec![function("main", vec![], None, vec![let_("xs", small, Some(arr))])]);
    let mut gen = MetaIRGen::new(&p, String::new(), String::new());
    assert!(gen.try_lower_program(&p).is_none());
    // A well-formed program lowers.
    let p = program(vec![function("main", vec![], None, vec![let_("a", named("i32"), Some(int_(1)))])]);
    let mut gen = MetaIRGen::new(&p, String::new(), String::new());
    assert!(gen.try_lower_program(&p).is_some());
}

#[test]
fn lowering_keeps_every_function_and_declaration() {
    let p = program(vec![
        function("f", vec![], None, vec![]),
        Item::Declaration(
            Declaration { span: sp(), name: "ext".to_string(), params: vec![], return_type: None },
            sp(),
        ),
        function("g", vec![param("x", named("i8"))], Some(named("i8")), vec![Stmt::Return(Some(var("x")), sp())]),
    ]);
    let meta = lower(&p);
    assert!(meta.functions.get("f").is_some());
    assert!(meta.functions.get("g").is_some());
    assert!(meta.declarations.get("ext").is_some());
    assert_eq!(meta.functions.len(), 2);
    assert_eq!(meta.declarations.len(), 1);
}
