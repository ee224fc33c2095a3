//! Small Juno programs, written as the trees the grammar gives for them,
//! built into syntax trees and lowered into the meta IR.
use libjuno::ast::{JunoSpan, Program};
use libjuno::parser::parse_program;
use libjuno::parser::tree::{Node, Rule};
use libjuno::{MetaExprKind, MetaIRGen, MetaProgram, MetaStmt, MetaType, MetaUnOp};

fn sp() -> JunoSpan {
    JunoSpan { start: 0, end: 0 }
}

fn leaf(rule: Rule, text: &str) -> Node {
    Node { rule, text: text.to_string(), span: sp(), children: vec![] }
}

fn node(rule: Rule, children: Vec<Node>) -> Node {
    Node { rule, text: String::new(), span: sp(), children }
}

fn ident(s: &str) -> Node {
    leaf(Rule::var_ident, s)
}

fn op(s: &str) -> Node {
    leaf(Rule::other, s)
}

// ----- types -----
fn ty(name: &str) -> Node {
    node(Rule::type_, vec![node(Rule::base_type, vec![ident(name)])])
}

fn ptr_ty(name: &str) -> Node {
    node(Rule::type_, vec![leaf(Rule::type_prefix, "*"), node(Rule::base_type, vec![ident(name)])])
}

fn array_ty(size: &str, elem: &str) -> Node {
    node(
        Rule::type_,
        vec![node(Rule::base_type, vec![node(Rule::array_type, vec![leaf(Rule::other, size)]), ident(elem)])],
    )
}

// ----- expressions -----
/// Precedence levels, loosest first; a chain at one level has operands of
/// the next, and the last level's operands are unary nodes.
const LEVELS: [Rule; 5] = [Rule::logical, Rule::bitwise, Rule::comparison, Rule::arithmetic, Rule::term];

/// An operand at any level: wraps a unary node in the levels below `level`.
fn lift(unary: Node, from: usize) -> Node {
    let mut n = unary;
    for r in LEVELS[from..].iter().rev() {
        n = node(*r, vec![n]);
    }
    n
}

/// A primary token: a node whose first child says what it is.
fn prim(first: Node) -> Node {
    node(Rule::other, vec![first])
}

fn unary(ops: &[&str], p: Node) -> Node {
    let mut children: Vec<Node> = ops.iter().map(|o| leaf(Rule::unary_ops, o)).collect();
    children.push(p);
    node(Rule::unary, children)
}

fn int_p(v: &str) -> Node {
    prim(node(Rule::integer, vec![leaf(Rule::other, v)]))
}

fn var_p(v: &str) -> Node {
    prim(ident(v))
}

fn paren_p(e: Node) -> Node {
    prim(e)
}

/// An expression whose core is a chain at level `level` of `items`
/// (operands already at the next level, and operator tokens).
fn chain(level: usize, items: Vec<Node>) -> Node {
    node(LEVELS[level], items)
}

fn expr(core: Node) -> Node {
    node(Rule::expr, vec![node(Rule::other, vec![core])])
}

fn e_p(p: Node) -> Node {
    expr(node(Rule::primary, vec![p]))
}

/// `a op b` at the level of `op`, with primary operands.
fn bin(a: Node, o: &str, b: Node) -> Node {
    let level = match o {
        "&&" | "||" => 0,
        "&" | "|" | "^" | "<<" | ">>" => 1,
        "==" | "!=" | "<" | ">" | "<=" | ">=" => 2,
        "+" | "-" => 3,
        _ => 4,
    };
    expr(chain(level, vec![lift(unary(&[], a), level + 1), op(o), lift(unary(&[], b), level + 1)]))
}

fn call_p(name: &str, args: Vec<Node>) -> Node {
    let args: Vec<Node> = args
        .into_iter()
        .map(|e| node(Rule::other, vec![node(Rule::positional_arg, vec![e])]))
        .collect();
    prim(node(Rule::call, vec![ident(name), node(Rule::other, args)]))
}

// ----- statements -----
fn stmt(inner: Node) -> Node {
    node(Rule::other, vec![inner])
}

fn let_(name: &str, t: Node, value: Node) -> Node {
    stmt(node(Rule::let_stmt, vec![ident(name), t, value]))
}

fn let_mut(name: &str, t: Node, value: Node) -> Node {
    stmt(node(Rule::let_stmt, vec![leaf(Rule::other, "mut"), ident(name), t, value]))
}

fn ret(e: Node) -> Node {
    stmt(node(Rule::return_stmt, vec![e]))
}

fn block(stmts: Vec<Node>) -> Node {
    node(Rule::block, stmts)
}

// ----- items -----
fn function(name: &str, params: Vec<(&str, Node)>, ret_ty: Option<Node>, body: Vec<Node>) -> Node {
    let params: Vec<Node> = params.into_iter().map(|(n, t)| node(Rule::other, vec![ident(n), t])).collect();
    let mut children = vec![ident(name), node(Rule::params, params)];
    if let Some(t) = ret_ty {
        children.push(t);
    }
    children.push(block(body));
    node(Rule::item, vec![node(Rule::function, children)])
}

fn program(items: Vec<Node>) -> Node {
    let mut items = items;
    items.push(leaf(Rule::EOI, ""));
    node(Rule::program, items)
}

fn build(tree: &Node) -> Program {
    parse_program(tree, "test".to_string(), String::new(), "test.juno".to_string()).unwrap()
}

fn lower(p: &Program) -> MetaProgram {
    let mut gen = MetaIRGen::new(p, String::new(), "test.juno".to_string());
    gen.lower_program(p)
}

fn main_body(m: &MetaProgram) -> &Vec<MetaStmt> {
    &m.functions.get("main").unwrap().body
}

fn is_named(t: &MetaType, n: &str) -> bool {
    matches!(t, MetaType::Named(x, _) if x == n)
}

/// A small program of the kind the test file holds, built and lowered.
#[test]
fn file_test0_juno() {
    let tree = program(vec![function("main", vec![], Some(ty("i32")), vec![ret(e_p(int_p("0")))])]);
    let m = lower(&build(&tree));
    assert_eq!(m.functions.len(), 1);
    let f = m.functions.get("main").unwrap();
    assert!(is_named(f.ret.as_ref().unwrap(), "i32"));
    assert!(matches!(f.body[0], MetaStmt::Return(Some(_), _)));
}

/// A small program of the kind the test file holds, built and lowered.
#[test]
fn file_test_arithmetic_juno() {
    // let a: i32 = 1 + 2 * 3; let b: i32 = a - 4 / 2 % 3; return b;
    let mul = chain(4, vec![unary(&[], int_p("2")), op("*"), unary(&[], int_p("3"))]);
    let sum = expr(chain(3, vec![lift(unary(&[], int_p("1")), 4), op("+"), mul]));
    let rest = chain(4, vec![unary(&[], int_p("4")), op("/"), unary(&[], int_p("2")), op("%"), unary(&[], int_p("3"))]);
    let diff = expr(chain(3, vec![lift(unary(&[], var_p("a")), 4), op("-"), rest]));
    let tree = program(vec![function(
        "main",
        vec![],
        Some(ty("i32")),
        vec![let_("a", ty("i32"), sum), let_("b", ty("i32"), diff), ret(e_p(var_p("b")))],
    )]);
    let p = build(&tree);
    let m = lower(&p);
    let body = main_body(&m);
    assert_eq!(body.len(), 3);
    match &body[0] {
        MetaStmt::Let { value: Some(v), .. } => match &v.kind {
            MetaExprKind::Binary { rhs, .. } => assert!(matches!(rhs.kind, MetaExprKind::Binary { .. })),
            other => panic!("unexpected {:?}", other),
        },
        other => panic!("unexpected {:?}", other),
    }
}

/// A small program of the kind the test file holds, built and lowered.
#[test]
fn file_test_arrays_juno() {
    let arr = e_p(prim(node(Rule::array, vec![e_p(int_p("1")), e_p(int_p("2")), e_p(int_p("3"))])));
    let tree = program(vec![function("main", vec![], None, vec![let_("xs", array_ty("3", "i32"), arr)])]);
    let m = lower(&build(&tree));
    match &main_body(&m)[0] {
        MetaStmt::Let { value: Some(v), ty: Some(t), .. } => {
            assert!(matches!(t, MetaType::Array { size: 3, .. }));
            assert!(matches!(&v.kind, MetaExprKind::Array(items, _) if items.len() == 3));
        },
        other => panic!("unexpected {:?}", other),
    }
}

/// A small program of the kind the test file holds, built and lowered.
#[test]
fn file_test_comparisons_juno() {
    // let a: i32 = 1; return a < 2 && a != 3;
    let lt = chain(2, vec![lift(unary(&[], var_p("a")), 3), op("<"), lift(unary(&[], int_p("2")), 3)]);
    let ne = chain(2, vec![lift(unary(&[], var_p("a")), 3), op("!="), lift(unary(&[], int_p("3")), 3)]);
    let both = expr(chain(0, vec![node(Rule::bitwise, vec![lt]), op("&&"), node(Rule::bitwise, vec![ne])]));
    let tree = program(vec![function(
        "main",
        vec![],
        Some(ty("bool")),
        vec![let_("a", ty("i32"), e_p(int_p("1"))), ret(both)],
    )]);
    let m = lower(&build(&tree));
    match &main_body(&m)[1] {
        MetaStmt::Return(Some(e), _) => assert!(is_named(&e.ty, "bool")),
        other => panic!("unexpected {:?}", other),
    }
}

/// A small program of the kind the test file holds, built and lowered.
#[test]
fn file_test_expressions_juno() {
    // let x: i32 = (1 + 2) * 3i64;
    let inner = bin(int_p("1"), "+", int_p("2"));
    let three = prim(node(Rule::integer, vec![leaf(Rule::other, "3"), leaf(Rule::other, "i64")]));
    let e = bin(paren_p(inner), "*", three);
    let tree = program(vec![function("main", vec![], None, vec![let_("x", ty("i32"), e)])]);
    let m = lower(&build(&tree));
    match &main_body(&m)[0] {
        MetaStmt::Let { value: Some(v), .. } => {
            // The literal on the right takes the type of the left operand.
            assert!(is_named(&v.ty, "i32"));
            match &v.kind {
                MetaExprKind::Binary { rhs, .. } => assert!(is_named(&rhs.ty, "i32")),
                other => panic!("unexpected {:?}", other),
            }
        },
        other => panic!("unexpected {:?}", other),
    }
}

/// A small program of the kind the test file holds, built and lowered.
#[test]
fn file_test_functions_juno() {
    let add = function(
        "add",
        vec![("a", ty("i32")), ("b", ty("i32"))],
        Some(ty("i32")),
        vec![ret(bin(var_p("a"), "+", var_p("b")))],
    );
    let main = function(
        "main",
        vec![],
        Some(ty("i32")),
        vec![ret(e_p(call_p("add", vec![e_p(int_p("1")), e_p(int_p("2"))])))],
    );
    let p = build(&program(vec![add, main]));
    let m = lower(&p);
    assert!(m.functions.get("test::add").is_some());
    match &main_body(&m)[0] {
        MetaStmt::Return(Some(e), _) => {
            assert!(matches!(&e.kind, MetaExprKind::Call { target, args, .. } if target == "test::add" && args.len() == 2));
            assert!(is_named(&e.ty, "i32"));
        },
        other => panic!("unexpected {:?}", other),
    }
}

/// A small program of the kind the test file holds, built and lowered.
#[test]
fn file_test_helloworld_juno() {
    let decl = node(
        Rule::item,
        vec![node(
            Rule::declaration,
            vec![ident("puts"), node(Rule::params, vec![node(Rule::other, vec![ident("s"), ptr_ty("char")])]), ty("i32")],
        )],
    );
    let hello = e_p(prim(leaf(Rule::string, "\"hello\\n\"")));
    let main = function("main", vec![], None, vec![stmt(node(Rule::expr_stmt, vec![e_p(call_p("puts", vec![hello]))]))]);
    let m = lower(&build(&program(vec![decl, main])));
    assert_eq!(m.string_table, vec!["hello\n".to_string()]);
    assert!(m.declarations.get("puts").is_some());
    match &main_body(&m)[0] {
        MetaStmt::Expr(e) => assert!(is_named(&e.ty, "i32")),
        other => panic!("unexpected {:?}", other),
    }
}

/// A small program of the kind the test file holds, built and lowered.
#[test]
fn file_test_if_juno() {
    let cond = |o: &str| bin(var_p("x"), o, int_p("0"));
    let if_stmt = stmt(node(
        Rule::if_stmt,
        vec![
            cond(">"),
            block(vec![ret(e_p(int_p("1")))]),
            node(Rule::else_if, vec![cond("<"), block(vec![ret(e_p(int_p("2")))])]),
            node(Rule::else_block, vec![block(vec![ret(e_p(int_p("0")))])]),
        ],
    ));
    let tree = program(vec![function(
        "main",
        vec![],
        Some(ty("i32")),
        vec![let_("x", ty("i32"), e_p(int_p("1"))), if_stmt],
    )]);
    let m = lower(&build(&tree));
    match &main_body(&m)[1] {
        MetaStmt::If { else_ifs, else_body, then_body, .. } => {
            assert_eq!(then_body.len(), 1);
            assert_eq!(else_ifs.len(), 1);
            assert!(else_body.is_some());
        },
        other => panic!("unexpected {:?}", other),
    }
}

/// A small program of the kind the test file holds, built and lowered.
#[test]
fn file_test_loop_juno() {
    let lp = stmt(node(Rule::loop_stmt, vec![block(vec![stmt(leaf(Rule::break_stmt, "break"))])]));
    let m = lower(&build(&program(vec![function("main", vec![], None, vec![lp])])));
    assert!(matches!(&main_body(&m)[0], MetaStmt::Loop { body, .. } if matches!(body[0], MetaStmt::Break(_))));
}

/// A small program of the kind the test file holds, built and lowered.
#[test]
fn file_test_pointers_juno() {
    let r = expr(unary(&["&"], var_p("x")));
    let d = expr(unary(&["*"], var_p("p")));
    let tree = program(vec![function(
        "main",
        vec![],
        None,
        vec![let_("x", ty("i32"), e_p(int_p("5"))), let_("p", ptr_ty("i32"), r), let_("y", ty("i32"), d)],
    )]);
    let m = lower(&build(&tree));
    let body = main_body(&m);
    match &body[1] {
        MetaStmt::Let { value: Some(v), .. } => assert!(matches!(v.ty, MetaType::Pointer(..))),
        other => panic!("unexpected {:?}", other),
    }
    match &body[2] {
        MetaStmt::Let { value: Some(v), .. } => assert!(is_named(&v.ty, "i32")),
        other => panic!("unexpected {:?}", other),
    }
}

/// A small program of the kind the test file holds, built and lowered.
#[test]
fn file_test_unary_juno() {
    let neg = expr(unary(&["-"], int_p("5")));
    let not = expr(unary(&["!"], prim(leaf(Rule::boolean, "true"))));
    let inv = expr(unary(&["~"], var_p("a")));
    let tree = program(vec![function(
        "main",
        vec![],
        None,
        vec![let_("a", ty("i32"), neg), let_("b", ty("bool"), not), let_("c", ty("i32"), inv)],
    )]);
    let m = lower(&build(&tree));
    match &main_body(&m)[2] {
        MetaStmt::Let { value: Some(v), .. } => {
            assert!(matches!(v.kind, MetaExprKind::Unary { op: MetaUnOp::BitNot, .. }));
        },
        other => panic!("unexpected {:?}", other),
    }
}

/// A small program of the kind the test file holds, built and lowered.
#[test]
fn file_test_while_juno() {
    let cond = bin(var_p("i"), "<", int_p("10"));
    let step = stmt(node(Rule::assign_stmt, vec![ident("i"), bin(var_p("i"), "+", int_p("1"))]));
    let w = stmt(node(Rule::while_stmt, vec![cond, block(vec![step])]));
    let tree = program(vec![function("main", vec![], None, vec![let_mut("i", ty("i32"), e_p(int_p("0"))), w])]);
    let p = build(&tree);
    let m = lower(&p);
    match &main_body(&m)[1] {
        MetaStmt::Loop { body, .. } => assert!(matches!(body[0], MetaStmt::If { .. })),
        other => panic!("unexpected {:?}", other),
    }
}

/// A program with a struct and a struct literal, built and lowered.
#[test]
fn compile_test_files() {
    // struct Point { x: i32, y: i32 }  fn main() { let p: Point = Point { x: 1, y: 2 }; }
    let fields = node(
        Rule::other,
        vec![node(Rule::other, vec![ident("x"), ty("i32")]), node(Rule::other, vec![ident("y"), ty("i32")])],
    );
    let point = node(Rule::item, vec![node(Rule::struct_def, vec![ident("Point"), fields])]);
    let init = e_p(prim(node(
        Rule::struct_init,
        vec![
            ident("Point"),
            node(
                Rule::other,
                vec![node(Rule::other, vec![ident("y"), e_p(int_p("2"))]), node(Rule::other, vec![ident("x"), e_p(int_p("1"))])],
            ),
        ],
    )));
    let main = function("main", vec![], None, vec![let_("p", ty("Point"), init)]);
    let m = lower(&build(&program(vec![point, main])));
    assert_eq!(m.struct_fields.get("Point").unwrap(), &vec!["x".to_string(), "y".to_string()]);
    match &main_body(&m)[0] {
        MetaStmt::Let { value: Some(v), .. } => match &v.kind {
            MetaExprKind::StructInit { fields, .. } => {
                assert_eq!(fields[0].0, 1);
                assert_eq!(fields[1].0, 0);
            },
            other => panic!("unexpected {:?}", other),
        },
        other => panic!("unexpected {:?}", other),
    }
    assert_eq!(m.symbol_table, vec!["Point".to_string(), "main".to_string()]);
}
