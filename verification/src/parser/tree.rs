//! The concrete syntax tree that the grammar's parser hands to the AST
//! builder: each node has the rule it matched, the text it covers, that
//! text's byte range, and its child nodes in order.
use vstd::prelude::*;

use crate::ast::JunoSpan;

verus! {

/// The grammar rules that the AST builder tells apart. A node of any other
/// rule is `other`: the builder only reads its text and children.
#[allow(non_camel_case_types)]
#[derive(Clone, Copy, Debug, PartialEq, Eq, Structural)]
pub enum Rule {
    program,
    item,
    EOI,
    function,
    import_stmt,
    struct_def,
    declaration,
    params,
    type_,
    type_prefix,
    base_type,
    generics,
    array_type,
    var_ident,
    block,
    let_stmt,
    assign_stmt,
    expr_stmt,
    return_stmt,
    break_stmt,
    continue_stmt,
    if_stmt,
    else_if,
    else_block,
    while_stmt,
    for_stmt,
    loop_stmt,
    expr,
    logical,
    bitwise,
    comparison,
    arithmetic,
    term,
    unary,
    unary_ops,
    primary,
    integer,
    fractional,
    boolean,
    string,
    char,
    call,
    array,
    struct_init,
    positional_arg,
    named_arg,
    other,
}

#[derive(Debug)]
pub struct Node {
    pub rule: Rule,
    pub text: String,
    pub span: JunoSpan,
    pub children: Vec<Node>,
}

impl Node {
    /// The child at position `i`, if there is one.
    pub open spec fn child(self, i: int) -> Option<Node> {
        if 0 <= i < self.children@.len() {
            Some(self.children@[i])
        } else {
            None
        }
    }

    /// The number of children.
    pub open spec fn arity(self) -> int {
        self.children@.len() as int
    }
}

} // verus!
