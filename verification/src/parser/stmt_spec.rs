//! What building statements and blocks from their trees gives.
use vstd::prelude::*;

use crate::ast::{Block, Stmt};
use crate::parser::error::{err_at, ErrorKindV, ParseContext, ParseError, ParseErrorV};
use crate::parser::expr_spec::expr_spec;
use crate::parser::ident_ok;
use crate::parser::text::trim_spec;
use crate::parser::tree::{Node, Rule};
use crate::parser::type_spec::type_spec;
use crate::parser::view::{block_v, stmt_v, BlockV, ExprV, StmtV};
use crate::parser::ParserStateV;

verus! {

/// A built block or its error, seen through the views.
pub open spec fn block_result_v(r: Result<Block, ParseError>) -> Result<BlockV, ParseErrorV> {
    match r {
        Ok(b) => Ok(block_v(b)),
        Err(e) => Err(e@),
    }
}

/// A built statement or its error, seen through the views.
pub open spec fn stmt_result_v(r: Result<Stmt, ParseError>) -> Result<StmtV, ParseErrorV> {
    match r {
        Ok(s) => Ok(stmt_v(s)),
        Err(e) => Err(e@),
    }
}

/// A built block, its error, or `None`, seen through the views.
pub open spec fn block_outcome(r: Option<Result<Block, ParseError>>) -> Option<Result<BlockV, ParseErrorV>> {
    match r {
        Some(r) => Some(block_result_v(r)),
        None => None,
    }
}

/// A built statement, its error, or `None`, seen through the views.
pub open spec fn stmt_outcome(r: Option<Result<Stmt, ParseError>>) -> Option<Result<StmtV, ParseErrorV>> {
    match r {
        Some(r) => Some(stmt_result_v(r)),
        None => None,
    }
}

/// `let [mut] name: type [= value]`.
pub open spec fn let_spec(st: ParserStateV, n: Node) -> Option<Result<StmtV, ParseErrorV>> {
    if n.children@.len() == 0 {
        None
    } else {
        let mutable = n.children@[0].text@ == seq!['m', 'u', 't'];
        let k: int = if mutable {
            1
        } else {
            0
        };
        if n.children@.len() < k + 2 || !ident_ok(n.children@[k].text@) {
            None
        } else {
            let name = trim_spec(n.children@[k].text@);
            match type_spec(n.children@[k + 1]) {
                Some(Ok(ty)) => if n.children@.len() > k + 2 {
                    match expr_spec(st, n.children@[k + 2]) {
                        Some(Ok(v)) => Some(
                            Ok(StmtV::Let { span: n.span, mutable, name, ty, value: Some(v) }),
                        ),
                        Some(Err(e)) => Some(Err(e)),
                        None => None,
                    }
                } else {
                    Some(Ok(StmtV::Let { span: n.span, mutable, name, ty, value: None }))
                },
                Some(Err(e)) => Some(Err(e)),
                None => None,
            }
        }
    }
}

/// `name = value`.
pub open spec fn assign_spec(st: ParserStateV, n: Node) -> Option<Result<StmtV, ParseErrorV>> {
    if n.children@.len() < 2 || !ident_ok(n.children@[0].text@) {
        None
    } else {
        match expr_spec(st, n.children@[1]) {
            Some(Ok(v)) => Some(
                Ok(StmtV::Assign { span: n.span, name: trim_spec(n.children@[0].text@), value: v }),
            ),
            Some(Err(e)) => Some(Err(e)),
            None => None,
        }
    }
}

/// A block: each child a statement.
pub open spec fn block_spec(st: ParserStateV, n: Node) -> Option<Result<BlockV, ParseErrorV>>
    decreases n, 2 * n.children@.len() + 2,
{
    match stmts_fold(st, n, n.children@.len() as int) {
        Some(Ok(stmts)) => Some(Ok(BlockV { span: n.span, stmts })),
        Some(Err(e)) => Some(Err(e)),
        None => None,
    }
}

/// The first `j` statements of a block.
pub open spec fn stmts_fold(st: ParserStateV, n: Node, j: int) -> Option<Result<Seq<StmtV>, ParseErrorV>>
    decreases n, j,
{
    if j <= 0 {
        Some(Ok(Seq::empty()))
    } else if j > n.children@.len() {
        None
    } else {
        match stmts_fold(st, n, j - 1) {
            Some(Ok(stmts)) => match stmt_spec(st, n.children@[j - 1]) {
                Some(Ok(s)) => Some(Ok(stmts.push(s))),
                Some(Err(e)) => Some(Err(e)),
                None => None,
            },
            other => other,
        }
    }
}

/// A statement, told apart by the rule of its child.
pub open spec fn stmt_spec(st: ParserStateV, n: Node) -> Option<Result<StmtV, ParseErrorV>>
    decreases n, 0int,
{
    if n.children@.len() == 0 {
        None
    } else {
        let inner = n.children@[0];
        match inner.rule {
            Rule::let_stmt => let_spec(st, inner),
            Rule::assign_stmt => assign_spec(st, inner),
            Rule::expr_stmt => if inner.children@.len() == 0 {
                None
            } else {
                match expr_spec(st, inner.children@[0]) {
                    Some(Ok(e)) => Some(Ok(StmtV::Expr(e))),
                    Some(Err(e)) => Some(Err(e)),
                    None => None,
                }
            },
            Rule::return_stmt => if inner.children@.len() == 0 {
                Some(Ok(StmtV::Return(None, n.span)))
            } else {
                match expr_spec(st, inner.children@[0]) {
                    Some(Ok(e)) => Some(Ok(StmtV::Return(Some(e), n.span))),
                    Some(Err(e)) => Some(Err(e)),
                    None => None,
                }
            },
            Rule::break_stmt => Some(Ok(StmtV::Break(n.span))),
            Rule::continue_stmt => Some(Ok(StmtV::Continue(n.span))),
            Rule::if_stmt => if_spec(st, inner),
            Rule::while_stmt => while_spec(st, inner),
            Rule::for_stmt => for_spec(st, inner),
            Rule::loop_stmt => loop_spec(st, inner),
            r => Some(Err(err_at(n.span, ErrorKindV::UnexpectedRule(ParseContext::Statement, r)))),
        }
    }
}

/// `if cond block (else if cond block)* (else block)?`
pub open spec fn if_spec(st: ParserStateV, n: Node) -> Option<Result<StmtV, ParseErrorV>>
    decreases n, 2 * n.children@.len() + 2,
{
    if n.children@.len() == 0 {
        None
    } else {
        match expr_spec(st, n.children@[0]) {
            Some(Ok(condition)) => if n.children@.len() < 2 {
                None
            } else {
                match block_spec(st, n.children@[1]) {
                    Some(Ok(then_block)) => match else_fold(st, n, n.children@.len() as int) {
                        Some(Ok((else_ifs, else_block))) => Some(
                            Ok(
                                StmtV::If {
                                    span: n.span,
                                    condition,
                                    then_block,
                                    else_ifs,
                                    else_block,
                                },
                            ),
                        ),
                        Some(Err(e)) => Some(Err(e)),
                        None => None,
                    },
                    Some(Err(e)) => Some(Err(e)),
                    None => None,
                }
            },
            Some(Err(e)) => Some(Err(e)),
            None => None,
        }
    }
}

/// The `else if` parts and the last `else` part among the children of an
/// `if` before position `j`, from position 2 on; other children are passed
/// over.
pub open spec fn else_fold(st: ParserStateV, n: Node, j: int) -> Option<
    Result<(Seq<(ExprV, BlockV)>, Option<BlockV>), ParseErrorV>,
>
    decreases n, j,
{
    if j <= 2 {
        Some(Ok((Seq::empty(), None)))
    } else if j > n.children@.len() {
        None
    } else {
        match else_fold(st, n, j - 1) {
            Some(Ok((else_ifs, else_block))) => {
                let p = n.children@[j - 1];
                match p.rule {
                    Rule::else_if => if p.children@.len() == 0 {
                        None
                    } else {
                        match expr_spec(st, p.children@[0]) {
                            Some(Ok(c)) => if p.children@.len() < 2 {
                                None
                            } else {
                                match block_spec(st, p.children@[1]) {
                                    Some(Ok(b)) => Some(Ok((else_ifs.push((c, b)), else_block))),
                                    Some(Err(e)) => Some(Err(e)),
                                    None => None,
                                }
                            },
                            Some(Err(e)) => Some(Err(e)),
                            None => None,
                        }
                    },
                    Rule::else_block => if p.children@.len() == 0 {
                        None
                    } else {
                        match block_spec(st, p.children@[0]) {
                            Some(Ok(b)) => Some(Ok((else_ifs, Some(b)))),
                            Some(Err(e)) => Some(Err(e)),
                            None => None,
                        }
                    },
                    _ => Some(Ok((else_ifs, else_block))),
                }
            },
            other => other,
        }
    }
}

/// `while cond block`.
pub open spec fn while_spec(st: ParserStateV, n: Node) -> Option<Result<StmtV, ParseErrorV>>
    decreases n, 0int,
{
    if n.children@.len() == 0 {
        None
    } else {
        match expr_spec(st, n.children@[0]) {
            Some(Ok(condition)) => if n.children@.len() < 2 {
                None
            } else {
                match block_spec(st, n.children@[1]) {
                    Some(Ok(body)) => Some(Ok(StmtV::While { span: n.span, condition, body })),
                    Some(Err(e)) => Some(Err(e)),
                    None => None,
                }
            },
            Some(Err(e)) => Some(Err(e)),
            None => None,
        }
    }
}

/// `loop block`.
pub open spec fn loop_spec(st: ParserStateV, n: Node) -> Option<Result<StmtV, ParseErrorV>>
    decreases n, 0int,
{
    if n.children@.len() == 0 {
        None
    } else {
        match block_spec(st, n.children@[0]) {
            Some(Ok(b)) => Some(Ok(StmtV::Loop(b))),
            Some(Err(e)) => Some(Err(e)),
            None => None,
        }
    }
}

/// `for init; iter block`.
pub open spec fn for_spec(st: ParserStateV, n: Node) -> Option<Result<StmtV, ParseErrorV>>
    decreases n, 0int,
{
    if n.children@.len() == 0 {
        None
    } else {
        match expr_spec(st, n.children@[0]) {
            Some(Ok(init)) => if n.children@.len() < 2 {
                None
            } else {
                match expr_spec(st, n.children@[1]) {
                    Some(Ok(iter)) => if n.children@.len() < 3 {
                        None
                    } else {
                        match block_spec(st, n.children@[2]) {
                            Some(Ok(body)) => Some(Ok(StmtV::For { span: n.span, init, iter, body })),
                            Some(Err(e)) => Some(Err(e)),
                            None => None,
                        }
                    },
                    Some(Err(e)) => Some(Err(e)),
                    None => None,
                }
            },
            Some(Err(e)) => Some(Err(e)),
            None => None,
        }
    }
}

/// Once a statement has failed, the later ones keep the failure.
pub proof fn lemma_stmts_fold_absorbs(st: ParserStateV, n: Node, k: int, j: int)
    requires
        0 <= k <= j <= n.children@.len(),
    ensures
        stmts_fold(st, n, k) is None ==> stmts_fold(st, n, j) is None,
        stmts_fold(st, n, k) matches Some(Err(e)) ==> stmts_fold(st, n, j) == stmts_fold(st, n, k),
    decreases j - k,
{
    if k < j {
        lemma_stmts_fold_absorbs(st, n, k, j - 1);
    }
}

/// Once an `else` part has failed, the later ones keep the failure.
pub proof fn lemma_else_fold_absorbs(st: ParserStateV, n: Node, k: int, j: int)
    requires
        2 <= k <= j <= n.children@.len(),
    ensures
        else_fold(st, n, k) is None ==> else_fold(st, n, j) is None,
        else_fold(st, n, k) matches Some(Err(e)) ==> else_fold(st, n, j) == else_fold(st, n, k),
    decreases j - k,
{
    if k < j {
        lemma_else_fold_absorbs(st, n, k, j - 1);
    }
}

} // verus!
