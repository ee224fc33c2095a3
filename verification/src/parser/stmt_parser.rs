//! Building statements and blocks.
use vstd::prelude::*;

use crate::ast::{AssignStmt, Block, Expr, ForStmt, IfStmt, LetStmt, Stmt, WhileStmt};
use crate::parser::error::{ParseContext, ParseError, ParseErrorKind, ParseErrorV};
use crate::parser::stmt_spec::{
    assign_spec, block_outcome, block_result_v, block_spec, else_fold, for_spec, if_spec,
    lemma_else_fold_absorbs, lemma_stmts_fold_absorbs, let_spec, loop_spec, stmt_outcome,
    stmt_result_v, stmt_spec, stmts_fold, while_spec,
};
use crate::parser::text::text_eq;
use crate::parser::tree::{Node, Rule};
use crate::parser::view::{
    block_v, else_ifs_v, expr_v, opt_block_v, stmt_v, stmts_v, BlockV, ExprV, StmtV,
};
use crate::parser::ParserState;

verus! {

broadcast use vstd::string::group_string_axioms;

impl ParserState {
    /// Builds a block: each child a statement.
    pub fn parse_block(&self, n: &Node) -> (res: Result<Block, ParseError>)
        requires
            block_spec(self@, *n) is Some,
        ensures
            block_spec(self@, *n) == Some(block_result_v(res)),
    {
        self.try_parse_block(n).unwrap()
    }

    /// Builds a statement, told apart by the rule of its child.
    pub fn parse_stmt(&self, n: &Node) -> (res: Result<Stmt, ParseError>)
        requires
            stmt_spec(self@, *n) is Some,
        ensures
            stmt_spec(self@, *n) == Some(stmt_result_v(res)),
    {
        self.try_parse_stmt(n).unwrap()
    }

    /// Builds a block, or gives `None` where the tree lacks a node that the
    /// builder takes for granted or a name holds white space.
    pub fn try_parse_block(&self, n: &Node) -> (res: Option<Result<Block, ParseError>>)
        ensures
            block_spec(self@, *n) == block_outcome(res),
        decreases n, 2 * n.children@.len() + 2,
    {
        let count = n.children.len();
        let mut stmts: Vec<Stmt> = Vec::new();
        proof {
            assert(stmts_v(stmts@) =~= Seq::<StmtV>::empty());
        }
        for i in 0..count
            invariant
                count == n.children@.len(),
                block_spec(self@, *n) == match stmts_fold(self@, *n, count as int) {
                    Some(Ok(stmts)) => Some(Ok(BlockV { span: n.span, stmts })),
                    Some(Err(e)) => Some(Err(e)),
                    None => None,
                },
                stmts_fold(self@, *n, i as int) == Some(Ok::<Seq<StmtV>, ParseErrorV>(stmts_v(stmts@))),
        {
            proof {
                lemma_stmts_fold_absorbs(self@, *n, i + 1, count as int);
            }
            match self.try_parse_stmt(&n.children[i]) {
                Some(Ok(s)) => {
                    let ghost before = stmts_v(stmts@);
                    stmts.push(s);
                    assert(stmts_v(stmts@) =~= before.push(stmt_v(s)));
                },
                Some(Err(e)) => {
                    return Some(Err(e));
                },
                None => {
                    return None;
                },
            }
        }
        let ghost sv = stmts_v(stmts@);
        let b = Block { span: n.span, stmts };
        assert(block_v(b).stmts =~= sv);
        Some(Ok(b))
    }

    /// Builds a statement, or gives `None` where the tree lacks a node that
    /// the builder takes for granted or a name holds white space.
    pub fn try_parse_stmt(&self, n: &Node) -> (res: Option<Result<Stmt, ParseError>>)
        ensures
            stmt_spec(self@, *n) == stmt_outcome(res),
        decreases n, 0int,
    {
        if n.children.len() == 0 {
            return None;
        }
        let inner = &n.children[0];
        match inner.rule {
            Rule::let_stmt => self.parse_let(inner),
            Rule::assign_stmt => self.parse_assign_stmt(inner),
            Rule::expr_stmt => {
                if inner.children.len() == 0 {
                    return None;
                }
                match self.try_parse_expr(&inner.children[0]) {
                    Some(Ok(e)) => Some(Ok(Stmt::Expr(e))),
                    Some(Err(e)) => Some(Err(e)),
                    None => None,
                }
            },
            Rule::return_stmt => {
                if inner.children.len() == 0 {
                    Some(Ok(Stmt::Return(None, n.span)))
                } else {
                    match self.try_parse_expr(&inner.children[0]) {
                        Some(Ok(e)) => Some(Ok(Stmt::Return(Some(e), n.span))),
                        Some(Err(e)) => Some(Err(e)),
                        None => None,
                    }
                }
            },
            Rule::break_stmt => Some(Ok(Stmt::Break(n.span))),
            Rule::continue_stmt => Some(Ok(Stmt::Continue(n.span))),
            Rule::if_stmt => self.parse_if(inner),
            Rule::while_stmt => self.parse_while(inner),
            Rule::for_stmt => self.parse_for(inner),
            Rule::loop_stmt => self.parse_loop(inner),
            r => Some(
                Err(
                    ParseError {
                        span: n.span,
                        kind: ParseErrorKind::UnexpectedRule(ParseContext::Statement, r),
                    },
                ),
            ),
        }
    }

    /// `let [mut] name: type [= value]`.
    pub fn parse_let(&self, n: &Node) -> (res: Option<Result<Stmt, ParseError>>)
        ensures
            let_spec(self@, *n) == stmt_outcome(res),
    {
        if n.children.len() == 0 {
            return None;
        }
        let mut_token = &n.children[0];
        proof {
            reveal_strlit("mut");
            assert("mut"@ =~= seq!['m', 'u', 't']);
        }
        let mutable = text_eq(mut_token.text.as_str(), "mut");
        let k: usize = if mutable {
            1
        } else {
            0
        };
        if n.children.len() < k + 2 || !self.ident_usable(n.children[k].text.as_str()) {
            return None;
        }
        let name = self.clean_ident(n.children[k].text.as_str());
        let ty = match self.try_parse_type(&n.children[k + 1]) {
            Some(Ok(t)) => t,
            Some(Err(e)) => {
                return Some(Err(e));
            },
            None => {
                return None;
            },
        };
        let value = if n.children.len() > k + 2 {
            match self.try_parse_expr(&n.children[k + 2]) {
                Some(Ok(v)) => Some(v),
                Some(Err(e)) => {
                    return Some(Err(e));
                },
                None => {
                    return None;
                },
            }
        } else {
            None
        };
        Some(Ok(Stmt::Let(LetStmt { span: n.span, mutable, name, ty, value })))
    }

    /// `name = value`.
    pub fn parse_assign_stmt(&self, n: &Node) -> (res: Option<Result<Stmt, ParseError>>)
        ensures
            assign_spec(self@, *n) == stmt_outcome(res),
    {
        if n.children.len() < 2 || !self.ident_usable(n.children[0].text.as_str()) {
            return None;
        }
        let name = self.clean_ident(n.children[0].text.as_str());
        match self.try_parse_expr(&n.children[1]) {
            Some(Ok(value)) => Some(Ok(Stmt::AssignStmt(AssignStmt { span: n.span, name, value }))),
            Some(Err(e)) => Some(Err(e)),
            None => None,
        }
    }

    /// `if cond block (else if cond block)* (else block)?`
    pub fn parse_if(&self, n: &Node) -> (res: Option<Result<Stmt, ParseError>>)
        ensures
            if_spec(self@, *n) == stmt_outcome(res),
        decreases n, 2 * n.children@.len() + 2,
    {
        if n.children.len() == 0 {
            return None;
        }
        let condition = match self.try_parse_expr(&n.children[0]) {
            Some(Ok(e)) => e,
            Some(Err(e)) => {
                return Some(Err(e));
            },
            None => {
                return None;
            },
        };
        if n.children.len() < 2 {
            return None;
        }
        let then_block = match self.try_parse_block(&n.children[1]) {
            Some(Ok(b)) => b,
            Some(Err(e)) => {
                return Some(Err(e));
            },
            None => {
                return None;
            },
        };
        let count = n.children.len();
        let mut else_ifs: Vec<(Expr, Block)> = Vec::new();
        let mut else_block: Option<Block> = None;
        let ghost cv = expr_v(condition);
        let ghost tv = block_v(then_block);
        proof {
            assert(else_ifs_v(else_ifs@) =~= Seq::<(ExprV, BlockV)>::empty());
        }
        for i in 2..count
            invariant
                count == n.children@.len(),
                count >= 2,
                if_spec(self@, *n) == match else_fold(self@, *n, count as int) {
                    Some(Ok((eis, eb))) => Some(
                        Ok(
                            StmtV::If {
                                span: n.span,
                                condition: cv,
                                then_block: tv,
                                else_ifs: eis,
                                else_block: eb,
                            },
                        ),
                    ),
                    Some(Err(e)) => Some(Err(e)),
                    None => None,
                },
                else_fold(self@, *n, i as int) == Some(
                    Ok::<(Seq<(ExprV, BlockV)>, Option<BlockV>), ParseErrorV>(
                        (else_ifs_v(else_ifs@), opt_block_v(else_block)),
                    ),
                ),
        {
            proof {
                lemma_else_fold_absorbs(self@, *n, i + 1, count as int);
            }
            let p = &n.children[i];
            match p.rule {
                Rule::else_if => {
                    if p.children.len() == 0 {
                        return None;
                    }
                    let cond = match self.try_parse_expr(&p.children[0]) {
                        Some(Ok(e)) => e,
                        Some(Err(e)) => {
                            return Some(Err(e));
                        },
                        None => {
                            return None;
                        },
                    };
                    if p.children.len() < 2 {
                        return None;
                    }
                    let block = match self.try_parse_block(&p.children[1]) {
                        Some(Ok(b)) => b,
                        Some(Err(e)) => {
                            return Some(Err(e));
                        },
                        None => {
                            return None;
                        },
                    };
                    let ghost before = else_ifs_v(else_ifs@);
                    else_ifs.push((cond, block));
                    assert(else_ifs_v(else_ifs@) =~= before.push((expr_v(cond), block_v(block))));
                },
                Rule::else_block => {
                    if p.children.len() == 0 {
                        return None;
                    }
                    match self.try_parse_block(&p.children[0]) {
                        Some(Ok(b)) => {
                            else_block = Some(b);
                        },
                        Some(Err(e)) => {
                            return Some(Err(e));
                        },
                        None => {
                            return None;
                        },
                    }
                },
                _ => {},
            }
        }
        let ghost ev = else_ifs_v(else_ifs@);
        let s = Stmt::If(IfStmt { span: n.span, condition, then_block, else_ifs, else_block });
        assert(stmt_v(s)->else_ifs =~= ev);
        Some(Ok(s))
    }

    /// `while cond block`.
    pub fn parse_while(&self, n: &Node) -> (res: Option<Result<Stmt, ParseError>>)
        ensures
            while_spec(self@, *n) == stmt_outcome(res),
        decreases n, 0int,
    {
        if n.children.len() == 0 {
            return None;
        }
        let condition = match self.try_parse_expr(&n.children[0]) {
            Some(Ok(e)) => e,
            Some(Err(e)) => {
                return Some(Err(e));
            },
            None => {
                return None;
            },
        };
        if n.children.len() < 2 {
            return None;
        }
        match self.try_parse_block(&n.children[1]) {
            Some(Ok(body)) => Some(Ok(Stmt::While(WhileStmt { span: n.span, condition, body }))),
            Some(Err(e)) => Some(Err(e)),
            None => None,
        }
    }

    /// `for init; iter block`.
    pub fn parse_for(&self, n: &Node) -> (res: Option<Result<Stmt, ParseError>>)
        ensures
            for_spec(self@, *n) == stmt_outcome(res),
        decreases n, 0int,
    {
        if n.children.len() == 0 {
            return None;
        }
        let init = match self.try_parse_expr(&n.children[0]) {
            Some(Ok(e)) => e,
            Some(Err(e)) => {
                return Some(Err(e));
            },
            None => {
                return None;
            },
        };
        if n.children.len() < 2 {
            return None;
        }
        let iter = match self.try_parse_expr(&n.children[1]) {
            Some(Ok(e)) => e,
            Some(Err(e)) => {
                return Some(Err(e));
            },
            None => {
                return None;
            },
        };
        if n.children.len() < 3 {
            return None;
        }
        match self.try_parse_block(&n.children[2]) {
            Some(Ok(body)) => Some(Ok(Stmt::For(ForStmt { span: n.span, init, iter, body }))),
            Some(Err(e)) => Some(Err(e)),
            None => None,
        }
    }

    /// `loop block`.
    pub fn parse_loop(&self, n: &Node) -> (res: Option<Result<Stmt, ParseError>>)
        ensures
            loop_spec(self@, *n) == stmt_outcome(res),
        decreases n, 0int,
    {
        if n.children.len() == 0 {
            return None;
        }
        match self.try_parse_block(&n.children[0]) {
            Some(Ok(body)) => Some(Ok(Stmt::Loop(body))),
            Some(Err(e)) => Some(Err(e)),
            None => None,
        }
    }
}

} // verus!
