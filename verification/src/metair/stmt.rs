//! Lowering of blocks and statements.
use vstd::prelude::*;

use crate::ast::{Block, Expr, IfStmt, LetStmt, Stmt, WhileStmt};
use crate::metair::copy::{clone_expr, clone_type};
use crate::metair::generator::MetaIRGen;
use crate::metair::metair::{
    else_ifs_view, expr_view, stmt_view, stmts_view, ExprV, MetaExpr, MetaExprKind, MetaStmt,
    MetaType, MetaUnOp, StmtV,
};
use crate::metair::prefix::{lemma_lower_else_ifs_prefix, lemma_lower_stmts_prefix};
use crate::metair::semantics::{
    lower_block_spec, lower_else_ifs_spec, lower_if_spec, lower_let_spec, lower_stmt_spec,
    lower_stmts_spec, lower_while_spec, while_loop_spec,
};
use crate::symbol_map::SymbolMap;

verus! {

broadcast use vstd::string::group_string_axioms;

/// The view of a lowered block, its statements and its scope.
pub open spec fn block_view(r: (Vec<MetaStmt>, SymbolMap<MetaType>)) -> (Seq<StmtV>, Map<Seq<char>, crate::metair::metair::TypeV>) {
    (stmts_view(r.0@), r.1@)
}

impl<'a> MetaIRGen<'a> {
    /// The statements of a block, lowered in a scope of their own, and the
    /// local variables of that scope; `None` where lowering fails.
    pub(crate) fn lower_block(&mut self, block: &Block) -> (res: Option<(Vec<MetaStmt>, SymbolMap<MetaType>)>)
        ensures
            match res {
                Some(r) => lower_block_spec(old(self)@, *block) == Some(
                    (final(self)@, block_view(r).0, block_view(r).1),
                ),
                None => lower_block_spec(old(self)@, *block) is None,
            },
        decreases block,
    {
        self.push_scope();
        let body = match self.lower_stmts(&block.stmts) {
            Some(b) => b,
            None => {
                return None;
            },
        };
        match self.pop_scope_map() {
            Some(locals) => Some((body, locals)),
            None => None,
        }
    }

    fn lower_stmts(&mut self, stmts: &Vec<Stmt>) -> (res: Option<Vec<MetaStmt>>)
        ensures
            match res {
                Some(r) => lower_stmts_spec(old(self)@, stmts@) == Some((final(self)@, stmts_view(r@))),
                None => lower_stmts_spec(old(self)@, stmts@) is None,
            },
        decreases stmts,
    {
        let ghost g0 = self@;
        let mut res: Vec<MetaStmt> = Vec::new();
        assert(stmts@.subrange(0, 0) =~= Seq::<Stmt>::empty());
        assert(stmts_view(res@) =~= Seq::<StmtV>::empty());
        for i in 0..stmts.len()
            invariant
                g0 == old(self)@,
                lower_stmts_spec(g0, stmts@.subrange(0, i as int)) == Some((self@, stmts_view(res@))),
        {
            proof {
                assert(stmts@.subrange(0, i + 1).subrange(0, i as int) =~= stmts@.subrange(0, i as int));
                if lower_stmts_spec(g0, stmts@) is Some {
                    lemma_lower_stmts_prefix(g0, stmts@, i + 1);
                }
            }
            match self.lower_stmt(&stmts[i]) {
                Some(v) => {
                    let ghost before = stmts_view(res@);
                    res.push(v);
                    assert(stmts_view(res@) =~= before.push(stmt_view(v)));
                },
                None => {
                    return None;
                },
            }
        }
        assert(stmts@.subrange(0, stmts@.len() as int) =~= stmts@);
        Some(res)
    }

    fn lower_else_ifs(&mut self, branches: &Vec<(Expr, Block)>) -> (res: Option<Vec<(MetaExpr, Vec<MetaStmt>)>>)
        ensures
            match res {
                Some(r) => lower_else_ifs_spec(old(self)@, branches@) == Some(
                    (final(self)@, else_ifs_view(r@)),
                ),
                None => lower_else_ifs_spec(old(self)@, branches@) is None,
            },
        decreases branches,
    {
        let ghost g0 = self@;
        let mut res: Vec<(MetaExpr, Vec<MetaStmt>)> = Vec::new();
        assert(branches@.subrange(0, 0) =~= Seq::<(Expr, Block)>::empty());
        assert(else_ifs_view(res@) =~= Seq::<(ExprV, Seq<StmtV>)>::empty());
        for i in 0..branches.len()
            invariant
                g0 == old(self)@,
                lower_else_ifs_spec(g0, branches@.subrange(0, i as int)) == Some((self@, else_ifs_view(res@))),
        {
            proof {
                assert(branches@.subrange(0, i + 1).subrange(0, i as int) =~= branches@.subrange(0, i as int));
                if lower_else_ifs_spec(g0, branches@) is Some {
                    lemma_lower_else_ifs_prefix(g0, branches@, i + 1);
                }
            }
            let cond = match self.try_lower_expr(&branches[i].0) {
                Some(c) => c,
                None => {
                    return None;
                },
            };
            let body = match self.lower_block(&branches[i].1) {
                Some(b) => b.0,
                None => {
                    return None;
                },
            };
            let ghost before = else_ifs_view(res@);
            let ghost pair = (expr_view(cond), stmts_view(body@));
            res.push((cond, body));
            assert(else_ifs_view(res@) =~= before.push(pair));
        }
        assert(branches@.subrange(0, branches@.len() as int) =~= branches@);
        Some(res)
    }

    /// The meta IR of a statement (see `lower_stmt_spec`), or `None` where
    /// lowering it fails.
    pub(crate) fn lower_stmt(&mut self, stmt: &Stmt) -> (res: Option<MetaStmt>)
        ensures
            match res {
                Some(s) => lower_stmt_spec(old(self)@, *stmt) == Some((final(self)@, stmt_view(s))),
                None => lower_stmt_spec(old(self)@, *stmt) is None,
            },
        decreases stmt,
    {
        match stmt {
            Stmt::Let(l) => self.lower_let(l),
            Stmt::AssignStmt(assign) => match self.try_lower_expr(&assign.value) {
                Some(value) => Some(MetaStmt::Assign { span: assign.span, target: assign.name.clone(), value }),
                None => None,
            },
            Stmt::Expr(e) => match self.try_lower_expr(e) {
                Some(x) => Some(MetaStmt::Expr(x)),
                None => None,
            },
            Stmt::Return(e, span) => match e {
                Some(e) => match self.try_lower_expr(e) {
                    Some(x) => Some(MetaStmt::Return(Some(x), *span)),
                    None => None,
                },
                None => Some(MetaStmt::Return(None, *span)),
            },
            Stmt::Break(span) => Some(MetaStmt::Break(*span)),
            Stmt::Continue(span) => Some(MetaStmt::Continue(*span)),
            Stmt::If(i) => self.lower_if(i),
            Stmt::While(w) => self.lower_while(w),
            Stmt::Loop(b) => {
                let body = match self.lower_block(b) {
                    Some(r) => r.0,
                    None => {
                        return None;
                    },
                };
                let ghost bodyv = body@;
                let res = MetaStmt::Loop { span: b.span, body };
                assert(stmt_view(res)->Loop_body =~= stmts_view(bodyv));
                Some(res)
            },
            Stmt::For(f) => Some(MetaStmt::Break(f.span)),
        }
    }

    fn lower_if(&mut self, i: &IfStmt) -> (res: Option<MetaStmt>)
        ensures
            match res {
                Some(s) => lower_if_spec(old(self)@, *i) == Some((final(self)@, stmt_view(s))),
                None => lower_if_spec(old(self)@, *i) is None,
            },
        decreases i,
    {
        let cond = match self.try_lower_expr(&i.condition) {
            Some(c) => c,
            None => {
                return None;
            },
        };
        let then_body = match self.lower_block(&i.then_block) {
            Some(r) => r.0,
            None => {
                return None;
            },
        };
        let else_ifs = match self.lower_else_ifs(&i.else_ifs) {
            Some(e) => e,
            None => {
                return None;
            },
        };
        let else_body = match &i.else_block {
            Some(b) => match self.lower_block(b) {
                Some(r) => Some(r.0),
                None => {
                    return None;
                },
            },
            None => None,
        };
        let ghost tb = then_body@;
        let ghost ei = else_ifs@;
        let ghost eb = else_body;
        let res = MetaStmt::If { span: i.span, cond, then_body, else_ifs, else_body };
        proof {
            let v = stmt_view(res);
            assert(v->then_body =~= stmts_view(tb));
            assert(v->else_ifs =~= else_ifs_view(ei)) by {
                assert forall|k: int| 0 <= k < ei.len() implies #[trigger] v->else_ifs[k] == else_ifs_view(ei)[k] by {
                    assert(v->else_ifs[k].1 =~= stmts_view(ei[k].1@));
                }
            }
            match eb {
                Some(b) => {
                    assert(v->else_body.unwrap() =~= stmts_view(b@));
                },
                None => {},
            }
        }
        Some(res)
    }

    fn lower_while(&mut self, w: &WhileStmt) -> (res: Option<MetaStmt>)
        ensures
            match res {
                Some(s) => lower_while_spec(old(self)@, *w) == Some((final(self)@, stmt_view(s))),
                None => lower_while_spec(old(self)@, *w) is None,
            },
        decreases w,
    {
        let cond = match self.try_lower_expr(&w.condition) {
            Some(c) => c,
            None => {
                return None;
            },
        };
        let not_cond = MetaExpr {
            span: cond.span,
            kind: MetaExprKind::Unary {
                span: cond.span,
                op: MetaUnOp::Not,
                expr: Box::new(clone_expr(&cond)),
            },
            ty: MetaType::Named("bool".to_string(), cond.span),
        };
        let body = match self.lower_block(&w.body) {
            Some(r) => r.0,
            None => {
                return None;
            },
        };
        let ghost bodyv = body@;
        let ghost condv = expr_view(cond);
        let mut then_body: Vec<MetaStmt> = Vec::new();
        then_body.push(MetaStmt::Break(w.span));
        let ghost tbv = then_body@;
        let branch = MetaStmt::If {
            span: cond.span,
            cond: not_cond,
            then_body,
            else_ifs: Vec::new(),
            else_body: Some(body),
        };
        let ghost bv = stmt_view(branch);
        let mut loop_body: Vec<MetaStmt> = Vec::new();
        loop_body.push(branch);
        let res = MetaStmt::Loop { span: w.span, body: loop_body };
        proof {
            assert(tbv[0] == MetaStmt::Break(w.span));
            assert(stmt_view(MetaStmt::Break(w.span)) == StmtV::Break(w.span));
            assert(bv->then_body.len() == 1);
            assert(bv->then_body[0] == stmt_view(tbv[0]));
            assert(bv->then_body =~= seq![StmtV::Break(w.span)]);
            assert(bv->else_ifs =~= Seq::<(ExprV, Seq<StmtV>)>::empty());
            assert(bv->else_body.unwrap() =~= stmts_view(bodyv));
            assert(stmt_view(res)->Loop_body =~= seq![bv]);
            assert(stmt_view(res) == while_loop_spec(w.span, condv, stmts_view(bodyv)));
        }
        Some(res)
    }

    fn lower_let(&mut self, stmt: &LetStmt) -> (res: Option<MetaStmt>)
        ensures
            match res {
                Some(s) => lower_let_spec(old(self)@, *stmt) == Some((final(self)@, stmt_view(s))),
                None => lower_let_spec(old(self)@, *stmt) is None,
            },
    {
        let declared_ty = self.lower_type(&stmt.ty);
        let value = match &stmt.value {
            Some(e) => {
                let value = match self.try_lower_expr(e) {
                    Some(v) => v,
                    None => {
                        return None;
                    },
                };
                match self.try_coerce_expr(value, &declared_ty) {
                    Some(c) => Some(c),
                    None => {
                        return None;
                    },
                }
            },
            None => None,
        };
        if self.locals.len() == 0 {
            return None;
        }
        self.insert_local(stmt.name.clone(), clone_type(&declared_ty));
        Some(
            MetaStmt::Let {
                span: stmt.span,
                name: stmt.name.clone(),
                mutable: stmt.mutable,
                ty: Some(declared_ty),
                value,
            },
        )
    }
}

} // verus!
