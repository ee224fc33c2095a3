//! Text forms of IR types, statement spans, and lowering errors.
use vstd::prelude::*;

use crate::ast::JunoSpan;
use crate::metair::coercion::LowerError;
use crate::metair::metair::{MetaStmt, MetaType, StmtV, TypeV};
use crate::parser::text::push_char;

verus! {

broadcast use vstd::string::group_string_axioms;

/// The decimal digits of `n`.
pub open spec fn decimal_text(n: nat) -> Seq<char>
    decreases n,
{
    if n < 10 {
        seq![(n + 48) as char]
    } else {
        decimal_text(n / 10).push(((n % 10) + 48) as char)
    }
}

/// How a type is shown in messages: `T`, `*T (ptr)`, `&T (ref)`,
/// `[T; n] (arr)`, `Unit`.
pub open spec fn type_text(t: TypeV) -> Seq<char>
    decreases t,
{
    match t {
        TypeV::Named(n, _) => n,
        TypeV::Pointer(inner, _) => "*"@ + type_text(*inner) + " (ptr)"@,
        TypeV::Reference(inner, _) => "&"@ + type_text(*inner) + " (ref)"@,
        TypeV::Array { elem, size, .. } => "["@ + type_text(*elem) + "; "@ + decimal_text(size as nat)
            + "] (arr)"@,
        TypeV::Unit(_) => "Unit"@,
    }
}

/// The span of a statement: its own, or its expression's for an
/// expression statement.
pub open spec fn stmt_span(s: StmtV) -> JunoSpan {
    match s {
        StmtV::Let { span, .. } => span,
        StmtV::Assign { span, .. } => span,
        StmtV::Expr(e) => e.span,
        StmtV::Return(_, span) => span,
        StmtV::Break(span) => span,
        StmtV::Continue(span) => span,
        StmtV::If { span, .. } => span,
        StmtV::Loop { span, .. } => span,
    }
}

/// The decimal digits of `n`.
pub fn decimal(n: u32) -> (res: String)
    ensures
        res@ == decimal_text(n as nat),
    decreases n,
{
    if n < 10 {
        let mut s = String::new();
        push_char(&mut s, ((n as u8) + 48) as char);
        assert(s@ =~= decimal_text(n as nat));
        s
    } else {
        let mut s = decimal(n / 10);
        push_char(&mut s, (((n % 10) as u8) + 48) as char);
        s
    }
}

impl MetaType {
    /// How the type is shown in messages.
    pub fn to_text(&self) -> (res: String)
        ensures
            res@ == type_text(self@),
        decreases self,
    {
        match self {
            MetaType::Named(n, _) => n.clone(),
            MetaType::Pointer(inner, _) => {
                let mut s = String::new();
                s.append("*");
                let t = inner.to_text();
                s.append(t.as_str());
                s.append(" (ptr)");
                s
            },
            MetaType::Reference(inner, _) => {
                let mut s = String::new();
                s.append("&");
                let t = inner.to_text();
                s.append(t.as_str());
                s.append(" (ref)");
                s
            },
            MetaType::Array { elem, size, .. } => {
                let mut s = String::new();
                s.append("[");
                let t = elem.to_text();
                s.append(t.as_str());
                s.append("; ");
                let d = decimal(*size);
                s.append(d.as_str());
                s.append("] (arr)");
                s
            },
            MetaType::Unit(_) => {
                let mut s = String::new();
                s.append("Unit");
                s
            },
        }
    }
}

impl MetaStmt {
    /// The span of the statement.
    pub fn span(&self) -> (res: &JunoSpan)
        ensures
            *res == stmt_span(self@),
    {
        match self {
            MetaStmt::Let { span, .. } => span,
            MetaStmt::Assign { span, .. } => span,
            MetaStmt::Expr(e) => &e.span,
            MetaStmt::Return(_, span) => span,
            MetaStmt::Break(span) => span,
            MetaStmt::Continue(span) => span,
            MetaStmt::If { span, .. } => span,
            MetaStmt::Loop { span, .. } => span,
        }
    }
}

impl LowerError {
    /// The message of the error: `type mismatch: L vs R`.
    pub fn message(&self) -> (res: String)
        ensures
            match self {
                LowerError::TypeMismatch { lhs, rhs, .. } => res@ == "type mismatch: "@ + type_text(
                    lhs@,
                ) + " vs "@ + type_text(rhs@),
            },
    {
        match self {
            LowerError::TypeMismatch { lhs, rhs, .. } => {
                let mut s = String::new();
                s.append("type mismatch: ");
                let l = lhs.to_text();
                s.append(l.as_str());
                s.append(" vs ");
                let r = rhs.to_text();
                s.append(r.as_str());
                s
            },
        }
    }
}

} // verus!
