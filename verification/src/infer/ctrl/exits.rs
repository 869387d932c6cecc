//! Whether control always leaves the function.

use vstd::prelude::*;

use crate::hir::{HirBlock, HirExpr, HirExprKind, HirMatchArm, HirStmt, HirStmtKind};
use crate::list::List;

verus! {

/// Whether every path through `expr` ends in `return`, `raise` or `panic`.
pub open spec fn exits(expr: HirExpr) -> bool
    decreases expr, 0nat,
{
    match expr.kind {
        HirExprKind::Raise(_) | HirExprKind::Panic(_) | HirExprKind::Return(_) => true,
        HirExprKind::Try(inner) => exits(*inner),
        HirExprKind::Block(block) => block_exits(*block),
        HirExprKind::If(branch) => exits(branch.cond) || match branch.else_branch {
            Some(other) => block_exits(branch.then_block) && exits(other),
            None => false,
        },
        HirExprKind::Match(m) => exits(m.scrutinee) || (m.arms is Cons && arms_exit(m.arms)),
        _ => false,
    }
}

/// Whether some statement or the trailing expression always leaves.
pub open spec fn block_exits(block: HirBlock) -> bool
    decreases block, 1nat,
{
    stmts_exit(block.stmts) || match block.trailing {
        Some(expr) => exits(expr),
        None => false,
    }
}

/// Whether some statement always leaves.
pub open spec fn stmts_exit(stmts: List<HirStmt>) -> bool
    decreases stmts, 0nat,
{
    match stmts {
        List::Nil => false,
        List::Cons(stmt, rest) => stmts_exit(*rest) || match stmt.kind {
            HirStmtKind::Expr(expr) => exits(expr),
            HirStmtKind::Let(decl) => match decl.init {
                Some(init) => exits(init),
                None => false,
            },
            HirStmtKind::Assign(assign) => exits(assign.rhs),
        },
    }
}

/// Whether every arm always leaves.
pub open spec fn arms_exit(arms: List<HirMatchArm>) -> bool
    decreases arms, 0nat,
{
    match arms {
        List::Nil => true,
        List::Cons(arm, rest) => exits(arm.body) && arms_exit(*rest),
    }
}

/// Whether every path through `expr` ends in `return`, `raise` or `panic`.
/// `break` and `continue` stay inside the function.
pub fn expr_always_exits(expr: &HirExpr) -> (r: bool)
    ensures
        r == exits(*expr),
    decreases expr, 0nat,
{
    match &expr.kind {
        HirExprKind::Raise(_) | HirExprKind::Panic(_) | HirExprKind::Return(_) => true,
        HirExprKind::Try(inner) => expr_always_exits(inner),
        HirExprKind::Block(block) => block_always_exits(block),
        HirExprKind::If(branch) => expr_always_exits(&branch.cond) || match &branch.else_branch {
            Some(other) => block_always_exits(&branch.then_block) && expr_always_exits(other),
            None => false,
        },
        HirExprKind::Match(m) => expr_always_exits(&m.scrutinee) || (!m.arms.is_empty()
            && arms_always_exit(&m.arms)),
        _ => false,
    }
}

/// Whether some statement or the trailing expression always leaves.
pub fn block_always_exits(block: &HirBlock) -> (r: bool)
    ensures
        r == block_exits(*block),
    decreases block, 1nat,
{
    stmts_always_exit(&block.stmts) || match &block.trailing {
        Some(expr) => expr_always_exits(expr),
        None => false,
    }
}

fn stmts_always_exit(stmts: &List<HirStmt>) -> (r: bool)
    ensures
        r == stmts_exit(*stmts),
    decreases stmts, 0nat,
{
    match stmts {
        List::Nil => false,
        List::Cons(stmt, rest) => {
            let first = match &stmt.kind {
                HirStmtKind::Expr(expr) => expr_always_exits(expr),
                HirStmtKind::Let(decl) => match &decl.init {
                    Some(init) => expr_always_exits(init),
                    None => false,
                },
                HirStmtKind::Assign(assign) => expr_always_exits(&assign.rhs),
            };
            first || stmts_always_exit(rest)
        },
    }
}

fn arms_always_exit(arms: &List<HirMatchArm>) -> (r: bool)
    ensures
        r == arms_exit(*arms),
    decreases arms, 0nat,
{
    match arms {
        List::Nil => true,
        List::Cons(arm, rest) => expr_always_exits(&arm.body) && arms_always_exit(rest),
    }
}

} // verus!
