//! Laws of expressions that always leave the function.

use vstd::prelude::*;

use super::ctrl::exits::{arms_exit, block_exits, exits, stmts_exit};
use super::scc::occurs::{in_arms, in_stmts, stands_in, Node};
use crate::hir::{HirBlock, HirExpr, HirExprKind, HirStmt, HirStmtKind};
use crate::list::List;

verus! {

/// Whether a node leaves the function itself.
pub open spec fn leaves(node: Node) -> bool {
    match node {
        Node::Expr(e) => e.kind is Return || e.kind is Raise || e.kind is Panic,
        _ => false,
    }
}

/// Whether a node that leaves the function stands in `node`, at most `depth`
/// levels down.
pub open spec fn leaves_within(node: Node, depth: nat) -> bool
    decreases depth,
{
    leaves(node) || (depth > 0 && exists|inner: Node| #[trigger]
        stands_in(inner, node) && leaves_within(inner, (depth - 1) as nat))
}

proof fn lemma_exits(expr: HirExpr) -> (depth: nat)
    requires
        exits(expr),
    ensures
        leaves_within(Node::Expr(expr), depth),
    decreases expr, 0nat,
{
    let node = Node::Expr(expr);
    match expr.kind {
        HirExprKind::Try(inner) => {
            let d = lemma_exits(*inner);
            lemma_up(Node::Expr(*inner), node, d);
            d + 1
        },
        HirExprKind::Block(block) => {
            let d = lemma_block_exits(*block);
            lemma_up(Node::Block(*block), node, d);
            d + 1
        },
        HirExprKind::If(branch) => {
            if exits(branch.cond) {
                let d = lemma_exits(branch.cond);
                lemma_up(Node::Expr(branch.cond), node, d);
                d + 1
            } else {
                let d = lemma_block_exits(branch.then_block);
                lemma_up(Node::Block(branch.then_block), node, d);
                d + 1
            }
        },
        HirExprKind::Match(m) => {
            if exits(m.scrutinee) {
                let d = lemma_exits(m.scrutinee);
                lemma_up(Node::Expr(m.scrutinee), node, d);
                d + 1
            } else {
                assert(arms_exit(m.arms));
                match m.arms {
                    List::Cons(arm, rest) => {
                        assert(exits(arm.body));
                        let d = lemma_exits(arm.body);
                        assert(in_arms(Node::Expr(arm.body), m.arms));
                        lemma_up(Node::Expr(arm.body), node, d);
                        d + 1
                    },
                    List::Nil => 0,
                }
            }
        },
        _ => 0,
    }
}

proof fn lemma_up(inner: Node, outer: Node, depth: nat)
    requires
        stands_in(inner, outer),
        leaves_within(inner, depth),
    ensures
        leaves_within(outer, depth + 1),
{
    assert((depth + 1 - 1) as nat == depth);
}

proof fn lemma_block_exits(block: HirBlock) -> (depth: nat)
    requires
        block_exits(block),
    ensures
        leaves_within(Node::Block(block), depth),
    decreases block, 1nat,
{
    let node = Node::Block(block);
    if stmts_exit(block.stmts) {
        let (inner, d) = lemma_stmts_exit(block.stmts);
        lemma_up(inner, node, d);
        d + 1
    } else {
        let e = block.trailing->0;
        let d = lemma_exits(e);
        lemma_up(Node::Expr(e), node, d);
        d + 1
    }
}

proof fn lemma_stmts_exit(stmts: List<HirStmt>) -> (r: (Node, nat))
    requires
        stmts_exit(stmts),
    ensures
        in_stmts(r.0, stmts),
        leaves_within(r.0, r.1),
    decreases stmts, 0nat,
{
    match stmts {
        List::Nil => (Node::Block(arbitrary()), 0),
        List::Cons(stmt, rest) => {
            if stmts_exit(*rest) {
                lemma_stmts_exit(*rest)
            } else {
                match stmt.kind {
                    HirStmtKind::Expr(expr) => (Node::Expr(expr), lemma_exits(expr)),
                    HirStmtKind::Let(decl) => {
                        let init = decl.init->0;
                        (Node::Expr(init), lemma_exits(init))
                    },
                    HirStmtKind::Assign(assign) => (
                        Node::Expr(assign.rhs),
                        lemma_exits(assign.rhs),
                    ),
                }
            }
        },
    }
}

/// What always leaves the function has a `return`, a `raise` or a `panic` in
/// it.
pub proof fn law_exit_has_cause(expr: HirExpr)
    requires
        exits(expr),
    ensures
        exists|depth: nat| leaves_within(Node::Expr(expr), depth),
{
    let depth = lemma_exits(expr);
}

/// A `return`, a `raise` and a `panic` always leave the function. A block
/// leaves where its last expression or any of its statements does, a
/// conditional where its condition or both of its branches do; a conditional
/// without an `else` and a condition that stays does not.
pub proof fn law_exits(expr: HirExpr, block: HirBlock)
    ensures
        leaves(Node::Expr(expr)) ==> exits(expr),
        block.trailing == Some(expr) && exits(expr) ==> block_exits(block),
        expr.kind matches HirExprKind::If(b) ==> (exits(expr) <==> exits(b.cond) || (
        b.else_branch matches Some(other) && block_exits(b.then_block) && exits(other))),
        expr.kind is Loop || expr.kind is For || expr.kind is Path || expr.kind is Literal
            || expr.kind is Closure || expr.kind is Spawn || expr.kind is Handle ==> !exits(expr),
{
}

/// A block leaves the function where one of its statements is an expression
/// that does.
pub proof fn law_stmt_exits(block: HirBlock, stmt: HirStmt, rest: List<HirStmt>, expr: HirExpr)
    requires
        block.stmts == List::Cons(Box::new(stmt), Box::new(rest)),
    ensures
        stmt.kind == HirStmtKind::Expr(expr) && exits(expr) ==> block_exits(block),
        stmts_exit(rest) ==> block_exits(block),
{
}

} // verus!
