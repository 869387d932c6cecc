//! Where calls stand in a body, and what that says of the call graph.

use vstd::prelude::*;

use super::callees::{
    args_callees, arms_callees, block_callees, expr_callees, exprs_callees, fstring_callees,
    function_callee, lit_fields_callees, pat_callees, pat_fields_callees, pats_callees,
    stmts_callees,
};
use super::graph::{call_graph, calls, with_function, with_functions, with_modules, Calls};
use crate::hir::{
    HirBlock, HirCall, HirCallArg, HirExpr, HirExprKind, HirFStringPart, HirMatchArm, HirPat,
    HirPatKind, HirPath, HirStmt, HirStmtKind, HirStructLitField, HirStructPatField,
    HirVariantPatPayload,
};
use crate::list::List;
use crate::package::{item_index, BindingKind, FnDecl, ItemEntry, Module, Resolved, ResolvedPackage};
use crate::ty::{BindingId, ModuleId};

verus! {

/// A node of a body.
pub enum Node {
    /// An expression.
    Expr(HirExpr),
    /// A block.
    Block(HirBlock),
    /// A pattern.
    Pat(HirPat),
}

/// Whether `inner` is the optional expression `outer`.
pub open spec fn is_opt(inner: Node, outer: Option<HirExpr>) -> bool {
    match outer {
        Some(e) => inner == Node::Expr(e),
        None => false,
    }
}

/// Whether `inner` is the optional operand `outer`.
pub open spec fn is_boxed(inner: Node, outer: Option<Box<HirExpr>>) -> bool {
    match outer {
        Some(e) => inner == Node::Expr(*e),
        None => false,
    }
}

/// Whether `inner` is one of the expressions.
pub open spec fn in_exprs(inner: Node, list: List<HirExpr>) -> bool
    decreases list,
{
    match list {
        List::Nil => false,
        List::Cons(e, rest) => inner == Node::Expr(*e) || in_exprs(inner, *rest),
    }
}

/// Whether `inner` is one of the patterns.
pub open spec fn in_pats(inner: Node, list: List<HirPat>) -> bool
    decreases list,
{
    match list {
        List::Nil => false,
        List::Cons(p, rest) => inner == Node::Pat(*p) || in_pats(inner, *rest),
    }
}

/// Whether `inner` is in a slot of an interpolated string.
pub open spec fn in_slots(inner: Node, list: List<HirFStringPart>) -> bool
    decreases list,
{
    match list {
        List::Nil => false,
        List::Cons(p, rest) => in_slots(inner, *rest) || match *p {
            HirFStringPart::Slot(e) => inner == Node::Expr(e),
            HirFStringPart::Text(_) => false,
        },
    }
}

/// Whether `inner` is an argument.
pub open spec fn in_args(inner: Node, list: List<HirCallArg>) -> bool
    decreases list,
{
    match list {
        List::Nil => false,
        List::Cons(a, rest) => inner == Node::Expr(a.expr) || in_args(inner, *rest),
    }
}

/// Whether `inner` is a value of a struct literal.
pub open spec fn in_inits(inner: Node, list: List<HirStructLitField>) -> bool
    decreases list,
{
    match list {
        List::Nil => false,
        List::Cons(f, rest) => inner == Node::Expr(f.value) || in_inits(inner, *rest),
    }
}

/// Whether `inner` is the pattern of a field.
pub open spec fn in_pat_fields(inner: Node, list: List<HirStructPatField>) -> bool
    decreases list,
{
    match list {
        List::Nil => false,
        List::Cons(f, rest) => inner == Node::Pat(f.pat) || in_pat_fields(inner, *rest),
    }
}

/// Whether `inner` is the pattern, the guard or the body of an arm.
pub open spec fn in_arms(inner: Node, list: List<HirMatchArm>) -> bool
    decreases list,
{
    match list {
        List::Nil => false,
        List::Cons(a, rest) => inner == Node::Pat(a.pat) || is_opt(inner, a.guard) || inner
            == Node::Expr(a.body) || in_arms(inner, *rest),
    }
}

/// Whether `inner` stands directly in a statement.
pub open spec fn in_stmts(inner: Node, list: List<HirStmt>) -> bool
    decreases list,
{
    match list {
        List::Nil => false,
        List::Cons(s, rest) => in_stmts(inner, *rest) || match s.kind {
            HirStmtKind::Let(d) => inner == Node::Pat(d.pat) || is_opt(inner, d.init),
            HirStmtKind::Assign(a) => inner == Node::Expr(a.target) || inner == Node::Expr(a.rhs),
            HirStmtKind::Expr(e) => inner == Node::Expr(e),
        },
    }
}

/// Whether `inner` stands directly in an expression. The arguments of a task
/// are not part of its body.
pub open spec fn in_expr(inner: Node, outer: HirExpr) -> bool {
    match outer.kind {
        HirExprKind::Literal(_) | HirExprKind::Path(_) | HirExprKind::Continue
        | HirExprKind::Error => false,
        HirExprKind::FString(parts) => in_slots(inner, parts),
        HirExprKind::Block(b) => inner == Node::Block(*b),
        HirExprKind::Binary(n) => inner == Node::Expr(n.lhs) || inner == Node::Expr(n.rhs),
        HirExprKind::Unary(n) => inner == Node::Expr(n.operand),
        HirExprKind::If(n) => inner == Node::Expr(n.cond) || inner == Node::Block(n.then_block)
            || is_opt(inner, n.else_branch),
        HirExprKind::Match(n) => inner == Node::Expr(n.scrutinee) || in_arms(inner, n.arms),
        HirExprKind::Loop(n) => inner == Node::Block(n.body) || is_opt(inner, n.decreases),
        HirExprKind::For(n) => inner == Node::Pat(n.pat) || inner == Node::Expr(n.iter) || inner
            == Node::Block(n.body),
        HirExprKind::Return(e) => is_boxed(inner, e),
        HirExprKind::Break(e) => is_boxed(inner, e),
        HirExprKind::Raise(e) => inner == Node::Expr(*e),
        HirExprKind::Panic(e) => inner == Node::Expr(*e),
        HirExprKind::Try(e) => inner == Node::Expr(*e),
        HirExprKind::Tuple(list) => in_exprs(inner, list),
        HirExprKind::Array(list) => in_exprs(inner, list),
        HirExprKind::Cast(n) => inner == Node::Expr(n.operand),
        HirExprKind::Index(n) => inner == Node::Expr(n.receiver) || inner == Node::Expr(n.index),
        HirExprKind::Range(n) => is_opt(inner, n.lo) || is_opt(inner, n.hi),
        HirExprKind::Comptime(e) => inner == Node::Expr(*e),
        HirExprKind::ComptimeBlock(b) => inner == Node::Block(*b),
        HirExprKind::Call(n) => inner == Node::Expr(n.callee) || in_args(inner, n.args),
        HirExprKind::Field(n) => inner == Node::Expr(n.receiver),
        HirExprKind::TupleIndex(n) => inner == Node::Expr(n.receiver),
        HirExprKind::StructLit(n) => in_inits(inner, n.fields),
        HirExprKind::Handle(n) => inner == Node::Expr(n.recovery) || inner == Node::Block(n.body),
        HirExprKind::MethodCall(n) => inner == Node::Expr(n.receiver) || in_args(inner, n.args),
        HirExprKind::Closure(n) => inner == Node::Block(n.body),
        HirExprKind::Scope(n) => inner == Node::Block(n.body),
        HirExprKind::Spawn(n) => inner == Node::Block(n.body),
        HirExprKind::Await(e) => inner == Node::Expr(*e),
    }
}

/// Whether `inner` stands directly in a pattern.
pub open spec fn in_pat(inner: Node, outer: HirPat) -> bool {
    match outer.kind {
        HirPatKind::Tuple(list) => in_pats(inner, list),
        HirPatKind::Variant(v) => match v.payload {
            HirVariantPatPayload::Unit => false,
            HirVariantPatPayload::Tuple(list) => in_pats(inner, list),
            HirVariantPatPayload::Struct(list) => in_pat_fields(inner, list),
        },
        HirPatKind::Struct(s) => in_pat_fields(inner, s.fields),
        HirPatKind::Guard(g) => inner == Node::Pat(g.pat) || inner == Node::Expr(g.cond),
        HirPatKind::AtBinding(a) => inner == Node::Pat(a.inner),
        HirPatKind::Slice(s) => in_pats(inner, s.prefix) || in_pats(inner, s.suffix),
        _ => false,
    }
}

/// Whether `inner` stands directly in `outer`.
pub open spec fn stands_in(inner: Node, outer: Node) -> bool {
    match outer {
        Node::Expr(e) => in_expr(inner, e),
        Node::Block(b) => in_stmts(inner, b.stmts) || is_opt(inner, b.trailing),
        Node::Pat(p) => in_pat(inner, p),
    }
}

/// Whether `call` occurs in `node`, at most `depth` levels down.
pub open spec fn occurs_in(call: HirCall, node: Node, depth: nat) -> bool
    decreases depth,
{
    node_is_call(node, call) || (depth > 0 && exists|inner: Node| #[trigger]
        stands_in(inner, node) && occurs_in(call, inner, (depth - 1) as nat))
}

/// Whether a node is the given call.
pub open spec fn node_is_call(node: Node, call: HirCall) -> bool {
    match node {
        Node::Expr(e) => match e.kind {
            HirExprKind::Call(c) => *c == call,
            _ => false,
        },
        _ => false,
    }
}

/// Whether the callee of `call` is a path that the package resolves to the
/// function `id`.
pub open spec fn names_function(package: ResolvedPackage, call: HirCall, id: BindingId) -> bool {
    exists|path: HirPath| #[trigger]
        path_of(call.callee, path) && match package.target(path.span) {
            Some((Resolved::Binding(found), Some(entry))) => found == id && entry.kind
                == BindingKind::Function,
            _ => false,
        }
}

/// Whether an expression is the path `path`.
pub open spec fn path_of(expr: HirExpr, path: HirPath) -> bool {
    expr.kind == HirExprKind::Path(path)
}

/// Whether a call of `id` occurs anywhere in `node`.
#[verifier::opaque]
pub open spec fn calls_within(package: ResolvedPackage, node: Node, id: BindingId) -> bool {
    exists|call: HirCall, depth: nat| #[trigger]
        occurs_in(call, node, depth) && names_function(package, call, id)
}

/// Whether a node that stands directly in `node` calls `id`.
pub open spec fn deeper_call(package: ResolvedPackage, node: Node, id: BindingId) -> bool {
    exists|inner: Node| stands_in(inner, node) && #[trigger] calls_within(package, inner, id)
}

proof fn lemma_names(package: ResolvedPackage, call: HirCall, id: BindingId)
    ensures
        names_function(package, call, id) <==> function_callee(package, call.callee) == Some(id),
{
    match call.callee.kind {
        HirExprKind::Path(path) => {
            assert(path_of(call.callee, path));
        },
        _ => {},
    }
}

proof fn lemma_within(package: ResolvedPackage, node: Node, id: BindingId)
    ensures
        calls_within(package, node, id) <==> (match node {
            Node::Expr(e) => match e.kind {
                HirExprKind::Call(c) => function_callee(package, c.callee) == Some(id),
                _ => false,
            },
            _ => false,
        }) || deeper_call(package, node, id),
{
    reveal(calls_within);
    if calls_within(package, node, id) {
        let (call, depth) = choose|call: HirCall, depth: nat| #[trigger]
            occurs_in(call, node, depth) && names_function(package, call, id);
        lemma_names(package, call, id);
        if !node_is_call(node, call) {
            let inner = choose|inner: Node| #[trigger]
                stands_in(inner, node) && occurs_in(call, inner, (depth - 1) as nat);
            assert(calls_within(package, inner, id));
        }
    }
    if deeper_call(package, node, id) {
        let inner = choose|inner: Node|
            stands_in(inner, node) && #[trigger] calls_within(package, inner, id);
        let (call, depth) = choose|call: HirCall, depth: nat| #[trigger]
            occurs_in(call, inner, depth) && names_function(package, call, id);
        assert(occurs_in(call, node, depth + 1)) by {
            assert((depth + 1 - 1) as nat == depth);
        }
    }
    match node {
        Node::Expr(e) => match e.kind {
            HirExprKind::Call(c) => {
                if function_callee(package, c.callee) == Some(id) {
                    lemma_names(package, *c, id);
                    assert(occurs_in(*c, node, 0));
                }
            },
            _ => {},
        },
        _ => {},
    }
}

broadcast proof fn lemma_concat(a: Seq<BindingId>, b: Seq<BindingId>, id: BindingId)
    ensures
        #[trigger] (a + b).contains(id) <==> a.contains(id) || b.contains(id),
{
    if a.contains(id) {
        let i = choose|i: int| 0 <= i < a.len() && a[i] == id;
        assert((a + b)[i] == id);
    }
    if b.contains(id) {
        let i = choose|i: int| 0 <= i < b.len() && b[i] == id;
        assert((a + b)[a.len() + i] == id);
    }
}

broadcast proof fn lemma_nothing(id: BindingId)
    ensures
        !(#[trigger] Seq::<BindingId>::empty().contains(id)),
{
}

broadcast group group_contains {
    lemma_concat,
    lemma_nothing,
}

proof fn lemma_exprs(package: ResolvedPackage, list: List<HirExpr>, id: BindingId)
    ensures
        exprs_callees(package, list).contains(id) <==> exists|inner: Node|
            in_exprs(inner, list) && #[trigger] calls_within(package, inner, id),
    decreases list, 0nat,
{
    broadcast use group_contains;

    match list {
        List::Nil => {},
        List::Cons(e, rest) => {
            lemma_expr(package, *e, id);
            lemma_exprs(package, *rest, id);
            assert(in_exprs(Node::Expr(*e), list));
        },
    }
}

proof fn lemma_pats(package: ResolvedPackage, list: List<HirPat>, id: BindingId)
    ensures
        pats_callees(package, list).contains(id) <==> exists|inner: Node|
            in_pats(inner, list) && #[trigger] calls_within(package, inner, id),
    decreases list, 0nat,
{
    broadcast use group_contains;

    match list {
        List::Nil => {},
        List::Cons(p, rest) => {
            lemma_pat(package, *p, id);
            lemma_pats(package, *rest, id);
            assert(in_pats(Node::Pat(*p), list));
        },
    }
}

proof fn lemma_slots(package: ResolvedPackage, list: List<HirFStringPart>, id: BindingId)
    ensures
        fstring_callees(package, list).contains(id) <==> exists|inner: Node|
            in_slots(inner, list) && #[trigger] calls_within(package, inner, id),
    decreases list, 0nat,
{
    broadcast use group_contains;

    reveal_with_fuel(fstring_callees, 4);
    match list {
        List::Nil => {},
        List::Cons(p, rest) => {
            lemma_slots(package, *rest, id);
            match *p {
                HirFStringPart::Slot(e) => {
                    lemma_expr(package, e, id);
                    assert(in_slots(Node::Expr(e), list));
                },
                HirFStringPart::Text(_) => {},
            }
        },
    }
}

proof fn lemma_args(package: ResolvedPackage, list: List<HirCallArg>, id: BindingId)
    ensures
        args_callees(package, list).contains(id) <==> exists|inner: Node|
            in_args(inner, list) && #[trigger] calls_within(package, inner, id),
    decreases list, 0nat,
{
    broadcast use group_contains;

    reveal_with_fuel(args_callees, 4);
    match list {
        List::Nil => {},
        List::Cons(a, rest) => {
            lemma_expr(package, a.expr, id);
            lemma_args(package, *rest, id);
            assert(in_args(Node::Expr(a.expr), list));
        },
    }
}

proof fn lemma_inits(package: ResolvedPackage, list: List<HirStructLitField>, id: BindingId)
    ensures
        lit_fields_callees(package, list).contains(id) <==> exists|inner: Node|
            in_inits(inner, list) && #[trigger] calls_within(package, inner, id),
    decreases list, 0nat,
{
    broadcast use group_contains;

    reveal_with_fuel(lit_fields_callees, 4);
    match list {
        List::Nil => {},
        List::Cons(f, rest) => {
            lemma_expr(package, f.value, id);
            lemma_inits(package, *rest, id);
            assert(in_inits(Node::Expr(f.value), list));
        },
    }
}

proof fn lemma_pat_fields(package: ResolvedPackage, list: List<HirStructPatField>, id: BindingId)
    ensures
        pat_fields_callees(package, list).contains(id) <==> exists|inner: Node|
            in_pat_fields(inner, list) && #[trigger] calls_within(package, inner, id),
    decreases list, 0nat,
{
    broadcast use group_contains;

    reveal_with_fuel(pat_fields_callees, 4);
    match list {
        List::Nil => {},
        List::Cons(f, rest) => {
            lemma_pat(package, f.pat, id);
            lemma_pat_fields(package, *rest, id);
            assert(in_pat_fields(Node::Pat(f.pat), list));
        },
    }
}

proof fn lemma_arms(package: ResolvedPackage, list: List<HirMatchArm>, id: BindingId)
    ensures
        arms_callees(package, list).contains(id) <==> exists|inner: Node|
            in_arms(inner, list) && #[trigger] calls_within(package, inner, id),
    decreases list, 0nat,
{
    broadcast use group_contains;

    reveal_with_fuel(arms_callees, 4);
    match list {
        List::Nil => {},
        List::Cons(a, rest) => {
            lemma_pat(package, a.pat, id);
            lemma_expr(package, a.body, id);
            lemma_arms(package, *rest, id);
            assert(in_arms(Node::Pat(a.pat), list));
            assert(in_arms(Node::Expr(a.body), list));
            match a.guard {
                Some(g) => {
                    lemma_expr(package, g, id);
                    assert(in_arms(Node::Expr(g), list));
                },
                None => {},
            }
        },
    }
}

proof fn lemma_stmts(package: ResolvedPackage, list: List<HirStmt>, id: BindingId)
    ensures
        stmts_callees(package, list).contains(id) <==> exists|inner: Node|
            in_stmts(inner, list) && #[trigger] calls_within(package, inner, id),
    decreases list, 0nat,
{
    broadcast use group_contains;

    reveal_with_fuel(stmts_callees, 4);
    match list {
        List::Nil => {},
        List::Cons(s, rest) => {
            lemma_stmts(package, *rest, id);
            match s.kind {
                HirStmtKind::Let(d) => {
                    lemma_pat(package, d.pat, id);
                    assert(in_stmts(Node::Pat(d.pat), list));
                    match d.init {
                        Some(e) => {
                            lemma_expr(package, e, id);
                            assert(in_stmts(Node::Expr(e), list));
                        },
                        None => {},
                    }
                },
                HirStmtKind::Assign(a) => {
                    lemma_expr(package, a.target, id);
                    lemma_expr(package, a.rhs, id);
                    assert(in_stmts(Node::Expr(a.target), list));
                    assert(in_stmts(Node::Expr(a.rhs), list));
                },
                HirStmtKind::Expr(e) => {
                    lemma_expr(package, e, id);
                    assert(in_stmts(Node::Expr(e), list));
                },
            }
        },
    }
}

proof fn lemma_block(package: ResolvedPackage, block: HirBlock, id: BindingId)
    ensures
        block_callees(package, block).contains(id) <==> calls_within(
            package,
            Node::Block(block),
            id,
        ),
    decreases block, 0nat,
{
    broadcast use group_contains;

    reveal_with_fuel(block_callees, 4);
    let node = Node::Block(block);
    lemma_within(package, node, id);
    lemma_stmts(package, block.stmts, id);
    match block.trailing {
        Some(e) => {
            lemma_expr(package, e, id);
            assert(stands_in(Node::Expr(e), node));
        },
        None => {},
    }
}

proof fn lemma_pat(package: ResolvedPackage, pat: HirPat, id: BindingId)
    ensures
        pat_callees(package, pat).contains(id) <==> calls_within(package, Node::Pat(pat), id),
    decreases pat, 1nat,
{
    broadcast use group_contains;

    reveal_with_fuel(pat_callees, 4);
    let node = Node::Pat(pat);
    lemma_within(package, node, id);
    match pat.kind {
        HirPatKind::Tuple(list) => lemma_pats(package, list, id),
        HirPatKind::Variant(v) => match v.payload {
            HirVariantPatPayload::Unit => {},
            HirVariantPatPayload::Tuple(list) => lemma_pats(package, list, id),
            HirVariantPatPayload::Struct(list) => lemma_pat_fields(package, list, id),
        },
        HirPatKind::Struct(s) => lemma_pat_fields(package, s.fields, id),
        HirPatKind::Guard(g) => {
            lemma_pat(package, g.pat, id);
            lemma_expr(package, g.cond, id);
            assert(stands_in(Node::Pat(g.pat), node));
            assert(stands_in(Node::Expr(g.cond), node));
        },
        HirPatKind::AtBinding(a) => {
            lemma_pat(package, a.inner, id);
            assert(stands_in(Node::Pat(a.inner), node));
        },
        HirPatKind::Slice(s) => {
            lemma_pats(package, s.prefix, id);
            lemma_pats(package, s.suffix, id);
        },
        _ => {},
    }
}

proof fn lemma_opt(package: ResolvedPackage, expr: Option<HirExpr>, outer: Node, id: BindingId)
    requires
        expr matches Some(e) ==> stands_in(Node::Expr(e), outer),
    ensures
        expr matches Some(e) ==> (expr_callees(package, e).contains(id) <==> calls_within(
            package,
            Node::Expr(e),
            id,
        )),
    decreases expr, 0nat,
{
    match expr {
        Some(e) => lemma_expr(package, e, id),
        None => {},
    }
}

proof fn lemma_sub(package: ResolvedPackage, inner: HirExpr, outer: Node, id: BindingId)
    requires
        stands_in(Node::Expr(inner), outer),
    ensures
        expr_callees(package, inner).contains(id) <==> calls_within(
            package,
            Node::Expr(inner),
            id,
        ),
        calls_within(package, Node::Expr(inner), id) ==> deeper_call(package, outer, id),
    decreases inner, 2nat,
{
    lemma_expr(package, inner, id);
}

proof fn lemma_sub_block(package: ResolvedPackage, inner: HirBlock, outer: Node, id: BindingId)
    requires
        stands_in(Node::Block(inner), outer),
    ensures
        block_callees(package, inner).contains(id) <==> calls_within(
            package,
            Node::Block(inner),
            id,
        ),
        calls_within(package, Node::Block(inner), id) ==> deeper_call(package, outer, id),
    decreases inner, 1nat,
{
    lemma_block(package, inner, id);
}

#[verifier::spinoff_prover]
#[verifier::rlimit(60)]
proof fn lemma_expr(package: ResolvedPackage, expr: HirExpr, id: BindingId)
    ensures
        expr_callees(package, expr).contains(id) <==> calls_within(package, Node::Expr(expr), id),
    decreases expr, 1nat,
{
    broadcast use group_contains;

    reveal_with_fuel(expr_callees, 4);
    let node = Node::Expr(expr);
    lemma_within(package, node, id);
    match expr.kind {
        HirExprKind::Literal(_) | HirExprKind::Path(_) | HirExprKind::Continue
        | HirExprKind::Error => {},
        HirExprKind::FString(parts) => lemma_slots(package, parts, id),
        HirExprKind::Block(b) => lemma_sub_block(package, *b, node, id),
        HirExprKind::Binary(n) => {
            lemma_sub(package, n.lhs, node, id);
            lemma_sub(package, n.rhs, node, id);
        },
        HirExprKind::Unary(n) => lemma_sub(package, n.operand, node, id),
        HirExprKind::If(n) => {
            lemma_sub(package, n.cond, node, id);
            lemma_sub_block(package, n.then_block, node, id);
            lemma_opt(package, n.else_branch, node, id);
        },
        HirExprKind::Match(n) => {
            lemma_sub(package, n.scrutinee, node, id);
            lemma_arms(package, n.arms, id);
        },
        HirExprKind::Loop(n) => {
            lemma_sub_block(package, n.body, node, id);
            lemma_opt(package, n.decreases, node, id);
        },
        HirExprKind::For(n) => {
            lemma_pat(package, n.pat, id);
            assert(stands_in(Node::Pat(n.pat), node));
            lemma_sub(package, n.iter, node, id);
            lemma_sub_block(package, n.body, node, id);
        },
        HirExprKind::Return(operand) => match operand {
            Some(e) => lemma_sub(package, *e, node, id),
            None => {},
        },
        HirExprKind::Break(operand) => match operand {
            Some(e) => lemma_sub(package, *e, node, id),
            None => {},
        },
        HirExprKind::Raise(e) => lemma_sub(package, *e, node, id),
        HirExprKind::Panic(e) => lemma_sub(package, *e, node, id),
        HirExprKind::Try(e) => lemma_sub(package, *e, node, id),
        HirExprKind::Tuple(list) => lemma_exprs(package, list, id),
        HirExprKind::Array(list) => lemma_exprs(package, list, id),
        HirExprKind::Cast(n) => lemma_sub(package, n.operand, node, id),
        HirExprKind::Index(n) => {
            lemma_sub(package, n.receiver, node, id);
            lemma_sub(package, n.index, node, id);
        },
        HirExprKind::Range(n) => {
            lemma_opt(package, n.lo, node, id);
            lemma_opt(package, n.hi, node, id);
        },
        HirExprKind::Comptime(e) => lemma_sub(package, *e, node, id),
        HirExprKind::ComptimeBlock(b) => lemma_sub_block(package, *b, node, id),
        HirExprKind::Call(n) => {
            lemma_sub(package, n.callee, node, id);
            lemma_args(package, n.args, id);
            match function_callee(package, n.callee) {
                Some(found) => {
                    assert(seq![found].contains(id) <==> found == id) by {
                        assert(seq![found][0] == found);
                    }
                },
                None => {},
            }
        },
        HirExprKind::Field(n) => lemma_sub(package, n.receiver, node, id),
        HirExprKind::TupleIndex(n) => lemma_sub(package, n.receiver, node, id),
        HirExprKind::StructLit(n) => lemma_inits(package, n.fields, id),
        HirExprKind::Handle(n) => {
            lemma_sub(package, n.recovery, node, id);
            lemma_sub_block(package, n.body, node, id);
        },
        HirExprKind::MethodCall(n) => {
            lemma_sub(package, n.receiver, node, id);
            lemma_args(package, n.args, id);
        },
        HirExprKind::Closure(n) => lemma_sub_block(package, n.body, node, id),
        HirExprKind::Scope(n) => lemma_sub_block(package, n.body, node, id),
        HirExprKind::Spawn(n) => lemma_sub_block(package, n.body, node, id),
        HirExprKind::Await(e) => lemma_sub(package, *e, node, id),
    }
}

/// The functions that the walk over a body finds are exactly those that calls
/// anywhere in the body name.
pub proof fn law_callees(package: ResolvedPackage, body: HirBlock, id: BindingId)
    ensures
        block_callees(package, body).contains(id) <==> exists|call: HirCall, depth: nat| #[trigger]
            occurs_in(call, Node::Block(body), depth) && names_function(package, call, id),
{
    reveal(calls_within);
    lemma_block(package, body, id);
}

/// Whether a function with the given body is declared under `id` among the
/// functions of a module.
pub open spec fn declared_among(
    items: List<ItemEntry>,
    functions: List<FnDecl>,
    index: usize,
    body: HirBlock,
) -> bool
    decreases functions,
{
    match functions {
        List::Nil => false,
        List::Cons(f, rest) => (f.body == Some(body) && item_index(items, f.name) == Some(index))
            || declared_among(items, *rest, index, body),
    }
}

/// Whether the package declares a function with the given body under `id`.
pub open spec fn declares(package: ResolvedPackage, id: BindingId, body: HirBlock) -> bool {
    match package.modules.nth(id.module.0 as nat) {
        Some(m) => declared_among(m.items, m.functions, id.index, body),
        None => false,
    }
}

proof fn lemma_functions(
    package: ResolvedPackage,
    at: usize,
    items: List<ItemEntry>,
    functions: List<FnDecl>,
    graph: Calls,
    a: BindingId,
    body: HirBlock,
)
    requires
        forall|other: HirBlock| #[trigger]
            declared_among(items, functions, a.index, other) && a.module.0 == at ==> other == body,
    ensures
        ({
            let after = with_functions(package, at, items, functions, graph);
            let own = block_callees(package, body).to_set();
            &&& a.module.0 != at ==> after.contains_key(a) == graph.contains_key(a) && after[a]
                == graph[a]
            &&& a.module.0 == at && (declared_among(items, functions, a.index, body) || (
            graph.contains_key(a) && graph[a] == own)) ==> after.contains_key(a) && after[a] == own
            &&& a.module.0 == at && !declared_among(items, functions, a.index, body)
                && graph.contains_key(a) ==> after.contains_key(a) && after[a] == graph[a]
            &&& a.module.0 == at && !declared_among(items, functions, a.index, body)
                && !graph.contains_key(a) ==> !after.contains_key(a) || after[a] == Set::<
                BindingId,
            >::empty()
        }),
    decreases functions,
{
    match functions {
        List::Nil => {},
        List::Cons(f, rest) => {
            let next = match item_index(items, f.name) {
                Some(index) => with_function(
                    package,
                    BindingId { module: ModuleId(at), index },
                    *f,
                    graph,
                ),
                None => graph,
            };
            assert forall|other: HirBlock| #[trigger]
                declared_among(items, *rest, a.index, other) && a.module.0 == at implies other
                == body by {
                assert(declared_among(items, functions, a.index, other));
            }
            match f.body {
                Some(other) => {
                    if item_index(items, f.name) == Some(a.index) {
                        assert(declared_among(items, functions, a.index, other));
                    }
                },
                None => {},
            }
            lemma_functions(package, at, items, *rest, next, a, body);
        },
    }
}

proof fn lemma_modules(
    package: ResolvedPackage,
    at: usize,
    modules: List<Module>,
    graph: Calls,
    a: BindingId,
    body: HirBlock,
)
    requires
        forall|k: nat| at + k == a.module.0 ==> (#[trigger] modules.nth(k)) == package.modules.nth(
            a.module.0 as nat,
        ),
        forall|other: HirBlock| #[trigger] declares(package, a, other) ==> other == body,
    ensures
        ({
            let after = with_modules(package, at, modules, graph);
            let own = block_callees(package, body).to_set();
            &&& a.module.0 < at ==> after.contains_key(a) == graph.contains_key(a) && after[a]
                == graph[a]
            &&& a.module.0 >= at && declares(package, a, body) ==> after.contains_key(a)
                && after[a] == own
            &&& a.module.0 >= at && !declares(package, a, body) && !graph.contains_key(a)
                ==> !after.contains_key(a) || after[a] == Set::<BindingId>::empty()
        }),
    decreases modules,
{
    match modules {
        List::Nil => {
            if a.module.0 >= at {
                let k = (a.module.0 - at) as nat;
                assert(modules.nth(k) is None);
            }
        },
        List::Cons(m, rest) => {
            let next = with_functions(package, at, m.items, m.functions, graph);
            assert(modules.nth(0) == Some(*m));
            assert forall|other: HirBlock| #[trigger]
                declared_among(m.items, m.functions, a.index, other) && a.module.0 == at implies other
                == body by {
                assert(declares(package, a, other));
            }
            lemma_functions(package, at, m.items, m.functions, graph, a, body);
            if at < usize::MAX {
                assert forall|k: nat| (at + 1) as usize + k == a.module.0 implies (#[trigger] rest.nth(
                    k,
                )) == package.modules.nth(a.module.0 as nat) by {
                    assert(modules.nth(k + 1) == rest.nth(k));
                }
                lemma_modules(package, (at + 1) as usize, *rest, next, a, body);
            }
        },
    }
}

/// A function that is declared with one body calls in the call graph exactly
/// what calls anywhere in that body name.
pub proof fn law_call_graph(
    package: ResolvedPackage,
    a: BindingId,
    b: BindingId,
    body: HirBlock,
)
    requires
        forall|other: HirBlock| #[trigger] declares(package, a, other) <==> other == body,
    ensures
        calls(call_graph(package), a, b) <==> exists|call: HirCall, depth: nat| #[trigger]
            occurs_in(call, Node::Block(body), depth) && names_function(package, call, b),
{
    assert(declares(package, a, body));
    lemma_modules(package, 0, package.modules, Map::empty(), a, body);
    law_callees(package, body, b);
}

/// What the package declares no body for calls nothing.
pub proof fn law_call_graph_bodies(package: ResolvedPackage, a: BindingId, b: BindingId)
    requires
        calls(call_graph(package), a, b),
    ensures
        exists|body: HirBlock| declares(package, a, body),
{
    if !(exists|body: HirBlock| declares(package, a, body)) {
        let body: HirBlock = arbitrary();
        lemma_modules(package, 0, package.modules, Map::empty(), a, body);
    }
}

} // verus!
