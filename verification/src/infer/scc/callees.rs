//! The calls in a body.

use vstd::prelude::*;

use crate::hir::{
    HirAssign, HirAtPat, HirBinary, HirBlock, HirCall, HirCallArg, HirCast, HirClosure, HirExpr,
    HirExprKind, HirFStringPart, HirField, HirFor, HirGuardPat, HirHandle, HirIf, HirIndex, HirLet,
    HirLoop, HirMatch, HirMatchArm, HirMethodCall, HirPat, HirPatKind, HirRange, HirScope,
    HirSlicePat, HirSpawn, HirStmt, HirStmtKind, HirStructLit, HirStructLitField, HirStructPat,
    HirStructPatField, HirTupleIndex, HirUnary, HirVariantPat, HirVariantPatPayload,
};
use crate::list::List;
use crate::package::{BindingKind, Resolved, ResolvedPackage};
use crate::ty::BindingId;

verus! {

/// The function that a callee names, as a list of at most one.
pub open spec fn named_callee(package: ResolvedPackage, callee: HirExpr) -> Seq<BindingId> {
    match function_callee(package, callee) {
        Some(id) => seq![id],
        None => Seq::empty(),
    }
}

/// The function that a callee names.
pub open spec fn function_callee(package: ResolvedPackage, callee: HirExpr) -> Option<BindingId> {
    match callee.kind {
        HirExprKind::Path(path) => match package.target(path.span) {
            Some((Resolved::Binding(id), Some(entry))) => if entry.kind == BindingKind::Function {
                Some(id)
            } else {
                None
            },
            _ => None,
        },
        _ => None,
    }
}

fn resolve_function_callee(package: &ResolvedPackage, callee: &HirExpr) -> (r: Option<BindingId>)
    ensures
        r == function_callee(*package, *callee),
{
    match &callee.kind {
        HirExprKind::Path(path) => match package.lookup_path(path.span) {
            Some((Resolved::Binding(id), Some(entry))) => match entry.kind {
                BindingKind::Function => Some(id),
                _ => None,
            },
            _ => None,
        },
        _ => None,
    }
}

/// The functions that calls in an expression name.
pub open spec fn expr_callees(package: ResolvedPackage, node: HirExpr) -> Seq<BindingId>
    decreases node, 1nat,
{
    match node.kind {
        HirExprKind::Literal(_) | HirExprKind::Path(_) | HirExprKind::Continue | HirExprKind::Error => Seq::empty(),
        HirExprKind::FString(inner) => fstring_callees(package, inner),
        HirExprKind::Block(inner) => block_callees(package, *inner),
        HirExprKind::Binary(inner) => binary_callees(package, *inner),
        HirExprKind::Unary(inner) => unary_callees(package, *inner),
        HirExprKind::If(inner) => if_node_callees(package, *inner),
        HirExprKind::Match(inner) => match_node_callees(package, *inner),
        HirExprKind::Loop(inner) => loop_node_callees(package, *inner),
        HirExprKind::For(inner) => for_node_callees(package, *inner),
        HirExprKind::Return(inner) => boxed_opt_callees(package, inner),
        HirExprKind::Break(inner) => boxed_opt_callees(package, inner),
        HirExprKind::Raise(inner) => expr_callees(package, *inner),
        HirExprKind::Panic(inner) => expr_callees(package, *inner),
        HirExprKind::Try(inner) => expr_callees(package, *inner),
        HirExprKind::Tuple(inner) => exprs_callees(package, inner),
        HirExprKind::Array(inner) => exprs_callees(package, inner),
        HirExprKind::Cast(inner) => cast_callees(package, *inner),
        HirExprKind::Index(inner) => index_callees(package, *inner),
        HirExprKind::Range(inner) => range_callees(package, *inner),
        HirExprKind::Comptime(inner) => expr_callees(package, *inner),
        HirExprKind::ComptimeBlock(inner) => block_callees(package, *inner),
        HirExprKind::Call(inner) => call_callees(package, *inner),
        HirExprKind::Field(inner) => field_callees(package, *inner),
        HirExprKind::TupleIndex(inner) => tuple_index_callees(package, *inner),
        HirExprKind::StructLit(inner) => struct_lit_callees(package, *inner),
        HirExprKind::Handle(inner) => handle_callees(package, *inner),
        HirExprKind::MethodCall(inner) => method_call_callees(package, *inner),
        HirExprKind::Closure(inner) => closure_callees(package, *inner),
        HirExprKind::Scope(inner) => scope_callees(package, *inner),
        HirExprKind::Spawn(inner) => spawn_callees(package, *inner),
        HirExprKind::Await(inner) => expr_callees(package, *inner),
    }
}

/// The functions that calls in an optional expression name.
pub open spec fn opt_expr_callees(package: ResolvedPackage, node: Option<HirExpr>) -> Seq<BindingId>
    decreases node, 0nat,
{
    match node {
        Some(expr) => expr_callees(package, expr),
        None => Seq::empty(),
    }
}

/// The functions that calls in an optional operand name.
pub open spec fn boxed_opt_callees(package: ResolvedPackage, node: Option<Box<HirExpr>>) -> Seq<
    BindingId,
>
    decreases node, 0nat,
{
    match node {
        Some(expr) => expr_callees(package, *expr),
        None => Seq::empty(),
    }
}

/// The functions that calls in a piece of an interpolated string name.
pub open spec fn fstring_part_callees(package: ResolvedPackage, node: HirFStringPart) -> Seq<BindingId>
    decreases node, 0nat,
{
    match node {
        HirFStringPart::Slot(expr) => expr_callees(package, expr),
        HirFStringPart::Text(_) => Seq::empty(),
    }
}

/// The functions that calls in an interpolated string name.
pub open spec fn fstring_callees(package: ResolvedPackage, node: List<HirFStringPart>) -> Seq<BindingId>
    decreases node, 0nat,
{
    match node {
        List::Nil => Seq::empty(),
        List::Cons(head, tail) => fstring_part_callees(package, *head) + fstring_callees(package, *tail),
    }
}

/// The functions that calls in expressions name.
pub open spec fn exprs_callees(package: ResolvedPackage, node: List<HirExpr>) -> Seq<BindingId>
    decreases node, 0nat,
{
    match node {
        List::Nil => Seq::empty(),
        List::Cons(head, tail) => expr_callees(package, *head) + exprs_callees(package, *tail),
    }
}

/// The functions that calls in a block name.
pub open spec fn block_callees(package: ResolvedPackage, node: HirBlock) -> Seq<BindingId>
    decreases node, 0nat,
{
    stmts_callees(package, node.stmts) + opt_expr_callees(package, node.trailing)
}

/// The functions that calls in statements name.
pub open spec fn stmts_callees(package: ResolvedPackage, node: List<HirStmt>) -> Seq<BindingId>
    decreases node, 0nat,
{
    match node {
        List::Nil => Seq::empty(),
        List::Cons(head, tail) => stmt_callees(package, *head) + stmts_callees(package, *tail),
    }
}

/// The functions that calls in a statement name.
pub open spec fn stmt_callees(package: ResolvedPackage, node: HirStmt) -> Seq<BindingId>
    decreases node, 0nat,
{
    match node.kind {
        HirStmtKind::Let(inner) => let_callees(package, inner),
        HirStmtKind::Assign(inner) => assign_callees(package, inner),
        HirStmtKind::Expr(expr) => expr_callees(package, expr),
    }
}

/// The functions that calls in a declaration name.
pub open spec fn let_callees(package: ResolvedPackage, node: HirLet) -> Seq<BindingId>
    decreases node, 0nat,
{
    pat_callees(package, node.pat) + opt_expr_callees(package, node.init)
}

/// The functions that calls in an assignment name.
pub open spec fn assign_callees(package: ResolvedPackage, node: HirAssign) -> Seq<BindingId>
    decreases node, 0nat,
{
    expr_callees(package, node.target) + expr_callees(package, node.rhs)
}

/// The functions that calls in a binary operation name.
pub open spec fn binary_callees(package: ResolvedPackage, node: HirBinary) -> Seq<BindingId>
    decreases node, 0nat,
{
    expr_callees(package, node.lhs) + expr_callees(package, node.rhs)
}

/// The functions that calls in a unary operation name.
pub open spec fn unary_callees(package: ResolvedPackage, node: HirUnary) -> Seq<BindingId>
    decreases node, 0nat,
{
    expr_callees(package, node.operand)
}

/// The functions that calls in a conditional name.
pub open spec fn if_node_callees(package: ResolvedPackage, node: HirIf) -> Seq<BindingId>
    decreases node, 0nat,
{
    expr_callees(package, node.cond) + block_callees(package, node.then_block) + opt_expr_callees(package, node.else_branch)
}

/// The functions that calls in a match name.
pub open spec fn match_node_callees(package: ResolvedPackage, node: HirMatch) -> Seq<BindingId>
    decreases node, 0nat,
{
    expr_callees(package, node.scrutinee) + arms_callees(package, node.arms)
}

/// The functions that calls in arms name.
pub open spec fn arms_callees(package: ResolvedPackage, node: List<HirMatchArm>) -> Seq<BindingId>
    decreases node, 0nat,
{
    match node {
        List::Nil => Seq::empty(),
        List::Cons(head, tail) => arm_callees(package, *head) + arms_callees(package, *tail),
    }
}

/// The functions that calls in an arm name.
pub open spec fn arm_callees(package: ResolvedPackage, node: HirMatchArm) -> Seq<BindingId>
    decreases node, 0nat,
{
    pat_callees(package, node.pat) + opt_expr_callees(package, node.guard) + expr_callees(package, node.body)
}

/// The functions that calls in a loop name.
pub open spec fn loop_node_callees(package: ResolvedPackage, node: HirLoop) -> Seq<BindingId>
    decreases node, 0nat,
{
    block_callees(package, node.body) + opt_expr_callees(package, node.decreases)
}

/// The functions that calls in a loop over elements name.
pub open spec fn for_node_callees(package: ResolvedPackage, node: HirFor) -> Seq<BindingId>
    decreases node, 0nat,
{
    pat_callees(package, node.pat) + expr_callees(package, node.iter) + block_callees(package, node.body)
}

/// The functions that calls in a cast name.
pub open spec fn cast_callees(package: ResolvedPackage, node: HirCast) -> Seq<BindingId>
    decreases node, 0nat,
{
    expr_callees(package, node.operand)
}

/// The functions that calls in an index operation name.
pub open spec fn index_callees(package: ResolvedPackage, node: HirIndex) -> Seq<BindingId>
    decreases node, 0nat,
{
    expr_callees(package, node.receiver) + expr_callees(package, node.index)
}

/// The functions that calls in a range name.
pub open spec fn range_callees(package: ResolvedPackage, node: HirRange) -> Seq<BindingId>
    decreases node, 0nat,
{
    opt_expr_callees(package, node.lo) + opt_expr_callees(package, node.hi)
}

/// The functions that calls in a call, that call included, name.
pub open spec fn call_callees(package: ResolvedPackage, node: HirCall) -> Seq<BindingId>
    decreases node, 0nat,
{
    named_callee(package, node.callee) + expr_callees(package, node.callee) + args_callees(
        package,
        node.args,
    )
}

/// The functions that calls in arguments name.
pub open spec fn args_callees(package: ResolvedPackage, node: List<HirCallArg>) -> Seq<BindingId>
    decreases node, 0nat,
{
    match node {
        List::Nil => Seq::empty(),
        List::Cons(head, tail) => arg_callees(package, *head) + args_callees(package, *tail),
    }
}

/// The functions that calls in an argument name.
pub open spec fn arg_callees(package: ResolvedPackage, node: HirCallArg) -> Seq<BindingId>
    decreases node, 0nat,
{
    expr_callees(package, node.expr)
}

/// The functions that calls in a field access name.
pub open spec fn field_callees(package: ResolvedPackage, node: HirField) -> Seq<BindingId>
    decreases node, 0nat,
{
    expr_callees(package, node.receiver)
}

/// The functions that calls in a positional access name.
pub open spec fn tuple_index_callees(package: ResolvedPackage, node: HirTupleIndex) -> Seq<BindingId>
    decreases node, 0nat,
{
    expr_callees(package, node.receiver)
}

/// The functions that calls in a struct literal name.
pub open spec fn struct_lit_callees(package: ResolvedPackage, node: HirStructLit) -> Seq<BindingId>
    decreases node, 0nat,
{
    lit_fields_callees(package, node.fields)
}

/// The functions that calls in fields of a struct literal name.
pub open spec fn lit_fields_callees(package: ResolvedPackage, node: List<HirStructLitField>) -> Seq<BindingId>
    decreases node, 0nat,
{
    match node {
        List::Nil => Seq::empty(),
        List::Cons(head, tail) => lit_field_callees(package, *head) + lit_fields_callees(package, *tail),
    }
}

/// The functions that calls in a field of a struct literal name.
pub open spec fn lit_field_callees(package: ResolvedPackage, node: HirStructLitField) -> Seq<BindingId>
    decreases node, 0nat,
{
    expr_callees(package, node.value)
}

/// The functions that calls in a handler name.
pub open spec fn handle_callees(package: ResolvedPackage, node: HirHandle) -> Seq<BindingId>
    decreases node, 0nat,
{
    expr_callees(package, node.recovery) + block_callees(package, node.body)
}

/// The functions that calls in a method call name.
pub open spec fn method_call_callees(package: ResolvedPackage, node: HirMethodCall) -> Seq<BindingId>
    decreases node, 0nat,
{
    expr_callees(package, node.receiver) + args_callees(package, node.args)
}

/// The functions that calls in a closure name.
pub open spec fn closure_callees(package: ResolvedPackage, node: HirClosure) -> Seq<BindingId>
    decreases node, 0nat,
{
    block_callees(package, node.body)
}

/// The functions that calls in a scope region name.
pub open spec fn scope_callees(package: ResolvedPackage, node: HirScope) -> Seq<BindingId>
    decreases node, 0nat,
{
    block_callees(package, node.body)
}

/// The functions that calls in the body of a task name.
pub open spec fn spawn_callees(package: ResolvedPackage, node: HirSpawn) -> Seq<BindingId>
    decreases node, 0nat,
{
    block_callees(package, node.body)
}

/// The functions that calls in a pattern name.
pub open spec fn pat_callees(package: ResolvedPackage, node: HirPat) -> Seq<BindingId>
    decreases node, 1nat,
{
    match node.kind {
        HirPatKind::Wildcard | HirPatKind::Binding(_) | HirPatKind::Literal(_) => Seq::empty(),
        HirPatKind::Range(_, _) | HirPatKind::Error => Seq::empty(),
        HirPatKind::Tuple(elems) => pats_callees(package, elems),
        HirPatKind::Variant(inner) => variant_pat_callees(package, *inner),
        HirPatKind::Struct(inner) => struct_pat_callees(package, *inner),
        HirPatKind::Guard(inner) => guard_pat_callees(package, *inner),
        HirPatKind::AtBinding(inner) => at_pat_callees(package, *inner),
        HirPatKind::Slice(inner) => slice_pat_callees(package, *inner),
    }
}

/// The functions that calls in patterns name.
pub open spec fn pats_callees(package: ResolvedPackage, node: List<HirPat>) -> Seq<BindingId>
    decreases node, 0nat,
{
    match node {
        List::Nil => Seq::empty(),
        List::Cons(head, tail) => pat_callees(package, *head) + pats_callees(package, *tail),
    }
}

/// The functions that calls in a pattern over a variant name.
pub open spec fn variant_pat_callees(package: ResolvedPackage, node: HirVariantPat) -> Seq<BindingId>
    decreases node, 0nat,
{
    match node.payload {
        HirVariantPatPayload::Unit => Seq::empty(),
        HirVariantPatPayload::Tuple(elems) => pats_callees(package, elems),
        HirVariantPatPayload::Struct(fields) => pat_fields_callees(package, fields),
    }
}

/// The functions that calls in fields of a pattern name.
pub open spec fn pat_fields_callees(package: ResolvedPackage, node: List<HirStructPatField>) -> Seq<BindingId>
    decreases node, 0nat,
{
    match node {
        List::Nil => Seq::empty(),
        List::Cons(head, tail) => pat_field_callees(package, *head) + pat_fields_callees(package, *tail),
    }
}

/// The functions that calls in a field of a pattern name.
pub open spec fn pat_field_callees(package: ResolvedPackage, node: HirStructPatField) -> Seq<BindingId>
    decreases node, 0nat,
{
    pat_callees(package, node.pat)
}

/// The functions that calls in a pattern over a product type name.
pub open spec fn struct_pat_callees(package: ResolvedPackage, node: HirStructPat) -> Seq<BindingId>
    decreases node, 0nat,
{
    pat_fields_callees(package, node.fields)
}

/// The functions that calls in a guarded pattern name.
pub open spec fn guard_pat_callees(package: ResolvedPackage, node: HirGuardPat) -> Seq<BindingId>
    decreases node, 0nat,
{
    pat_callees(package, node.pat) + expr_callees(package, node.cond)
}

/// The functions that calls in a named pattern name.
pub open spec fn at_pat_callees(package: ResolvedPackage, node: HirAtPat) -> Seq<BindingId>
    decreases node, 0nat,
{
    pat_callees(package, node.inner)
}

/// The functions that calls in a pattern over a slice name.
pub open spec fn slice_pat_callees(package: ResolvedPackage, node: HirSlicePat) -> Seq<BindingId>
    decreases node, 0nat,
{
    pats_callees(package, node.prefix) + pats_callees(package, node.suffix)
}

fn collect_expr(package: &ResolvedPackage, node: &HirExpr, out: &mut Vec<BindingId>)
    ensures
        final(out)@ == old(out)@ + expr_callees(*package, *node),
    decreases *node, 1nat,
{
    match &node.kind {
        HirExprKind::Literal(_) | HirExprKind::Path(_) | HirExprKind::Continue | HirExprKind::Error => {},
        HirExprKind::FString(inner) => collect_fstring(package, inner, out),
        HirExprKind::Block(inner) => collect_block(package, inner, out),
        HirExprKind::Binary(inner) => collect_binary(package, inner, out),
        HirExprKind::Unary(inner) => collect_unary(package, inner, out),
        HirExprKind::If(inner) => collect_if_node(package, inner, out),
        HirExprKind::Match(inner) => collect_match_node(package, inner, out),
        HirExprKind::Loop(inner) => collect_loop_node(package, inner, out),
        HirExprKind::For(inner) => collect_for_node(package, inner, out),
        HirExprKind::Return(inner) => collect_boxed_opt(package, inner, out),
        HirExprKind::Break(inner) => collect_boxed_opt(package, inner, out),
        HirExprKind::Raise(inner) => collect_expr(package, inner, out),
        HirExprKind::Panic(inner) => collect_expr(package, inner, out),
        HirExprKind::Try(inner) => collect_expr(package, inner, out),
        HirExprKind::Tuple(inner) => collect_exprs(package, inner, out),
        HirExprKind::Array(inner) => collect_exprs(package, inner, out),
        HirExprKind::Cast(inner) => collect_cast(package, inner, out),
        HirExprKind::Index(inner) => collect_index(package, inner, out),
        HirExprKind::Range(inner) => collect_range(package, inner, out),
        HirExprKind::Comptime(inner) => collect_expr(package, inner, out),
        HirExprKind::ComptimeBlock(inner) => collect_block(package, inner, out),
        HirExprKind::Call(inner) => collect_call(package, inner, out),
        HirExprKind::Field(inner) => collect_field(package, inner, out),
        HirExprKind::TupleIndex(inner) => collect_tuple_index(package, inner, out),
        HirExprKind::StructLit(inner) => collect_struct_lit(package, inner, out),
        HirExprKind::Handle(inner) => collect_handle(package, inner, out),
        HirExprKind::MethodCall(inner) => collect_method_call(package, inner, out),
        HirExprKind::Closure(inner) => collect_closure(package, inner, out),
        HirExprKind::Scope(inner) => collect_scope(package, inner, out),
        HirExprKind::Spawn(inner) => collect_spawn(package, inner, out),
        HirExprKind::Await(inner) => collect_expr(package, inner, out),
    }
}

fn collect_opt_expr(package: &ResolvedPackage, node: &Option<HirExpr>, out: &mut Vec<BindingId>)
    ensures
        final(out)@ == old(out)@ + opt_expr_callees(*package, *node),
    decreases *node, 0nat,
{
    match node {
        Some(expr) => collect_expr(package, expr, out),
        None => {},
    }
}

fn collect_boxed_opt(package: &ResolvedPackage, node: &Option<Box<HirExpr>>, out: &mut Vec<BindingId>)
    ensures
        final(out)@ == old(out)@ + boxed_opt_callees(*package, *node),
    decreases *node, 0nat,
{
    match node {
        Some(expr) => collect_expr(package, expr, out),
        None => {},
    }
}

fn collect_fstring_part(package: &ResolvedPackage, node: &HirFStringPart, out: &mut Vec<BindingId>)
    ensures
        final(out)@ == old(out)@ + fstring_part_callees(*package, *node),
    decreases *node, 0nat,
{
    match node {
        HirFStringPart::Slot(expr) => collect_expr(package, expr, out),
        HirFStringPart::Text(_) => {},
    }
}

fn collect_fstring(package: &ResolvedPackage, node: &List<HirFStringPart>, out: &mut Vec<BindingId>)
    ensures
        final(out)@ == old(out)@ + fstring_callees(*package, *node),
    decreases *node, 0nat,
{
    match node {
        List::Nil => {},
        List::Cons(head, tail) => {
            collect_fstring_part(package, head, out);
            collect_fstring(package, tail, out);
        },
    }
}

fn collect_exprs(package: &ResolvedPackage, node: &List<HirExpr>, out: &mut Vec<BindingId>)
    ensures
        final(out)@ == old(out)@ + exprs_callees(*package, *node),
    decreases *node, 0nat,
{
    match node {
        List::Nil => {},
        List::Cons(head, tail) => {
            collect_expr(package, head, out);
            collect_exprs(package, tail, out);
        },
    }
}

/// Add the functions that calls in a block name.
pub fn collect_block(package: &ResolvedPackage, node: &HirBlock, out: &mut Vec<BindingId>)
    ensures
        final(out)@ == old(out)@ + block_callees(*package, *node),
    decreases *node, 0nat,
{
    collect_stmts(package, &node.stmts, out);
    collect_opt_expr(package, &node.trailing, out);
}

fn collect_stmts(package: &ResolvedPackage, node: &List<HirStmt>, out: &mut Vec<BindingId>)
    ensures
        final(out)@ == old(out)@ + stmts_callees(*package, *node),
    decreases *node, 0nat,
{
    match node {
        List::Nil => {},
        List::Cons(head, tail) => {
            collect_stmt(package, head, out);
            collect_stmts(package, tail, out);
        },
    }
}

fn collect_stmt(package: &ResolvedPackage, node: &HirStmt, out: &mut Vec<BindingId>)
    ensures
        final(out)@ == old(out)@ + stmt_callees(*package, *node),
    decreases *node, 0nat,
{
    match &node.kind {
        HirStmtKind::Let(inner) => collect_let(package, inner, out),
        HirStmtKind::Assign(inner) => collect_assign(package, inner, out),
        HirStmtKind::Expr(expr) => collect_expr(package, expr, out),
    }
}

fn collect_let(package: &ResolvedPackage, node: &HirLet, out: &mut Vec<BindingId>)
    ensures
        final(out)@ == old(out)@ + let_callees(*package, *node),
    decreases *node, 0nat,
{
    collect_pat(package, &node.pat, out);
    collect_opt_expr(package, &node.init, out);
}

fn collect_assign(package: &ResolvedPackage, node: &HirAssign, out: &mut Vec<BindingId>)
    ensures
        final(out)@ == old(out)@ + assign_callees(*package, *node),
    decreases *node, 0nat,
{
    collect_expr(package, &node.target, out);
    collect_expr(package, &node.rhs, out);
}

fn collect_binary(package: &ResolvedPackage, node: &HirBinary, out: &mut Vec<BindingId>)
    ensures
        final(out)@ == old(out)@ + binary_callees(*package, *node),
    decreases *node, 0nat,
{
    collect_expr(package, &node.lhs, out);
    collect_expr(package, &node.rhs, out);
}

fn collect_unary(package: &ResolvedPackage, node: &HirUnary, out: &mut Vec<BindingId>)
    ensures
        final(out)@ == old(out)@ + unary_callees(*package, *node),
    decreases *node, 0nat,
{
    collect_expr(package, &node.operand, out);
}

fn collect_if_node(package: &ResolvedPackage, node: &HirIf, out: &mut Vec<BindingId>)
    ensures
        final(out)@ == old(out)@ + if_node_callees(*package, *node),
    decreases *node, 0nat,
{
    collect_expr(package, &node.cond, out);
    collect_block(package, &node.then_block, out);
    collect_opt_expr(package, &node.else_branch, out);
}

fn collect_match_node(package: &ResolvedPackage, node: &HirMatch, out: &mut Vec<BindingId>)
    ensures
        final(out)@ == old(out)@ + match_node_callees(*package, *node),
    decreases *node, 0nat,
{
    collect_expr(package, &node.scrutinee, out);
    collect_arms(package, &node.arms, out);
}

fn collect_arms(package: &ResolvedPackage, node: &List<HirMatchArm>, out: &mut Vec<BindingId>)
    ensures
        final(out)@ == old(out)@ + arms_callees(*package, *node),
    decreases *node, 0nat,
{
    match node {
        List::Nil => {},
        List::Cons(head, tail) => {
            collect_arm(package, head, out);
            collect_arms(package, tail, out);
        },
    }
}

fn collect_arm(package: &ResolvedPackage, node: &HirMatchArm, out: &mut Vec<BindingId>)
    ensures
        final(out)@ == old(out)@ + arm_callees(*package, *node),
    decreases *node, 0nat,
{
    collect_pat(package, &node.pat, out);
    collect_opt_expr(package, &node.guard, out);
    collect_expr(package, &node.body, out);
}

fn collect_loop_node(package: &ResolvedPackage, node: &HirLoop, out: &mut Vec<BindingId>)
    ensures
        final(out)@ == old(out)@ + loop_node_callees(*package, *node),
    decreases *node, 0nat,
{
    collect_block(package, &node.body, out);
    collect_opt_expr(package, &node.decreases, out);
}

fn collect_for_node(package: &ResolvedPackage, node: &HirFor, out: &mut Vec<BindingId>)
    ensures
        final(out)@ == old(out)@ + for_node_callees(*package, *node),
    decreases *node, 0nat,
{
    collect_pat(package, &node.pat, out);
    collect_expr(package, &node.iter, out);
    collect_block(package, &node.body, out);
}

fn collect_cast(package: &ResolvedPackage, node: &HirCast, out: &mut Vec<BindingId>)
    ensures
        final(out)@ == old(out)@ + cast_callees(*package, *node),
    decreases *node, 0nat,
{
    collect_expr(package, &node.operand, out);
}

fn collect_index(package: &ResolvedPackage, node: &HirIndex, out: &mut Vec<BindingId>)
    ensures
        final(out)@ == old(out)@ + index_callees(*package, *node),
    decreases *node, 0nat,
{
    collect_expr(package, &node.receiver, out);
    collect_expr(package, &node.index, out);
}

fn collect_range(package: &ResolvedPackage, node: &HirRange, out: &mut Vec<BindingId>)
    ensures
        final(out)@ == old(out)@ + range_callees(*package, *node),
    decreases *node, 0nat,
{
    collect_opt_expr(package, &node.lo, out);
    collect_opt_expr(package, &node.hi, out);
}

fn collect_call(package: &ResolvedPackage, node: &HirCall, out: &mut Vec<BindingId>)
    ensures
        final(out)@ == old(out)@ + call_callees(*package, *node),
    decreases *node, 0nat,
{
    match resolve_function_callee(package, &node.callee) {
        Some(id) => {
            out.push(id);
        },
        None => {},
    }
    collect_expr(package, &node.callee, out);
    collect_args(package, &node.args, out);
}

fn collect_args(package: &ResolvedPackage, node: &List<HirCallArg>, out: &mut Vec<BindingId>)
    ensures
        final(out)@ == old(out)@ + args_callees(*package, *node),
    decreases *node, 0nat,
{
    match node {
        List::Nil => {},
        List::Cons(head, tail) => {
            collect_arg(package, head, out);
            collect_args(package, tail, out);
        },
    }
}

fn collect_arg(package: &ResolvedPackage, node: &HirCallArg, out: &mut Vec<BindingId>)
    ensures
        final(out)@ == old(out)@ + arg_callees(*package, *node),
    decreases *node, 0nat,
{
    collect_expr(package, &node.expr, out);
}

fn collect_field(package: &ResolvedPackage, node: &HirField, out: &mut Vec<BindingId>)
    ensures
        final(out)@ == old(out)@ + field_callees(*package, *node),
    decreases *node, 0nat,
{
    collect_expr(package, &node.receiver, out);
}

fn collect_tuple_index(package: &ResolvedPackage, node: &HirTupleIndex, out: &mut Vec<BindingId>)
    ensures
        final(out)@ == old(out)@ + tuple_index_callees(*package, *node),
    decreases *node, 0nat,
{
    collect_expr(package, &node.receiver, out);
}

fn collect_struct_lit(package: &ResolvedPackage, node: &HirStructLit, out: &mut Vec<BindingId>)
    ensures
        final(out)@ == old(out)@ + struct_lit_callees(*package, *node),
    decreases *node, 0nat,
{
    collect_lit_fields(package, &node.fields, out);
}

fn collect_lit_fields(package: &ResolvedPackage, node: &List<HirStructLitField>, out: &mut Vec<BindingId>)
    ensures
        final(out)@ == old(out)@ + lit_fields_callees(*package, *node),
    decreases *node, 0nat,
{
    match node {
        List::Nil => {},
        List::Cons(head, tail) => {
            collect_lit_field(package, head, out);
            collect_lit_fields(package, tail, out);
        },
    }
}

fn collect_lit_field(package: &ResolvedPackage, node: &HirStructLitField, out: &mut Vec<BindingId>)
    ensures
        final(out)@ == old(out)@ + lit_field_callees(*package, *node),
    decreases *node, 0nat,
{
    collect_expr(package, &node.value, out);
}

fn collect_handle(package: &ResolvedPackage, node: &HirHandle, out: &mut Vec<BindingId>)
    ensures
        final(out)@ == old(out)@ + handle_callees(*package, *node),
    decreases *node, 0nat,
{
    collect_expr(package, &node.recovery, out);
    collect_block(package, &node.body, out);
}

fn collect_method_call(package: &ResolvedPackage, node: &HirMethodCall, out: &mut Vec<BindingId>)
    ensures
        final(out)@ == old(out)@ + method_call_callees(*package, *node),
    decreases *node, 0nat,
{
    collect_expr(package, &node.receiver, out);
    collect_args(package, &node.args, out);
}

fn collect_closure(package: &ResolvedPackage, node: &HirClosure, out: &mut Vec<BindingId>)
    ensures
        final(out)@ == old(out)@ + closure_callees(*package, *node),
    decreases *node, 0nat,
{
    collect_block(package, &node.body, out);
}

fn collect_scope(package: &ResolvedPackage, node: &HirScope, out: &mut Vec<BindingId>)
    ensures
        final(out)@ == old(out)@ + scope_callees(*package, *node),
    decreases *node, 0nat,
{
    collect_block(package, &node.body, out);
}

fn collect_spawn(package: &ResolvedPackage, node: &HirSpawn, out: &mut Vec<BindingId>)
    ensures
        final(out)@ == old(out)@ + spawn_callees(*package, *node),
    decreases *node, 0nat,
{
    collect_block(package, &node.body, out);
}

fn collect_pat(package: &ResolvedPackage, node: &HirPat, out: &mut Vec<BindingId>)
    ensures
        final(out)@ == old(out)@ + pat_callees(*package, *node),
    decreases *node, 1nat,
{
    match &node.kind {
        HirPatKind::Wildcard | HirPatKind::Binding(_) | HirPatKind::Literal(_) => {},
        HirPatKind::Range(_, _) | HirPatKind::Error => {},
        HirPatKind::Tuple(elems) => collect_pats(package, elems, out),
        HirPatKind::Variant(inner) => collect_variant_pat(package, inner, out),
        HirPatKind::Struct(inner) => collect_struct_pat(package, inner, out),
        HirPatKind::Guard(inner) => collect_guard_pat(package, inner, out),
        HirPatKind::AtBinding(inner) => collect_at_pat(package, inner, out),
        HirPatKind::Slice(inner) => collect_slice_pat(package, inner, out),
    }
}

fn collect_pats(package: &ResolvedPackage, node: &List<HirPat>, out: &mut Vec<BindingId>)
    ensures
        final(out)@ == old(out)@ + pats_callees(*package, *node),
    decreases *node, 0nat,
{
    match node {
        List::Nil => {},
        List::Cons(head, tail) => {
            collect_pat(package, head, out);
            collect_pats(package, tail, out);
        },
    }
}

fn collect_variant_pat(package: &ResolvedPackage, node: &HirVariantPat, out: &mut Vec<BindingId>)
    ensures
        final(out)@ == old(out)@ + variant_pat_callees(*package, *node),
    decreases *node, 0nat,
{
    match &node.payload {
        HirVariantPatPayload::Unit => {},
        HirVariantPatPayload::Tuple(elems) => collect_pats(package, elems, out),
        HirVariantPatPayload::Struct(fields) => collect_pat_fields(package, fields, out),
    }
}

fn collect_pat_fields(package: &ResolvedPackage, node: &List<HirStructPatField>, out: &mut Vec<BindingId>)
    ensures
        final(out)@ == old(out)@ + pat_fields_callees(*package, *node),
    decreases *node, 0nat,
{
    match node {
        List::Nil => {},
        List::Cons(head, tail) => {
            collect_pat_field(package, head, out);
            collect_pat_fields(package, tail, out);
        },
    }
}

fn collect_pat_field(package: &ResolvedPackage, node: &HirStructPatField, out: &mut Vec<BindingId>)
    ensures
        final(out)@ == old(out)@ + pat_field_callees(*package, *node),
    decreases *node, 0nat,
{
    collect_pat(package, &node.pat, out);
}

fn collect_struct_pat(package: &ResolvedPackage, node: &HirStructPat, out: &mut Vec<BindingId>)
    ensures
        final(out)@ == old(out)@ + struct_pat_callees(*package, *node),
    decreases *node, 0nat,
{
    collect_pat_fields(package, &node.fields, out);
}

fn collect_guard_pat(package: &ResolvedPackage, node: &HirGuardPat, out: &mut Vec<BindingId>)
    ensures
        final(out)@ == old(out)@ + guard_pat_callees(*package, *node),
    decreases *node, 0nat,
{
    collect_pat(package, &node.pat, out);
    collect_expr(package, &node.cond, out);
}

fn collect_at_pat(package: &ResolvedPackage, node: &HirAtPat, out: &mut Vec<BindingId>)
    ensures
        final(out)@ == old(out)@ + at_pat_callees(*package, *node),
    decreases *node, 0nat,
{
    collect_pat(package, &node.inner, out);
}

fn collect_slice_pat(package: &ResolvedPackage, node: &HirSlicePat, out: &mut Vec<BindingId>)
    ensures
        final(out)@ == old(out)@ + slice_pat_callees(*package, *node),
    decreases *node, 0nat,
{
    collect_pats(package, &node.prefix, out);
    collect_pats(package, &node.suffix, out);
}

} // verus!
