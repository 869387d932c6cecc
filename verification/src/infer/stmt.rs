//! Statements.

use vstd::prelude::*;

use super::call::capability::{call_source, capability_source_of_call};
use super::cx::{group_grown, Ic, InferCx};
use super::env::TyEnv;
use super::expr::{check_expr, check_expr_rule, synth_expr, synth_expr_rule};
use super::judge::{judged, sound, walked, Judged, Walked};
use super::mode::exit::{field_ty, product_field};
use super::mode::helpers::{
    bound_name, element_place, field_place, field_projection_binding, path_binding,
    tuple_index_binding,
};
use super::mode::lattice::BindingState;
use super::mode::linear::{consume_moved_linear, moved_out};
use super::mode::transitions::{apply_field_assign_transition, assign_step};
use super::pat::{bind_pat_rule, bind_pat_with_state_mut};
use crate::diag::Message;
use crate::hir::{
    HirAssign, HirExpr, HirExprKind, HirField, HirLet, HirPatKind, HirStmt, HirStmtKind,
    HirTupleIndex,
};
use crate::intern::Symbol;
use crate::span::Span;
use crate::syntax::BindingMode;
use crate::text::{decimal, decimal_text};
use crate::ty::{TyId, TyKind};

verus! {

broadcast use group_grown;

/// The type of the field of a binding, or the error type where there is none.
pub open spec fn assigned_field_ty(env: TyEnv, binding: Symbol, field: Symbol, ic: Ic) -> TyId {
    match env.ty_of(binding) {
        Some(ty) => match product_field(ic, ty, field) {
            Some(t) => t,
            None => TyId::Error,
        },
        None => TyId::Error,
    }
}

/// The type of the element of a tuple binding, or the error type where there
/// is none.
pub open spec fn assigned_element_ty(env: TyEnv, binding: Symbol, index: u32, ic: Ic) -> TyId {
    match env.ty_of(binding) {
        Some(ty) => match ic.kind(ty) {
            TyKind::Tuple(elems) => match elems.nth(index as nat) {
                Some(t) => t,
                None => TyId::Error,
            },
            _ => TyId::Error,
        },
        None => TyId::Error,
    }
}

/// `expr` with the type of the binding written into the receiver of a field or
/// position.
pub open spec fn receiver_typed(expr: HirExpr, ty: Option<TyId>) -> HirExpr {
    match (expr.kind, ty) {
        (HirExprKind::Field(access), Some(t)) => HirExpr {
            kind: HirExprKind::Field(
                Box::new(
                    HirField { receiver: HirExpr { ty: t, ..access.receiver }, name: access.name },
                ),
            ),
            ..expr
        },
        (HirExprKind::TupleIndex(access), Some(t)) => HirExpr {
            kind: HirExprKind::TupleIndex(
                Box::new(
                    HirTupleIndex {
                        receiver: HirExpr { ty: t, ..access.receiver },
                        index: access.index,
                    },
                ),
            ),
            ..expr
        },
        _ => expr,
    }
}

/// The type of an assignment target. A place in a binding is not read, so it
/// need not be valid.
#[verifier::opaque]
pub open spec fn target_rule(env: TyEnv, target: HirExpr, ic: Ic) -> Judged<HirExpr>
    decreases target, 3nat,
{
    match (field_place(target), element_place(target), bound_name(target)) {
        (Some((binding, field)), _, _) => {
            let node = receiver_typed(target, env.ty_of(binding));
            let ty = assigned_field_ty(env, binding, field, ic);
            judged(env, ic, HirExpr { ty, ..node }, ty)
        },
        (None, Some((binding, index)), _) => {
            let node = receiver_typed(target, env.ty_of(binding));
            let ty = assigned_element_ty(env, binding, index, ic);
            judged(env, ic, HirExpr { ty, ..node }, ty)
        },
        (None, None, name) => {
            let known = match name {
                Some(sym) => env.ty_of(sym),
                None => None,
            };
            match known {
                Some(ty) => judged(env, ic, HirExpr { ty, ..target }, ty),
                None => synth_expr_rule(env, target, ic),
            }
        },
    }
}

/// The states after an assignment to `target`; `before` is the environment
/// before the value was found.
pub open spec fn assigned(
    env: TyEnv,
    target: HirExpr,
    before: TyEnv,
    ic: Ic,
) -> super::mode::transitions::Step {
    match (field_place(target), element_place(target), bound_name(target)) {
        (Some((binding, field)), _, _) => assign_step(env, ic, binding, field),
        (None, Some((binding, index)), _) => assign_step(
            env,
            ic.named(decimal(index as nat)),
            binding,
            ic.symbol(decimal(index as nat)),
        ),
        (None, None, Some(name)) => match before.state_of(name) {
            Some(BindingState::Consumed) => super::mode::transitions::step(
                env,
                ic.error(target.span, Message::AssignMoved { name }),
            ),
            _ => super::mode::transitions::step(env.moved(name, BindingState::Valid), ic),
        },
        (None, None, None) => super::mode::transitions::step(env, ic),
    }
}

/// An assignment.
#[verifier::opaque]
pub open spec fn infer_assign_rule(env: TyEnv, assign: HirAssign, ic: Ic) -> Walked<HirAssign>
    decreases assign, 0nat,
{
    let t = target_rule(env, assign.target, ic);
    let v = check_expr_rule(t.env, assign.rhs, t.ty, t.ic);
    let env_moved = moved_out(v.env, v.node, v.ic);
    let s = assigned(env_moved, assign.target, t.env, v.ic);
    walked(s.env, s.ic, HirAssign { target: t.node, op: assign.op, rhs: v.node })
}

/// The initialiser of a declaration: its type, and the node.
pub open spec fn init_rule(env: TyEnv, decl: HirLet, ic: Ic) -> Judged<Option<HirExpr>>
    decreases decl, 0nat,
{
    match (decl.ty, decl.init) {
        (Some(ty), Some(init)) => {
            let j = check_expr_rule(env, init, ty, ic);
            judged(moved_out(j.env, j.node, j.ic), j.ic, Some(j.node), ty)
        },
        (None, Some(init)) => {
            let j = synth_expr_rule(env, init, ic);
            judged(moved_out(j.env, j.node, j.ic), j.ic, Some(j.node), j.ty)
        },
        (Some(ty), None) => judged(env, ic, None, ty),
        (None, None) => judged(env, ic, None, TyId::Error),
    }
}

/// With the capability that a declared name is derived from.
pub open spec fn alias_recorded(ic: Ic, source: Option<Symbol>, pat: HirPatKind) -> Ic {
    match (source, pat) {
        (Some(root), HirPatKind::Binding(ident)) => Ic {
            aliases: ic.aliases.insert(ident.name, ic.root(root)),
            ..ic
        },
        _ => ic,
    }
}

/// A declaration of locals.
#[verifier::opaque]
pub open spec fn infer_let_rule(env: TyEnv, decl: HirLet, ic: Ic) -> Walked<HirLet>
    decreases decl, 1nat,
{
    let source = match decl.init {
        Some(init) => call_source(init),
        None => None,
    };
    let i = init_rule(env, decl, ic);
    let state = if decl.ty is Some && decl.init is None {
        BindingState::Uninit
    } else {
        BindingState::Valid
    };
    let p = bind_pat_rule(
        i.env,
        decl.pat,
        i.ty,
        state,
        decl.mutability != BindingMode::Immutable,
        i.ic,
    );
    walked(
        p.env,
        alias_recorded(p.ic, source, p.node.kind),
        HirLet { ty: decl.ty, init: i.node, pat: p.node, mutability: decl.mutability },
    )
}

/// A statement.
#[verifier::opaque]
pub open spec fn infer_stmt_rule(env: TyEnv, stmt: HirStmt, ic: Ic) -> Walked<HirStmt>
    decreases stmt, 0nat,
{
    match stmt.kind {
        HirStmtKind::Let(decl) => {
            let w = infer_let_rule(env, decl, ic);
            walked(w.env, w.ic, HirStmt { span: stmt.span, kind: HirStmtKind::Let(w.node) })
        },
        HirStmtKind::Assign(assign) => {
            let w = infer_assign_rule(env, assign, ic);
            walked(w.env, w.ic, HirStmt { span: stmt.span, kind: HirStmtKind::Assign(w.node) })
        },
        HirStmtKind::Expr(expr) => {
            let j = synth_expr_rule(env, expr, ic);
            walked(j.env, j.ic, HirStmt { span: stmt.span, kind: HirStmtKind::Expr(j.node) })
        },
    }
}

fn field_type(env: &TyEnv, binding: Symbol, field: Symbol, ic: &InferCx<'_>) -> (r: TyId)
    ensures
        r == assigned_field_ty(*env, binding, field, ic@),
{
    match env.lookup(binding) {
        Some(ty) => match field_ty(ty, field, ic) {
            Some(t) => t,
            None => ic.ty_error(),
        },
        None => ic.ty_error(),
    }
}

fn tuple_element_type(env: &TyEnv, binding: Symbol, index: u32, ic: &InferCx<'_>) -> (r: TyId)
    ensures
        r == assigned_element_ty(*env, binding, index, ic@),
{
    match env.lookup(binding) {
        Some(ty) => match ic.kind(ty) {
            TyKind::Tuple(elems) => match elems.get(index as usize) {
                Some(t) => t,
                None => ic.ty_error(),
            },
            _ => ic.ty_error(),
        },
        None => ic.ty_error(),
    }
}

fn type_receiver(expr: &mut HirExpr, ty: Option<TyId>)
    ensures
        *final(expr) == receiver_typed(*old(expr), ty),
{
    match ty {
        Some(t) => match &mut expr.kind {
            HirExprKind::Field(access) => {
                access.receiver.ty = t;
            },
            HirExprKind::TupleIndex(access) => {
                access.receiver.ty = t;
            },
            _ => {},
        },
        None => {},
    }
}

fn infer_target(env: &mut TyEnv, target: &mut HirExpr, ic: &mut InferCx<'_>) -> (r: TyId)
    ensures
        judged(*final(env), final(ic)@, *final(target), r) == target_rule(
            *old(env),
            *old(target),
            old(ic)@,
        ),
        sound(*old(env), old(ic)@, *final(env), final(ic)@),
    decreases *old(target), 3nat,
{
    proof {
        reveal(target_rule);
        reveal(synth_expr_rule);
    }
    match field_projection_binding(target) {
        Some((binding, field)) => {
            let ty = field_type(env, binding, field, ic);
            type_receiver(target, env.lookup(binding));
            target.ty = ty;
            return ty;
        },
        None => {},
    }
    match tuple_index_binding(target) {
        Some((binding, index)) => {
            let ty = tuple_element_type(env, binding, index, ic);
            type_receiver(target, env.lookup(binding));
            target.ty = ty;
            return ty;
        },
        None => {},
    }
    match path_binding(target) {
        Some(sym) => match env.lookup(sym) {
            Some(ty) => {
                target.ty = ty;
                return ty;
            },
            None => {},
        },
        None => {},
    }
    synth_expr(env, target, ic)
}

fn infer_assign(env: &mut TyEnv, assign: &mut HirAssign, ic: &mut InferCx<'_>)
    ensures
        walked(*final(env), final(ic)@, *final(assign)) == infer_assign_rule(
            *old(env),
            *old(assign),
            old(ic)@,
        ),
        sound(*old(env), old(ic)@, *final(env), final(ic)@),
    decreases *old(assign), 0nat,
{
    proof {
        reveal(infer_assign_rule);
        reveal(target_rule);
        reveal(check_expr_rule);
    }
    let field_target = field_projection_binding(&assign.target);
    let tuple_target = tuple_index_binding(&assign.target);
    let assign_target = path_binding(&assign.target);
    let span: Span = assign.target.span;
    let target_ty = infer_target(env, &mut assign.target, ic);
    let pre_state = match assign_target {
        Some(sym) => env.lookup_state(sym),
        None => None,
    };
    check_expr(env, &mut assign.rhs, target_ty, ic);
    consume_moved_linear(env, &assign.rhs, ic);
    match field_target {
        Some((binding, field)) => {
            apply_field_assign_transition(env, binding, field, ic);
            return;
        },
        None => {},
    }
    match tuple_target {
        Some((binding, index)) => {
            let text = decimal_text(index as usize);
            let field = ic.intern(text.as_str());
            apply_field_assign_transition(env, binding, field, ic);
            return;
        },
        None => {},
    }
    match assign_target {
        Some(sym) => match pre_state {
            Some(BindingState::Consumed) => {
                ic.emit_typecheck_error(span, Message::AssignMoved { name: sym });
            },
            _ => {
                env.transition(sym, BindingState::Valid);
            },
        },
        None => {},
    }
}

fn infer_init(env: &mut TyEnv, decl: &mut HirLet, ic: &mut InferCx<'_>) -> (r: TyId)
    ensures
        judged(*final(env), final(ic)@, final(decl).init, r) == init_rule(
            *old(env),
            *old(decl),
            old(ic)@,
        ),
        final(decl).ty == old(decl).ty,
        final(decl).pat == old(decl).pat,
        final(decl).mutability == old(decl).mutability,
        sound(*old(env), old(ic)@, *final(env), final(ic)@),
    decreases *old(decl), 0nat,
{
    proof {
        reveal(synth_expr_rule);
        reveal(check_expr_rule);
    }
    match (decl.ty, &mut decl.init) {
        (Some(ty), Some(init)) => {
            check_expr(env, init, ty, ic);
            consume_moved_linear(env, init, ic);
            ty
        },
        (None, Some(init)) => {
            let ty = synth_expr(env, init, ic);
            consume_moved_linear(env, init, ic);
            ty
        },
        (Some(ty), None) => ty,
        (None, None) => ic.ty_error(),
    }
}

fn infer_let(env: &mut TyEnv, decl: &mut HirLet, ic: &mut InferCx<'_>)
    ensures
        walked(*final(env), final(ic)@, *final(decl)) == infer_let_rule(
            *old(env),
            *old(decl),
            old(ic)@,
        ),
        sound(*old(env), old(ic)@, *final(env), final(ic)@),
    decreases *old(decl), 1nat,
{
    proof {
        reveal(infer_let_rule);
        reveal(bind_pat_rule);
    }
    let source = match &decl.init {
        Some(init) => capability_source_of_call(init),
        None => None,
    };
    let state = if decl.ty.is_some() && decl.init.is_none() {
        BindingState::Uninit
    } else {
        BindingState::Valid
    };
    let mutable = decl.mutability != BindingMode::Immutable;
    let ty = infer_init(env, decl, ic);
    bind_pat_with_state_mut(env, &mut decl.pat, ty, state, mutable, ic);
    match (source, &decl.pat.kind) {
        (Some(root), HirPatKind::Binding(ident)) => {
            let resolved = ic.capability_root(root);
            ic.capability_aliases.insert(ident.name, resolved);
        },
        _ => {},
    }
}

/// Infer a statement.
pub fn infer_stmt(env: &mut TyEnv, stmt: &mut HirStmt, ic: &mut InferCx<'_>)
    ensures
        walked(*final(env), final(ic)@, *final(stmt)) == infer_stmt_rule(
            *old(env),
            *old(stmt),
            old(ic)@,
        ),
        sound(*old(env), old(ic)@, *final(env), final(ic)@),
    decreases *old(stmt), 0nat,
{
    proof {
        reveal(infer_stmt_rule);
        reveal(infer_let_rule);
        reveal(infer_assign_rule);
        reveal(synth_expr_rule);
    }
    match &mut stmt.kind {
        HirStmtKind::Let(decl) => {
            infer_let(env, decl, ic);
        },
        HirStmtKind::Assign(assign) => {
            infer_assign(env, assign, ic);
        },
        HirStmtKind::Expr(expr) => {
            synth_expr(env, expr, ic);
        },
    }
}

} // verus!
