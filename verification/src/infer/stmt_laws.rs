//! Laws of statements and blocks.

use vstd::prelude::*;

use super::cx::Ic;
use super::env::{Bound, TyEnv};
use super::env_laws::{law_bind, law_transition};
use super::expr::{check_expr_rule, synth_expr_rule};
use super::mode::lattice::BindingState;
use super::mode::linear::{linear, moved_out};
use super::name_laws::is_name;
use super::pat::bind_pat_rule;
use super::stmt::{infer_assign_rule, infer_let_rule, infer_stmt_rule, target_rule};
use crate::diag::Message;
use crate::hir::{HirAssign, HirExpr, HirLet, HirPat, HirPatKind, HirStmt, HirStmtKind};
use crate::intern::Symbol;
use crate::span::Span;
use crate::syntax::{AssignOp, BindingMode, Ident};
use crate::ty::TyId;

verus! {

/// A declaration of one name.
pub open spec fn let_of(
    ident: Ident,
    ty: Option<TyId>,
    init: Option<HirExpr>,
    mutability: BindingMode,
    span: Span,
) -> HirStmt {
    HirStmt {
        span,
        kind: HirStmtKind::Let(
            HirLet {
                ty,
                init,
                pat: HirPat { span, kind: HirPatKind::Binding(ident), ty: TyId::Error },
                mutability,
            },
        ),
    }
}

proof fn lemma_let(env: TyEnv, decl: HirLet, span: Span, ic: Ic)
    ensures
        ({
            let w = infer_stmt_rule(env, HirStmt { span, kind: HirStmtKind::Let(decl) }, ic);
            let d = infer_let_rule(env, decl, ic);
            w.env == d.env && w.ic == d.ic
        }),
{
    reveal(infer_stmt_rule);
    reveal(infer_let_rule);
}

proof fn lemma_bind(
    env: TyEnv,
    pat: HirPat,
    ident: Ident,
    ty: TyId,
    state: BindingState,
    mutable: bool,
    ic: Ic,
)
    requires
        pat.kind == HirPatKind::Binding(ident),
    ensures
        ({
            let p = bind_pat_rule(env, pat, ty, state, mutable, ic);
            &&& p.env == env.with(Bound { name: ident.name, ty, state, mutable })
            &&& p.ic == ic
            &&& p.node.kind == pat.kind
        }),
{
    reveal(bind_pat_rule);
}

/// A declaration with a value binds its name, valid, to the declared type or
/// else to the type of the value; it may be written unless it is declared
/// immutable. No other name changes but by the value.
pub proof fn law_let(
    env: TyEnv,
    ident: Ident,
    ty: Option<TyId>,
    init: HirExpr,
    mutability: BindingMode,
    span: Span,
    ic: Ic,
    x: Symbol,
)
    ensures
        ({
            let v = match ty {
                Some(t) => check_expr_rule(env, init, t, ic),
                None => synth_expr_rule(env, init, ic),
            };
            let w = infer_stmt_rule(env, let_of(ident, ty, Some(init), mutability, span), ic);
            &&& w.env.find(ident.name) == Some(
                Bound {
                    name: ident.name,
                    ty: match ty {
                        Some(t) => t,
                        None => v.ty,
                    },
                    state: BindingState::Valid,
                    mutable: mutability != BindingMode::Immutable,
                },
            )
            &&& w.ic.diags == v.ic.diags
            &&& w.ic.row == v.ic.row
            &&& x != ident.name ==> w.env.find(x) == moved_out(v.env, v.node, v.ic).find(x)
        }),
{
    let stmt = let_of(ident, ty, Some(init), mutability, span);
    let pat = HirPat { span, kind: HirPatKind::Binding(ident), ty: TyId::Error };
    let decl = HirLet { ty, init: Some(init), pat, mutability };
    lemma_let(env, decl, span, ic);
    let v = match ty {
        Some(t) => check_expr_rule(env, init, t, ic),
        None => synth_expr_rule(env, init, ic),
    };
    let found = match ty {
        Some(t) => t,
        None => v.ty,
    };
    let mutable = mutability != BindingMode::Immutable;
    let moved = moved_out(v.env, v.node, v.ic);
    lemma_bind(moved, pat, ident, found, BindingState::Valid, mutable, v.ic);
    let bound = Bound { name: ident.name, ty: found, state: BindingState::Valid, mutable };
    law_bind(moved, bound, ident.name);
    law_bind(moved, bound, x);
    reveal(infer_let_rule);
    reveal(bind_pat_rule);
    reveal(check_expr_rule);
    reveal(synth_expr_rule);
}

/// A declaration without a value leaves its name uninitialised.
pub proof fn law_let_uninit(
    env: TyEnv,
    ident: Ident,
    ty: TyId,
    mutability: BindingMode,
    span: Span,
    ic: Ic,
    x: Symbol,
)
    ensures
        ({
            let w = infer_stmt_rule(env, let_of(ident, Some(ty), None, mutability, span), ic);
            &&& w.env.find(ident.name) == Some(
                Bound {
                    name: ident.name,
                    ty,
                    state: BindingState::Uninit,
                    mutable: mutability != BindingMode::Immutable,
                },
            )
            &&& w.ic == ic
            &&& x != ident.name ==> w.env.find(x) == env.find(x)
        }),
{
    let pat = HirPat { span, kind: HirPatKind::Binding(ident), ty: TyId::Error };
    let decl = HirLet { ty: Some(ty), init: None, pat, mutability };
    lemma_let(env, decl, span, ic);
    let mutable = mutability != BindingMode::Immutable;
    lemma_bind(env, pat, ident, ty, BindingState::Uninit, mutable, ic);
    let bound = Bound { name: ident.name, ty, state: BindingState::Uninit, mutable };
    law_bind(env, bound, ident.name);
    law_bind(env, bound, x);
    reveal(infer_let_rule);
    reveal(bind_pat_rule);
}

/// An assignment to a name expects the type of the name of the value. It makes
/// the name valid, unless its value was moved out: that is reported, and the
/// name stays as it is.
pub proof fn law_assign(
    env: TyEnv,
    target: HirExpr,
    op: AssignOp,
    rhs: HirExpr,
    x: Symbol,
    b: Bound,
    span: Span,
    ic: Ic,
)
    requires
        is_name(target, x),
        env.find(x) == Some(b),
    ensures
        ({
            let v = check_expr_rule(env, rhs, b.ty, ic);
            let moved = moved_out(v.env, v.node, v.ic);
            let w = infer_stmt_rule(
                env,
                HirStmt { span, kind: HirStmtKind::Assign(HirAssign { target, op, rhs }) },
                ic,
            );
            &&& w.ic.row == v.ic.row
            &&& !(b.state is Consumed) ==> w.ic == v.ic && (moved.find(x) is Some
                ==> w.env.state_of(x) == Some(BindingState::Valid))
            &&& b.state is Consumed ==> w.env == moved && w.ic == v.ic.error(
                target.span,
                (Message::AssignMoved { name: x }),
            )
        }),
{
    let assign = HirAssign { target, op, rhs };
    lemma_assign(env, target, op, rhs, x, b, span, ic);
    let v = check_expr_rule(env, rhs, b.ty, ic);
    let moved = moved_out(v.env, v.node, v.ic);
    law_transition(moved, x, BindingState::Valid, x);
}

proof fn lemma_assign(
    env: TyEnv,
    target: HirExpr,
    op: AssignOp,
    rhs: HirExpr,
    x: Symbol,
    b: Bound,
    span: Span,
    ic: Ic,
)
    requires
        is_name(target, x),
        env.find(x) == Some(b),
    ensures
        ({
            let v = check_expr_rule(env, rhs, b.ty, ic);
            let moved = moved_out(v.env, v.node, v.ic);
            let w = infer_stmt_rule(
                env,
                HirStmt { span, kind: HirStmtKind::Assign(HirAssign { target, op, rhs }) },
                ic,
            );
            &&& b.state is Consumed ==> w.env == moved && w.ic == v.ic.error(
                target.span,
                (Message::AssignMoved { name: x }),
            )
            &&& !(b.state is Consumed) ==> w.env == moved.moved(x, BindingState::Valid) && w.ic
                == v.ic
        }),
{
    reveal(infer_stmt_rule);
    reveal(infer_assign_rule);
    reveal(target_rule);
    reveal(check_expr_rule);
    let assign = HirAssign { target, op, rhs };
    let t = target_rule(env, target, ic);
    assert(t.env == env && t.ic == ic && t.ty == b.ty);
    let a = infer_assign_rule(env, assign, ic);
}

/// A value of a linear type that is moved to another place is consumed where it
/// was; a value of any other type is not.
pub proof fn law_moved_out(env: TyEnv, expr: HirExpr, x: Symbol, b: Bound, ic: Ic, y: Symbol)
    requires
        is_name(expr, x),
        env.find(x) == Some(b),
    ensures
        ({
            let after = moved_out(env, expr, ic);
            &&& linear(ic, b.ty) && b.state is Valid ==> after.state_of(x) == Some(
                BindingState::Consumed,
            )
            &&& !linear(ic, b.ty) ==> after == env
            &&& x != y ==> after.find(y) == env.find(y)
        }),
{
    reveal(moved_out);
    law_transition(env, x, BindingState::Consumed, x);
    law_transition(env, x, BindingState::Consumed, y);
}

} // verus!
