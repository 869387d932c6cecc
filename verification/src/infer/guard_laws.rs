//! Laws of guards and of literals in patterns.

use vstd::prelude::*;

use super::ctrl::branch::{arm_rule, literal_pat_check};
use super::cx::Ic;
use super::env::TyEnv;
use super::expr::{check_expr_rule, synth_expr_rule};
use super::mode::lattice::BindingState;
use super::pat::bind_pat_rule;
use crate::diag::Message;
use crate::hir::{HirExpr, HirGuardPat, HirMatchArm, HirPat, HirPatKind};
use crate::prim::Primitive;
use crate::span::Span;
use crate::syntax::Literal;
use crate::ty::TyId;

verus! {

/// `pat if cond` binds what `pat` binds, and its condition is held against
/// `bool` with those names in scope.
pub proof fn law_guarded_pattern(
    env: TyEnv,
    pat: HirPat,
    cond: HirExpr,
    span: Span,
    ty: TyId,
    ic: Ic,
)
    ensures
        ({
            let valid = BindingState::Valid;
            let node = HirGuardPat { pat, cond };
            let guarded = HirPat {
                span,
                kind: HirPatKind::Guard(Box::new(node)),
                ty: TyId::Error,
            };
            let p = bind_pat_rule(env, pat, ty, valid, true, ic);
            let c = check_expr_rule(p.env, cond, TyId::Prim(Primitive::Bool), p.ic);
            let w = bind_pat_rule(env, guarded, ty, valid, true, ic);
            w.env == c.env && w.ic == c.ic
        }),
{
    reveal(bind_pat_rule);
    reveal(check_expr_rule);
}

/// A literal pattern fits a value of its own type, an integer literal any
/// value; else it is reported.
pub proof fn law_literal_pattern(lit: Literal, ty: TyId, own: TyId, ic: Ic)
    requires
        ty != TyId::Error,
        match lit {
            Literal::Int { .. } => own == ty,
            Literal::Float(_) => own == TyId::Prim(Primitive::F64),
            Literal::Str(_) => own == TyId::Prim(Primitive::String),
            Literal::Bool(_) => own == TyId::Prim(Primitive::Bool),
            Literal::Unit => own == TyId::Prim(Primitive::Unit),
        },
    ensures
        ({
            let after = literal_pat_check(HirPatKind::Literal(lit), ty, ic);
            &&& own == ty ==> after == ic
            &&& own != ty ==> after == ic.error(
                Span::dummy_span(),
                (Message::LiteralPatMismatch { literal: own, scrutinee: ty }),
            )
        }),
{
}

/// An arm is judged in a scope of its own that holds the names of its pattern:
/// its guard is held against `bool`, and its body follows the guard.
pub proof fn law_arm(env: TyEnv, arm: HirMatchArm, ty: TyId, ic: Ic)
    ensures
        ({
            let valid = BindingState::Valid;
            let p = bind_pat_rule(env.entered(), arm.pat, ty, valid, true, ic);
            let start = literal_pat_check(p.node.kind, ty, p.ic);
            let a = arm_rule(env, arm, ty, None, ic);
            match arm.guard {
                Some(guard) => {
                    let g = check_expr_rule(p.env, guard, TyId::Prim(Primitive::Bool), start);
                    let b = synth_expr_rule(g.env, arm.body, g.ic);
                    a.env == b.env.exited() && a.ic == b.ic && a.ty == b.ty
                },
                None => {
                    let b = synth_expr_rule(p.env, arm.body, start);
                    a.env == b.env.exited() && a.ic == b.ic && a.ty == b.ty
                },
            }
        }),
{
    reveal(arm_rule);
    reveal(bind_pat_rule);
    reveal(check_expr_rule);
    reveal(synth_expr_rule);
}

} // verus!
