//! Laws of the coverage of a match.

use vstd::prelude::*;

use super::ctrl::branch::{
    all_covered, arms_rule, covers, exhaustiveness, has_catch_all, irrefutable, match_rule,
    variant_covered,
};
use super::cx::Ic;
use super::diverge_laws::expr_of;
use super::env::TyEnv;
use super::expr::{synth_control_rule, synth_expr_rule};
use crate::cx::VariantInfo;
use crate::diag::{DiagnosticClass, Message};
use crate::hir::{HirExpr, HirExprKind, HirMatch, HirMatchArm, HirPatKind};
use crate::intern::Symbol;
use crate::list::List;
use crate::span::Span;
use crate::ty::{BindingId, TyKind};

verus! {

/// Whether the arm at position `k` takes every value of the variant `name`: it
/// has no guard, and its pattern is a wildcard, a name, that variant, or could
/// not be built.
pub open spec fn takes_variant(arms: List<HirMatchArm>, k: nat, name: Symbol) -> bool {
    match arms.nth(k) {
        Some(arm) => arm.guard is None && match arm.pat.kind {
            HirPatKind::Wildcard | HirPatKind::Binding(_) | HirPatKind::Error => true,
            HirPatKind::Variant(v) => match v.path.segments.last_of() {
                Some(leaf) => leaf.name == name,
                None => false,
            },
            _ => false,
        },
        None => false,
    }
}

/// Whether the arm at position `k` takes every value.
pub open spec fn takes_all(arms: List<HirMatchArm>, k: nat) -> bool {
    match arms.nth(k) {
        Some(arm) => arm.guard is None && (arm.pat.kind is Wildcard || arm.pat.kind is Binding
            || arm.pat.kind is Error),
        None => false,
    }
}

/// Whether the variant at position `v` is taken by an arm.
pub open spec fn variant_taken(
    variants: List<VariantInfo>,
    arms: List<HirMatchArm>,
    v: nat,
) -> bool {
    match variants.nth(v) {
        Some(info) => exists|k: nat| takes_variant(arms, k, info.name),
        None => true,
    }
}

proof fn lemma_covered(arms: List<HirMatchArm>, name: Symbol)
    ensures
        variant_covered(arms, name) <==> exists|k: nat| takes_variant(arms, k, name),
    decreases arms,
{
    match arms {
        List::Nil => {},
        List::Cons(arm, rest) => {
            lemma_covered(*rest, name);
            assert(takes_variant(arms, 0, name) == (arm.guard is None && covers(
                arm.pat.kind,
                name,
            )));
            assert forall|k: nat| #[trigger] takes_variant(*rest, k, name) == takes_variant(
                arms,
                k + 1,
                name,
            ) by {
                assert((k + 1 - 1) as nat == k);
            }
            if exists|k: nat| takes_variant(arms, k, name) {
                let k = choose|k: nat| takes_variant(arms, k, name);
                if k > 0 {
                    assert(takes_variant(*rest, (k - 1) as nat, name));
                }
            }
            if exists|k: nat| takes_variant(*rest, k, name) {
                let k = choose|k: nat| takes_variant(*rest, k, name);
                assert(takes_variant(arms, k + 1, name));
            }
        },
    }
}

proof fn lemma_catch_all(arms: List<HirMatchArm>)
    ensures
        has_catch_all(arms) <==> exists|k: nat| takes_all(arms, k),
    decreases arms,
{
    match arms {
        List::Nil => {},
        List::Cons(arm, rest) => {
            lemma_catch_all(*rest);
            assert(takes_all(arms, 0) == (arm.guard is None && irrefutable(arm.pat.kind)));
            if exists|k: nat| takes_all(arms, k) {
                let k = choose|k: nat| takes_all(arms, k);
                if k > 0 {
                    assert(takes_all(*rest, (k - 1) as nat));
                }
            }
            if exists|k: nat| takes_all(*rest, k) {
                let k = choose|k: nat| takes_all(*rest, k);
                assert((k + 1 - 1) as nat == k);
                assert(takes_all(arms, k + 1));
            }
        },
    }
}

proof fn lemma_all_covered(variants: List<VariantInfo>, arms: List<HirMatchArm>)
    ensures
        all_covered(variants, arms) <==> forall|v: nat| variant_taken(variants, arms, v),
    decreases variants,
{
    match variants {
        List::Nil => {},
        List::Cons(info, rest) => {
            lemma_all_covered(*rest, arms);
            lemma_covered(arms, info.name);
            assert(variant_taken(variants, arms, 0) == variant_covered(arms, info.name));
            if forall|v: nat| variant_taken(variants, arms, v) {
                assert forall|v: nat| variant_taken(*rest, arms, v) by {
                    assert((v + 1 - 1) as nat == v);
                    assert(variant_taken(variants, arms, v + 1));
                }
            }
            if variant_covered(arms, info.name) && all_covered(*rest, arms) {
                assert forall|v: nat| variant_taken(variants, arms, v) by {
                    if v > 0 {
                        assert(variant_taken(*rest, arms, (v - 1) as nat));
                    }
                }
            }
        },
    }
}

/// A match over a sum type is in order where each variant is taken by an arm
/// without a guard, or one such arm takes every value; else it is reported.
/// The arms are judged after that.
pub proof fn law_match_covers(
    env: TyEnv,
    scrutinee: HirExpr,
    arms: List<HirMatchArm>,
    span: Span,
    ic: Ic,
    id: BindingId,
    variants: List<VariantInfo>,
)
    ensures
        ({
            let s = synth_expr_rule(env, scrutinee, ic);
            let node = HirMatch { scrutinee, arms };
            let j = synth_expr_rule(env, expr_of(HirExprKind::Match(Box::new(node)), span), ic);
            let covered = (exists|k: nat| takes_all(arms, k)) || (forall|v: nat|
                variant_taken(variants, arms, v));
            let reported = s.ic.emit(
                DiagnosticClass::NonExhaustiveMatch,
                s.node.span,
                Message::NonExhaustive,
            );
            let over_sum = s.ic.kind(s.node.ty) == TyKind::Nominal(id)
                && s.ic.ty_cx.sum_variants(id) == Some(variants);
            let start = if over_sum && !covered {
                reported
            } else {
                s.ic
            };
            over_sum || !(s.ic.kind(s.node.ty) is Nominal) ==> j.ic == arms_rule(
                s.env,
                arms,
                s.ty,
                None,
                None,
                None,
                start,
                span,
            ).ic
        }),
{
    lemma_catch_all(arms);
    lemma_all_covered(variants, arms);
    lemma_match(env, scrutinee, arms, span, ic);
    reveal(exhaustiveness);
}

proof fn lemma_match(
    env: TyEnv,
    scrutinee: HirExpr,
    arms: List<HirMatchArm>,
    span: Span,
    ic: Ic,
)
    ensures
        ({
            let s = synth_expr_rule(env, scrutinee, ic);
            let node = HirMatch { scrutinee, arms };
            let j = synth_expr_rule(env, expr_of(HirExprKind::Match(Box::new(node)), span), ic);
            let checked = exhaustiveness(s.node, arms, s.ic);
            j.ic == arms_rule(s.env, arms, s.ty, None, None, None, checked, span).ic
        }),
{
    reveal(synth_expr_rule);
    reveal(synth_control_rule);
    reveal(match_rule);
    reveal(arms_rule);
    let node = HirMatch { scrutinee, arms };
    let expr = expr_of(HirExprKind::Match(Box::new(node)), span);
    assert(synth_expr_rule(env, expr, ic) == synth_control_rule(env, expr, ic));
    let m = match_rule(env, node, None, ic, span);
}

} // verus!
