//! Laws of where a capability comes from.

use vstd::prelude::*;

use super::call::capability::{call_source, source, source_within, CAPABILITY_DERIVATION_DEPTH};
use super::cx::Ic;
use super::env::TyEnv;
use super::expr::synth_expr_rule;
use super::name_laws::is_name;
use super::pat::bind_pat_rule;
use super::perform_laws::origin;
use super::stmt::{infer_let_rule, infer_stmt_rule};
use super::stmt_laws::let_of;
use crate::hir::{HirExpr, HirExprKind, HirLet, HirPat, HirPatKind};
use crate::intern::Symbol;
use crate::list::List;
use crate::span::Span;
use crate::syntax::{BindingMode, Ident};
use crate::ty::TyId;

verus! {

/// Whether `to` is derived from `from` in one step: it is a field or a method
/// of it, or a call that is made through a field of it or that has it as its
/// first argument.
pub open spec fn derived_from(to: HirExpr, from: HirExpr) -> bool {
    match to.kind {
        HirExprKind::Field(access) => access.receiver == from,
        HirExprKind::MethodCall(call) => call.receiver == from,
        HirExprKind::Call(call) => match call.callee.kind {
            HirExprKind::Field(access) => access.receiver == from,
            _ => match call.args {
                List::Cons(first, _) => first.expr == from,
                List::Nil => false,
            },
        },
        _ => false,
    }
}

/// Whether `expr` is derived from the name `x` in `steps` steps.
pub open spec fn derived_in(expr: HirExpr, x: Symbol, steps: nat) -> bool
    decreases steps,
{
    if steps == 0 {
        is_name(expr, x)
    } else {
        exists|from: HirExpr| #[trigger]
            derived_from(expr, from) && derived_in(from, x, (steps - 1) as nat)
    }
}

proof fn lemma_source(expr: HirExpr, x: Symbol, steps: nat, depth: nat)
    requires
        derived_in(expr, x, steps),
        steps < depth,
    ensures
        source_within(expr, depth) == Some(x),
    decreases steps,
{
    if steps > 0 {
        let from = choose|from: HirExpr| #[trigger]
            derived_from(expr, from) && derived_in(from, x, (steps - 1) as nat);
        lemma_source(from, x, (steps - 1) as nat, (depth - 1) as nat);
    }
}

proof fn lemma_derived(expr: HirExpr, x: Symbol, depth: nat) -> (steps: nat)
    requires
        source_within(expr, depth) == Some(x),
    ensures
        steps < depth,
        derived_in(expr, x, steps),
    decreases depth,
{
    let less = (depth - 1) as nat;
    match expr.kind {
        HirExprKind::Path(path) => {
            assert(is_name(expr, x));
            0
        },
        HirExprKind::Field(access) => {
            let n = lemma_derived(access.receiver, x, less);
            assert(derived_from(expr, access.receiver));
            assert((n + 1 - 1) as nat == n);
            n + 1
        },
        HirExprKind::MethodCall(call) => {
            let n = lemma_derived(call.receiver, x, less);
            assert(derived_from(expr, call.receiver));
            assert((n + 1 - 1) as nat == n);
            n + 1
        },
        HirExprKind::Call(call) => {
            match call.callee.kind {
                HirExprKind::Field(access) => {
                    let n = lemma_derived(access.receiver, x, less);
                    assert(derived_from(expr, access.receiver));
                    assert((n + 1 - 1) as nat == n);
                    n + 1
                },
                _ => {
                    match call.args {
                        List::Cons(first, _) => {
                            let n = lemma_derived(first.expr, x, less);
                            assert(derived_from(expr, first.expr));
                            assert((n + 1 - 1) as nat == n);
                            n + 1
                        },
                        List::Nil => 0,
                    }
                },
            }
        },
        _ => 0,
    }
}

/// A capability comes from a name exactly where it is derived from the name in
/// fewer steps than are traced.
pub proof fn law_source(expr: HirExpr, x: Symbol)
    ensures
        source(expr) == Some(x) <==> exists|steps: nat|
            steps < CAPABILITY_DERIVATION_DEPTH && derived_in(expr, x, steps),
{
    reveal(source);
    let depth = CAPABILITY_DERIVATION_DEPTH as nat;
    if source(expr) == Some(x) {
        let steps = lemma_derived(expr, x, depth);
    }
    if exists|steps: nat| steps < CAPABILITY_DERIVATION_DEPTH && derived_in(expr, x, steps) {
        let steps = choose|steps: nat|
            steps < CAPABILITY_DERIVATION_DEPTH && derived_in(expr, x, steps);
        lemma_source(expr, x, steps, depth);
    }
}

/// A name that is declared with a call that is derived from `x` stands for the
/// capability that `x` stands for; one that is declared with anything but a
/// call stands for what it stood for. Other names are left alone.
pub proof fn law_let_alias(
    env: TyEnv,
    ident: Ident,
    init: HirExpr,
    mutability: BindingMode,
    span: Span,
    ic: Ic,
    x: Symbol,
    y: Symbol,
    steps: nat,
)
    requires
        steps < CAPABILITY_DERIVATION_DEPTH,
    ensures
        ({
            let v = synth_expr_rule(env, init, ic);
            let w = infer_stmt_rule(env, let_of(ident, None, Some(init), mutability, span), ic);
            let call = init.kind is MethodCall || init.kind is Call;
            &&& call && derived_in(init, x, steps) ==> origin(w.ic, ident.name) == origin(v.ic, x)
            &&& !call ==> w.ic.aliases == v.ic.aliases
            &&& y != ident.name ==> origin(w.ic, y) == origin(v.ic, y)
        }),
{
    if derived_in(init, x, steps) {
        law_source(init, x);
        assert(steps < CAPABILITY_DERIVATION_DEPTH && derived_in(init, x, steps));
    }
    reveal(call_source);
    lemma_let(env, ident, init, mutability, span, ic);
}

proof fn lemma_let(
    env: TyEnv,
    ident: Ident,
    init: HirExpr,
    mutability: BindingMode,
    span: Span,
    ic: Ic,
)
    ensures
        ({
            let v = synth_expr_rule(env, init, ic);
            let w = infer_stmt_rule(env, let_of(ident, None, Some(init), mutability, span), ic);
            match call_source(init) {
                Some(root) => w.ic.aliases == v.ic.aliases.insert(ident.name, v.ic.root(root)),
                None => w.ic.aliases == v.ic.aliases,
            }
        }),
{
    reveal(infer_stmt_rule);
    reveal(infer_let_rule);
    reveal(bind_pat_rule);
    reveal(synth_expr_rule);
    let pat = HirPat { span, kind: HirPatKind::Binding(ident), ty: TyId::Error };
    let decl = HirLet { ty: None, init: Some(init), pat, mutability };
    let d = infer_let_rule(env, decl, ic);
}

} // verus!
