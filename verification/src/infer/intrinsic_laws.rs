//! Laws of the methods that are built in, and of slices of slices.

use vstd::prelude::*;

use super::call::args::{arg_rule, synth_args_rule};
use super::comp::index::{optional_check_rule, subrange_rule, synth_index_rule};
use super::cx::Ic;
use super::derive_laws::{derived_in, law_source};
use super::diverge_laws::expr_of;
use super::env::TyEnv;
use super::expr::{check_expr_rule, synth_expr_rule, synth_operation_rule};
use super::method::{
    capability_call_rule, capability_performed, capability_reports, last_arg_rule, method_args_rule,
    method_target, MethodTarget,
};
use super::name_laws::{holds, is_name};
use super::perform_laws::{method_of, origin};
use super::receiver_laws::lemma_method;
use crate::capability::CapabilityType;
use crate::effect::EffectEntry;
use crate::hir::{HirCallArg, HirExpr, HirExprKind, HirIndex, HirRange};
use crate::intern::Symbol;
use crate::intrinsic::{CapabilityMethod, IntrinsicKind};
use crate::list::List;
use crate::prim::Primitive;
use crate::span::Span;
use crate::syntax::{Ident, RangeKind};
use crate::ty::{TyId, TyKind};

verus! {

/// `bytes` of a text is a slice of `u8`, and `len` of a slice a `usize`;
/// neither moves or performs anything.
pub proof fn law_intrinsic(
    env: TyEnv,
    receiver: HirExpr,
    owner: Symbol,
    ty: TyId,
    name: Ident,
    span: Span,
    ic: Ic,
)
    requires
        is_name(receiver, owner),
        holds(env, owner, ty),
    ensures
        ({
            let none: List<HirCallArg> = List::Nil;
            let j = synth_expr_rule(env, method_of(receiver, name, none, span), ic);
            let bytes = ic.kind(ty) == TyKind::Primitive(Primitive::String) && ic.text(name.name)
                == "bytes"@;
            let len = ic.kind(ty) is Slice && ic.text(name.name) == "len"@;
            &&& bytes || len ==> j.env == env && j.ic.diags == ic.diags && j.ic.row == ic.row
            &&& bytes ==> j.ty == ic.handle(TyKind::Slice(TyId::Prim(Primitive::U8)))
            &&& len ==> j.ty == ic.handle(TyKind::Primitive(Primitive::Usize))
        }),
{
    let none: List<HirCallArg> = List::Nil;
    lemma_method(env, receiver, owner, ty, name, none, span, ic);
    let node = HirExpr { ty, ..receiver };
    reveal(method_target);
    lemma_intrinsic(env, node, name.name, ty, IntrinsicKind::StringBytes, span, ic);
    lemma_intrinsic(env, node, name.name, ty, IntrinsicKind::SliceLen, span, ic);
}

proof fn lemma_intrinsic(
    env: TyEnv,
    node: HirExpr,
    name: Symbol,
    ty: TyId,
    intrinsic: IntrinsicKind,
    span: Span,
    ic: Ic,
)
    ensures
        method_target(name, ty, ic) == MethodTarget::Intrinsic(intrinsic) ==> {
            let none: List<HirCallArg> = List::Nil;
            let m = method_args_rule(env, none, node, name, ty, ic, span);
            &&& m.env == env
            &&& m.ic.diags == ic.diags
            &&& m.ic.row == ic.row
            &&& intrinsic == IntrinsicKind::StringBytes ==> m.ty == ic.handle(
                TyKind::Slice(TyId::Prim(Primitive::U8)),
            )
            &&& intrinsic == IntrinsicKind::SliceLen ==> m.ty == ic.handle(
                TyKind::Primitive(Primitive::Usize),
            )
        },
{
    reveal(method_args_rule);
    reveal(synth_args_rule);
    let none: List<HirCallArg> = List::Nil;
    let start = Ic { intrinsics: ic.intrinsics.insert(span, intrinsic), ..ic };
    let w = synth_args_rule(env, none, start);
    assert(w.env == env && w.ic == start);
}

/// A part of a slice is a slice of the same type, and its ends are held
/// against `usize`; of anything but a slice there is no part.
pub proof fn law_part(
    env: TyEnv,
    receiver: HirExpr,
    lo: HirExpr,
    hi: HirExpr,
    kind: RangeKind,
    at: Span,
    span: Span,
    ic: Ic,
)
    requires
        synth_expr_rule(env, receiver, ic).ty != TyId::Error,
    ensures
        ({
            let usize_ty = TyId::Prim(Primitive::Usize);
            let r = synth_expr_rule(env, receiver, ic);
            let l = check_expr_rule(r.env, lo, usize_ty, r.ic);
            let h = check_expr_rule(l.env, hi, usize_ty, l.ic);
            let range = HirRange { lo: Some(lo), hi: Some(hi), kind };
            let index = expr_of(HirExprKind::Range(Box::new(range)), at);
            let node = HirIndex { receiver, index };
            let j = synth_expr_rule(env, expr_of(HirExprKind::Index(Box::new(node)), span), ic);
            &&& j.env == h.env
            &&& h.ic.kind(r.ty) is Slice ==> j.ty == r.ty && j.ic == h.ic
            &&& !(h.ic.kind(r.ty) is Slice) ==> j.ty == TyId::Error
        }),
{
    reveal(synth_expr_rule);
    reveal(synth_operation_rule);
    reveal(synth_index_rule);
    reveal(subrange_rule);
    reveal(optional_check_rule);
    reveal(check_expr_rule);
    let range = HirRange { lo: Some(lo), hi: Some(hi), kind };
    let index = expr_of(HirExprKind::Range(Box::new(range)), at);
    let node = HirIndex { receiver, index };
    let expr = expr_of(HirExprKind::Index(Box::new(node)), span);
    assert(synth_expr_rule(env, expr, ic) == synth_operation_rule(env, expr, ic));
    let r = synth_expr_rule(env, receiver, ic);
    let i = subrange_rule(r.env, range, r.ic);
    let t = synth_index_rule(env, node, ic, span);
}

/// `deterministic` of a random source that is a name holds its seed against
/// `u64`, gives a deterministic source, and uses the capability that the name
/// stands for.
pub proof fn law_deterministic(
    env: TyEnv,
    receiver: HirExpr,
    owner: Symbol,
    ty: TyId,
    name: Ident,
    seed: HirCallArg,
    span: Span,
    ic: Ic,
)
    requires
        is_name(receiver, owner),
        holds(env, owner, ty),
        method_target(name.name, ty, ic) == MethodTarget::Capability(
            CapabilityMethod::RandomDeterministic,
        ),
        seed.name is None,
        seed.mode is None,
    ensures
        ({
            let args = List::Cons(Box::new(seed), Box::new(List::Nil));
            let w = arg_rule(env, seed, Some(TyId::Prim(Primitive::U64)), ic);
            let j = synth_expr_rule(env, method_of(receiver, name, args, span), ic);
            &&& j.env == w.env
            &&& j.ty == TyId::Cap(CapabilityType::DeterministicRandom)
            &&& j.ic.diags == w.ic.diags
            &&& j.ic.row == w.ic.row.push(EffectEntry::Capability(origin(w.ic, owner)))
        }),
{
    let args = List::Cons(Box::new(seed), Box::new(List::Nil));
    lemma_method(env, receiver, owner, ty, name, args, span, ic);
    let node = HirExpr { ty, ..receiver };
    assert(is_name(node, owner));
    assert(derived_in(node, owner, 0));
    law_source(node, owner);
    lemma_deterministic(env, node, name.name, ty, seed, span, ic);
}

proof fn lemma_deterministic(
    env: TyEnv,
    node: HirExpr,
    name: Symbol,
    ty: TyId,
    seed: HirCallArg,
    span: Span,
    ic: Ic,
)
    requires
        method_target(name, ty, ic) == MethodTarget::Capability(
            CapabilityMethod::RandomDeterministic,
        ),
        seed.name is None,
        seed.mode is None,
    ensures
        ({
            let args = List::Cons(Box::new(seed), Box::new(List::Nil));
            let w = arg_rule(env, seed, Some(TyId::Prim(Primitive::U64)), ic);
            let m = method_args_rule(env, args, node, name, ty, ic, span);
            &&& m.env == w.env
            &&& m.ty == TyId::Cap(CapabilityType::DeterministicRandom)
            &&& m.ic == capability_performed(
                node,
                CapabilityMethod::RandomDeterministic,
                w.ic,
                span,
            )
        }),
{
    reveal(method_args_rule);
    reveal(capability_call_rule);
    reveal(last_arg_rule);
    reveal(arg_rule);
    let method = CapabilityMethod::RandomDeterministic;
    let none: List<HirCallArg> = List::Nil;
    let args = List::Cons(Box::new(seed), Box::new(none));
    assert(none.length() == 0);
    assert(args.length() == 1);
    assert(capability_reports(none, method, ic) == ic);
    assert(capability_reports(args, method, ic) == ic);
    let c = capability_call_rule(env, args, node, method, ic, span);
    let w = last_arg_rule(env, args, Primitive::U64, ic);
}

} // verus!
