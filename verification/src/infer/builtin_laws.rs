//! Laws of the compile-time built-ins and of `discriminant_of`.

use vstd::prelude::*;

use super::call::args::{arg_rule, synth_args_rule};
use super::call::direct::{
    call_target, discriminant_call_rule, discriminant_reports, is_sum, synth_call_rule,
    target_call_rule, CallTarget,
};
use super::callee_laws::call_of;
use super::comptime_call::{builtin_args_rule, builtin_call_rule, unchecked_args_rule};
use super::cx::Ic;
use super::env::TyEnv;
use super::expr::{synth_access_rule, synth_expr_rule};
use super::name_laws::is_name;
use crate::comptime_builtin::ComptimeBuiltin;
use crate::diag::Message;
use crate::hir::{HirCall, HirCallArg, HirExpr, HirExprKind};
use crate::intern::Symbol;
use crate::list::List;
use crate::prim::Primitive;
use crate::span::Span;
use crate::ty::TyId;

verus! {

proof fn lemma_builtin(
    env: TyEnv,
    callee: HirExpr,
    name: Symbol,
    builtin: ComptimeBuiltin,
    args: List<HirCallArg>,
    span: Span,
    ic: Ic,
)
    requires
        is_name(callee, name),
        ic.comptime,
        ComptimeBuiltin::named(ic.text(name)) == Some(builtin),
    ensures
        ({
            let j = synth_expr_rule(env, call_of(callee, args, span), ic);
            let b = builtin_call_rule(env, args, builtin, ic, span);
            j.env == b.env && j.ic == b.ic && j.ty == b.ty
        }),
{
    reveal(synth_expr_rule);
    reveal(synth_access_rule);
    reveal(synth_call_rule);
    reveal(target_call_rule);
    reveal(builtin_call_rule);
    reveal(call_target);
    let expr = call_of(callee, args, span);
    let call = HirCall { callee, args };
    match callee.kind {
        HirExprKind::Path(path) => {
            let target = call_target(path, ic);
            assert(target == CallTarget::Builtin(builtin));
            let t = target_call_rule(env, args, target, ic, span);
            assert(t == builtin_call_rule(env, args, builtin, ic, span));
        },
        _ => {},
    }
    let c = synth_call_rule(env, call, ic, span);
    assert(synth_expr_rule(env, expr, ic) == synth_access_rule(env, expr, ic));
}

/// A built-in called with its number of arguments gives a size, a name, a type
/// or a truth value, by what it asks; another number of arguments gives the
/// error type.
pub proof fn law_builtin(
    env: TyEnv,
    callee: HirExpr,
    name: Symbol,
    builtin: ComptimeBuiltin,
    args: List<HirCallArg>,
    span: Span,
    ic: Ic,
)
    requires
        is_name(callee, name),
        ic.comptime,
        ComptimeBuiltin::named(ic.text(name)) == Some(builtin),
    ensures
        ({
            let j = synth_expr_rule(env, call_of(callee, args, span), ic);
            let two = builtin == ComptimeBuiltin::OffsetOf || builtin
                == ComptimeBuiltin::FieldNameAt || builtin == ComptimeBuiltin::FieldTypeAt;
            let size = builtin == ComptimeBuiltin::SizeOf || builtin == ComptimeBuiltin::AlignOf
                || builtin == ComptimeBuiltin::OffsetOf || builtin == ComptimeBuiltin::FieldCount;
            let fits = args.length() == (if two {
                2int
            } else {
                1
            });
            &&& !fits ==> j.ty == TyId::Error
            &&& fits && size ==> j.ty == TyId::Prim(Primitive::Usize)
            &&& fits && builtin == ComptimeBuiltin::FieldNameAt ==> j.ty == TyId::Prim(
                Primitive::String,
            )
            &&& fits && builtin == ComptimeBuiltin::FieldTypeAt ==> j.ty == TyId::Prim(
                Primitive::Type,
            )
            &&& fits && !size && builtin != ComptimeBuiltin::FieldNameAt && builtin
                != ComptimeBuiltin::FieldTypeAt ==> j.ty == TyId::Prim(Primitive::Bool)
            &&& fits ==> j.ic.builtins.contains_key(span) && j.ic.builtins[span] == builtin
        }),
{
    lemma_builtin(env, callee, name, builtin, args, span, ic);
    reveal(builtin_call_rule);
    reveal(builtin_args_rule);
    reveal(unchecked_args_rule);
}

proof fn lemma_discriminant(
    env: TyEnv,
    callee: HirExpr,
    name: Symbol,
    args: List<HirCallArg>,
    span: Span,
    ic: Ic,
)
    requires
        is_name(callee, name),
        !ic.comptime,
        ic.text(name) == "discriminant_of"@,
    ensures
        ({
            let j = synth_expr_rule(env, call_of(callee, args, span), ic);
            let b = discriminant_call_rule(env, args, ic, span);
            j.env == b.env && j.ic == b.ic && j.ty == b.ty
        }),
{
    reveal(synth_expr_rule);
    reveal(synth_access_rule);
    reveal(synth_call_rule);
    reveal(target_call_rule);
    reveal(discriminant_call_rule);
    reveal(call_target);
    let expr = call_of(callee, args, span);
    let call = HirCall { callee, args };
    match callee.kind {
        HirExprKind::Path(path) => {
            assert(path.single() == Some(name));
            assert(path.pair() is None);
            let target = call_target(path, ic);
            assert(target == CallTarget::Discriminant);
            let t = target_call_rule(env, args, target, ic, span);
            assert(t == discriminant_call_rule(env, args, ic, span));
        },
        _ => {},
    }
    let c = synth_call_rule(env, call, ic, span);
    assert(synth_expr_rule(env, expr, ic) == synth_access_rule(env, expr, ic));
}

/// `discriminant_of` a value of a sum type is a `usize`; of any other value it
/// is reported, and so is any number of arguments but one.
pub proof fn law_discriminant(
    env: TyEnv,
    callee: HirExpr,
    name: Symbol,
    arg: HirCallArg,
    args: List<HirCallArg>,
    span: Span,
    ic: Ic,
)
    requires
        is_name(callee, name),
        !ic.comptime,
        ic.text(name) == "discriminant_of"@,
        args.length() != 1 || args == List::Cons(Box::new(arg), Box::new(List::Nil)),
    ensures
        ({
            let j = synth_expr_rule(env, call_of(callee, args, span), ic);
            let start = discriminant_reports(args, ic);
            let w = arg_rule(env, arg, None, start);
            let ty = w.node.expr.ty;
            &&& args.length() != 1 ==> j.ty == TyId::Error && j.ic == synth_args_rule(
                env,
                args,
                start,
            ).ic.error(span, (Message::DiscriminantArity { supplied: args.length() }))
            &&& args.length() == 1 ==> j.env == w.env
            &&& args.length() == 1 && ty != TyId::Error && is_sum(w.ic, ty) ==> j.ty == TyId::Prim(
                Primitive::Usize,
            ) && j.ic.diags == w.ic.diags
            &&& args.length() == 1 && ty != TyId::Error && !is_sum(w.ic, ty) ==> j.ty == TyId::Error
                && j.ic == w.ic.error(span, (Message::DiscriminantNotSum { ty }))
        }),
{
    lemma_discriminant(env, callee, name, args, span, ic);
    lemma_discriminant_rule(env, arg, args, span, ic);
}

proof fn lemma_discriminant_rule(
    env: TyEnv,
    arg: HirCallArg,
    args: List<HirCallArg>,
    span: Span,
    ic: Ic,
)
    requires
        args.length() != 1 || args == List::Cons(Box::new(arg), Box::new(List::Nil)),
    ensures
        ({
            let j = discriminant_call_rule(env, args, ic, span);
            let start = discriminant_reports(args, ic);
            let w = arg_rule(env, arg, None, start);
            let ty = w.node.expr.ty;
            &&& args.length() != 1 ==> j.ty == TyId::Error && j.ic == synth_args_rule(
                env,
                args,
                start,
            ).ic.error(span, (Message::DiscriminantArity { supplied: args.length() }))
            &&& args.length() == 1 ==> j.env == w.env
            &&& args.length() == 1 && ty != TyId::Error && is_sum(w.ic, ty) ==> j.ty == TyId::Prim(
                Primitive::Usize,
            ) && j.ic.diags == w.ic.diags
            &&& args.length() == 1 && ty != TyId::Error && !is_sum(w.ic, ty) ==> j.ty == TyId::Error
                && j.ic == w.ic.error(span, (Message::DiscriminantNotSum { ty }))
        }),
{
    reveal(discriminant_call_rule);
    reveal(arg_rule);
    reveal(synth_args_rule);
    match args {
        List::Nil => {},
        List::Cons(_, rest) => {
            match *rest {
                List::Nil => {
                    assert(rest.length() == 0);
                    assert(args.length() == 1);
                },
                List::Cons(_, more) => {
                    assert(more.length() >= 0);
                    assert(args.length() != 1);
                },
            }
        },
    }
}

} // verus!
