//! Calls of compile-time built-ins.

use vstd::prelude::*;

use super::call::args::{find_moded, find_named, first_moded, first_named};
use super::cx::{group_grown, kept, Ic, InferCx};
use super::env::TyEnv;
use super::expr::{check_expr, check_expr_rule, synth_expr, synth_expr_rule};
use super::judge::{judged, sound, walked, Judged, Walked};
use super::mode::helpers::{bound_name, path_binding};
use super::path::{bridge, check_synth_against_expected};
use crate::capability::CapabilityType;
use crate::comptime_builtin::ComptimeBuiltin;
use crate::diag::Message;
use crate::hir::{HirCallArg, HirExpr};
use crate::list::List;
use crate::prim::Primitive;
use crate::span::Span;
use crate::ty::TyId;

verus! {

broadcast use group_grown;

/// An argument that names a type.
#[verifier::opaque]
pub open spec fn type_arg_rule(env: TyEnv, arg: HirCallArg, ic: Ic) -> Walked<HirCallArg>
    decreases arg, 0nat,
{
    let j = synth_expr_rule(env, arg.expr, ic);
    let t = bridge(j.ty, TyId::Prim(Primitive::Type), j.ic, arg.expr.span);
    walked(j.env, t.ic, HirCallArg { expr: j.node, ..arg })
}

/// An argument of a primitive type.
#[verifier::opaque]
pub open spec fn prim_arg_rule(env: TyEnv, arg: HirCallArg, prim: Primitive, ic: Ic) -> Walked<
    HirCallArg,
>
    decreases arg, 0nat,
{
    let j = check_expr_rule(env, arg.expr, TyId::Prim(prim), ic);
    walked(j.env, j.ic, HirCallArg { expr: j.node, ..arg })
}

/// The argument of `offset_of` that names a field.
pub open spec fn ident_arg(env: TyEnv, arg: HirCallArg, ic: Ic) -> Walked<HirCallArg> {
    match bound_name(arg.expr) {
        Some(_) => walked(
            env,
            ic,
            HirCallArg {
                expr: HirExpr { ty: TyId::Prim(Primitive::Type), ..arg.expr },
                ..arg
            },
        ),
        None => walked(
            env,
            ic.error(arg.expr.span, Message::OffsetOfField),
            HirCallArg { expr: HirExpr { ty: TyId::Error, ..arg.expr }, ..arg },
        ),
    }
}

/// Arguments on their own.
#[verifier::opaque]
pub open spec fn unchecked_args_rule(env: TyEnv, args: List<HirCallArg>, ic: Ic) -> Walked<
    List<HirCallArg>,
>
    decreases args, 0nat,
{
    match args {
        List::Nil => walked(env, ic, args),
        List::Cons(arg, rest) => {
            let first = synth_expr_rule(env, arg.expr, ic);
            let others = unchecked_args_rule(first.env, *rest, first.ic);
            walked(
                others.env,
                others.ic,
                List::Cons(
                    Box::new(HirCallArg { expr: first.node, ..*arg }),
                    Box::new(others.node),
                ),
            )
        },
    }
}

/// The first argument of a built-in: a feature name for `target_has`, else a
/// type.
#[verifier::opaque]
pub open spec fn first_arg_rule(env: TyEnv, arg: HirCallArg, builtin: ComptimeBuiltin, ic: Ic) -> Walked<
    HirCallArg,
>
    decreases arg, 1nat,
{
    if builtin == ComptimeBuiltin::TargetHas {
        prim_arg_rule(env, arg, Primitive::String, ic)
    } else {
        type_arg_rule(env, arg, ic)
    }
}

/// The second argument of a built-in: a field name for `offset_of`, else a
/// position.
#[verifier::opaque]
pub open spec fn second_arg_rule(env: TyEnv, arg: HirCallArg, builtin: ComptimeBuiltin, ic: Ic) -> Walked<
    HirCallArg,
>
    decreases arg, 1nat,
{
    if builtin == ComptimeBuiltin::OffsetOf {
        ident_arg(env, arg, ic)
    } else {
        prim_arg_rule(env, arg, Primitive::Usize, ic)
    }
}

/// The arguments of a built-in, as many as it takes.
#[verifier::opaque]
pub open spec fn builtin_args_rule(
    env: TyEnv,
    args: List<HirCallArg>,
    builtin: ComptimeBuiltin,
    ic: Ic,
) -> Walked<List<HirCallArg>>
    decreases args, 0nat,
{
    match args {
        List::Nil => walked(env, ic, args),
        List::Cons(a, rest) => {
            let first = first_arg_rule(env, *a, builtin, ic);
            match *rest {
                List::Nil => walked(first.env, first.ic, List::Cons(Box::new(first.node), rest)),
                List::Cons(b, more) => {
                    let second = second_arg_rule(first.env, *b, builtin, first.ic);
                    walked(
                        second.env,
                        second.ic,
                        List::Cons(
                            Box::new(first.node),
                            Box::new(List::Cons(Box::new(second.node), more)),
                        ),
                    )
                },
            }
        },
    }
}

/// The type of a call of a built-in.
pub open spec fn builtin_result(builtin: ComptimeBuiltin) -> Primitive {
    match builtin {
        ComptimeBuiltin::SizeOf
        | ComptimeBuiltin::AlignOf
        | ComptimeBuiltin::OffsetOf
        | ComptimeBuiltin::FieldCount => Primitive::Usize,
        ComptimeBuiltin::FieldNameAt => Primitive::String,
        ComptimeBuiltin::FieldTypeAt => Primitive::Type,
        _ => Primitive::Bool,
    }
}

/// The reports on names and mode keywords of the arguments of a built-in.
pub open spec fn builtin_reports(args: List<HirCallArg>, builtin: ComptimeBuiltin, ic: Ic) -> Ic {
    let named = match first_named(args) {
        Some((span, field)) => ic.error(span, Message::BuiltinNamedArgument { field, builtin }),
        None => ic,
    };
    match first_moded(args) {
        Some(span) => named.error(span, Message::BuiltinModeArgument { builtin }),
        None => named,
    }
}

/// A call of a compile-time built-in.
#[verifier::opaque]
pub open spec fn builtin_call_rule(
    env: TyEnv,
    args: List<HirCallArg>,
    builtin: ComptimeBuiltin,
    ic: Ic,
    span: Span,
) -> Judged<List<HirCallArg>>
    decreases args, 1nat,
{
    let start = builtin_reports(args, builtin, ic);
    if args.length() != builtin.argument_count() {
        let w = unchecked_args_rule(env, args, start);
        judged(
            w.env,
            w.ic.error(span, Message::BuiltinArity { builtin, supplied: args.length() }),
            w.node,
            TyId::Error,
        )
    } else {
        let w = builtin_args_rule(env, args, builtin, start);
        judged(
            w.env,
            Ic { builtins: w.ic.builtins.insert(span, builtin), ..w.ic },
            w.node,
            TyId::Prim(builtin_result(builtin)),
        )
    }
}

/// Whether an expression is the bare name of a capability type.
pub open spec fn names_capability(expr: HirExpr, ic: Ic) -> bool {
    match bound_name(expr) {
        Some(name) => CapabilityType::named(ic.text(name)) is Some,
        None => false,
    }
}

/// The reports on names and mode keywords of the argument of
/// `target.supports`.
pub open spec fn supports_reports(args: List<HirCallArg>, ic: Ic) -> Ic {
    let named = match first_named(args) {
        Some((span, _)) => ic.error(span, Message::SupportsNamedArgument),
        None => ic,
    };
    match first_moded(args) {
        Some(span) => named.error(span, Message::SupportsModeArgument),
        None => named,
    }
}

/// A call of `target.supports`.
#[verifier::opaque]
pub open spec fn supports_call_rule(env: TyEnv, args: List<HirCallArg>, ic: Ic, span: Span) -> Judged<
    List<HirCallArg>,
>
    decreases args, 1nat,
{
    let start = supports_reports(args, ic);
    match args {
        List::Cons(arg, rest) if *rest == List::<HirCallArg>::Nil => {
            let w = type_arg_rule(env, *arg, start);
            let node = List::Cons(Box::new(w.node), rest);
            if names_capability(arg.expr, start) {
                judged(w.env, w.ic, node, TyId::Prim(Primitive::Bool))
            } else {
                judged(
                    w.env,
                    w.ic.error(arg.expr.span, Message::SupportsNotCapability),
                    node,
                    TyId::Error,
                )
            }
        },
        _ => {
            let w = unchecked_args_rule(env, args, start);
            judged(
                w.env,
                w.ic.error(span, Message::SupportsArity { supplied: args.length() }),
                w.node,
                TyId::Error,
            )
        },
    }
}

fn type_check_type_arg(env: &mut TyEnv, arg: &mut HirCallArg, ic: &mut InferCx<'_>)
    ensures
        walked(*final(env), final(ic)@, *final(arg)) == type_arg_rule(
            *old(env),
            *old(arg),
            old(ic)@,
        ),
        sound(*old(env), old(ic)@, *final(env), final(ic)@),
    decreases *old(arg), 0nat,
{
    proof {
        reveal(type_arg_rule);
        reveal(synth_expr_rule);
    }
    let span = arg.expr.span;
    let synth = synth_expr(env, &mut arg.expr, ic);
    check_synth_against_expected(synth, TyId::Prim(Primitive::Type), ic, span);
}

fn type_check_prim_arg(
    env: &mut TyEnv,
    arg: &mut HirCallArg,
    prim: Primitive,
    ic: &mut InferCx<'_>,
)
    ensures
        walked(*final(env), final(ic)@, *final(arg)) == prim_arg_rule(
            *old(env),
            *old(arg),
            prim,
            old(ic)@,
        ),
        sound(*old(env), old(ic)@, *final(env), final(ic)@),
    decreases *old(arg), 0nat,
{
    proof {
        reveal(prim_arg_rule);
        reveal(check_expr_rule);
    }
    check_expr(env, &mut arg.expr, TyId::Prim(prim), ic);
}

fn type_check_ident_arg(env: &TyEnv, arg: &mut HirCallArg, ic: &mut InferCx<'_>)
    ensures
        walked(*env, final(ic)@, *final(arg)) == ident_arg(*env, *old(arg), old(ic)@),
        kept(old(ic)@, final(ic)@),
{
    match path_binding(&arg.expr) {
        Some(_) => {
            arg.expr.ty = TyId::Prim(Primitive::Type);
        },
        None => {
            ic.emit_typecheck_error(arg.expr.span, Message::OffsetOfField);
            arg.expr.ty = ic.ty_error();
        },
    }
}

fn synth_args_unchecked(env: &mut TyEnv, args: &mut List<HirCallArg>, ic: &mut InferCx<'_>)
    ensures
        walked(*final(env), final(ic)@, *final(args)) == unchecked_args_rule(
            *old(env),
            *old(args),
            old(ic)@,
        ),
        sound(*old(env), old(ic)@, *final(env), final(ic)@),
    decreases *old(args), 0nat,
{
    proof {
        reveal(unchecked_args_rule);
        reveal(synth_expr_rule);
    }
    match args {
        List::Nil => {},
        List::Cons(arg, rest) => {
            synth_expr(env, &mut arg.expr, ic);
            synth_args_unchecked(env, rest, ic);
        },
    }
}

fn check_first_arg(
    env: &mut TyEnv,
    arg: &mut HirCallArg,
    builtin: ComptimeBuiltin,
    ic: &mut InferCx<'_>,
)
    ensures
        walked(*final(env), final(ic)@, *final(arg)) == first_arg_rule(
            *old(env),
            *old(arg),
            builtin,
            old(ic)@,
        ),
        sound(*old(env), old(ic)@, *final(env), final(ic)@),
    decreases *old(arg), 1nat,
{
    proof {
        reveal(first_arg_rule);
        reveal(prim_arg_rule);
        reveal(type_arg_rule);
    }
    match builtin {
        ComptimeBuiltin::TargetHas => type_check_prim_arg(env, arg, Primitive::String, ic),
        _ => type_check_type_arg(env, arg, ic),
    }
}

fn check_second_arg(
    env: &mut TyEnv,
    arg: &mut HirCallArg,
    builtin: ComptimeBuiltin,
    ic: &mut InferCx<'_>,
)
    ensures
        walked(*final(env), final(ic)@, *final(arg)) == second_arg_rule(
            *old(env),
            *old(arg),
            builtin,
            old(ic)@,
        ),
        sound(*old(env), old(ic)@, *final(env), final(ic)@),
    decreases *old(arg), 1nat,
{
    proof {
        reveal(second_arg_rule);
        reveal(prim_arg_rule);
    }
    match builtin {
        ComptimeBuiltin::OffsetOf => type_check_ident_arg(env, arg, ic),
        _ => type_check_prim_arg(env, arg, Primitive::Usize, ic),
    }
}

fn check_rest_args(
    env: &mut TyEnv,
    args: &mut List<HirCallArg>,
    builtin: ComptimeBuiltin,
    ic: &mut InferCx<'_>,
)
    ensures
        match *old(args) {
            List::Nil => *final(env) == *old(env) && final(ic)@ == old(ic)@ && *final(args) == *old(
                args,
            ),
            List::Cons(b, more) => {
                let second = second_arg_rule(*old(env), *b, builtin, old(ic)@);
                walked(*final(env), final(ic)@, *final(args)) == walked(
                    second.env,
                    second.ic,
                    List::Cons(Box::new(second.node), more),
                )
            },
        },
        sound(*old(env), old(ic)@, *final(env), final(ic)@),
    decreases *old(args), 0nat,
{
    proof {
        reveal(second_arg_rule);
    }
    match args {
        List::Nil => {},
        List::Cons(b, _) => check_second_arg(env, b, builtin, ic),
    }
}

fn check_builtin_args(
    env: &mut TyEnv,
    args: &mut List<HirCallArg>,
    builtin: ComptimeBuiltin,
    ic: &mut InferCx<'_>,
)
    ensures
        walked(*final(env), final(ic)@, *final(args)) == builtin_args_rule(
            *old(env),
            *old(args),
            builtin,
            old(ic)@,
        ),
        sound(*old(env), old(ic)@, *final(env), final(ic)@),
    decreases *old(args), 0nat,
{
    proof {
        reveal(builtin_args_rule);
        reveal(first_arg_rule);
        reveal(second_arg_rule);
    }
    match args {
        List::Nil => {},
        List::Cons(a, rest) => {
            check_first_arg(env, a, builtin, ic);
            check_rest_args(env, rest, builtin, ic);
        },
    }
}

fn result_of_builtin(builtin: ComptimeBuiltin) -> (r: Primitive)
    ensures
        r == builtin_result(builtin),
{
    match builtin {
        ComptimeBuiltin::SizeOf
        | ComptimeBuiltin::AlignOf
        | ComptimeBuiltin::OffsetOf
        | ComptimeBuiltin::FieldCount => Primitive::Usize,
        ComptimeBuiltin::FieldNameAt => Primitive::String,
        ComptimeBuiltin::FieldTypeAt => Primitive::Type,
        _ => Primitive::Bool,
    }
}

/// Synthesise a call of a compile-time built-in.
pub fn synth_comptime_builtin_call(
    env: &mut TyEnv,
    args: &mut List<HirCallArg>,
    builtin: ComptimeBuiltin,
    ic: &mut InferCx<'_>,
    span: Span,
) -> (r: TyId)
    ensures
        judged(*final(env), final(ic)@, *final(args), r) == builtin_call_rule(
            *old(env),
            *old(args),
            builtin,
            old(ic)@,
            span,
        ),
        sound(*old(env), old(ic)@, *final(env), final(ic)@),
    decreases *old(args), 1nat,
{
    proof {
        reveal(builtin_call_rule);
        reveal(unchecked_args_rule);
        reveal(builtin_args_rule);
    }
    match find_named(args) {
        Some((at, field)) => {
            ic.emit_typecheck_error(at, Message::BuiltinNamedArgument { field, builtin });
        },
        None => {},
    }
    match find_moded(args) {
        Some(at) => {
            ic.emit_typecheck_error(at, Message::BuiltinModeArgument { builtin });
        },
        None => {},
    }
    let supplied: usize = args.len();
    if supplied != builtin.arity() {
        synth_args_unchecked(env, args, ic);
        ic.emit_typecheck_error(span, Message::BuiltinArity { builtin, supplied });
        return ic.ty_error();
    }
    check_builtin_args(env, args, builtin, ic);
    ic.comptime_builtin_calls.insert(span, builtin);
    TyId::Prim(result_of_builtin(builtin))
}

fn is_capability_name(expr: &HirExpr, ic: &InferCx<'_>) -> (r: bool)
    ensures
        r == names_capability(*expr, ic@),
{
    match path_binding(expr) {
        Some(name) => CapabilityType::from_name(ic.lower.interner.resolve(name)).is_some(),
        None => false,
    }
}

/// Synthesise a call of `target.supports`.
pub fn synth_target_supports_call(
    env: &mut TyEnv,
    args: &mut List<HirCallArg>,
    ic: &mut InferCx<'_>,
    span: Span,
) -> (r: TyId)
    ensures
        judged(*final(env), final(ic)@, *final(args), r) == supports_call_rule(
            *old(env),
            *old(args),
            old(ic)@,
            span,
        ),
        sound(*old(env), old(ic)@, *final(env), final(ic)@),
    decreases *old(args), 1nat,
{
    proof {
        reveal(supports_call_rule);
        reveal(unchecked_args_rule);
        reveal(type_arg_rule);
    }
    match find_named(args) {
        Some((at, _)) => {
            ic.emit_typecheck_error(at, Message::SupportsNamedArgument);
        },
        None => {},
    }
    match find_moded(args) {
        Some(at) => {
            ic.emit_typecheck_error(at, Message::SupportsModeArgument);
        },
        None => {},
    }
    let supplied: usize = args.len();
    let alone = match args {
        List::Cons(_, rest) => rest.is_empty(),
        List::Nil => false,
    };
    if !alone {
        synth_args_unchecked(env, args, ic);
        ic.emit_typecheck_error(span, Message::SupportsArity { supplied });
        return ic.ty_error();
    }
    match args {
        List::Cons(arg, _) => {
            let at = arg.expr.span;
            let is_cap = is_capability_name(&arg.expr, ic);
            type_check_type_arg(env, arg, ic);
            if !is_cap {
                ic.emit_typecheck_error(at, Message::SupportsNotCapability);
                return ic.ty_error();
            }
            TyId::Prim(Primitive::Bool)
        },
        List::Nil => ic.ty_error(),
    }
}

} // verus!
