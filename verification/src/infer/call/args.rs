//! Arguments of calls.

use vstd::prelude::*;

use super::super::ctrl::branch::branch_rule;
use super::super::cx::{group_grown, kept, Ic, InferCx};
use super::super::env::TyEnv;
use super::super::expr::{check_expr, check_expr_rule, synth_expr, synth_expr_rule};
use super::super::judge::{sound, walked, Walked};
use super::super::mode::exit::{field_ty, product_field};
use super::super::mode::helpers::{bound_name, field_place, field_projection_binding, path_binding};
use super::super::mode::transitions::{apply_call_mode_transition, optional_mode_step, step};
use super::super::path::{bridge, check_synth_against_expected, typed, Typed};
use crate::diag::Message;
use crate::hir::{HirCallArg, HirCallMode, HirExpr, HirExprKind, HirField};
use crate::intern::Symbol;
use crate::list::List;
use crate::span::Span;
use crate::ty::TyId;

verus! {

broadcast use group_grown;

/// The type of a place that is found to be `ty`, where a type may be expected.
pub open spec fn place_ty(ty: TyId, expected: Option<TyId>, ic: Ic, span: Span) -> Typed {
    match expected {
        Some(expected) => bridge(ty, expected, ic, span),
        None => typed(ic, ty),
    }
}

/// The type of the place of an `init` argument, found without reading it: a
/// binding, or a field of a binding.
pub open spec fn init_place(env: TyEnv, expr: HirExpr, ic: Ic) -> Option<TyId> {
    match bound_name(expr) {
        Some(name) => env.ty_of(name),
        None => match field_place(expr) {
            Some((binding, field)) => match env.ty_of(binding) {
                Some(ty) => Some(
                    match product_field(ic, ty, field) {
                        Some(t) => t,
                        None => TyId::Error,
                    },
                ),
                None => None,
            },
            None => None,
        },
    }
}

/// The place of an `init` argument with its types filled in.
pub open spec fn init_expr(env: TyEnv, expr: HirExpr, ty: TyId) -> HirExpr {
    match expr.kind {
        HirExprKind::Field(access) => HirExpr {
            ty,
            kind: HirExprKind::Field(
                Box::new(
                    HirField {
                        receiver: HirExpr {
                            ty: match bound_name(access.receiver) {
                                Some(name) => match env.ty_of(name) {
                                    Some(t) => t,
                                    None => access.receiver.ty,
                                },
                                None => access.receiver.ty,
                            },
                            ..access.receiver
                        },
                        name: access.name,
                    },
                ),
            ),
            ..expr
        },
        _ => HirExpr { ty, ..expr },
    }
}

/// An argument, where a type may be expected. The place of an `init` argument
/// is not read. An enclosing `?` does not reach into an argument.
#[verifier::opaque]
pub open spec fn arg_rule(env: TyEnv, arg: HirCallArg, expected: Option<TyId>, ic: Ic) -> Walked<
    HirCallArg,
>
    decreases arg, 0nat,
{
    let place = if arg.mode == Some(HirCallMode::Init) {
        init_place(env, arg.expr, ic)
    } else {
        None
    };
    match place {
        Some(ty) => {
            let t = place_ty(ty, expected, ic, arg.expr.span);
            walked(env, t.ic, HirCallArg { expr: init_expr(env, arg.expr, t.ty), ..arg })
        },
        None => {
            let j = branch_rule(env, arg.expr, expected, Ic { try_depth: 0, ..ic });
            walked(
                j.env,
                Ic { try_depth: ic.try_depth, ..j.ic },
                HirCallArg { expr: j.node, ..arg },
            )
        },
    }
}

/// Arguments without expected types.
#[verifier::opaque]
pub open spec fn synth_args_rule(env: TyEnv, args: List<HirCallArg>, ic: Ic) -> Walked<
    List<HirCallArg>,
>
    decreases args, 0nat,
{
    match args {
        List::Nil => walked(env, ic, args),
        List::Cons(arg, rest) => {
            let first = arg_rule(env, *arg, None, ic);
            let others = synth_args_rule(first.env, *rest, first.ic);
            walked(
                others.env,
                others.ic,
                List::Cons(Box::new(first.node), Box::new(others.node)),
            )
        },
    }
}

/// Arguments against the types of parameters, one by one; where `moves`, each
/// mode keyword takes effect after its argument.
#[verifier::opaque]
pub open spec fn check_args_rule(
    env: TyEnv,
    args: List<HirCallArg>,
    tys: List<TyId>,
    moves: bool,
    ic: Ic,
) -> Walked<List<HirCallArg>>
    decreases args, 0nat,
{
    match (args, tys) {
        (List::Cons(arg, rest), List::Cons(ty, more)) => {
            let first = arg_rule(env, *arg, Some(*ty), ic);
            let s = if moves {
                optional_mode_step(
                    first.env,
                    first.ic,
                    first.node.mode,
                    first.node.expr,
                    first.node.span,
                )
            } else {
                step(first.env, first.ic)
            };
            let others = check_args_rule(s.env, *rest, *more, moves, s.ic);
            walked(
                others.env,
                others.ic,
                List::Cons(Box::new(first.node), Box::new(others.node)),
            )
        },
        _ => walked(env, ic, args),
    }
}

fn stamp_place(ty: TyId, expected: Option<TyId>, ic: &mut InferCx<'_>, span: Span) -> (r: TyId)
    ensures
        typed(final(ic)@, r) == place_ty(ty, expected, old(ic)@, span),
        kept(old(ic)@, final(ic)@),
{
    match expected {
        Some(expected) => check_synth_against_expected(ty, expected, ic, span),
        None => ty,
    }
}

fn find_init_place(env: &TyEnv, expr: &HirExpr, ic: &InferCx<'_>) -> (r: Option<TyId>)
    ensures
        r == init_place(*env, *expr, ic@),
{
    match path_binding(expr) {
        Some(name) => env.lookup(name),
        None => match field_projection_binding(expr) {
            Some((binding, field)) => match env.lookup(binding) {
                Some(ty) => Some(
                    match field_ty(ty, field, ic) {
                        Some(t) => t,
                        None => ic.ty_error(),
                    },
                ),
                None => None,
            },
            None => None,
        },
    }
}

fn stamp_init(env: &TyEnv, expr: &mut HirExpr, ty: TyId)
    ensures
        *final(expr) == init_expr(*env, *old(expr), ty),
{
    expr.ty = ty;
    match &mut expr.kind {
        HirExprKind::Field(access) => match path_binding(&access.receiver) {
            Some(name) => match env.lookup(name) {
                Some(t) => {
                    access.receiver.ty = t;
                },
                None => {},
            },
            None => {},
        },
        _ => {},
    }
}

/// Walk an argument of an `init` parameter without reading its place; tells
/// whether it is such an argument.
fn try_init_bypass(
    env: &TyEnv,
    arg: &mut HirCallArg,
    expected: Option<TyId>,
    ic: &mut InferCx<'_>,
) -> (r: bool)
    ensures
        r == (old(arg).mode == Some(HirCallMode::Init) && init_place(
            *env,
            old(arg).expr,
            old(ic)@,
        ) is Some),
        !r ==> final(ic)@ == old(ic)@ && *final(arg) == *old(arg),
        r ==> walked(*env, final(ic)@, *final(arg)) == arg_rule(
            *env,
            *old(arg),
            expected,
            old(ic)@,
        ),
        kept(old(ic)@, final(ic)@),
{
    proof {
        reveal(arg_rule);
    }
    match arg.mode {
        Some(HirCallMode::Init) => {},
        _ => {
            return false;
        },
    }
    match find_init_place(env, &arg.expr, ic) {
        Some(ty) => {
            let span = arg.expr.span;
            let found = stamp_place(ty, expected, ic, span);
            stamp_init(env, &mut arg.expr, found);
            true
        },
        None => false,
    }
}

/// Check an argument against the type of its parameter.
pub fn check_arg_expr(env: &mut TyEnv, arg: &mut HirCallArg, expected: TyId, ic: &mut InferCx<'_>)
    ensures
        walked(*final(env), final(ic)@, *final(arg)) == arg_rule(
            *old(env),
            *old(arg),
            Some(expected),
            old(ic)@,
        ),
        sound(*old(env), old(ic)@, *final(env), final(ic)@),
    decreases *old(arg), 0nat,
{
    proof {
        reveal(arg_rule);
        reveal(check_expr_rule);
    }
    if !try_init_bypass(env, arg, Some(expected), ic) {
        let saved: usize = ic.try_position_depth;
        ic.try_position_depth = 0;
        check_expr(env, &mut arg.expr, expected, ic);
        ic.try_position_depth = saved;
    }
}

/// Synthesise an argument on its own.
pub fn synth_arg_expr(env: &mut TyEnv, arg: &mut HirCallArg, ic: &mut InferCx<'_>)
    ensures
        walked(*final(env), final(ic)@, *final(arg)) == arg_rule(
            *old(env),
            *old(arg),
            None,
            old(ic)@,
        ),
        sound(*old(env), old(ic)@, *final(env), final(ic)@),
    decreases *old(arg), 0nat,
{
    proof {
        reveal(arg_rule);
        reveal(synth_expr_rule);
    }
    if !try_init_bypass(env, arg, None, ic) {
        let saved: usize = ic.try_position_depth;
        ic.try_position_depth = 0;
        synth_expr(env, &mut arg.expr, ic);
        ic.try_position_depth = saved;
    }
}

/// Synthesise arguments on their own.
pub fn synth_args_for_diagnostics(env: &mut TyEnv, args: &mut List<HirCallArg>, ic: &mut InferCx<'_>)
    ensures
        walked(*final(env), final(ic)@, *final(args)) == synth_args_rule(
            *old(env),
            *old(args),
            old(ic)@,
        ),
        sound(*old(env), old(ic)@, *final(env), final(ic)@),
    decreases *old(args), 0nat,
{
    proof {
        reveal(synth_args_rule);
        reveal(arg_rule);
    }
    match args {
        List::Nil => {},
        List::Cons(arg, rest) => {
            synth_arg_expr(env, arg, ic);
            synth_args_for_diagnostics(env, rest, ic);
        },
    }
}

/// Check arguments against the types of parameters, one by one.
pub fn check_args(
    env: &mut TyEnv,
    args: &mut List<HirCallArg>,
    tys: &List<TyId>,
    moves: bool,
    ic: &mut InferCx<'_>,
)
    ensures
        walked(*final(env), final(ic)@, *final(args)) == check_args_rule(
            *old(env),
            *old(args),
            *tys,
            moves,
            old(ic)@,
        ),
        sound(*old(env), old(ic)@, *final(env), final(ic)@),
    decreases *old(args), 0nat,
{
    proof {
        reveal(check_args_rule);
        reveal(arg_rule);
    }
    match args {
        List::Nil => {},
        List::Cons(arg, rest) => match tys {
            List::Nil => {},
            List::Cons(ty, more) => {
                check_arg_expr(env, arg, **ty, ic);
                if moves {
                    apply_call_mode_transition(env, arg, ic);
                }
                check_args(env, rest, more, moves, ic);
            },
        },
    }
}

/// Where arguments are positional.
pub enum ArgSite {
    /// A call of the named function.
    Function(Symbol),
    /// A call of a function pointer.
    Pointer,
    /// The tuple payload of a variant of the named type.
    Variant(Symbol, Symbol),
}

impl ArgSite {
    /// The report on an argument named `field`.
    pub open spec fn message(self, field: Symbol) -> Message {
        match self {
            ArgSite::Function(function) => Message::FunctionNamedArgument { field, function },
            ArgSite::Pointer => Message::PointerNamedArgument { field },
            ArgSite::Variant(ty_name, variant) => Message::VariantNamedArgument {
                field,
                ty_name,
                variant,
            },
        }
    }

    fn report(&self, field: Symbol) -> (r: Message)
        ensures
            r == self.message(field),
    {
        match self {
            ArgSite::Function(function) => Message::FunctionNamedArgument {
                field,
                function: *function,
            },
            ArgSite::Pointer => Message::PointerNamedArgument { field },
            ArgSite::Variant(ty_name, variant) => Message::VariantNamedArgument {
                field,
                ty_name: *ty_name,
                variant: *variant,
            },
        }
    }
}

/// The reports on named arguments where arguments are positional.
pub open spec fn named_reports(args: List<HirCallArg>, site: ArgSite, ic: Ic) -> Ic
    decreases args,
{
    match args {
        List::Nil => ic,
        List::Cons(arg, rest) => named_reports(
            *rest,
            site,
            match arg.name {
                Some(name) => ic.error(arg.span, site.message(name.name)),
                None => ic,
            },
        ),
    }
}

/// Report named arguments where arguments are positional.
pub fn report_named(args: &List<HirCallArg>, site: &ArgSite, ic: &mut InferCx<'_>)
    ensures
        final(ic)@ == named_reports(*args, *site, old(ic)@),
        kept(old(ic)@, final(ic)@),
    decreases args,
{
    match args {
        List::Nil => {},
        List::Cons(arg, rest) => {
            match arg.name {
                Some(name) => {
                    ic.emit_typecheck_error(arg.span, site.report(name.name));
                },
                None => {},
            }
            report_named(rest, site, ic);
        },
    }
}

/// The first named argument: where it stands, and its name.
pub open spec fn first_named(args: List<HirCallArg>) -> Option<(Span, Symbol)>
    decreases args,
{
    match args {
        List::Nil => None,
        List::Cons(arg, rest) => match arg.name {
            Some(name) => Some((arg.span, name.name)),
            None => first_named(*rest),
        },
    }
}

/// Where the first argument with a mode keyword stands.
pub open spec fn first_moded(args: List<HirCallArg>) -> Option<Span>
    decreases args,
{
    match args {
        List::Nil => None,
        List::Cons(arg, rest) => if arg.mode is Some {
            Some(arg.span)
        } else {
            first_moded(*rest)
        },
    }
}

/// The first named argument.
pub fn find_named(args: &List<HirCallArg>) -> (r: Option<(Span, Symbol)>)
    ensures
        r == first_named(*args),
    decreases args,
{
    match args {
        List::Nil => None,
        List::Cons(arg, rest) => match arg.name {
            Some(name) => Some((arg.span, name.name)),
            None => find_named(rest),
        },
    }
}

/// Where the first argument with a mode keyword stands.
pub fn find_moded(args: &List<HirCallArg>) -> (r: Option<Span>)
    ensures
        r == first_moded(*args),
    decreases args,
{
    match args {
        List::Nil => None,
        List::Cons(arg, rest) => if arg.mode.is_some() {
            Some(arg.span)
        } else {
            find_moded(rest)
        },
    }
}

} // verus!
