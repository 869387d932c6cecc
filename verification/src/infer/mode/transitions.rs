//! State transitions of bindings and fields.

use vstd::prelude::*;

use super::super::cx::{group_grown, kept, Ic, InferCx};
use super::super::env::{Bound, TyEnv};
use super::helpers::{bound_name, field_place, field_projection_binding, members, path_binding, type_field_set};
use super::lattice::{name_inserted, name_removed, BindingState, FieldSet};
use crate::cx::{has_name, names_has};
use crate::diag::{DiagnosticClass, Message, StateWord};
use crate::hir::{HirCallArg, HirCallMode, HirExpr, HirStructLitField};
use crate::intern::Symbol;
use crate::list::List;
use crate::span::Span;

verus! {

broadcast use group_grown;

/// Environment and context after a step.
pub struct Step {
    /// The environment.
    pub env: TyEnv,
    /// The context.
    pub ic: Ic,
}

/// The step to an environment and a context.
pub open spec fn step(env: TyEnv, ic: Ic) -> Step {
    Step { env, ic }
}

/// Whether a mode writes through an immutable binding.
pub open spec fn writes_immutable(env: TyEnv, mode: HirCallMode, binding: Symbol) -> bool {
    mode != HirCallMode::Take && env.mutable_of(binding) == Some(false)
}

/// Report a `mutable` or `init` borrow of an immutable binding; tells whether
/// it did.
fn reject_immutable_borrow(
    env: &TyEnv,
    ic: &mut InferCx<'_>,
    span: Span,
    mode: HirCallMode,
    binding: Symbol,
    field: Option<Symbol>,
) -> (r: bool)
    ensures
        r == writes_immutable(*env, mode, binding),
        final(ic)@ == (if r {
            old(ic)@.emit(
                DiagnosticClass::ModeViolation,
                span,
                Message::ImmutableBorrow { mode, binding, member: field },
            )
        } else {
            old(ic)@
        }),
        kept(old(ic)@, final(ic)@),
{
    if mode == HirCallMode::Take {
        return false;
    }
    if env.lookup_mutable(binding) != Some(false) {
        return false;
    }
    ic.emit_diagnostic(
        DiagnosticClass::ModeViolation,
        span,
        Message::ImmutableBorrow { mode, binding, member: field },
    );
    true
}

/// The state that a mode keyword requires of a binding.
pub open spec fn required_word(mode: HirCallMode) -> StateWord {
    match mode {
        HirCallMode::Init => StateWord::Uninit,
        _ => StateWord::Valid,
    }
}

/// The state of a binding after a mode keyword.
pub open spec fn state_after(mode: HirCallMode) -> BindingState {
    match mode {
        HirCallMode::Take => BindingState::Consumed,
        _ => BindingState::Valid,
    }
}

/// A mode keyword on a whole binding: `mutable` and `take` need it valid,
/// `init` needs it uninitialised; `take` leaves it consumed, the others valid.
pub open spec fn binding_step(
    env: TyEnv,
    ic: Ic,
    mode: HirCallMode,
    name: Symbol,
    span: Span,
) -> Step {
    if writes_immutable(env, mode, name) {
        Step {
            env,
            ic: ic.emit(
                DiagnosticClass::ModeViolation,
                span,
                Message::ImmutableBorrow { mode, binding: name, member: None },
            ),
        }
    } else {
        match env.state_of(name) {
            None => Step { env, ic },
            Some(state) => if state.word() != required_word(mode) {
                Step {
                    env,
                    ic: ic.error(
                        span,
                        Message::ModeRequires {
                            mode,
                            name,
                            required: required_word(mode),
                            actual: state.word(),
                        },
                    ),
                }
            } else {
                Step { env: env.moved(name, state_after(mode)), ic }
            },
        }
    }
}

/// The state of a binding once one member is valid (`valid`) or is not.
pub open spec fn member_moved(
    state: BindingState,
    member: Symbol,
    valid: bool,
    all: FieldSet,
) -> BindingState {
    let before = match state {
        BindingState::Valid => all.items,
        BindingState::Uninit | BindingState::Consumed => List::Nil,
        BindingState::PartialInit(f) => f.items,
    };
    let after = FieldSet {
        items: if valid {
            name_inserted(before, member)
        } else {
            name_removed(before, member)
        },
    };
    if after@ == all@ {
        BindingState::Valid
    } else if after.items == List::<Symbol>::Nil {
        BindingState::Uninit
    } else {
        BindingState::PartialInit(after)
    }
}

/// The environment once one member of a binding is valid or is not.
pub open spec fn member_step(
    env: TyEnv,
    binding: Symbol,
    member: Symbol,
    valid: bool,
    all: FieldSet,
) -> TyEnv {
    match env.state_of(binding) {
        Some(state) => env.moved(binding, member_moved(state, member, valid, all)),
        None => env,
    }
}

/// A mode keyword on a field: `mutable` and `take` need the field valid, `init`
/// needs it not valid; `take` leaves it not valid, the others valid.
pub open spec fn field_step(
    env: TyEnv,
    ic: Ic,
    mode: HirCallMode,
    binding: Symbol,
    field: Symbol,
    span: Span,
) -> Step {
    match env.find(binding) {
        None => Step { env, ic },
        Some(bound) => if writes_immutable(env, mode, binding) {
            Step {
                env,
                ic: ic.emit(
                    DiagnosticClass::ModeViolation,
                    span,
                    Message::ImmutableBorrow { mode, binding, member: Some(field) },
                ),
            }
        } else {
            let (after, all) = members(ic, bound.ty);
            match all {
                None => Step { env, ic: after },
                Some(all) => if !names_has(all.items, field) {
                    Step { env, ic: after }
                } else {
                    let state = bound.state.of_field(field);
                    match mode {
                        HirCallMode::Init => if state is Valid {
                            Step {
                                env,
                                ic: after.error(
                                    span,
                                    Message::FieldInitRequires {
                                        binding,
                                        field,
                                        actual: state.word(),
                                    },
                                ),
                            }
                        } else {
                            Step { env: member_step(env, binding, field, true, all), ic: after }
                        },
                        _ => if !(state is Valid) {
                            Step {
                                env,
                                ic: after.error(
                                    span,
                                    Message::FieldModeRequires {
                                        mode,
                                        binding,
                                        field,
                                        actual: state.word(),
                                    },
                                ),
                            }
                        } else {
                            Step {
                                env: member_step(
                                    env,
                                    binding,
                                    field,
                                    mode == HirCallMode::Mutable,
                                    all,
                                ),
                                ic: after,
                            }
                        },
                    }
                },
            }
        },
    }
}

/// A mode keyword on a place: on a field of a binding, on a binding, or on
/// anything else, where it moves nothing.
#[verifier::opaque]
pub open spec fn mode_step(env: TyEnv, ic: Ic, mode: HirCallMode, expr: HirExpr, span: Span) -> Step {
    match field_place(expr) {
        Some((binding, field)) => field_step(env, ic, mode, binding, field, span),
        None => match bound_name(expr) {
            Some(name) => binding_step(env, ic, mode, name, span),
            None => Step { env, ic },
        },
    }
}

/// A mode step where there is a keyword.
pub open spec fn optional_mode_step(
    env: TyEnv,
    ic: Ic,
    mode: Option<HirCallMode>,
    expr: HirExpr,
    span: Span,
) -> Step {
    match mode {
        Some(mode) => mode_step(env, ic, mode, expr, span),
        None => Step { env, ic },
    }
}

/// Apply the mode keyword of a call argument.
pub fn apply_call_mode_transition(env: &mut TyEnv, arg: &HirCallArg, ic: &mut InferCx<'_>)
    ensures
        step(*final(env), final(ic)@) == optional_mode_step(
            *old(env),
            old(ic)@,
            arg.mode,
            arg.expr,
            arg.span,
        ),
        final(env).frames() == old(env).frames(),
        kept(old(ic)@, final(ic)@),
{
    match arg.mode {
        Some(mode) => {
            apply_mode_transition(env, mode, &arg.expr, arg.span, ic);
        },
        None => {},
    }
}

/// Apply a mode keyword to a place.
pub fn apply_mode_transition(
    env: &mut TyEnv,
    mode: HirCallMode,
    expr: &HirExpr,
    span: Span,
    ic: &mut InferCx<'_>,
)
    ensures
        step(*final(env), final(ic)@) == mode_step(
            *old(env),
            old(ic)@,
            mode,
            *expr,
            span,
        ),
        final(env).frames() == old(env).frames(),
        kept(old(ic)@, final(ic)@),
{
    proof {
        reveal(mode_step);
    }
    match field_projection_binding(expr) {
        Some((binding, field)) => {
            apply_field_mode_transition(env, span, binding, field, mode, ic);
            return;
        },
        None => {},
    }
    let sym = match path_binding(expr) {
        Some(sym) => sym,
        None => {
            return;
        },
    };
    if reject_immutable_borrow(env, ic, span, mode, sym, None) {
        return;
    }
    let state = match env.lookup_state(sym) {
        Some(state) => state,
        None => {
            return;
        },
    };
    let (required, post) = match mode {
        HirCallMode::Mutable => (StateWord::Valid, BindingState::Valid),
        HirCallMode::Take => (StateWord::Valid, BindingState::Consumed),
        HirCallMode::Init => (StateWord::Uninit, BindingState::Valid),
    };
    if state.state_word() != required {
        ic.emit_typecheck_error(
            span,
            Message::ModeRequires { mode, name: sym, required, actual: state.state_word() },
        );
        return;
    }
    env.transition(sym, post);
}

/// Apply the mode keyword of a struct-literal field.
pub fn apply_struct_field_mode_transition(
    env: &mut TyEnv,
    field: &HirStructLitField,
    ic: &mut InferCx<'_>,
)
    ensures
        step(*final(env), final(ic)@) == optional_mode_step(
            *old(env),
            old(ic)@,
            field.mode,
            field.value,
            field.span,
        ),
        final(env).frames() == old(env).frames(),
        kept(old(ic)@, final(ic)@),
{
    match field.mode {
        Some(mode) => {
            apply_mode_transition(env, mode, &field.value, field.span, ic);
        },
        None => {},
    }
}

fn apply_field_mode_transition(
    env: &mut TyEnv,
    span: Span,
    binding: Symbol,
    field: Symbol,
    mode: HirCallMode,
    ic: &mut InferCx<'_>,
)
    ensures
        step(*final(env), final(ic)@) == field_step(
            *old(env),
            old(ic)@,
            mode,
            binding,
            field,
            span,
        ),
        final(env).frames() == old(env).frames(),
        kept(old(ic)@, final(ic)@),
{
    let binding_state = match env.lookup_state(binding) {
        Some(state) => state,
        None => {
            return;
        },
    };
    if reject_immutable_borrow(env, ic, span, mode, binding, Some(field)) {
        return;
    }
    let binding_ty = match env.lookup(binding) {
        Some(ty) => ty,
        None => {
            return;
        },
    };
    let full_set = match type_field_set(binding_ty, ic) {
        Some(set) => set,
        None => {
            return;
        },
    };
    if !full_set.contains(field) {
        return;
    }
    let pre_field = binding_state.field_state(field);
    match mode {
        HirCallMode::Init => {
            if pre_field.is_readable() {
                ic.emit_typecheck_error(
                    span,
                    Message::FieldInitRequires { binding, field, actual: pre_field.state_word() },
                );
            } else {
                apply_field_state_transition(env, binding, field, true, &full_set);
            }
        },
        HirCallMode::Mutable | HirCallMode::Take => {
            if !pre_field.is_readable() {
                ic.emit_typecheck_error(
                    span,
                    Message::FieldModeRequires {
                        mode,
                        binding,
                        field,
                        actual: pre_field.state_word(),
                    },
                );
            } else {
                apply_field_state_transition(
                    env,
                    binding,
                    field,
                    mode == HirCallMode::Mutable,
                    &full_set,
                );
            }
        },
    }
}

fn apply_field_state_transition(
    env: &mut TyEnv,
    binding: Symbol,
    field: Symbol,
    valid: bool,
    full_set: &FieldSet,
)
    ensures
        *final(env) == member_step(*old(env), binding, field, valid, *full_set),
        final(env).frames() == old(env).frames(),
{
    let current = match env.lookup_state(binding) {
        Some(state) => state,
        None => {
            return;
        },
    };
    let mut valid_set = match &current {
        BindingState::Valid => full_set.dup(),
        BindingState::Uninit | BindingState::Consumed => FieldSet::new(),
        BindingState::PartialInit(f) => f.dup(),
    };
    if valid {
        valid_set.insert(field);
    } else {
        valid_set.remove(field);
    }
    let new_state = if valid_set.same(full_set) {
        BindingState::Valid
    } else if valid_set.is_empty() {
        BindingState::Uninit
    } else {
        BindingState::PartialInit(valid_set)
    };
    env.transition(binding, new_state);
}

/// An assignment to a member makes it valid; nothing happens where the binding
/// is unknown or has no such member.
#[verifier::opaque]
pub open spec fn assign_step(env: TyEnv, ic: Ic, binding: Symbol, member: Symbol) -> Step {
    match env.find(binding) {
        None => Step { env, ic },
        Some(bound) => {
            let (after, all) = members(ic, bound.ty);
            match all {
                Some(all) if names_has(all.items, member) => Step {
                    env: member_step(env, binding, member, true, all),
                    ic: after,
                },
                _ => Step { env, ic: after },
            }
        },
    }
}

/// Record an assignment to a member.
pub fn apply_field_assign_transition(
    env: &mut TyEnv,
    binding: Symbol,
    field: Symbol,
    ic: &mut InferCx<'_>,
) -> (r: bool)
    ensures
        step(*final(env), final(ic)@) == assign_step(
            *old(env),
            old(ic)@,
            binding,
            field,
        ),
        r == (match old(env).find(binding) {
            Some(bound) => match members(old(ic)@, bound.ty).1 {
                Some(all) => names_has(all.items, field),
                None => false,
            },
            None => false,
        }),
        final(env).frames() == old(env).frames(),
        kept(old(ic)@, final(ic)@),
{
    proof {
        reveal(assign_step);
    }
    let binding_ty = match env.lookup(binding) {
        Some(ty) => ty,
        None => {
            return false;
        },
    };
    let full_set = match type_field_set(binding_ty, ic) {
        Some(set) => set,
        None => {
            return false;
        },
    };
    if !full_set.contains(field) {
        return false;
    }
    apply_field_state_transition(env, binding, field, true, &full_set);
    true
}

/// Report each binding of `frame` whose state is not the state that it had
/// before the loop, unless its name was reported already.
pub open spec fn reentry_frame(
    frame: List<Bound>,
    pre: TyEnv,
    ic: Ic,
    reported: List<Symbol>,
    span: Span,
) -> (Ic, List<Symbol>)
    decreases frame,
{
    match frame {
        List::Nil => (ic, reported),
        List::Cons(b, rest) => match pre.state_of(b.name) {
            Some(before) if !names_has(reported, b.name) && before@ != b.state@ => reentry_frame(
                *rest,
                pre,
                ic.error(
                    span,
                    Message::LoopChangesState {
                        name: b.name,
                        before: before.word(),
                        after: b.state.word(),
                    },
                ),
                List::Cons(Box::new(b.name), Box::new(reported)),
                span,
            ),
            _ => reentry_frame(*rest, pre, ic, reported, span),
        },
    }
}

/// Report over all frames, from the inside out.
pub open spec fn reentry_frames(
    frames: List<List<Bound>>,
    pre: TyEnv,
    ic: Ic,
    reported: List<Symbol>,
    span: Span,
) -> Ic
    decreases frames,
{
    match frames {
        List::Nil => ic,
        List::Cons(frame, rest) => {
            let (after, seen) = reentry_frame(*frame, pre, ic, reported, span);
            reentry_frames(*rest, pre, after, seen, span)
        },
    }
}

/// A loop body must leave every outer binding in the state in which it found
/// it.
#[verifier::opaque]
pub open spec fn reentry(post: TyEnv, pre: TyEnv, ic: Ic, span: Span) -> Ic {
    let (after, seen) = reentry_frame(post.top, pre, ic, List::Nil, span);
    reentry_frames(post.outer, pre, after, seen, span)
}

fn reenter_frame(
    frame: &List<Bound>,
    pre: &TyEnv,
    ic: &mut InferCx<'_>,
    reported: List<Symbol>,
    span: Span,
) -> (r: List<Symbol>)
    ensures
        (final(ic)@, r) == reentry_frame(*frame, *pre, old(ic)@, reported, span),
        kept(old(ic)@, final(ic)@),
    decreases frame,
{
    match frame {
        List::Nil => reported,
        List::Cons(b, rest) => {
            let mut reported = reported;
            if !has_name(&reported, b.name) {
                match pre.lookup_state(b.name) {
                    Some(before) => {
                        if !before.same(&b.state) {
                            ic.emit_typecheck_error(
                                span,
                                Message::LoopChangesState {
                                    name: b.name,
                                    before: before.state_word(),
                                    after: b.state.state_word(),
                                },
                            );
                            reported = List::cons(b.name, reported);
                        }
                    },
                    None => {},
                }
            }
            reenter_frame(rest, pre, ic, reported, span)
        },
    }
}

fn reenter_frames(
    frames: &List<List<Bound>>,
    pre: &TyEnv,
    ic: &mut InferCx<'_>,
    reported: List<Symbol>,
    span: Span,
)
    ensures
        final(ic)@ == reentry_frames(*frames, *pre, old(ic)@, reported, span),
        kept(old(ic)@, final(ic)@),
    decreases frames,
{
    match frames {
        List::Nil => {},
        List::Cons(frame, rest) => {
            let seen = reenter_frame(frame, pre, ic, reported, span);
            reenter_frames(rest, pre, ic, seen, span);
        },
    }
}

/// Report the outer bindings whose state a loop body changed.
pub fn check_loop_reentry(post: &TyEnv, pre: &TyEnv, ic: &mut InferCx<'_>, span: Span)
    ensures
        final(ic)@ == reentry(*post, *pre, old(ic)@, span),
        kept(old(ic)@, final(ic)@),
{
    proof {
        reveal(reentry);
    }
    let seen = reenter_frame(&post.top, pre, ic, List::Nil, span);
    reenter_frames(&post.outer, pre, ic, seen, span);
}

} // verus!
