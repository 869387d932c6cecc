//! Laws of the environment.

use vstd::prelude::*;

use super::env::{
    frame_distinct, frame_find, frame_flags, frame_frozen, frame_join, frame_put, frame_set,
    frame_thawed, frames_distinct, frames_find, frames_flags, frames_frozen, frames_join,
    frames_set, frames_thawed, saved_for, Bound, SavedFlag, TyEnv,
};
use super::mode::lattice::BindingState;
use crate::intern::Symbol;
use crate::list::List;
use crate::ty::TyId;

verus! {

proof fn lemma_put(frame: List<Bound>, bound: Bound, name: Symbol)
    ensures
        frame_find(frame_put(frame, bound), name) == (if name == bound.name {
            Some(bound)
        } else {
            frame_find(frame, name)
        }),
        frame_distinct(frame) ==> frame_distinct(frame_put(frame, bound)),
    decreases frame,
{
    match frame {
        List::Nil => {
            reveal_with_fuel(frame_find, 2);
            reveal_with_fuel(frame_distinct, 2);
        },
        List::Cons(b, rest) => {
            lemma_put(*rest, bound, name);
            lemma_put(*rest, bound, b.name);
        },
    }
}

proof fn lemma_set(frame: List<Bound>, name: Symbol, state: BindingState, other: Symbol)
    ensures
        frame_find(frame_set(frame, name, state), other) == (match frame_find(frame, other) {
            Some(b) => Some(
                if other == name {
                    Bound { state, ..b }
                } else {
                    b
                },
            ),
            None => None,
        }),
        frame_distinct(frame) ==> frame_distinct(frame_set(frame, name, state)),
    decreases frame,
{
    match frame {
        List::Nil => {},
        List::Cons(b, rest) => {
            lemma_set(*rest, name, state, other);
            lemma_set(*rest, name, state, b.name);
        },
    }
}

proof fn lemma_sets(frames: List<List<Bound>>, name: Symbol, state: BindingState, other: Symbol)
    ensures
        frames_find(frames_set(frames, name, state), other) == (match frames_find(frames, other) {
            Some(b) => Some(
                if other == name {
                    Bound { state, ..b }
                } else {
                    b
                },
            ),
            None => None,
        }),
        frames_distinct(frames) ==> frames_distinct(frames_set(frames, name, state)),
    decreases frames,
{
    match frames {
        List::Nil => {},
        List::Cons(frame, rest) => {
            lemma_set(*frame, name, state, other);
            lemma_sets(*rest, name, state, other);
        },
    }
}

/// Opening a scope changes no binding, and closing it gives the environment
/// back, whatever was bound inside.
pub proof fn law_scope(env: TyEnv, bound: Bound, name: Symbol)
    ensures
        env.entered().find(name) == env.find(name),
        env.entered().exited() == env,
        env.entered().with(bound).exited() == env,
{
    reveal_with_fuel(frame_find, 2);
}

/// A new binding is found under its name and hides no other name.
pub proof fn law_bind(env: TyEnv, bound: Bound, name: Symbol)
    ensures
        env.with(bound).find(name) == (if name == bound.name {
            Some(bound)
        } else {
            env.find(name)
        }),
{
    lemma_put(env.top, bound, name);
}

/// A transition changes the state of the innermost binding of its name and
/// nothing else.
pub proof fn law_transition(env: TyEnv, name: Symbol, state: BindingState, other: Symbol)
    ensures
        env.moved(name, state).find(other) == (match env.find(other) {
            Some(b) => Some(
                if other == name {
                    Bound { state, ..b }
                } else {
                    b
                },
            ),
            None => None,
        }),
{
    lemma_set(env.top, name, state, other);
    lemma_sets(env.outer, name, state, other);
}

proof fn lemma_frozen(frame: List<Bound>, name: Symbol)
    ensures
        frame_find(frame_frozen(frame), name) == (match frame_find(frame, name) {
            Some(b) => Some(Bound { mutable: false, ..b }),
            None => None,
        }),
        frame_distinct(frame) ==> frame_distinct(frame_frozen(frame)),
    decreases frame,
{
    match frame {
        List::Nil => {},
        List::Cons(b, rest) => {
            lemma_frozen(*rest, name);
            lemma_frozen(*rest, b.name);
        },
    }
}

proof fn lemma_frozen_frames(frames: List<List<Bound>>, name: Symbol)
    ensures
        frames_find(frames_frozen(frames), name) == (match frames_find(frames, name) {
            Some(b) => Some(Bound { mutable: false, ..b }),
            None => None,
        }),
        frames_distinct(frames) ==> frames_distinct(frames_frozen(frames)),
    decreases frames,
{
    match frames {
        List::Nil => {},
        List::Cons(frame, rest) => {
            lemma_frozen(*frame, name);
            lemma_frozen_frames(*rest, name);
        },
    }
}

/// Restricting mutability makes every binding immutable and keeps its type and
/// state: no binding of the enclosing scopes can be borrowed for writing.
pub proof fn law_restrict(env: TyEnv, name: Symbol)
    ensures
        env.frozen().find(name) == (match env.find(name) {
            Some(b) => Some(Bound { mutable: false, ..b }),
            None => None,
        }),
        env.frozen().entered().mutable_of(name) == (match env.find(name) {
            Some(_) => Some(false),
            None => None,
        }),
{
    lemma_frozen(env.top, name);
    lemma_frozen_frames(env.outer, name);
    law_scope(env.frozen(), Bound { name, ty: TyId::Error, state: BindingState::Valid, mutable: true }, name);
}

/// Flags saved in front of those of a frame do not hide them.
proof fn lemma_thaw(frame: List<Bound>, saved: List<SavedFlag>)
    requires
        forall|name: Symbol| #[trigger]
            frame_find(frame, name) is Some ==> saved_for(saved, name) == Some(
                frame_find(frame, name)->0.mutable,
            ),
        frame_distinct(frame),
    ensures
        frame_thawed(frame_frozen(frame), saved) == frame,
    decreases frame,
{
    match frame {
        List::Nil => {},
        List::Cons(b, rest) => {
            assert(frame_find(frame, b.name) == Some(*b));
            assert forall|name: Symbol| #[trigger] frame_find(*rest, name) is Some implies saved_for(
                saved,
                name,
            ) == Some(frame_find(*rest, name)->0.mutable) by {
                assert(name != b.name);
                assert(frame_find(frame, name) == frame_find(*rest, name));
            }
            lemma_thaw(*rest, saved);
        },
    }
}

proof fn lemma_flags(frame: List<Bound>, name: Symbol)
    ensures
        saved_for(frame_flags(frame), name) == (match frame_find(frame, name) {
            Some(b) => Some(b.mutable),
            None => None,
        }),
    decreases frame,
{
    match frame {
        List::Nil => {},
        List::Cons(b, rest) => {
            lemma_flags(*rest, name);
        },
    }
}

proof fn lemma_thaw_frame(frame: List<Bound>)
    requires
        frame_distinct(frame),
    ensures
        frame_thawed(frame_frozen(frame), frame_flags(frame)) == frame,
{
    assert forall|name: Symbol| #[trigger] frame_find(frame, name) is Some implies saved_for(
        frame_flags(frame),
        name,
    ) == Some(frame_find(frame, name)->0.mutable) by {
        lemma_flags(frame, name);
    }
    lemma_thaw(frame, frame_flags(frame));
}

proof fn lemma_thaw_frames(frames: List<List<Bound>>)
    requires
        frames_distinct(frames),
    ensures
        frames_thawed(frames_frozen(frames), frames_flags(frames)) == frames,
    decreases frames,
{
    match frames {
        List::Nil => {},
        List::Cons(frame, rest) => {
            lemma_thaw_frame(*frame);
            lemma_thaw_frames(*rest);
        },
    }
}

/// Restoring mutability undoes restricting it.
pub proof fn law_restore(env: TyEnv)
    requires
        env.well_formed(),
    ensures
        env.frozen().thawed(env.flags()) == env,
{
    lemma_thaw_frame(env.top);
    lemma_thaw_frames(env.outer);
}

proof fn lemma_set_frozen(frame: List<Bound>, name: Symbol, state: BindingState)
    ensures
        frame_set(frame_frozen(frame), name, state) == frame_frozen(frame_set(frame, name, state)),
        frame_flags(frame_set(frame, name, state)) == frame_flags(frame),
    decreases frame,
{
    match frame {
        List::Nil => {},
        List::Cons(b, rest) => {
            lemma_set_frozen(*rest, name, state);
        },
    }
}

proof fn lemma_sets_frozen(frames: List<List<Bound>>, name: Symbol, state: BindingState)
    ensures
        frames_set(frames_frozen(frames), name, state) == frames_frozen(
            frames_set(frames, name, state),
        ),
        frames_flags(frames_set(frames, name, state)) == frames_flags(frames),
    decreases frames,
{
    match frames {
        List::Nil => {},
        List::Cons(frame, rest) => {
            lemma_frozen(*frame, name);
            lemma_set_frozen(*frame, name, state);
            lemma_sets_frozen(*rest, name, state);
        },
    }
}

/// Transitions made while mutability is restricted outlive its restoration.
pub proof fn law_restore_after_transition(env: TyEnv, name: Symbol, state: BindingState)
    requires
        env.well_formed(),
    ensures
        env.frozen().moved(name, state).thawed(env.flags()) == env.moved(name, state),
{
    let after = env.moved(name, state);
    lemma_frozen(env.top, name);
    lemma_set_frozen(env.top, name, state);
    lemma_sets_frozen(env.outer, name, state);
    assert(env.frozen().moved(name, state) == after.frozen());
    assert(env.flags() == after.flags());
    lemma_set(env.top, name, state, name);
    lemma_sets(env.outer, name, state, name);
    law_restore(after);
}

/// Whether two frames bind the same names in the same order.
pub open spec fn frame_aligned(a: List<Bound>, b: List<Bound>) -> bool
    decreases a,
{
    match (a, b) {
        (List::Nil, List::Nil) => true,
        (List::Cons(x, s), List::Cons(y, t)) => x.name == y.name && frame_aligned(*s, *t),
        _ => false,
    }
}

/// Whether frames bind the same names pairwise.
pub open spec fn frames_aligned(a: List<List<Bound>>, b: List<List<Bound>>) -> bool
    decreases a,
{
    match (a, b) {
        (List::Nil, List::Nil) => true,
        (List::Cons(x, s), List::Cons(y, t)) => frame_aligned(*x, *y) && frames_aligned(*s, *t),
        _ => false,
    }
}

/// Whether two environments bind the same names in the same frames.
pub open spec fn aligned(a: TyEnv, b: TyEnv) -> bool {
    frame_aligned(a.top, b.top) && frames_aligned(a.outer, b.outer)
}

proof fn lemma_aligned(a: List<Bound>, b: List<Bound>, name: Symbol)
    requires
        frame_aligned(a, b),
    ensures
        frame_find(a, name) is Some <==> frame_find(b, name) is Some,
    decreases a,
{
    match (a, b) {
        (List::Cons(x, s), List::Cons(y, t)) => {
            lemma_aligned(*s, *t, name);
        },
        _ => {},
    }
}

/// What a join holds under a name, where `other` is what is joined in.
pub open spec fn join_of(b: Option<Bound>, other: Option<Bound>) -> Option<Bound> {
    match (b, other) {
        (Some(b), Some(o)) => Some(Bound { state: b.state.joined(o.state), ..b }),
        (b, _) => b,
    }
}

proof fn lemma_join(frame: List<Bound>, other: List<Bound>, name: Symbol)
    ensures
        frame_find(frame_join(frame, other), name) == join_of(
            frame_find(frame, name),
            frame_find(other, name),
        ),
        frame_distinct(frame) ==> frame_distinct(frame_join(frame, other)),
    decreases frame,
{
    match frame {
        List::Nil => {},
        List::Cons(b, rest) => {
            lemma_join(*rest, other, name);
            lemma_join(*rest, other, b.name);
        },
    }
}

proof fn lemma_joins(frames: List<List<Bound>>, others: List<List<Bound>>, name: Symbol)
    requires
        frames_aligned(frames, others),
    ensures
        frames_find(frames_join(frames, others), name) == join_of(
            frames_find(frames, name),
            frames_find(others, name),
        ),
    decreases frames,
{
    match (frames, others) {
        (List::Cons(f, rest), List::Cons(o, more)) => {
            lemma_join(*f, *o, name);
            lemma_aligned(*f, *o, name);
            lemma_joins(*rest, *more, name);
        },
        _ => {},
    }
}

/// Joining two paths gives each binding the greatest lower bound of its states
/// on the paths, and keeps its type and mutability.
pub proof fn law_join(a: TyEnv, b: TyEnv, name: Symbol)
    requires
        aligned(a, b),
    ensures
        a.joined(b).state_of(name) == (match (a.state_of(name), b.state_of(name)) {
            (Some(s), Some(t)) => Some(s.joined(t)),
            _ => None,
        }),
        a.joined(b).ty_of(name) == a.ty_of(name),
        a.joined(b).mutable_of(name) == a.mutable_of(name),
{
    lemma_join(a.top, b.top, name);
    lemma_aligned(a.top, b.top, name);
    lemma_joins(a.outer, b.outer, name);
    lemma_aligned_frames(a.outer, b.outer, name);
}

proof fn lemma_aligned_frames(a: List<List<Bound>>, b: List<List<Bound>>, name: Symbol)
    requires
        frames_aligned(a, b),
    ensures
        frames_find(a, name) is Some <==> frames_find(b, name) is Some,
    decreases a,
{
    match (a, b) {
        (List::Cons(x, s), List::Cons(y, t)) => {
            lemma_aligned(*x, *y, name);
            lemma_aligned_frames(*s, *t, name);
        },
        _ => {},
    }
}

proof fn lemma_joins_distinct(frames: List<List<Bound>>, others: List<List<Bound>>)
    requires
        frames_distinct(frames),
    ensures
        frames_distinct(frames_join(frames, others)),
    decreases frames,
{
    match (frames, others) {
        (List::Cons(f, rest), List::Cons(o, more)) => {
            lemma_join(*f, *o, Symbol(0));
            lemma_joins_distinct(*rest, *more);
        },
        _ => {},
    }
}

proof fn lemma_thawed_distinct(frame: List<Bound>, saved: List<SavedFlag>, name: Symbol)
    ensures
        frame_find(frame_thawed(frame, saved), name) is Some <==> frame_find(frame, name) is Some,
        frame_distinct(frame) ==> frame_distinct(frame_thawed(frame, saved)),
    decreases frame,
{
    match frame {
        List::Nil => {},
        List::Cons(b, rest) => {
            lemma_thawed_distinct(*rest, saved, name);
            lemma_thawed_distinct(*rest, saved, b.name);
        },
    }
}

proof fn lemma_thawed_frames_distinct(frames: List<List<Bound>>, saved: List<List<SavedFlag>>)
    requires
        frames_distinct(frames),
    ensures
        frames_distinct(frames_thawed(frames, saved)),
    decreases frames,
{
    match (frames, saved) {
        (List::Cons(f, rest), List::Cons(s, more)) => {
            lemma_thawed_distinct(*f, *s, Symbol(0));
            lemma_thawed_frames_distinct(*rest, *more);
        },
        _ => {},
    }
}

/// Every operation keeps each name bound at most once in a frame.
pub proof fn law_well_formed(env: TyEnv, other: TyEnv, bound: Bound, state: BindingState)
    requires
        env.well_formed(),
    ensures
        TyEnv::fresh().well_formed(),
        env.entered().well_formed(),
        env.exited().well_formed(),
        env.with(bound).well_formed(),
        env.moved(bound.name, state).well_formed(),
        env.joined(other).well_formed(),
        env.frozen().well_formed(),
        env.thawed(other.flags()).well_formed(),
{
    reveal_with_fuel(frame_distinct, 2);
    lemma_put(env.top, bound, bound.name);
    lemma_set(env.top, bound.name, state, bound.name);
    lemma_sets(env.outer, bound.name, state, bound.name);
    lemma_join(env.top, other.top, bound.name);
    lemma_joins_distinct(env.outer, other.outer);
    lemma_frozen(env.top, bound.name);
    lemma_frozen_frames(env.outer, bound.name);
    lemma_thawed_distinct(env.top, other.flags().top, bound.name);
    lemma_thawed_frames_distinct(env.outer, other.flags().outer);
}

} // verus!
