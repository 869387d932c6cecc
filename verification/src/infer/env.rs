//! The lexical environment of types and states.

use vstd::prelude::*;

use super::mode::lattice::BindingState;
use crate::intern::Symbol;
use crate::list::List;
use crate::ty::TyId;

verus! {

/// A bound name.
#[derive(Debug)]
pub struct Bound {
    /// The name.
    pub name: Symbol,
    /// Its type.
    pub ty: TyId,
    /// Its state.
    pub state: BindingState,
    /// Whether it may be borrowed for writing.
    pub mutable: bool,
}

/// What `name` is bound to in a frame.
pub open spec fn frame_find(frame: List<Bound>, name: Symbol) -> Option<Bound>
    decreases frame,
{
    match frame {
        List::Nil => None,
        List::Cons(b, rest) => if b.name == name {
            Some(*b)
        } else {
            frame_find(*rest, name)
        },
    }
}

/// What `name` is bound to in the innermost of `frames` that binds it.
pub open spec fn frames_find(frames: List<List<Bound>>, name: Symbol) -> Option<Bound>
    decreases frames,
{
    match frames {
        List::Nil => None,
        List::Cons(frame, rest) => match frame_find(*frame, name) {
            Some(b) => Some(b),
            None => frames_find(*rest, name),
        },
    }
}

/// A frame with `bound` in place of the binding of the same name, or behind
/// the other bindings where there is none.
pub open spec fn frame_put(frame: List<Bound>, bound: Bound) -> List<Bound>
    decreases frame,
{
    match frame {
        List::Nil => List::Cons(Box::new(bound), Box::new(List::Nil)),
        List::Cons(b, rest) => if b.name == bound.name {
            List::Cons(Box::new(bound), rest)
        } else {
            List::Cons(b, Box::new(frame_put(*rest, bound)))
        },
    }
}

/// A frame with the state of `name` replaced.
pub open spec fn frame_set(frame: List<Bound>, name: Symbol, state: BindingState) -> List<Bound>
    decreases frame,
{
    match frame {
        List::Nil => List::Nil,
        List::Cons(b, rest) => if b.name == name {
            List::Cons(Box::new(Bound { state, ..*b }), rest)
        } else {
            List::Cons(b, Box::new(frame_set(*rest, name, state)))
        },
    }
}

/// The frames with the state of `name` replaced where it is bound innermost.
pub open spec fn frames_set(
    frames: List<List<Bound>>,
    name: Symbol,
    state: BindingState,
) -> List<List<Bound>>
    decreases frames,
{
    match frames {
        List::Nil => List::Nil,
        List::Cons(frame, rest) => if frame_find(*frame, name) is Some {
            List::Cons(Box::new(frame_set(*frame, name, state)), rest)
        } else {
            List::Cons(frame, Box::new(frames_set(*rest, name, state)))
        },
    }
}

/// A frame with each state joined with the state of the same name in `other`.
pub open spec fn frame_join(frame: List<Bound>, other: List<Bound>) -> List<Bound>
    decreases frame,
{
    match frame {
        List::Nil => List::Nil,
        List::Cons(b, rest) => {
            let head = match frame_find(other, b.name) {
                Some(o) => Bound { state: b.state.joined(o.state), ..*b },
                None => *b,
            };
            List::Cons(Box::new(head), Box::new(frame_join(*rest, other)))
        },
    }
}

/// The frames joined pairwise.
pub open spec fn frames_join(frames: List<List<Bound>>, others: List<List<Bound>>) -> List<
    List<Bound>,
>
    decreases frames,
{
    match (frames, others) {
        (List::Cons(f, rest), List::Cons(o, more)) => List::Cons(
            Box::new(frame_join(*f, *o)),
            Box::new(frames_join(*rest, *more)),
        ),
        _ => frames,
    }
}

/// Saved mutability of one binding.
#[derive(Copy, Clone, Debug, PartialEq, Eq, Structural)]
pub struct SavedFlag {
    /// The name.
    pub name: Symbol,
    /// Whether it was mutable.
    pub mutable: bool,
}

/// The flag saved first for `name`.
pub open spec fn saved_for(saved: List<SavedFlag>, name: Symbol) -> Option<bool>
    decreases saved,
{
    match saved {
        List::Nil => None,
        List::Cons(s, rest) => if s.name == name {
            Some(s.mutable)
        } else {
            saved_for(*rest, name)
        },
    }
}

/// The flags of a frame.
pub open spec fn frame_flags(frame: List<Bound>) -> List<SavedFlag>
    decreases frame,
{
    match frame {
        List::Nil => List::Nil,
        List::Cons(b, rest) => List::Cons(
            Box::new(SavedFlag { name: b.name, mutable: b.mutable }),
            Box::new(frame_flags(*rest)),
        ),
    }
}

/// The flags of each frame.
pub open spec fn frames_flags(frames: List<List<Bound>>) -> List<List<SavedFlag>>
    decreases frames,
{
    match frames {
        List::Nil => List::Nil,
        List::Cons(f, rest) => List::Cons(
            Box::new(frame_flags(*f)),
            Box::new(frames_flags(*rest)),
        ),
    }
}

/// A frame with every binding immutable.
pub open spec fn frame_frozen(frame: List<Bound>) -> List<Bound>
    decreases frame,
{
    match frame {
        List::Nil => List::Nil,
        List::Cons(b, rest) => List::Cons(
            Box::new(Bound { mutable: false, ..*b }),
            Box::new(frame_frozen(*rest)),
        ),
    }
}

/// The frames with every binding immutable.
pub open spec fn frames_frozen(frames: List<List<Bound>>) -> List<List<Bound>>
    decreases frames,
{
    match frames {
        List::Nil => List::Nil,
        List::Cons(f, rest) => List::Cons(
            Box::new(frame_frozen(*f)),
            Box::new(frames_frozen(*rest)),
        ),
    }
}

/// A frame with the saved flags put back.
pub open spec fn frame_thawed(frame: List<Bound>, saved: List<SavedFlag>) -> List<Bound>
    decreases frame,
{
    match frame {
        List::Nil => List::Nil,
        List::Cons(b, rest) => {
            let head = match saved_for(saved, b.name) {
                Some(mutable) => Bound { mutable, ..*b },
                None => *b,
            };
            List::Cons(Box::new(head), Box::new(frame_thawed(*rest, saved)))
        },
    }
}

/// The frames with the saved flags put back.
pub open spec fn frames_thawed(frames: List<List<Bound>>, saved: List<List<SavedFlag>>) -> List<
    List<Bound>,
>
    decreases frames,
{
    match (frames, saved) {
        (List::Cons(f, rest), List::Cons(s, more)) => List::Cons(
            Box::new(frame_thawed(*f, *s)),
            Box::new(frames_thawed(*rest, *more)),
        ),
        _ => frames,
    }
}

/// Whether no name of the frame occurs twice.
pub open spec fn frame_distinct(frame: List<Bound>) -> bool
    decreases frame,
{
    match frame {
        List::Nil => true,
        List::Cons(b, rest) => frame_find(*rest, b.name) is None && frame_distinct(*rest),
    }
}

/// Whether no frame binds a name twice.
pub open spec fn frames_distinct(frames: List<List<Bound>>) -> bool
    decreases frames,
{
    match frames {
        List::Nil => true,
        List::Cons(f, rest) => frame_distinct(*f) && frames_distinct(*rest),
    }
}

/// Saved mutability of the bindings of every open frame.
#[derive(Debug)]
pub struct MutabilitySnapshot {
    /// Of the innermost frame.
    pub top: List<SavedFlag>,
    /// Of the other frames, from the inside out.
    pub outer: List<List<SavedFlag>>,
}

/// The lexical environment: a stack of frames that is never empty.
#[derive(Debug)]
pub struct TyEnv {
    /// The innermost frame.
    pub top: List<Bound>,
    /// The other frames, from the inside out.
    pub outer: List<List<Bound>>,
}

impl TyEnv {
    /// One frame without bindings.
    pub open spec fn fresh() -> TyEnv {
        TyEnv { top: List::Nil, outer: List::Nil }
    }

    /// Number of open frames.
    pub open spec fn frames(self) -> nat {
        1 + self.outer.count()
    }

    /// Whether no frame binds a name twice.
    pub open spec fn well_formed(self) -> bool {
        frame_distinct(self.top) && frames_distinct(self.outer)
    }

    /// What `name` is bound to innermost.
    pub open spec fn find(self, name: Symbol) -> Option<Bound> {
        match frame_find(self.top, name) {
            Some(b) => Some(b),
            None => frames_find(self.outer, name),
        }
    }

    /// The type of `name`.
    pub open spec fn ty_of(self, name: Symbol) -> Option<TyId> {
        match self.find(name) {
            Some(b) => Some(b.ty),
            None => None,
        }
    }

    /// The state of `name`.
    pub open spec fn state_of(self, name: Symbol) -> Option<BindingState> {
        match self.find(name) {
            Some(b) => Some(b.state),
            None => None,
        }
    }

    /// Whether `name` may be borrowed for writing.
    pub open spec fn mutable_of(self, name: Symbol) -> Option<bool> {
        match self.find(name) {
            Some(b) => Some(b.mutable),
            None => None,
        }
    }

    /// With a new innermost frame.
    pub open spec fn entered(self) -> TyEnv {
        TyEnv { top: List::Nil, outer: List::Cons(Box::new(self.top), Box::new(self.outer)) }
    }

    /// Without the innermost frame.
    pub open spec fn exited(self) -> TyEnv {
        match self.outer {
            List::Nil => self,
            List::Cons(frame, rest) => TyEnv { top: *frame, outer: *rest },
        }
    }

    /// With `bound` in the innermost frame.
    pub open spec fn with(self, bound: Bound) -> TyEnv {
        TyEnv { top: frame_put(self.top, bound), outer: self.outer }
    }

    /// With `name` bound to `ty` as a valid, mutable binding.
    pub open spec fn with_valid(self, name: Symbol, ty: TyId) -> TyEnv {
        self.with(Bound { name, ty, state: BindingState::Valid, mutable: true })
    }

    /// With the state of `name` replaced.
    pub open spec fn moved(self, name: Symbol, state: BindingState) -> TyEnv {
        if frame_find(self.top, name) is Some {
            TyEnv { top: frame_set(self.top, name, state), outer: self.outer }
        } else {
            TyEnv { top: self.top, outer: frames_set(self.outer, name, state) }
        }
    }

    /// Joined with the states of `other`.
    pub open spec fn joined(self, other: TyEnv) -> TyEnv {
        TyEnv {
            top: frame_join(self.top, other.top),
            outer: frames_join(self.outer, other.outer),
        }
    }

    /// The mutability of every binding.
    pub open spec fn flags(self) -> MutabilitySnapshot {
        MutabilitySnapshot { top: frame_flags(self.top), outer: frames_flags(self.outer) }
    }

    /// With every binding immutable.
    pub open spec fn frozen(self) -> TyEnv {
        TyEnv { top: frame_frozen(self.top), outer: frames_frozen(self.outer) }
    }

    /// With saved flags put back.
    pub open spec fn thawed(self, saved: MutabilitySnapshot) -> TyEnv {
        TyEnv {
            top: frame_thawed(self.top, saved.top),
            outer: frames_thawed(self.outer, saved.outer),
        }
    }

    /// An environment with one open frame.
    pub fn new() -> (r: TyEnv)
        ensures
            r == TyEnv::fresh(),
            r.frames() == 1,
            r.well_formed(),
    {
        TyEnv { top: List::Nil, outer: List::Nil }
    }

    /// Open an inner frame.
    pub fn enter_scope(&mut self)
        ensures
            *final(self) == old(self).entered(),
            final(self).frames() == old(self).frames() + 1,
    {
        let mut top: List<Bound> = List::Nil;
        core::mem::swap(&mut top, &mut self.top);
        let mut outer: List<List<Bound>> = List::Nil;
        core::mem::swap(&mut outer, &mut self.outer);
        self.outer = List::Cons(Box::new(top), Box::new(outer));
    }

    /// Close the innermost frame.
    pub fn exit_scope(&mut self)
        requires
            old(self).frames() > 1,
        ensures
            *final(self) == old(self).exited(),
            final(self).frames() == old(self).frames() - 1,
    {
        let mut outer: List<List<Bound>> = List::Nil;
        core::mem::swap(&mut outer, &mut self.outer);
        match outer {
            List::Nil => {},
            List::Cons(frame, rest) => {
                self.top = *frame;
                self.outer = *rest;
            },
        }
    }

    /// Bind `name` in the innermost frame as a valid, mutable binding.
    pub fn bind(&mut self, name: Symbol, ty: TyId)
        ensures
            *final(self) == old(self).with_valid(name, ty),
            final(self).frames() == old(self).frames(),
    {
        self.bind_with_state_mut(name, ty, BindingState::Valid, true);
    }

    /// Bind `name` in the innermost frame as a mutable binding.
    pub fn bind_with_state(&mut self, name: Symbol, ty: TyId, state: BindingState)
        ensures
            *final(self) == old(self).with(Bound { name, ty, state, mutable: true }),
            final(self).frames() == old(self).frames(),
    {
        self.bind_with_state_mut(name, ty, state, true);
    }

    /// Bind `name` in the innermost frame.
    pub fn bind_with_state_mut(&mut self, name: Symbol, ty: TyId, state: BindingState, mutable: bool)
        ensures
            *final(self) == old(self).with(Bound { name, ty, state, mutable }),
            final(self).frames() == old(self).frames(),
    {
        put_in_frame(&mut self.top, Bound { name, ty, state, mutable });
    }

    /// The type of `name`.
    pub fn lookup(&self, name: Symbol) -> (r: Option<TyId>)
        ensures
            r == self.ty_of(name),
    {
        match self.lookup_info(name) {
            Some(b) => Some(b.ty),
            None => None,
        }
    }

    /// The state of `field` of `name`.
    pub fn lookup_field_state(&self, name: Symbol, field: Symbol) -> (r: Option<BindingState>)
        ensures
            r == (match self.state_of(name) {
                Some(s) => Some(s.of_field(field)),
                None => None,
            }),
    {
        match self.lookup_info(name) {
            Some(b) => Some(b.state.field_state(field)),
            None => None,
        }
    }

    /// The state of `name`.
    pub fn lookup_state(&self, name: Symbol) -> (r: Option<BindingState>)
        ensures
            r == self.state_of(name),
    {
        match self.lookup_info(name) {
            Some(b) => Some(b.state.dup()),
            None => None,
        }
    }

    /// Whether `name` may be borrowed for writing.
    pub fn lookup_mutable(&self, name: Symbol) -> (r: Option<bool>)
        ensures
            r == self.mutable_of(name),
    {
        match self.lookup_info(name) {
            Some(b) => Some(b.mutable),
            None => None,
        }
    }

    fn lookup_info(&self, name: Symbol) -> (r: Option<&Bound>)
        ensures
            match r {
                Some(b) => self.find(name) == Some(*b),
                None => self.find(name) is None,
            },
    {
        match find_in_frame(&self.top, name) {
            Some(b) => Some(b),
            None => find_in_frames(&self.outer, name),
        }
    }

    /// Replace the state of `name` where it is bound innermost; tells whether
    /// it is bound at all.
    pub fn transition(&mut self, name: Symbol, new_state: BindingState) -> (r: bool)
        ensures
            *final(self) == old(self).moved(name, new_state),
            r == (old(self).find(name) is Some),
            final(self).frames() == old(self).frames(),
    {
        if find_in_frame(&self.top, name).is_some() {
            set_in_frame(&mut self.top, name, new_state);
            true
        } else {
            set_in_frames(&mut self.outer, name, new_state)
        }
    }

    /// Join the states of `other` into this environment. A binding that only
    /// `other` has is dropped.
    pub fn merge_glb(&mut self, other: &TyEnv)
        requires
            old(self).frames() == other.frames(),
        ensures
            *final(self) == old(self).joined(*other),
            final(self).frames() == old(self).frames(),
    {
        join_frame(&mut self.top, &other.top);
        join_frames(&mut self.outer, &other.outer);
    }

    /// Number of open frames, saturating at `usize::MAX`.
    pub fn depth(&self) -> (r: usize)
        ensures
            r as nat == (if self.frames() <= usize::MAX {
                self.frames()
            } else {
                usize::MAX as nat
            }),
    {
        proof {
            lemma_count(self.outer);
        }
        let n: usize = self.outer.len();
        if n == usize::MAX {
            n
        } else {
            n + 1
        }
    }

    /// Make every binding immutable; gives what [`TyEnv::restore_mutability`]
    /// needs to undo it.
    pub fn restrict_mutability(&mut self) -> (r: MutabilitySnapshot)
        ensures
            r == old(self).flags(),
            *final(self) == old(self).frozen(),
            final(self).frames() == old(self).frames(),
            r.outer.count() == old(self).outer.count(),
    {
        let top = freeze_frame(&mut self.top);
        let outer = freeze_frames(&mut self.outer);
        MutabilitySnapshot { top, outer }
    }

    /// Put saved flags back.
    pub fn restore_mutability(&mut self, snapshot: MutabilitySnapshot)
        requires
            old(self).frames() == 1 + snapshot.outer.count(),
        ensures
            *final(self) == old(self).thawed(snapshot),
            final(self).frames() == old(self).frames(),
    {
        thaw_frame(&mut self.top, &snapshot.top);
        thaw_frames(&mut self.outer, &snapshot.outer);
    }

    /// A copy of the environment.
    pub fn dup(&self) -> (r: TyEnv)
        ensures
            r == *self,
    {
        TyEnv { top: dup_frame(&self.top), outer: dup_frames(&self.outer) }
    }
}

impl Default for TyEnv {
    fn default() -> (r: TyEnv)
        ensures
            r == TyEnv::fresh(),
    {
        TyEnv::new()
    }
}

proof fn lemma_count<T>(list: List<T>)
    ensures
        list.length() as nat == (if list.count() <= usize::MAX {
            list.count()
        } else {
            usize::MAX as nat
        }),
    decreases list,
{
    match list {
        List::Nil => {},
        List::Cons(_, tail) => {
            lemma_count(*tail);
        },
    }
}

/// What `name` is bound to in a frame.
pub fn find_in_frame(frame: &List<Bound>, name: Symbol) -> (r: Option<&Bound>)
    ensures
        match r {
            Some(b) => frame_find(*frame, name) == Some(*b),
            None => frame_find(*frame, name) is None,
        },
    decreases frame,
{
    match frame {
        List::Nil => None,
        List::Cons(b, rest) => if b.name == name {
            Some(&**b)
        } else {
            find_in_frame(rest, name)
        },
    }
}

fn find_in_frames(frames: &List<List<Bound>>, name: Symbol) -> (r: Option<&Bound>)
    ensures
        match r {
            Some(b) => frames_find(*frames, name) == Some(*b),
            None => frames_find(*frames, name) is None,
        },
    decreases frames,
{
    match frames {
        List::Nil => None,
        List::Cons(frame, rest) => match find_in_frame(frame, name) {
            Some(b) => Some(b),
            None => find_in_frames(rest, name),
        },
    }
}

fn put_in_frame(frame: &mut List<Bound>, bound: Bound)
    ensures
        *final(frame) == frame_put(*old(frame), bound),
    decreases *old(frame),
{
    match frame {
        List::Nil => {
            *frame = List::cons(bound, List::Nil);
        },
        List::Cons(b, rest) => {
            if b.name == bound.name {
                **b = bound;
            } else {
                put_in_frame(rest, bound);
            }
        },
    }
}

fn set_in_frame(frame: &mut List<Bound>, name: Symbol, state: BindingState)
    ensures
        *final(frame) == frame_set(*old(frame), name, state),
    decreases *old(frame),
{
    match frame {
        List::Nil => {},
        List::Cons(b, rest) => {
            if b.name == name {
                b.state = state;
            } else {
                set_in_frame(rest, name, state);
            }
        },
    }
}

fn set_in_frames(frames: &mut List<List<Bound>>, name: Symbol, state: BindingState) -> (r: bool)
    ensures
        *final(frames) == frames_set(*old(frames), name, state),
        r == (frames_find(*old(frames), name) is Some),
        final(frames).count() == old(frames).count(),
    decreases *old(frames),
{
    match frames {
        List::Nil => false,
        List::Cons(frame, rest) => {
            if find_in_frame(frame, name).is_some() {
                set_in_frame(frame, name, state);
                true
            } else {
                set_in_frames(rest, name, state)
            }
        },
    }
}

fn join_frame(frame: &mut List<Bound>, other: &List<Bound>)
    ensures
        *final(frame) == frame_join(*old(frame), *other),
    decreases *old(frame),
{
    match frame {
        List::Nil => {},
        List::Cons(b, rest) => {
            match find_in_frame(other, b.name) {
                Some(o) => {
                    b.state = b.state.glb(&o.state);
                },
                None => {},
            }
            join_frame(rest, other);
        },
    }
}

fn join_frames(frames: &mut List<List<Bound>>, others: &List<List<Bound>>)
    ensures
        *final(frames) == frames_join(*old(frames), *others),
        final(frames).count() == old(frames).count(),
    decreases *old(frames),
{
    match frames {
        List::Nil => {},
        List::Cons(frame, rest) => {
            match others {
                List::Nil => {},
                List::Cons(other, more) => {
                    join_frame(frame, other);
                    join_frames(rest, more);
                },
            }
        },
    }
}

fn freeze_frame(frame: &mut List<Bound>) -> (r: List<SavedFlag>)
    ensures
        r == frame_flags(*old(frame)),
        *final(frame) == frame_frozen(*old(frame)),
    decreases *old(frame),
{
    match frame {
        List::Nil => List::Nil,
        List::Cons(b, rest) => {
            let saved = SavedFlag { name: b.name, mutable: b.mutable };
            b.mutable = false;
            let others = freeze_frame(rest);
            List::cons(saved, others)
        },
    }
}

fn freeze_frames(frames: &mut List<List<Bound>>) -> (r: List<List<SavedFlag>>)
    ensures
        r == frames_flags(*old(frames)),
        *final(frames) == frames_frozen(*old(frames)),
        final(frames).count() == old(frames).count(),
        r.count() == old(frames).count(),
    decreases *old(frames),
{
    match frames {
        List::Nil => List::Nil,
        List::Cons(frame, rest) => {
            let saved = freeze_frame(frame);
            let others = freeze_frames(rest);
            List::Cons(Box::new(saved), Box::new(others))
        },
    }
}

fn find_saved(saved: &List<SavedFlag>, name: Symbol) -> (r: Option<bool>)
    ensures
        r == saved_for(*saved, name),
    decreases saved,
{
    match saved {
        List::Nil => None,
        List::Cons(s, rest) => if s.name == name {
            Some(s.mutable)
        } else {
            find_saved(rest, name)
        },
    }
}

fn thaw_frame(frame: &mut List<Bound>, saved: &List<SavedFlag>)
    ensures
        *final(frame) == frame_thawed(*old(frame), *saved),
    decreases *old(frame),
{
    match frame {
        List::Nil => {},
        List::Cons(b, rest) => {
            match find_saved(saved, b.name) {
                Some(mutable) => {
                    b.mutable = mutable;
                },
                None => {},
            }
            thaw_frame(rest, saved);
        },
    }
}

fn thaw_frames(frames: &mut List<List<Bound>>, saved: &List<List<SavedFlag>>)
    ensures
        *final(frames) == frames_thawed(*old(frames), *saved),
        final(frames).count() == old(frames).count(),
    decreases *old(frames),
{
    match frames {
        List::Nil => {},
        List::Cons(frame, rest) => {
            match saved {
                List::Nil => {},
                List::Cons(flags, more) => {
                    thaw_frame(frame, flags);
                    thaw_frames(rest, more);
                },
            }
        },
    }
}

fn dup_frame(frame: &List<Bound>) -> (r: List<Bound>)
    ensures
        r == *frame,
    decreases frame,
{
    match frame {
        List::Nil => List::Nil,
        List::Cons(b, rest) => List::cons(
            Bound { name: b.name, ty: b.ty, state: b.state.dup(), mutable: b.mutable },
            dup_frame(rest),
        ),
    }
}

fn dup_frames(frames: &List<List<Bound>>) -> (r: List<List<Bound>>)
    ensures
        r == *frames,
    decreases frames,
{
    match frames {
        List::Nil => List::Nil,
        List::Cons(frame, rest) => List::cons(dup_frame(frame), dup_frames(rest)),
    }
}

} // verus!
