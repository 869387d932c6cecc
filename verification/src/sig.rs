//! Function signatures.

use vstd::prelude::*;

use crate::effect::EffectRow;
use crate::intern::Symbol;
use crate::list::List;
use crate::ty::TyId;

verus! {

/// How a parameter receives its argument.
#[derive(Copy, Clone, Debug, PartialEq, Eq, Structural)]
pub enum ParamMode {
    /// Read only.
    Default,
    /// Borrowed for writing.
    Mutable,
    /// Moved in.
    Take,
    /// Written by the callee.
    Init,
}

/// A parameter of a declared function.
#[derive(Copy, Clone, Debug, PartialEq, Eq, Structural)]
pub struct Param {
    /// Its name.
    pub name: Symbol,
    /// Its mode.
    pub mode: ParamMode,
    /// Its type.
    pub ty: TyId,
}

/// The signature of a declared function.
#[derive(Debug, PartialEq, Eq)]
pub struct FnSig {
    /// The parameters in order.
    pub params: List<Param>,
    /// The return type.
    pub return_ty: TyId,
    /// The declared effect row.
    pub effects: EffectRow,
}

/// A parameter of a function-pointer type.
#[derive(Copy, Clone, Debug, PartialEq, Eq, Structural)]
pub struct FnPtrParam {
    /// Its mode.
    pub mode: ParamMode,
    /// Its type.
    pub ty: TyId,
}

/// The signature inside a function-pointer type.
#[derive(Debug, PartialEq, Eq)]
pub struct FnPtrSig {
    /// The parameters in order.
    pub params: List<FnPtrParam>,
    /// The return type.
    pub return_ty: TyId,
    /// The effect row.
    pub effects: EffectRow,
}

/// The parameters with their names left out.
pub open spec fn unnamed(params: List<Param>) -> List<FnPtrParam>
    decreases params,
{
    match params {
        List::Nil => List::Nil,
        List::Cons(p, rest) => List::Cons(
            Box::new(FnPtrParam { mode: p.mode, ty: p.ty }),
            Box::new(unnamed(*rest)),
        ),
    }
}

fn unnamed_params(params: &List<Param>) -> (r: List<FnPtrParam>)
    ensures
        r == unnamed(*params),
    decreases params,
{
    match params {
        List::Nil => List::Nil,
        List::Cons(p, rest) => List::cons(
            FnPtrParam { mode: p.mode, ty: p.ty },
            unnamed_params(rest),
        ),
    }
}

impl FnSig {
    /// The function-pointer signature of a function used as a value.
    pub open spec fn pointer(self) -> FnPtrSig {
        FnPtrSig { params: unnamed(self.params), return_ty: self.return_ty, effects: self.effects }
    }

    /// The function-pointer signature of a function used as a value.
    pub fn to_fn_ptr_sig(&self) -> (r: FnPtrSig)
        ensures
            r == self.pointer(),
    {
        FnPtrSig {
            params: unnamed_params(&self.params),
            return_ty: self.return_ty,
            effects: self.effects.dup(),
        }
    }

    /// A copy of the signature.
    pub fn dup(&self) -> (r: FnSig)
        ensures
            r == *self,
    {
        FnSig {
            params: self.params.dup(),
            return_ty: self.return_ty,
            effects: self.effects.dup(),
        }
    }
}

fn same_params(a: &List<FnPtrParam>, b: &List<FnPtrParam>) -> (r: bool)
    ensures
        r == (*a == *b),
    decreases a,
{
    match (a, b) {
        (List::Nil, List::Nil) => true,
        (List::Cons(x, s), List::Cons(y, t)) => **x == **y && same_params(s, t),
        _ => false,
    }
}

impl FnPtrSig {
    /// Whether two signatures are equal.
    pub fn same(&self, other: &FnPtrSig) -> (r: bool)
        ensures
            r == (*self == *other),
    {
        same_params(&self.params, &other.params) && self.return_ty == other.return_ty
            && self.effects.same(&other.effects)
    }

    /// A copy of the signature.
    pub fn dup(&self) -> (r: FnPtrSig)
        ensures
            r == *self,
    {
        FnPtrSig {
            params: self.params.dup(),
            return_ty: self.return_ty,
            effects: self.effects.dup(),
        }
    }
}

} // verus!
