//! Generic declarations that surface syntax invokes without naming them.

use vstd::prelude::*;

use crate::span::Span;
use crate::ty::TyId;

verus! {

/// A generic declaration with surface syntax of its own.
#[derive(Copy, Clone, Debug, PartialEq, Eq, Structural)]
pub enum ImplicitSpec {
    /// Behind `lo..<hi` and `lo..=hi`.
    Range,
    /// Behind the `none` pattern.
    Option,
}

impl ImplicitSpec {
    /// Qualified name of the declaration.
    pub fn qualified_name(self) -> (r: &'static str)
        ensures
            r@ == (match self {
                ImplicitSpec::Range => "std.core.range.Range"@,
                ImplicitSpec::Option => "std.core.option.Option"@,
            }),
    {
        match self {
            ImplicitSpec::Range => "std.core.range.Range",
            ImplicitSpec::Option => "std.core.option.Option",
        }
    }
}

/// A recorded need for an instance of a declaration.
#[derive(Copy, Clone, Debug, PartialEq, Eq, Structural)]
pub struct ImplicitSpecRequest {
    /// The declaration.
    pub kind: ImplicitSpec,
    /// The type argument.
    pub type_arg: TyId,
    /// The first place that needs it.
    pub span: Span,
}

} // verus!
