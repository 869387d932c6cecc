//! Catalogues of methods that the compiler provides itself.

use vstd::prelude::*;

use crate::capability::CapabilityType;
use crate::text::same_text;

verus! {

/// Methods that compile to an operation instead of a call.
#[derive(Copy, Clone, Debug, PartialEq, Eq, Structural, Hash)]
pub enum IntrinsicKind {
    /// `s.bytes()` on a string.
    StringBytes,
    /// `xs.len()` on a slice.
    SliceLen,
    /// `discriminant_of(v)`: the position of the active variant.
    DiscriminantOf,
}

/// Methods of capability values.
#[derive(Copy, Clone, Debug, PartialEq, Eq, Structural, Hash)]
pub enum CapabilityMethod {
    /// `allocator.alloc_array(T, n)`: a slice of `n` elements.
    AllocatorAllocArray,
    /// `allocator.fork()`: a child allocator.
    AllocatorFork,
    /// `random.deterministic(seed)`: a seeded source.
    RandomDeterministic,
}

impl CapabilityMethod {
    /// Source spelling of the method.
    pub open spec fn spelling(self) -> Seq<char> {
        match self {
            CapabilityMethod::AllocatorAllocArray => "alloc_array"@,
            CapabilityMethod::AllocatorFork => "fork"@,
            CapabilityMethod::RandomDeterministic => "deterministic"@,
        }
    }

    /// The capability that has the method.
    pub open spec fn receiver(self) -> CapabilityType {
        match self {
            CapabilityMethod::AllocatorAllocArray => CapabilityType::Allocator,
            CapabilityMethod::AllocatorFork => CapabilityType::Allocator,
            CapabilityMethod::RandomDeterministic => CapabilityType::Random,
        }
    }

    /// Source spelling of the method.
    pub fn method_name(self) -> (r: &'static str)
        ensures
            r@ == self.spelling(),
    {
        match self {
            CapabilityMethod::AllocatorAllocArray => "alloc_array",
            CapabilityMethod::AllocatorFork => "fork",
            CapabilityMethod::RandomDeterministic => "deterministic",
        }
    }

    /// Name of the runtime function behind the method.
    pub fn extern_symbol(self) -> (r: &'static str)
        ensures
            r@ == (match self {
                CapabilityMethod::AllocatorAllocArray => "__edda_alloc_array"@,
                CapabilityMethod::AllocatorFork => "__edda_heap_fork"@,
                CapabilityMethod::RandomDeterministic => "__edda_random_deterministic"@,
            }),
    {
        match self {
            CapabilityMethod::AllocatorAllocArray => "__edda_alloc_array",
            CapabilityMethod::AllocatorFork => "__edda_heap_fork",
            CapabilityMethod::RandomDeterministic => "__edda_random_deterministic",
        }
    }
}

/// The method of `receiver` that is spelled `method`.
pub open spec fn capability_method(receiver: CapabilityType, method: Seq<char>) -> Option<
    CapabilityMethod,
> {
    match receiver {
        CapabilityType::Allocator => if method == "alloc_array"@ {
            Some(CapabilityMethod::AllocatorAllocArray)
        } else if method == "fork"@ {
            Some(CapabilityMethod::AllocatorFork)
        } else {
            None
        },
        CapabilityType::Random => if method == "deterministic"@ {
            Some(CapabilityMethod::RandomDeterministic)
        } else {
            None
        },
        _ => None,
    }
}

/// The method of `receiver` that is spelled `method`.
pub fn resolve_capability_method(receiver: CapabilityType, method: &str) -> (r: Option<
    CapabilityMethod,
>)
    ensures
        r == capability_method(receiver, method@),
{
    match receiver {
        CapabilityType::Allocator => if same_text(method, "alloc_array") {
            Some(CapabilityMethod::AllocatorAllocArray)
        } else if same_text(method, "fork") {
            Some(CapabilityMethod::AllocatorFork)
        } else {
            None
        },
        CapabilityType::Random => if same_text(method, "deterministic") {
            Some(CapabilityMethod::RandomDeterministic)
        } else {
            None
        },
        _ => None,
    }
}

/// A pair of capability and spelling is in the catalogue exactly where some
/// method has that receiver and that spelling, and it is found as that method.
pub proof fn law_capability_catalogue(
    receiver: CapabilityType,
    text: Seq<char>,
    method: CapabilityMethod,
)
    ensures
        capability_method(receiver, text) == Some(method) <==> (method.receiver() == receiver
            && method.spelling() == text),
{
    reveal_strlit("alloc_array");
    reveal_strlit("fork");
    reveal_strlit("deterministic");
    assert("alloc_array"@.len() == 11 && "fork"@.len() == 4 && "deterministic"@.len() == 13);
}

/// Number of static methods of primitive types.
pub const PRIMITIVE_STATIC_METHODS: usize = 0;

/// A static method of a primitive type, by its position in the catalogue. The
/// catalogue is empty, so there is no value of this type.
#[derive(Copy, Clone, Debug, PartialEq, Eq, Structural, Hash)]
pub struct PrimitiveStaticMethod {
    position: usize,
}

impl PrimitiveStaticMethod {
    /// The position lies in the catalogue. No position does.
    #[verifier::type_invariant]
    pub closed spec fn in_catalogue(self) -> bool {
        self.position < PRIMITIVE_STATIC_METHODS
    }

    /// Name of the runtime function behind the method. There is no method, so
    /// there is nothing to name.
    pub fn extern_symbol(self) -> (r: &'static str)
        ensures
            self.in_catalogue(),
    {
        proof {
            use_type_invariant(self);
        }
        ""
    }
}

/// The catalogue of static methods of primitive types is empty.
pub proof fn law_no_static_method(method: PrimitiveStaticMethod)
    ensures
        !method.in_catalogue(),
{
}

/// The static method `head.leaf` of a primitive type: there is none.
pub fn resolve_primitive_static_method(head: &str, leaf: &str) -> (r: Option<PrimitiveStaticMethod>)
    ensures
        r is None,
{
    let _ = (head, leaf);
    None
}

} // verus!
