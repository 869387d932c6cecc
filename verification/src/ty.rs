//! Types and their handles.
//!
//! Types are compared by handle. Primitive and capability types have fixed
//! handles; every other type gets one from a [`TyInterner`], which stores each
//! kind once.

use vstd::prelude::*;

use crate::capability::CapabilityType;
use crate::list::List;
use crate::prim::Primitive;
use crate::sig::FnPtrSig;

verus! {

/// Handle of a module.
#[derive(Copy, Clone, Debug, PartialEq, Eq, Structural, Hash)]
pub struct ModuleId(pub usize);

/// Handle of a declared item: its module and its position there.
#[derive(Copy, Clone, Debug, PartialEq, Eq, Structural, Hash)]
pub struct BindingId {
    /// The declaring module.
    pub module: ModuleId,
    /// Position among the module's items.
    pub index: usize,
}

/// Handle of a type.
#[derive(Copy, Clone, Debug, PartialEq, Eq, Structural, Hash)]
pub enum TyId {
    /// The type of an expression that was already reported as wrong.
    Error,
    /// A primitive type.
    Prim(Primitive),
    /// A capability type.
    Cap(CapabilityType),
    /// A type stored in the interner.
    Interned(usize),
}

impl TyId {
    /// Sort key of the handle.
    pub open spec fn key(self) -> (nat, nat) {
        match self {
            TyId::Error => (0, 0),
            TyId::Prim(p) => (1, p.rank() as nat),
            TyId::Cap(c) => (2, c.rank() as nat),
            TyId::Interned(i) => (3, i as nat),
        }
    }

    /// Sort key of the handle.
    pub fn sort_key(self) -> (r: (usize, usize))
        ensures
            r.0 as nat == self.key().0,
            r.1 as nat == self.key().1,
    {
        match self {
            TyId::Error => (0, 0),
            TyId::Prim(p) => (1, p.index()),
            TyId::Cap(c) => (2, c.index()),
            TyId::Interned(i) => (3, i),
        }
    }
}

/// Structure of a type.
#[derive(Debug, PartialEq, Eq)]
pub enum TyKind {
    /// A primitive type.
    Primitive(Primitive),
    /// A tuple.
    Tuple(List<TyId>),
    /// A slice of the element type.
    Slice(TyId),
    /// A declared type.
    Nominal(BindingId),
    /// A capability.
    Capability(CapabilityType),
    /// A function pointer.
    FnPtr(Box<FnPtrSig>),
    /// The type of an expression that was already reported as wrong.
    Error,
}

fn same_ids(a: &List<TyId>, b: &List<TyId>) -> (r: bool)
    ensures
        r == (*a == *b),
    decreases a,
{
    match (a, b) {
        (List::Nil, List::Nil) => true,
        (List::Cons(x, s), List::Cons(y, t)) => **x == **y && same_ids(s, t),
        _ => false,
    }
}

impl TyKind {
    /// Whether two kinds are equal.
    pub fn same(&self, other: &TyKind) -> (r: bool)
        ensures
            r == (*self == *other),
    {
        match (self, other) {
            (TyKind::Primitive(a), TyKind::Primitive(b)) => *a == *b,
            (TyKind::Tuple(a), TyKind::Tuple(b)) => same_ids(a, b),
            (TyKind::Slice(a), TyKind::Slice(b)) => *a == *b,
            (TyKind::Nominal(a), TyKind::Nominal(b)) => *a == *b,
            (TyKind::Capability(a), TyKind::Capability(b)) => *a == *b,
            (TyKind::FnPtr(a), TyKind::FnPtr(b)) => a.same(b),
            (TyKind::Error, TyKind::Error) => true,
            _ => false,
        }
    }

    /// A copy of the kind.
    pub fn dup(&self) -> (r: TyKind)
        ensures
            r == *self,
    {
        match self {
            TyKind::Primitive(p) => TyKind::Primitive(*p),
            TyKind::Tuple(elems) => TyKind::Tuple(elems.dup()),
            TyKind::Slice(elem) => TyKind::Slice(*elem),
            TyKind::Nominal(id) => TyKind::Nominal(*id),
            TyKind::Capability(c) => TyKind::Capability(*c),
            TyKind::FnPtr(sig) => TyKind::FnPtr(Box::new(sig.dup())),
            TyKind::Error => TyKind::Error,
        }
    }
}

/// The kind behind a handle, given the stored kinds.
pub open spec fn kind_of(table: Seq<TyKind>, id: TyId) -> TyKind {
    match id {
        TyId::Error => TyKind::Error,
        TyId::Prim(p) => TyKind::Primitive(p),
        TyId::Cap(c) => TyKind::Capability(c),
        TyId::Interned(i) => if i < table.len() {
            table[i as int]
        } else {
            TyKind::Error
        },
    }
}

/// The position of the first stored kind from `from` on that equals `kind`.
pub open spec fn kind_position(table: Seq<TyKind>, kind: TyKind, from: int) -> int
    decreases table.len() - from,
{
    if from >= table.len() {
        table.len() as int
    } else if table[from] == kind {
        from
    } else {
        kind_position(table, kind, from + 1)
    }
}

/// The stored kinds and the handle after interning `kind`.
pub open spec fn ty_interned(table: Seq<TyKind>, kind: TyKind) -> (Seq<TyKind>, TyId) {
    match kind {
        TyKind::Error => (table, TyId::Error),
        TyKind::Primitive(p) => (table, TyId::Prim(p)),
        TyKind::Capability(c) => (table, TyId::Cap(c)),
        _ => {
            let at = kind_position(table, kind, 0);
            if at < table.len() {
                (table, TyId::Interned(at as usize))
            } else {
                (table.push(kind), TyId::Interned(table.len() as usize))
            }
        },
    }
}

/// Whether each kind that needs storing is stored at most once, and no other
/// kind is stored.
pub open spec fn table_distinct(table: Seq<TyKind>) -> bool {
    &&& forall|i: int, j: int| 0 <= i < j < table.len() ==> table[i] != table[j]
    &&& forall|i: int|
        0 <= i < table.len() ==> !(#[trigger] table[i] is Error) && !(table[i] is Primitive)
            && !(table[i] is Capability)
}

/// Whether `id` was issued for `table`.
pub open spec fn issued(table: Seq<TyKind>, id: TyId) -> bool {
    match id {
        TyId::Interned(i) => i < table.len(),
        _ => true,
    }
}

/// Store of the types that have no fixed handle.
#[derive(Debug)]
pub struct TyInterner {
    kinds: Vec<TyKind>,
}

impl View for TyInterner {
    type V = Seq<TyKind>;

    closed spec fn view(&self) -> Seq<TyKind> {
        self.kinds@
    }
}

impl TyInterner {
    /// A store without types.
    pub fn new() -> (r: TyInterner)
        ensures
            r@ == Seq::<TyKind>::empty(),
    {
        TyInterner { kinds: Vec::new() }
    }

    /// Number of stored types.
    pub fn len(&self) -> (r: usize)
        ensures
            r == self@.len(),
    {
        self.kinds.len()
    }

    /// The handle of the error type.
    pub fn error(&self) -> (r: TyId)
        ensures
            r == TyId::Error,
    {
        TyId::Error
    }

    /// The handle of a primitive type.
    pub fn prim(&self, p: Primitive) -> (r: TyId)
        ensures
            r == TyId::Prim(p),
    {
        TyId::Prim(p)
    }

    /// The handle of a capability type.
    pub fn capability(&self, c: CapabilityType) -> (r: TyId)
        ensures
            r == TyId::Cap(c),
    {
        TyId::Cap(c)
    }

    /// The kind behind `id`.
    pub fn kind(&self, id: TyId) -> (r: TyKind)
        ensures
            r == kind_of(self@, id),
    {
        match id {
            TyId::Error => TyKind::Error,
            TyId::Prim(p) => TyKind::Primitive(p),
            TyId::Cap(c) => TyKind::Capability(c),
            TyId::Interned(i) => if i < self.kinds.len() {
                self.kinds[i].dup()
            } else {
                TyKind::Error
            },
        }
    }

    /// The handle of `kind`, from a new entry where it has none yet.
    pub fn intern_kind(&mut self, kind: TyKind) -> (r: TyId)
        ensures
            (final(self)@, r) == ty_interned(old(self)@, kind),
    {
        match &kind {
            TyKind::Error => {
                return TyId::Error;
            },
            TyKind::Primitive(p) => {
                return TyId::Prim(*p);
            },
            TyKind::Capability(c) => {
                return TyId::Cap(*c);
            },
            _ => {},
        }
        let n: usize = self.kinds.len();
        let mut i: usize = 0;
        while i < n
            invariant
                n == self.kinds.len(),
                i <= n,
                !(kind is Error) && !(kind is Primitive) && !(kind is Capability),
                kind_position(self@, kind, 0) == kind_position(self@, kind, i as int),
            decreases n - i,
        {
            if self.kinds[i].same(&kind) {
                return TyId::Interned(i);
            }
            i += 1;
        }
        self.kinds.push(kind);
        TyId::Interned(n)
    }

    /// The handle of a tuple type.
    pub fn tuple(&mut self, elems: List<TyId>) -> (r: TyId)
        ensures
            (final(self)@, r) == ty_interned(old(self)@, TyKind::Tuple(elems)),
    {
        self.intern_kind(TyKind::Tuple(elems))
    }

    /// The handle of a slice type.
    pub fn slice(&mut self, elem: TyId) -> (r: TyId)
        ensures
            (final(self)@, r) == ty_interned(old(self)@, TyKind::Slice(elem)),
    {
        self.intern_kind(TyKind::Slice(elem))
    }

    /// The handle of a declared type.
    pub fn nominal(&mut self, id: BindingId) -> (r: TyId)
        ensures
            (final(self)@, r) == ty_interned(old(self)@, TyKind::Nominal(id)),
    {
        self.intern_kind(TyKind::Nominal(id))
    }

    /// The handle of a function-pointer type.
    pub fn fn_ptr(&mut self, sig: FnPtrSig) -> (r: TyId)
        ensures
            (final(self)@, r) == ty_interned(old(self)@, TyKind::FnPtr(Box::new(sig))),
    {
        self.intern_kind(TyKind::FnPtr(Box::new(sig)))
    }
}

proof fn lemma_kind_position(table: Seq<TyKind>, kind: TyKind, from: int)
    requires
        0 <= from <= table.len(),
    ensures
        from <= kind_position(table, kind, from) <= table.len(),
        kind_position(table, kind, from) < table.len() ==> table[kind_position(table, kind, from)]
            == kind,
        kind_position(table, kind, from) == table.len() ==> forall|i: int|
            from <= i < table.len() ==> table[i] != kind,
    decreases table.len() - from,
{
    if from < table.len() && table[from] != kind {
        lemma_kind_position(table, kind, from + 1);
    }
}

/// Interning gives a handle whose kind is the one asked for, keeps the kind of
/// every handle issued before, and stores each kind at most once.
pub proof fn law_ty_intern(table: Seq<TyKind>, kind: TyKind, id: TyId)
    requires
        table.len() < usize::MAX,
    ensures
        kind_of(ty_interned(table, kind).0, ty_interned(table, kind).1) == kind,
        issued(ty_interned(table, kind).0, ty_interned(table, kind).1),
        issued(table, id) ==> kind_of(ty_interned(table, kind).0, id) == kind_of(table, id),
        table_distinct(table) ==> table_distinct(ty_interned(table, kind).0),
{
    lemma_kind_position(table, kind, 0);
}

/// Types are identified by their handles: issued handles are equal exactly
/// when their kinds are.
pub proof fn law_ty_identity(table: Seq<TyKind>, a: TyId, b: TyId)
    requires
        table_distinct(table),
        issued(table, a),
        issued(table, b),
    ensures
        a == b <==> kind_of(table, a) == kind_of(table, b),
{
}

} // verus!
