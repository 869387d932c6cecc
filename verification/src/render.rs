//! The text of diagnostics.

use vstd::prelude::*;

use crate::diag::{Diagnostic, Message};
use crate::effect::{EffectEntry, PureEffect};
use crate::intern::{text_of, Interner, Symbol};
use crate::list::List;
use crate::package::{BindingKind, ResolvedPackage};
use crate::sig::{FnPtrParam, ParamMode};
use crate::syntax::{op_keyword, Ident};
use crate::text::{decimal, push_decimal};
use crate::ty::{BindingId, TyId, TyInterner, TyKind};

verus! {

/// What the text of a diagnostic is drawn from.
pub struct Words {
    /// Identifier text by handle.
    pub syms: Seq<Seq<char>>,
    /// Stored types by handle.
    pub tys: Seq<TyKind>,
    /// The package.
    pub package: Option<ResolvedPackage>,
}

/// What a declaration is called.
pub open spec fn kind_label(kind: BindingKind) -> Seq<char> {
    match kind {
        BindingKind::Function => "function"@,
        BindingKind::TypeDecl => "type"@,
        BindingKind::Spec => "spec"@,
        BindingKind::SpecInvocation => "spec invocation"@,
        BindingKind::Const => "constant"@,
        BindingKind::ImportLeaf => "module"@,
        BindingKind::Param | BindingKind::Local => "binding"@,
    }
}

fn label_of_kind(kind: BindingKind) -> (r: &'static str)
    ensures
        r@ == kind_label(kind),
{
    match kind {
        BindingKind::Function => "function",
        BindingKind::TypeDecl => "type",
        BindingKind::Spec => "spec",
        BindingKind::SpecInvocation => "spec invocation",
        BindingKind::Const => "constant",
        BindingKind::ImportLeaf => "module",
        BindingKind::Param | BindingKind::Local => "binding",
    }
}

/// The keyword of a parameter mode with a space behind it; a plain parameter
/// has none.
pub open spec fn mode_prefix(mode: ParamMode) -> Seq<char> {
    match mode {
        ParamMode::Default => ""@,
        ParamMode::Mutable => "mutable "@,
        ParamMode::Take => "take "@,
        ParamMode::Init => "init "@,
    }
}

fn prefix_of_mode(mode: ParamMode) -> (r: &'static str)
    ensures
        r@ == mode_prefix(mode),
{
    match mode {
        ParamMode::Default => "",
        ParamMode::Mutable => "mutable ",
        ParamMode::Take => "take ",
        ParamMode::Init => "init ",
    }
}

/// What stands between an item and the items after it.
pub open spec fn separator<T>(rest: List<T>) -> Seq<char> {
    match rest {
        List::Nil => ""@,
        List::Cons(_, _) => ", "@,
    }
}

fn separator_of<T>(rest: &List<T>) -> (r: &'static str)
    ensures
        r@ == separator(*rest),
{
    match rest {
        List::Nil => "",
        List::Cons(_, _) => ", ",
    }
}

impl Words {
    /// The text of a name.
    pub open spec fn name(self, sym: Symbol) -> Seq<char> {
        text_of(self.syms, sym)
    }

    /// The names that a path consists of, joined by dots.
    pub open spec fn qualifier(self, path: List<Symbol>) -> Seq<char>
        decreases path,
    {
        match path {
            List::Nil => Seq::empty(),
            List::Cons(head, tail) => self.name(*head) + "."@ + self.qualifier(*tail),
        }
    }

    /// A declared type: its qualified name, or its coordinates where the
    /// package does not hold it.
    pub open spec fn nominal(self, id: BindingId) -> Seq<char> {
        let coordinates = "<nominal "@ + decimal(id.module.0 as nat) + ":"@ + decimal(
            id.index as nat,
        ) + ">"@;
        match self.package {
            Some(package) => match (
                package.modules.nth(id.module.0 as nat),
                package.entry(id),
            ) {
                (Some(m), Some(entry)) => self.qualifier(m.path) + self.name(entry.name),
                _ => coordinates,
            },
            None => coordinates,
        }
    }

    /// The text of a type whose handle lies below `bound`.
    pub open spec fn ty_below(self, ty: TyId, bound: nat) -> Seq<char>
        decreases bound, 0nat, 0nat,
    {
        match ty {
            TyId::Error => "<error>"@,
            TyId::Prim(prim) => prim.spelling(),
            TyId::Cap(cap) => cap.spelling(),
            TyId::Interned(at) => if at < bound && at < self.tys.len() {
                self.kind_below(self.tys[at as int], at as nat)
            } else {
                "<error>"@
            },
        }
    }

    /// The text of a type of the given kind, whose parts lie below `bound`.
    pub open spec fn kind_below(self, kind: TyKind, bound: nat) -> Seq<char>
        decreases bound, 2nat, 0nat,
    {
        match kind {
            TyKind::Error => "<error>"@,
            TyKind::Primitive(prim) => prim.spelling(),
            TyKind::Capability(cap) => cap.spelling(),
            TyKind::Nominal(id) => self.nominal(id),
            TyKind::Slice(element) => "["@ + self.ty_below(element, bound) + "]"@,
            TyKind::Tuple(elems) => "("@ + self.tys_below(elems, bound) + ")"@,
            TyKind::FnPtr(sig) => "function("@ + self.params_below(sig.params, bound) + ") -> "@
                + self.ty_below(sig.return_ty, bound) + " with {"@ + self.entries_below(
                sig.effects.list,
                bound,
            ) + "}"@,
        }
    }

    /// Types with commas between them.
    pub open spec fn tys_below(self, tys: List<TyId>, bound: nat) -> Seq<char>
        decreases bound, 1nat, tys.count(),
    {
        match tys {
            List::Nil => Seq::empty(),
            List::Cons(head, tail) => self.ty_below(*head, bound) + separator(*tail)
                + self.tys_below(*tail, bound),
        }
    }

    /// Parameters with commas between them.
    pub open spec fn params_below(self, params: List<FnPtrParam>, bound: nat) -> Seq<char>
        decreases bound, 1nat, params.count(),
    {
        match params {
            List::Nil => Seq::empty(),
            List::Cons(head, tail) => mode_prefix(head.mode) + self.ty_below(head.ty, bound)
                + separator(*tail) + self.params_below(*tail, bound),
        }
    }

    /// An effect.
    pub open spec fn entry_below(self, entry: EffectEntry, bound: nat) -> Seq<char>
        decreases bound, 0nat, 1nat,
    {
        match entry {
            EffectEntry::Capability(sym) => self.name(sym),
            EffectEntry::Pure(PureEffect::Panic) => "panic"@,
            EffectEntry::Pure(PureEffect::Raise(ty)) => "err: "@ + self.ty_below(ty, bound),
            EffectEntry::Pure(PureEffect::Yield(ty)) => "yield: "@ + self.ty_below(ty, bound),
            EffectEntry::Pure(PureEffect::Divergence) => "divergence"@,
            EffectEntry::Pure(PureEffect::Cancellation) => "cancellation"@,
            EffectEntry::Pure(PureEffect::Nondet) => "nondet"@,
        }
    }

    /// Effects with commas between them.
    pub open spec fn entries_below(self, entries: List<EffectEntry>, bound: nat) -> Seq<char>
        decreases bound, 1nat, entries.count(),
    {
        match entries {
            List::Nil => Seq::empty(),
            List::Cons(head, tail) => self.entry_below(*head, bound) + separator(*tail)
                + self.entries_below(*tail, bound),
        }
    }

    /// The text of a type.
    pub open spec fn ty(self, ty: TyId) -> Seq<char> {
        self.ty_below(ty, self.tys.len())
    }

    /// The text of an effect.
    pub open spec fn entry(self, entry: EffectEntry) -> Seq<char> {
        self.entry_below(entry, self.tys.len())
    }

    /// Effects with commas between them.
    pub open spec fn entries(self, entries: List<EffectEntry>) -> Seq<char> {
        self.entries_below(entries, self.tys.len())
    }

    /// An effect row; types in it are shown without the package.
    pub open spec fn row(self, entries: List<EffectEntry>) -> Seq<char> {
        "{"@ + (Words { package: None, ..self }).entries(entries) + "}"@
    }

    /// Names with commas between them.
    pub open spec fn listed(self, names: List<Symbol>) -> Seq<char>
        decreases names,
    {
        match names {
            List::Nil => Seq::empty(),
            List::Cons(head, tail) => self.name(*head) + separator(*tail) + self.listed(*tail),
        }
    }

    /// Quoted names with commas between them.
    pub open spec fn quoted(self, names: List<Symbol>) -> Seq<char>
        decreases names,
    {
        match names {
            List::Nil => Seq::empty(),
            List::Cons(head, tail) => "`"@ + self.name(*head) + "`"@ + separator(*tail)
                + self.quoted(*tail),
        }
    }

    /// A field behind a binding, where there is one.
    pub open spec fn member(self, member: Option<Symbol>) -> Seq<char> {
        match member {
            Some(field) => "."@ + self.name(field),
            None => ""@,
        }
    }

    /// The segments of a path, joined by dots.
    pub open spec fn dotted(self, path: List<Ident>) -> Seq<char>
        decreases path,
    {
        match path {
            List::Nil => Seq::empty(),
            List::Cons(head, tail) => match *tail {
                List::Nil => self.name(head.name),
                List::Cons(_, _) => self.name(head.name) + "."@ + self.dotted(*tail),
            },
        }
    }
}

impl Message {
    /// The text of a message.
    pub open spec fn text(self, w: Words) -> Seq<char> {
        match self {
            Message::ExecutorMissing { declared } => "`scope(exec)` requires the enclosing function's effect row to declare an `Executor` capability (a bare capability entry naming an `Executor`-typed parameter); declared row is `"@ + w.row(declared.list) + "`"@,
            Message::AssignMoved { name } => "cannot assign to `"@ + w.name(name) + "`: it has been moved out"@,
            Message::ImmutableBorrow { mode, binding, member } => "`"@ + mode.word() + " "@ + w.name(binding) + w.member(member) + "` requires `"@ + w.name(binding) + "` to be a mutable binding, but it is immutable; declare it `var` (a local) or take it as a `mutable` / `init` parameter — a `"@ + mode.word() + "` borrow of an immutable binding is lowered as a copy, so the write would be lost"@,
            Message::ModeRequires { mode, name, required, actual } => "`"@ + mode.word() + " "@ + w.name(name) + "` requires the binding to be "@ + required.text() + " here, but it is "@ + actual.text(),
            Message::FieldInitRequires { binding, field, actual } => "`set "@ + w.name(binding) + "."@ + w.name(field) + "` requires the field to be uninitialised or consumed here, but it is "@ + actual.text(),
            Message::FieldModeRequires { mode, binding, field, actual } => "`"@ + mode.word() + " "@ + w.name(binding) + "."@ + w.name(field) + "` requires the field to be valid here, but it is "@ + actual.text(),
            Message::LoopChangesState { name, before, after } => "loop body changes the state of outer binding `"@ + w.name(name) + "` (was "@ + before.text() + ", now "@ + after.text() + "); state must agree across iterations"@,
            Message::PartialAtExit { name, missing } => "binding `"@ + w.name(name) + "` is partially initialised at function exit; these fields are not valid: "@ + w.listed(missing),
            Message::NotValidAtExit { name, state } => "binding `"@ + w.name(name) + "` is "@ + state.text() + " at function exit; every in-scope binding must be valid"@,
            Message::LinearUnconsumed { name } => "`linear` binding `"@ + w.name(name) + "` is not consumed before its scope ends; a `linear` value must be passed by `take` (or otherwise consumed) on every path — only `affine` values may be dropped"@,
            Message::HandlerOnlyErr { name } => "handlers only admit the `err` effect; found `"@ + w.name(name) + "`"@,
            Message::NoErrorToPropagate => "no error effect to propagate"@,
            Message::TerminationUnproven { declared } => "function is recursive but supplies no `decreases` measure; either supply `decreases` on the function (or a recursive sibling) or admit `divergence` in the declared row (currently `"@ + w.row(declared.list) + "`)"@,
            Message::DivergenceNotAdmitted { declared } => "function performs `divergence` but its declared row does not admit it; either supply `decreases` for the unbounded loop or add `divergence` to the row (currently `"@ + w.row(declared.list) + "`)"@,
            Message::EffectNotDeclared { entry, declared } => "function performs effect `"@ + w.entry(entry) + "` but does not declare it; declared row is `"@ + w.row(declared.list) + "`"@,
            Message::LiteralTooLarge { value, prim } => "integer literal `"@ + decimal(value as nat) + "` does not fit in `"@ + prim.spelling() + "`"@,
            Message::TypeMismatch { expected, found } => "expected `"@ + w.ty(expected) + "`, found `"@ + w.ty(found) + "`"@,
            Message::NotReadable { name, state } => "binding `"@ + w.name(name) + "` is "@ + state.text() + " at this point"@,
            Message::VariantNeedsArguments { ty_name, variant } => "variant `"@ + w.name(ty_name) + "."@ + w.name(variant) + "` has a payload — construct it with `"@ + w.name(ty_name) + "."@ + w.name(variant) + "(...)` instead of using the bare path"@,
            Message::NoSuchVariant { variant, ty_name } => "no variant `"@ + w.name(variant) + "` on sum type `"@ + w.name(ty_name) + "`"@,
            Message::NotInEnvironment { name } => "binding `"@ + w.name(name) + "` is not in the current type environment"@,
            Message::NotAValue { kind, name } => kind_label(kind) + " `"@ + w.name(name) + "` cannot be used as a value (no first-class "@ + kind_label(kind) + "s)"@,
            Message::ModuleAsValue => "module name used in value position; expected an expression"@,
            Message::CannotFindBinding { name } => "cannot find binding `"@ + w.name(name) + "` in scope"@,
            Message::QualifiedPath => "qualified-path expressions are not yet inferred"@,
            Message::CallsNeedPackage => "function calls require a resolved-package context"@,
            Message::CannotCallModule => "cannot call a module"@,
            Message::NoResolution { path } => "callee path `"@ + w.dotted(path) + "` has no recorded resolution"@,
            Message::CannotCall { kind, name } => "cannot call "@ + kind_label(kind) + " `"@ + w.name(name) + "`"@,
            Message::DiscriminantNamedArgument => "named argument is not admitted on intrinsic `discriminant_of`"@,
            Message::DiscriminantModeArgument => "call-site mode keyword is not admitted on intrinsic `discriminant_of`"@,
            Message::DiscriminantArity { supplied } => "intrinsic `discriminant_of` takes 1 argument(s) but "@ + decimal(supplied as nat) + " were supplied"@,
            Message::DiscriminantNotSum { ty } => "intrinsic `discriminant_of` expects a sum-typed value, found `"@ + w.ty(ty) + "`"@,
            Message::NoSignature { name } => "no signature recorded for function `"@ + w.name(name) + "`"@,
            Message::FunctionArity { name, arity, supplied } => "function `"@ + w.name(name) + "` takes "@ + decimal(arity as nat) + " argument(s) but "@ + decimal(supplied as nat) + " were supplied"@,
            Message::FunctionNamedArgument { field, function } => "named argument `"@ + w.name(field) + ":` is not admitted at function call site (function `"@ + w.name(function) + "` takes positional arguments)"@,
            Message::VariantNoPayload { ty_name, variant, supplied } => "variant `"@ + w.name(ty_name) + "."@ + w.name(variant) + "` has no payload but "@ + decimal(supplied as nat) + " argument(s) were supplied"@,
            Message::VariantArityOne { ty_name, variant, arity } => "variant `"@ + w.name(ty_name) + "."@ + w.name(variant) + "` takes "@ + decimal(arity as nat) + " positional argument(s) but 1 was supplied"@,
            Message::VariantNeedsNames { ty_name, variant } => "struct-payload variant `"@ + w.name(ty_name) + "."@ + w.name(variant) + "` requires named arguments (`field: expr`)"@,
            Message::VariantArity { ty_name, variant, arity, supplied } => "variant `"@ + w.name(ty_name) + "."@ + w.name(variant) + "` takes "@ + decimal(arity as nat) + " positional argument(s) but "@ + decimal(supplied as nat) + " were supplied"@,
            Message::VariantNamedArgument { field, ty_name, variant } => "named argument `"@ + w.name(field) + ":` is not admitted at tuple-payload variant `"@ + w.name(ty_name) + "."@ + w.name(variant) + "`"@,
            Message::VariantDuplicateField { field } => "duplicate field `"@ + w.name(field) + "` in variant payload"@,
            Message::VariantNoField { ty_name, variant, field } => "variant `"@ + w.name(ty_name) + "."@ + w.name(variant) + "` has no field `"@ + w.name(field) + "`"@,
            Message::VariantMissing { ty_name, variant, missing } => "variant `"@ + w.name(ty_name) + "."@ + w.name(variant) + "` is missing field(s) "@ + w.quoted(missing),
            Message::ComptimeImpure { callee, entries } => "call to `"@ + w.name(callee) + "` inside a comptime context is not comptime-pure; the callee's row contains non-pure entries: "@ + w.entries(entries),
            Message::UnpropagatedError { callee, ty } => "call to `"@ + w.name(callee) + "` propagates `err: "@ + w.ty(ty) + "` but the result is not wrapped in `?` and no enclosing `handle err: T -> recovery { ... }` admits it; declaring the err in the enclosing function's row is not enough — each fallible call needs explicit propagation"@,
            Message::CannotCallValue { ty } => "cannot call value of type `"@ + w.ty(ty) + "`"@,
            Message::PointerArity { arity, supplied } => "fn-pointer expects "@ + decimal(arity as nat) + " argument(s) but "@ + decimal(supplied as nat) + " were supplied"@,
            Message::PointerNamedArgument { field } => "named argument `"@ + w.name(field) + ":` is not admitted at a fn-pointer call site (positional arguments only)"@,
            Message::MethodArity { name, arity, supplied } => "method `"@ + w.name(name) + "` takes "@ + decimal(arity as nat) + " argument(s) but "@ + decimal(supplied as nat) + " were supplied"@,
            Message::MethodUnresolved { name, ty } => "no method `"@ + w.name(name) + "` resolves on receiver of type `"@ + w.ty(ty) + "`; declare a free function `"@ + w.name(name) + "(<receiver-type>, ...)` in scope"@,
            Message::CapabilityMethodArity { method, arity, supplied } => "method `"@ + method.spelling() + "` takes "@ + decimal(arity as nat) + " argument(s) but "@ + decimal(supplied as nat) + " were supplied"@,
            Message::CapabilityNamedArgument { field, method } => "named argument `"@ + w.name(field) + ":` is not admitted at capability-method call site `"@ + method.spelling() + "`"@,
            Message::CapabilityModeArgument { method } => "call-site mode keyword is not admitted at capability-method call site `"@ + method.spelling() + "`"@,
            Message::AllocArrayNeedsType => "first argument to `alloc_array` must be a bare type name (e.g. `u32`, `MyType`)"@,
            Message::SlicePatNotSlice { ty } => "slice pattern requires a slice type; scrutinee has type `"@ + w.ty(ty) + "`"@,
            Message::TuplePatMismatch { arity, ty } => "tuple pattern of arity "@ + decimal(arity as nat) + " does not match scrutinee of type `"@ + w.ty(ty) + "`"@,
            Message::VariantPatNotSum { ty } => "variant pattern requires a sum type; scrutinee has type `"@ + w.ty(ty) + "`"@,
            Message::PatNoVariant { variant, ty } => "no variant `"@ + w.name(variant) + "` on sum type `"@ + w.ty(ty) + "`"@,
            Message::VariantPatArity { variant, arity, supplied } => "variant `"@ + w.name(variant) + "` has "@ + decimal(arity as nat) + " positional field(s) but pattern supplied "@ + decimal(supplied as nat),
            Message::VariantPatFieldArity { variant, arity, supplied } => "variant `"@ + w.name(variant) + "` has "@ + decimal(arity as nat) + " field(s) but positional pattern supplied "@ + decimal(supplied as nat),
            Message::VariantPatShape { variant } => "variant `"@ + w.name(variant) + "` payload shape does not match the pattern"@,
            Message::StructPatNotProduct { ty } => "struct pattern requires a product type; scrutinee has type `"@ + w.ty(ty) + "`"@,
            Message::NoLayout { ty } => "no layout recorded for type `"@ + w.ty(ty) + "`"@,
            Message::StructPatOnSum { ty } => "struct pattern requires a product type; `"@ + w.ty(ty) + "` is a sum type (use a variant pattern instead)"@,
            Message::DuplicateFieldPattern { field } => "duplicate field pattern `"@ + w.name(field) + "`"@,
            Message::NamedTypeNoField { owner, field } => "type `"@ + w.name(owner) + "` has no field `"@ + w.name(field) + "`"@,
            Message::StructPatMissing { owner, missing } => "struct pattern for `"@ + w.name(owner) + "` is missing field(s) "@ + w.quoted(missing) + " (use `..` to ignore omitted fields)"@,
            Message::StructLitNeedsPackage => "struct literals require a resolved-package context"@,
            Message::StructLitModule => "module name used as a struct type; expected a `type` declaration"@,
            Message::StructLitNoResolution => "struct-literal path has no recorded resolution"@,
            Message::CannotConstruct { kind, name } => "cannot construct "@ + kind_label(kind) + " `"@ + w.name(name) + "` as a struct"@,
            Message::StructLitOnSum { name } => "cannot construct sum type `"@ + w.name(name) + "` with struct-literal syntax; use a variant constructor instead"@,
            Message::NoLayoutNamed { name } => "no layout recorded for type `"@ + w.name(name) + "`"@,
            Message::DuplicateInitialiser { field } => "duplicate initialiser for field `"@ + w.name(field) + "`"@,
            Message::StructLitMissing { name, missing } => "struct literal for `"@ + w.name(name) + "` is missing field(s) "@ + w.quoted(missing),
            Message::FieldNotReadable { binding, field, state } => "cannot read `"@ + w.name(binding) + "."@ + w.name(field) + "`: the field is "@ + state.text() + " here"@,
            Message::FieldOnNonProduct { field, ty } => "cannot access field `."@ + w.name(field) + "` on `"@ + w.ty(ty) + "`; only product types support field access"@,
            Message::TypeNoField { ty, field } => "type `"@ + w.ty(ty) + "` has no field `"@ + w.name(field) + "`"@,
            Message::BuiltinNamedArgument { field, builtin } => "named argument `"@ + w.name(field) + ":` is not admitted on comptime built-in `"@ + builtin.spelling() + "`"@,
            Message::BuiltinModeArgument { builtin } => "call-site mode keyword is not admitted on comptime built-in `"@ + builtin.spelling() + "`"@,
            Message::BuiltinArity { builtin, supplied } => "built-in `"@ + builtin.spelling() + "` takes "@ + decimal(builtin.argument_count() as nat) + " argument(s) but "@ + decimal(supplied as nat) + " were supplied"@,
            Message::SupportsNamedArgument => "named argument is not admitted on comptime built-in `target.supports`"@,
            Message::SupportsModeArgument => "call-site mode keyword is not admitted on comptime built-in `target.supports`"@,
            Message::SupportsArity { supplied } => "built-in `target.supports` takes 1 argument(s) but "@ + decimal(supplied as nat) + " were supplied"@,
            Message::SupportsNotCapability => "comptime built-in `target.supports` expects a capability type-name (e.g. `Subprocess`)"@,
            Message::OffsetOfField => "expected a bare field identifier (single-segment path) for `offset_of`'s field arg"@,
            Message::EmptyArray => "cannot infer the element type of an empty array literal `[]`; add a type annotation (e.g. `let xs: [T] = []`)"@,
            Message::BadCast { from, to } => "cannot cast `"@ + w.ty(from) + "` to `"@ + w.ty(to) + "` — only numeric-to-numeric casts are admitted"@,
            Message::SubrangeNotSlice { ty } => "cannot take a sub-range of `"@ + w.ty(ty) + "` — only slice types `[T]` support range indexing"@,
            Message::IndexNotSlice { ty } => "cannot index into `"@ + w.ty(ty) + "` — only slice types `[T]` support indexing"@,
            Message::RangeMismatch { lo, hi } => "range endpoints have incompatible types: `"@ + w.ty(lo) + "` and `"@ + w.ty(hi) + "`"@,
            Message::RangeNotNumeric { ty } => "range endpoints must be numeric, found `"@ + w.ty(ty) + "`"@,
            Message::TupleTooShort => "tuple expression requires at least 2 elements"@,
            Message::TupleIndexOut { index, ty, len } => "tuple index `."@ + decimal(index as nat) + "` is out of bounds for `"@ + w.ty(ty) + "` (length "@ + decimal(len as nat) + ")"@,
            Message::PositionalNotSum { index, ty } => "cannot apply positional index `."@ + decimal(index as nat) + "` to `"@ + w.ty(ty) + "` — only tuples and sum-typed values support positional access"@,
            Message::VariantIndexOut { index, ty, count } => "variant index `."@ + decimal(index as nat) + "` is out of bounds for `"@ + w.ty(ty) + "` ("@ + decimal(count as nat) + " variants)"@,
            Message::TupleIndexOn { index, ty } => "cannot apply tuple index `."@ + decimal(index as nat) + "` to `"@ + w.ty(ty) + "` — only tuple types support positional field access"@,
            Message::ForNotIterable { ty } => "`for` iter must be a slice or range, found `"@ + w.ty(ty) + "`"@,
            Message::ForRangeMismatch { lo, hi } => "for-range endpoints have incompatible types: `"@ + w.ty(lo) + "` and `"@ + w.ty(hi) + "`"@,
            Message::LiteralPatMismatch { literal, scrutinee } => "literal pattern of type `"@ + w.ty(literal) + "` does not match scrutinee of type `"@ + w.ty(scrutinee) + "`"@,
            Message::NonExhaustive => "non-exhaustive match: the scrutinee sum type has variants not covered by any arm; add the missing case arms or a `case _` wildcard"@,
            Message::BranchMismatch { first, second } => "branches have incompatible types: `"@ + w.ty(first) + "` vs `"@ + w.ty(second) + "`"@,
            Message::NegNotNumeric { ty } => "unary `-` requires a numeric operand, found `"@ + w.ty(ty) + "`"@,
            Message::BitNotNotInteger { ty } => "unary `~` requires an integer operand, found `"@ + w.ty(ty) + "`"@,
            Message::OverflowOperator { op } => "`"@ + op.symbol() + "` originates `err: Overflow` but neither the function's declared row nor an open handler carries it; add `import std.overflow` and either `with {err: Overflow, ...}` to the function signature or wrap the operator in `handle err: overflow.Overflow as _ -> ...`"@,
            Message::OverflowCast => "`as T checked` originates `err: Overflow` but neither the function's declared row nor an open handler carries it; add `import std.overflow` and either `with {err: Overflow, ...}` to the function signature or wrap the cast in `handle err: overflow.Overflow as _ -> ...`"@,
            Message::NotNumeric { op, ty } => "binary `"@ + op.symbol() + "` requires numeric operands, found `"@ + w.ty(ty) + "`"@,
            Message::FloatModulo { op, ty } => "modulo (`"@ + op.symbol() + "`) is integer-only; use `std.math.scalar.fmod` for floats — found `"@ + w.ty(ty) + "`"@,
            Message::NotInteger { op, ty } => "binary `"@ + op.symbol() + "` requires integer operands, found `"@ + w.ty(ty) + "`"@,
            Message::NotOrdered { op, ty } => "ordering operator `"@ + op.symbol() + "` requires numeric operands, found `"@ + w.ty(ty) + "`"@,
        }
    }
}

/// What the text of a diagnostic is drawn from.
pub struct Renderer<'a> {
    /// Identifier text.
    pub interner: &'a Interner,
    /// Types.
    pub ty_interner: &'a TyInterner,
    /// The package, where there is one.
    pub package: Option<&'a ResolvedPackage>,
}

impl<'a> View for Renderer<'a> {
    type V = Words;

    open spec fn view(&self) -> Words {
        Words {
            syms: self.interner@,
            tys: self.ty_interner@,
            package: match self.package {
                Some(p) => Some(*p),
                None => None,
            },
        }
    }
}

impl<'a> Renderer<'a> {
    fn push_name(&self, out: &mut String, sym: Symbol)
        ensures
            final(out)@ == old(out)@ + self@.name(sym),
    {
        out.append(self.interner.resolve(sym));
    }

    fn push_qualifier(&self, out: &mut String, path: &List<Symbol>)
        ensures
            final(out)@ == old(out)@ + self@.qualifier(*path),
        decreases path,
    {
        match path {
            List::Nil => {},
            List::Cons(head, tail) => {
                self.push_name(out, **head);
                out.append(".");
                self.push_qualifier(out, tail);
            },
        }
    }

    fn push_coordinates(&self, out: &mut String, id: BindingId)
        ensures
            final(out)@ == old(out)@ + ("<nominal "@ + decimal(id.module.0 as nat) + ":"@ + decimal(
                id.index as nat,
            ) + ">"@),
    {
        out.append("<nominal ");
        push_decimal(out, id.module.0 as u128);
        out.append(":");
        push_decimal(out, id.index as u128);
        out.append(">");
    }

    fn push_nominal(&self, out: &mut String, id: BindingId)
        ensures
            final(out)@ == old(out)@ + self@.nominal(id),
    {
        match self.package {
            Some(package) => match (package.modules.get_ref(id.module.0), package.binding(id)) {
                (Some(m), Some(entry)) => {
                    self.push_qualifier(out, &m.path);
                    self.push_name(out, entry.name);
                },
                _ => self.push_coordinates(out, id),
            },
            None => self.push_coordinates(out, id),
        }
    }

    fn push_ty_below(&self, out: &mut String, ty: TyId, bound: usize)
        ensures
            final(out)@ == old(out)@ + self@.ty_below(ty, bound as nat),
        decreases bound, 0nat, 0nat,
    {
        match ty {
            TyId::Error => out.append("<error>"),
            TyId::Prim(prim) => out.append(prim.name()),
            TyId::Cap(cap) => out.append(cap.name()),
            TyId::Interned(at) => {
                if at < bound && at < self.ty_interner.len() {
                    let kind = self.ty_interner.kind(ty);
                    self.push_kind_below(out, &kind, at);
                } else {
                    out.append("<error>");
                }
            },
        }
    }

    fn push_kind_below(&self, out: &mut String, kind: &TyKind, bound: usize)
        ensures
            final(out)@ == old(out)@ + self@.kind_below(*kind, bound as nat),
        decreases bound, 2nat, 0nat,
    {
        match kind {
            TyKind::Error => out.append("<error>"),
            TyKind::Primitive(prim) => out.append(prim.name()),
            TyKind::Capability(cap) => out.append(cap.name()),
            TyKind::Nominal(id) => self.push_nominal(out, *id),
            TyKind::Slice(element) => {
                out.append("[");
                self.push_ty_below(out, *element, bound);
                out.append("]");
            },
            TyKind::Tuple(elems) => {
                out.append("(");
                self.push_tys_below(out, elems, bound);
                out.append(")");
            },
            TyKind::FnPtr(sig) => {
                out.append("function(");
                self.push_params_below(out, &sig.params, bound);
                out.append(") -> ");
                self.push_ty_below(out, sig.return_ty, bound);
                out.append(" with {");
                self.push_entries_below(out, &sig.effects.list, bound);
                out.append("}");
            },
        }
    }

    fn push_tys_below(&self, out: &mut String, tys: &List<TyId>, bound: usize)
        ensures
            final(out)@ == old(out)@ + self@.tys_below(*tys, bound as nat),
        decreases bound, 1nat, tys.count(),
    {
        match tys {
            List::Nil => {},
            List::Cons(head, tail) => {
                self.push_ty_below(out, **head, bound);
                out.append(separator_of(tail));
                self.push_tys_below(out, tail, bound);
            },
        }
    }

    fn push_params_below(&self, out: &mut String, params: &List<FnPtrParam>, bound: usize)
        ensures
            final(out)@ == old(out)@ + self@.params_below(*params, bound as nat),
        decreases bound, 1nat, params.count(),
    {
        match params {
            List::Nil => {},
            List::Cons(head, tail) => {
                out.append(prefix_of_mode(head.mode));
                self.push_ty_below(out, head.ty, bound);
                out.append(separator_of(tail));
                self.push_params_below(out, tail, bound);
            },
        }
    }

    fn push_entry_below(&self, out: &mut String, entry: EffectEntry, bound: usize)
        ensures
            final(out)@ == old(out)@ + self@.entry_below(entry, bound as nat),
        decreases bound, 0nat, 1nat,
    {
        match entry {
            EffectEntry::Capability(sym) => self.push_name(out, sym),
            EffectEntry::Pure(PureEffect::Panic) => out.append("panic"),
            EffectEntry::Pure(PureEffect::Raise(ty)) => {
                out.append("err: ");
                self.push_ty_below(out, ty, bound);
            },
            EffectEntry::Pure(PureEffect::Yield(ty)) => {
                out.append("yield: ");
                self.push_ty_below(out, ty, bound);
            },
            EffectEntry::Pure(PureEffect::Divergence) => out.append("divergence"),
            EffectEntry::Pure(PureEffect::Cancellation) => out.append("cancellation"),
            EffectEntry::Pure(PureEffect::Nondet) => out.append("nondet"),
        }
    }

    fn push_entries_below(&self, out: &mut String, entries: &List<EffectEntry>, bound: usize)
        ensures
            final(out)@ == old(out)@ + self@.entries_below(*entries, bound as nat),
        decreases bound, 1nat, entries.count(),
    {
        match entries {
            List::Nil => {},
            List::Cons(head, tail) => {
                self.push_entry_below(out, **head, bound);
                out.append(separator_of(tail));
                self.push_entries_below(out, tail, bound);
            },
        }
    }

    fn push_ty(&self, out: &mut String, ty: TyId)
        ensures
            final(out)@ == old(out)@ + self@.ty(ty),
    {
        self.push_ty_below(out, ty, self.ty_interner.len());
    }

    fn push_entry(&self, out: &mut String, entry: EffectEntry)
        ensures
            final(out)@ == old(out)@ + self@.entry(entry),
    {
        self.push_entry_below(out, entry, self.ty_interner.len());
    }

    fn push_entries(&self, out: &mut String, entries: &List<EffectEntry>)
        ensures
            final(out)@ == old(out)@ + self@.entries(*entries),
    {
        self.push_entries_below(out, entries, self.ty_interner.len());
    }

    fn push_row(&self, out: &mut String, entries: &List<EffectEntry>)
        ensures
            final(out)@ == old(out)@ + self@.row(*entries),
    {
        let plain = Renderer {
            interner: self.interner,
            ty_interner: self.ty_interner,
            package: None,
        };
        assert(plain@ == (Words { package: None, ..self@ }));
        out.append("{");
        plain.push_entries(out, entries);
        out.append("}");
    }

    fn push_listed(&self, out: &mut String, names: &List<Symbol>)
        ensures
            final(out)@ == old(out)@ + self@.listed(*names),
        decreases names,
    {
        match names {
            List::Nil => {},
            List::Cons(head, tail) => {
                self.push_name(out, **head);
                out.append(separator_of(tail));
                self.push_listed(out, tail);
            },
        }
    }

    fn push_quoted(&self, out: &mut String, names: &List<Symbol>)
        ensures
            final(out)@ == old(out)@ + self@.quoted(*names),
        decreases names,
    {
        match names {
            List::Nil => {},
            List::Cons(head, tail) => {
                out.append("`");
                self.push_name(out, **head);
                out.append("`");
                out.append(separator_of(tail));
                self.push_quoted(out, tail);
            },
        }
    }

    fn push_member(&self, out: &mut String, member: Option<Symbol>)
        ensures
            final(out)@ == old(out)@ + self@.member(member),
    {
        match member {
            Some(field) => {
                out.append(".");
                self.push_name(out, field);
            },
            None => out.append(""),
        }
    }

    fn push_dotted(&self, out: &mut String, path: &List<Ident>)
        ensures
            final(out)@ == old(out)@ + self@.dotted(*path),
        decreases path,
    {
        match path {
            List::Nil => {},
            List::Cons(head, tail) => {
                self.push_name(out, head.name);
                if !tail.is_empty() {
                    out.append(".");
                    self.push_dotted(out, tail);
                }
            },
        }
    }

    /// The text of a message.
    pub fn message(&self, message: &Message) -> (r: String)
        ensures
            r@ == message.text(self@),
    {
        match message {
            Message::ExecutorMissing { declared } => {
                let mut out = "`scope(exec)` requires the enclosing function's effect row to declare an `Executor` capability (a bare capability entry naming an `Executor`-typed parameter); declared row is `".to_owned();
                self.push_row(&mut out, &declared.list);
                out.append("`");
                out
            },
            Message::AssignMoved { name } => {
                let mut out = "cannot assign to `".to_owned();
                self.push_name(&mut out, *name);
                out.append("`: it has been moved out");
                out
            },
            Message::ImmutableBorrow { mode, binding, member } => {
                let mut out = "`".to_owned();
                out.append(mode.keyword());
                out.append(" ");
                self.push_name(&mut out, *binding);
                self.push_member(&mut out, *member);
                out.append("` requires `");
                self.push_name(&mut out, *binding);
                out.append("` to be a mutable binding, but it is immutable; declare it `var` (a local) or take it as a `mutable` / `init` parameter — a `");
                out.append(mode.keyword());
                out.append("` borrow of an immutable binding is lowered as a copy, so the write would be lost");
                out
            },
            Message::ModeRequires { mode, name, required, actual } => {
                let mut out = "`".to_owned();
                out.append(mode.keyword());
                out.append(" ");
                self.push_name(&mut out, *name);
                out.append("` requires the binding to be ");
                out.append(required.describe());
                out.append(" here, but it is ");
                out.append(actual.describe());
                out
            },
            Message::FieldInitRequires { binding, field, actual } => {
                let mut out = "`set ".to_owned();
                self.push_name(&mut out, *binding);
                out.append(".");
                self.push_name(&mut out, *field);
                out.append("` requires the field to be uninitialised or consumed here, but it is ");
                out.append(actual.describe());
                out
            },
            Message::FieldModeRequires { mode, binding, field, actual } => {
                let mut out = "`".to_owned();
                out.append(mode.keyword());
                out.append(" ");
                self.push_name(&mut out, *binding);
                out.append(".");
                self.push_name(&mut out, *field);
                out.append("` requires the field to be valid here, but it is ");
                out.append(actual.describe());
                out
            },
            Message::LoopChangesState { name, before, after } => {
                let mut out = "loop body changes the state of outer binding `".to_owned();
                self.push_name(&mut out, *name);
                out.append("` (was ");
                out.append(before.describe());
                out.append(", now ");
                out.append(after.describe());
                out.append("); state must agree across iterations");
                out
            },
            Message::PartialAtExit { name, missing } => {
                let mut out = "binding `".to_owned();
                self.push_name(&mut out, *name);
                out.append("` is partially initialised at function exit; these fields are not valid: ");
                self.push_listed(&mut out, missing);
                out
            },
            Message::NotValidAtExit { name, state } => {
                let mut out = "binding `".to_owned();
                self.push_name(&mut out, *name);
                out.append("` is ");
                out.append(state.describe());
                out.append(" at function exit; every in-scope binding must be valid");
                out
            },
            Message::LinearUnconsumed { name } => {
                let mut out = "`linear` binding `".to_owned();
                self.push_name(&mut out, *name);
                out.append("` is not consumed before its scope ends; a `linear` value must be passed by `take` (or otherwise consumed) on every path — only `affine` values may be dropped");
                out
            },
            Message::HandlerOnlyErr { name } => {
                let mut out = "handlers only admit the `err` effect; found `".to_owned();
                self.push_name(&mut out, *name);
                out.append("`");
                out
            },
            Message::NoErrorToPropagate => "no error effect to propagate".to_owned(),
            Message::TerminationUnproven { declared } => {
                let mut out = "function is recursive but supplies no `decreases` measure; either supply `decreases` on the function (or a recursive sibling) or admit `divergence` in the declared row (currently `".to_owned();
                self.push_row(&mut out, &declared.list);
                out.append("`)");
                out
            },
            Message::DivergenceNotAdmitted { declared } => {
                let mut out = "function performs `divergence` but its declared row does not admit it; either supply `decreases` for the unbounded loop or add `divergence` to the row (currently `".to_owned();
                self.push_row(&mut out, &declared.list);
                out.append("`)");
                out
            },
            Message::EffectNotDeclared { entry, declared } => {
                let mut out = "function performs effect `".to_owned();
                self.push_entry(&mut out, *entry);
                out.append("` but does not declare it; declared row is `");
                self.push_row(&mut out, &declared.list);
                out.append("`");
                out
            },
            Message::LiteralTooLarge { value, prim } => {
                let mut out = "integer literal `".to_owned();
                push_decimal(&mut out, *value);
                out.append("` does not fit in `");
                out.append(prim.name());
                out.append("`");
                out
            },
            Message::TypeMismatch { expected, found } => {
                let mut out = "expected `".to_owned();
                self.push_ty(&mut out, *expected);
                out.append("`, found `");
                self.push_ty(&mut out, *found);
                out.append("`");
                out
            },
            Message::NotReadable { name, state } => {
                let mut out = "binding `".to_owned();
                self.push_name(&mut out, *name);
                out.append("` is ");
                out.append(state.describe());
                out.append(" at this point");
                out
            },
            Message::VariantNeedsArguments { ty_name, variant } => {
                let mut out = "variant `".to_owned();
                self.push_name(&mut out, *ty_name);
                out.append(".");
                self.push_name(&mut out, *variant);
                out.append("` has a payload — construct it with `");
                self.push_name(&mut out, *ty_name);
                out.append(".");
                self.push_name(&mut out, *variant);
                out.append("(...)` instead of using the bare path");
                out
            },
            Message::NoSuchVariant { variant, ty_name } => {
                let mut out = "no variant `".to_owned();
                self.push_name(&mut out, *variant);
                out.append("` on sum type `");
                self.push_name(&mut out, *ty_name);
                out.append("`");
                out
            },
            Message::NotInEnvironment { name } => {
                let mut out = "binding `".to_owned();
                self.push_name(&mut out, *name);
                out.append("` is not in the current type environment");
                out
            },
            Message::NotAValue { kind, name } => {
                let mut out = label_of_kind(*kind).to_owned();
                out.append(" `");
                self.push_name(&mut out, *name);
                out.append("` cannot be used as a value (no first-class ");
                out.append(label_of_kind(*kind));
                out.append("s)");
                out
            },
            Message::ModuleAsValue => "module name used in value position; expected an expression".to_owned(),
            Message::CannotFindBinding { name } => {
                let mut out = "cannot find binding `".to_owned();
                self.push_name(&mut out, *name);
                out.append("` in scope");
                out
            },
            Message::QualifiedPath => "qualified-path expressions are not yet inferred".to_owned(),
            Message::CallsNeedPackage => "function calls require a resolved-package context".to_owned(),
            Message::CannotCallModule => "cannot call a module".to_owned(),
            Message::NoResolution { path } => {
                let mut out = "callee path `".to_owned();
                self.push_dotted(&mut out, path);
                out.append("` has no recorded resolution");
                out
            },
            Message::CannotCall { kind, name } => {
                let mut out = "cannot call ".to_owned();
                out.append(label_of_kind(*kind));
                out.append(" `");
                self.push_name(&mut out, *name);
                out.append("`");
                out
            },
            Message::DiscriminantNamedArgument => "named argument is not admitted on intrinsic `discriminant_of`".to_owned(),
            Message::DiscriminantModeArgument => "call-site mode keyword is not admitted on intrinsic `discriminant_of`".to_owned(),
            Message::DiscriminantArity { supplied } => {
                let mut out = "intrinsic `discriminant_of` takes 1 argument(s) but ".to_owned();
                push_decimal(&mut out, *supplied as u128);
                out.append(" were supplied");
                out
            },
            Message::DiscriminantNotSum { ty } => {
                let mut out = "intrinsic `discriminant_of` expects a sum-typed value, found `".to_owned();
                self.push_ty(&mut out, *ty);
                out.append("`");
                out
            },
            Message::NoSignature { name } => {
                let mut out = "no signature recorded for function `".to_owned();
                self.push_name(&mut out, *name);
                out.append("`");
                out
            },
            Message::FunctionArity { name, arity, supplied } => {
                let mut out = "function `".to_owned();
                self.push_name(&mut out, *name);
                out.append("` takes ");
                push_decimal(&mut out, *arity as u128);
                out.append(" argument(s) but ");
                push_decimal(&mut out, *supplied as u128);
                out.append(" were supplied");
                out
            },
            Message::FunctionNamedArgument { field, function } => {
                let mut out = "named argument `".to_owned();
                self.push_name(&mut out, *field);
                out.append(":` is not admitted at function call site (function `");
                self.push_name(&mut out, *function);
                out.append("` takes positional arguments)");
                out
            },
            Message::VariantNoPayload { ty_name, variant, supplied } => {
                let mut out = "variant `".to_owned();
                self.push_name(&mut out, *ty_name);
                out.append(".");
                self.push_name(&mut out, *variant);
                out.append("` has no payload but ");
                push_decimal(&mut out, *supplied as u128);
                out.append(" argument(s) were supplied");
                out
            },
            Message::VariantArityOne { ty_name, variant, arity } => {
                let mut out = "variant `".to_owned();
                self.push_name(&mut out, *ty_name);
                out.append(".");
                self.push_name(&mut out, *variant);
                out.append("` takes ");
                push_decimal(&mut out, *arity as u128);
                out.append(" positional argument(s) but 1 was supplied");
                out
            },
            Message::VariantNeedsNames { ty_name, variant } => {
                let mut out = "struct-payload variant `".to_owned();
                self.push_name(&mut out, *ty_name);
                out.append(".");
                self.push_name(&mut out, *variant);
                out.append("` requires named arguments (`field: expr`)");
                out
            },
            Message::VariantArity { ty_name, variant, arity, supplied } => {
                let mut out = "variant `".to_owned();
                self.push_name(&mut out, *ty_name);
                out.append(".");
                self.push_name(&mut out, *variant);
                out.append("` takes ");
                push_decimal(&mut out, *arity as u128);
                out.append(" positional argument(s) but ");
                push_decimal(&mut out, *supplied as u128);
                out.append(" were supplied");
                out
            },
            Message::VariantNamedArgument { field, ty_name, variant } => {
                let mut out = "named argument `".to_owned();
                self.push_name(&mut out, *field);
                out.append(":` is not admitted at tuple-payload variant `");
                self.push_name(&mut out, *ty_name);
                out.append(".");
                self.push_name(&mut out, *variant);
                out.append("`");
                out
            },
            Message::VariantDuplicateField { field } => {
                let mut out = "duplicate field `".to_owned();
                self.push_name(&mut out, *field);
                out.append("` in variant payload");
                out
            },
            Message::VariantNoField { ty_name, variant, field } => {
                let mut out = "variant `".to_owned();
                self.push_name(&mut out, *ty_name);
                out.append(".");
                self.push_name(&mut out, *variant);
                out.append("` has no field `");
                self.push_name(&mut out, *field);
                out.append("`");
                out
            },
            Message::VariantMissing { ty_name, variant, missing } => {
                let mut out = "variant `".to_owned();
                self.push_name(&mut out, *ty_name);
                out.append(".");
                self.push_name(&mut out, *variant);
                out.append("` is missing field(s) ");
                self.push_quoted(&mut out, missing);
                out
            },
            Message::ComptimeImpure { callee, entries } => {
                let mut out = "call to `".to_owned();
                self.push_name(&mut out, *callee);
                out.append("` inside a comptime context is not comptime-pure; the callee's row contains non-pure entries: ");
                self.push_entries(&mut out, entries);
                out
            },
            Message::UnpropagatedError { callee, ty } => {
                let mut out = "call to `".to_owned();
                self.push_name(&mut out, *callee);
                out.append("` propagates `err: ");
                self.push_ty(&mut out, *ty);
                out.append("` but the result is not wrapped in `?` and no enclosing `handle err: T -> recovery { ... }` admits it; declaring the err in the enclosing function's row is not enough — each fallible call needs explicit propagation");
                out
            },
            Message::CannotCallValue { ty } => {
                let mut out = "cannot call value of type `".to_owned();
                self.push_ty(&mut out, *ty);
                out.append("`");
                out
            },
            Message::PointerArity { arity, supplied } => {
                let mut out = "fn-pointer expects ".to_owned();
                push_decimal(&mut out, *arity as u128);
                out.append(" argument(s) but ");
                push_decimal(&mut out, *supplied as u128);
                out.append(" were supplied");
                out
            },
            Message::PointerNamedArgument { field } => {
                let mut out = "named argument `".to_owned();
                self.push_name(&mut out, *field);
                out.append(":` is not admitted at a fn-pointer call site (positional arguments only)");
                out
            },
            Message::MethodArity { name, arity, supplied } => {
                let mut out = "method `".to_owned();
                self.push_name(&mut out, *name);
                out.append("` takes ");
                push_decimal(&mut out, *arity as u128);
                out.append(" argument(s) but ");
                push_decimal(&mut out, *supplied as u128);
                out.append(" were supplied");
                out
            },
            Message::MethodUnresolved { name, ty } => {
                let mut out = "no method `".to_owned();
                self.push_name(&mut out, *name);
                out.append("` resolves on receiver of type `");
                self.push_ty(&mut out, *ty);
                out.append("`; declare a free function `");
                self.push_name(&mut out, *name);
                out.append("(<receiver-type>, ...)` in scope");
                out
            },
            Message::CapabilityMethodArity { method, arity, supplied } => {
                let mut out = "method `".to_owned();
                out.append(method.method_name());
                out.append("` takes ");
                push_decimal(&mut out, *arity as u128);
                out.append(" argument(s) but ");
                push_decimal(&mut out, *supplied as u128);
                out.append(" were supplied");
                out
            },
            Message::CapabilityNamedArgument { field, method } => {
                let mut out = "named argument `".to_owned();
                self.push_name(&mut out, *field);
                out.append(":` is not admitted at capability-method call site `");
                out.append(method.method_name());
                out.append("`");
                out
            },
            Message::CapabilityModeArgument { method } => {
                let mut out = "call-site mode keyword is not admitted at capability-method call site `".to_owned();
                out.append(method.method_name());
                out.append("`");
                out
            },
            Message::AllocArrayNeedsType => "first argument to `alloc_array` must be a bare type name (e.g. `u32`, `MyType`)".to_owned(),
            Message::SlicePatNotSlice { ty } => {
                let mut out = "slice pattern requires a slice type; scrutinee has type `".to_owned();
                self.push_ty(&mut out, *ty);
                out.append("`");
                out
            },
            Message::TuplePatMismatch { arity, ty } => {
                let mut out = "tuple pattern of arity ".to_owned();
                push_decimal(&mut out, *arity as u128);
                out.append(" does not match scrutinee of type `");
                self.push_ty(&mut out, *ty);
                out.append("`");
                out
            },
            Message::VariantPatNotSum { ty } => {
                let mut out = "variant pattern requires a sum type; scrutinee has type `".to_owned();
                self.push_ty(&mut out, *ty);
                out.append("`");
                out
            },
            Message::PatNoVariant { variant, ty } => {
                let mut out = "no variant `".to_owned();
                self.push_name(&mut out, *variant);
                out.append("` on sum type `");
                self.push_ty(&mut out, *ty);
                out.append("`");
                out
            },
            Message::VariantPatArity { variant, arity, supplied } => {
                let mut out = "variant `".to_owned();
                self.push_name(&mut out, *variant);
                out.append("` has ");
                push_decimal(&mut out, *arity as u128);
                out.append(" positional field(s) but pattern supplied ");
                push_decimal(&mut out, *supplied as u128);
                out
            },
            Message::VariantPatFieldArity { variant, arity, supplied } => {
                let mut out = "variant `".to_owned();
                self.push_name(&mut out, *variant);
                out.append("` has ");
                push_decimal(&mut out, *arity as u128);
                out.append(" field(s) but positional pattern supplied ");
                push_decimal(&mut out, *supplied as u128);
                out
            },
            Message::VariantPatShape { variant } => {
                let mut out = "variant `".to_owned();
                self.push_name(&mut out, *variant);
                out.append("` payload shape does not match the pattern");
                out
            },
            Message::StructPatNotProduct { ty } => {
                let mut out = "struct pattern requires a product type; scrutinee has type `".to_owned();
                self.push_ty(&mut out, *ty);
                out.append("`");
                out
            },
            Message::NoLayout { ty } => {
                let mut out = "no layout recorded for type `".to_owned();
                self.push_ty(&mut out, *ty);
                out.append("`");
                out
            },
            Message::StructPatOnSum { ty } => {
                let mut out = "struct pattern requires a product type; `".to_owned();
                self.push_ty(&mut out, *ty);
                out.append("` is a sum type (use a variant pattern instead)");
                out
            },
            Message::DuplicateFieldPattern { field } => {
                let mut out = "duplicate field pattern `".to_owned();
                self.push_name(&mut out, *field);
                out.append("`");
                out
            },
            Message::NamedTypeNoField { owner, field } => {
                let mut out = "type `".to_owned();
                self.push_name(&mut out, *owner);
                out.append("` has no field `");
                self.push_name(&mut out, *field);
                out.append("`");
                out
            },
            Message::StructPatMissing { owner, missing } => {
                let mut out = "struct pattern for `".to_owned();
                self.push_name(&mut out, *owner);
                out.append("` is missing field(s) ");
                self.push_quoted(&mut out, missing);
                out.append(" (use `..` to ignore omitted fields)");
                out
            },
            Message::StructLitNeedsPackage => "struct literals require a resolved-package context".to_owned(),
            Message::StructLitModule => "module name used as a struct type; expected a `type` declaration".to_owned(),
            Message::StructLitNoResolution => "struct-literal path has no recorded resolution".to_owned(),
            Message::CannotConstruct { kind, name } => {
                let mut out = "cannot construct ".to_owned();
                out.append(label_of_kind(*kind));
                out.append(" `");
                self.push_name(&mut out, *name);
                out.append("` as a struct");
                out
            },
            Message::StructLitOnSum { name } => {
                let mut out = "cannot construct sum type `".to_owned();
                self.push_name(&mut out, *name);
                out.append("` with struct-literal syntax; use a variant constructor instead");
                out
            },
            Message::NoLayoutNamed { name } => {
                let mut out = "no layout recorded for type `".to_owned();
                self.push_name(&mut out, *name);
                out.append("`");
                out
            },
            Message::DuplicateInitialiser { field } => {
                let mut out = "duplicate initialiser for field `".to_owned();
                self.push_name(&mut out, *field);
                out.append("`");
                out
            },
            Message::StructLitMissing { name, missing } => {
                let mut out = "struct literal for `".to_owned();
                self.push_name(&mut out, *name);
                out.append("` is missing field(s) ");
                self.push_quoted(&mut out, missing);
                out
            },
            Message::FieldNotReadable { binding, field, state } => {
                let mut out = "cannot read `".to_owned();
                self.push_name(&mut out, *binding);
                out.append(".");
                self.push_name(&mut out, *field);
                out.append("`: the field is ");
                out.append(state.describe());
                out.append(" here");
                out
            },
            Message::FieldOnNonProduct { field, ty } => {
                let mut out = "cannot access field `.".to_owned();
                self.push_name(&mut out, *field);
                out.append("` on `");
                self.push_ty(&mut out, *ty);
                out.append("`; only product types support field access");
                out
            },
            Message::TypeNoField { ty, field } => {
                let mut out = "type `".to_owned();
                self.push_ty(&mut out, *ty);
                out.append("` has no field `");
                self.push_name(&mut out, *field);
                out.append("`");
                out
            },
            Message::BuiltinNamedArgument { field, builtin } => {
                let mut out = "named argument `".to_owned();
                self.push_name(&mut out, *field);
                out.append(":` is not admitted on comptime built-in `");
                out.append(builtin.name());
                out.append("`");
                out
            },
            Message::BuiltinModeArgument { builtin } => {
                let mut out = "call-site mode keyword is not admitted on comptime built-in `".to_owned();
                out.append(builtin.name());
                out.append("`");
                out
            },
            Message::BuiltinArity { builtin, supplied } => {
                let mut out = "built-in `".to_owned();
                out.append(builtin.name());
                out.append("` takes ");
                push_decimal(&mut out, builtin.arity() as u128);
                out.append(" argument(s) but ");
                push_decimal(&mut out, *supplied as u128);
                out.append(" were supplied");
                out
            },
            Message::SupportsNamedArgument => "named argument is not admitted on comptime built-in `target.supports`".to_owned(),
            Message::SupportsModeArgument => "call-site mode keyword is not admitted on comptime built-in `target.supports`".to_owned(),
            Message::SupportsArity { supplied } => {
                let mut out = "built-in `target.supports` takes 1 argument(s) but ".to_owned();
                push_decimal(&mut out, *supplied as u128);
                out.append(" were supplied");
                out
            },
            Message::SupportsNotCapability => "comptime built-in `target.supports` expects a capability type-name (e.g. `Subprocess`)".to_owned(),
            Message::OffsetOfField => "expected a bare field identifier (single-segment path) for `offset_of`'s field arg".to_owned(),
            Message::EmptyArray => "cannot infer the element type of an empty array literal `[]`; add a type annotation (e.g. `let xs: [T] = []`)".to_owned(),
            Message::BadCast { from, to } => {
                let mut out = "cannot cast `".to_owned();
                self.push_ty(&mut out, *from);
                out.append("` to `");
                self.push_ty(&mut out, *to);
                out.append("` — only numeric-to-numeric casts are admitted");
                out
            },
            Message::SubrangeNotSlice { ty } => {
                let mut out = "cannot take a sub-range of `".to_owned();
                self.push_ty(&mut out, *ty);
                out.append("` — only slice types `[T]` support range indexing");
                out
            },
            Message::IndexNotSlice { ty } => {
                let mut out = "cannot index into `".to_owned();
                self.push_ty(&mut out, *ty);
                out.append("` — only slice types `[T]` support indexing");
                out
            },
            Message::RangeMismatch { lo, hi } => {
                let mut out = "range endpoints have incompatible types: `".to_owned();
                self.push_ty(&mut out, *lo);
                out.append("` and `");
                self.push_ty(&mut out, *hi);
                out.append("`");
                out
            },
            Message::RangeNotNumeric { ty } => {
                let mut out = "range endpoints must be numeric, found `".to_owned();
                self.push_ty(&mut out, *ty);
                out.append("`");
                out
            },
            Message::TupleTooShort => "tuple expression requires at least 2 elements".to_owned(),
            Message::TupleIndexOut { index, ty, len } => {
                let mut out = "tuple index `.".to_owned();
                push_decimal(&mut out, *index as u128);
                out.append("` is out of bounds for `");
                self.push_ty(&mut out, *ty);
                out.append("` (length ");
                push_decimal(&mut out, *len as u128);
                out.append(")");
                out
            },
            Message::PositionalNotSum { index, ty } => {
                let mut out = "cannot apply positional index `.".to_owned();
                push_decimal(&mut out, *index as u128);
                out.append("` to `");
                self.push_ty(&mut out, *ty);
                out.append("` — only tuples and sum-typed values support positional access");
                out
            },
            Message::VariantIndexOut { index, ty, count } => {
                let mut out = "variant index `.".to_owned();
                push_decimal(&mut out, *index as u128);
                out.append("` is out of bounds for `");
                self.push_ty(&mut out, *ty);
                out.append("` (");
                push_decimal(&mut out, *count as u128);
                out.append(" variants)");
                out
            },
            Message::TupleIndexOn { index, ty } => {
                let mut out = "cannot apply tuple index `.".to_owned();
                push_decimal(&mut out, *index as u128);
                out.append("` to `");
                self.push_ty(&mut out, *ty);
                out.append("` — only tuple types support positional field access");
                out
            },
            Message::ForNotIterable { ty } => {
                let mut out = "`for` iter must be a slice or range, found `".to_owned();
                self.push_ty(&mut out, *ty);
                out.append("`");
                out
            },
            Message::ForRangeMismatch { lo, hi } => {
                let mut out = "for-range endpoints have incompatible types: `".to_owned();
                self.push_ty(&mut out, *lo);
                out.append("` and `");
                self.push_ty(&mut out, *hi);
                out.append("`");
                out
            },
            Message::LiteralPatMismatch { literal, scrutinee } => {
                let mut out = "literal pattern of type `".to_owned();
                self.push_ty(&mut out, *literal);
                out.append("` does not match scrutinee of type `");
                self.push_ty(&mut out, *scrutinee);
                out.append("`");
                out
            },
            Message::NonExhaustive => "non-exhaustive match: the scrutinee sum type has variants not covered by any arm; add the missing case arms or a `case _` wildcard".to_owned(),
            Message::BranchMismatch { first, second } => {
                let mut out = "branches have incompatible types: `".to_owned();
                self.push_ty(&mut out, *first);
                out.append("` vs `");
                self.push_ty(&mut out, *second);
                out.append("`");
                out
            },
            Message::NegNotNumeric { ty } => {
                let mut out = "unary `-` requires a numeric operand, found `".to_owned();
                self.push_ty(&mut out, *ty);
                out.append("`");
                out
            },
            Message::BitNotNotInteger { ty } => {
                let mut out = "unary `~` requires an integer operand, found `".to_owned();
                self.push_ty(&mut out, *ty);
                out.append("`");
                out
            },
            Message::OverflowOperator { op } => {
                let mut out = "`".to_owned();
                out.append(op_keyword(*op));
                out.append("` originates `err: Overflow` but neither the function's declared row nor an open handler carries it; add `import std.overflow` and either `with {err: Overflow, ...}` to the function signature or wrap the operator in `handle err: overflow.Overflow as _ -> ...`");
                out
            },
            Message::OverflowCast => "`as T checked` originates `err: Overflow` but neither the function's declared row nor an open handler carries it; add `import std.overflow` and either `with {err: Overflow, ...}` to the function signature or wrap the cast in `handle err: overflow.Overflow as _ -> ...`".to_owned(),
            Message::NotNumeric { op, ty } => {
                let mut out = "binary `".to_owned();
                out.append(op_keyword(*op));
                out.append("` requires numeric operands, found `");
                self.push_ty(&mut out, *ty);
                out.append("`");
                out
            },
            Message::FloatModulo { op, ty } => {
                let mut out = "modulo (`".to_owned();
                out.append(op_keyword(*op));
                out.append("`) is integer-only; use `std.math.scalar.fmod` for floats — found `");
                self.push_ty(&mut out, *ty);
                out.append("`");
                out
            },
            Message::NotInteger { op, ty } => {
                let mut out = "binary `".to_owned();
                out.append(op_keyword(*op));
                out.append("` requires integer operands, found `");
                self.push_ty(&mut out, *ty);
                out.append("`");
                out
            },
            Message::NotOrdered { op, ty } => {
                let mut out = "ordering operator `".to_owned();
                out.append(op_keyword(*op));
                out.append("` requires numeric operands, found `");
                self.push_ty(&mut out, *ty);
                out.append("`");
                out
            },
        }
    }

    /// The text of a diagnostic.
    pub fn render(&self, diagnostic: &Diagnostic) -> (r: String)
        ensures
            r@ == diagnostic.message.text(self@),
    {
        self.message(&diagnostic.message)
    }

    /// The text of a type.
    pub fn display_ty(&self, ty: TyId) -> (r: String)
        ensures
            r@ == self@.ty(ty),
    {
        let mut out = String::new();
        self.push_ty(&mut out, ty);
        assert(Seq::<char>::empty() + self@.ty(ty) == self@.ty(ty));
        out
    }
}

} // verus!
