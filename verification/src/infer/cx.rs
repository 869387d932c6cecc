//! The context that inference threads through a walk.

use vstd::prelude::*;

use super::row_acc::{discharged, discharged_envelope, EffectAcc};
use crate::comptime_builtin::ComptimeBuiltin;
use crate::cx::TyCx;
use crate::diag::{severity_of, Diagnostic, DiagnosticClass, LintConfig, Message};
use crate::effect::{EffectEntry, EffectRow};
use crate::implicit_spec::{ImplicitSpec, ImplicitSpecRequest};
use crate::intern::{interned, text_of, Interner, Symbol};
use crate::intrinsic::{CapabilityMethod, IntrinsicKind, PrimitiveStaticMethod};
use crate::list::List;
use crate::package::{MonoFns, ResolvedPackage};
use crate::render::{Renderer, Words};
use crate::span::Span;
use crate::table::{SpanTable, SymbolTable};
use crate::ty::{kind_of, ty_interned, BindingId, TyId, TyInterner, TyKind};

verus! {

/// The stores that inference reads and fills, and the package it runs in.
pub struct LowerCx<'a> {
    /// Identifier text.
    pub interner: Interner,
    /// Types.
    pub ty_interner: TyInterner,
    /// The resolved package, where there is one.
    pub package: Option<&'a ResolvedPackage>,
}

/// The context of a walk.
pub struct InferCx<'a> {
    /// The stores and the package.
    pub lower: LowerCx<'a>,
    /// Layouts and signatures.
    pub ty_cx: &'a TyCx,
    /// Severities.
    pub lint_cfg: &'a LintConfig,
    /// The diagnostics so far.
    pub diags: Vec<Diagnostic>,
    /// The row that the enclosing function declares.
    pub declared_row: EffectRow,
    /// The effects of the walk so far.
    pub row: EffectAcc,
    /// Needs for instances of generic declarations.
    pub implicit_specs: Vec<ImplicitSpecRequest>,
    /// Whether the walk is inside a compile-time body.
    pub in_comptime_context: bool,
    /// The return type of the enclosing function, or the error type where
    /// there is none.
    pub fn_return_ty: TyId,
    /// Which capability a derived capability comes from.
    pub capability_aliases: SymbolTable,
    /// Effects that enclosing handlers take care of, innermost last.
    pub discharged_effects: Vec<EffectEntry>,
    /// How many `?` the walk is directly under.
    pub try_position_depth: usize,
    /// The function behind each method call.
    pub method_resolutions: SpanTable<BindingId>,
    /// The operation behind each intrinsic call.
    pub intrinsic_calls: SpanTable<IntrinsicKind>,
    /// The type that each path in a compile-time body names.
    pub comptime_type_paths: SpanTable<TyId>,
    /// The built-in behind each call.
    pub comptime_builtin_calls: SpanTable<ComptimeBuiltin>,
    /// The function behind each direct call.
    pub comptime_fn_calls: SpanTable<BindingId>,
    /// The static method behind each call.
    pub primitive_static_calls: SpanTable<PrimitiveStaticMethod>,
    /// The capability method behind each method call.
    pub capability_method_calls: SpanTable<CapabilityMethod>,
    /// Functions that specialisation made.
    pub mono_fns: Option<&'a MonoFns>,
}

/// The contents of an [`InferCx`].
#[verifier::ext_equal]
pub struct Ic {
    /// Identifier text by handle.
    pub syms: Seq<Seq<char>>,
    /// Stored types by handle.
    pub tys: Seq<TyKind>,
    /// The package.
    pub package: Option<ResolvedPackage>,
    /// Layouts and signatures.
    pub ty_cx: TyCx,
    /// Severities.
    pub lints: LintConfig,
    /// The diagnostics so far.
    pub diags: Seq<Diagnostic>,
    /// The declared row.
    pub declared_row: EffectRow,
    /// The effects so far.
    pub row: Seq<EffectEntry>,
    /// Needs for instances.
    pub specs: Seq<ImplicitSpecRequest>,
    /// Whether inside a compile-time body.
    pub comptime: bool,
    /// The return type of the enclosing function.
    pub return_ty: TyId,
    /// Roots of derived capabilities.
    pub aliases: Map<Symbol, Symbol>,
    /// Effects that handlers take care of.
    pub handled: Seq<EffectEntry>,
    /// Number of enclosing `?`.
    pub try_depth: usize,
    /// Functions behind method calls.
    pub methods: Map<Span, BindingId>,
    /// Operations behind intrinsic calls.
    pub intrinsics: Map<Span, IntrinsicKind>,
    /// Types that compile-time paths name.
    pub type_paths: Map<Span, TyId>,
    /// Built-ins behind calls.
    pub builtins: Map<Span, ComptimeBuiltin>,
    /// Functions behind direct calls.
    pub fn_calls: Map<Span, BindingId>,
    /// Static methods behind calls.
    pub statics: Map<Span, PrimitiveStaticMethod>,
    /// Capability methods behind method calls.
    pub cap_calls: Map<Span, CapabilityMethod>,
    /// Specialised functions.
    pub mono: Option<MonoFns>,
}

impl<'a> View for InferCx<'a> {
    type V = Ic;

    open spec fn view(&self) -> Ic {
        Ic {
            syms: self.lower.interner@,
            tys: self.lower.ty_interner@,
            package: match self.lower.package {
                Some(p) => Some(*p),
                None => None,
            },
            ty_cx: *self.ty_cx,
            lints: *self.lint_cfg,
            diags: self.diags@,
            declared_row: self.declared_row,
            row: self.row@,
            specs: self.implicit_specs@,
            comptime: self.in_comptime_context,
            return_ty: self.fn_return_ty,
            aliases: self.capability_aliases@,
            handled: self.discharged_effects@,
            try_depth: self.try_position_depth,
            methods: self.method_resolutions@,
            intrinsics: self.intrinsic_calls@,
            type_paths: self.comptime_type_paths@,
            builtins: self.comptime_builtin_calls@,
            fn_calls: self.comptime_fn_calls@,
            statics: self.primitive_static_calls@,
            cap_calls: self.capability_method_calls@,
            mono: match self.mono_fns {
                Some(m) => Some(*m),
                None => None,
            },
        }
    }
}

/// Whether a request for the same instance is already recorded.
pub open spec fn requested(
    specs: Seq<ImplicitSpecRequest>,
    kind: ImplicitSpec,
    type_arg: TyId,
) -> bool {
    exists|i: int|
        0 <= i < specs.len() && (#[trigger] specs[i]).kind == kind && specs[i].type_arg == type_arg
}

impl Ic {
    /// With a diagnostic, unless its class is switched off.
    pub open spec fn emit(self, class: DiagnosticClass, span: Span, message: Message) -> Ic {
        match severity_of(self.lints.levels, class) {
            Some(severity) => Ic {
                diags: self.diags.push(Diagnostic { class, severity, span, message }),
                ..self
            },
            None => self,
        }
    }

    /// With a typing error.
    pub open spec fn error(self, span: Span, message: Message) -> Ic {
        self.emit(DiagnosticClass::TypecheckError, span, message)
    }

    /// With an effect.
    pub open spec fn perform(self, entry: EffectEntry) -> Ic {
        Ic { row: self.row.push(entry), ..self }
    }

    /// The kind of a type.
    pub open spec fn kind(self, ty: TyId) -> TyKind {
        kind_of(self.tys, ty)
    }

    /// With `kind` stored.
    pub open spec fn stored(self, kind: TyKind) -> Ic {
        Ic { tys: ty_interned(self.tys, kind).0, ..self }
    }

    /// The handle of `kind` once it is stored.
    pub open spec fn handle(self, kind: TyKind) -> TyId {
        ty_interned(self.tys, kind).1
    }

    /// What texts are drawn from.
    pub open spec fn words(self) -> Words {
        Words { syms: self.syms, tys: self.tys, package: self.package }
    }

    /// The text of a symbol.
    pub open spec fn text(self, sym: Symbol) -> Seq<char> {
        text_of(self.syms, sym)
    }

    /// With `text` interned.
    pub open spec fn named(self, text: Seq<char>) -> Ic {
        Ic { syms: interned(self.syms, text).0, ..self }
    }

    /// The symbol of `text` once it is interned.
    pub open spec fn symbol(self, text: Seq<char>) -> Symbol {
        interned(self.syms, text).1
    }

    /// With a need for an instance, recorded once.
    pub open spec fn need(self, kind: ImplicitSpec, type_arg: TyId, span: Span) -> Ic {
        if requested(self.specs, kind, type_arg) {
            self
        } else {
            Ic { specs: self.specs.push(ImplicitSpecRequest { kind, type_arg, span }), ..self }
        }
    }

    /// The capability that `sym` is derived from, or `sym` itself.
    pub open spec fn root(self, sym: Symbol) -> Symbol {
        if self.aliases.contains_key(sym) {
            self.aliases[sym]
        } else {
            sym
        }
    }
}

impl<'a> InferCx<'a> {
    /// A context outside of any function.
    pub fn new(
        lower: LowerCx<'a>,
        ty_cx: &'a TyCx,
        lint_cfg: &'a LintConfig,
        diags: Vec<Diagnostic>,
    ) -> (r: InferCx<'a>)
        ensures
            r.lower == lower,
            r.ty_cx == ty_cx,
            r.lint_cfg == lint_cfg,
            r.diags == diags,
            r@ == (Ic {
                declared_row: EffectRow { list: List::Nil },
                row: Seq::empty(),
                specs: Seq::empty(),
                comptime: false,
                return_ty: TyId::Error,
                aliases: Map::empty(),
                handled: Seq::empty(),
                try_depth: 0,
                methods: Map::empty(),
                intrinsics: Map::empty(),
                type_paths: Map::empty(),
                builtins: Map::empty(),
                fn_calls: Map::empty(),
                statics: Map::empty(),
                cap_calls: Map::empty(),
                mono: None,
                ..r@
            }),
    {
        let fn_return_ty = lower.ty_interner.error();
        InferCx {
            lower,
            ty_cx,
            lint_cfg,
            diags,
            declared_row: EffectRow::empty(),
            row: EffectAcc::new(),
            implicit_specs: Vec::new(),
            in_comptime_context: false,
            fn_return_ty,
            capability_aliases: SymbolTable::new(),
            discharged_effects: Vec::new(),
            try_position_depth: 0,
            method_resolutions: SpanTable::new(),
            intrinsic_calls: SpanTable::new(),
            comptime_type_paths: SpanTable::new(),
            comptime_builtin_calls: SpanTable::new(),
            comptime_fn_calls: SpanTable::new(),
            primitive_static_calls: SpanTable::new(),
            capability_method_calls: SpanTable::new(),
            mono_fns: None,
        }
    }

    /// Record a need for an instance, unless the same need is recorded.
    pub fn register_implicit_spec(&mut self, kind: ImplicitSpec, type_arg: TyId, span: Span)
        ensures
            final(self)@ == old(self)@.need(kind, type_arg, span),
    {
        let n: usize = self.implicit_specs.len();
        let mut i: usize = 0;
        while i < n
            invariant
                n == self.implicit_specs.len(),
                i <= n,
                self@ == old(self)@,
                forall|j: int|
                    0 <= j < i ==> (#[trigger] self.implicit_specs@[j]).kind != kind
                        || self.implicit_specs@[j].type_arg != type_arg,
            decreases n - i,
        {
            if self.implicit_specs[i].kind == kind && self.implicit_specs[i].type_arg == type_arg {
                assert(requested(self@.specs, kind, type_arg));
                return;
            }
            i += 1;
        }
        self.implicit_specs.push(ImplicitSpecRequest { kind, type_arg, span });
    }

    /// The handle of the error type.
    pub fn ty_error(&self) -> (r: TyId)
        ensures
            r == TyId::Error,
    {
        self.lower.ty_interner.error()
    }

    /// The kind of a type.
    pub fn kind(&self, ty: TyId) -> (r: TyKind)
        ensures
            r == self@.kind(ty),
    {
        self.lower.ty_interner.kind(ty)
    }

    /// Report a typing error, unless typing errors are switched off.
    pub fn emit_typecheck_error(&mut self, span: Span, message: Message)
        ensures
            final(self)@ == old(self)@.error(span, message),
    {
        self.emit_diagnostic(DiagnosticClass::TypecheckError, span, message);
    }

    /// Report a diagnostic, unless its class is switched off.
    pub fn emit_diagnostic(&mut self, class: DiagnosticClass, span: Span, message: Message)
        ensures
            final(self)@ == old(self)@.emit(class, span, message),
    {
        match self.lint_cfg.effective(class) {
            Some(severity) => {
                self.diags.push(Diagnostic { class, severity, span, message });
            },
            None => {},
        }
    }

    /// Record an effect.
    pub fn push_effect_entry(&mut self, entry: EffectEntry)
        ensures
            final(self)@ == old(self)@.perform(entry),
    {
        self.row.push(entry);
    }

    /// The capability that `sym` is derived from, or `sym` itself.
    pub fn capability_root(&self, sym: Symbol) -> (r: Symbol)
        ensures
            r == self@.root(sym),
    {
        match self.capability_aliases.get(sym) {
            Some(root) => root,
            None => sym,
        }
    }

    /// The handle of `kind`, stored where it was not yet.
    pub fn intern_kind(&mut self, kind: TyKind) -> (r: TyId)
        ensures
            final(self)@ == old(self)@.stored(kind),
            r == old(self)@.handle(kind),
    {
        self.lower.ty_interner.intern_kind(kind)
    }

    /// The text of a type.
    pub fn display_ty(&self, ty: TyId) -> (r: String)
        ensures
            r@ == self@.words().ty(ty),
    {
        let renderer = Renderer {
            interner: &self.lower.interner,
            ty_interner: &self.lower.ty_interner,
            package: self.lower.package,
        };
        renderer.display_ty(ty)
    }

    /// The symbol of `text`, interned where it was not yet.
    pub fn intern(&mut self, text: &str) -> (r: Symbol)
        ensures
            final(self)@ == old(self)@.named(text@),
            r == old(self)@.symbol(text@),
    {
        self.lower.interner.intern(text)
    }
}

/// Whether `later` starts with `earlier`.
pub open spec fn extends<T>(earlier: Seq<T>, later: Seq<T>) -> bool {
    &&& earlier.len() <= later.len()
    &&& forall|i: int| 0 <= i < earlier.len() ==> #[trigger] later[i] == earlier[i]
}

/// The records of a context that a walk adds to.
pub struct Log {
    /// Diagnostics.
    pub diags: Seq<Diagnostic>,
    /// Effects.
    pub row: Seq<EffectEntry>,
    /// Identifier text.
    pub syms: Seq<Seq<char>>,
    /// Types.
    pub tys: Seq<TyKind>,
    /// Requests.
    pub specs: Seq<ImplicitSpecRequest>,
}

impl Ic {
    /// The records that a walk adds to.
    pub open spec fn log(self) -> Log {
        Log {
            diags: self.diags,
            row: self.row,
            syms: self.syms,
            tys: self.tys,
            specs: self.specs,
        }
    }
}

/// What a walk leaves alone: the package, the tables of declarations and the
/// settings of the enclosing function are unchanged, and everything that is
/// recorded is only added to.
pub open spec fn kept(before: Ic, after: Ic) -> bool {
    &&& after.package == before.package
    &&& after.ty_cx == before.ty_cx
    &&& after.lints == before.lints
    &&& after.declared_row == before.declared_row
    &&& after.comptime == before.comptime
    &&& after.return_ty == before.return_ty
    &&& after.handled == before.handled
    &&& after.try_depth == before.try_depth
    &&& after.mono == before.mono
    &&& grown(before.log(), after.log())
}

/// Whether the records of `before` are the first records of `after`.
#[verifier::opaque]
pub open spec fn grown(before: Log, after: Log) -> bool {
    &&& extends(before.diags, after.diags)
    &&& extends(before.row, after.row)
    &&& extends(before.syms, after.syms)
    &&& extends(before.tys, after.tys)
    &&& extends(before.specs, after.specs)
}

/// Records are the first records of themselves.
pub broadcast proof fn grown_self(a: Log)
    ensures
        #[trigger] grown(a, a),
{
    reveal(grown);
}

/// Growth in two steps.
pub broadcast proof fn grown_twice(a: Log, b: Log, c: Log)
    requires
        grown(a, b),
        #[trigger] grown(b, c),
    ensures
        #[trigger] grown(a, c),
{
    reveal(grown);
}

/// A diagnostic is an addition.
pub broadcast proof fn grown_emit(a: Log, ic: Ic, class: DiagnosticClass, span: Span, message: Message)
    requires
        grown(a, ic.log()),
    ensures
        #[trigger] grown(a, ic.emit(class, span, message).log()),
{
    reveal(grown);
}

/// An effect is an addition.
pub broadcast proof fn grown_perform(a: Log, ic: Ic, entry: EffectEntry)
    requires
        grown(a, ic.log()),
    ensures
        #[trigger] grown(a, ic.perform(entry).log()),
{
    reveal(grown);
}

/// A stored type is an addition.
pub broadcast proof fn grown_stored(a: Log, ic: Ic, kind: TyKind)
    requires
        grown(a, ic.log()),
    ensures
        #[trigger] grown(a, ic.stored(kind).log()),
{
    reveal(grown);
}

/// An interned text is an addition.
pub broadcast proof fn grown_named(a: Log, ic: Ic, text: Seq<char>)
    requires
        grown(a, ic.log()),
    ensures
        #[trigger] grown(a, ic.named(text).log()),
{
    reveal(grown);
}

/// A request is an addition.
pub broadcast proof fn grown_need(a: Log, ic: Ic, kind: ImplicitSpec, type_arg: TyId, span: Span)
    requires
        grown(a, ic.log()),
    ensures
        #[trigger] grown(a, ic.need(kind, type_arg, span).log()),
{
    reveal(grown);
}

/// Facts about growing records.
pub broadcast group group_grown {
    grown_self,
    grown_twice,
    grown_emit,
    grown_perform,
    grown_stored,
    grown_named,
    grown_need,
}

/// A position taken before a walk is still a position after it.
pub proof fn lemma_checkpoint(before: Ic, after: Ic)
    requires
        grown(before.log(), after.log()),
    ensures
        before.row.len() <= after.row.len(),
{
    reveal(grown);
}

/// Discharging an effect of a walk leaves what was recorded before it.
pub proof fn lemma_grown_discharged(before: Ic, after: Ic, entry: EffectEntry)
    requires
        grown(before.log(), after.log()),
    ensures
        before.row.len() <= after.row.len(),
        grown(
            before.log(),
            (Ic { row: discharged(after.row, before.row.len(), entry), ..after }).log(),
        ),
{
    reveal(grown);
}

/// Discharging the compile-time envelope of a walk leaves what was recorded
/// before it.
pub proof fn lemma_grown_envelope(before: Ic, after: Ic)
    requires
        grown(before.log(), after.log()),
    ensures
        before.row.len() <= after.row.len(),
        grown(
            before.log(),
            (Ic { row: discharged_envelope(after.row, before.row.len()), ..after }).log(),
        ),
{
    reveal(grown);
}

} // verus!
