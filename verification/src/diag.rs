//! Diagnostics.

use vstd::prelude::*;

use crate::comptime_builtin::ComptimeBuiltin;
use crate::effect::{EffectEntry, EffectRow};
use crate::hir::HirCallMode;
use crate::intern::Symbol;
use crate::intrinsic::CapabilityMethod;
use crate::list::List;
use crate::package::BindingKind;
use crate::prim::Primitive;
use crate::span::Span;
use crate::syntax::{BinOp, Ident};
use crate::ty::TyId;

verus! {

/// Class of a diagnostic.
#[derive(Copy, Clone, Debug, PartialEq, Eq, Structural, Hash)]
pub enum DiagnosticClass {
    /// A typing error.
    TypecheckError,
    /// A misused parameter mode.
    ModeViolation,
    /// An effect outside the declared row.
    EffectRowMismatch,
    /// A compile-time body that is not pure.
    ComptimePurityLoss,
    /// A recursive function without a measure.
    TerminationUnproven,
    /// Divergence that the row does not admit.
    DivergenceNotAdmitted,
    /// A match that leaves out a variant.
    NonExhaustiveMatch,
    /// A concurrency region without an executor.
    ExecutorMissingInRow,
}

/// How serious a diagnostic is.
#[derive(Copy, Clone, Debug, PartialEq, Eq, Structural, Hash)]
pub enum Severity {
    /// Compilation fails.
    Error,
    /// Compilation goes on.
    Warning,
}

/// What a package sets for one class.
#[derive(Copy, Clone, Debug, PartialEq, Eq, Structural)]
pub struct LintLevel {
    /// The class.
    pub class: DiagnosticClass,
    /// Its severity, or `None` where the class is switched off.
    pub severity: Option<Severity>,
}

/// Severities of the diagnostic classes.
#[derive(Debug)]
pub struct LintConfig {
    /// What a package sets; a class without an entry is an error.
    pub levels: List<LintLevel>,
}

/// The severity of `class`: the first level set for it, else an error.
pub open spec fn severity_of(levels: List<LintLevel>, class: DiagnosticClass) -> Option<Severity>
    decreases levels,
{
    match levels {
        List::Nil => Some(Severity::Error),
        List::Cons(l, rest) => if l.class == class {
            l.severity
        } else {
            severity_of(*rest, class)
        },
    }
}

fn find_severity(levels: &List<LintLevel>, class: DiagnosticClass) -> (r: Option<Severity>)
    ensures
        r == severity_of(*levels, class),
    decreases levels,
{
    match levels {
        List::Nil => Some(Severity::Error),
        List::Cons(l, rest) => if l.class == class {
            l.severity
        } else {
            find_severity(rest, class)
        },
    }
}

impl LintConfig {
    /// Every class is an error.
    pub fn new() -> (r: LintConfig)
        ensures
            r == (LintConfig { levels: List::Nil }),
    {
        LintConfig { levels: List::Nil }
    }

    /// The severity of `class`, or `None` where it is switched off.
    pub fn effective(&self, class: DiagnosticClass) -> (r: Option<Severity>)
        ensures
            r == severity_of(self.levels, class),
    {
        find_severity(&self.levels, class)
    }
}

/// State of a binding, as a diagnostic words it.
#[derive(Copy, Clone, Debug, PartialEq, Eq, Structural)]
pub enum StateWord {
    /// Moved out.
    Consumed,
    /// Not initialised.
    Uninit,
    /// Some fields valid.
    Partial,
    /// Initialised.
    Valid,
}

impl StateWord {
    /// The word.
    pub open spec fn text(self) -> Seq<char> {
        match self {
            StateWord::Consumed => "consumed (moved out)"@,
            StateWord::Uninit => "uninitialised"@,
            StateWord::Partial => "partially initialised"@,
            StateWord::Valid => "valid"@,
        }
    }

    /// The word.
    pub fn describe(self) -> (r: &'static str)
        ensures
            r@ == self.text(),
    {
        match self {
            StateWord::Consumed => "consumed (moved out)",
            StateWord::Uninit => "uninitialised",
            StateWord::Partial => "partially initialised",
            StateWord::Valid => "valid",
        }
    }
}

/// What a diagnostic says.
#[derive(Debug, PartialEq, Eq)]
pub enum Message {
    /// `scope(exec)` in a function whose row has no executor.
    ExecutorMissing {
        /// The declared row.
        declared: EffectRow,
    },
    /// Assignment to a binding that was moved out.
    AssignMoved {
        /// The name.
        name: Symbol,
    },
    /// A write through an immutable binding.
    ImmutableBorrow {
        /// The keyword.
        mode: HirCallMode,
        /// The binding.
        binding: Symbol,
        /// Field of the binding that is borrowed.
        member: Option<Symbol>,
    },
    /// A mode keyword on a binding in the wrong state.
    ModeRequires {
        /// The keyword.
        mode: HirCallMode,
        /// The name.
        name: Symbol,
        /// The state that the keyword asks for.
        required: StateWord,
        /// The state that it is in.
        actual: StateWord,
    },
    /// `init` of a field that is valid already.
    FieldInitRequires {
        /// The binding.
        binding: Symbol,
        /// The field.
        field: Symbol,
        /// The state that it is in.
        actual: StateWord,
    },
    /// A mode keyword on a field that is not valid.
    FieldModeRequires {
        /// The keyword.
        mode: HirCallMode,
        /// The binding.
        binding: Symbol,
        /// The field.
        field: Symbol,
        /// The state that it is in.
        actual: StateWord,
    },
    /// A loop body that changes the state of an outer binding.
    LoopChangesState {
        /// The name.
        name: Symbol,
        /// The state before the body.
        before: StateWord,
        /// The state after the body.
        after: StateWord,
    },
    /// A partially initialised binding at function exit.
    PartialAtExit {
        /// The name.
        name: Symbol,
        /// The missing fields.
        missing: List<Symbol>,
    },
    /// A binding that is not valid at function exit.
    NotValidAtExit {
        /// The name.
        name: Symbol,
        /// The state that it is in.
        state: StateWord,
    },
    /// A linear binding that reaches the end of its scope.
    LinearUnconsumed {
        /// The name.
        name: Symbol,
    },
    /// A handler of an effect other than `err`.
    HandlerOnlyErr {
        /// The name.
        name: Symbol,
    },
    /// `?` on an operand without an `err` effect.
    NoErrorToPropagate,
    /// A recursive function without a measure.
    TerminationUnproven {
        /// The declared row.
        declared: EffectRow,
    },
    /// Divergence that the row does not admit.
    DivergenceNotAdmitted {
        /// The declared row.
        declared: EffectRow,
    },
    /// An effect that the row does not declare.
    EffectNotDeclared {
        /// The effect.
        entry: EffectEntry,
        /// The declared row.
        declared: EffectRow,
    },
    /// An integer literal outside its type.
    LiteralTooLarge {
        /// The value.
        value: u128,
        /// The type.
        prim: Primitive,
    },
    /// A type other than the expected one.
    TypeMismatch {
        /// The expected type.
        expected: TyId,
        /// The type that was found.
        found: TyId,
    },
    /// A read of a binding that is not valid.
    NotReadable {
        /// The name.
        name: Symbol,
        /// The state that it is in.
        state: StateWord,
    },
    /// A variant with a payload used without arguments.
    VariantNeedsArguments {
        /// The sum type.
        ty_name: Symbol,
        /// The variant.
        variant: Symbol,
    },
    /// A variant that the named sum type does not have.
    NoSuchVariant {
        /// The variant.
        variant: Symbol,
        /// The sum type.
        ty_name: Symbol,
    },
    /// A local that is not in scope.
    NotInEnvironment {
        /// The name.
        name: Symbol,
    },
    /// An item used as a value.
    NotAValue {
        /// What the name stands for.
        kind: BindingKind,
        /// The name.
        name: Symbol,
    },
    /// A module used as a value.
    ModuleAsValue,
    /// A name that is not in scope.
    CannotFindBinding {
        /// The name.
        name: Symbol,
    },
    /// A qualified path that was not resolved.
    QualifiedPath,
    /// A call outside of a resolved package.
    CallsNeedPackage,
    /// A call of a module.
    CannotCallModule,
    /// A callee that was not resolved.
    NoResolution {
        /// The path.
        path: List<Ident>,
    },
    /// A call of an item that is not a function.
    CannotCall {
        /// What the name stands for.
        kind: BindingKind,
        /// The name.
        name: Symbol,
    },
    /// A named argument of `discriminant_of`.
    DiscriminantNamedArgument,
    /// A mode keyword in `discriminant_of`.
    DiscriminantModeArgument,
    /// A wrong number of arguments of `discriminant_of`.
    DiscriminantArity {
        /// How many were supplied.
        supplied: usize,
    },
    /// `discriminant_of` on a value that is not of a sum type.
    DiscriminantNotSum {
        /// The type.
        ty: TyId,
    },
    /// A function without a signature.
    NoSignature {
        /// The name.
        name: Symbol,
    },
    /// A wrong number of arguments of a function.
    FunctionArity {
        /// The name.
        name: Symbol,
        /// How many there should be.
        arity: usize,
        /// How many were supplied.
        supplied: usize,
    },
    /// A named argument of a function.
    FunctionNamedArgument {
        /// The field.
        field: Symbol,
        /// The function.
        function: Symbol,
    },
    /// Arguments of a variant without a payload.
    VariantNoPayload {
        /// The sum type.
        ty_name: Symbol,
        /// The variant.
        variant: Symbol,
        /// How many were supplied.
        supplied: usize,
    },
    /// One argument of a variant with several.
    VariantArityOne {
        /// The sum type.
        ty_name: Symbol,
        /// The variant.
        variant: Symbol,
        /// How many there should be.
        arity: usize,
    },
    /// A positional argument of a variant with named fields.
    VariantNeedsNames {
        /// The sum type.
        ty_name: Symbol,
        /// The variant.
        variant: Symbol,
    },
    /// A wrong number of arguments of a variant.
    VariantArity {
        /// The sum type.
        ty_name: Symbol,
        /// The variant.
        variant: Symbol,
        /// How many there should be.
        arity: usize,
        /// How many were supplied.
        supplied: usize,
    },
    /// A named argument of a variant with positional elements.
    VariantNamedArgument {
        /// The field.
        field: Symbol,
        /// The sum type.
        ty_name: Symbol,
        /// The variant.
        variant: Symbol,
    },
    /// A field given twice to a variant.
    VariantDuplicateField {
        /// The field.
        field: Symbol,
    },
    /// A field that the variant does not have.
    VariantNoField {
        /// The sum type.
        ty_name: Symbol,
        /// The variant.
        variant: Symbol,
        /// The field.
        field: Symbol,
    },
    /// Fields not given to a variant.
    VariantMissing {
        /// The sum type.
        ty_name: Symbol,
        /// The variant.
        variant: Symbol,
        /// The missing fields.
        missing: List<Symbol>,
    },
    /// A call in a compile-time body with effects that it may not have.
    ComptimeImpure {
        /// The callee.
        callee: Symbol,
        /// The effects.
        entries: List<EffectEntry>,
    },
    /// A fallible call without `?` or handler.
    UnpropagatedError {
        /// The callee.
        callee: Symbol,
        /// The type.
        ty: TyId,
    },
    /// A call of a value that is not a function.
    CannotCallValue {
        /// The type.
        ty: TyId,
    },
    /// A wrong number of arguments of a function pointer.
    PointerArity {
        /// How many there should be.
        arity: usize,
        /// How many were supplied.
        supplied: usize,
    },
    /// A named argument of a function pointer.
    PointerNamedArgument {
        /// The field.
        field: Symbol,
    },
    /// A wrong number of arguments of a method.
    MethodArity {
        /// The name.
        name: Symbol,
        /// How many there should be.
        arity: usize,
        /// How many were supplied.
        supplied: usize,
    },
    /// A method that does not exist.
    MethodUnresolved {
        /// The name.
        name: Symbol,
        /// The type.
        ty: TyId,
    },
    /// A wrong number of arguments of a capability method.
    CapabilityMethodArity {
        /// The method.
        method: CapabilityMethod,
        /// How many there should be.
        arity: usize,
        /// How many were supplied.
        supplied: usize,
    },
    /// A named argument of a capability method.
    CapabilityNamedArgument {
        /// The field.
        field: Symbol,
        /// The method.
        method: CapabilityMethod,
    },
    /// A mode keyword in a call of a capability method.
    CapabilityModeArgument {
        /// The method.
        method: CapabilityMethod,
    },
    /// A first argument of `alloc_array` that is not a type.
    AllocArrayNeedsType,
    /// A slice pattern on another type.
    SlicePatNotSlice {
        /// The type.
        ty: TyId,
    },
    /// A tuple pattern on another type.
    TuplePatMismatch {
        /// How many there should be.
        arity: usize,
        /// The type.
        ty: TyId,
    },
    /// A variant pattern on another type.
    VariantPatNotSum {
        /// The type.
        ty: TyId,
    },
    /// A variant that the matched type does not have.
    PatNoVariant {
        /// The variant.
        variant: Symbol,
        /// The type.
        ty: TyId,
    },
    /// A wrong number of positional sub-patterns.
    VariantPatArity {
        /// The variant.
        variant: Symbol,
        /// How many there should be.
        arity: usize,
        /// How many were supplied.
        supplied: usize,
    },
    /// A wrong number of positional sub-patterns for named fields.
    VariantPatFieldArity {
        /// The variant.
        variant: Symbol,
        /// How many there should be.
        arity: usize,
        /// How many were supplied.
        supplied: usize,
    },
    /// Sub-patterns of the wrong shape.
    VariantPatShape {
        /// The variant.
        variant: Symbol,
    },
    /// A struct pattern on another type.
    StructPatNotProduct {
        /// The type.
        ty: TyId,
    },
    /// A declared type without a layout.
    NoLayout {
        /// The type.
        ty: TyId,
    },
    /// A struct pattern on a sum type.
    StructPatOnSum {
        /// The type.
        ty: TyId,
    },
    /// A field matched twice.
    DuplicateFieldPattern {
        /// The field.
        field: Symbol,
    },
    /// A field that the named type does not have.
    NamedTypeNoField {
        /// What the type is called.
        owner: Symbol,
        /// The field.
        field: Symbol,
    },
    /// Fields left out of a struct pattern.
    StructPatMissing {
        /// What the type is called.
        owner: Symbol,
        /// The missing fields.
        missing: List<Symbol>,
    },
    /// A struct literal outside of a resolved package.
    StructLitNeedsPackage,
    /// A module used as a struct type.
    StructLitModule,
    /// A struct type that was not resolved.
    StructLitNoResolution,
    /// A struct literal of an item that is not a type.
    CannotConstruct {
        /// What the name stands for.
        kind: BindingKind,
        /// The name.
        name: Symbol,
    },
    /// A struct literal of a sum type.
    StructLitOnSum {
        /// The name.
        name: Symbol,
    },
    /// A named type without a layout.
    NoLayoutNamed {
        /// The name.
        name: Symbol,
    },
    /// A field initialised twice.
    DuplicateInitialiser {
        /// The field.
        field: Symbol,
    },
    /// Fields left out of a struct literal.
    StructLitMissing {
        /// The name.
        name: Symbol,
        /// The missing fields.
        missing: List<Symbol>,
    },
    /// A read of a field that is not valid.
    FieldNotReadable {
        /// The binding.
        binding: Symbol,
        /// The field.
        field: Symbol,
        /// The state that it is in.
        state: StateWord,
    },
    /// A field access on another type.
    FieldOnNonProduct {
        /// The field.
        field: Symbol,
        /// The type.
        ty: TyId,
    },
    /// A field that the type does not have.
    TypeNoField {
        /// The type.
        ty: TyId,
        /// The field.
        field: Symbol,
    },
    /// A named argument of a built-in.
    BuiltinNamedArgument {
        /// The field.
        field: Symbol,
        /// The built-in.
        builtin: ComptimeBuiltin,
    },
    /// A mode keyword in a call of a built-in.
    BuiltinModeArgument {
        /// The built-in.
        builtin: ComptimeBuiltin,
    },
    /// A wrong number of arguments of a built-in.
    BuiltinArity {
        /// The built-in.
        builtin: ComptimeBuiltin,
        /// How many were supplied.
        supplied: usize,
    },
    /// A named argument of `target.supports`.
    SupportsNamedArgument,
    /// A mode keyword in `target.supports`.
    SupportsModeArgument,
    /// A wrong number of arguments of `target.supports`.
    SupportsArity {
        /// How many were supplied.
        supplied: usize,
    },
    /// An argument of `target.supports` that is not a capability.
    SupportsNotCapability,
    /// A field argument of `offset_of` that is not a name.
    OffsetOfField,
    /// An empty array literal without a type.
    EmptyArray,
    /// A cast between types that are not numeric.
    BadCast {
        /// The type of the operand.
        from: TyId,
        /// The target type.
        to: TyId,
    },
    /// A range index on another type.
    SubrangeNotSlice {
        /// The type.
        ty: TyId,
    },
    /// An index on another type.
    IndexNotSlice {
        /// The type.
        ty: TyId,
    },
    /// Range endpoints of different types.
    RangeMismatch {
        /// The type of the lower endpoint.
        lo: TyId,
        /// The type of the upper endpoint.
        hi: TyId,
    },
    /// Range endpoints that are not numeric.
    RangeNotNumeric {
        /// The type.
        ty: TyId,
    },
    /// A tuple of fewer than two elements.
    TupleTooShort,
    /// A position outside a tuple.
    TupleIndexOut {
        /// The index.
        index: u32,
        /// The type.
        ty: TyId,
        /// The number of elements.
        len: usize,
    },
    /// A position on a declared type that is not a sum.
    PositionalNotSum {
        /// The index.
        index: u32,
        /// The type.
        ty: TyId,
    },
    /// A position outside the variants of a sum.
    VariantIndexOut {
        /// The index.
        index: u32,
        /// The type.
        ty: TyId,
        /// The number of variants.
        count: usize,
    },
    /// A position on another type.
    TupleIndexOn {
        /// The index.
        index: u32,
        /// The type.
        ty: TyId,
    },
    /// A `for` over another type.
    ForNotIterable {
        /// The type.
        ty: TyId,
    },
    /// `for` endpoints of different types.
    ForRangeMismatch {
        /// The type of the lower endpoint.
        lo: TyId,
        /// The type of the upper endpoint.
        hi: TyId,
    },
    /// A literal pattern of another type.
    LiteralPatMismatch {
        /// The type of the literal.
        literal: TyId,
        /// The type of the scrutinee.
        scrutinee: TyId,
    },
    /// A match that leaves out a variant.
    NonExhaustive,
    /// Branches of different types.
    BranchMismatch {
        /// The type of one branch.
        first: TyId,
        /// The type of the other.
        second: TyId,
    },
    /// `-` on another type.
    NegNotNumeric {
        /// The type.
        ty: TyId,
    },
    /// `~` on another type.
    BitNotNotInteger {
        /// The type.
        ty: TyId,
    },
    /// A checked operator without a declared overflow.
    OverflowOperator {
        /// The operator.
        op: BinOp,
    },
    /// A checked cast without a declared overflow.
    OverflowCast,
    /// An arithmetic operator on another type.
    NotNumeric {
        /// The operator.
        op: BinOp,
        /// The type.
        ty: TyId,
    },
    /// A modulo operator on floats.
    FloatModulo {
        /// The operator.
        op: BinOp,
        /// The type.
        ty: TyId,
    },
    /// An integer operator on another type.
    NotInteger {
        /// The operator.
        op: BinOp,
        /// The type.
        ty: TyId,
    },
    /// An ordering operator on another type.
    NotOrdered {
        /// The operator.
        op: BinOp,
        /// The type.
        ty: TyId,
    },
}

/// A reported finding.
#[derive(Debug, PartialEq, Eq)]
pub struct Diagnostic {
    /// Its class.
    pub class: DiagnosticClass,
    /// Its severity.
    pub severity: Severity,
    /// Where it is reported.
    pub span: Span,
    /// What it says.
    pub message: Message,
}

} // verus!
