//! Literal ranges, effect rows, interners and tables.

use edda_types::capability::CapabilityType;
use edda_types::comptime_builtin::ComptimeBuiltin;
use edda_types::cx::TyCx;
use edda_types::diag::{DiagnosticClass, LintConfig, LintLevel, Message, Severity};
use edda_types::effect::{EffectEntry, EffectRow, PureEffect};
use edda_types::infer::cx::{InferCx, LowerCx};
use edda_types::infer::lit::{fits_in_primitive, fits_in_primitive_negated};
use edda_types::infer::method::capability_method_arity;
use edda_types::infer::row_acc::EffectAcc;
use edda_types::intern::{Interner, Symbol};
use edda_types::intrinsic::{
    CapabilityMethod, resolve_capability_method, resolve_primitive_static_method,
};
use edda_types::list::List;
use edda_types::prim::Primitive;
use edda_types::span::Span;
use edda_types::table::{SpanTable, SymbolTable};
use edda_types::ty::{TyId, TyInterner, TyKind};

#[test]
fn signed_positive_ranges() {
    assert!(fits_in_primitive(0, Primitive::I8));
    assert!(fits_in_primitive(127, Primitive::I8));
    assert!(!fits_in_primitive(128, Primitive::I8));
    assert!(fits_in_primitive(32_767, Primitive::I16));
    assert!(!fits_in_primitive(32_768, Primitive::I16));
    assert!(fits_in_primitive(i32::MAX as u128, Primitive::I32));
    assert!(!fits_in_primitive(i32::MAX as u128 + 1, Primitive::I32));
}

#[test]
fn unsigned_ranges() {
    assert!(fits_in_primitive(255, Primitive::U8));
    assert!(!fits_in_primitive(256, Primitive::U8));
    assert!(fits_in_primitive(u64::MAX as u128, Primitive::U64));
    assert!(!fits_in_primitive(u64::MAX as u128 + 1, Primitive::U64));
    assert!(fits_in_primitive(u128::MAX, Primitive::U128));
}

#[test]
fn pointer_sized_treated_as_64_bit() {
    assert!(fits_in_primitive(i64::MAX as u128, Primitive::Isize));
    assert!(!fits_in_primitive(i64::MAX as u128 + 1, Primitive::Isize));
    assert!(fits_in_primitive(u64::MAX as u128, Primitive::Usize));
    assert!(!fits_in_primitive(u64::MAX as u128 + 1, Primitive::Usize));
}

#[test]
fn non_integer_primitives_reject() {
    for p in [
        Primitive::F32,
        Primitive::F64,
        Primitive::Bool,
        Primitive::Unit,
        Primitive::Never,
        Primitive::Type,
        Primitive::String,
    ] {
        assert!(!fits_in_primitive(0, p), "{p:?} should reject");
    }
}

/// A negated literal may be one larger at a signed type, and only zero at an
/// unsigned one.
#[test]
fn negated_ranges() {
    assert!(fits_in_primitive_negated(128, Primitive::I8));
    assert!(!fits_in_primitive_negated(129, Primitive::I8));
    assert!(fits_in_primitive_negated(i128::MAX as u128 + 1, Primitive::I128));
    assert!(fits_in_primitive_negated(0, Primitive::U8));
    assert!(!fits_in_primitive_negated(1, Primitive::U8));
    assert!(!fits_in_primitive_negated(0, Primitive::Bool));
}

fn raised(p: Primitive) -> EffectEntry {
    EffectEntry::Pure(PureEffect::Raise(TyId::Prim(p)))
}

#[test]
fn empty_acc_finalises_to_empty_row() {
    let acc = EffectAcc::new();
    assert_eq!(acc.checkpoint(), 0);
    assert!(acc.to_row().is_empty());
}

#[test]
fn push_then_finalise_canonicalises() {
    let a = Primitive::I32;
    let b = Primitive::String;
    let mut acc = EffectAcc::new();
    // Push out of order with a duplicate.
    acc.push(raised(a));
    acc.push(EffectEntry::Pure(PureEffect::Panic));
    acc.push(raised(b));
    acc.push(raised(a));
    let row = acc.to_row();
    assert_eq!(row.len(), 3);
    assert!(row.contains(&EffectEntry::Pure(PureEffect::Panic)));
    assert!(row.contains(&raised(a)));
    assert!(row.contains(&raised(b)));
}

#[test]
fn checkpoint_and_since_isolate_subwalks() {
    let mut acc = EffectAcc::new();
    acc.push(raised(Primitive::I32));
    let cp = acc.checkpoint();
    acc.push(raised(Primitive::String));
    acc.push(EffectEntry::Pure(PureEffect::Panic));
    let since = acc.entries_since(cp);
    assert_eq!(since.len(), 2);
    assert_eq!(since[0], raised(Primitive::String));
    assert_eq!(since[1], EffectEntry::Pure(PureEffect::Panic));
}

#[test]
fn clear_resets_state() {
    let mut acc = EffectAcc::new();
    acc.push(raised(Primitive::I32));
    acc.clear();
    assert_eq!(acc.checkpoint(), 0);
    assert!(acc.to_row().is_empty());
}

/// Discharging removes an entry from the part pushed since, and nothing else.
#[test]
fn discharge_leaves_the_rest() {
    let mut acc = EffectAcc::new();
    acc.push(raised(Primitive::I32));
    let cp = acc.checkpoint();
    acc.push(EffectEntry::Pure(PureEffect::Panic));
    acc.push(raised(Primitive::I32));
    acc.push(raised(Primitive::String));
    acc.discharge_since(cp, &raised(Primitive::I32));
    assert_eq!(
        acc.entries_since(0),
        [
            raised(Primitive::I32),
            EffectEntry::Pure(PureEffect::Panic),
            raised(Primitive::String)
        ]
    );
    acc.discharge_comptime_envelope_since(0);
    assert_eq!(acc.entries_since(0), [raised(Primitive::I32), raised(Primitive::String)]);
}

/// Rows with the same entries are the same row, in whatever order they came.
#[test]
fn rows_are_canonical() {
    let entries = vec![raised(Primitive::String), EffectEntry::Capability(Symbol(1))];
    let turned = vec![EffectEntry::Capability(Symbol(1)), raised(Primitive::String)];
    let row = EffectRow::from_entries(&entries);
    assert_eq!(row, EffectRow::from_entries(&turned));
    assert!(row.same(&EffectRow::from_entries(&turned)));
    assert_eq!(row.entries().len(), 2);
    assert!(EffectRow::empty().is_empty());
    assert_eq!(row, row.dup());
    let (first, second) = (row.entries()[0], row.entries()[1]);
    assert!(first.is_before(second));
    assert!(!second.is_before(first));
}

/// One text has one symbol, and the symbol leads back to the text.
#[test]
fn interner_gives_one_symbol_per_text() {
    let mut interner = Interner::new();
    let a = interner.intern("alpha");
    let b = interner.intern("beta");
    assert_ne!(a, b);
    assert_eq!(interner.intern("alpha"), a);
    assert_eq!(interner.resolve(b), "beta");
    assert!(interner.reads(a, "alpha"));
    assert!(!interner.reads(a, "beta"));
}

/// One structure has one handle, and the handle leads back to the structure.
#[test]
fn type_interner_gives_one_handle_per_structure() {
    let mut types = TyInterner::new();
    assert_eq!(types.len(), 0);
    let slice = types.slice(TyId::Prim(Primitive::U8));
    let again = types.slice(TyId::Prim(Primitive::U8));
    let other = types.slice(TyId::Prim(Primitive::U16));
    assert_eq!(slice, again);
    assert_ne!(slice, other);
    assert_eq!(types.len(), 2);
    assert_eq!(types.kind(slice), TyKind::Slice(TyId::Prim(Primitive::U8)));
    assert_eq!(types.kind(types.error()), TyKind::Error);
    let file = types.capability(CapabilityType::Executor);
    assert_eq!(types.kind(file), TyKind::Capability(CapabilityType::Executor));
}

/// A table answers with what was put in last, for that key alone.
#[test]
fn tables_answer_with_the_last_value() {
    let mut symbols = SymbolTable::new();
    assert_eq!(symbols.get(Symbol(3)), None);
    symbols.insert(Symbol(3), Symbol(7));
    symbols.insert(Symbol(4), Symbol(8));
    symbols.insert(Symbol(3), Symbol(9));
    assert_eq!(symbols.get(Symbol(3)), Some(Symbol(9)));
    assert_eq!(symbols.get(Symbol(4)), Some(Symbol(8)));
    assert_eq!(symbols.get(Symbol(5)), None);

    let here = Span { file: 1, start: 2, end: 3 };
    let there = Span { file: 1, start: 2, end: 4 };
    let mut spans: SpanTable<u8> = SpanTable::new();
    spans.insert(here, 1);
    assert_eq!(spans.get(here), Some(1));
    assert_eq!(spans.get(there), None);
}

/// A class that is switched off reports nothing; a softened class warns.
#[test]
fn lint_levels_decide_what_is_reported() {
    let ty_cx = TyCx::new();
    let lints = LintConfig {
        levels: List::from_vec(vec![
            LintLevel { class: DiagnosticClass::TypecheckError, severity: None },
            LintLevel {
                class: DiagnosticClass::ModeViolation,
                severity: Some(Severity::Warning),
            },
        ]),
    };
    let lower =
        LowerCx { interner: Interner::new(), ty_interner: TyInterner::new(), package: None };
    let mut ic = InferCx::new(lower, &ty_cx, &lints, Vec::new());
    ic.emit_typecheck_error(Span::dummy(), Message::EmptyArray);
    assert!(ic.diags.is_empty());
    ic.emit_diagnostic(DiagnosticClass::ModeViolation, Span::dummy(), Message::EmptyArray);
    assert_eq!(ic.diags[0].severity, Severity::Warning);
    ic.emit_diagnostic(DiagnosticClass::NonExhaustiveMatch, Span::dummy(), Message::NonExhaustive);
    assert_eq!(ic.diags[1].severity, Severity::Error);
}

/// Every catalogue entry is found again by its spelling.
#[test]
fn spellings_lead_back() {
    for p in [Primitive::I8, Primitive::Usize, Primitive::F32, Primitive::Never, Primitive::Type] {
        assert_eq!(Primitive::from_name(p.name()), Some(p));
    }
    assert_eq!(Primitive::from_name("i7"), None);
    assert_eq!(Primitive::I128.name(), "i128");
    for c in [CapabilityType::Clock, CapabilityType::Executor, CapabilityType::Debugger] {
        assert_eq!(CapabilityType::from_name(c.name()), Some(c));
    }
    assert_eq!(CapabilityType::from_name("executor"), None);
    for b in [ComptimeBuiltin::SizeOf, ComptimeBuiltin::FieldNameAt, ComptimeBuiltin::IsCopy] {
        assert_eq!(ComptimeBuiltin::from_name(b.name()), Some(b));
    }
    assert_eq!(ComptimeBuiltin::from_name("sizeof"), None);
}

/// A capability method belongs to one capability.
#[test]
fn capability_methods_belong_to_their_receiver() {
    let found = resolve_capability_method(CapabilityType::Allocator, "fork");
    assert_eq!(found, Some(CapabilityMethod::AllocatorFork));
    assert_eq!(resolve_capability_method(CapabilityType::Random, "fork"), None);
    let det = resolve_capability_method(CapabilityType::Random, "deterministic").unwrap();
    assert_eq!(det.method_name(), "deterministic");
    assert_eq!(det.extern_symbol(), "__edda_random_deterministic");
    assert_eq!(
        CapabilityMethod::AllocatorAllocArray.extern_symbol(),
        "__edda_alloc_array"
    );
    assert_eq!(capability_method_arity(CapabilityMethod::AllocatorAllocArray), 2);
    assert!(resolve_primitive_static_method("String", "from").is_none());
}

/// Classes of primitive types.
#[test]
fn primitive_classes() {
    assert!(Primitive::Isize.is_integer() && Primitive::Isize.is_numeric());
    assert!(Primitive::F32.is_float() && !Primitive::F32.is_integer());
    assert!(!Primitive::Bool.is_numeric());
    assert!(Primitive::Bool.is_trivially_droppable());
}
