//! Calls without a package, capability sources, variant constructors and
//! purity at compile time.

use edda_types::cx::{FieldInfo, TyCx, VariantPayloadInfo};
use edda_types::diag::{DiagnosticClass, LintConfig, Severity};
use edda_types::effect::{EffectEntry, EffectRow, PureEffect};
use edda_types::hir::{
    HirBlock, HirCall, HirCallArg, HirExpr, HirExprKind, HirField, HirIndex, HirMethodCall, HirPath,
    HirStmt,
};
use edda_types::infer::call::capability::{
    CAPABILITY_DERIVATION_DEPTH, capability_source, translate_entry,
};
use edda_types::infer::call::comptime_purity::check_comptime_purity;
use edda_types::infer::call::variant::{VariantSite, synth_variant_constructor};
use edda_types::infer::cx::{InferCx, LowerCx};
use edda_types::infer::env::TyEnv;
use edda_types::infer::expr::synth_expr;
use edda_types::intern::{Interner, Symbol};
use edda_types::list::List;
use edda_types::prim::Primitive;
use edda_types::render::Renderer;
use edda_types::sig::{Param, ParamMode};
use edda_types::span::Span;
use edda_types::syntax::{Ident, IntBase, Literal};
use edda_types::ty::{BindingId, ModuleId, TyId, TyInterner, TyKind};

/// A context without a package.
fn context<'a>(ty_cx: &'a TyCx, lints: &'a LintConfig) -> InferCx<'a> {
    let lower = LowerCx { interner: Interner::new(), ty_interner: TyInterner::new(), package: None };
    InferCx::new(lower, ty_cx, lints, Vec::new())
}

/// The symbol of `text`.
fn sym(ic: &mut InferCx<'_>, text: &str) -> Symbol {
    ic.lower.interner.intern(text)
}

/// The handle of a primitive type.
fn prim(p: Primitive) -> TyId {
    TyId::Prim(p)
}

/// The span of a written name.
fn at(start: u32) -> Span {
    Span { file: 0, start, end: start + 1 }
}

fn list<T>(items: Vec<T>) -> List<T> {
    List::from_vec(items)
}

fn expr(kind: HirExprKind) -> HirExpr {
    HirExpr { span: Span::dummy(), kind, ty: TyId::Error }
}

fn number(value: u128) -> HirExpr {
    expr(HirExprKind::Literal(Literal::Int { value, base: IntBase::Dec }))
}

fn text(value: Symbol) -> HirExpr {
    expr(HirExprKind::Literal(Literal::Str(value)))
}

fn ident(name: Symbol) -> Ident {
    Ident { name, span: Span::dummy() }
}

fn path(names: Vec<Symbol>) -> HirPath {
    let mut segments = Vec::new();
    for name in names {
        segments.push(ident(name));
    }
    HirPath { span: Span::dummy(), segments: list(segments) }
}

fn read(name: Symbol) -> HirExpr {
    expr(HirExprKind::Path(path(vec![name])))
}

fn block(stmts: Vec<HirStmt>, trailing: Option<HirExpr>) -> HirBlock {
    HirBlock { span: Span::dummy(), stmts: list(stmts), trailing, ty: TyId::Error }
}

fn index(receiver: HirExpr, index: HirExpr) -> HirExpr {
    expr(HirExprKind::Index(Box::new(HirIndex { receiver, index })))
}

fn comptime(inner: HirExpr) -> HirExpr {
    expr(HirExprKind::Comptime(Box::new(inner)))
}

fn field(receiver: HirExpr, name: Symbol) -> HirExpr {
    expr(HirExprKind::Field(Box::new(HirField { receiver, name: ident(name) })))
}

fn arg(e: HirExpr) -> HirCallArg {
    HirCallArg { span: Span::dummy(), mode: None, name: None, expr: e }
}

fn call(callee: HirExpr, args: Vec<HirCallArg>) -> HirExpr {
    expr(HirExprKind::Call(Box::new(HirCall { callee, args: list(args) })))
}

fn method(receiver: HirExpr, name: Symbol, args: Vec<HirCallArg>) -> HirExpr {
    expr(HirExprKind::MethodCall(Box::new(HirMethodCall {
        receiver,
        name: ident(name),
        args: list(args),
    })))
}

/// The text of the diagnostic at `i`.
fn message(ic: &InferCx<'_>, i: usize) -> String {
    let renderer = Renderer {
        interner: &ic.lower.interner,
        ty_interner: &ic.lower.ty_interner,
        package: ic.lower.package,
    };
    renderer.message(&ic.diags[i].message)
}

/// Whether some diagnostic's text contains `part`.
fn says(ic: &InferCx<'_>, part: &str) -> bool {
    (0..ic.diags.len()).any(|i| message(ic, i).contains(part))
}

/// How many errors have been reported.
fn errors(ic: &InferCx<'_>) -> usize {
    ic.diags.iter().filter(|d| d.severity == Severity::Error).count()
}

/// How many diagnostics of `class` have been reported.
fn count(ic: &InferCx<'_>, class: DiagnosticClass) -> usize {
    ic.diags.iter().filter(|d| d.class == class).count()
}

fn synth(ic: &mut InferCx<'_>, e: &mut HirExpr) -> TyId {
    let mut env = TyEnv::new();
    synth_expr(&mut env, e, ic)
}

#[test]
fn call_without_package_emits_diagnostic() {
    let (ty_cx, lints) = (TyCx::new(), LintConfig::new());
    let mut ic = context(&ty_cx, &lints);
    let f = sym(&mut ic, "f");
    let mut e = call(read(f), vec![arg(number(1))]);
    assert_eq!(synth(&mut ic, &mut e), ic.ty_error());
    assert!(
        says(&ic, "resolved-package"),
        "expected resolved-package diagnostic, found {:?}",
        ic.diags
    );
}

#[test]
fn call_with_literal_callee_diagnoses_non_callable_type() {
    // `42(1)`: the callee is an i64, which is no function pointer.
    let (ty_cx, lints) = (TyCx::new(), LintConfig::new());
    let mut ic = context(&ty_cx, &lints);
    let mut e = call(number(42), vec![arg(number(1))]);
    assert_eq!(synth(&mut ic, &mut e), ic.ty_error());
    assert!(says(&ic, "cannot call value of type"));
}

#[test]
fn call_with_zero_args_without_package_diagnoses() {
    let (ty_cx, lints) = (TyCx::new(), LintConfig::new());
    let mut ic = context(&ty_cx, &lints);
    let f = sym(&mut ic, "f");
    let mut e = call(read(f), vec![]);
    assert_eq!(synth(&mut ic, &mut e), ic.ty_error());
    // Exactly one diagnostic.
    assert_eq!(errors(&ic), 1);
}

#[test]
fn capability_source_finds_single_segment_path() {
    let mut interner = Interner::new();
    let world = interner.intern("world");
    assert_eq!(capability_source(&read(world)), Some(world));
}

#[test]
fn capability_source_follows_field_chain_to_root() {
    // `world.network.local_addr` comes from `world`.
    let mut interner = Interner::new();
    let world = interner.intern("world");
    let net = field(read(world), interner.intern("network"));
    let leaf = field(net, interner.intern("local_addr"));
    assert_eq!(capability_source(&leaf), Some(world));
}

#[test]
fn capability_source_returns_none_for_multi_segment_path() {
    // `std.io.stdin` names a module's item, no capability.
    let mut interner = Interner::new();
    let names = vec![interner.intern("std"), interner.intern("io"), interner.intern("stdin")];
    assert_eq!(capability_source(&expr(HirExprKind::Path(path(names)))), None);
}

#[test]
fn capability_source_returns_none_for_computed_argument() {
    assert_eq!(capability_source(&number(0)), None);
}

fn parameter(name: Symbol) -> List<Param> {
    list(vec![Param { name, mode: ParamMode::Default, ty: prim(Primitive::I32) }])
}

#[test]
fn translate_callee_capability_substitutes_to_caller_param() {
    // `function open(fs: Filesystem) with {fs}`, called with the caller's `fs`.
    let (ty_cx, lints) = (TyCx::new(), LintConfig::new());
    let mut ic = context(&ty_cx, &lints);
    let fs = sym(&mut ic, "fs");
    let args = list(vec![arg(read(fs))]);
    let translated =
        translate_entry(EffectEntry::Capability(fs), &parameter(fs), None, &args, &ic);
    assert_eq!(translated, EffectEntry::Capability(fs));
}

#[test]
fn translate_callee_capability_substitutes_via_field_derivation() {
    // `function read(fs: Filesystem) with {fs}`, called with `world.fs`: the
    // row names the parameter that the caller holds.
    let (ty_cx, lints) = (TyCx::new(), LintConfig::new());
    let mut ic = context(&ty_cx, &lints);
    let (fs, world) = (sym(&mut ic, "fs"), sym(&mut ic, "world"));
    let args = list(vec![arg(field(read(world), fs))]);
    let translated =
        translate_entry(EffectEntry::Capability(fs), &parameter(fs), None, &args, &ic);
    assert_eq!(translated, EffectEntry::Capability(world));
}

#[test]
fn translate_callee_pure_entries_pass_through_unchanged() {
    let (ty_cx, lints) = (TyCx::new(), LintConfig::new());
    let mut ic = context(&ty_cx, &lints);
    let fs = sym(&mut ic, "fs");
    let args = list(vec![arg(read(fs))]);
    let pure_err = EffectEntry::Pure(PureEffect::Raise(prim(Primitive::I64)));
    assert_eq!(translate_entry(pure_err, &parameter(fs), None, &args, &ic), pure_err);
    let pure_panic = EffectEntry::Pure(PureEffect::Panic);
    assert_eq!(translate_entry(pure_panic, &parameter(fs), None, &args, &ic), pure_panic);
}

#[test]
fn translate_callee_falls_back_when_source_untraceable() {
    // A computed argument has no root: the callee's entry stays.
    let (ty_cx, lints) = (TyCx::new(), LintConfig::new());
    let mut ic = context(&ty_cx, &lints);
    let fs = sym(&mut ic, "fs");
    let args = list(vec![arg(number(0))]);
    let translated =
        translate_entry(EffectEntry::Capability(fs), &parameter(fs), None, &args, &ic);
    assert_eq!(translated, EffectEntry::Capability(fs));
}

#[test]
fn translate_callee_unknown_parameter_passes_through() {
    // The callee's row names something that is no parameter.
    let (ty_cx, lints) = (TyCx::new(), LintConfig::new());
    let mut ic = context(&ty_cx, &lints);
    let (fs, bogus) = (sym(&mut ic, "fs"), sym(&mut ic, "notaparam"));
    let args = list(vec![arg(read(fs))]);
    let entry = EffectEntry::Capability(bogus);
    assert_eq!(translate_entry(entry, &parameter(fs), None, &args, &ic), entry);
}

/// An alias of a capability leads to the capability it was derived from.
#[test]
fn translate_follows_recorded_aliases() {
    let (ty_cx, lints) = (TyCx::new(), LintConfig::new());
    let mut ic = context(&ty_cx, &lints);
    let (fs, narrowed) = (sym(&mut ic, "fs"), sym(&mut ic, "narrowed"));
    ic.capability_aliases.insert(narrowed, fs);
    let args = list(vec![arg(read(narrowed))]);
    let translated =
        translate_entry(EffectEntry::Capability(fs), &parameter(fs), None, &args, &ic);
    assert_eq!(translated, EffectEntry::Capability(fs));
    assert_eq!(ic.capability_root(narrowed), fs);
    assert_eq!(ic.capability_root(fs), fs);
}

#[test]
fn capability_source_bounded_recursion_terminates() {
    // A chain of projections leads to its root up to a fixed depth.
    let mut interner = Interner::new();
    let root = interner.intern("root");
    let mut e = read(root);
    for i in 0..(CAPABILITY_DERIVATION_DEPTH - 1) {
        let name = format!("f{i}");
        e = field(e, interner.intern(&name));
    }
    assert_eq!(capability_source(&e), Some(root));

    // One more level is beyond it.
    e = field(e, interner.intern("fbeyond"));
    assert_eq!(capability_source(&e), None);
}

#[test]
fn capability_source_traces_inline_free_function_narrowing_chain() {
    // `scoped_to(read_only(fs), 0)` comes from `fs`.
    let mut interner = Interner::new();
    let fs = interner.intern("fs");
    let read_only = call(read(interner.intern("read_only")), vec![arg(read(fs))]);
    let scoped = call(read(interner.intern("scoped_to")), vec![arg(read_only), arg(number(0))]);
    assert_eq!(capability_source(&scoped), Some(fs));
}

#[test]
fn capability_source_traces_method_narrowing_call() {
    // `fs.read_only()` comes from its receiver.
    let mut interner = Interner::new();
    let fs = interner.intern("fs");
    let ro = method(read(fs), interner.intern("read_only"), vec![]);
    assert_eq!(capability_source(&ro), Some(fs));
    // `fs.read_only().scoped_to(0)` does too.
    let sc = method(ro, interner.intern("scoped_to"), vec![arg(number(0))]);
    assert_eq!(capability_source(&sc), Some(fs));
}

/// Construct `Msg.data(arg)` and count what went wrong.
fn construct(
    ic: &mut InferCx<'_>,
    payload: VariantPayloadInfo,
    arg_binding: Symbol,
    arg_ty: TyId,
) -> (TyId, usize) {
    let id = BindingId { module: ModuleId(0), index: 7 };
    let site = VariantSite { id, ty_name: sym(ic, "Msg"), variant: sym(ic, "data") };
    let mut args = list(vec![arg(read(arg_binding))]);
    let mut env = TyEnv::new();
    env.bind(arg_binding, arg_ty);
    let nominal = ic.lower.ty_interner.intern_kind(TyKind::Nominal(id));
    let result =
        synth_variant_constructor(&mut env, &mut args, &site, &Some(payload), ic, Span::dummy());
    let mismatch = if result == nominal { 0 } else { 1 };
    (result, count(ic, DiagnosticClass::TypecheckError) + mismatch)
}

#[test]
fn single_payload_composite_arg_is_accepted() {
    // `Msg.data(t)` with `t: (u32)`.
    let (ty_cx, lints) = (TyCx::new(), LintConfig::new());
    let mut ic = context(&ty_cx, &lints);
    let u32_ty = prim(Primitive::U32);
    let composite = ic.lower.ty_interner.tuple(list(vec![u32_ty]));
    let t = sym(&mut ic, "t");
    let payload = VariantPayloadInfo::Tuple(list(vec![u32_ty]));
    let (_, errs) = construct(&mut ic, payload, t, composite);
    assert_eq!(errs, 0, "composite `(u32)` argument should construct cleanly");
}

#[test]
fn single_payload_unpacked_arg_is_accepted() {
    // `Msg.data(x)` with `x: u32`.
    let (ty_cx, lints) = (TyCx::new(), LintConfig::new());
    let mut ic = context(&ty_cx, &lints);
    let u32_ty = prim(Primitive::U32);
    let x = sym(&mut ic, "x");
    let payload = VariantPayloadInfo::Tuple(list(vec![u32_ty]));
    let (_, errs) = construct(&mut ic, payload, x, u32_ty);
    assert_eq!(errs, 0, "bare `u32` argument should still construct cleanly");
}

#[test]
fn struct_payload_composite_arg_is_accepted() {
    // `Msg.pair(t)` with `t: (u16, u16)`.
    let (ty_cx, lints) = (TyCx::new(), LintConfig::new());
    let mut ic = context(&ty_cx, &lints);
    let u16_ty = prim(Primitive::U16);
    let composite = ic.lower.ty_interner.tuple(list(vec![u16_ty, u16_ty]));
    let (a, b, t) = (sym(&mut ic, "a"), sym(&mut ic, "b"), sym(&mut ic, "t"));
    let payload = VariantPayloadInfo::Struct(list(vec![
        FieldInfo { span: Span::dummy(), name: a, ty: u16_ty },
        FieldInfo { span: Span::dummy(), name: b, ty: u16_ty },
    ]));
    let (_, errs) = construct(&mut ic, payload, t, composite);
    assert_eq!(errs, 0, "composite `(u16, u16)` should construct the struct-payload variant");
}

#[test]
fn comptime_purity_is_clean_outside_comptime_context() {
    let (ty_cx, lints) = (TyCx::new(), LintConfig::new());
    let ic = context(&ty_cx, &lints);
    assert!(!ic.in_comptime_context);
}

#[test]
fn comptime_arm_toggles_flag() {
    let (ty_cx, lints) = (TyCx::new(), LintConfig::new());
    let mut ic = context(&ty_cx, &lints);
    let mut e = comptime(expr(HirExprKind::Error));
    synth(&mut ic, &mut e);
    // The flag is back to false afterwards.
    assert!(!ic.in_comptime_context);
}

#[test]
fn comptime_block_toggles_flag() {
    let (ty_cx, lints) = (TyCx::new(), LintConfig::new());
    let mut ic = context(&ty_cx, &lints);
    let mut e = expr(HirExprKind::ComptimeBlock(Box::new(block(vec![], None))));
    synth(&mut ic, &mut e);
    assert!(!ic.in_comptime_context);
}

/// Check a callee with the row `entries` inside a compile-time expression.
fn purity(ic: &mut InferCx<'_>, entries: Vec<EffectEntry>, callee: &str) {
    ic.in_comptime_context = true;
    let name = sym(ic, callee);
    check_comptime_purity(&EffectRow::from_entries(&entries), name, Span::dummy(), ic);
}

/// The text of the purity diagnostic.
fn purity_text(ic: &InferCx<'_>) -> String {
    let at = ic.diags.iter().position(|d| d.class == DiagnosticClass::ComptimePurityLoss);
    assert!(at.is_some(), "expected ComptimePurityLoss diag");
    message(ic, at.unwrap())
}

#[test]
fn pure_row_is_admissible_in_comptime() {
    let (ty_cx, lints) = (TyCx::new(), LintConfig::new());
    let mut ic = context(&ty_cx, &lints);
    purity(&mut ic, vec![EffectEntry::Pure(PureEffect::Panic)], "safe_helper");
    assert_eq!(count(&ic, DiagnosticClass::ComptimePurityLoss), 0, "got: {:?}", ic.diags);
}

#[test]
fn yield_row_is_admissible_in_comptime() {
    let (ty_cx, lints) = (TyCx::new(), LintConfig::new());
    let mut ic = context(&ty_cx, &lints);
    let entries = vec![
        EffectEntry::Pure(PureEffect::Yield(prim(Primitive::U8))),
        EffectEntry::Pure(PureEffect::Panic),
    ];
    purity(&mut ic, entries, "yielder");
    assert_eq!(count(&ic, DiagnosticClass::ComptimePurityLoss), 0);
}

#[test]
fn err_row_is_not_pure_in_comptime() {
    let (ty_cx, lints) = (TyCx::new(), LintConfig::new());
    let mut ic = context(&ty_cx, &lints);
    let entries = vec![EffectEntry::Pure(PureEffect::Raise(prim(Primitive::I64)))];
    purity(&mut ic, entries, "fail_helper");
    let msg = purity_text(&ic);
    assert!(msg.contains("fail_helper"), "msg: {msg}");
    assert!(msg.contains("err: i64"), "msg: {msg}");
}

#[test]
fn cancellation_row_is_not_pure_in_comptime() {
    let (ty_cx, lints) = (TyCx::new(), LintConfig::new());
    let mut ic = context(&ty_cx, &lints);
    purity(&mut ic, vec![EffectEntry::Pure(PureEffect::Cancellation)], "await_helper");
    let msg = purity_text(&ic);
    assert!(msg.contains("await_helper"), "msg: {msg}");
    assert!(msg.contains("cancellation"), "msg: {msg}");
}

#[test]
fn capability_row_is_not_pure_in_comptime() {
    let (ty_cx, lints) = (TyCx::new(), LintConfig::new());
    let mut ic = context(&ty_cx, &lints);
    let fs = sym(&mut ic, "fs");
    purity(&mut ic, vec![EffectEntry::Capability(fs)], "read_file");
    let msg = purity_text(&ic);
    assert!(msg.contains("read_file"), "msg: {msg}");
    assert!(msg.contains("fs"), "msg: {msg}");
}

#[test]
fn multiple_offending_entries_render_in_diagnostic() {
    let (ty_cx, lints) = (TyCx::new(), LintConfig::new());
    let mut ic = context(&ty_cx, &lints);
    let fs = sym(&mut ic, "fs");
    let entries = vec![
        EffectEntry::Capability(fs),
        EffectEntry::Pure(PureEffect::Raise(prim(Primitive::I64))),
        // Admissible: should not appear.
        EffectEntry::Pure(PureEffect::Panic),
    ];
    purity(&mut ic, entries, "multi");
    let msg = purity_text(&ic);
    assert!(msg.contains("fs"));
    assert!(msg.contains("err: i64"));
    assert!(!msg.contains("panic"), "panic should not appear: {msg}");
}

#[test]
fn flag_save_restore_handles_nested_comptime() {
    // `comptime (comptime e)` leaves the flag as it was.
    let (ty_cx, lints) = (TyCx::new(), LintConfig::new());
    let mut ic = context(&ty_cx, &lints);
    let mut e = comptime(comptime(expr(HirExprKind::Error)));
    synth(&mut ic, &mut e);
    assert!(!ic.in_comptime_context);
}
