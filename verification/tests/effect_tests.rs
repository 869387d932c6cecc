//! Rows of function bodies, `?` and handlers.

use edda_types::capability::CapabilityType;
use edda_types::cx::TyCx;
use edda_types::diag::{DiagnosticClass, LintConfig, Message};
use edda_types::effect::{EffectEntry, EffectRow, PureEffect};
use edda_types::hir::{
    HirAssign, HirBlock, HirCall, HirCallArg, HirExpr, HirExprKind, HirHandle, HirLoop,
    HirMethodCall, HirPath, HirScope, HirStmt, HirStmtKind,
};
use edda_types::infer::call::err_propagation::check_err_propagation;
use edda_types::infer::cx::{InferCx, LowerCx};
use edda_types::infer::env::TyEnv;
use edda_types::infer::expr::synth_expr;
use edda_types::infer::fn_body::{FnContext, check_fn_body};
use edda_types::infer::mode::lattice::BindingState;
use edda_types::intern::{Interner, Symbol};
use edda_types::list::List;
use edda_types::prim::Primitive;
use edda_types::render::Renderer;
use edda_types::sig::{FnPtrParam, FnPtrSig, ParamMode};
use edda_types::span::Span;
use edda_types::syntax::{AssignOp, Ident, IntBase, Literal, ScopeKind};
use edda_types::ty::{TyId, TyInterner};

/// A context without a package.
fn context<'a>(ty_cx: &'a TyCx, lints: &'a LintConfig) -> InferCx<'a> {
    let lower = LowerCx { interner: Interner::new(), ty_interner: TyInterner::new(), package: None };
    InferCx::new(lower, ty_cx, lints, Vec::new())
}

/// The symbol of `text`.
fn sym(ic: &mut InferCx<'_>, text: &str) -> Symbol {
    ic.lower.interner.intern(text)
}

/// The handle of a primitive type.
fn prim(p: Primitive) -> TyId {
    TyId::Prim(p)
}

/// The span of a written name.
fn at(start: u32) -> Span {
    Span { file: 0, start, end: start + 1 }
}

fn list<T>(items: Vec<T>) -> List<T> {
    List::from_vec(items)
}

fn expr(kind: HirExprKind) -> HirExpr {
    HirExpr { span: Span::dummy(), kind, ty: TyId::Error }
}

fn number(value: u128) -> HirExpr {
    expr(HirExprKind::Literal(Literal::Int { value, base: IntBase::Dec }))
}

fn boolean(value: bool) -> HirExpr {
    expr(HirExprKind::Literal(Literal::Bool(value)))
}

fn text(value: Symbol) -> HirExpr {
    expr(HirExprKind::Literal(Literal::Str(value)))
}

fn unit() -> HirExpr {
    expr(HirExprKind::Literal(Literal::Unit))
}

fn ident(name: Symbol) -> Ident {
    Ident { name, span: Span::dummy() }
}

fn path(names: Vec<Symbol>) -> HirPath {
    let mut segments = Vec::new();
    for name in names {
        segments.push(ident(name));
    }
    HirPath { span: Span::dummy(), segments: list(segments) }
}

fn read(name: Symbol) -> HirExpr {
    expr(HirExprKind::Path(path(vec![name])))
}

fn block(stmts: Vec<HirStmt>, trailing: Option<HirExpr>) -> HirBlock {
    HirBlock { span: Span::dummy(), stmts: list(stmts), trailing, ty: TyId::Error }
}

fn block_expr(body: HirBlock) -> HirExpr {
    expr(HirExprKind::Block(Box::new(body)))
}

fn stmt(e: HirExpr) -> HirStmt {
    HirStmt { span: Span::dummy(), kind: HirStmtKind::Expr(e) }
}

fn assign(target: HirExpr, rhs: HirExpr) -> HirStmt {
    let kind = HirStmtKind::Assign(HirAssign { target, op: AssignOp::Plain, rhs });
    HirStmt { span: Span::dummy(), kind }
}

fn comptime(inner: HirExpr) -> HirExpr {
    expr(HirExprKind::Comptime(Box::new(inner)))
}

fn try_expr(inner: HirExpr) -> HirExpr {
    expr(HirExprKind::Try(Box::new(inner)))
}

fn raise(payload: HirExpr) -> HirExpr {
    expr(HirExprKind::Raise(Box::new(payload)))
}

fn panic_expr(payload: HirExpr) -> HirExpr {
    expr(HirExprKind::Panic(Box::new(payload)))
}

fn handle(
    effect: Symbol,
    handled_ty: TyId,
    binder: Option<Symbol>,
    recovery: HirExpr,
    body: HirBlock,
) -> HirExpr {
    expr(HirExprKind::Handle(Box::new(HirHandle {
        effect: ident(effect),
        handled_ty,
        binder: binder.map(ident),
        recovery,
        body,
    })))
}

fn arg(e: HirExpr) -> HirCallArg {
    HirCallArg { span: Span::dummy(), mode: None, name: None, expr: e }
}

fn call(callee: HirExpr, args: Vec<HirCallArg>) -> HirExpr {
    expr(HirExprKind::Call(Box::new(HirCall { callee, args: list(args) })))
}

fn method(receiver: HirExpr, name: Symbol, args: Vec<HirCallArg>) -> HirExpr {
    expr(HirExprKind::MethodCall(Box::new(HirMethodCall {
        receiver,
        name: ident(name),
        args: list(args),
    })))
}

/// The text of the diagnostic at `i`.
fn message(ic: &InferCx<'_>, i: usize) -> String {
    let renderer = Renderer {
        interner: &ic.lower.interner,
        ty_interner: &ic.lower.ty_interner,
        package: ic.lower.package,
    };
    renderer.message(&ic.diags[i].message)
}

/// How many diagnostics of `class` have been reported.
fn count(ic: &InferCx<'_>, class: DiagnosticClass) -> usize {
    ic.diags.iter().filter(|d| d.class == class).count()
}

fn raise_int() -> HirExpr {
    raise(number(0))
}

fn await_lit() -> HirExpr {
    expr(HirExprKind::Await(Box::new(number(0))))
}

fn raised(p: Primitive) -> EffectEntry {
    EffectEntry::Pure(PureEffect::Raise(prim(p)))
}

fn body_of(declared: EffectRow, inject_divergence: bool) -> FnContext {
    FnContext {
        declared,
        return_ty: TyId::Error,
        exit_span: Span::dummy(),
        inject_divergence,
        take_params: list(vec![]),
    }
}

fn run_check(ic: &mut InferCx<'_>, body: &mut HirBlock, declared: Vec<EffectEntry>) {
    let mut env = TyEnv::new();
    let f = body_of(EffectRow::from_entries(&declared), false);
    check_fn_body(&mut env, body, &f, ic);
}

fn count_row_mismatch(ic: &InferCx<'_>) -> usize {
    count(ic, DiagnosticClass::EffectRowMismatch)
}

/// The text of the first row mismatch.
fn row_mismatch(ic: &InferCx<'_>) -> String {
    let at = ic.diags.iter().position(|d| d.class == DiagnosticClass::EffectRowMismatch);
    message(ic, at.unwrap())
}

#[test]
fn empty_body_against_empty_row_is_clean() {
    let (ty_cx, lints) = (TyCx::new(), LintConfig::new());
    let mut ic = context(&ty_cx, &lints);
    run_check(&mut ic, &mut block(vec![], None), vec![]);
    assert_eq!(count_row_mismatch(&ic), 0);
}

#[test]
fn raise_with_matching_declared_row_passes() {
    let (ty_cx, lints) = (TyCx::new(), LintConfig::new());
    let mut ic = context(&ty_cx, &lints);
    let mut body = block(vec![stmt(raise_int())], None);
    run_check(&mut ic, &mut body, vec![raised(Primitive::I64)]);
    assert_eq!(count_row_mismatch(&ic), 0, "expected no row diagnostics, got {:?}", ic.diags);
}

#[test]
fn raise_against_empty_row_diagnoses() {
    let (ty_cx, lints) = (TyCx::new(), LintConfig::new());
    let mut ic = context(&ty_cx, &lints);
    let mut body = block(vec![stmt(raise_int())], None);
    run_check(&mut ic, &mut body, vec![]);
    assert_eq!(count_row_mismatch(&ic), 1);
    let msg = row_mismatch(&ic);
    assert!(msg.contains("err: i64"), "msg: {msg}");
    assert!(msg.contains("declared row is `{}`"), "msg: {msg}");
}

#[test]
fn await_with_matching_declared_row_passes() {
    let (ty_cx, lints) = (TyCx::new(), LintConfig::new());
    let mut ic = context(&ty_cx, &lints);
    let mut body = block(vec![stmt(await_lit())], None);
    run_check(&mut ic, &mut body, vec![EffectEntry::Pure(PureEffect::Cancellation)]);
    assert_eq!(count_row_mismatch(&ic), 0, "expected no row diagnostics, got {:?}", ic.diags);
}

#[test]
fn await_against_empty_row_diagnoses() {
    let (ty_cx, lints) = (TyCx::new(), LintConfig::new());
    let mut ic = context(&ty_cx, &lints);
    let mut body = block(vec![stmt(await_lit())], None);
    run_check(&mut ic, &mut body, vec![]);
    assert_eq!(count_row_mismatch(&ic), 1);
    let msg = row_mismatch(&ic);
    assert!(msg.contains("cancellation"), "msg: {msg}");
    assert!(msg.contains("declared row is `{}`"), "msg: {msg}");
}

#[test]
fn await_inside_its_spawning_scope_exec_is_absorbed() {
    // The scope absorbs `cancellation`: only the `Executor` is declared.
    let (ty_cx, lints) = (TyCx::new(), LintConfig::new());
    let mut ic = context(&ty_cx, &lints);
    let exec = sym(&mut ic, "exec");
    let exec_ty = ic.lower.ty_interner.capability(CapabilityType::Executor);
    let mut env = TyEnv::new();
    env.bind(exec, exec_ty);
    let scope = HirScope {
        kind: ScopeKind::Exec,
        name: None,
        body: block(vec![stmt(await_lit())], None),
    };
    let mut body = block(vec![stmt(expr(HirExprKind::Scope(Box::new(scope))))], None);
    let f = body_of(EffectRow::from_entries(&vec![EffectEntry::Capability(exec)]), false);
    check_fn_body(&mut env, &mut body, &f, &mut ic);
    assert_eq!(
        count_row_mismatch(&ic),
        0,
        "expected cancellation to be absorbed, got {:?}",
        ic.diags
    );
}

#[test]
fn panic_with_matching_declared_row_passes() {
    let (ty_cx, lints) = (TyCx::new(), LintConfig::new());
    let mut ic = context(&ty_cx, &lints);
    let boom = sym(&mut ic, "boom");
    let mut body = block(vec![stmt(panic_expr(text(boom)))], None);
    run_check(&mut ic, &mut body, vec![EffectEntry::Pure(PureEffect::Panic)]);
    assert_eq!(count_row_mismatch(&ic), 0);
}

#[test]
fn panic_against_empty_row_diagnoses() {
    let (ty_cx, lints) = (TyCx::new(), LintConfig::new());
    let mut ic = context(&ty_cx, &lints);
    let oops = sym(&mut ic, "oops");
    let mut body = block(vec![stmt(panic_expr(text(oops)))], None);
    run_check(&mut ic, &mut body, vec![]);
    assert_eq!(count_row_mismatch(&ic), 1);
    let msg = row_mismatch(&ic);
    assert!(msg.contains("`panic`"), "msg: {msg}");
}

#[test]
fn raise_against_wrong_err_type_diagnoses() {
    // The body raises `err: i64`, the row declares `err: String`.
    let (ty_cx, lints) = (TyCx::new(), LintConfig::new());
    let mut ic = context(&ty_cx, &lints);
    let mut body = block(vec![stmt(raise_int())], None);
    run_check(&mut ic, &mut body, vec![raised(Primitive::String)]);
    assert_eq!(count_row_mismatch(&ic), 1);
}

#[test]
fn multiple_extras_each_diagnose_independently() {
    // `raise` and `panic` against an empty row: two diagnostics.
    let (ty_cx, lints) = (TyCx::new(), LintConfig::new());
    let mut ic = context(&ty_cx, &lints);
    let msg = sym(&mut ic, "msg");
    let mut body = block(vec![stmt(raise_int()), stmt(panic_expr(text(msg)))], None);
    run_check(&mut ic, &mut body, vec![]);
    assert_eq!(count_row_mismatch(&ic), 2);
}

#[test]
fn duplicate_entries_collapse_before_diagnostic() {
    // Two raises of the same type: one diagnostic.
    let (ty_cx, lints) = (TyCx::new(), LintConfig::new());
    let mut ic = context(&ty_cx, &lints);
    let mut body = block(vec![stmt(raise_int()), stmt(raise_int())], None);
    run_check(&mut ic, &mut body, vec![]);
    assert_eq!(count_row_mismatch(&ic), 1);
}

#[test]
fn declared_with_unused_entries_is_not_a_diagnostic() {
    // A function may declare more than it performs.
    let (ty_cx, lints) = (TyCx::new(), LintConfig::new());
    let mut ic = context(&ty_cx, &lints);
    let declared = vec![EffectEntry::Pure(PureEffect::Panic), raised(Primitive::I64)];
    run_check(&mut ic, &mut block(vec![], None), declared);
    assert_eq!(count_row_mismatch(&ic), 0);
}

#[test]
fn check_fn_body_restores_previous_declared_row_and_accumulator() {
    let (ty_cx, lints) = (TyCx::new(), LintConfig::new());
    let mut ic = context(&ty_cx, &lints);
    let outer_declared = EffectRow::from_entries(&vec![raised(Primitive::I32)]);
    ic.declared_row = outer_declared.dup();
    ic.row.push(EffectEntry::Pure(PureEffect::Panic));
    let outer_acc_cp = ic.row.checkpoint();

    // Run a check with a different declared row.
    let mut env = TyEnv::new();
    let mut body = block(vec![], None);
    check_fn_body(&mut env, &mut body, &body_of(EffectRow::empty(), false), &mut ic);

    // The state from before the call must be intact.
    assert_eq!(ic.declared_row, outer_declared);
    assert_eq!(ic.row.checkpoint(), outer_acc_cp);
}

fn run_check_with_divergence(
    ic: &mut InferCx<'_>,
    body: &mut HirBlock,
    declared: Vec<EffectEntry>,
    inject_divergence: bool,
) {
    let mut env = TyEnv::new();
    let f = body_of(EffectRow::from_entries(&declared), inject_divergence);
    check_fn_body(&mut env, body, &f, ic);
}

fn empty_loop(decreases: Option<HirExpr>) -> HirExpr {
    expr(HirExprKind::Loop(Box::new(HirLoop { body: block(vec![], None), decreases })))
}

#[test]
fn injected_divergence_against_empty_row_diagnoses_once() {
    let (ty_cx, lints) = (TyCx::new(), LintConfig::new());
    let mut ic = context(&ty_cx, &lints);
    run_check_with_divergence(&mut ic, &mut block(vec![], None), vec![], true);
    assert_eq!(count(&ic, DiagnosticClass::TerminationUnproven), 1);
    assert_eq!(count(&ic, DiagnosticClass::DivergenceNotAdmitted), 0);
}

#[test]
fn injected_divergence_against_declared_divergence_row_passes() {
    let (ty_cx, lints) = (TyCx::new(), LintConfig::new());
    let mut ic = context(&ty_cx, &lints);
    let declared = vec![EffectEntry::Pure(PureEffect::Divergence)];
    run_check_with_divergence(&mut ic, &mut block(vec![], None), declared, true);
    assert_eq!(count(&ic, DiagnosticClass::TerminationUnproven), 0);
    assert_eq!(count(&ic, DiagnosticClass::DivergenceNotAdmitted), 0);
}

#[test]
fn no_injection_with_clean_body_is_silent() {
    let (ty_cx, lints) = (TyCx::new(), LintConfig::new());
    let mut ic = context(&ty_cx, &lints);
    run_check_with_divergence(&mut ic, &mut block(vec![], None), vec![], false);
    assert_eq!(count(&ic, DiagnosticClass::TerminationUnproven), 0);
    assert_eq!(count(&ic, DiagnosticClass::DivergenceNotAdmitted), 0);
}

#[test]
fn loop_without_decreases_pushes_divergence() {
    let (ty_cx, lints) = (TyCx::new(), LintConfig::new());
    let mut ic = context(&ty_cx, &lints);
    let mut body = block(vec![stmt(empty_loop(None))], None);
    run_check_with_divergence(&mut ic, &mut body, vec![], false);
    assert_eq!(count(&ic, DiagnosticClass::DivergenceNotAdmitted), 1);
    assert_eq!(count(&ic, DiagnosticClass::TerminationUnproven), 0);
}

#[test]
fn loop_with_decreases_does_not_push_divergence() {
    let (ty_cx, lints) = (TyCx::new(), LintConfig::new());
    let mut ic = context(&ty_cx, &lints);
    let mut body = block(vec![stmt(empty_loop(Some(number(0))))], None);
    run_check_with_divergence(&mut ic, &mut body, vec![], false);
    assert_eq!(count(&ic, DiagnosticClass::TerminationUnproven), 0);
    assert_eq!(count(&ic, DiagnosticClass::DivergenceNotAdmitted), 0);
}

#[test]
fn loop_without_decreases_admitted_when_declared() {
    let (ty_cx, lints) = (TyCx::new(), LintConfig::new());
    let mut ic = context(&ty_cx, &lints);
    let declared = vec![EffectEntry::Pure(PureEffect::Divergence)];
    let mut body = block(vec![stmt(empty_loop(None))], None);
    run_check_with_divergence(&mut ic, &mut body, declared, false);
    assert_eq!(count(&ic, DiagnosticClass::TerminationUnproven), 0);
    assert_eq!(count(&ic, DiagnosticClass::DivergenceNotAdmitted), 0);
}

#[test]
fn comptime_block_panic_does_not_contribute_runtime_panic() {
    let (ty_cx, lints) = (TyCx::new(), LintConfig::new());
    let mut ic = context(&ty_cx, &lints);
    let inner = block(vec![stmt(panic_expr(number(0)))], None);
    let mut body = block(vec![stmt(expr(HirExprKind::ComptimeBlock(Box::new(inner))))], None);
    run_check(&mut ic, &mut body, vec![]);
    assert_eq!(
        count_row_mismatch(&ic),
        0,
        "comptime panic must not impose a runtime panic row entry; got {:?}",
        ic.diags
    );
}

#[test]
fn comptime_expr_panic_does_not_contribute_runtime_panic() {
    let (ty_cx, lints) = (TyCx::new(), LintConfig::new());
    let mut ic = context(&ty_cx, &lints);
    let mut body = block(vec![stmt(comptime(panic_expr(number(0))))], None);
    run_check(&mut ic, &mut body, vec![]);
    assert_eq!(count_row_mismatch(&ic), 0);
}

#[test]
fn comptime_block_raise_still_contributes_err() {
    // Only `panic` and `yield` end with the compile-time body.
    let (ty_cx, lints) = (TyCx::new(), LintConfig::new());
    let mut ic = context(&ty_cx, &lints);
    let inner = block(vec![stmt(raise_int())], None);
    let mut body = block(vec![stmt(expr(HirExprKind::ComptimeBlock(Box::new(inner))))], None);
    run_check(&mut ic, &mut body, vec![]);
    assert_eq!(count_row_mismatch(&ic), 1);
}

fn count_no_err_diags(ic: &InferCx<'_>) -> usize {
    (0..ic.diags.len())
        .filter(|i| {
            ic.diags[*i].class == DiagnosticClass::TypecheckError
                && message(ic, *i).contains("no error effect to propagate")
        })
        .count()
}

#[test]
fn try_on_pure_inner_diagnoses() {
    // `42?`: nothing to propagate.
    let (ty_cx, lints) = (TyCx::new(), LintConfig::new());
    let mut ic = context(&ty_cx, &lints);
    let mut e = try_expr(number(0));
    let mut env = TyEnv::new();
    assert_eq!(synth_expr(&mut env, &mut e, &mut ic), ic.ty_error());
    assert_eq!(count_no_err_diags(&ic), 1);
}

#[test]
fn try_on_raise_with_matching_declared_row_passes_at_function_exit() {
    let (ty_cx, lints) = (TyCx::new(), LintConfig::new());
    let mut ic = context(&ty_cx, &lints);
    let mut body = block(vec![stmt(try_expr(raise_int()))], None);
    run_check(&mut ic, &mut body, vec![raised(Primitive::I64)]);
    assert_eq!(count_no_err_diags(&ic), 0);
    assert_eq!(count_row_mismatch(&ic), 0);
}

#[test]
fn try_on_raise_without_declared_err_surfaces_only_at_function_exit() {
    // The `?` is quiet, since there is an error to propagate; the exit of the
    // function reports that the error is not declared, exactly once.
    let (ty_cx, lints) = (TyCx::new(), LintConfig::new());
    let mut ic = context(&ty_cx, &lints);
    let mut body = block(vec![stmt(try_expr(raise_int()))], None);
    run_check(&mut ic, &mut body, vec![]);
    assert_eq!(count_no_err_diags(&ic), 0);
    assert_eq!(count_row_mismatch(&ic), 1);
    assert_eq!(ic.diags.len(), 1);
}

#[test]
fn try_synthesises_inner_type_on_success() {
    // `raise` is `never`, and so is the whole.
    let (ty_cx, lints) = (TyCx::new(), LintConfig::new());
    let mut ic = context(&ty_cx, &lints);
    let mut e = try_expr(raise_int());
    let mut env = TyEnv::new();
    assert_eq!(synth_expr(&mut env, &mut e, &mut ic), prim(Primitive::Never));
    assert_eq!(count_no_err_diags(&ic), 0);
}

#[test]
fn try_passes_through_row_entries() {
    let (ty_cx, lints) = (TyCx::new(), LintConfig::new());
    let mut ic = context(&ty_cx, &lints);
    let mut e = try_expr(raise_int());
    let mut env = TyEnv::new();
    synth_expr(&mut env, &mut e, &mut ic);
    assert!(ic.row.to_row().contains(&raised(Primitive::I64)));
}

#[test]
fn try_on_cascaded_error_silently_propagates() {
    let (ty_cx, lints) = (TyCx::new(), LintConfig::new());
    let mut ic = context(&ty_cx, &lints);
    let mut e = try_expr(expr(HirExprKind::Error));
    let mut env = TyEnv::new();
    assert_eq!(synth_expr(&mut env, &mut e, &mut ic), ic.ty_error());
    assert_eq!(count_no_err_diags(&ic), 0);
}

/// Reports of errors that nothing propagates.
fn count_b22_diags(ic: &InferCx<'_>) -> usize {
    (0..ic.diags.len())
        .filter(|i| {
            ic.diags[*i].class == DiagnosticClass::EffectRowMismatch
                && message(ic, *i).contains("not wrapped in `?`")
        })
        .count()
}

fn propagate(ic: &mut InferCx<'_>, entries: Vec<EffectEntry>) {
    let callee = sym(ic, "write_byte");
    check_err_propagation(&list(entries), callee, Span::dummy(), ic);
}

#[test]
fn b22_call_with_err_outside_try_emits_diagnostic() {
    let (ty_cx, lints) = (TyCx::new(), LintConfig::new());
    let mut ic = context(&ty_cx, &lints);
    propagate(&mut ic, vec![raised(Primitive::I64)]);
    assert_eq!(count_b22_diags(&ic), 1);
}

#[test]
fn b22_call_with_err_inside_try_position_is_admitted() {
    let (ty_cx, lints) = (TyCx::new(), LintConfig::new());
    let mut ic = context(&ty_cx, &lints);
    ic.try_position_depth = 1;
    propagate(&mut ic, vec![raised(Primitive::I64)]);
    assert_eq!(count_b22_diags(&ic), 0);
}

#[test]
fn b22_call_with_err_inside_handle_body_is_admitted() {
    let (ty_cx, lints) = (TyCx::new(), LintConfig::new());
    let mut ic = context(&ty_cx, &lints);
    ic.discharged_effects.push(raised(Primitive::I64));
    propagate(&mut ic, vec![raised(Primitive::I64)]);
    assert_eq!(count_b22_diags(&ic), 0);
}

#[test]
fn b22_handle_only_discharges_matching_err_type() {
    let (ty_cx, lints) = (TyCx::new(), LintConfig::new());
    let mut ic = context(&ty_cx, &lints);
    ic.discharged_effects.push(raised(Primitive::I64));
    propagate(&mut ic, vec![raised(Primitive::I32)]);
    assert_eq!(count_b22_diags(&ic), 1);
}

/// Each distinct error is reported once, however often the row names it.
#[test]
fn each_unpropagated_error_is_reported_once() {
    let (ty_cx, lints) = (TyCx::new(), LintConfig::new());
    let mut ic = context(&ty_cx, &lints);
    ic.discharged_effects.push(raised(Primitive::U8));
    let entries = vec![
        raised(Primitive::I64),
        raised(Primitive::U8),
        raised(Primitive::I32),
        raised(Primitive::I64),
        EffectEntry::Pure(PureEffect::Panic),
        raised(Primitive::I32),
    ];
    propagate(&mut ic, entries);
    assert_eq!(count_b22_diags(&ic), 2);
    assert_eq!(ic.diags.len(), 2);
}

/// Each distinct effect that is not declared is reported once, however often
/// the body performs it.
#[test]
fn each_undeclared_effect_is_reported_once() {
    let (ty_cx, lints) = (TyCx::new(), LintConfig::new());
    let mut ic = context(&ty_cx, &lints);
    let stmts = vec![
        stmt(raise_int()),
        stmt(raise(boolean(true))),
        stmt(raise_int()),
        stmt(raise(boolean(false))),
    ];
    let mut body = block(stmts, None);
    run_check(&mut ic, &mut body, vec![raised(Primitive::Bool)]);
    assert_eq!(ic.diags.len(), 1, "{:?}", ic.diags);
    run_check(&mut ic, &mut body, vec![]);
    assert_eq!(ic.diags.len(), 3, "{:?}", ic.diags);
}

#[test]
fn b22_non_err_entries_are_ignored() {
    let (ty_cx, lints) = (TyCx::new(), LintConfig::new());
    let mut ic = context(&ty_cx, &lints);
    let fs = sym(&mut ic, "fs");
    let entries = vec![
        EffectEntry::Capability(fs),
        EffectEntry::Pure(PureEffect::Panic),
        EffectEntry::Pure(PureEffect::Yield(prim(Primitive::I64))),
        EffectEntry::Pure(PureEffect::Divergence),
    ];
    propagate(&mut ic, entries);
    assert_eq!(count_b22_diags(&ic), 0);
}

#[test]
fn b22_try_walks_operand_with_propagator_flag_set() {
    let (ty_cx, lints) = (TyCx::new(), LintConfig::new());
    let mut ic = context(&ty_cx, &lints);
    assert_eq!(ic.try_position_depth, 0);
    let mut e = try_expr(raise_int());
    let mut env = TyEnv::new();
    synth_expr(&mut env, &mut e, &mut ic);
    // The counter is back where it was.
    assert_eq!(ic.try_position_depth, 0);
}

#[test]
fn b22_nested_try_depth_save_restore() {
    let (ty_cx, lints) = (TyCx::new(), LintConfig::new());
    let mut ic = context(&ty_cx, &lints);
    ic.try_position_depth = 2;
    propagate(&mut ic, vec![raised(Primitive::I64)]);
    // Inside of a `?`: admitted.
    assert_eq!(count_b22_diags(&ic), 0);

    // Outside of one the same call is reported.
    let mut ic = context(&ty_cx, &lints);
    assert_eq!(ic.try_position_depth, 0);
    propagate(&mut ic, vec![raised(Primitive::I64)]);
    assert_eq!(count_b22_diags(&ic), 1);
}

#[test]
fn b22_duplicate_err_entries_dedupe_per_call_site() {
    let (ty_cx, lints) = (TyCx::new(), LintConfig::new());
    let mut ic = context(&ty_cx, &lints);
    let entry = raised(Primitive::I64);
    propagate(&mut ic, vec![entry, entry, entry]);
    assert_eq!(count_b22_diags(&ic), 1);
}

/// A handler of `err: i64` around `body`.
fn guard(ic: &mut InferCx<'_>, recovery: HirExpr, body: HirBlock) -> HirExpr {
    let err = sym(ic, "err");
    handle(err, prim(Primitive::I64), None, recovery, body)
}

#[test]
fn handle_join_preserves_body_init_when_recovery_raises() {
    let (ty_cx, lints) = (TyCx::new(), LintConfig::new());
    let mut ic = context(&ty_cx, &lints);
    let n = sym(&mut ic, "n");
    let mut env = TyEnv::new();
    env.bind_with_state(n, prim(Primitive::I64), BindingState::Uninit);
    let body = block(vec![assign(read(n), number(0))], None);
    let mut e = guard(&mut ic, raise_int(), body);
    synth_expr(&mut env, &mut e, &mut ic);
    assert!(
        env.lookup_state(n).unwrap().same(&BindingState::Valid),
        "body init must survive a raise-only recovery arm"
    );
}

#[test]
fn handle_join_still_merges_when_recovery_completes() {
    let (ty_cx, lints) = (TyCx::new(), LintConfig::new());
    let mut ic = context(&ty_cx, &lints);
    let n = sym(&mut ic, "n");
    let mut env = TyEnv::new();
    env.bind_with_state(n, prim(Primitive::I64), BindingState::Uninit);
    let body = block(vec![assign(read(n), number(0))], None);
    let mut e = guard(&mut ic, unit(), body);
    synth_expr(&mut env, &mut e, &mut ic);
    assert!(
        env.lookup_state(n).unwrap().same(&BindingState::Uninit),
        "a completing recovery arm must still be joined"
    );
}

#[test]
fn handle_join_keeps_recovery_state_when_body_always_raises() {
    let (ty_cx, lints) = (TyCx::new(), LintConfig::new());
    let mut ic = context(&ty_cx, &lints);
    let n = sym(&mut ic, "n");
    let mut env = TyEnv::new();
    env.bind_with_state(n, prim(Primitive::I64), BindingState::Uninit);
    let body = block(vec![stmt(raise_int())], None);
    let recovery = block_expr(block(vec![assign(read(n), number(0))], None));
    let mut e = guard(&mut ic, recovery, body);
    synth_expr(&mut env, &mut e, &mut ic);
    assert!(
        env.lookup_state(n).unwrap().same(&BindingState::Valid),
        "recovery init must survive when the body always raises"
    );
}

/// `function(i64) -> i64 with {err: i64}`.
fn fallible(ic: &mut InferCx<'_>) -> TyId {
    ic.lower.ty_interner.fn_ptr(FnPtrSig {
        params: list(vec![FnPtrParam { mode: ParamMode::Default, ty: prim(Primitive::I64) }]),
        return_ty: prim(Primitive::I64),
        effects: EffectRow::from_entries(&vec![raised(Primitive::I64)]),
    })
}

/// `{ name }(arg)`: a call through the pointer.
fn indirect_call(name: Symbol, e: HirExpr) -> HirExpr {
    call(block_expr(block(vec![], Some(read(name)))), vec![arg(e)])
}

#[test]
fn b22_outer_try_does_not_cover_nested_arg_call() {
    // `f(g(0))?`: `g` must carry its own `?`.
    let (ty_cx, lints) = (TyCx::new(), LintConfig::new());
    let mut ic = context(&ty_cx, &lints);
    ic.declared_row = EffectRow::from_entries(&vec![raised(Primitive::I64)]);
    let fn_ty = fallible(&mut ic);
    let (f, g) = (sym(&mut ic, "f"), sym(&mut ic, "g"));
    let mut env = TyEnv::new();
    env.bind(f, fn_ty);
    env.bind(g, fn_ty);
    let mut e = try_expr(indirect_call(f, indirect_call(g, number(0))));
    synth_expr(&mut env, &mut e, &mut ic);
    assert_eq!(count_b22_diags(&ic), 1);
}

#[test]
fn b22_nested_arg_call_with_own_try_is_admitted() {
    // `f(g(0)?)?`
    let (ty_cx, lints) = (TyCx::new(), LintConfig::new());
    let mut ic = context(&ty_cx, &lints);
    ic.declared_row = EffectRow::from_entries(&vec![raised(Primitive::I64)]);
    let fn_ty = fallible(&mut ic);
    let (f, g) = (sym(&mut ic, "f"), sym(&mut ic, "g"));
    let mut env = TyEnv::new();
    env.bind(f, fn_ty);
    env.bind(g, fn_ty);
    let mut e = try_expr(indirect_call(f, try_expr(indirect_call(g, number(0)))));
    synth_expr(&mut env, &mut e, &mut ic);
    assert_eq!(count_b22_diags(&ic), 0);
}

#[test]
fn b22_outer_try_does_not_cover_receiver_call() {
    // `g(0).m()?`: the receiver must carry its own `?`.
    let (ty_cx, lints) = (TyCx::new(), LintConfig::new());
    let mut ic = context(&ty_cx, &lints);
    ic.declared_row = EffectRow::from_entries(&vec![raised(Primitive::I64)]);
    let fn_ty = fallible(&mut ic);
    let (g, m) = (sym(&mut ic, "g"), sym(&mut ic, "m"));
    let mut env = TyEnv::new();
    env.bind(g, fn_ty);
    let mut e = try_expr(method(indirect_call(g, number(0)), m, vec![]));
    synth_expr(&mut env, &mut e, &mut ic);
    assert_eq!(count_b22_diags(&ic), 1);
}

/// A handler lets no error of its type out, names the payload for the
/// recovery, and is there for `err` alone.
#[test]
fn handlers_discharge_their_error() {
    let (ty_cx, lints) = (TyCx::new(), LintConfig::new());
    let mut ic = context(&ty_cx, &lints);
    let (err, e, other) = (sym(&mut ic, "err"), sym(&mut ic, "e"), sym(&mut ic, "panic"));
    let mut env = TyEnv::new();
    let body = block(vec![stmt(raise_int())], Some(number(1)));
    let mut h = handle(err, prim(Primitive::I64), Some(e), read(e), body);
    assert_eq!(synth_expr(&mut env, &mut h, &mut ic), prim(Primitive::I64));
    assert!(ic.diags.is_empty(), "{:?}", ic.diags);
    assert!(ic.row.to_row().is_empty());
    assert!(ic.discharged_effects.is_empty());
    let mut bad =
        handle(other, prim(Primitive::I64), None, number(2), block(vec![], Some(number(1))));
    synth_expr(&mut env, &mut bad, &mut ic);
    assert_eq!(ic.diags[0].message, Message::HandlerOnlyErr { name: other });
}
