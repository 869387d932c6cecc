//! Literals, paths, blocks, bindings and regions.

use edda_types::capability::CapabilityType;
use edda_types::cx::TyCx;
use edda_types::diag::{DiagnosticClass, LintConfig, Severity};
use edda_types::effect::{EffectEntry, EffectRow};
use edda_types::hir::{
    HirAssign, HirBinary, HirBlock, HirExpr, HirExprKind, HirIf, HirLet, HirMatch, HirMatchArm,
    HirPat, HirPatKind, HirPath, HirScope, HirStmt, HirStmtKind,
};
use edda_types::infer::cx::{InferCx, LowerCx};
use edda_types::infer::env::TyEnv;
use edda_types::infer::expr::{check_expr, synth_expr};
use edda_types::intern::{Interner, Symbol};
use edda_types::list::List;
use edda_types::prim::Primitive;
use edda_types::render::Renderer;
use edda_types::span::Span;
use edda_types::syntax::{AssignOp, BinOp, BindingMode, Ident, IntBase, Literal, ScopeKind};
use edda_types::ty::{TyId, TyInterner};

/// A context without a package.
fn context<'a>(ty_cx: &'a TyCx, lints: &'a LintConfig) -> InferCx<'a> {
    let lower = LowerCx { interner: Interner::new(), ty_interner: TyInterner::new(), package: None };
    InferCx::new(lower, ty_cx, lints, Vec::new())
}

/// The symbol of `text`.
fn sym(ic: &mut InferCx<'_>, text: &str) -> Symbol {
    ic.lower.interner.intern(text)
}

/// The handle of a primitive type.
fn prim(p: Primitive) -> TyId {
    TyId::Prim(p)
}

fn list<T>(items: Vec<T>) -> List<T> {
    List::from_vec(items)
}

fn expr(kind: HirExprKind) -> HirExpr {
    HirExpr { span: Span::dummy(), kind, ty: TyId::Error }
}

fn number(value: u128) -> HirExpr {
    expr(HirExprKind::Literal(Literal::Int { value, base: IntBase::Dec }))
}

fn boolean(value: bool) -> HirExpr {
    expr(HirExprKind::Literal(Literal::Bool(value)))
}

fn text(value: Symbol) -> HirExpr {
    expr(HirExprKind::Literal(Literal::Str(value)))
}

fn ident(name: Symbol) -> Ident {
    Ident { name, span: Span::dummy() }
}

fn path(names: Vec<Symbol>) -> HirPath {
    let mut segments = Vec::new();
    for name in names {
        segments.push(ident(name));
    }
    HirPath { span: Span::dummy(), segments: list(segments) }
}

fn read(name: Symbol) -> HirExpr {
    expr(HirExprKind::Path(path(vec![name])))
}

fn block(stmts: Vec<HirStmt>, trailing: Option<HirExpr>) -> HirBlock {
    HirBlock { span: Span::dummy(), stmts: list(stmts), trailing, ty: TyId::Error }
}

fn block_expr(body: HirBlock) -> HirExpr {
    expr(HirExprKind::Block(Box::new(body)))
}

fn stmt(e: HirExpr) -> HirStmt {
    HirStmt { span: Span::dummy(), kind: HirStmtKind::Expr(e) }
}

fn pattern(kind: HirPatKind) -> HirPat {
    HirPat { span: Span::dummy(), kind, ty: TyId::Error }
}

fn named(name: Symbol) -> HirPat {
    pattern(HirPatKind::Binding(ident(name)))
}

fn let_stmt(
    name: Symbol,
    mutability: BindingMode,
    ty: Option<TyId>,
    init: Option<HirExpr>,
) -> HirStmt {
    let kind = HirStmtKind::Let(HirLet { ty, init, pat: named(name), mutability });
    HirStmt { span: Span::dummy(), kind }
}

fn assign(target: HirExpr, rhs: HirExpr) -> HirStmt {
    let kind = HirStmtKind::Assign(HirAssign { target, op: AssignOp::Plain, rhs });
    HirStmt { span: Span::dummy(), kind }
}

fn binary(op: BinOp, lhs: HirExpr, rhs: HirExpr) -> HirExpr {
    expr(HirExprKind::Binary(Box::new(HirBinary { op, lhs, rhs })))
}

fn if_expr(cond: HirExpr, then_block: HirBlock, else_branch: Option<HirExpr>) -> HirExpr {
    expr(HirExprKind::If(Box::new(HirIf { cond, then_block, else_branch })))
}

fn match_expr(scrutinee: HirExpr, arms: Vec<HirMatchArm>) -> HirExpr {
    expr(HirExprKind::Match(Box::new(HirMatch { scrutinee, arms: list(arms) })))
}

fn arm(pat: HirPat, body: HirExpr) -> HirMatchArm {
    HirMatchArm { span: Span::dummy(), pat, guard: None, body }
}

fn tuple(elems: Vec<HirExpr>) -> HirExpr {
    expr(HirExprKind::Tuple(list(elems)))
}

/// The text of the diagnostic at `i`.
fn message(ic: &InferCx<'_>, i: usize) -> String {
    let renderer = Renderer {
        interner: &ic.lower.interner,
        ty_interner: &ic.lower.ty_interner,
        package: ic.lower.package,
    };
    renderer.message(&ic.diags[i].message)
}

/// Whether some diagnostic's text contains `part`.
fn says(ic: &InferCx<'_>, part: &str) -> bool {
    (0..ic.diags.len()).any(|i| message(ic, i).contains(part))
}

/// How many errors have been reported.
fn errors(ic: &InferCx<'_>) -> usize {
    ic.diags.iter().filter(|d| d.severity == Severity::Error).count()
}

/// How many diagnostics of `class` have been reported.
fn count(ic: &InferCx<'_>, class: DiagnosticClass) -> usize {
    ic.diags.iter().filter(|d| d.class == class).count()
}

fn synth(ic: &mut InferCx<'_>, e: &mut HirExpr) -> TyId {
    let mut env = TyEnv::new();
    synth_expr(&mut env, e, ic)
}

#[test]
fn integer_literal_synthesises_i64() {
    let (ty_cx, lints) = (TyCx::new(), LintConfig::new());
    let mut ic = context(&ty_cx, &lints);
    let mut hir = number(42);
    let ty = synth(&mut ic, &mut hir);
    assert_eq!(ty, prim(Primitive::I64));
    assert_eq!(hir.ty, prim(Primitive::I64));
    assert!(ic.diags.is_empty());
}

#[test]
fn float_literal_synthesises_f64() {
    let (ty_cx, lints) = (TyCx::new(), LintConfig::new());
    let mut ic = context(&ty_cx, &lints);
    let s = sym(&mut ic, "1.5");
    let mut hir = expr(HirExprKind::Literal(Literal::Float(s)));
    assert_eq!(synth(&mut ic, &mut hir), prim(Primitive::F64));
}

#[test]
fn float_literal_checks_against_f32_target() {
    let (ty_cx, lints) = (TyCx::new(), LintConfig::new());
    let mut ic = context(&ty_cx, &lints);
    let s = sym(&mut ic, "1.5");
    let mut hir = expr(HirExprKind::Literal(Literal::Float(s)));
    let mut env = TyEnv::new();
    check_expr(&mut env, &mut hir, prim(Primitive::F32), &mut ic);
    assert_eq!(hir.ty, prim(Primitive::F32));
    assert!(ic.diags.is_empty());
}

#[test]
fn float_literal_checks_against_f64_target() {
    let (ty_cx, lints) = (TyCx::new(), LintConfig::new());
    let mut ic = context(&ty_cx, &lints);
    let s = sym(&mut ic, "1.5");
    let mut hir = expr(HirExprKind::Literal(Literal::Float(s)));
    let mut env = TyEnv::new();
    check_expr(&mut env, &mut hir, prim(Primitive::F64), &mut ic);
    assert_eq!(hir.ty, prim(Primitive::F64));
    assert!(ic.diags.is_empty());
}

#[test]
fn float_literal_against_non_float_target_emits_diagnostic() {
    let (ty_cx, lints) = (TyCx::new(), LintConfig::new());
    let mut ic = context(&ty_cx, &lints);
    let s = sym(&mut ic, "1.5");
    let mut hir = expr(HirExprKind::Literal(Literal::Float(s)));
    let mut env = TyEnv::new();
    check_expr(&mut env, &mut hir, prim(Primitive::I32), &mut ic);
    assert_eq!(hir.ty, ic.ty_error());
    assert_eq!(errors(&ic), 1);
}

#[test]
fn bool_string_unit_literals_synth() {
    let (ty_cx, lints) = (TyCx::new(), LintConfig::new());
    let mut ic = context(&ty_cx, &lints);
    let s = sym(&mut ic, "hi");
    for (lit, expected) in [
        (Literal::Bool(true), Primitive::Bool),
        (Literal::Str(s), Primitive::String),
        (Literal::Unit, Primitive::Unit),
    ] {
        let mut hir = expr(HirExprKind::Literal(lit));
        assert_eq!(synth(&mut ic, &mut hir), prim(expected));
    }
}

#[test]
fn integer_literal_checks_against_in_range_target() {
    let (ty_cx, lints) = (TyCx::new(), LintConfig::new());
    let mut ic = context(&ty_cx, &lints);
    let mut hir = number(127);
    let mut env = TyEnv::new();
    check_expr(&mut env, &mut hir, prim(Primitive::I8), &mut ic);
    assert_eq!(hir.ty, prim(Primitive::I8));
    assert!(ic.diags.is_empty());
}

#[test]
fn integer_literal_out_of_range_emits_diagnostic() {
    let (ty_cx, lints) = (TyCx::new(), LintConfig::new());
    let mut ic = context(&ty_cx, &lints);
    let mut hir = number(300);
    let mut env = TyEnv::new();
    check_expr(&mut env, &mut hir, prim(Primitive::I8), &mut ic);
    assert_eq!(hir.ty, ic.ty_error());
    assert_eq!(errors(&ic), 1);
    let msg = message(&ic, 0);
    assert!(msg.contains("300"));
    assert!(msg.contains("i8"));
}

#[test]
fn synth_check_mismatch_emits_diagnostic() {
    let (ty_cx, lints) = (TyCx::new(), LintConfig::new());
    let mut ic = context(&ty_cx, &lints);
    let mut hir = boolean(true);
    let mut env = TyEnv::new();
    check_expr(&mut env, &mut hir, prim(Primitive::I32), &mut ic);
    assert_eq!(hir.ty, ic.ty_error());
    assert_eq!(errors(&ic), 1);
    assert!(message(&ic, 0).contains("expected `i32`"));
}

#[test]
fn path_lookup_succeeds_for_bound_name() {
    let (ty_cx, lints) = (TyCx::new(), LintConfig::new());
    let mut ic = context(&ty_cx, &lints);
    let x = sym(&mut ic, "x");
    let mut env = TyEnv::new();
    env.bind(x, prim(Primitive::I32));
    let mut hir = read(x);
    assert_eq!(synth_expr(&mut env, &mut hir, &mut ic), prim(Primitive::I32));
    assert!(ic.diags.is_empty());
}

#[test]
fn path_lookup_unknown_emits_diagnostic() {
    let (ty_cx, lints) = (TyCx::new(), LintConfig::new());
    let mut ic = context(&ty_cx, &lints);
    let missing = sym(&mut ic, "missing");
    let mut hir = read(missing);
    assert_eq!(synth(&mut ic, &mut hir), ic.ty_error());
    assert_eq!(errors(&ic), 1);
    assert!(message(&ic, 0).contains("cannot find binding `missing`"));
}

#[test]
fn qualified_path_defers_with_diagnostic() {
    let (ty_cx, lints) = (TyCx::new(), LintConfig::new());
    let mut ic = context(&ty_cx, &lints);
    let names = vec![sym(&mut ic, "std"), sym(&mut ic, "fs")];
    let mut hir = expr(HirExprKind::Path(path(names)));
    assert_eq!(synth(&mut ic, &mut hir), ic.ty_error());
    assert_eq!(errors(&ic), 1);
    assert!(message(&ic, 0).contains("qualified-path expressions"));
}

#[test]
fn empty_block_synthesises_unit() {
    let (ty_cx, lints) = (TyCx::new(), LintConfig::new());
    let mut ic = context(&ty_cx, &lints);
    let mut hir = block_expr(block(vec![], None));
    assert_eq!(synth(&mut ic, &mut hir), prim(Primitive::Unit));
}

#[test]
fn block_with_trailing_takes_trailing_type() {
    let (ty_cx, lints) = (TyCx::new(), LintConfig::new());
    let mut ic = context(&ty_cx, &lints);
    let mut hir = block_expr(block(vec![], Some(number(7))));
    assert_eq!(synth(&mut ic, &mut hir), prim(Primitive::I64));
}

#[test]
fn let_with_init_synthesises_and_binds() {
    // `let x = 42; x`
    let (ty_cx, lints) = (TyCx::new(), LintConfig::new());
    let mut ic = context(&ty_cx, &lints);
    let x = sym(&mut ic, "x");
    let decl = let_stmt(x, BindingMode::Immutable, None, Some(number(42)));
    let mut hir = block_expr(block(vec![decl], Some(read(x))));
    assert_eq!(synth(&mut ic, &mut hir), prim(Primitive::I64));
    assert!(ic.diags.is_empty());
}

#[test]
fn let_with_annotation_checks_init_against_annotation() {
    // `let x: i32 = 127; x`
    let (ty_cx, lints) = (TyCx::new(), LintConfig::new());
    let mut ic = context(&ty_cx, &lints);
    let x = sym(&mut ic, "x");
    let decl = let_stmt(x, BindingMode::Immutable, Some(prim(Primitive::I32)), Some(number(127)));
    let mut hir = block_expr(block(vec![decl], Some(read(x))));
    assert_eq!(synth(&mut ic, &mut hir), prim(Primitive::I32));
    assert!(ic.diags.is_empty(), "127 fits in i32");
}

#[test]
fn let_with_annotation_emits_when_init_out_of_range() {
    // `let x: i8 = 200`
    let (ty_cx, lints) = (TyCx::new(), LintConfig::new());
    let mut ic = context(&ty_cx, &lints);
    let x = sym(&mut ic, "x");
    let decl = let_stmt(x, BindingMode::Immutable, Some(prim(Primitive::I8)), Some(number(200)));
    let mut hir = block_expr(block(vec![decl], None));
    synth(&mut ic, &mut hir);
    // One diagnostic from the out-of-range integer check.
    assert_eq!(errors(&ic), 1);
    assert_eq!(ic.diags[0].class, DiagnosticClass::TypecheckError);
}

#[test]
fn scope_pop_on_block_exit() {
    // `let x = 1` inside an inner block should not be visible outside.
    let (ty_cx, lints) = (TyCx::new(), LintConfig::new());
    let mut ic = context(&ty_cx, &lints);
    let x = sym(&mut ic, "x");
    let inner = block(vec![let_stmt(x, BindingMode::Immutable, None, Some(number(1)))], None);
    // Reference `x` from outside: should fail.
    let mut hir = block_expr(block(vec![stmt(block_expr(inner))], Some(read(x))));
    assert_eq!(synth(&mut ic, &mut hir), ic.ty_error());
    assert_eq!(errors(&ic), 1);
    assert!(message(&ic, 0).contains("cannot find binding `x`"));
}

#[test]
fn coherence_region_body_is_typed() {
    // The region's trailing `total + 1` must be an `i32`, not the error type
    // that fresh nodes carry.
    let (ty_cx, lints) = (TyCx::new(), LintConfig::new());
    let mut ic = context(&ty_cx, &lints);
    let total = sym(&mut ic, "total");
    let body = block(
        vec![let_stmt(total, BindingMode::Mutable, Some(prim(Primitive::I32)), Some(number(0)))],
        Some(binary(BinOp::Add, read(total), number(1))),
    );
    let scope = HirScope { kind: ScopeKind::Coherence, name: None, body };
    let mut hir = expr(HirExprKind::Scope(Box::new(scope)));
    assert_eq!(synth(&mut ic, &mut hir), prim(Primitive::I32));
    assert_eq!(errors(&ic), 0);
}

fn empty_scope_exec(unit_ty: TyId) -> HirExpr {
    let body = HirBlock { span: Span::dummy(), stmts: list(vec![]), trailing: None, ty: unit_ty };
    let scope = HirScope { kind: ScopeKind::Exec, name: None, body };
    HirExpr { span: Span::dummy(), kind: HirExprKind::Scope(Box::new(scope)), ty: unit_ty }
}

#[test]
fn exec_scope_missing_executor_in_row_diagnoses() {
    // `scope(exec)` requires the enclosing function's declared row to carry an
    // `Executor` capability entry. An empty declared row must diagnose.
    let (ty_cx, lints) = (TyCx::new(), LintConfig::new());
    let mut ic = context(&ty_cx, &lints);
    let mut hir = empty_scope_exec(prim(Primitive::Unit));
    synth(&mut ic, &mut hir);
    assert_eq!(count(&ic, DiagnosticClass::ExecutorMissingInRow), 1);
}

#[test]
fn exec_scope_with_executor_in_row_is_clean() {
    // A declared row carrying a capability entry bound to an `Executor`-typed
    // parameter must not diagnose.
    let (ty_cx, lints) = (TyCx::new(), LintConfig::new());
    let mut ic = context(&ty_cx, &lints);
    let exec = sym(&mut ic, "exec");
    let exec_ty = ic.lower.ty_interner.capability(CapabilityType::Executor);
    let mut hir = empty_scope_exec(prim(Primitive::Unit));
    let mut env = TyEnv::new();
    env.bind(exec, exec_ty);
    ic.declared_row = EffectRow::from_entries(&vec![EffectEntry::Capability(exec)]);
    synth_expr(&mut env, &mut hir, &mut ic);
    assert_eq!(count(&ic, DiagnosticClass::ExecutorMissingInRow), 0);
}

#[test]
fn inner_shadows_outer() {
    let (ty_cx, lints) = (TyCx::new(), LintConfig::new());
    let mut ic = context(&ty_cx, &lints);
    let x = sym(&mut ic, "x");
    let mut env = TyEnv::new();
    env.bind(x, prim(Primitive::I32));

    env.enter_scope();
    env.bind(x, prim(Primitive::Bool));
    let mut hir = read(x);
    assert_eq!(synth_expr(&mut env, &mut hir, &mut ic), prim(Primitive::Bool));

    env.exit_scope();
    let mut hir2 = read(x);
    assert_eq!(synth_expr(&mut env, &mut hir2, &mut ic), prim(Primitive::I32));
}

#[test]
fn unhandled_variants_remain_error_silently() {
    // A node that inference has no rule for keeps the error type.
    let (ty_cx, lints) = (TyCx::new(), LintConfig::new());
    let mut ic = context(&ty_cx, &lints);
    let mut hir = expr(HirExprKind::Error);
    assert_eq!(synth(&mut ic, &mut hir), ic.ty_error());
    assert!(ic.diags.is_empty());
}

#[test]
fn ty_env_depth_tracks_frames() {
    let mut env = TyEnv::new();
    assert_eq!(env.depth(), 1);
    env.enter_scope();
    assert_eq!(env.depth(), 2);
    env.enter_scope();
    assert_eq!(env.depth(), 3);
    env.exit_scope();
    assert_eq!(env.depth(), 2);
    env.exit_scope();
    assert_eq!(env.depth(), 1);
}

#[test]
fn tuple_pattern_binds_elements_at_declared_types() {
    // `match (1, true) { (x, _) => x }`: x binds at i64.
    let (ty_cx, lints) = (TyCx::new(), LintConfig::new());
    let mut ic = context(&ty_cx, &lints);
    let x = sym(&mut ic, "x");
    let pat = pattern(HirPatKind::Tuple(list(vec![named(x), pattern(HirPatKind::Wildcard)])));
    let mut hir = match_expr(tuple(vec![number(1), boolean(true)]), vec![arm(pat, read(x))]);
    assert_eq!(synth(&mut ic, &mut hir), prim(Primitive::I64));
    assert!(ic.diags.is_empty(), "tuple-pattern destructuring should type-check cleanly");
}

#[test]
fn tuple_pattern_arity_mismatch_emits_diagnostic() {
    // `match (1, true) { (x, _, _) => x }`: the scrutinee is a pair.
    let (ty_cx, lints) = (TyCx::new(), LintConfig::new());
    let mut ic = context(&ty_cx, &lints);
    let x = sym(&mut ic, "x");
    let pat = pattern(HirPatKind::Tuple(list(vec![
        named(x),
        pattern(HirPatKind::Wildcard),
        pattern(HirPatKind::Wildcard),
    ])));
    let mut hir = match_expr(tuple(vec![number(1), boolean(true)]), vec![arm(pat, read(x))]);
    synth(&mut ic, &mut hir);
    assert!(says(&ic, "does not match scrutinee of type"));
}

/// `var x: i32; x`: reading an uninitialised binding is an error.
#[test]
fn reading_uninit_var_diagnoses() {
    let (ty_cx, lints) = (TyCx::new(), LintConfig::new());
    let mut ic = context(&ty_cx, &lints);
    let x = sym(&mut ic, "x");
    let decl = let_stmt(x, BindingMode::Mutable, Some(prim(Primitive::I32)), None);
    let mut hir = block_expr(block(vec![decl], Some(read(x))));
    synth(&mut ic, &mut hir);
    assert!(says(&ic, "uninitialised"), "expected uninit diagnostic, got: {:?}", ic.diags);
}

/// `var x: i32; x = 1; x`: assignment makes the binding valid, then reading
/// is admissible without diagnostic.
#[test]
fn assignment_makes_uninit_var_readable() {
    let (ty_cx, lints) = (TyCx::new(), LintConfig::new());
    let mut ic = context(&ty_cx, &lints);
    let x = sym(&mut ic, "x");
    let decl = let_stmt(x, BindingMode::Mutable, Some(prim(Primitive::I32)), None);
    let mut hir = block_expr(block(vec![decl, assign(read(x), number(1))], Some(read(x))));
    synth(&mut ic, &mut hir);
    assert!(!says(&ic, "uninitialised"), "should not diagnose, got: {:?}", ic.diags);
}

/// `if c { x = 1 } else {}; x`: one branch initialises, the other does not,
/// so `x` stays uninitialised at the join.
#[test]
fn branch_glb_keeps_uninit_when_not_all_branches_initialise() {
    let (ty_cx, lints) = (TyCx::new(), LintConfig::new());
    let mut ic = context(&ty_cx, &lints);
    let x = sym(&mut ic, "x");
    let decl = let_stmt(x, BindingMode::Mutable, Some(prim(Primitive::I32)), None);
    let branch = if_expr(
        boolean(true),
        block(vec![assign(read(x), number(1))], None),
        Some(block_expr(block(vec![], None))),
    );
    let mut hir = block_expr(block(vec![decl, stmt(branch)], Some(read(x))));
    synth(&mut ic, &mut hir);
    assert!(says(&ic, "uninitialised"), "the join should keep x uninit; got: {:?}", ic.diags);
}
