//! Branches, matches, loops and the forms that never return.

use edda_types::cx::TyCx;
use edda_types::diag::{DiagnosticClass, LintConfig, Message, Severity};
use edda_types::hir::{
    HirAssign, HirBinary, HirBlock, HirExpr, HirExprKind, HirFor, HirIf, HirLoop, HirMatch,
    HirMatchArm, HirPat, HirPatKind, HirPath, HirRange, HirStmt, HirStmtKind,
};
use edda_types::infer::cx::{InferCx, LowerCx};
use edda_types::infer::env::TyEnv;
use edda_types::infer::expr::{check_expr, synth_expr};
use edda_types::infer::mode::lattice::BindingState;
use edda_types::intern::{Interner, Symbol};
use edda_types::list::List;
use edda_types::prim::Primitive;
use edda_types::render::Renderer;
use edda_types::span::Span;
use edda_types::syntax::{AssignOp, BinOp, Ident, IntBase, Literal, RangeKind};
use edda_types::ty::{TyId, TyInterner};

/// A context without a package.
fn context<'a>(ty_cx: &'a TyCx, lints: &'a LintConfig) -> InferCx<'a> {
    let lower = LowerCx { interner: Interner::new(), ty_interner: TyInterner::new(), package: None };
    InferCx::new(lower, ty_cx, lints, Vec::new())
}

/// The symbol of `text`.
fn sym(ic: &mut InferCx<'_>, text: &str) -> Symbol {
    ic.lower.interner.intern(text)
}

/// The handle of a primitive type.
fn prim(p: Primitive) -> TyId {
    TyId::Prim(p)
}

fn list<T>(items: Vec<T>) -> List<T> {
    List::from_vec(items)
}

fn expr(kind: HirExprKind) -> HirExpr {
    HirExpr { span: Span::dummy(), kind, ty: TyId::Error }
}

fn number(value: u128) -> HirExpr {
    expr(HirExprKind::Literal(Literal::Int { value, base: IntBase::Dec }))
}

fn boolean(value: bool) -> HirExpr {
    expr(HirExprKind::Literal(Literal::Bool(value)))
}

fn text(value: Symbol) -> HirExpr {
    expr(HirExprKind::Literal(Literal::Str(value)))
}

fn unit() -> HirExpr {
    expr(HirExprKind::Literal(Literal::Unit))
}

fn ident(name: Symbol) -> Ident {
    Ident { name, span: Span::dummy() }
}

fn path(names: Vec<Symbol>) -> HirPath {
    let mut segments = Vec::new();
    for name in names {
        segments.push(ident(name));
    }
    HirPath { span: Span::dummy(), segments: list(segments) }
}

fn read(name: Symbol) -> HirExpr {
    expr(HirExprKind::Path(path(vec![name])))
}

fn block(stmts: Vec<HirStmt>, trailing: Option<HirExpr>) -> HirBlock {
    HirBlock { span: Span::dummy(), stmts: list(stmts), trailing, ty: TyId::Error }
}

fn stmt(e: HirExpr) -> HirStmt {
    HirStmt { span: Span::dummy(), kind: HirStmtKind::Expr(e) }
}

fn pattern(kind: HirPatKind) -> HirPat {
    HirPat { span: Span::dummy(), kind, ty: TyId::Error }
}

fn named(name: Symbol) -> HirPat {
    pattern(HirPatKind::Binding(ident(name)))
}

fn assign(target: HirExpr, rhs: HirExpr) -> HirStmt {
    let kind = HirStmtKind::Assign(HirAssign { target, op: AssignOp::Plain, rhs });
    HirStmt { span: Span::dummy(), kind }
}

fn binary(op: BinOp, lhs: HirExpr, rhs: HirExpr) -> HirExpr {
    expr(HirExprKind::Binary(Box::new(HirBinary { op, lhs, rhs })))
}

fn if_expr(cond: HirExpr, then_block: HirBlock, else_branch: Option<HirExpr>) -> HirExpr {
    expr(HirExprKind::If(Box::new(HirIf { cond, then_block, else_branch })))
}

fn match_expr(scrutinee: HirExpr, arms: Vec<HirMatchArm>) -> HirExpr {
    expr(HirExprKind::Match(Box::new(HirMatch { scrutinee, arms: list(arms) })))
}

fn arm(pat: HirPat, body: HirExpr) -> HirMatchArm {
    HirMatchArm { span: Span::dummy(), pat, guard: None, body }
}

fn loop_expr(body: HirBlock) -> HirExpr {
    expr(HirExprKind::Loop(Box::new(HirLoop { body, decreases: None })))
}

fn tuple(elems: Vec<HirExpr>) -> HirExpr {
    expr(HirExprKind::Tuple(list(elems)))
}

fn array(elems: Vec<HirExpr>) -> HirExpr {
    expr(HirExprKind::Array(list(elems)))
}

fn range(lo: Option<HirExpr>, hi: Option<HirExpr>, kind: RangeKind) -> HirExpr {
    expr(HirExprKind::Range(Box::new(HirRange { lo, hi, kind })))
}

fn raise(payload: HirExpr) -> HirExpr {
    expr(HirExprKind::Raise(Box::new(payload)))
}

fn panic_expr(payload: HirExpr) -> HirExpr {
    expr(HirExprKind::Panic(Box::new(payload)))
}

/// The text of the diagnostic at `i`.
fn message(ic: &InferCx<'_>, i: usize) -> String {
    let renderer = Renderer {
        interner: &ic.lower.interner,
        ty_interner: &ic.lower.ty_interner,
        package: ic.lower.package,
    };
    renderer.message(&ic.diags[i].message)
}

/// Whether some diagnostic's text contains `part`.
fn says(ic: &InferCx<'_>, part: &str) -> bool {
    (0..ic.diags.len()).any(|i| message(ic, i).contains(part))
}

/// How many errors have been reported.
fn errors(ic: &InferCx<'_>) -> usize {
    ic.diags.iter().filter(|d| d.severity == Severity::Error).count()
}

/// How many diagnostics of `class` have been reported.
fn count(ic: &InferCx<'_>, class: DiagnosticClass) -> usize {
    ic.diags.iter().filter(|d| d.class == class).count()
}

fn synth(ic: &mut InferCx<'_>, e: &mut HirExpr) -> TyId {
    let mut env = TyEnv::new();
    synth_expr(&mut env, e, ic)
}

/// `if cond { then } else { .. }`, each branch one expression.
fn choice(cond: HirExpr, yes: HirExpr, no: Option<HirExpr>) -> HirExpr {
    if_expr(cond, block(vec![], Some(yes)), no)
}

#[test]
fn if_with_matching_branches_synthesises_branch_type() {
    let (ty_cx, lints) = (TyCx::new(), LintConfig::new());
    let mut ic = context(&ty_cx, &lints);
    let mut e = choice(boolean(true), number(1), Some(number(2)));
    assert_eq!(synth(&mut ic, &mut e), prim(Primitive::I64));
    assert!(ic.diags.is_empty());
}

#[test]
fn if_without_else_synthesises_unit_when_then_is_unit() {
    let (ty_cx, lints) = (TyCx::new(), LintConfig::new());
    let mut ic = context(&ty_cx, &lints);
    let mut e = choice(boolean(true), unit(), None);
    assert_eq!(synth(&mut ic, &mut e), prim(Primitive::Unit));
    assert!(ic.diags.is_empty());
}

#[test]
fn if_without_else_diagnoses_non_unit_then_branch() {
    let (ty_cx, lints) = (TyCx::new(), LintConfig::new());
    let mut ic = context(&ty_cx, &lints);
    let mut e = choice(boolean(true), number(1), None);
    // One branch is i64, the other (): they disagree.
    assert_eq!(synth(&mut ic, &mut e), ic.ty_error());
    assert!(says(&ic, "incompatible types"));
}

#[test]
fn if_cond_non_bool_emits_check_error() {
    let (ty_cx, lints) = (TyCx::new(), LintConfig::new());
    let mut ic = context(&ty_cx, &lints);
    let mut e = choice(number(1), number(2), Some(number(3)));
    // Branches agree on i64, so synth still yields i64.
    assert_eq!(synth(&mut ic, &mut e), prim(Primitive::I64));
    // The cond mismatch produced a diagnostic.
    assert!(says(&ic, "expected `bool`"));
}

#[test]
fn if_branch_diverges_absorbs_into_other() {
    // `if cond { 1 } else { panic "boom" }` is an i64: the else branch is never.
    let (ty_cx, lints) = (TyCx::new(), LintConfig::new());
    let mut ic = context(&ty_cx, &lints);
    let boom = sym(&mut ic, "boom");
    let mut e = choice(boolean(true), number(1), Some(panic_expr(text(boom))));
    assert_eq!(synth(&mut ic, &mut e), prim(Primitive::I64));
    assert!(ic.diags.is_empty());
}

#[test]
fn match_single_arm_synthesises_body_type() {
    let (ty_cx, lints) = (TyCx::new(), LintConfig::new());
    let mut ic = context(&ty_cx, &lints);
    let mut e = match_expr(number(0), vec![arm(pattern(HirPatKind::Wildcard), number(7))]);
    assert_eq!(synth(&mut ic, &mut e), prim(Primitive::I64));
    assert!(ic.diags.is_empty());
}

#[test]
fn match_arms_must_agree_on_body_type() {
    let (ty_cx, lints) = (TyCx::new(), LintConfig::new());
    let mut ic = context(&ty_cx, &lints);
    let mut e = match_expr(
        number(0),
        vec![
            arm(pattern(HirPatKind::Wildcard), number(1)),
            arm(pattern(HirPatKind::Wildcard), boolean(true)),
        ],
    );
    assert_eq!(synth(&mut ic, &mut e), ic.ty_error());
    assert!(says(&ic, "incompatible types"));
}

#[test]
fn match_binding_pattern_brings_name_into_scope() {
    // `match 42 { x => x }`: `x` binds to the scrutinee's type (i64).
    let (ty_cx, lints) = (TyCx::new(), LintConfig::new());
    let mut ic = context(&ty_cx, &lints);
    let x = sym(&mut ic, "x");
    let mut e = match_expr(number(42), vec![arm(named(x), read(x))]);
    assert_eq!(synth(&mut ic, &mut e), prim(Primitive::I64));
    assert!(ic.diags.is_empty(), "binding lookup must succeed");
}

#[test]
fn match_guard_must_be_bool() {
    let (ty_cx, lints) = (TyCx::new(), LintConfig::new());
    let mut ic = context(&ty_cx, &lints);
    let mut guarded = arm(pattern(HirPatKind::Wildcard), number(2));
    // Not a bool: should diagnose.
    guarded.guard = Some(number(1));
    let mut e = match_expr(number(0), vec![guarded]);
    synth(&mut ic, &mut e);
    assert!(says(&ic, "expected `bool`"));
}

#[test]
fn loop_synthesises_never() {
    let (ty_cx, lints) = (TyCx::new(), LintConfig::new());
    let mut ic = context(&ty_cx, &lints);
    let mut e = loop_expr(block(vec![], None));
    assert_eq!(synth(&mut ic, &mut e), prim(Primitive::Never));
    assert!(ic.diags.is_empty());
}

#[test]
fn return_synthesises_never() {
    let (ty_cx, lints) = (TyCx::new(), LintConfig::new());
    let mut ic = context(&ty_cx, &lints);
    let mut e = expr(HirExprKind::Return(Some(Box::new(number(1)))));
    assert_eq!(synth(&mut ic, &mut e), prim(Primitive::Never));
}

#[test]
fn raise_synthesises_never() {
    let (ty_cx, lints) = (TyCx::new(), LintConfig::new());
    let mut ic = context(&ty_cx, &lints);
    let mut e = raise(number(1));
    assert_eq!(synth(&mut ic, &mut e), prim(Primitive::Never));
}

#[test]
fn panic_synthesises_never() {
    let (ty_cx, lints) = (TyCx::new(), LintConfig::new());
    let mut ic = context(&ty_cx, &lints);
    let oops = sym(&mut ic, "oops");
    let mut e = panic_expr(text(oops));
    assert_eq!(synth(&mut ic, &mut e), prim(Primitive::Never));
}

#[test]
fn break_continue_synthesise_never() {
    let (ty_cx, lints) = (TyCx::new(), LintConfig::new());
    let mut ic = context(&ty_cx, &lints);
    let mut brk = expr(HirExprKind::Break(Some(Box::new(number(1)))));
    assert_eq!(synth(&mut ic, &mut brk), prim(Primitive::Never));

    let mut cont = expr(HirExprKind::Continue);
    assert_eq!(synth(&mut ic, &mut cont), prim(Primitive::Never));
}

#[test]
fn nested_if_in_arithmetic() {
    // `1 + if cond { 2 } else { 3 }`: the branches join to i64.
    let (ty_cx, lints) = (TyCx::new(), LintConfig::new());
    let mut ic = context(&ty_cx, &lints);
    let inner = choice(boolean(true), number(2), Some(number(3)));
    let mut e = binary(BinOp::Add, number(1), inner);
    assert_eq!(synth(&mut ic, &mut e), prim(Primitive::I64));
    assert!(ic.diags.is_empty());
}

/// `if c { 7 } else { 0 }` at i32 narrows both branch literals.
#[test]
fn if_checks_against_i32_narrows_both_branches() {
    let (ty_cx, lints) = (TyCx::new(), LintConfig::new());
    let mut ic = context(&ty_cx, &lints);
    let mut e = choice(boolean(true), number(7), Some(number(0)));
    let mut env = TyEnv::new();
    check_expr(&mut env, &mut e, prim(Primitive::I32), &mut ic);
    assert!(ic.diags.is_empty(), "expected no diagnostics: {:?}", ic.diags);
    assert_eq!(e.ty, prim(Primitive::I32));
}

/// `never` is admissible at any expected type.
#[test]
fn never_absorbs_into_any_expected_type() {
    let (ty_cx, lints) = (TyCx::new(), LintConfig::new());
    let mut ic = context(&ty_cx, &lints);
    // `return 0` synthesises `never`; check it against i32.
    let mut e = expr(HirExprKind::Return(Some(Box::new(number(0)))));
    let mut env = TyEnv::new();
    check_expr(&mut env, &mut e, prim(Primitive::I32), &mut ic);
    assert!(!says(&ic, "found `never`"), "never must absorb; diags: {:?}", ic.diags);
    assert_eq!(e.ty, prim(Primitive::I32));
}

/// A tuple in checking position hands each element its expected type.
#[test]
fn check_expr_fallback_uses_synth_then_compare() {
    let (ty_cx, lints) = (TyCx::new(), LintConfig::new());
    let mut ic = context(&ty_cx, &lints);
    let mut e = tuple(vec![number(1), number(2)]);
    let mut env = TyEnv::new();
    let i32_id = prim(Primitive::I32);
    let expected = ic.lower.ty_interner.tuple(list(vec![i32_id, i32_id]));
    check_expr(&mut env, &mut e, expected, &mut ic);
    assert!(ic.diags.is_empty(), "no diagnostics: {:?}", ic.diags);
    assert_eq!(e.ty, expected);
    // Verify each element narrowed.
    if let HirExprKind::Tuple(elems) = &e.kind {
        assert_eq!(elems.get_ref(0).unwrap().ty, i32_id);
        assert_eq!(elems.get_ref(1).unwrap().ty, i32_id);
    } else {
        panic!("expected tuple");
    }
}


fn count_to(n: Symbol) -> HirExpr {
    binary(BinOp::Add, read(n), number(1))
}

/// A literal pattern of another type than the scrutinee is reported.
#[test]
fn literal_pattern_must_fit_the_scrutinee() {
    let (ty_cx, lints) = (TyCx::new(), LintConfig::new());
    let mut ic = context(&ty_cx, &lints);
    let yes = pattern(HirPatKind::Literal(Literal::Bool(true)));
    let any = pattern(HirPatKind::Wildcard);
    let mut e = match_expr(number(0), vec![arm(yes, number(7)), arm(any, number(8))]);
    assert_eq!(synth(&mut ic, &mut e), prim(Primitive::I64));
    assert_eq!(errors(&ic), 1);
    assert!(matches!(ic.diags[0].message, Message::LiteralPatMismatch { .. }));
}

/// A loop that consumes an outer binding cannot start over.
#[test]
fn loop_may_not_change_an_outer_state() {
    let (ty_cx, lints) = (TyCx::new(), LintConfig::new());
    let mut ic = context(&ty_cx, &lints);
    let x = sym(&mut ic, "x");
    let mut env = TyEnv::new();
    env.bind_with_state_mut(x, prim(Primitive::I64), BindingState::Uninit, true);
    let mut e = loop_expr(block(vec![assign(read(x), number(1))], None));
    assert_eq!(synth_expr(&mut env, &mut e, &mut ic), prim(Primitive::Never));
    assert_eq!(ic.diags.len(), 1);
    assert_eq!(
        message(&ic, 0),
        "loop body changes the state of outer binding `x` (was uninitialised, now valid); \
         state must agree across iterations"
    );
}

/// The elements of a walked slice have its element type.
#[test]
fn for_over_a_slice_binds_its_elements() {
    let (ty_cx, lints) = (TyCx::new(), LintConfig::new());
    let mut ic = context(&ty_cx, &lints);
    let x = sym(&mut ic, "x");
    let body = block(vec![stmt(count_to(x))], None);
    let iter = array(vec![number(1), number(2)]);
    let mut e = expr(HirExprKind::For(Box::new(HirFor { pat: named(x), iter, body })));
    assert_eq!(synth(&mut ic, &mut e), prim(Primitive::Unit));
    assert!(ic.diags.is_empty(), "{:?}", ic.diags);
}

/// Only slices and ranges can be walked.
#[test]
fn for_over_a_bool_is_reported() {
    let (ty_cx, lints) = (TyCx::new(), LintConfig::new());
    let mut ic = context(&ty_cx, &lints);
    let x = sym(&mut ic, "x");
    let node = HirFor { pat: named(x), iter: boolean(true), body: block(vec![], None) };
    let mut e = expr(HirExprKind::For(Box::new(node)));
    synth(&mut ic, &mut e);
    assert_eq!(errors(&ic), 1);
    assert_eq!(ic.diags[0].message, Message::ForNotIterable { ty: prim(Primitive::Bool) });
}

/// A range that lacks an endpoint cannot be walked.
#[test]
fn for_over_an_open_range_is_reported() {
    let (ty_cx, lints) = (TyCx::new(), LintConfig::new());
    for (lo, hi) in [(Some(number(0)), None), (None, Some(number(3))), (None, None)] {
        let mut ic = context(&ty_cx, &lints);
        let x = sym(&mut ic, "x");
        let iter = range(lo, hi, RangeKind::HalfOpen);
        let node = HirFor { pat: named(x), iter, body: block(vec![], None) };
        let mut e = expr(HirExprKind::For(Box::new(node)));
        assert_eq!(synth(&mut ic, &mut e), prim(Primitive::Unit));
        assert_eq!(count(&ic, DiagnosticClass::TypecheckError), 1);
    }
}

/// `for i in 0..<n` binds `i` at the type of `n`.
#[test]
fn for_over_a_range_binds_its_endpoint_type() {
    let (ty_cx, lints) = (TyCx::new(), LintConfig::new());
    let mut ic = context(&ty_cx, &lints);
    let (i, n, b) = (sym(&mut ic, "i"), sym(&mut ic, "n"), sym(&mut ic, "b"));
    let mut env = TyEnv::new();
    env.bind(n, prim(Primitive::Usize));
    env.bind(b, prim(Primitive::Bool));
    let body = || block(vec![stmt(count_to(i))], None);
    let iter = range(Some(number(0)), Some(read(n)), RangeKind::HalfOpen);
    let node = HirFor { pat: named(i), iter, body: body() };
    let mut e = expr(HirExprKind::For(Box::new(node)));
    synth_expr(&mut env, &mut e, &mut ic);
    assert!(ic.diags.is_empty(), "{:?}", ic.diags);
    if let HirExprKind::For(node) = &e.kind {
        assert_eq!(node.pat.ty, prim(Primitive::Usize));
    }
    let iter = range(Some(read(b)), Some(read(n)), RangeKind::Closed);
    let node = HirFor { pat: named(i), iter, body: block(vec![], None) };
    let mut e = expr(HirExprKind::For(Box::new(node)));
    synth_expr(&mut env, &mut e, &mut ic);
    assert_eq!(
        ic.diags[0].message,
        Message::ForRangeMismatch { lo: prim(Primitive::Bool), hi: prim(Primitive::Usize) }
    );
}
