//! Operators and casts.

use edda_types::cx::TyCx;
use edda_types::diag::{LintConfig, Message, Severity};
use edda_types::hir::{HirBinary, HirExpr, HirExprKind, HirUnary};
use edda_types::infer::cx::{InferCx, LowerCx};
use edda_types::infer::env::TyEnv;
use edda_types::infer::expr::{check_expr, synth_expr};
use edda_types::intern::{Interner, Symbol};
use edda_types::prim::Primitive;
use edda_types::render::Renderer;
use edda_types::span::Span;
use edda_types::syntax::{BinOp, IntBase, Literal, UnOp};
use edda_types::ty::{TyId, TyInterner};

/// A context without a package.
fn context<'a>(ty_cx: &'a TyCx, lints: &'a LintConfig) -> InferCx<'a> {
    let lower = LowerCx { interner: Interner::new(), ty_interner: TyInterner::new(), package: None };
    InferCx::new(lower, ty_cx, lints, Vec::new())
}

/// The symbol of `text`.
fn sym(ic: &mut InferCx<'_>, text: &str) -> Symbol {
    ic.lower.interner.intern(text)
}

/// The handle of a primitive type.
fn prim(p: Primitive) -> TyId {
    TyId::Prim(p)
}

fn expr(kind: HirExprKind) -> HirExpr {
    HirExpr { span: Span::dummy(), kind, ty: TyId::Error }
}

fn number(value: u128) -> HirExpr {
    expr(HirExprKind::Literal(Literal::Int { value, base: IntBase::Dec }))
}

fn boolean(value: bool) -> HirExpr {
    expr(HirExprKind::Literal(Literal::Bool(value)))
}

fn text(value: Symbol) -> HirExpr {
    expr(HirExprKind::Literal(Literal::Str(value)))
}

fn binary(op: BinOp, lhs: HirExpr, rhs: HirExpr) -> HirExpr {
    expr(HirExprKind::Binary(Box::new(HirBinary { op, lhs, rhs })))
}

fn unary(op: UnOp, operand: HirExpr) -> HirExpr {
    expr(HirExprKind::Unary(Box::new(HirUnary { op, operand })))
}

/// The text of the diagnostic at `i`.
fn message(ic: &InferCx<'_>, i: usize) -> String {
    let renderer = Renderer {
        interner: &ic.lower.interner,
        ty_interner: &ic.lower.ty_interner,
        package: ic.lower.package,
    };
    renderer.message(&ic.diags[i].message)
}

/// Whether some diagnostic's text contains `part`.
fn says(ic: &InferCx<'_>, part: &str) -> bool {
    (0..ic.diags.len()).any(|i| message(ic, i).contains(part))
}

/// How many errors have been reported.
fn errors(ic: &InferCx<'_>) -> usize {
    ic.diags.iter().filter(|d| d.severity == Severity::Error).count()
}

fn synth(ic: &mut InferCx<'_>, e: &mut HirExpr) -> TyId {
    let mut env = TyEnv::new();
    synth_expr(&mut env, e, ic)
}

#[test]
fn integer_addition_synthesises_i64() {
    let (ty_cx, lints) = (TyCx::new(), LintConfig::new());
    let mut ic = context(&ty_cx, &lints);
    let mut e = binary(BinOp::Add, number(1), number(2));
    assert_eq!(synth(&mut ic, &mut e), prim(Primitive::I64));
    assert!(ic.diags.is_empty());
}

#[test]
fn arithmetic_on_bool_emits_diagnostic() {
    let (ty_cx, lints) = (TyCx::new(), LintConfig::new());
    let mut ic = context(&ty_cx, &lints);
    let mut e = binary(BinOp::Add, boolean(true), boolean(false));
    assert_eq!(synth(&mut ic, &mut e), ic.ty_error());
    assert!(errors(&ic) >= 1);
    assert!(says(&ic, "requires numeric operands"));
}

#[test]
fn comparison_returns_bool() {
    let (ty_cx, lints) = (TyCx::new(), LintConfig::new());
    let mut ic = context(&ty_cx, &lints);
    for op in [BinOp::Eq, BinOp::Ne, BinOp::Lt, BinOp::Le, BinOp::Gt, BinOp::Ge] {
        let mut e = binary(op, number(1), number(2));
        assert_eq!(synth(&mut ic, &mut e), prim(Primitive::Bool), "{op:?}");
    }
}

#[test]
fn ordering_on_bool_emits_diagnostic_but_yields_bool() {
    let (ty_cx, lints) = (TyCx::new(), LintConfig::new());
    let mut ic = context(&ty_cx, &lints);
    let mut e = binary(BinOp::Lt, boolean(true), boolean(false));
    // The result type is still `bool`: only the operands are wrong.
    assert_eq!(synth(&mut ic, &mut e), prim(Primitive::Bool));
    assert!(says(&ic, "ordering operator"));
}

#[test]
fn equality_on_bool_allowed() {
    let (ty_cx, lints) = (TyCx::new(), LintConfig::new());
    let mut ic = context(&ty_cx, &lints);
    let mut e = binary(BinOp::Eq, boolean(true), boolean(false));
    assert_eq!(synth(&mut ic, &mut e), prim(Primitive::Bool));
    assert!(ic.diags.is_empty(), "Eq does not require numeric");
}

#[test]
fn logical_and_or_require_bool() {
    let (ty_cx, lints) = (TyCx::new(), LintConfig::new());
    let mut ic = context(&ty_cx, &lints);
    let mut e = binary(BinOp::And, boolean(true), boolean(false));
    assert_eq!(synth(&mut ic, &mut e), prim(Primitive::Bool));
    assert!(ic.diags.is_empty());
}

#[test]
fn logical_on_int_emits_diagnostic() {
    let (ty_cx, lints) = (TyCx::new(), LintConfig::new());
    let mut ic = context(&ty_cx, &lints);
    let mut e = binary(BinOp::And, number(1), number(2));
    synth(&mut ic, &mut e);
    assert!(errors(&ic) >= 1);
}

#[test]
fn bitwise_on_int_synthesises_lhs_type() {
    let (ty_cx, lints) = (TyCx::new(), LintConfig::new());
    let mut ic = context(&ty_cx, &lints);
    let mut e = binary(BinOp::BitAnd, number(0xFF), number(0x0F));
    assert_eq!(synth(&mut ic, &mut e), prim(Primitive::I64));
    assert!(ic.diags.is_empty());
}

#[test]
fn bitwise_on_bool_emits_diagnostic() {
    let (ty_cx, lints) = (TyCx::new(), LintConfig::new());
    let mut ic = context(&ty_cx, &lints);
    let mut e = binary(BinOp::BitAnd, boolean(true), boolean(false));
    assert_eq!(synth(&mut ic, &mut e), ic.ty_error());
    assert!(says(&ic, "requires integer operands"));
}

#[test]
fn shift_synthesises_lhs_type() {
    let (ty_cx, lints) = (TyCx::new(), LintConfig::new());
    let mut ic = context(&ty_cx, &lints);
    let mut e = binary(BinOp::Shl, number(1), number(4));
    assert_eq!(synth(&mut ic, &mut e), prim(Primitive::I64));
    assert!(ic.diags.is_empty());
}

#[test]
fn unary_neg_preserves_numeric_type() {
    let (ty_cx, lints) = (TyCx::new(), LintConfig::new());
    let mut ic = context(&ty_cx, &lints);
    let mut e = unary(UnOp::Neg, number(5));
    assert_eq!(synth(&mut ic, &mut e), prim(Primitive::I64));
    assert!(ic.diags.is_empty());
}

#[test]
fn unary_not_synthesises_bool() {
    let (ty_cx, lints) = (TyCx::new(), LintConfig::new());
    let mut ic = context(&ty_cx, &lints);
    let mut e = unary(UnOp::Not, boolean(true));
    assert_eq!(synth(&mut ic, &mut e), prim(Primitive::Bool));
    assert!(ic.diags.is_empty());
}

#[test]
fn unary_bitnot_preserves_integer_type() {
    let (ty_cx, lints) = (TyCx::new(), LintConfig::new());
    let mut ic = context(&ty_cx, &lints);
    let mut e = unary(UnOp::BitNot, number(0xFF));
    assert_eq!(synth(&mut ic, &mut e), prim(Primitive::I64));
    assert!(ic.diags.is_empty());
}

#[test]
fn unary_neg_on_bool_emits_diagnostic() {
    let (ty_cx, lints) = (TyCx::new(), LintConfig::new());
    let mut ic = context(&ty_cx, &lints);
    let mut e = unary(UnOp::Neg, boolean(true));
    assert_eq!(synth(&mut ic, &mut e), ic.ty_error());
    assert!(says(&ic, "unary `-`"));
}

#[test]
fn unary_not_on_int_emits_check_mismatch() {
    let (ty_cx, lints) = (TyCx::new(), LintConfig::new());
    let mut ic = context(&ty_cx, &lints);
    // `!42` checks the int against `bool` and fails.
    let mut e = unary(UnOp::Not, number(42));
    // The result is a bool regardless: the operand is the failing site.
    assert_eq!(synth(&mut ic, &mut e), prim(Primitive::Bool));
    assert!(errors(&ic) >= 1);
}

#[test]
fn nested_arith_round_trips() {
    // `(1 + 2) * 3` is an i64.
    let (ty_cx, lints) = (TyCx::new(), LintConfig::new());
    let mut ic = context(&ty_cx, &lints);
    let mut e = binary(BinOp::Mul, binary(BinOp::Add, number(1), number(2)), number(3));
    assert_eq!(synth(&mut ic, &mut e), prim(Primitive::I64));
    assert!(ic.diags.is_empty());
}

#[test]
fn cascade_error_does_not_double_diagnose() {
    // `(true + false) + 1`: the inner sum is reported, the outer is not.
    let (ty_cx, lints) = (TyCx::new(), LintConfig::new());
    let mut ic = context(&ty_cx, &lints);
    let inner = binary(BinOp::Add, boolean(true), boolean(false));
    let mut e = binary(BinOp::Add, inner, number(1));
    assert_eq!(synth(&mut ic, &mut e), ic.ty_error());
    // Exactly one diagnostic, from the inner failure.
    assert_eq!(errors(&ic), 1);
}

fn assert_ty_recursive(e: &HirExpr, expected: TyId) {
    match &e.kind {
        HirExprKind::Binary(node) => {
            assert_eq!(e.ty, expected, "outer binary ty mismatch");
            assert_ty_recursive(&node.lhs, expected);
            assert_ty_recursive(&node.rhs, expected);
        }
        HirExprKind::Literal(_) => {
            assert_eq!(e.ty, expected, "literal ty mismatch: {:?}", e);
        }
        other => panic!("unexpected shape in nested arith: {other:?}"),
    }
}

/// `1 + 2 * 3` at i32 narrows every literal.
#[test]
fn nested_arith_checks_against_i32_narrows_every_literal() {
    let (ty_cx, lints) = (TyCx::new(), LintConfig::new());
    let mut ic = context(&ty_cx, &lints);
    let mut e = binary(BinOp::Add, number(1), binary(BinOp::Mul, number(2), number(3)));
    let mut env = TyEnv::new();
    check_expr(&mut env, &mut e, prim(Primitive::I32), &mut ic);
    assert!(ic.diags.is_empty(), "no diagnostics: {:?}", ic.diags);
    assert_eq!(e.ty, prim(Primitive::I32));
    assert_ty_recursive(&e, prim(Primitive::I32));
}

/// Bitwise operators hand the expected integer type to both operands.
#[test]
fn nested_bitwise_checks_against_u32_narrows() {
    let (ty_cx, lints) = (TyCx::new(), LintConfig::new());
    let mut ic = context(&ty_cx, &lints);
    let mut e = binary(BinOp::BitOr, number(1), number(2));
    let mut env = TyEnv::new();
    check_expr(&mut env, &mut e, prim(Primitive::U32), &mut ic);
    assert!(ic.diags.is_empty());
    assert_eq!(e.ty, prim(Primitive::U32));
}

/// Negation hands the expected numeric type to its operand.
#[test]
fn unary_neg_checks_against_i32_narrows_operand() {
    let (ty_cx, lints) = (TyCx::new(), LintConfig::new());
    let mut ic = context(&ty_cx, &lints);
    let mut e = unary(UnOp::Neg, number(7));
    let mut env = TyEnv::new();
    check_expr(&mut env, &mut e, prim(Primitive::I32), &mut ic);
    assert!(ic.diags.is_empty());
    assert_eq!(e.ty, prim(Primitive::I32));
}

/// `-128` is an i8, `128` is not.
#[test]
fn negated_literal_reaches_one_further() {
    let (ty_cx, lints) = (TyCx::new(), LintConfig::new());
    let mut ic = context(&ty_cx, &lints);
    let mut env = TyEnv::new();
    let mut low = unary(UnOp::Neg, number(128));
    check_expr(&mut env, &mut low, prim(Primitive::I8), &mut ic);
    assert_eq!(low.ty, prim(Primitive::I8));
    assert!(ic.diags.is_empty());
    let mut high = number(128);
    check_expr(&mut env, &mut high, prim(Primitive::I8), &mut ic);
    assert_eq!(high.ty, ic.ty_error());
    assert_eq!(
        ic.diags[0].message,
        Message::LiteralTooLarge { value: 128, prim: Primitive::I8 }
    );
}

/// Modulo has no meaning on floats, and bit complement none on bools.
#[test]
fn operators_are_refused_where_they_have_no_meaning() {
    let (ty_cx, lints) = (TyCx::new(), LintConfig::new());
    let mut ic = context(&ty_cx, &lints);
    let s = sym(&mut ic, "1.5");
    let half = || expr(HirExprKind::Literal(Literal::Float(s)));
    let mut e = binary(BinOp::Mod, half(), half());
    assert_eq!(synth(&mut ic, &mut e), ic.ty_error());
    assert!(matches!(ic.diags[0].message, Message::FloatModulo { .. }));
    let mut n = unary(UnOp::BitNot, boolean(true));
    assert_eq!(synth(&mut ic, &mut n), ic.ty_error());
    assert_eq!(
        ic.diags[1].message,
        Message::BitNotNotInteger { ty: prim(Primitive::Bool) }
    );
}
