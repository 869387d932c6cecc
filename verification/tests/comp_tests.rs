//! Tuples, casts, indexing, fields, struct literals and ranges.

use edda_types::cx::TyCx;
use edda_types::diag::{DiagnosticClass, LintConfig, Message, Severity};
use edda_types::hir::{
    HirCast, HirExpr, HirExprKind, HirField, HirIndex, HirPath, HirRange, HirStructLit,
    HirStructLitField, HirTupleIndex,
};
use edda_types::implicit_spec::ImplicitSpec;
use edda_types::infer::cx::{InferCx, LowerCx};
use edda_types::infer::env::TyEnv;
use edda_types::infer::expr::synth_expr;
use edda_types::intern::{Interner, Symbol};
use edda_types::list::List;
use edda_types::prim::Primitive;
use edda_types::render::Renderer;
use edda_types::span::Span;
use edda_types::syntax::{CastMode, Ident, IntBase, Literal, RangeKind};
use edda_types::ty::{TyId, TyInterner};

/// A context without a package.
fn context<'a>(ty_cx: &'a TyCx, lints: &'a LintConfig) -> InferCx<'a> {
    let lower = LowerCx { interner: Interner::new(), ty_interner: TyInterner::new(), package: None };
    InferCx::new(lower, ty_cx, lints, Vec::new())
}

/// The symbol of `text`.
fn sym(ic: &mut InferCx<'_>, text: &str) -> Symbol {
    ic.lower.interner.intern(text)
}

/// The handle of a primitive type.
fn prim(p: Primitive) -> TyId {
    TyId::Prim(p)
}

fn list<T>(items: Vec<T>) -> List<T> {
    List::from_vec(items)
}

fn expr(kind: HirExprKind) -> HirExpr {
    HirExpr { span: Span::dummy(), kind, ty: TyId::Error }
}

fn number(value: u128) -> HirExpr {
    expr(HirExprKind::Literal(Literal::Int { value, base: IntBase::Dec }))
}

fn boolean(value: bool) -> HirExpr {
    expr(HirExprKind::Literal(Literal::Bool(value)))
}

fn text(value: Symbol) -> HirExpr {
    expr(HirExprKind::Literal(Literal::Str(value)))
}

fn ident(name: Symbol) -> Ident {
    Ident { name, span: Span::dummy() }
}

fn path(names: Vec<Symbol>) -> HirPath {
    let mut segments = Vec::new();
    for name in names {
        segments.push(ident(name));
    }
    HirPath { span: Span::dummy(), segments: list(segments) }
}

fn read(name: Symbol) -> HirExpr {
    expr(HirExprKind::Path(path(vec![name])))
}

fn tuple(elems: Vec<HirExpr>) -> HirExpr {
    expr(HirExprKind::Tuple(list(elems)))
}

fn array(elems: Vec<HirExpr>) -> HirExpr {
    expr(HirExprKind::Array(list(elems)))
}

fn cast(operand: HirExpr, target_ty: TyId, mode: CastMode) -> HirExpr {
    expr(HirExprKind::Cast(Box::new(HirCast { operand, target_ty, mode })))
}

fn index(receiver: HirExpr, index: HirExpr) -> HirExpr {
    expr(HirExprKind::Index(Box::new(HirIndex { receiver, index })))
}

fn tuple_index(receiver: HirExpr, index: u32) -> HirExpr {
    expr(HirExprKind::TupleIndex(Box::new(HirTupleIndex { receiver, index })))
}

fn range(lo: Option<HirExpr>, hi: Option<HirExpr>, kind: RangeKind) -> HirExpr {
    expr(HirExprKind::Range(Box::new(HirRange { lo, hi, kind })))
}

fn field(receiver: HirExpr, name: Symbol) -> HirExpr {
    expr(HirExprKind::Field(Box::new(HirField { receiver, name: ident(name) })))
}

fn init_field(name: Symbol, value: HirExpr) -> HirStructLitField {
    HirStructLitField { span: Span::dummy(), name: ident(name), mode: None, value }
}

fn struct_lit(p: HirPath, fields: Vec<HirStructLitField>) -> HirExpr {
    expr(HirExprKind::StructLit(Box::new(HirStructLit { path: p, fields: list(fields) })))
}

/// The text of the diagnostic at `i`.
fn message(ic: &InferCx<'_>, i: usize) -> String {
    let renderer = Renderer {
        interner: &ic.lower.interner,
        ty_interner: &ic.lower.ty_interner,
        package: ic.lower.package,
    };
    renderer.message(&ic.diags[i].message)
}

/// Whether some diagnostic's text contains `part`.
fn says(ic: &InferCx<'_>, part: &str) -> bool {
    (0..ic.diags.len()).any(|i| message(ic, i).contains(part))
}

/// How many errors have been reported.
fn errors(ic: &InferCx<'_>) -> usize {
    ic.diags.iter().filter(|d| d.severity == Severity::Error).count()
}

fn synth(ic: &mut InferCx<'_>, e: &mut HirExpr) -> TyId {
    let mut env = TyEnv::new();
    synth_expr(&mut env, e, ic)
}

#[test]
fn tuple_synthesises_structural_tuple_type() {
    let (ty_cx, lints) = (TyCx::new(), LintConfig::new());
    let mut ic = context(&ty_cx, &lints);
    let mut e = tuple(vec![number(1), boolean(true)]);
    let ty = synth(&mut ic, &mut e);
    let elems = list(vec![prim(Primitive::I64), prim(Primitive::Bool)]);
    assert_eq!(ty, ic.lower.ty_interner.tuple(elems));
    assert!(ic.diags.is_empty());
}

#[test]
fn tuple_one_element_emits_diagnostic() {
    let (ty_cx, lints) = (TyCx::new(), LintConfig::new());
    let mut ic = context(&ty_cx, &lints);
    let mut e = tuple(vec![number(1)]);
    assert_eq!(synth(&mut ic, &mut e), ic.ty_error());
    assert!(says(&ic, "at least 2 elements"));
}

#[test]
fn cast_int_to_int_admitted() {
    let (ty_cx, lints) = (TyCx::new(), LintConfig::new());
    let mut ic = context(&ty_cx, &lints);
    let mut e = cast(number(42), prim(Primitive::U8), CastMode::Trap);
    assert_eq!(synth(&mut ic, &mut e), prim(Primitive::U8));
    assert!(ic.diags.is_empty());
}

#[test]
fn cast_int_to_float_admitted() {
    let (ty_cx, lints) = (TyCx::new(), LintConfig::new());
    let mut ic = context(&ty_cx, &lints);
    let mut e = cast(number(5), prim(Primitive::F64), CastMode::Trap);
    assert_eq!(synth(&mut ic, &mut e), prim(Primitive::F64));
    assert!(ic.diags.is_empty());
}

#[test]
fn cast_bool_to_int_rejected() {
    let (ty_cx, lints) = (TyCx::new(), LintConfig::new());
    let mut ic = context(&ty_cx, &lints);
    let mut e = cast(boolean(true), prim(Primitive::U8), CastMode::Trap);
    assert_eq!(synth(&mut ic, &mut e), ic.ty_error());
    assert!(says(&ic, "cannot cast"));
}

#[test]
fn cast_with_error_target_propagates_silently() {
    // `42 as MyType`: the unknown type was reported where it was written, and
    // the cast itself should not add a second diagnostic.
    let (ty_cx, lints) = (TyCx::new(), LintConfig::new());
    let mut ic = context(&ty_cx, &lints);
    let name = sym(&mut ic, "MyType");
    ic.emit_typecheck_error(Span::dummy(), Message::CannotFindBinding { name });
    let target = ic.ty_error();
    let mut e = cast(number(42), target, CastMode::Trap);
    assert_eq!(synth(&mut ic, &mut e), ic.ty_error());
    // Only the diagnostic of the type: no extra one from the cast.
    assert_eq!(errors(&ic), 1);
}

#[test]
fn index_on_slice_returns_element_type() {
    // `xs[0]` with `xs: [u8]` bound and valid.
    let (ty_cx, lints) = (TyCx::new(), LintConfig::new());
    let mut ic = context(&ty_cx, &lints);
    let xs = sym(&mut ic, "xs");
    let slice_ty = ic.lower.ty_interner.slice(prim(Primitive::U8));
    let mut env = TyEnv::new();
    env.bind(xs, slice_ty);
    let mut e = index(read(xs), number(0));
    assert_eq!(synth_expr(&mut env, &mut e, &mut ic), prim(Primitive::U8));
    assert!(ic.diags.is_empty());
}

#[test]
fn index_on_non_slice_emits_diagnostic() {
    // `1[0]`: the receiver is no slice.
    let (ty_cx, lints) = (TyCx::new(), LintConfig::new());
    let mut ic = context(&ty_cx, &lints);
    let mut e = index(number(1), number(0));
    assert_eq!(synth(&mut ic, &mut e), ic.ty_error());
    assert!(says(&ic, "only slice types"));
}

#[test]
fn field_on_integer_diagnoses() {
    // `1.foo`: the receiver is an i64, not a product type.
    let (ty_cx, lints) = (TyCx::new(), LintConfig::new());
    let mut ic = context(&ty_cx, &lints);
    let foo = sym(&mut ic, "foo");
    let mut e = field(number(1), foo);
    assert_eq!(synth(&mut ic, &mut e), ic.ty_error());
    assert!(says(&ic, "only product types support field access"));
}

#[test]
fn field_on_error_receiver_propagates_silently() {
    // `unknown.foo`: the unknown binding is reported, the projection is not.
    let (ty_cx, lints) = (TyCx::new(), LintConfig::new());
    let mut ic = context(&ty_cx, &lints);
    let (unknown, foo) = (sym(&mut ic, "unknown"), sym(&mut ic, "foo"));
    let mut e = field(read(unknown), foo);
    assert_eq!(synth(&mut ic, &mut e), ic.ty_error());
    // Exactly one diagnostic, from the unknown binding.
    assert_eq!(errors(&ic), 1);
}

#[test]
fn struct_lit_without_package_diagnoses() {
    let (ty_cx, lints) = (TyCx::new(), LintConfig::new());
    let mut ic = context(&ty_cx, &lints);
    let (point, x) = (sym(&mut ic, "Point"), sym(&mut ic, "x"));
    let mut e = struct_lit(path(vec![point]), vec![init_field(x, number(0))]);
    assert_eq!(synth(&mut ic, &mut e), ic.ty_error());
    assert!(says(&ic, "resolved-package"));
}

fn half_open(lo: HirExpr, hi: HirExpr) -> HirExpr {
    range(Some(lo), Some(hi), RangeKind::HalfOpen)
}

#[test]
fn range_both_int_literals_defaults_to_i64() {
    let (ty_cx, lints) = (TyCx::new(), LintConfig::new());
    let mut ic = context(&ty_cx, &lints);
    let mut r = half_open(number(0), number(10));
    synth(&mut ic, &mut r);
    assert_eq!(ic.implicit_specs.len(), 1);
    assert_eq!(ic.implicit_specs[0].kind, ImplicitSpec::Range);
    assert_eq!(ic.implicit_specs[0].type_arg, prim(Primitive::I64));
}

#[test]
fn range_lo_typed_hi_literal_uses_lo_type() {
    // `n..<10` where n: usize: the element type is usize.
    let (ty_cx, lints) = (TyCx::new(), LintConfig::new());
    let mut ic = context(&ty_cx, &lints);
    let n = sym(&mut ic, "n");
    let mut env = TyEnv::new();
    env.bind(n, prim(Primitive::Usize));
    let mut r = half_open(read(n), number(10));
    synth_expr(&mut env, &mut r, &mut ic);
    assert_eq!(ic.implicit_specs.len(), 1);
    assert_eq!(ic.implicit_specs[0].type_arg, prim(Primitive::Usize));
}

#[test]
fn range_lo_literal_hi_typed_uses_hi_type() {
    // `0..<n` where n: usize: the element type is usize.
    let (ty_cx, lints) = (TyCx::new(), LintConfig::new());
    let mut ic = context(&ty_cx, &lints);
    let n = sym(&mut ic, "n");
    let mut env = TyEnv::new();
    env.bind(n, prim(Primitive::Usize));
    let mut r = half_open(number(0), read(n));
    synth_expr(&mut env, &mut r, &mut ic);
    assert_eq!(ic.implicit_specs.len(), 1);
    assert_eq!(ic.implicit_specs[0].type_arg, prim(Primitive::Usize));
}

#[test]
fn range_both_typed_endpoints_must_agree() {
    let (ty_cx, lints) = (TyCx::new(), LintConfig::new());
    let mut ic = context(&ty_cx, &lints);
    let (lo, hi) = (sym(&mut ic, "lo"), sym(&mut ic, "hi"));
    let mut env = TyEnv::new();
    env.bind(lo, prim(Primitive::I32));
    env.bind(hi, prim(Primitive::I32));
    let mut r = half_open(read(lo), read(hi));
    synth_expr(&mut env, &mut r, &mut ic);
    assert_eq!(ic.implicit_specs.len(), 1);
    assert_eq!(ic.implicit_specs[0].type_arg, prim(Primitive::I32));
}

#[test]
fn range_mismatched_typed_endpoints_diagnose() {
    let (ty_cx, lints) = (TyCx::new(), LintConfig::new());
    let mut ic = context(&ty_cx, &lints);
    let (lo, hi) = (sym(&mut ic, "lo"), sym(&mut ic, "hi"));
    let mut env = TyEnv::new();
    env.bind(lo, prim(Primitive::I32));
    env.bind(hi, prim(Primitive::I64));
    let mut r = half_open(read(lo), read(hi));
    synth_expr(&mut env, &mut r, &mut ic);
    let reported = (0..ic.diags.len()).any(|i| {
        ic.diags[i].class == DiagnosticClass::TypecheckError
            && message(&ic, i).contains("incompatible types")
    });
    assert!(reported, "got: {:?}", ic.diags);
    assert_eq!(ic.implicit_specs.len(), 0);
}

#[test]
fn range_non_numeric_endpoint_diagnoses() {
    // `b..<c` where b, c: bool: a bool is no range element.
    let (ty_cx, lints) = (TyCx::new(), LintConfig::new());
    let mut ic = context(&ty_cx, &lints);
    let (b, c) = (sym(&mut ic, "b"), sym(&mut ic, "c"));
    let mut env = TyEnv::new();
    env.bind(b, prim(Primitive::Bool));
    env.bind(c, prim(Primitive::Bool));
    let mut r = half_open(read(b), read(c));
    synth_expr(&mut env, &mut r, &mut ic);
    assert!(says(&ic, "range endpoints must be numeric"), "got: {:?}", ic.diags);
}

#[test]
fn duplicate_ranges_dedup_to_single_spec_request() {
    // Two ranges over the same element type need one instance.
    let (ty_cx, lints) = (TyCx::new(), LintConfig::new());
    let mut ic = context(&ty_cx, &lints);
    let mut env = TyEnv::new();
    let mut r1 = half_open(number(0), number(10));
    let mut r2 = half_open(number(0), number(20));
    synth_expr(&mut env, &mut r1, &mut ic);
    synth_expr(&mut env, &mut r2, &mut ic);
    assert_eq!(ic.implicit_specs.len(), 1);
    assert_eq!(ic.implicit_specs[0].type_arg, prim(Primitive::I64));
}

#[test]
fn distinct_element_types_record_two_requests() {
    let (ty_cx, lints) = (TyCx::new(), LintConfig::new());
    let mut ic = context(&ty_cx, &lints);
    let n = sym(&mut ic, "n");
    let mut env = TyEnv::new();
    env.bind(n, prim(Primitive::Usize));
    let mut r1 = half_open(number(0), number(10));
    let mut r2 = half_open(number(0), read(n));
    synth_expr(&mut env, &mut r1, &mut ic);
    synth_expr(&mut env, &mut r2, &mut ic);
    assert_eq!(ic.implicit_specs.len(), 2);
    let types: Vec<TyId> = ic.implicit_specs.iter().map(|r| r.type_arg).collect();
    assert!(types.contains(&prim(Primitive::I64)));
    assert!(types.contains(&prim(Primitive::Usize)));
}

#[test]
fn implicit_spec_qualified_name_matches_locked_string() {
    assert_eq!(ImplicitSpec::Range.qualified_name(), "std.core.range.Range");
    assert_eq!(ImplicitSpec::Option.qualified_name(), "std.core.option.Option");
}

/// Array elements share the type of the first.
#[test]
fn array_elements_share_one_type() {
    let (ty_cx, lints) = (TyCx::new(), LintConfig::new());
    let mut ic = context(&ty_cx, &lints);
    let mut e = array(vec![number(1), number(2)]);
    let ty = synth(&mut ic, &mut e);
    assert_eq!(ty, ic.lower.ty_interner.slice(prim(Primitive::I64)));
    assert!(ic.diags.is_empty());
    let mut mixed = array(vec![number(1), boolean(true)]);
    synth(&mut ic, &mut mixed);
    assert_eq!(errors(&ic), 1);
    let mut none = array(vec![]);
    assert_eq!(synth(&mut ic, &mut none), ic.ty_error());
    assert_eq!(ic.diags[1].message, Message::EmptyArray);
}

/// `xs[1..2]` is a slice again.
#[test]
fn a_slice_indexed_by_a_range_is_a_slice() {
    let (ty_cx, lints) = (TyCx::new(), LintConfig::new());
    let mut ic = context(&ty_cx, &lints);
    let xs = sym(&mut ic, "xs");
    let slice_ty = ic.lower.ty_interner.slice(prim(Primitive::U8));
    let mut env = TyEnv::new();
    env.bind(xs, slice_ty);
    let mut e = index(read(xs), half_open(number(1), number(2)));
    assert_eq!(synth_expr(&mut env, &mut e, &mut ic), slice_ty);
    assert!(ic.diags.is_empty(), "{:?}", ic.diags);
    let mut bad = index(number(3), half_open(number(1), number(2)));
    assert_eq!(synth_expr(&mut env, &mut bad, &mut ic), ic.ty_error());
    assert_eq!(ic.diags[0].message, Message::SubrangeNotSlice { ty: prim(Primitive::I64) });
}

/// `t.(1)` is the second element; `t.(2)` of a pair is reported.
#[test]
fn tuple_elements_are_read_by_index() {
    let (ty_cx, lints) = (TyCx::new(), LintConfig::new());
    let mut ic = context(&ty_cx, &lints);
    let mut e = tuple_index(tuple(vec![number(1), boolean(true)]), 1);
    assert_eq!(synth(&mut ic, &mut e), prim(Primitive::Bool));
    assert!(ic.diags.is_empty());
    let mut out = tuple_index(tuple(vec![number(1), boolean(true)]), 2);
    assert_eq!(synth(&mut ic, &mut out), ic.ty_error());
    assert!(matches!(
        ic.diags[0].message,
        Message::TupleIndexOut { index: 2, len: 2, .. }
    ));
    let mut on_int = tuple_index(number(1), 0);
    assert_eq!(synth(&mut ic, &mut on_int), ic.ty_error());
    assert_eq!(
        ic.diags[1].message,
        Message::TupleIndexOn { index: 0, ty: prim(Primitive::I64) }
    );
}
