//! Paths, calls, constructors, methods and patterns in a resolved package.

use edda_types::capability::CapabilityType;
use edda_types::comptime_builtin::ComptimeBuiltin;
use edda_types::cx::{
    ConstEntry, FieldInfo, SigEntry, TyCx, TypeDeclEntry, TypeDeclInfo, TypeDeclShape, VariantInfo,
    VariantPayloadInfo,
};
use edda_types::diag::{DiagnosticClass, LintConfig, Message};
use edda_types::effect::{EffectEntry, EffectRow, PureEffect};
use edda_types::hir::{
    HirAtPat, HirBinary, HirBlock, HirCall, HirCallArg, HirCallMode, HirCast, HirClosure,
    HirClosureParam, HirExpr, HirExprKind, HirField, HirIndex, HirMatch, HirMatchArm, HirMethodCall,
    HirPat, HirPatKind, HirPath, HirSlicePat, HirStmt, HirStructLit, HirStructLitField,
    HirStructPat, HirStructPatField, HirTupleIndex, HirVariantPat, HirVariantPatPayload,
};
use edda_types::infer::cx::{InferCx, LowerCx};
use edda_types::infer::env::TyEnv;
use edda_types::infer::expr::synth_expr;
use edda_types::infer::pat::bind_pat;
use edda_types::intern::{Interner, Symbol};
use edda_types::intrinsic::IntrinsicKind;
use edda_types::list::List;
use edda_types::package::{
    BindingEntry, BindingKind, ItemEntry, Module, MonoFns, MonoName, Resolution, Resolved,
    ResolvedPackage,
};
use edda_types::prim::Primitive;
use edda_types::render::Renderer;
use edda_types::sig::{FnSig, Param, ParamMode};
use edda_types::span::Span;
use edda_types::syntax::{BinOp, CastMode, Ident, IntBase, Literal};
use edda_types::ty::{BindingId, ModuleId, TyId, TyInterner, TyKind};

/// A context without a package.
fn context<'a>(ty_cx: &'a TyCx, lints: &'a LintConfig) -> InferCx<'a> {
    let lower = LowerCx { interner: Interner::new(), ty_interner: TyInterner::new(), package: None };
    InferCx::new(lower, ty_cx, lints, Vec::new())
}

/// A context of `package`, whose names come from `interner`.
fn context_in<'a>(
    interner: Interner,
    ty_interner: TyInterner,
    package: &'a ResolvedPackage,
    ty_cx: &'a TyCx,
    lints: &'a LintConfig,
) -> InferCx<'a> {
    let lower = LowerCx { interner, ty_interner, package: Some(package) };
    InferCx::new(lower, ty_cx, lints, Vec::new())
}

/// The symbol of `text`.
fn sym(ic: &mut InferCx<'_>, text: &str) -> Symbol {
    ic.lower.interner.intern(text)
}

/// The handle of a primitive type.
fn prim(p: Primitive) -> TyId {
    TyId::Prim(p)
}

/// The span of a written name.
fn at(start: u32) -> Span {
    Span { file: 0, start, end: start + 1 }
}

fn list<T>(items: Vec<T>) -> List<T> {
    List::from_vec(items)
}

fn expr(kind: HirExprKind) -> HirExpr {
    HirExpr { span: Span::dummy(), kind, ty: TyId::Error }
}

fn number(value: u128) -> HirExpr {
    expr(HirExprKind::Literal(Literal::Int { value, base: IntBase::Dec }))
}

fn boolean(value: bool) -> HirExpr {
    expr(HirExprKind::Literal(Literal::Bool(value)))
}

fn text(value: Symbol) -> HirExpr {
    expr(HirExprKind::Literal(Literal::Str(value)))
}

fn unit() -> HirExpr {
    expr(HirExprKind::Literal(Literal::Unit))
}

fn ident(name: Symbol) -> Ident {
    Ident { name, span: Span::dummy() }
}

fn path(names: Vec<Symbol>) -> HirPath {
    let mut segments = Vec::new();
    for name in names {
        segments.push(ident(name));
    }
    HirPath { span: Span::dummy(), segments: list(segments) }
}

fn read(name: Symbol) -> HirExpr {
    expr(HirExprKind::Path(path(vec![name])))
}

/// A path that the package resolves by the span of its expression.
fn read_at(names: Vec<Symbol>, span: Span) -> HirExpr {
    let mut p = path(names);
    p.span = span;
    HirExpr { span, kind: HirExprKind::Path(p), ty: TyId::Error }
}

fn block(stmts: Vec<HirStmt>, trailing: Option<HirExpr>) -> HirBlock {
    HirBlock { span: Span::dummy(), stmts: list(stmts), trailing, ty: TyId::Error }
}

fn block_expr(body: HirBlock) -> HirExpr {
    expr(HirExprKind::Block(Box::new(body)))
}

fn pattern(kind: HirPatKind) -> HirPat {
    HirPat { span: Span::dummy(), kind, ty: TyId::Error }
}

fn named(name: Symbol) -> HirPat {
    pattern(HirPatKind::Binding(ident(name)))
}

fn binary(op: BinOp, lhs: HirExpr, rhs: HirExpr) -> HirExpr {
    expr(HirExprKind::Binary(Box::new(HirBinary { op, lhs, rhs })))
}

fn match_expr(scrutinee: HirExpr, arms: Vec<HirMatchArm>) -> HirExpr {
    expr(HirExprKind::Match(Box::new(HirMatch { scrutinee, arms: list(arms) })))
}

fn arm(pat: HirPat, body: HirExpr) -> HirMatchArm {
    HirMatchArm { span: Span::dummy(), pat, guard: None, body }
}

fn array(elems: Vec<HirExpr>) -> HirExpr {
    expr(HirExprKind::Array(list(elems)))
}

fn cast(operand: HirExpr, target_ty: TyId, mode: CastMode) -> HirExpr {
    expr(HirExprKind::Cast(Box::new(HirCast { operand, target_ty, mode })))
}

fn index(receiver: HirExpr, index: HirExpr) -> HirExpr {
    expr(HirExprKind::Index(Box::new(HirIndex { receiver, index })))
}

fn tuple_index(receiver: HirExpr, index: u32) -> HirExpr {
    expr(HirExprKind::TupleIndex(Box::new(HirTupleIndex { receiver, index })))
}

fn comptime(inner: HirExpr) -> HirExpr {
    expr(HirExprKind::Comptime(Box::new(inner)))
}

fn try_expr(inner: HirExpr) -> HirExpr {
    expr(HirExprKind::Try(Box::new(inner)))
}

fn field(receiver: HirExpr, name: Symbol) -> HirExpr {
    expr(HirExprKind::Field(Box::new(HirField { receiver, name: ident(name) })))
}

fn arg(e: HirExpr) -> HirCallArg {
    HirCallArg { span: Span::dummy(), mode: None, name: None, expr: e }
}

fn moded_arg(mode: HirCallMode, e: HirExpr) -> HirCallArg {
    HirCallArg { span: Span::dummy(), mode: Some(mode), name: None, expr: e }
}

fn named_arg(name: Symbol, e: HirExpr) -> HirCallArg {
    HirCallArg { span: Span::dummy(), mode: None, name: Some(ident(name)), expr: e }
}

fn call(callee: HirExpr, args: Vec<HirCallArg>) -> HirExpr {
    expr(HirExprKind::Call(Box::new(HirCall { callee, args: list(args) })))
}

fn method(receiver: HirExpr, name: Symbol, args: Vec<HirCallArg>) -> HirExpr {
    expr(HirExprKind::MethodCall(Box::new(HirMethodCall {
        receiver,
        name: ident(name),
        args: list(args),
    })))
}

fn init_field(name: Symbol, value: HirExpr) -> HirStructLitField {
    HirStructLitField { span: Span::dummy(), name: ident(name), mode: None, value }
}

fn struct_lit(p: HirPath, fields: Vec<HirStructLitField>) -> HirExpr {
    expr(HirExprKind::StructLit(Box::new(HirStructLit { path: p, fields: list(fields) })))
}

/// The text of the diagnostic at `i`.
fn message(ic: &InferCx<'_>, i: usize) -> String {
    let renderer = Renderer {
        interner: &ic.lower.interner,
        ty_interner: &ic.lower.ty_interner,
        package: ic.lower.package,
    };
    renderer.message(&ic.diags[i].message)
}

/// Whether some diagnostic's text contains `part`.
fn says(ic: &InferCx<'_>, part: &str) -> bool {
    (0..ic.diags.len()).any(|i| message(ic, i).contains(part))
}

/// How many diagnostics of `class` have been reported.
fn count(ic: &InferCx<'_>, class: DiagnosticClass) -> usize {
    ic.diags.iter().filter(|d| d.class == class).count()
}

/// A package, what is recorded of its items, and the stores.
struct World {
    interner: Interner,
    types: TyInterner,
    package: ResolvedPackage,
    ty_cx: TyCx,
    lints: LintConfig,
}

fn app(index: usize) -> BindingId {
    BindingId { module: ModuleId(0), index }
}

fn entry(name: Symbol, kind: BindingKind) -> BindingEntry {
    BindingEntry { name, kind }
}

fn param(name: Symbol, ty: TyId) -> Param {
    Param { name, mode: ParamMode::Default, ty }
}

fn signature(
    index: usize,
    params: Vec<Param>,
    return_ty: TyId,
    effects: Vec<EffectEntry>,
) -> SigEntry {
    let effects = EffectRow::from_entries(&effects);
    SigEntry { id: app(index), sig: FnSig { params: list(params), return_ty, effects } }
}

fn declared_field(name: Symbol, ty: TyId) -> FieldInfo {
    FieldInfo { span: Span::dummy(), name, ty }
}

fn variant(name: Symbol, payload: VariantPayloadInfo) -> VariantInfo {
    VariantInfo { span: Span::dummy(), name, payload }
}

// Spans of the names that do not lead to an item of the module.
const MODULE: u32 = 50;
const WRONG: u32 = 51;
const NOWHERE: u32 = 52;

/// The module `app`, whose item `i` the package resolves at `at(i)`:
/// `add`, `Point`, `Msg`, `LIMIT`, `fail`, `open`, `Maker`, `local`, `Bare`,
/// `total` and `unsigned`; and the module of `AllocError`.
fn world() -> World {
    let mut n = Interner::new();
    let mut types = TyInterner::new();
    let (a, b) = (n.intern("a"), n.intern("b"));
    let (x, y) = (n.intern("x"), n.intern("y"));
    let fs = n.intern("fs");
    let (i32_ty, i64_ty, f64_ty) =
        (prim(Primitive::I32), prim(Primitive::I64), prim(Primitive::F64));
    let point_ty = types.nominal(app(1));
    let bindings = vec![
        entry(n.intern("add"), BindingKind::Function),
        entry(n.intern("Point"), BindingKind::TypeDecl),
        entry(n.intern("Msg"), BindingKind::TypeDecl),
        entry(n.intern("LIMIT"), BindingKind::Const),
        entry(n.intern("fail"), BindingKind::Function),
        entry(n.intern("open"), BindingKind::Function),
        entry(n.intern("Maker"), BindingKind::Spec),
        entry(n.intern("local"), BindingKind::Local),
        entry(n.intern("Bare"), BindingKind::TypeDecl),
        entry(n.intern("total"), BindingKind::Function),
        entry(n.intern("unsigned"), BindingKind::Function),
    ];
    let mut resolutions = Vec::new();
    for i in 0..bindings.len() {
        resolutions.push(Resolution { span: at(i as u32), target: Resolved::Binding(app(i)) });
    }
    resolutions.push(Resolution { span: at(MODULE), target: Resolved::Module(ModuleId(1)) });
    resolutions.push(Resolution { span: at(WRONG), target: Resolved::Error });
    let alloc_error = n.intern("AllocError");
    let modules = vec![
        Module {
            path: list(vec![n.intern("app")]),
            bindings: list(bindings),
            items: list(vec![]),
            functions: list(vec![]),
        },
        Module {
            path: list(vec![n.intern("std"), n.intern("mem"), n.intern("alloc")]),
            bindings: list(vec![entry(alloc_error, BindingKind::TypeDecl)]),
            items: list(vec![ItemEntry { name: alloc_error, index: 0 }]),
            functions: list(vec![]),
        },
    ];
    let point = TypeDeclInfo {
        linearity: None,
        kind: TypeDeclShape::Product(list(vec![
            declared_field(x, f64_ty),
            declared_field(y, f64_ty),
        ])),
    };
    let (u8_ty, u16_ty, u32_ty) =
        (prim(Primitive::U8), prim(Primitive::U16), prim(Primitive::U32));
    let msg = TypeDeclInfo {
        linearity: None,
        kind: TypeDeclShape::Sum(list(vec![
            variant(n.intern("none"), VariantPayloadInfo::Unit),
            variant(n.intern("data"), VariantPayloadInfo::Tuple(list(vec![u32_ty]))),
            variant(n.intern("two"), VariantPayloadInfo::Tuple(list(vec![u8_ty, u8_ty]))),
            variant(
                n.intern("pair"),
                VariantPayloadInfo::Struct(list(vec![
                    declared_field(a, u16_ty),
                    declared_field(b, u16_ty),
                ])),
            ),
        ])),
    };
    let p = n.intern("p");
    let ty_cx = TyCx {
        decls: list(vec![
            TypeDeclEntry { id: app(1), info: point },
            TypeDeclEntry { id: app(2), info: msg },
        ]),
        sigs: list(vec![
            signature(0, vec![param(a, i32_ty), param(b, i32_ty)], i32_ty, vec![]),
            signature(4, vec![], i64_ty, vec![EffectEntry::Pure(PureEffect::Raise(i64_ty))]),
            signature(
                5,
                vec![param(fs, TyId::Cap(CapabilityType::Filesystem))],
                i32_ty,
                vec![EffectEntry::Capability(fs)],
            ),
            signature(9, vec![param(p, point_ty)], f64_ty, vec![]),
        ]),
        consts: list(vec![ConstEntry { id: app(3), ty: i64_ty }]),
    };
    let package =
        ResolvedPackage { modules: list(modules), resolutions: list(resolutions) };
    World { interner: n, types, package, ty_cx, lints: LintConfig::new() }
}

fn enter(w: &mut World) -> InferCx<'_> {
    let interner = std::mem::replace(&mut w.interner, Interner::new());
    let types = std::mem::replace(&mut w.types, TyInterner::new());
    context_in(interner, types, &w.package, &w.ty_cx, &w.lints)
}

/// The item `index` of the module by its name, and `leaf` behind it.
fn item(ic: &mut InferCx<'_>, name: &str, index: u32, leaf: &[&str]) -> HirExpr {
    let mut names = vec![sym(ic, name)];
    for part in leaf {
        names.push(sym(ic, part));
    }
    read_at(names, at(index))
}

fn synth(ic: &mut InferCx<'_>, mut e: HirExpr) -> TyId {
    let mut env = TyEnv::new();
    synth_expr(&mut env, &mut e, ic)
}

/// The text of the only diagnostic that judging `e` reports.
fn fault(ic: &mut InferCx<'_>, e: HirExpr) -> String {
    let before = ic.diags.len();
    synth(ic, e);
    assert_eq!(ic.diags.len(), before + 1, "{:?}", ic.diags);
    message(ic, before)
}

fn msg_ty(ic: &mut InferCx<'_>) -> TyId {
    ic.lower.ty_interner.nominal(app(2))
}

fn point_ty(ic: &mut InferCx<'_>) -> TyId {
    ic.lower.ty_interner.nominal(app(1))
}

#[test]
fn items_as_values() {
    let mut w = world();
    let mut ic = enter(&mut w);
    let limit = item(&mut ic, "LIMIT", 3, &[]);
    assert_eq!(synth(&mut ic, limit), prim(Primitive::I64));
    let add = item(&mut ic, "add", 0, &[]);
    let add_ty = synth(&mut ic, add);
    match ic.lower.ty_interner.kind(add_ty) {
        TyKind::FnPtr(sig) => {
            assert_eq!(sig.params.len(), 2);
            assert_eq!(sig.return_ty, prim(Primitive::I32));
        }
        other => panic!("expected a function pointer, got {other:?}"),
    }
    let none = item(&mut ic, "Msg", 2, &["none"]);
    let msg = msg_ty(&mut ic);
    assert_eq!(synth(&mut ic, none), msg);
    let wrong = item(&mut ic, "wrong", WRONG, &[]);
    assert_eq!(synth(&mut ic, wrong), TyId::Error);
    assert!(ic.diags.is_empty(), "{:?}", ic.diags);

    let e = item(&mut ic, "Msg", 2, &["data"]);
    assert_eq!(
        fault(&mut ic, e),
        "variant `Msg.data` has a payload — construct it with `Msg.data(...)` instead of using \
         the bare path"
    );
    let e = item(&mut ic, "Msg", 2, &["zero"]);
    assert_eq!(fault(&mut ic, e), "no variant `zero` on sum type `Msg`");
    let e = item(&mut ic, "local", 7, &[]);
    assert_eq!(fault(&mut ic, e), "binding `local` is not in the current type environment");
    let e = item(&mut ic, "Point", 1, &[]);
    assert_eq!(
        fault(&mut ic, e),
        "type `Point` cannot be used as a value (no first-class types)"
    );
    let e = item(&mut ic, "m", MODULE, &[]);
    assert_eq!(
        fault(&mut ic, e),
        "module name used in value position; expected an expression"
    );
}

#[test]
fn types_are_values_at_compile_time() {
    let mut w = world();
    let mut ic = enter(&mut w);
    let e = comptime(item(&mut ic, "Point", 1, &[]));
    assert_eq!(synth(&mut ic, e), prim(Primitive::Type));
    let point = point_ty(&mut ic);
    assert_eq!(ic.comptime_type_paths.get(at(1)), Some(point));
    let name = sym(&mut ic, "u8");
    let e = comptime(read_at(vec![name], at(NOWHERE)));
    assert_eq!(synth(&mut ic, e), prim(Primitive::Type));
    assert_eq!(ic.comptime_type_paths.get(at(NOWHERE)), Some(prim(Primitive::U8)));
    assert!(ic.diags.is_empty(), "{:?}", ic.diags);
}

#[test]
fn calls_check_their_arguments() {
    let mut w = world();
    let mut ic = enter(&mut w);
    let f = item(&mut ic, "add", 0, &[]);
    assert_eq!(
        synth(&mut ic, call(f, vec![arg(number(1)), arg(number(2))])),
        prim(Primitive::I32)
    );
    assert!(ic.diags.is_empty(), "{:?}", ic.diags);

    let f = item(&mut ic, "add", 0, &[]);
    assert_eq!(
        fault(&mut ic, call(f, vec![arg(number(1))])),
        "function `add` takes 2 argument(s) but 1 were supplied"
    );
    let f = item(&mut ic, "add", 0, &[]);
    assert_eq!(
        fault(&mut ic, call(f, vec![arg(number(1)), arg(boolean(true))])),
        "expected `i32`, found `bool`"
    );
    let f = item(&mut ic, "add", 0, &[]);
    let b = sym(&mut ic, "b");
    assert_eq!(
        fault(&mut ic, call(f, vec![arg(number(1)), named_arg(b, number(2))])),
        "named argument `b:` is not admitted at function call site (function `add` takes \
         positional arguments)"
    );
    let f = item(&mut ic, "unsigned", 10, &[]);
    assert_eq!(
        fault(&mut ic, call(f, vec![])),
        "no signature recorded for function `unsigned`"
    );
    let f = item(&mut ic, "Maker", 6, &[]);
    assert_eq!(fault(&mut ic, call(f, vec![])), "cannot call spec `Maker`");
    let f = item(&mut ic, "m", MODULE, &[]);
    assert_eq!(fault(&mut ic, call(f, vec![])), "cannot call a module");
    let f = item(&mut ic, "lib", NOWHERE, &["gone"]);
    assert_eq!(
        fault(&mut ic, call(f, vec![])),
        "callee path `lib.gone` has no recorded resolution"
    );
    let before = ic.diags.len();
    let f = item(&mut ic, "wrong", WRONG, &[]);
    assert_eq!(synth(&mut ic, call(f, vec![])), TyId::Error);
    assert_eq!(ic.diags.len(), before);
}

#[test]
fn calls_perform_the_effects_of_the_callee() {
    let mut w = world();
    let mut ic = enter(&mut w);
    let raised = EffectEntry::Pure(PureEffect::Raise(prim(Primitive::I64)));
    let f = item(&mut ic, "fail", 4, &[]);
    let text = fault(&mut ic, call(f, vec![]));
    assert!(text.starts_with("call to `fail` propagates `err: i64` but the result is not wrapped in `?`"));
    assert_eq!(ic.diags[0].class, DiagnosticClass::EffectRowMismatch);
    assert!(ic.row.to_row().contains(&raised));

    ic.row.clear();
    let f = item(&mut ic, "fail", 4, &[]);
    assert_eq!(synth(&mut ic, try_expr(call(f, vec![]))), prim(Primitive::I64));
    assert_eq!(ic.diags.len(), 1);
    assert!(ic.row.to_row().contains(&raised));

    // The capability of a parameter is the one that the caller hands over.
    ic.row.clear();
    let disk = sym(&mut ic, "disk");
    let mut env = TyEnv::new();
    env.bind(disk, TyId::Cap(CapabilityType::Filesystem));
    let f = item(&mut ic, "open", 5, &[]);
    let mut e = call(f, vec![arg(read(disk))]);
    assert_eq!(synth_expr(&mut env, &mut e, &mut ic), prim(Primitive::I32));
    assert_eq!(ic.diags.len(), 1);
    assert_eq!(ic.row.to_row().entries(), vec![EffectEntry::Capability(disk)]);
}

#[test]
fn calls_at_compile_time_are_recorded_and_must_be_pure() {
    let mut w = world();
    let mut ic = enter(&mut w);
    let f = item(&mut ic, "add", 0, &[]);
    let mut c = call(f, vec![arg(number(1)), arg(number(2))]);
    c.span = at(70);
    assert_eq!(synth(&mut ic, comptime(c)), prim(Primitive::I32));
    assert!(ic.diags.is_empty(), "{:?}", ic.diags);
    assert_eq!(ic.comptime_fn_calls.get(at(70)), Some(app(0)));
    let f = item(&mut ic, "fail", 4, &[]);
    let text = fault(&mut ic, comptime(try_expr(call(f, vec![]))));
    assert_eq!(
        text,
        "call to `fail` inside a comptime context is not comptime-pure; the callee's row \
         contains non-pure entries: err: i64"
    );
}

#[test]
fn specialised_functions_are_found_by_name() {
    let mut w = world();
    let made = w.interner.intern("max_i32");
    let mut ic = enter(&mut w);
    let id = BindingId { module: ModuleId(7), index: 0 };
    let sig = FnSig {
        params: list(vec![]),
        return_ty: prim(Primitive::I32),
        effects: EffectRow::empty(),
    };
    let mono = MonoFns {
        by_name: list(vec![MonoName { name: made, id }]),
        sigs: list(vec![SigEntry { id, sig }]),
    };
    let e = || call(read_at(vec![made], at(NOWHERE)), vec![]);
    assert_eq!(
        fault(&mut ic, e()),
        "callee path `max_i32` has no recorded resolution"
    );
    ic.mono_fns = Some(&mono);
    assert_eq!(synth(&mut ic, e()), prim(Primitive::I32));
    assert_eq!(ic.diags.len(), 1);
}

#[test]
fn variants_are_constructed_by_their_payload() {
    let mut w = world();
    let mut ic = enter(&mut w);
    let msg = msg_ty(&mut ic);
    let (a, b, c) = (sym(&mut ic, "a"), sym(&mut ic, "b"), sym(&mut ic, "c"));
    let f = item(&mut ic, "Msg", 2, &["two"]);
    assert_eq!(synth(&mut ic, call(f, vec![arg(number(1)), arg(number(2))])), msg);
    let f = item(&mut ic, "Msg", 2, &["pair"]);
    let args = vec![named_arg(b, number(1)), named_arg(a, number(2))];
    assert_eq!(synth(&mut ic, call(f, args)), msg);
    let f = item(&mut ic, "Msg", 2, &["none"]);
    assert_eq!(synth(&mut ic, call(f, vec![])), msg);
    assert!(ic.diags.is_empty(), "{:?}", ic.diags);

    let f = item(&mut ic, "Msg", 2, &["none"]);
    assert_eq!(
        fault(&mut ic, call(f, vec![arg(number(1))])),
        "variant `Msg.none` has no payload but 1 argument(s) were supplied"
    );
    let f = item(&mut ic, "Msg", 2, &["two"]);
    assert_eq!(
        fault(&mut ic, call(f, vec![arg(number(1))])),
        "variant `Msg.two` takes 2 positional argument(s) but 1 was supplied"
    );
    let f = item(&mut ic, "Msg", 2, &["data"]);
    assert_eq!(
        fault(&mut ic, call(f, vec![arg(number(1)), arg(number(2))])),
        "variant `Msg.data` takes 1 positional argument(s) but 2 were supplied"
    );
    let f = item(&mut ic, "Msg", 2, &["two"]);
    assert_eq!(
        fault(&mut ic, call(f, vec![arg(number(1)), named_arg(a, number(2))])),
        "named argument `a:` is not admitted at tuple-payload variant `Msg.two`"
    );
    let f = item(&mut ic, "Msg", 2, &["pair"]);
    assert_eq!(
        fault(&mut ic, call(f, vec![arg(number(1))])),
        "struct-payload variant `Msg.pair` requires named arguments (`field: expr`)"
    );
    let f = item(&mut ic, "Msg", 2, &["pair"]);
    assert_eq!(
        fault(&mut ic, call(f, vec![named_arg(b, number(1))])),
        "variant `Msg.pair` is missing field(s) `a`"
    );
    let f = item(&mut ic, "Msg", 2, &["pair"]);
    let args =
        vec![named_arg(a, number(1)), named_arg(b, number(2)), named_arg(a, number(3))];
    assert_eq!(fault(&mut ic, call(f, args)), "duplicate field `a` in variant payload");
    let f = item(&mut ic, "Msg", 2, &["pair"]);
    let args =
        vec![named_arg(a, number(1)), named_arg(b, number(2)), named_arg(c, number(3))];
    assert_eq!(fault(&mut ic, call(f, args)), "variant `Msg.pair` has no field `c`");
    let f = item(&mut ic, "Msg", 2, &["zero"]);
    assert_eq!(fault(&mut ic, call(f, vec![])), "no variant `zero` on sum type `Msg`");
}

/// A literal of the item `index`.
fn literal_of(
    ic: &mut InferCx<'_>,
    name: &str,
    index: u32,
    fields: Vec<HirStructLitField>,
) -> HirExpr {
    let mut p = path(vec![sym(ic, name)]);
    p.span = at(index);
    struct_lit(p, fields)
}

#[test]
fn struct_literals_name_every_field_once() {
    let mut w = world();
    let mut ic = enter(&mut w);
    let (x, y, z) = (sym(&mut ic, "x"), sym(&mut ic, "y"), sym(&mut ic, "z"));
    let s = sym(&mut ic, "1.5");
    let half = || expr(HirExprKind::Literal(Literal::Float(s)));
    let point = point_ty(&mut ic);
    let e = literal_of(&mut ic, "Point", 1, vec![init_field(y, half()), init_field(x, half())]);
    assert_eq!(synth(&mut ic, e), point);
    assert!(ic.diags.is_empty(), "{:?}", ic.diags);

    let e = literal_of(&mut ic, "Point", 1, vec![init_field(x, half())]);
    assert_eq!(fault(&mut ic, e), "struct literal for `Point` is missing field(s) `y`");
    let fields = vec![init_field(x, half()), init_field(y, half()), init_field(x, half())];
    let e = literal_of(&mut ic, "Point", 1, fields);
    assert_eq!(fault(&mut ic, e), "duplicate initialiser for field `x`");
    let fields = vec![init_field(x, half()), init_field(y, half()), init_field(z, half())];
    let e = literal_of(&mut ic, "Point", 1, fields);
    assert_eq!(fault(&mut ic, e), "type `Point` has no field `z`");
    let e = literal_of(&mut ic, "Msg", 2, vec![]);
    assert_eq!(
        fault(&mut ic, e),
        "cannot construct sum type `Msg` with struct-literal syntax; use a variant constructor \
         instead"
    );
    let e = literal_of(&mut ic, "Bare", 8, vec![]);
    assert_eq!(fault(&mut ic, e), "no layout recorded for type `Bare`");
    let e = literal_of(&mut ic, "add", 0, vec![]);
    assert_eq!(fault(&mut ic, e), "cannot construct function `add` as a struct");
    let e = literal_of(&mut ic, "m", MODULE, vec![]);
    assert_eq!(
        fault(&mut ic, e),
        "module name used as a struct type; expected a `type` declaration"
    );
    let e = literal_of(&mut ic, "gone", NOWHERE, vec![]);
    assert_eq!(fault(&mut ic, e), "struct-literal path has no recorded resolution");
}

#[test]
fn fields_and_methods_of_a_value() {
    let mut w = world();
    let mut ic = enter(&mut w);
    let (p, x, z) = (sym(&mut ic, "p"), sym(&mut ic, "x"), sym(&mut ic, "z"));
    let (total, gone) = (sym(&mut ic, "total"), sym(&mut ic, "gone"));
    let point = point_ty(&mut ic);
    let mut env = TyEnv::new();
    env.bind(p, point);
    let mut e = field(read(p), x);
    assert_eq!(synth_expr(&mut env, &mut e, &mut ic), prim(Primitive::F64));
    let mut e = method(read(p), total, vec![]);
    e.span = at(60);
    assert_eq!(synth_expr(&mut env, &mut e, &mut ic), prim(Primitive::F64));
    assert_eq!(ic.method_resolutions.get(at(60)), Some(app(9)));
    assert!(ic.diags.is_empty(), "{:?}", ic.diags);

    let mut e = field(read(p), z);
    assert_eq!(synth_expr(&mut env, &mut e, &mut ic), TyId::Error);
    assert_eq!(message(&ic, 0), "type `app.Point` has no field `z`");
    let mut e = method(read(p), total, vec![arg(number(1))]);
    assert_eq!(synth_expr(&mut env, &mut e, &mut ic), TyId::Error);
    assert_eq!(message(&ic, 1), "method `total` takes 0 argument(s) but 1 were supplied");
    let mut e = method(read(p), gone, vec![]);
    assert_eq!(synth_expr(&mut env, &mut e, &mut ic), TyId::Error);
    assert_eq!(
        message(&ic, 2),
        "no method `gone` resolves on receiver of type `app.Point`; declare a free function \
         `gone(<receiver-type>, ...)` in scope"
    );
}

#[test]
fn built_in_methods() {
    let mut w = world();
    let mut ic = enter(&mut w);
    let (hi, bytes, len) = (sym(&mut ic, "hi"), sym(&mut ic, "bytes"), sym(&mut ic, "len"));
    let u8s = ic.lower.ty_interner.slice(prim(Primitive::U8));
    let mut e = method(text(hi), bytes, vec![]);
    e.span = at(61);
    assert_eq!(synth(&mut ic, e), u8s);
    assert_eq!(ic.intrinsic_calls.get(at(61)), Some(IntrinsicKind::StringBytes));
    let mut e = method(array(vec![number(1)]), len, vec![]);
    e.span = at(62);
    assert_eq!(synth(&mut ic, e), prim(Primitive::Usize));
    assert_eq!(ic.intrinsic_calls.get(at(62)), Some(IntrinsicKind::SliceLen));
    assert!(ic.diags.is_empty(), "{:?}", ic.diags);
}

#[test]
fn capability_methods() {
    let mut w = world();
    let mut ic = enter(&mut w);
    let (heap, rng) = (sym(&mut ic, "heap"), sym(&mut ic, "rng"));
    let (alloc_array, fork) = (sym(&mut ic, "alloc_array"), sym(&mut ic, "fork"));
    let (deterministic, u8_name) = (sym(&mut ic, "deterministic"), sym(&mut ic, "u8"));
    let mut env = TyEnv::new();
    env.bind(heap, TyId::Cap(CapabilityType::Allocator));
    env.bind(rng, TyId::Cap(CapabilityType::Random));
    let element = || arg(read_at(vec![u8_name], at(63)));

    let mut e = method(read(heap), fork, vec![]);
    synth_expr(&mut env, &mut e, &mut ic);
    assert!(ic.diags.is_empty(), "{:?}", ic.diags);
    assert!(ic.row.to_row().contains(&EffectEntry::Capability(heap)));

    let mut e = try_expr(method(read(heap), alloc_array, vec![element(), arg(number(4))]));
    let ty = synth_expr(&mut env, &mut e, &mut ic);
    assert_eq!(ty, ic.lower.ty_interner.slice(prim(Primitive::U8)));
    assert!(ic.diags.is_empty(), "{:?}", ic.diags);
    let failure = ic.lower.ty_interner.nominal(BindingId { module: ModuleId(1), index: 0 });
    assert!(ic.row.to_row().contains(&EffectEntry::Pure(PureEffect::Raise(failure))));

    let mut e = method(read(rng), deterministic, vec![arg(number(4))]);
    synth_expr(&mut env, &mut e, &mut ic);
    assert!(ic.diags.is_empty(), "{:?}", ic.diags);

    let mut e = method(read(heap), fork, vec![arg(number(4))]);
    assert_eq!(synth_expr(&mut env, &mut e, &mut ic), TyId::Error);
    assert_eq!(message(&ic, 0), "method `fork` takes 0 argument(s) but 1 were supplied");
    let mut e = method(read(rng), deterministic, vec![named_arg(heap, number(4))]);
    synth_expr(&mut env, &mut e, &mut ic);
    assert_eq!(
        message(&ic, 1),
        "named argument `heap:` is not admitted at capability-method call site `deterministic`"
    );
    let seed = vec![moded_arg(HirCallMode::Take, number(4))];
    let mut e = method(read(rng), deterministic, seed);
    synth_expr(&mut env, &mut e, &mut ic);
    assert_eq!(
        message(&ic, 2),
        "call-site mode keyword is not admitted at capability-method call site `deterministic`"
    );
    let mut e =
        try_expr(method(read(heap), alloc_array, vec![arg(number(8)), arg(number(4))]));
    synth_expr(&mut env, &mut e, &mut ic);
    assert!(says(&ic, "first argument to `alloc_array` must be a bare type name"));
}

/// A call of a built-in, which no package resolves.
fn built_in(ic: &mut InferCx<'_>, names: &[&str], args: Vec<HirCallArg>) -> HirExpr {
    let mut parts = Vec::new();
    for name in names {
        parts.push(sym(ic, name));
    }
    let mut e = call(read_at(parts, at(NOWHERE)), args);
    e.span = at(64);
    e
}

#[test]
fn compile_time_built_ins() {
    let mut w = world();
    let mut ic = enter(&mut w);
    let (x, hi) = (sym(&mut ic, "x"), sym(&mut ic, "hi"));
    let point = |ic: &mut InferCx<'_>| arg(item(ic, "Point", 1, &[]));
    let given = vec![point(&mut ic)];
    let e = comptime(built_in(&mut ic, &["size_of"], given));
    assert_eq!(synth(&mut ic, e), prim(Primitive::Usize));
    assert_eq!(ic.comptime_builtin_calls.get(at(64)), Some(ComptimeBuiltin::SizeOf));
    let given = vec![point(&mut ic), arg(read(x))];
    let e = comptime(built_in(&mut ic, &["offset_of"], given));
    assert_eq!(synth(&mut ic, e), prim(Primitive::Usize));
    let given = vec![point(&mut ic), arg(number(0))];
    let e = comptime(built_in(&mut ic, &["field_name_at"], given));
    assert_eq!(synth(&mut ic, e), prim(Primitive::String));
    let given = vec![point(&mut ic), arg(number(0))];
    let e = comptime(built_in(&mut ic, &["field_type_at"], given));
    assert_eq!(synth(&mut ic, e), prim(Primitive::Type));
    let e = comptime(built_in(&mut ic, &["target_has"], vec![arg(text(hi))]));
    assert_eq!(synth(&mut ic, e), prim(Primitive::Bool));
    let executor = sym(&mut ic, "Executor");
    let e = comptime(built_in(&mut ic, &["target", "supports"], vec![arg(read(executor))]));
    assert_eq!(synth(&mut ic, e), prim(Primitive::Bool));
    assert!(ic.diags.is_empty(), "{:?}", ic.diags);

    let e = comptime(built_in(&mut ic, &["size_of"], vec![]));
    assert_eq!(
        fault(&mut ic, e),
        "built-in `size_of` takes 1 argument(s) but 0 were supplied"
    );
    let given = vec![named_arg(x, item(&mut ic, "Point", 1, &[]))];
    let e = comptime(built_in(&mut ic, &["size_of"], given));
    assert_eq!(
        fault(&mut ic, e),
        "named argument `x:` is not admitted on comptime built-in `size_of`"
    );
    let given = vec![moded_arg(HirCallMode::Take, item(&mut ic, "Point", 1, &[]))];
    let e = comptime(built_in(&mut ic, &["size_of"], given));
    assert_eq!(
        fault(&mut ic, e),
        "call-site mode keyword is not admitted on comptime built-in `size_of`"
    );
    let given = vec![point(&mut ic), arg(number(0))];
    let e = comptime(built_in(&mut ic, &["offset_of"], given));
    assert_eq!(
        fault(&mut ic, e),
        "expected a bare field identifier (single-segment path) for `offset_of`'s field arg"
    );
    let e = comptime(built_in(&mut ic, &["target", "supports"], vec![]));
    assert_eq!(
        fault(&mut ic, e),
        "built-in `target.supports` takes 1 argument(s) but 0 were supplied"
    );
    let given = vec![point(&mut ic)];
    let e = comptime(built_in(&mut ic, &["target", "supports"], given));
    assert_eq!(
        fault(&mut ic, e),
        "comptime built-in `target.supports` expects a capability type-name (e.g. `Subprocess`)"
    );
    let given = vec![named_arg(x, read(executor))];
    let e = comptime(built_in(&mut ic, &["target", "supports"], given));
    assert_eq!(
        fault(&mut ic, e),
        "named argument is not admitted on comptime built-in `target.supports`"
    );
    let given = vec![moded_arg(HirCallMode::Init, read(executor))];
    let e = comptime(built_in(&mut ic, &["target", "supports"], given));
    assert_eq!(
        fault(&mut ic, e),
        "call-site mode keyword is not admitted on comptime built-in `target.supports`"
    );
}

#[test]
fn discriminants_are_of_sum_types() {
    let mut w = world();
    let mut ic = enter(&mut w);
    let given = vec![arg(item(&mut ic, "Msg", 2, &["none"]))];
    let e = built_in(&mut ic, &["discriminant_of"], given);
    assert_eq!(synth(&mut ic, e), prim(Primitive::Usize));
    assert_eq!(ic.intrinsic_calls.get(at(64)), Some(IntrinsicKind::DiscriminantOf));
    assert!(ic.diags.is_empty(), "{:?}", ic.diags);
    let e = built_in(&mut ic, &["discriminant_of"], vec![arg(number(1))]);
    assert_eq!(
        fault(&mut ic, e),
        "intrinsic `discriminant_of` expects a sum-typed value, found `i64`"
    );
    let e = built_in(&mut ic, &["discriminant_of"], vec![]);
    assert_eq!(
        fault(&mut ic, e),
        "intrinsic `discriminant_of` takes 1 argument(s) but 0 were supplied"
    );
    let x = sym(&mut ic, "x");
    let given = vec![named_arg(x, item(&mut ic, "Msg", 2, &["none"]))];
    let e = built_in(&mut ic, &["discriminant_of"], given);
    assert_eq!(
        fault(&mut ic, e),
        "named argument is not admitted on intrinsic `discriminant_of`"
    );
    let given = vec![moded_arg(HirCallMode::Take, item(&mut ic, "Msg", 2, &["none"]))];
    let e = built_in(&mut ic, &["discriminant_of"], given);
    assert_eq!(
        fault(&mut ic, e),
        "call-site mode keyword is not admitted on intrinsic `discriminant_of`"
    );
}

/// `case Msg.name(..)`.
fn variant_pat(ic: &mut InferCx<'_>, name: &str, payload: HirVariantPatPayload) -> HirPat {
    let names = vec![sym(ic, "Msg"), sym(ic, name)];
    pattern(HirPatKind::Variant(Box::new(HirVariantPat { path: path(names), payload })))
}

fn field_pat(name: Symbol, pat: HirPat) -> HirStructPatField {
    HirStructPatField { span: Span::dummy(), name: ident(name), pat }
}

fn wild() -> HirPat {
    pattern(HirPatKind::Wildcard)
}

/// `match m { case pat => body; case _ => 0 }` with `m: Msg`.
fn on_msg(ic: &mut InferCx<'_>, pat: HirPat, body: HirExpr) -> TyId {
    let m = sym(ic, "m");
    let msg = msg_ty(ic);
    let mut env = TyEnv::new();
    env.bind(m, msg);
    let mut e = match_expr(read(m), vec![arm(pat, body), arm(wild(), number(0))]);
    synth_expr(&mut env, &mut e, ic)
}

#[test]
fn variant_patterns_bind_the_payload() {
    let mut w = world();
    let mut ic = enter(&mut w);
    let (n, a, b, c) =
        (sym(&mut ic, "n"), sym(&mut ic, "a"), sym(&mut ic, "b"), sym(&mut ic, "c"));
    let cast_n = || cast(read(n), prim(Primitive::I64), CastMode::Trap);
    let pat = variant_pat(&mut ic, "data", HirVariantPatPayload::Tuple(list(vec![named(n)])));
    assert_eq!(on_msg(&mut ic, pat, cast_n()), prim(Primitive::I64));
    let fields = list(vec![field_pat(b, named(n)), field_pat(a, wild())]);
    let pat = variant_pat(&mut ic, "pair", HirVariantPatPayload::Struct(fields));
    assert_eq!(on_msg(&mut ic, pat, cast_n()), prim(Primitive::I64));
    let pat = variant_pat(&mut ic, "none", HirVariantPatPayload::Unit);
    assert_eq!(on_msg(&mut ic, pat, number(1)), prim(Primitive::I64));
    assert!(ic.diags.is_empty(), "{:?}", ic.diags);

    let pat = variant_pat(&mut ic, "zero", HirVariantPatPayload::Unit);
    on_msg(&mut ic, pat, number(1));
    assert_eq!(message(&ic, 0), "no variant `zero` on sum type `app.Msg`");
    let pats = HirVariantPatPayload::Tuple(list(vec![wild(), wild()]));
    let pat = variant_pat(&mut ic, "data", pats);
    on_msg(&mut ic, pat, number(1));
    assert_eq!(
        message(&ic, 1),
        "variant `data` has 1 positional field(s) but pattern supplied 2"
    );
    let pat = variant_pat(&mut ic, "pair", HirVariantPatPayload::Tuple(list(vec![wild()])));
    on_msg(&mut ic, pat, number(1));
    assert_eq!(
        message(&ic, 2),
        "variant `pair` has 2 field(s) but positional pattern supplied 1"
    );
    let pat = variant_pat(&mut ic, "data", HirVariantPatPayload::Unit);
    on_msg(&mut ic, pat, number(1));
    assert_eq!(message(&ic, 3), "variant `data` payload shape does not match the pattern");
    let fields = list(vec![field_pat(a, wild()), field_pat(c, wild())]);
    let pat = variant_pat(&mut ic, "pair", HirVariantPatPayload::Struct(fields));
    on_msg(&mut ic, pat, number(1));
    assert!(says(&ic, "has no field `c`"), "{:?}", ic.diags);
    let pat = variant_pat(&mut ic, "none", HirVariantPatPayload::Unit);
    let before = ic.diags.len();
    let e = match_expr(number(1), vec![arm(pat, number(1)), arm(wild(), number(0))]);
    synth(&mut ic, e);
    assert_eq!(
        message(&ic, before),
        "variant pattern requires a sum type; scrutinee has type `i64`"
    );
}

#[test]
fn matches_on_a_sum_type_cover_every_variant() {
    let mut w = world();
    let mut ic = enter(&mut w);
    let m = sym(&mut ic, "m");
    let msg = msg_ty(&mut ic);
    let mut env = TyEnv::new();
    env.bind(m, msg);
    let none = variant_pat(&mut ic, "none", HirVariantPatPayload::Unit);
    let mut e = match_expr(read(m), vec![arm(none, number(1))]);
    synth_expr(&mut env, &mut e, &mut ic);
    assert_eq!(count(&ic, DiagnosticClass::NonExhaustiveMatch), 1);
    assert_eq!(ic.diags.len(), 1);
    assert_eq!(ic.diags[0].message, Message::NonExhaustive);

    let mut arms = Vec::new();
    let (a, b) = (sym(&mut ic, "a"), sym(&mut ic, "b"));
    for (name, payload) in [
        ("none", HirVariantPatPayload::Unit),
        ("data", HirVariantPatPayload::Tuple(list(vec![wild()]))),
        ("two", HirVariantPatPayload::Tuple(list(vec![wild(), wild()]))),
        (
            "pair",
            HirVariantPatPayload::Struct(list(vec![
                field_pat(a, wild()),
                field_pat(b, wild()),
            ])),
        ),
    ] {
        let pat = variant_pat(&mut ic, name, payload);
        arms.push(arm(pat, number(1)));
    }
    let mut e = match_expr(read(m), arms);
    assert_eq!(synth_expr(&mut env, &mut e, &mut ic), prim(Primitive::I64));
    assert_eq!(ic.diags.len(), 1, "{:?}", ic.diags);
}

/// `let Point { fields } = p` with the given scrutinee type.
fn destructure(ic: &mut InferCx<'_>, ty: TyId, fields: Vec<HirStructPatField>, rest: bool) -> TyEnv {
    let name = sym(ic, "Point");
    let mut env = TyEnv::new();
    let kind = HirPatKind::Struct(Box::new(HirStructPat {
        path: path(vec![name]),
        fields: list(fields),
        rest,
    }));
    bind_pat(&mut env, &mut pattern(kind), ty, ic);
    env
}

#[test]
fn struct_patterns_bind_the_fields() {
    let mut w = world();
    let mut ic = enter(&mut w);
    let (x, y, z, n) =
        (sym(&mut ic, "x"), sym(&mut ic, "y"), sym(&mut ic, "z"), sym(&mut ic, "n"));
    let point = point_ty(&mut ic);
    let env = destructure(&mut ic, point, vec![field_pat(x, named(n))], true);
    assert_eq!(env.lookup(n), Some(prim(Primitive::F64)));
    assert!(ic.diags.is_empty(), "{:?}", ic.diags);

    destructure(&mut ic, point, vec![field_pat(x, wild())], false);
    assert!(says(&ic, "is missing field(s) `y` (use `..` to ignore omitted fields)"));
    let both = vec![field_pat(x, wild()), field_pat(y, wild()), field_pat(x, wild())];
    destructure(&mut ic, point, both, false);
    assert_eq!(message(&ic, 1), "duplicate field pattern `x`");
    destructure(&mut ic, point, vec![field_pat(z, named(n))], true);
    assert!(message(&ic, 2).ends_with("` has no field `z`"));
    destructure(&mut ic, prim(Primitive::I64), vec![], true);
    assert_eq!(
        message(&ic, 3),
        "struct pattern requires a product type; scrutinee has type `i64`"
    );
    let msg = msg_ty(&mut ic);
    destructure(&mut ic, msg, vec![], true);
    assert_eq!(
        message(&ic, 4),
        "struct pattern requires a product type; `app.Msg` is a sum type (use a variant pattern \
         instead)"
    );
    let bare = ic.lower.ty_interner.nominal(app(8));
    destructure(&mut ic, bare, vec![], true);
    assert_eq!(message(&ic, 5), "no layout recorded for type `app.Bare`");
    assert_eq!(ic.diags.len(), 6);
}

/// A product type without fields has no field that a pattern could miss.
#[test]
fn struct_patterns_of_a_product_without_fields() {
    let unit = BindingId { module: ModuleId(0), index: 3 };
    let info =
        TypeDeclInfo { linearity: None, kind: TypeDeclShape::Product(list(vec![])) };
    let mut ty_cx = TyCx::new();
    ty_cx.decls = list(vec![TypeDeclEntry { id: unit, info }]);
    let lints = LintConfig::new();
    let mut ic = context(&ty_cx, &lints);
    let (x, n) = (sym(&mut ic, "x"), sym(&mut ic, "n"));
    let ty = ic.lower.ty_interner.nominal(unit);
    for rest in [false, true] {
        let env = destructure(&mut ic, ty, vec![], rest);
        assert!(ic.diags.is_empty(), "{:?}", ic.diags);
        assert_eq!(env.lookup(n), None);
    }
    // A field that it does not declare is still reported, and bound.
    let env = destructure(&mut ic, ty, vec![field_pat(x, named(n))], false);
    assert_eq!(message(&ic, 0), "type `Point` has no field `x`");
    assert_eq!(env.lookup(n), Some(TyId::Error));
    assert_eq!(ic.diags.len(), 1);
}

/// Without a path a struct pattern is reported under the text of its type,
/// which is interned whether or not anything is reported.
#[test]
fn struct_pattern_without_a_path_is_named_by_its_type() {
    let mut w = world();
    let mut ic = enter(&mut w);
    let (x, z) = (sym(&mut ic, "x"), sym(&mut ic, "z"));
    let point = point_ty(&mut ic);
    let bare = |ic: &mut InferCx<'_>, field: Symbol| {
        let kind = HirPatKind::Struct(Box::new(HirStructPat {
            path: path(vec![]),
            fields: list(vec![field_pat(field, wild())]),
            rest: true,
        }));
        bind_pat(&mut TyEnv::new(), &mut pattern(kind), point, ic);
    };
    let before = sym(&mut ic, "the last name");
    bare(&mut ic, x);
    assert!(ic.diags.is_empty(), "{:?}", ic.diags);
    // One text came in between: that of the type.
    let next = sym(&mut ic, "the next name");
    assert_eq!(next.0, before.0 + 2);
    let owner = sym(&mut ic, "app.Point");
    assert_eq!(owner.0, before.0 + 1);

    bare(&mut ic, z);
    assert_eq!(ic.diags[0].message, Message::NamedTypeNoField { owner, field: z });
    assert_eq!(message(&ic, 0), "type `app.Point` has no field `z`");
    // Nothing new was interned.
    assert_eq!(sym(&mut ic, "one more name").0, next.0 + 1);
}

#[test]
fn slice_and_at_patterns() {
    let mut w = world();
    let mut ic = enter(&mut w);
    let (first, rest, all) = (sym(&mut ic, "first"), sym(&mut ic, "rest"), sym(&mut ic, "all"));
    let u8s = ic.lower.ty_interner.slice(prim(Primitive::U8));
    let slice = || {
        pattern(HirPatKind::Slice(Box::new(HirSlicePat {
            prefix: list(vec![named(first)]),
            rest: Some(Some(ident(rest))),
            suffix: list(vec![]),
        })))
    };
    let mut env = TyEnv::new();
    let at_pat = HirAtPat { name: ident(all), inner: slice() };
    let mut pat = pattern(HirPatKind::AtBinding(Box::new(at_pat)));
    bind_pat(&mut env, &mut pat, u8s, &mut ic);
    assert_eq!(env.lookup(first), Some(prim(Primitive::U8)));
    assert_eq!(env.lookup(rest), Some(u8s));
    assert_eq!(env.lookup(all), Some(u8s));
    assert!(ic.diags.is_empty());
    bind_pat(&mut env, &mut slice(), prim(Primitive::I64), &mut ic);
    assert_eq!(
        message(&ic, 0),
        "slice pattern requires a slice type; scrutinee has type `i64`"
    );
}

#[test]
fn payloads_are_read_by_position() {
    let mut w = world();
    let mut ic = enter(&mut w);
    let (m, p) = (sym(&mut ic, "m"), sym(&mut ic, "p"));
    let (msg, point) = (msg_ty(&mut ic), point_ty(&mut ic));
    let mut env = TyEnv::new();
    env.bind(m, msg);
    env.bind(p, point);
    let mut e = tuple_index(read(m), 2);
    let ty = synth_expr(&mut env, &mut e, &mut ic);
    let u8_ty = prim(Primitive::U8);
    assert_eq!(ty, ic.lower.ty_interner.tuple(list(vec![u8_ty, u8_ty])));
    assert!(ic.diags.is_empty(), "{:?}", ic.diags);
    let mut e = tuple_index(read(m), 4);
    synth_expr(&mut env, &mut e, &mut ic);
    assert_eq!(
        message(&ic, 0),
        "variant index `.4` is out of bounds for `app.Msg` (4 variants)"
    );
    let mut e = tuple_index(read(p), 0);
    synth_expr(&mut env, &mut e, &mut ic);
    assert_eq!(
        message(&ic, 1),
        "cannot apply positional index `.0` to `app.Point` — only tuples and sum-typed values \
         support positional access"
    );
}

#[test]
fn closures_are_called_through_their_type() {
    let mut w = world();
    let mut ic = enter(&mut w);
    let (n, k, f) = (sym(&mut ic, "n"), sym(&mut ic, "k"), sym(&mut ic, "f"));
    let i64_ty = prim(Primitive::I64);
    let mut env = TyEnv::new();
    env.bind(k, i64_ty);
    let closure = HirClosure {
        span: Span::dummy(),
        params: list(vec![HirClosureParam {
            name: ident(n),
            mode: ParamMode::Default,
            ty: i64_ty,
        }]),
        captures: list(vec![ident(k)]),
        ret_ty: i64_ty,
        effects: EffectRow::empty(),
        body: block(vec![], Some(binary(BinOp::Add, read(n), read(k)))),
    };
    let mut e = expr(HirExprKind::Closure(Box::new(closure)));
    let ty = synth_expr(&mut env, &mut e, &mut ic);
    assert!(matches!(ic.lower.ty_interner.kind(ty), TyKind::FnPtr(_)));
    assert!(ic.diags.is_empty(), "{:?}", ic.diags);
    env.bind(f, ty);
    let through = |args| call(block_expr(block(vec![], Some(read(f)))), args);
    let mut e = through(vec![arg(number(1))]);
    assert_eq!(synth_expr(&mut env, &mut e, &mut ic), i64_ty);
    assert!(ic.diags.is_empty(), "{:?}", ic.diags);
    let mut e = through(vec![]);
    synth_expr(&mut env, &mut e, &mut ic);
    assert_eq!(message(&ic, 0), "fn-pointer expects 1 argument(s) but 0 were supplied");
    let mut e = through(vec![named_arg(n, number(1))]);
    synth_expr(&mut env, &mut e, &mut ic);
    assert_eq!(
        message(&ic, 1),
        "named argument `n:` is not admitted at a fn-pointer call site (positional arguments \
         only)"
    );
}

#[test]
fn checked_operators_need_a_place_for_their_error() {
    let mut w = world();
    let mut ic = enter(&mut w);
    let e = cast(number(1), prim(Primitive::U8), CastMode::Checked);
    assert_eq!(synth(&mut ic, e), prim(Primitive::U8));
    assert!(message(&ic, 0).starts_with("`as T checked` originates `err: Overflow`"));
}

/// A checked operator raises the `Overflow` that a handler or the row names.
#[test]
fn checked_operators_raise_the_named_overflow() {
    let mut w = world();
    let overflow = w.interner.intern("Overflow");
    let id = app(11);
    let mut bindings = Vec::new();
    if let List::Cons(module, _) = &w.package.modules {
        for i in 0..11 {
            bindings.push(module.bindings.get(i).unwrap());
        }
    }
    bindings.push(entry(overflow, BindingKind::TypeDecl));
    let module = Module {
        path: list(vec![]),
        bindings: list(bindings),
        items: list(vec![]),
        functions: list(vec![]),
    };
    w.package = ResolvedPackage { modules: list(vec![module]), resolutions: list(vec![]) };
    let mut ic = enter(&mut w);
    let ty = ic.lower.ty_interner.nominal(id);
    let raised = EffectEntry::Pure(PureEffect::Raise(ty));
    let sum = || binary(BinOp::CheckAdd, number(1), number(2));
    assert!(fault(&mut ic, sum()).starts_with("`+?` originates `err: Overflow`"));
    assert!(ic.row.to_row().is_empty());
    ic.declared_row = EffectRow::from_entries(&vec![raised]);
    assert_eq!(synth(&mut ic, sum()), prim(Primitive::I64));
    assert_eq!(ic.diags.len(), 1);
    assert_eq!(ic.row.to_row().entries(), vec![raised]);
    ic.row.clear();
    ic.declared_row = EffectRow::empty();
    ic.discharged_effects.push(raised);
    assert_eq!(synth(&mut ic, sum()), prim(Primitive::I64));
    assert_eq!(ic.diags.len(), 1);
    assert_eq!(ic.row.to_row().entries(), vec![raised]);
}
