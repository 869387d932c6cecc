//! Binding states, field tracking, tasks and function exits.

use edda_types::cx::{
    FieldInfo, TyCx, TypeDeclEntry, TypeDeclInfo, TypeDeclShape, VariantInfo, VariantPayloadInfo,
};
use edda_types::diag::{DiagnosticClass, LintConfig, Message, StateWord};
use edda_types::effect::EffectRow;
use edda_types::hir::{
    HirAssign, HirBlock, HirCall, HirCallArg, HirCallMode, HirExpr, HirExprKind, HirField, HirIndex,
    HirPath, HirSpawn, HirSpawnArg, HirStmt, HirStmtKind,
};
use edda_types::infer::cx::{InferCx, LowerCx};
use edda_types::infer::env::TyEnv;
use edda_types::infer::expr::synth_expr;
use edda_types::infer::fn_body::{FnContext, check_fn_body};
use edda_types::infer::mode::exit::is_trivially_droppable_at_exit;
use edda_types::infer::mode::lattice::{BindingState, FieldSet};
use edda_types::infer::mode::linear::{check_block_exit_linear, is_linear_type};
use edda_types::infer::mode::transitions::{
    apply_call_mode_transition, apply_field_assign_transition,
};
use edda_types::infer::stmt::infer_stmt;
use edda_types::intern::{Interner, Symbol};
use edda_types::list::List;
use edda_types::prim::Primitive;
use edda_types::render::Renderer;
use edda_types::sig::{FnPtrParam, FnPtrSig, ParamMode};
use edda_types::span::Span;
use edda_types::syntax::{AssignOp, Ident, IntBase, Linearity, Literal};
use edda_types::ty::{BindingId, ModuleId, TyId, TyInterner};

/// A context without a package.
fn context<'a>(ty_cx: &'a TyCx, lints: &'a LintConfig) -> InferCx<'a> {
    let lower = LowerCx { interner: Interner::new(), ty_interner: TyInterner::new(), package: None };
    InferCx::new(lower, ty_cx, lints, Vec::new())
}

/// The symbol of `text`.
fn sym(ic: &mut InferCx<'_>, text: &str) -> Symbol {
    ic.lower.interner.intern(text)
}

/// The handle of a primitive type.
fn prim(p: Primitive) -> TyId {
    TyId::Prim(p)
}

fn list<T>(items: Vec<T>) -> List<T> {
    List::from_vec(items)
}

fn expr(kind: HirExprKind) -> HirExpr {
    HirExpr { span: Span::dummy(), kind, ty: TyId::Error }
}

fn number(value: u128) -> HirExpr {
    expr(HirExprKind::Literal(Literal::Int { value, base: IntBase::Dec }))
}

fn text(value: Symbol) -> HirExpr {
    expr(HirExprKind::Literal(Literal::Str(value)))
}

fn ident(name: Symbol) -> Ident {
    Ident { name, span: Span::dummy() }
}

fn path(names: Vec<Symbol>) -> HirPath {
    let mut segments = Vec::new();
    for name in names {
        segments.push(ident(name));
    }
    HirPath { span: Span::dummy(), segments: list(segments) }
}

fn read(name: Symbol) -> HirExpr {
    expr(HirExprKind::Path(path(vec![name])))
}

fn block(stmts: Vec<HirStmt>, trailing: Option<HirExpr>) -> HirBlock {
    HirBlock { span: Span::dummy(), stmts: list(stmts), trailing, ty: TyId::Error }
}

fn block_expr(body: HirBlock) -> HirExpr {
    expr(HirExprKind::Block(Box::new(body)))
}

fn stmt(e: HirExpr) -> HirStmt {
    HirStmt { span: Span::dummy(), kind: HirStmtKind::Expr(e) }
}

fn assign(target: HirExpr, rhs: HirExpr) -> HirStmt {
    let kind = HirStmtKind::Assign(HirAssign { target, op: AssignOp::Plain, rhs });
    HirStmt { span: Span::dummy(), kind }
}

fn index(receiver: HirExpr, index: HirExpr) -> HirExpr {
    expr(HirExprKind::Index(Box::new(HirIndex { receiver, index })))
}

fn field(receiver: HirExpr, name: Symbol) -> HirExpr {
    expr(HirExprKind::Field(Box::new(HirField { receiver, name: ident(name) })))
}

fn moded_arg(mode: HirCallMode, e: HirExpr) -> HirCallArg {
    HirCallArg { span: Span::dummy(), mode: Some(mode), name: None, expr: e }
}

fn call(callee: HirExpr, args: Vec<HirCallArg>) -> HirExpr {
    expr(HirExprKind::Call(Box::new(HirCall { callee, args: list(args) })))
}

/// The text of the diagnostic at `i`.
fn message(ic: &InferCx<'_>, i: usize) -> String {
    let renderer = Renderer {
        interner: &ic.lower.interner,
        ty_interner: &ic.lower.ty_interner,
        package: ic.lower.package,
    };
    renderer.message(&ic.diags[i].message)
}

/// Whether some diagnostic's text contains `part`.
fn says(ic: &InferCx<'_>, part: &str) -> bool {
    (0..ic.diags.len()).any(|i| message(ic, i).contains(part))
}

/// How many diagnostics of `class` have been reported.
fn count(ic: &InferCx<'_>, class: DiagnosticClass) -> usize {
    ic.diags.iter().filter(|d| d.class == class).count()
}

fn fields(names: &[Symbol]) -> FieldSet {
    let mut set = FieldSet::new();
    for name in names {
        set.insert(*name);
    }
    set
}

fn partial(names: &[Symbol]) -> BindingState {
    BindingState::PartialInit(fields(names))
}

#[test]
fn glb_consumed_absorbs() {
    let (consumed, uninit, valid) =
        (BindingState::Consumed, BindingState::Uninit, BindingState::Valid);
    assert!(consumed.glb(&valid).same(&consumed));
    assert!(valid.glb(&consumed).same(&consumed));
    assert!(consumed.glb(&uninit).same(&consumed));
    assert!(uninit.glb(&consumed).same(&consumed));
    assert!(consumed.glb(&consumed).same(&consumed));
}

#[test]
fn glb_uninit_below_valid() {
    let (uninit, valid) = (BindingState::Uninit, BindingState::Valid);
    assert!(uninit.glb(&valid).same(&uninit));
    assert!(valid.glb(&uninit).same(&uninit));
    assert!(uninit.glb(&uninit).same(&uninit));
}

#[test]
fn glb_valid_only_when_both_valid() {
    assert!(BindingState::Valid.glb(&BindingState::Valid).same(&BindingState::Valid));
}

#[test]
fn glb_is_commutative() {
    let states = [BindingState::Consumed, BindingState::Uninit, BindingState::Valid];
    for a in &states {
        for b in &states {
            assert!(a.glb(b).same(&b.glb(a)));
        }
    }
}

/// The state of a field after a join is the join of its states.
#[test]
fn glb_of_a_field_is_the_glb_of_its_states() {
    let mut interner = Interner::new();
    let (a, b) = (interner.intern("a"), interner.intern("b"));
    let states = [
        BindingState::Consumed,
        BindingState::Uninit,
        partial(&[a]),
        partial(&[b]),
        partial(&[a, b]),
        BindingState::Valid,
    ];
    for x in &states {
        for y in &states {
            for f in [a, b] {
                let joined = x.glb(y).field_state(f);
                assert!(joined.same(&x.field_state(f).glb(&y.field_state(f))));
            }
        }
    }
}

#[test]
fn is_readable_only_for_valid() {
    let mut interner = Interner::new();
    let a = interner.intern("a");
    assert!(BindingState::Valid.is_readable());
    assert!(!BindingState::Uninit.is_readable());
    assert!(!BindingState::Consumed.is_readable());
    // A partial state is never readable as a whole, even when every field is
    // valid: the binding must be promoted explicitly.
    assert!(!partial(&[a]).is_readable());
}

fn syms(names: &[&str]) -> Vec<Symbol> {
    let mut interner = Interner::new();
    names.iter().map(|n| interner.intern(n)).collect()
}

#[test]
fn glb_partial_init_intersects() {
    let s = syms(&["a", "b", "c"]);
    let met = partial(&[s[0], s[1]]).glb(&partial(&[s[1], s[2]]));
    assert!(met.same(&partial(&[s[1]])));
}

#[test]
fn glb_valid_with_partial_init_keeps_partial() {
    let s = syms(&["a"]);
    let f = partial(&[s[0]]);
    assert!(BindingState::Valid.glb(&f).same(&f));
    assert!(f.glb(&BindingState::Valid).same(&f));
}

#[test]
fn glb_uninit_with_partial_init_is_uninit() {
    let s = syms(&["a"]);
    let f = partial(&[s[0]]);
    assert!(BindingState::Uninit.glb(&f).same(&BindingState::Uninit));
    assert!(f.glb(&BindingState::Uninit).same(&BindingState::Uninit));
}

#[test]
fn field_state_on_partial_init_distinguishes_in_and_out_of_set() {
    let s = syms(&["a", "b", "c"]);
    let state = partial(&[s[0], s[2]]);
    assert!(state.field_state(s[0]).same(&BindingState::Valid));
    assert!(state.field_state(s[1]).same(&BindingState::Uninit));
    assert!(state.field_state(s[2]).same(&BindingState::Valid));
}

#[test]
fn field_state_on_whole_state_returns_that_state() {
    let s = syms(&["a"]);
    assert!(BindingState::Valid.field_state(s[0]).same(&BindingState::Valid));
    assert!(BindingState::Uninit.field_state(s[0]).same(&BindingState::Uninit));
    assert!(BindingState::Consumed.field_state(s[0]).same(&BindingState::Consumed));
}

#[test]
fn describe_renders_each_state() {
    assert_eq!(BindingState::Valid.describe(), "valid");
    assert_eq!(BindingState::Uninit.describe(), "uninitialised");
    assert_eq!(BindingState::Consumed.describe(), "consumed (moved out)");
    assert_eq!(
        BindingState::PartialInit(FieldSet::new()).describe(),
        "partially initialised"
    );
}

/// A product type with two fields, and the names a test needs.
struct Fixture {
    interner: Interner,
    types: TyInterner,
    ty_cx: TyCx,
    lints: LintConfig,
    point_ty: TyId,
    p: Symbol,
    field_x: Symbol,
    field_y: Symbol,
}

fn product(id: BindingId, fields: Vec<FieldInfo>) -> TypeDeclEntry {
    let info = TypeDeclInfo { linearity: None, kind: TypeDeclShape::Product(list(fields)) };
    TypeDeclEntry { id, info }
}

fn fixture() -> Fixture {
    let mut interner = Interner::new();
    let mut types = TyInterner::new();
    let field_x = interner.intern("x");
    let field_y = interner.intern("y");
    let p = interner.intern("p");
    let f64_ty = prim(Primitive::F64);
    let point = BindingId { module: ModuleId(0), index: 1 };
    let point_ty = types.nominal(point);
    let mut ty_cx = TyCx::new();
    ty_cx.decls = list(vec![product(
        point,
        vec![
            FieldInfo { span: Span::dummy(), name: field_x, ty: f64_ty },
            FieldInfo { span: Span::dummy(), name: field_y, ty: f64_ty },
        ],
    )]);
    Fixture { interner, types, ty_cx, lints: LintConfig::new(), point_ty, p, field_x, field_y }
}

fn started(fx: &mut Fixture) -> InferCx<'_> {
    let interner = std::mem::replace(&mut fx.interner, Interner::new());
    let ty_interner = std::mem::replace(&mut fx.types, TyInterner::new());
    let lower = LowerCx { interner, ty_interner, package: None };
    InferCx::new(lower, &fx.ty_cx, &fx.lints, Vec::new())
}

#[test]
fn synth_field_on_valid_binding_reads_cleanly() {
    let mut fx = fixture();
    let (p, x, point_ty) = (fx.p, fx.field_x, fx.point_ty);
    let mut ic = started(&mut fx);
    let mut env = TyEnv::new();
    env.bind(p, point_ty);
    let mut access = field(read(p), x);
    assert_eq!(synth_expr(&mut env, &mut access, &mut ic), prim(Primitive::F64));
    assert_eq!(count(&ic, DiagnosticClass::TypecheckError), 0);
}

#[test]
fn synth_field_on_uninit_field_diagnoses() {
    let mut fx = fixture();
    let (p, x, point_ty) = (fx.p, fx.field_x, fx.point_ty);
    let mut ic = started(&mut fx);
    let mut env = TyEnv::new();
    // Every field of an uninitialised binding is uninitialised.
    env.bind_with_state(p, point_ty, BindingState::Uninit);
    let mut access = field(read(p), x);
    assert_eq!(synth_expr(&mut env, &mut access, &mut ic), ic.ty_error());
    let reported = (0..ic.diags.len()).any(|i| {
        message(&ic, i).contains("p.x") && message(&ic, i).contains("uninitialised")
    });
    assert!(reported, "got: {:?}", ic.diags);
}

#[test]
fn field_assign_after_sink_promotes_to_partial_init() {
    let mut fx = fixture();
    let (p, x, y, point_ty) = (fx.p, fx.field_x, fx.field_y, fx.point_ty);
    let mut ic = started(&mut fx);
    let mut env = TyEnv::new();
    env.bind(p, point_ty);
    // `consume(take p.x)`: take the `x` field.
    let taken = moded_arg(HirCallMode::Take, field(read(p), x));
    apply_call_mode_transition(&mut env, &taken, &mut ic);
    // Only y is still valid.
    match env.lookup_state(p).unwrap() {
        BindingState::PartialInit(f) => {
            assert!(f.contains(y));
            assert!(!f.contains(x));
        }
        other => panic!("expected PartialInit, got {other:?}"),
    }
    assert_eq!(count(&ic, DiagnosticClass::TypecheckError), 0);
}

/// A `mutable` borrow of a field whose root binding is immutable is rejected.
#[test]
fn mutable_field_of_immutable_binding_is_rejected() {
    let mut fx = fixture();
    let (p, x, point_ty) = (fx.p, fx.field_x, fx.point_ty);
    let mut ic = started(&mut fx);
    let mut env = TyEnv::new();
    env.bind_with_state_mut(p, point_ty, BindingState::Valid, false);
    let borrowed = moded_arg(HirCallMode::Mutable, field(read(p), x));
    apply_call_mode_transition(&mut env, &borrowed, &mut ic);
    assert_eq!(count(&ic, DiagnosticClass::ModeViolation), 1, "expected one mode_violation");
}

/// When the root binding is mutable, the same borrow checks cleanly.
#[test]
fn mutable_field_of_mutable_binding_is_clean() {
    let mut fx = fixture();
    let (p, x, point_ty) = (fx.p, fx.field_x, fx.point_ty);
    let mut ic = started(&mut fx);
    let mut env = TyEnv::new();
    env.bind(p, point_ty);
    let borrowed = moded_arg(HirCallMode::Mutable, field(read(p), x));
    apply_call_mode_transition(&mut env, &borrowed, &mut ic);
    assert_eq!(
        count(&ic, DiagnosticClass::ModeViolation),
        0,
        "a mutable root may be borrowed"
    );
}

#[test]
fn field_assign_completing_set_promotes_to_valid() {
    let mut fx = fixture();
    let (p, x, y, point_ty) = (fx.p, fx.field_x, fx.field_y, fx.point_ty);
    let mut ic = started(&mut fx);
    let mut env = TyEnv::new();
    env.bind_with_state(p, point_ty, partial(&[y]));
    // Assigning x makes every field valid.
    let restored = apply_field_assign_transition(&mut env, p, x, &mut ic);
    assert!(restored, "apply_field_assign_transition should report success");
    assert!(env.lookup_state(p).unwrap().same(&BindingState::Valid));
}

#[test]
fn sink_on_already_consumed_field_diagnoses() {
    let mut fx = fixture();
    let (p, x, y, point_ty) = (fx.p, fx.field_x, fx.field_y, fx.point_ty);
    let mut ic = started(&mut fx);
    let mut env = TyEnv::new();
    // x has been consumed.
    env.bind_with_state(p, point_ty, partial(&[y]));
    let taken = moded_arg(HirCallMode::Take, field(read(p), x));
    apply_call_mode_transition(&mut env, &taken, &mut ic);
    let reported = (0..ic.diags.len()).any(|i| {
        message(&ic, i).contains("p.x") && message(&ic, i).contains("uninitialised")
    });
    assert!(reported, "got: {:?}", ic.diags);
}

#[test]
fn set_on_uninit_field_promotes() {
    let mut fx = fixture();
    let (p, x, point_ty) = (fx.p, fx.field_x, fx.point_ty);
    let mut ic = started(&mut fx);
    let mut env = TyEnv::new();
    env.bind_with_state(p, point_ty, BindingState::Uninit);
    // `fill(init p.x)` makes x valid.
    let filled = moded_arg(HirCallMode::Init, field(read(p), x));
    apply_call_mode_transition(&mut env, &filled, &mut ic);
    match env.lookup_state(p).unwrap() {
        BindingState::PartialInit(f) => assert!(f.contains(x)),
        other => panic!("expected PartialInit, got {other:?}"),
    }
    assert_eq!(count(&ic, DiagnosticClass::TypecheckError), 0);
}

#[test]
fn set_on_already_valid_field_diagnoses() {
    let mut fx = fixture();
    let (p, x, point_ty) = (fx.p, fx.field_x, fx.point_ty);
    let mut ic = started(&mut fx);
    let mut env = TyEnv::new();
    env.bind(p, point_ty);
    let filled = moded_arg(HirCallMode::Init, field(read(p), x));
    apply_call_mode_transition(&mut env, &filled, &mut ic);
    let reported = (0..ic.diags.len()).any(|i| {
        message(&ic, i).contains("set p.x")
            && message(&ic, i).contains("uninitialised or consumed")
    });
    assert!(reported, "got: {:?}", ic.diags);
}

fn context_of(return_ty: TyId, take_params: Vec<Symbol>) -> FnContext {
    FnContext {
        declared: EffectRow::empty(),
        return_ty,
        exit_span: Span::dummy(),
        inject_divergence: false,
        take_params: list(take_params),
    }
}

#[test]
fn function_exit_with_partial_init_diagnoses_missing_fields() {
    let mut fx = fixture();
    let (p, y, point_ty) = (fx.p, fx.field_y, fx.point_ty);
    let mut ic = started(&mut fx);
    let mut env = TyEnv::new();
    env.bind(p, point_ty);
    let mut body = block(vec![stmt(expr(HirExprKind::Error))], None);
    // The state that `take p.x` leaves behind.
    env.transition(p, partial(&[y]));
    check_fn_body(&mut env, &mut body, &context_of(TyId::Error, vec![]), &mut ic);
    let exit = (0..ic.diags.len())
        .find(|i| message(&ic, *i).contains("partially initialised at function exit"));
    assert!(exit.is_some(), "expected partial-init exit diag, got: {:?}", ic.diags);
    assert!(message(&ic, exit.unwrap()).contains("x"));
}

#[test]
fn function_exit_admits_take_param_partial_when_remainder_is_droppable() {
    // A `take` parameter may leave with x consumed and y valid, where the type
    // of y is trivially droppable.
    let mut fx = fixture();
    let (p, y, point_ty) = (fx.p, fx.field_y, fx.point_ty);
    let mut ic = started(&mut fx);
    let mut env = TyEnv::new();
    env.bind(p, point_ty);
    let mut body = block(vec![stmt(expr(HirExprKind::Error))], None);
    env.transition(p, partial(&[y]));
    check_fn_body(&mut env, &mut body, &context_of(TyId::Error, vec![p]), &mut ic);
    assert!(
        !says(&ic, "partially initialised at function exit"),
        "expected no partial-init exit diag, got: {:?}",
        ic.diags
    );
}

#[test]
fn whole_struct_read_on_partial_init_diagnoses() {
    // Reading the whole struct requires every field to be valid.
    let mut fx = fixture();
    let (p, y, point_ty) = (fx.p, fx.field_y, fx.point_ty);
    let mut ic = started(&mut fx);
    let mut env = TyEnv::new();
    env.bind_with_state(p, point_ty, partial(&[y]));
    let mut access = read(p);
    assert_eq!(synth_expr(&mut env, &mut access, &mut ic), ic.ty_error());
    assert!(
        says(&ic, "partially initialised") || says(&ic, "partially-initialised"),
        "got: {:?}",
        ic.diags
    );
}

#[test]
fn reading_valid_field_on_partial_init_succeeds() {
    let mut fx = fixture();
    let (p, y, point_ty) = (fx.p, fx.field_y, fx.point_ty);
    let mut ic = started(&mut fx);
    let mut env = TyEnv::new();
    env.bind_with_state(p, point_ty, partial(&[y]));
    let mut access = field(read(p), y);
    assert_eq!(synth_expr(&mut env, &mut access, &mut ic), prim(Primitive::F64));
    assert_eq!(count(&ic, DiagnosticClass::TypecheckError), 0);
}

/// A tuple is filled element by element, as a product is field by field.
#[test]
fn tuple_index_assign_promotes_uninit_to_valid() {
    let mut fx = fixture();
    let out = fx.interner.intern("out");
    let u16_ty = prim(Primitive::U16);
    let tuple_ty = fx.types.tuple(list(vec![u16_ty, u16_ty]));
    // The names that stand for the elements.
    let idx0 = fx.interner.intern("0");
    let idx1 = fx.interner.intern("1");
    let mut ic = started(&mut fx);
    let mut env = TyEnv::new();
    env.bind_with_state(out, tuple_ty, BindingState::Uninit);

    // `out.(0) = e`: the binding is partially initialised.
    assert!(apply_field_assign_transition(&mut env, out, idx0, &mut ic));
    match env.lookup_state(out).unwrap() {
        BindingState::PartialInit(f) => {
            assert!(f.contains(idx0), "element 0 should be valid");
            assert!(!f.contains(idx1), "element 1 not yet written");
        }
        other => panic!("expected PartialInit after out.(0), got {other:?}"),
    }

    // `out.(1) = e`: every element is valid.
    assert!(apply_field_assign_transition(&mut env, out, idx1, &mut ic));
    assert!(env.lookup_state(out).unwrap().same(&BindingState::Valid));
    assert_eq!(count(&ic, DiagnosticClass::TypecheckError), 0);
}

#[test]
fn unused_helper_ident() {
    // An interned name reads back, and a fresh literal node carries the error
    // type until it is judged.
    let mut interner = Interner::new();
    let anchor = ident(interner.intern("_anchor"));
    assert_eq!(interner.resolve(anchor.name), "_anchor");
    assert_eq!(number(0).ty, TyId::Error);
}

fn pointer(ic: &mut InferCx<'_>) -> TyId {
    let param = FnPtrParam { mode: ParamMode::Mutable, ty: prim(Primitive::I32) };
    ic.lower.ty_interner.fn_ptr(FnPtrSig {
        params: list(vec![param]),
        return_ty: prim(Primitive::Unit),
        effects: EffectRow::empty(),
    })
}

/// A block around the callee makes the call go through the pointer.
fn pointer_call(callee: Symbol, args: Vec<HirCallArg>) -> HirExpr {
    call(block_expr(block(vec![], Some(read(callee)))), args)
}

fn spawn(args: Vec<HirSpawnArg>, body: HirExpr) -> HirExpr {
    expr(HirExprKind::Spawn(Box::new(HirSpawn {
        span: Span::dummy(),
        args: list(args),
        body: block(vec![], Some(body)),
    })))
}

#[test]
fn spawn_body_rejects_mutable_call_on_outer_var() {
    // `var x: i32 = 5; group.spawn { helper(mutable x) }`: the task must not be
    // able to borrow the outer `x` mutably.
    let (ty_cx, lints) = (TyCx::new(), LintConfig::new());
    let mut ic = context(&ty_cx, &lints);
    let (x, helper) = (sym(&mut ic, "x"), sym(&mut ic, "helper"));
    let helper_ty = pointer(&mut ic);
    let mut env = TyEnv::new();
    env.bind(x, prim(Primitive::I32));
    env.bind(helper, helper_ty);
    let mut e =
        spawn(vec![], pointer_call(helper, vec![moded_arg(HirCallMode::Mutable, read(x))]));
    synth_expr(&mut env, &mut e, &mut ic);
    assert_eq!(
        count(&ic, DiagnosticClass::ModeViolation),
        1,
        "spawn body must reject a `mutable` argument on an outer var, got: {:?}",
        ic.diags
    );
    // The restriction lifts once the task's body has been left.
    assert_eq!(env.lookup_mutable(x), Some(true));
}

#[test]
fn spawn_body_admits_mutable_call_on_body_local_take_arg() {
    // `group.spawn(take owned = shared) { mutate(mutable owned) }`: `owned`
    // belongs to the body, so it stays mutable there.
    let (ty_cx, lints) = (TyCx::new(), LintConfig::new());
    let mut ic = context(&ty_cx, &lints);
    let (shared, owned, mutate) =
        (sym(&mut ic, "shared"), sym(&mut ic, "owned"), sym(&mut ic, "mutate"));
    let mutate_ty = pointer(&mut ic);
    let mut env = TyEnv::new();
    env.bind(shared, prim(Primitive::I32));
    env.bind(mutate, mutate_ty);
    let given = HirSpawnArg {
        span: Span::dummy(),
        name: ident(owned),
        ty: Some(prim(Primitive::I32)),
        init: read(shared),
    };
    let mut e = spawn(
        vec![given],
        pointer_call(mutate, vec![moded_arg(HirCallMode::Mutable, read(owned))]),
    );
    synth_expr(&mut env, &mut e, &mut ic);
    assert_eq!(
        count(&ic, DiagnosticClass::ModeViolation),
        0,
        "a binding of the body must stay mutable there, got: {:?}",
        ic.diags
    );
}

#[test]
fn spawn_synthesises_body_result_type() {
    // `group.spawn { y }` where `y: i32` is an i32, and needs no instance.
    let (ty_cx, lints) = (TyCx::new(), LintConfig::new());
    let mut ic = context(&ty_cx, &lints);
    let y = sym(&mut ic, "y");
    let mut env = TyEnv::new();
    env.bind(y, prim(Primitive::I32));
    let mut e = spawn(vec![], read(y));
    let out = synth_expr(&mut env, &mut e, &mut ic);
    assert_eq!(out, prim(Primitive::I32), "spawn must synthesise the body's result type");
    assert_eq!(e.ty, prim(Primitive::I32));
    assert!(
        ic.implicit_specs.is_empty(),
        "spawn must not request an instance, got: {:?}",
        ic.implicit_specs
    );
}

#[test]
fn await_synthesises_operand_type() {
    // `t.await` where `t: i32` is an i32.
    let (ty_cx, lints) = (TyCx::new(), LintConfig::new());
    let mut ic = context(&ty_cx, &lints);
    let t = sym(&mut ic, "t");
    let mut env = TyEnv::new();
    env.bind(t, prim(Primitive::I32));
    let mut e = expr(HirExprKind::Await(Box::new(read(t))));
    let out = synth_expr(&mut env, &mut e, &mut ic);
    assert_eq!(out, prim(Primitive::I32), "await must synthesise its operand's type");
    assert_eq!(e.ty, prim(Primitive::I32));
}

/// A taken binding cannot be read, taken or borrowed again.
#[test]
fn use_after_take_is_reported() {
    let (ty_cx, lints) = (TyCx::new(), LintConfig::new());
    let mut ic = context(&ty_cx, &lints);
    let x = sym(&mut ic, "x");
    let mut env = TyEnv::new();
    env.bind(x, prim(Primitive::I32));
    let taken = moded_arg(HirCallMode::Take, read(x));
    apply_call_mode_transition(&mut env, &taken, &mut ic);
    assert!(env.lookup_state(x).unwrap().same(&BindingState::Consumed));
    assert!(ic.diags.is_empty());
    let mut again = read(x);
    assert_eq!(synth_expr(&mut env, &mut again, &mut ic), ic.ty_error());
    assert_eq!(
        ic.diags[0].message,
        Message::NotReadable { name: x, state: StateWord::Consumed }
    );
    apply_call_mode_transition(&mut env, &taken, &mut ic);
    assert_eq!(
        ic.diags[1].message,
        Message::ModeRequires {
            mode: HirCallMode::Take,
            name: x,
            required: StateWord::Valid,
            actual: StateWord::Consumed,
        }
    );
}

/// `init` fills an uninitialised binding, which can then be read.
#[test]
fn init_then_read_is_clean() {
    let (ty_cx, lints) = (TyCx::new(), LintConfig::new());
    let mut ic = context(&ty_cx, &lints);
    let x = sym(&mut ic, "x");
    let mut env = TyEnv::new();
    env.bind_with_state(x, prim(Primitive::I32), BindingState::Uninit);
    let filled = moded_arg(HirCallMode::Init, read(x));
    apply_call_mode_transition(&mut env, &filled, &mut ic);
    let mut e = read(x);
    assert_eq!(synth_expr(&mut env, &mut e, &mut ic), prim(Primitive::I32));
    assert!(ic.diags.is_empty());
}

/// Entering and leaving a scope restores what was bound; restricting and
/// restoring mutability does so too.
#[test]
fn scopes_and_restrictions_restore() {
    let s = syms(&["a", "b"]);
    let mut env = TyEnv::new();
    env.bind_with_state_mut(s[0], prim(Primitive::I32), BindingState::Valid, true);
    env.enter_scope();
    env.bind(s[0], prim(Primitive::Bool));
    env.bind(s[1], prim(Primitive::Bool));
    assert_eq!(env.lookup(s[0]), Some(prim(Primitive::Bool)));
    env.exit_scope();
    assert_eq!(env.lookup(s[0]), Some(prim(Primitive::I32)));
    assert_eq!(env.lookup(s[1]), None);
    assert_eq!(env.lookup_mutable(s[1]), None);
    let before = env.restrict_mutability();
    assert_eq!(env.lookup_mutable(s[0]), Some(false));
    assert!(env.transition(s[0], BindingState::Consumed));
    env.restore_mutability(before);
    assert_eq!(env.lookup_mutable(s[0]), Some(true));
    assert!(env.lookup_state(s[0]).unwrap().same(&BindingState::Consumed));
    assert!(!env.transition(s[1], BindingState::Valid));
}

/// At a join a binding has the meet of its states.
#[test]
fn join_meets_states() {
    let s = syms(&["a", "b"]);
    let mut env = TyEnv::new();
    env.bind(s[0], prim(Primitive::I32));
    env.bind(s[1], prim(Primitive::I32));
    let mut other = env.dup();
    other.transition(s[0], BindingState::Consumed);
    env.transition(s[1], BindingState::Uninit);
    env.merge_glb(&other);
    assert!(env.lookup_state(s[0]).unwrap().same(&BindingState::Consumed));
    assert!(env.lookup_state(s[1]).unwrap().same(&BindingState::Uninit));
}

/// A linear binding that is still valid when its block ends is reported.
#[test]
fn linear_binding_must_be_consumed() {
    let mut interner = Interner::new();
    let mut types = TyInterner::new();
    let token = BindingId { module: ModuleId(0), index: 4 };
    let token_ty = types.nominal(token);
    let t = interner.intern("t");
    let mut ty_cx = TyCx::new();
    let info = TypeDeclInfo {
        linearity: Some(Linearity::Linear),
        kind: TypeDeclShape::Product(list(vec![])),
    };
    ty_cx.decls = list(vec![TypeDeclEntry { id: token, info }]);
    let lints = LintConfig::new();
    let lower = LowerCx { interner, ty_interner: types, package: None };
    let mut ic = InferCx::new(lower, &ty_cx, &lints, Vec::new());
    assert!(is_linear_type(token_ty, &ic));
    let mut env = TyEnv::new();
    env.bind(t, token_ty);
    check_block_exit_linear(&env, Span::dummy(), &mut ic);
    assert_eq!(ic.diags[0].message, Message::LinearUnconsumed { name: t });
    env.transition(t, BindingState::Consumed);
    check_block_exit_linear(&env, Span::dummy(), &mut ic);
    assert_eq!(ic.diags.len(), 1);
}

/// A moved-out binding takes no new value; a field's state follows the whole.
#[test]
fn assignment_to_a_moved_binding_is_reported() {
    let (ty_cx, lints) = (TyCx::new(), LintConfig::new());
    let mut ic = context(&ty_cx, &lints);
    let (x, f) = (sym(&mut ic, "x"), sym(&mut ic, "f"));
    let mut env = TyEnv::new();
    env.bind_with_state(x, prim(Primitive::I64), BindingState::Consumed);
    assert!(env.lookup_field_state(x, f).unwrap().same(&BindingState::Consumed));
    assert!(env.lookup_field_state(f, x).is_none());
    let mut s = assign(read(x), number(1));
    infer_stmt(&mut env, &mut s, &mut ic);
    assert_eq!(ic.diags[0].message, Message::AssignMoved { name: x });
    assert!(env.lookup_state(x).unwrap().same(&BindingState::Consumed));
}

/// What may be dropped silently at function exit.
#[test]
fn droppable_types() {
    let mut fx = fixture();
    let string = prim(Primitive::String);
    let pair = fx.types.tuple(list(vec![prim(Primitive::I8), prim(Primitive::Bool)]));
    let texts = fx.types.tuple(list(vec![prim(Primitive::I8), string]));
    let slice = fx.types.slice(prim(Primitive::U8));
    let unknown = fx.types.nominal(BindingId { module: ModuleId(3), index: 0 });
    let ic = started(&mut fx);
    assert!(is_trivially_droppable_at_exit(prim(Primitive::F64), &ic));
    assert!(is_trivially_droppable_at_exit(pair, &ic));
    assert!(!is_trivially_droppable_at_exit(string, &ic));
    assert!(!is_trivially_droppable_at_exit(texts, &ic));
    assert!(!is_trivially_droppable_at_exit(slice, &ic));
    assert!(!is_trivially_droppable_at_exit(unknown, &ic));
    assert!(!is_trivially_droppable_at_exit(TyId::Error, &ic));
}

/// A type is dropped silently only if nothing that it is made of owns a
/// resource, however deep, and no type is met twice.
#[test]
fn droppable_types_reach_no_resource() {
    let id = |index: usize| BindingId { module: ModuleId(0), index };
    let mut interner = Interner::new();
    let (f, v, w) = (interner.intern("f"), interner.intern("v"), interner.intern("w"));
    let mut types = TyInterner::new();
    let nominals: Vec<TyId> = (0..6).map(|i| types.nominal(id(i))).collect();
    let (i8_ty, bool_ty, string) =
        (prim(Primitive::I8), prim(Primitive::Bool), prim(Primitive::String));
    let member = |ty: TyId| FieldInfo { name: f, ty, span: Span::dummy() };
    let variant =
        |name: Symbol, payload: VariantPayloadInfo| VariantInfo { name, payload, span: Span::dummy() };
    let product = |linearity: Option<Linearity>, ty: TyId| TypeDeclInfo {
        linearity,
        kind: TypeDeclShape::Product(list(vec![member(ty)])),
    };
    let sum = |first: TyId, second: TyId| TypeDeclInfo {
        linearity: None,
        kind: TypeDeclShape::Sum(list(vec![
            variant(f, VariantPayloadInfo::Unit),
            variant(v, VariantPayloadInfo::Tuple(list(vec![first]))),
            variant(w, VariantPayloadInfo::Struct(list(vec![member(second)]))),
        ])),
    };
    let infos = vec![
        // A product of a sum of plain types.
        product(None, nominals[1]),
        sum(i8_ty, bool_ty),
        // A product of a sum that holds a text.
        product(None, nominals[3]),
        sum(i8_ty, string),
        // An affine product of a plain type, and a product of itself.
        product(Some(Linearity::Affine), i8_ty),
        product(None, nominals[5]),
    ];
    let entries = infos.into_iter().zip(0usize..);
    let mut ty_cx = TyCx::new();
    ty_cx.decls = list(entries.map(|(info, i)| TypeDeclEntry { id: id(i), info }).collect());
    let deep = types.tuple(list(vec![nominals[0], prim(Primitive::U8)]));
    let affine = types.tuple(list(vec![nominals[4]]));
    let twice = types.tuple(list(vec![i8_ty, i8_ty]));
    let lints = LintConfig::new();
    let lower = LowerCx { interner, ty_interner: types, package: None };
    let ic = InferCx::new(lower, &ty_cx, &lints, Vec::new());
    for ty in [deep, nominals[0], nominals[1]] {
        assert!(is_trivially_droppable_at_exit(ty, &ic));
    }
    for ty in [nominals[2], nominals[3], nominals[4], affine, nominals[5], twice] {
        assert!(!is_trivially_droppable_at_exit(ty, &ic));
    }
}

/// A binding that was never given a value is reported at function exit.
#[test]
fn uninitialised_parameter_at_exit_is_reported() {
    let (ty_cx, lints) = (TyCx::new(), LintConfig::new());
    let mut ic = context(&ty_cx, &lints);
    let (out, gone) = (sym(&mut ic, "out"), sym(&mut ic, "gone"));
    let mut env = TyEnv::new();
    env.bind_with_state(out, prim(Primitive::I64), BindingState::Uninit);
    env.bind_with_state(gone, prim(Primitive::I64), BindingState::Consumed);
    let mut body = block(vec![], None);
    check_fn_body(&mut env, &mut body, &context_of(TyId::Error, vec![]), &mut ic);
    assert_eq!(ic.diags.len(), 1);
    assert_eq!(
        ic.diags[0].message,
        Message::NotValidAtExit { name: out, state: StateWord::Uninit }
    );
}
