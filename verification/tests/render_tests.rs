//! Texts of types and diagnostics.

use edda_types::capability::CapabilityType;
use edda_types::diag::{Diagnostic, DiagnosticClass, Message, Severity, StateWord};
use edda_types::effect::{EffectEntry, EffectRow, PureEffect};
use edda_types::hir::{HirCallMode, HirExpr, HirExprKind, HirField, HirIndex};
use edda_types::infer::cx::InferCx;
use edda_types::intern::{Interner, Symbol};
use edda_types::list::List;
use edda_types::prim::Primitive;
use edda_types::render::Renderer;
use edda_types::sig::{FnPtrParam, FnPtrSig, ParamMode};
use edda_types::span::Span;
use edda_types::syntax::{BinOp, Ident, Literal};
use edda_types::ty::{BindingId, ModuleId, TyId, TyInterner};

/// The handle of a primitive type.
fn prim(p: Primitive) -> TyId {
    TyId::Prim(p)
}

fn list<T>(items: Vec<T>) -> List<T> {
    List::from_vec(items)
}

fn expr(kind: HirExprKind) -> HirExpr {
    HirExpr { span: Span::dummy(), kind, ty: TyId::Error }
}

fn text(value: Symbol) -> HirExpr {
    expr(HirExprKind::Literal(Literal::Str(value)))
}

fn ident(name: Symbol) -> Ident {
    Ident { name, span: Span::dummy() }
}

fn index(receiver: HirExpr, index: HirExpr) -> HirExpr {
    expr(HirExprKind::Index(Box::new(HirIndex { receiver, index })))
}

fn field(receiver: HirExpr, name: Symbol) -> HirExpr {
    expr(HirExprKind::Field(Box::new(HirField { receiver, name: ident(name) })))
}

/// The text of the diagnostic at `i`.
fn message(ic: &InferCx<'_>, i: usize) -> String {
    let renderer = Renderer {
        interner: &ic.lower.interner,
        ty_interner: &ic.lower.ty_interner,
        package: ic.lower.package,
    };
    renderer.message(&ic.diags[i].message)
}

/// The texts of a context without a package.
fn renderer<'a>(interner: &'a Interner, types: &'a TyInterner) -> Renderer<'a> {
    Renderer { interner, ty_interner: types, package: None }
}

#[test]
fn types_are_written_out() {
    let mut interner = Interner::new();
    let mut types = TyInterner::new();
    let (u8_ty, string) = (prim(Primitive::U8), prim(Primitive::String));
    let slice = types.slice(u8_ty);
    let pair = types.tuple(list(vec![slice, string]));
    let nominal = types.nominal(BindingId { module: ModuleId(875), index: 39 });
    let fs = interner.intern("fs");
    let pointer = types.fn_ptr(FnPtrSig {
        params: list(vec![
            FnPtrParam { mode: ParamMode::Mutable, ty: pair },
            FnPtrParam { mode: ParamMode::Default, ty: u8_ty },
        ]),
        return_ty: nominal,
        effects: EffectRow::from_entries(&vec![
            EffectEntry::Pure(PureEffect::Raise(string)),
            EffectEntry::Capability(fs),
        ]),
    });
    let r = renderer(&interner, &types);
    assert_eq!(r.display_ty(TyId::Error), "<error>");
    assert_eq!(r.display_ty(u8_ty), "u8");
    assert_eq!(r.display_ty(TyId::Cap(CapabilityType::Executor)), "Executor");
    assert_eq!(r.display_ty(slice), "[u8]");
    assert_eq!(r.display_ty(pair), "([u8], String)");
    assert_eq!(r.display_ty(nominal), "<nominal 875:39>");
    let text = r.display_ty(pointer);
    assert!(text.starts_with("function(mutable ([u8], String), u8) -> <nominal 875:39> with {"));
    assert!(text.contains("err: String") && text.contains("fs"));
}

#[test]
fn effect_texts() {
    let mut interner = Interner::new();
    let types = TyInterner::new();
    let exec = interner.intern("exec");
    let one = |entry| EffectRow::from_entries(&vec![entry]);
    let r = renderer(&interner, &types);
    let of = |declared| {
        r.message(&Message::EffectNotDeclared {
            entry: EffectEntry::Pure(PureEffect::Panic),
            declared,
        })
    };
    assert_eq!(
        of(EffectRow::empty()),
        "function performs effect `panic` but does not declare it; declared row is `{}`"
    );
    for (entry, text) in [
        (EffectEntry::Capability(exec), "{exec}"),
        (EffectEntry::Pure(PureEffect::Raise(prim(Primitive::I64))), "{err: i64}"),
        (EffectEntry::Pure(PureEffect::Yield(prim(Primitive::U8))), "{yield: u8}"),
        (EffectEntry::Pure(PureEffect::Divergence), "{divergence}"),
        (EffectEntry::Pure(PureEffect::Cancellation), "{cancellation}"),
        (EffectEntry::Pure(PureEffect::Nondet), "{nondet}"),
    ] {
        assert!(of(one(entry)).ends_with(&format!("declared row is `{text}`")), "{text}");
    }
    assert_eq!(
        r.message(&Message::TerminationUnproven { declared: EffectRow::empty() }),
        "function is recursive but supplies no `decreases` measure; either supply `decreases` \
         on the function (or a recursive sibling) or admit `divergence` in the declared row \
         (currently `{}`)"
    );
    assert_eq!(
        r.message(&Message::DivergenceNotAdmitted { declared: EffectRow::empty() }),
        "function performs `divergence` but its declared row does not admit it; either supply \
         `decreases` for the unbounded loop or add `divergence` to the row (currently `{}`)"
    );
    assert_eq!(
        r.message(&Message::ExecutorMissing { declared: EffectRow::empty() }),
        "`scope(exec)` requires the enclosing function's effect row to declare an `Executor` \
         capability (a bare capability entry naming an `Executor`-typed parameter); declared \
         row is `{}`"
    );
}

#[test]
fn state_texts() {
    let mut interner = Interner::new();
    let types = TyInterner::new();
    let (p, x, y) = (interner.intern("p"), interner.intern("x"), interner.intern("y"));
    let r = renderer(&interner, &types);
    assert_eq!(
        r.message(&Message::AssignMoved { name: p }),
        "cannot assign to `p`: it has been moved out"
    );
    assert_eq!(
        r.message(&Message::FieldInitRequires { binding: p, field: x, actual: StateWord::Valid }),
        "`set p.x` requires the field to be uninitialised or consumed here, but it is valid"
    );
    assert_eq!(
        r.message(&Message::FieldModeRequires {
            mode: HirCallMode::Take,
            binding: p,
            field: x,
            actual: StateWord::Uninit,
        }),
        "`take p.x` requires the field to be valid here, but it is uninitialised"
    );
    assert_eq!(
        r.message(&Message::FieldNotReadable {
            binding: p,
            field: x,
            state: StateWord::Consumed,
        }),
        "cannot read `p.x`: the field is consumed (moved out) here"
    );
    assert_eq!(
        r.message(&Message::PartialAtExit { name: p, missing: list(vec![x, y]) }),
        "binding `p` is partially initialised at function exit; these fields are not valid: x, y"
    );
    assert_eq!(
        r.message(&Message::NotValidAtExit { name: p, state: StateWord::Uninit }),
        "binding `p` is uninitialised at function exit; every in-scope binding must be valid"
    );
    assert_eq!(
        r.message(&Message::LinearUnconsumed { name: p }),
        "`linear` binding `p` is not consumed before its scope ends; a `linear` value must be \
         passed by `take` (or otherwise consumed) on every path — only `affine` values may be \
         dropped"
    );
    assert!(
        r.message(&Message::ImmutableBorrow {
            mode: HirCallMode::Mutable,
            binding: p,
            member: Some(x),
        })
        .starts_with("`mutable p.x` requires `p` to be a mutable binding, but it is immutable;")
    );
}

#[test]
fn operator_texts() {
    let interner = Interner::new();
    let types = TyInterner::new();
    let r = renderer(&interner, &types);
    let ty = prim(Primitive::Bool);
    for (message, text) in [
        (Message::NotNumeric { op: BinOp::Add, ty }, "binary `+` requires numeric operands, found `bool`"),
        (Message::NotInteger { op: BinOp::Shl, ty }, "binary `<<` requires integer operands, found `bool`"),
        (Message::NotOrdered { op: BinOp::Le, ty }, "ordering operator `<=` requires numeric operands, found `bool`"),
        (Message::NegNotNumeric { ty }, "unary `-` requires a numeric operand, found `bool`"),
        (Message::BitNotNotInteger { ty }, "unary `~` requires an integer operand, found `bool`"),
        (Message::IndexNotSlice { ty }, "cannot index into `bool` — only slice types `[T]` support indexing"),
        (Message::RangeNotNumeric { ty }, "range endpoints must be numeric, found `bool`"),
        (Message::TupleTooShort, "tuple expression requires at least 2 elements"),
        (Message::QualifiedPath, "qualified-path expressions are not yet inferred"),
        (Message::CallsNeedPackage, "function calls require a resolved-package context"),
        (Message::StructLitNeedsPackage, "struct literals require a resolved-package context"),
    ] {
        assert_eq!(r.message(&message), text);
    }
    assert_eq!(
        r.message(&Message::BranchMismatch { first: ty, second: prim(Primitive::Unit) }),
        "branches have incompatible types: `bool` vs `()`"
    );
    assert_eq!(
        r.message(&Message::RangeMismatch { lo: ty, hi: prim(Primitive::I8) }),
        "range endpoints have incompatible types: `bool` and `i8`"
    );
    assert_eq!(
        r.message(&Message::BadCast { from: ty, to: prim(Primitive::I8) }),
        "cannot cast `bool` to `i8` — only numeric-to-numeric casts are admitted"
    );
    assert!(
        r.message(&Message::OverflowOperator { op: BinOp::CheckMul })
            .starts_with("`*?` originates `err: Overflow` but neither")
    );
    assert_eq!(
        r.message(&Message::LiteralTooLarge { value: u128::MAX, prim: Primitive::U64 }),
        "integer literal `340282366920938463463374607431768211455` does not fit in `u64`"
    );
}

/// A diagnostic is rendered by its message.
#[test]
fn diagnostics_are_rendered_by_their_message() {
    let interner = Interner::new();
    let types = TyInterner::new();
    let r = renderer(&interner, &types);
    let d = Diagnostic {
        class: DiagnosticClass::TypecheckError,
        severity: Severity::Error,
        span: Span::dummy(),
        message: Message::NoErrorToPropagate,
    };
    assert_eq!(r.render(&d), r.message(&d.message));
    assert_eq!(r.render(&d), "no error effect to propagate");
}
