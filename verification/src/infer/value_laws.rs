//! Laws of paths as values.

use vstd::prelude::*;

use super::cx::Ic;
use super::env::TyEnv;
use super::expr::synth_expr_rule;
use super::path::path_value;
use crate::capability::CapabilityType;
use crate::cx::{const_for, sig_for, VariantPayloadInfo};
use crate::diag::Message;
use crate::hir::{HirExpr, HirExprKind, HirPath};
use crate::intern::Symbol;
use crate::package::{BindingEntry, BindingKind, Resolved};
use crate::prim::Primitive;
use crate::sig::FnSig;
use crate::ty::{BindingId, TyId, TyKind};

verus! {

/// Whether a path is no local binding and stands for the item `id`.
pub open spec fn stands_for(
    env: TyEnv,
    expr: HirExpr,
    path: HirPath,
    id: BindingId,
    entry: BindingEntry,
    ic: Ic,
) -> bool {
    &&& expr.kind == HirExprKind::Path(path)
    &&& path.single() matches Some(name) ==> env.find(name) is None
    &&& ic.package matches Some(package) && package.target(path.span) == Some(
        (Resolved::Binding(id), Some(entry)),
    )
}

/// A function used as a value is a pointer with its modes, types, return type
/// and effects; a constant has its recorded type. Neither performs anything.
pub proof fn law_item_value(
    env: TyEnv,
    expr: HirExpr,
    path: HirPath,
    id: BindingId,
    entry: BindingEntry,
    sig: FnSig,
    ty: TyId,
    ic: Ic,
)
    requires
        stands_for(env, expr, path, id, entry, ic),
        !ic.comptime,
    ensures
        ({
            let j = synth_expr_rule(env, expr, ic);
            &&& j.env == env
            &&& entry.kind == BindingKind::Function && sig_for(ic.ty_cx.sigs, id) == Some(sig)
                ==> j.ty == ic.handle(TyKind::FnPtr(Box::new(sig.pointer()))) && j.ic.diags
                == ic.diags && j.ic.row == ic.row
            &&& entry.kind == BindingKind::Const && const_for(ic.ty_cx.consts, id) == Some(ty)
                ==> j.ty == ty && j.ic == ic
            &&& entry.kind == BindingKind::Local || entry.kind == BindingKind::Param ==> j.ty
                == TyId::Error && j.ic == ic.error(
                expr.span,
                (Message::NotInEnvironment { name: entry.name }),
            )
        }),
{
    reveal(synth_expr_rule);
    reveal(path_value);
}

/// A path to a variant is a value of the sum type where the variant carries
/// nothing; one that carries something, or that the type does not have, is
/// reported.
pub proof fn law_variant_value(
    env: TyEnv,
    expr: HirExpr,
    path: HirPath,
    id: BindingId,
    entry: BindingEntry,
    leaf: Symbol,
    ic: Ic,
)
    requires
        stands_for(env, expr, path, id, entry, ic),
        !ic.comptime,
        entry.kind == BindingKind::TypeDecl,
        path.qualified_leaf() == Some(leaf),
        match ic.ty_cx.layout(id) {
            Some(info) => info.kind is Sum,
            None => false,
        },
    ensures
        ({
            let j = synth_expr_rule(env, expr, ic);
            let payload = ic.ty_cx.layout(id)->0.variant_payload(leaf);
            &&& j.env == env
            &&& payload == Some(VariantPayloadInfo::Unit) ==> j.ty == ic.handle(TyKind::Nominal(id))
                && j.ic == ic.stored(TyKind::Nominal(id))
            &&& payload != Some(VariantPayloadInfo::Unit) ==> j.ty == TyId::Error
            &&& payload is None ==> j.ic == ic.error(
                expr.span,
                (Message::NoSuchVariant { variant: leaf, ty_name: entry.name }),
            )
            &&& payload is Some && payload != Some(VariantPayloadInfo::Unit) ==> j.ic == ic.error(
                expr.span,
                (Message::VariantNeedsArguments { ty_name: entry.name, variant: leaf }),
            )
        }),
{
    reveal(synth_expr_rule);
    reveal(path_value);
}

/// A name that nothing binds is reported.
pub proof fn law_unbound(env: TyEnv, expr: HirExpr, path: HirPath, name: Symbol, ic: Ic)
    requires
        expr.kind == HirExprKind::Path(path),
        path.single() == Some(name),
        env.find(name) is None,
        !ic.comptime,
        match ic.package {
            Some(package) => package.target(path.span) is None,
            None => true,
        },
    ensures
        ({
            let j = synth_expr_rule(env, expr, ic);
            &&& j.env == env
            &&& j.ty == TyId::Error
            &&& j.ic == ic.error(expr.span, (Message::CannotFindBinding { name }))
        }),
{
    reveal(synth_expr_rule);
    reveal(path_value);
}

/// In a compile-time body a type is a value of type `type`.
pub proof fn law_type_value(
    env: TyEnv,
    expr: HirExpr,
    path: HirPath,
    name: Symbol,
    ty: TyId,
    ic: Ic,
)
    requires
        expr.kind == HirExprKind::Path(path),
        path.single() == Some(name),
        env.find(name) is None,
        ic.comptime,
        match Primitive::named(ic.text(name)) {
            Some(p) => ty == TyId::Prim(p),
            None => match CapabilityType::named(ic.text(name)) {
                Some(c) => ty == TyId::Cap(c),
                None => false,
            },
        },
    ensures
        ({
            let j = synth_expr_rule(env, expr, ic);
            &&& j.env == env
            &&& j.ty == TyId::Prim(Primitive::Type)
            &&& j.ic.diags == ic.diags
            &&& j.ic.type_paths == ic.type_paths.insert(path.span, ty)
        }),
{
    reveal(synth_expr_rule);
    reveal(path_value);
}

} // verus!
