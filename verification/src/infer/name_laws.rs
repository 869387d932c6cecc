//! Laws of names as expressions, and what other laws say of names.

use vstd::prelude::*;

use super::cx::Ic;
use super::env::TyEnv;
use super::expr::{check_expr_rule, synth_expr_rule};
use super::path::{bridge, path_value};
use crate::diag::Message;
use crate::hir::{HirExpr, HirExprKind};
use crate::intern::Symbol;
use crate::list::List;
use crate::prim::Primitive;
use crate::syntax::Ident;
use crate::ty::TyId;

verus! {

/// Whether an expression is the name `name` and nothing else.
pub open spec fn is_name(expr: HirExpr, name: Symbol) -> bool {
    match expr.kind {
        HirExprKind::Path(path) => match path.segments {
            List::Cons(head, tail) => head.name == name && *tail == List::<
                Ident,
            >::Nil,
            List::Nil => false,
        },
        _ => false,
    }
}

/// Whether `name` is bound, valid and of type `ty`.
pub open spec fn holds(env: TyEnv, name: Symbol, ty: TyId) -> bool {
    match env.find(name) {
        Some(b) => b.state is Valid && b.ty == ty,
        None => false,
    }
}

/// Reading a bound name gives its type and changes nothing where it is valid;
/// elsewhere it is reported and gives the error type.
pub proof fn law_read(env: TyEnv, expr: HirExpr, name: Symbol, ic: Ic)
    requires
        is_name(expr, name),
        env.find(name) is Some,
    ensures
        ({
            let b = env.find(name)->0;
            let j = synth_expr_rule(env, expr, ic);
            &&& j.env == env
            &&& b.state is Valid ==> j.ty == b.ty && j.ic == ic
            &&& !(b.state is Valid) ==> j.ty == TyId::Error && j.ic == ic.error(
                expr.span,
                (Message::NotReadable { name, state: b.state.word() }),
            )
            &&& j.node == HirExpr { ty: j.ty, ..expr }
        }),
{
    reveal(synth_expr_rule);
    reveal(path_value);
}

/// A valid name where a type is expected: its own type is accepted, `never` is
/// accepted anywhere, and any other type is reported.
pub proof fn law_read_checked(
    env: TyEnv,
    expr: HirExpr,
    name: Symbol,
    ty: TyId,
    expected: TyId,
    ic: Ic,
)
    requires
        is_name(expr, name),
        holds(env, name, ty),
    ensures
        ({
            let j = check_expr_rule(env, expr, expected, ic);
            &&& j.env == env
            &&& ty == expected ==> j.ty == expected && j.ic == ic
            &&& ty == TyId::Prim(Primitive::Never) && expected != TyId::Error ==> j.ty == expected
                && j.ic == ic
            &&& ty != expected && ty != TyId::Error && expected != TyId::Error && ty != TyId::Prim(
                Primitive::Never,
            ) ==> j.ty == TyId::Error && j.ic == ic.error(
                expr.span,
                (Message::TypeMismatch { expected, found: ty }),
            )
            &&& j.node == HirExpr { ty: j.ty, ..expr }
        }),
{
    law_read(env, expr, name, ic);
    reveal(synth_expr_rule);
    reveal(check_expr_rule);
    reveal(bridge);
}

} // verus!
