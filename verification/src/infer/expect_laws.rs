//! Laws of an expression where a type is expected, and of arguments that are
//! held against their types.

use vstd::prelude::*;

use super::call::args::arg_rule;
use super::ctrl::branch::branch_rule;
use super::cx::Ic;
use super::env::TyEnv;
use super::expr::{check_expr_rule, fstring_part_rule, synth_expr_rule, synth_fstring_rule};
use super::path::bridge;
use crate::diag::Message;
use crate::hir::{HirCallArg, HirCallMode, HirExpr, HirExprKind, HirFStringPart};
use crate::list::List;
use crate::prim::Primitive;
use crate::ty::TyId;

verus! {

/// Whether an expression hands the expected type on to its parts.
pub open spec fn hands_on(expr: HirExpr) -> bool {
    match expr.kind {
        HirExprKind::Literal(_)
        | HirExprKind::Block(_)
        | HirExprKind::Binary(_)
        | HirExprKind::Unary(_)
        | HirExprKind::If(_)
        | HirExprKind::Match(_)
        | HirExprKind::Tuple(_)
        | HirExprKind::Array(_) => true,
        _ => false,
    }
}

/// An expression that does not hand the expected type on is judged on its own:
/// its type is accepted where it is the expected one or `never`, and else
/// reported, unless one of the two is unknown.
pub proof fn law_expected(env: TyEnv, expr: HirExpr, expected: TyId, ic: Ic)
    requires
        !hands_on(expr),
    ensures
        ({
            let s = synth_expr_rule(env, expr, ic);
            let j = check_expr_rule(env, expr, expected, ic);
            let never = s.ty == TyId::Prim(Primitive::Never);
            let unknown = s.ty == TyId::Error || expected == TyId::Error;
            &&& j.env == s.env
            &&& s.ty == expected ==> j.ty == expected && j.ic == s.ic
            &&& s.ty != expected && unknown ==> j.ty == TyId::Error && j.ic == s.ic
            &&& s.ty != expected && !unknown && never ==> j.ty == expected && j.ic == s.ic
            &&& s.ty != expected && !unknown && !never ==> j.ty == TyId::Error && j.ic == s.ic.error(
                expr.span,
                (Message::TypeMismatch { expected, found: s.ty }),
            )
        }),
{
    reveal(check_expr_rule);
    reveal(synth_expr_rule);
    reveal(bridge);
}

/// An argument that is not `init` is held against the type of its parameter.
pub proof fn law_argument(env: TyEnv, arg: HirCallArg, ty: TyId, ic: Ic)
    requires
        arg.mode != Some(HirCallMode::Init),
    ensures
        ({
            let w = arg_rule(env, arg, Some(ty), ic);
            let j = check_expr_rule(env, arg.expr, ty, Ic { try_depth: 0, ..ic });
            &&& w.env == j.env
            &&& w.ic == Ic { try_depth: ic.try_depth, ..j.ic }
            &&& w.node.expr == j.node
        }),
{
    reveal(arg_rule);
    reveal(check_expr_rule);
    let b = branch_rule(env, arg.expr, Some(ty), Ic { try_depth: 0, ..ic });
}

/// A text with slots has the string type; each slot is judged in order, in
/// what the ones before it left.
pub proof fn law_text(env: TyEnv, parts: List<HirFStringPart>, ic: Ic)
    ensures
        ({
            let j = synth_fstring_rule(env, parts, ic);
            &&& j.ty == TyId::Prim(Primitive::String)
            &&& parts matches List::Cons(part, rest) ==> (*part matches HirFStringPart::Slot(e)
                ==> {
                let s = synth_expr_rule(env, e, ic);
                let others = synth_fstring_rule(s.env, *rest, s.ic);
                j.env == others.env && j.ic == others.ic
            })
            &&& parts == List::<HirFStringPart>::Nil ==> j.env == env && j.ic == ic
        }),
    decreases parts,
{
    reveal(synth_fstring_rule);
    reveal(fstring_part_rule);
    reveal(synth_expr_rule);
    match parts {
        List::Nil => {},
        List::Cons(part, rest) => {
            let p = fstring_part_rule(env, *part, ic);
            law_text(p.env, *rest, p.ic);
        },
    }
}

} // verus!
