//! Laws of literals.

use vstd::prelude::*;
use vstd::arithmetic::power2::{lemma2_to64, lemma2_to64_rest, lemma_pow2_adds, pow2};

use super::cx::Ic;
use super::diverge_laws::expr_of;
use super::env::TyEnv;
use super::expr::{check_expr_rule, synth_expr_rule};
use super::lit::{fits, fits_negated};
use super::op_laws::whole;
use super::path::{bridge, literal_check};
use crate::diag::Message;
use crate::hir::HirExprKind;
use crate::prim::Primitive;
use crate::span::Span;
use crate::syntax::{IntBase, Literal};
use crate::ty::TyId;

verus! {

/// The number of bits of a type of whole numbers.
pub open spec fn bits(p: Primitive) -> nat {
    match p {
        Primitive::I8 | Primitive::U8 => 8,
        Primitive::I16 | Primitive::U16 => 16,
        Primitive::I32 | Primitive::U32 => 32,
        Primitive::I64 | Primitive::U64 | Primitive::Isize | Primitive::Usize => 64,
        Primitive::I128 | Primitive::U128 => 128,
        _ => 0,
    }
}

/// The types of whole numbers without a sign.
pub open spec fn unsigned(p: Primitive) -> bool {
    p == Primitive::U8 || p == Primitive::U16 || p == Primitive::U32 || p == Primitive::U64 || p
        == Primitive::U128 || p == Primitive::Usize
}

/// A number fits into a type of whole numbers exactly where its bits do: `n`
/// bits hold what is less than `2^n` without a sign, and what is less than
/// `2^(n - 1)` with one; negated, one more. Zero is the only negated number
/// without a sign.
pub proof fn law_fits(value: nat, p: Primitive)
    ensures
        !whole(p) ==> !fits(value, p) && !fits_negated(value, p),
        unsigned(p) ==> (fits(value, p) <==> value < pow2(bits(p))),
        unsigned(p) ==> (fits_negated(value, p) <==> value == 0),
        whole(p) && !unsigned(p) ==> (fits(value, p) <==> value < pow2((bits(p) - 1) as nat)),
        whole(p) && !unsigned(p) ==> (fits_negated(value, p) <==> value <= pow2(
            (bits(p) - 1) as nat,
        )),
{
    lemma2_to64();
    lemma2_to64_rest();
    lemma_pow2_adds(64, 64);
    lemma_pow2_adds(64, 63);
    assert(pow2(128) == 0x1_0000_0000_0000_0000_0000_0000_0000_0000) by {
        assert(0x1_0000_0000_0000_0000 * 0x1_0000_0000_0000_0000
            == 0x1_0000_0000_0000_0000_0000_0000_0000_0000int) by (nonlinear_arith);
    }
    assert(pow2(127) == 0x8000_0000_0000_0000_0000_0000_0000_0000) by {
        assert(0x1_0000_0000_0000_0000 * 0x8000_0000_0000_0000
            == 0x8000_0000_0000_0000_0000_0000_0000_0000int) by (nonlinear_arith);
    }
}

/// A literal on its own has the type of its form and changes nothing.
pub proof fn law_literal(env: TyEnv, lit: Literal, span: Span, ic: Ic)
    ensures
        ({
            let j = synth_expr_rule(env, expr_of(HirExprKind::Literal(lit), span), ic);
            &&& j.env == env
            &&& j.ic == ic
            &&& lit is Int ==> j.ty == TyId::Prim(Primitive::I64)
            &&& lit is Float ==> j.ty == TyId::Prim(Primitive::F64)
            &&& lit is Str ==> j.ty == TyId::Prim(Primitive::String)
            &&& lit is Bool ==> j.ty == TyId::Prim(Primitive::Bool)
            &&& lit is Unit ==> j.ty == TyId::Prim(Primitive::Unit)
        }),
{
    reveal(synth_expr_rule);
}

/// A whole number where a type of whole numbers is expected takes that type if
/// it fits and is reported if it does not.
pub proof fn law_literal_narrows(
    env: TyEnv,
    value: u128,
    base: IntBase,
    p: Primitive,
    span: Span,
    ic: Ic,
)
    requires
        whole(p),
    ensures
        ({
            let lit = Literal::Int { value, base };
            let j = check_expr_rule(
                env,
                expr_of(HirExprKind::Literal(lit), span),
                TyId::Prim(p),
                ic,
            );
            let room = pow2(
                if unsigned(p) {
                    bits(p)
                } else {
                    (bits(p) - 1) as nat
                },
            );
            &&& j.env == env
            &&& value < room ==> j.ty == TyId::Prim(p) && j.ic == ic
            &&& value >= room ==> j.ty == TyId::Error && j.ic == ic.error(
                span,
                (Message::LiteralTooLarge { value, prim: p }),
            )
        }),
{
    law_fits(value as nat, p);
    reveal(check_expr_rule);
    reveal(literal_check);
}

/// A whole number where a known type without numbers is expected is reported.
pub proof fn law_literal_mismatch(
    env: TyEnv,
    value: u128,
    base: IntBase,
    p: Primitive,
    span: Span,
    ic: Ic,
)
    requires
        !whole(p),
    ensures
        ({
            let lit = Literal::Int { value, base };
            let j = check_expr_rule(
                env,
                expr_of(HirExprKind::Literal(lit), span),
                TyId::Prim(p),
                ic,
            );
            j.ty == TyId::Error && j.env == env && j.ic == ic.error(
                span,
                Message::TypeMismatch {
                    expected: TyId::Prim(p),
                    found: TyId::Prim(Primitive::I64),
                },
            )
        }),
{
    reveal(check_expr_rule);
    reveal(literal_check);
    reveal(bridge);
}

} // verus!
