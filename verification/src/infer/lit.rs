//! Ranges of integer literals.

use vstd::prelude::*;

use crate::prim::Primitive;

verus! {

/// Greatest value of an integer type; pointer-sized types count as 64 bits
/// wide.
pub open spec fn magnitude_limit(prim: Primitive) -> Option<nat> {
    match prim {
        Primitive::I8 => Some(0x7f),
        Primitive::I16 => Some(0x7fff),
        Primitive::I32 => Some(0x7fff_ffff),
        Primitive::I64 | Primitive::Isize => Some(0x7fff_ffff_ffff_ffff),
        Primitive::I128 => Some(0x7fff_ffff_ffff_ffff_ffff_ffff_ffff_ffff),
        Primitive::U8 => Some(0xff),
        Primitive::U16 => Some(0xffff),
        Primitive::U32 => Some(0xffff_ffff),
        Primitive::U64 | Primitive::Usize => Some(0xffff_ffff_ffff_ffff),
        Primitive::U128 => Some(0xffff_ffff_ffff_ffff_ffff_ffff_ffff_ffff),
        _ => None,
    }
}

/// Whether the integer type has negative values.
pub open spec fn signed(prim: Primitive) -> bool {
    match prim {
        Primitive::I8
        | Primitive::I16
        | Primitive::I32
        | Primitive::I64
        | Primitive::I128
        | Primitive::Isize => true,
        _ => false,
    }
}

/// Whether `value` is a value of the integer type `prim`.
pub open spec fn fits(value: nat, prim: Primitive) -> bool {
    match magnitude_limit(prim) {
        Some(limit) => value <= limit,
        None => false,
    }
}

/// Whether `-value` is a value of the integer type `prim`: a signed type
/// reaches one further down than up, an unsigned one holds only zero.
pub open spec fn fits_negated(value: nat, prim: Primitive) -> bool {
    match magnitude_limit(prim) {
        Some(limit) => if signed(prim) {
            value <= limit + 1
        } else {
            value == 0
        },
        None => false,
    }
}

/// Whether `value` is a value of `prim`; no value fits a type that is not an
/// integer type.
pub fn fits_in_primitive(value: u128, prim: Primitive) -> (r: bool)
    ensures
        r == fits(value as nat, prim),
{
    match prim {
        Primitive::I8 => value <= i8::MAX as u128,
        Primitive::I16 => value <= i16::MAX as u128,
        Primitive::I32 => value <= i32::MAX as u128,
        Primitive::I64 => value <= i64::MAX as u128,
        Primitive::I128 => value <= i128::MAX as u128,
        Primitive::Isize => value <= i64::MAX as u128,
        Primitive::U8 => value <= u8::MAX as u128,
        Primitive::U16 => value <= u16::MAX as u128,
        Primitive::U32 => value <= u32::MAX as u128,
        Primitive::U64 => value <= u64::MAX as u128,
        Primitive::U128 => true,
        Primitive::Usize => value <= u64::MAX as u128,
        _ => false,
    }
}

/// Whether `-value` is a value of `prim`.
pub fn fits_in_primitive_negated(value: u128, prim: Primitive) -> (r: bool)
    ensures
        r == fits_negated(value as nat, prim),
{
    match prim {
        Primitive::I8 => value <= i8::MAX as u128 + 1,
        Primitive::I16 => value <= i16::MAX as u128 + 1,
        Primitive::I32 => value <= i32::MAX as u128 + 1,
        Primitive::I64 => value <= i64::MAX as u128 + 1,
        Primitive::I128 => value <= i128::MAX as u128 + 1,
        Primitive::Isize => value <= i64::MAX as u128 + 1,
        Primitive::U8
        | Primitive::U16
        | Primitive::U32
        | Primitive::U64
        | Primitive::U128
        | Primitive::Usize => value == 0,
        _ => false,
    }
}

/// A literal that fits a signed type fits it negated too; the converse fails
/// for exactly one value, the magnitude of the least value of the type.
pub proof fn law_negated_range(value: nat, prim: Primitive)
    requires
        signed(prim),
    ensures
        fits(value, prim) ==> fits_negated(value, prim),
        (fits_negated(value, prim) && !fits(value, prim)) <==> value == magnitude_limit(prim)->0 + 1,
{
}

/// Exactly the integer types hold integer literals, and every one holds zero.
pub proof fn law_integer_types(value: nat, prim: Primitive)
    ensures
        fits(value, prim) ==> prim.integer_kind(),
        fits_negated(value, prim) ==> prim.integer_kind(),
        fits(0, prim) == prim.integer_kind(),
        fits_negated(0, prim) == prim.integer_kind(),
{
}

} // verus!
