//! The catalogue of primitive types.

use vstd::prelude::*;

use crate::text::same_text;

verus! {

/// A built-in type.
#[derive(Copy, Clone, Debug, PartialEq, Eq, Structural, Hash)]
pub enum Primitive {
    /// `i8`.
    I8,
    /// `i16`.
    I16,
    /// `i32`.
    I32,
    /// `i64`.
    I64,
    /// `i128`.
    I128,
    /// `isize`.
    Isize,
    /// `u8`.
    U8,
    /// `u16`.
    U16,
    /// `u32`.
    U32,
    /// `u64`.
    U64,
    /// `u128`.
    U128,
    /// `usize`.
    Usize,
    /// `f32`.
    F32,
    /// `f64`.
    F64,
    /// `bool`.
    Bool,
    /// `()`.
    Unit,
    /// `never`.
    Never,
    /// `Type`.
    Type,
    /// `String`.
    String,
    /// `Codepoint`.
    Codepoint,
    /// `HeapPtr`.
    HeapPtr,
}

impl Primitive {
    /// Source spelling.
    pub open spec fn spelling(self) -> Seq<char> {
        match self {
            Primitive::I8 => "i8"@,
            Primitive::I16 => "i16"@,
            Primitive::I32 => "i32"@,
            Primitive::I64 => "i64"@,
            Primitive::I128 => "i128"@,
            Primitive::Isize => "isize"@,
            Primitive::U8 => "u8"@,
            Primitive::U16 => "u16"@,
            Primitive::U32 => "u32"@,
            Primitive::U64 => "u64"@,
            Primitive::U128 => "u128"@,
            Primitive::Usize => "usize"@,
            Primitive::F32 => "f32"@,
            Primitive::F64 => "f64"@,
            Primitive::Bool => "bool"@,
            Primitive::Unit => "()"@,
            Primitive::Never => "never"@,
            Primitive::Type => "Type"@,
            Primitive::String => "String"@,
            Primitive::Codepoint => "Codepoint"@,
            Primitive::HeapPtr => "HeapPtr"@,
        }
    }

    /// Position in the catalogue.
    pub open spec fn rank(self) -> usize {
        match self {
            Primitive::I8 => 0,
            Primitive::I16 => 1,
            Primitive::I32 => 2,
            Primitive::I64 => 3,
            Primitive::I128 => 4,
            Primitive::Isize => 5,
            Primitive::U8 => 6,
            Primitive::U16 => 7,
            Primitive::U32 => 8,
            Primitive::U64 => 9,
            Primitive::U128 => 10,
            Primitive::Usize => 11,
            Primitive::F32 => 12,
            Primitive::F64 => 13,
            Primitive::Bool => 14,
            Primitive::Unit => 15,
            Primitive::Never => 16,
            Primitive::Type => 17,
            Primitive::String => 18,
            Primitive::Codepoint => 19,
            Primitive::HeapPtr => 20,
        }
    }

    /// The entry of the catalogue that is spelled `text`.
    pub open spec fn named(text: Seq<char>) -> Option<Primitive> {
        if text == "i8"@ {
            Some(Primitive::I8)
        } else if text == "i16"@ {
            Some(Primitive::I16)
        } else if text == "i32"@ {
            Some(Primitive::I32)
        } else if text == "i64"@ {
            Some(Primitive::I64)
        } else if text == "i128"@ {
            Some(Primitive::I128)
        } else if text == "isize"@ {
            Some(Primitive::Isize)
        } else if text == "u8"@ {
            Some(Primitive::U8)
        } else if text == "u16"@ {
            Some(Primitive::U16)
        } else if text == "u32"@ {
            Some(Primitive::U32)
        } else if text == "u64"@ {
            Some(Primitive::U64)
        } else if text == "u128"@ {
            Some(Primitive::U128)
        } else if text == "usize"@ {
            Some(Primitive::Usize)
        } else if text == "f32"@ {
            Some(Primitive::F32)
        } else if text == "f64"@ {
            Some(Primitive::F64)
        } else if text == "bool"@ {
            Some(Primitive::Bool)
        } else if text == "()"@ {
            Some(Primitive::Unit)
        } else if text == "never"@ {
            Some(Primitive::Never)
        } else if text == "Type"@ {
            Some(Primitive::Type)
        } else if text == "String"@ {
            Some(Primitive::String)
        } else if text == "Codepoint"@ {
            Some(Primitive::Codepoint)
        } else if text == "HeapPtr"@ {
            Some(Primitive::HeapPtr)
        } else {
            None
        }
    }

    /// Source spelling.
    pub fn name(self) -> (r: &'static str)
        ensures
            r@ == self.spelling(),
    {
        match self {
            Primitive::I8 => "i8",
            Primitive::I16 => "i16",
            Primitive::I32 => "i32",
            Primitive::I64 => "i64",
            Primitive::I128 => "i128",
            Primitive::Isize => "isize",
            Primitive::U8 => "u8",
            Primitive::U16 => "u16",
            Primitive::U32 => "u32",
            Primitive::U64 => "u64",
            Primitive::U128 => "u128",
            Primitive::Usize => "usize",
            Primitive::F32 => "f32",
            Primitive::F64 => "f64",
            Primitive::Bool => "bool",
            Primitive::Unit => "()",
            Primitive::Never => "never",
            Primitive::Type => "Type",
            Primitive::String => "String",
            Primitive::Codepoint => "Codepoint",
            Primitive::HeapPtr => "HeapPtr",
        }
    }

    /// Position in the catalogue.
    pub fn index(self) -> (r: usize)
        ensures
            r == self.rank(),
    {
        match self {
            Primitive::I8 => 0,
            Primitive::I16 => 1,
            Primitive::I32 => 2,
            Primitive::I64 => 3,
            Primitive::I128 => 4,
            Primitive::Isize => 5,
            Primitive::U8 => 6,
            Primitive::U16 => 7,
            Primitive::U32 => 8,
            Primitive::U64 => 9,
            Primitive::U128 => 10,
            Primitive::Usize => 11,
            Primitive::F32 => 12,
            Primitive::F64 => 13,
            Primitive::Bool => 14,
            Primitive::Unit => 15,
            Primitive::Never => 16,
            Primitive::Type => 17,
            Primitive::String => 18,
            Primitive::Codepoint => 19,
            Primitive::HeapPtr => 20,
        }
    }

    /// The entry of the catalogue that is spelled `text`.
    pub fn from_name(text: &str) -> (r: Option<Primitive>)
        ensures
            r == Primitive::named(text@),
    {
        if same_text(text, "i8") {
            Some(Primitive::I8)
        } else if same_text(text, "i16") {
            Some(Primitive::I16)
        } else if same_text(text, "i32") {
            Some(Primitive::I32)
        } else if same_text(text, "i64") {
            Some(Primitive::I64)
        } else if same_text(text, "i128") {
            Some(Primitive::I128)
        } else if same_text(text, "isize") {
            Some(Primitive::Isize)
        } else if same_text(text, "u8") {
            Some(Primitive::U8)
        } else if same_text(text, "u16") {
            Some(Primitive::U16)
        } else if same_text(text, "u32") {
            Some(Primitive::U32)
        } else if same_text(text, "u64") {
            Some(Primitive::U64)
        } else if same_text(text, "u128") {
            Some(Primitive::U128)
        } else if same_text(text, "usize") {
            Some(Primitive::Usize)
        } else if same_text(text, "f32") {
            Some(Primitive::F32)
        } else if same_text(text, "f64") {
            Some(Primitive::F64)
        } else if same_text(text, "bool") {
            Some(Primitive::Bool)
        } else if same_text(text, "()") {
            Some(Primitive::Unit)
        } else if same_text(text, "never") {
            Some(Primitive::Never)
        } else if same_text(text, "Type") {
            Some(Primitive::Type)
        } else if same_text(text, "String") {
            Some(Primitive::String)
        } else if same_text(text, "Codepoint") {
            Some(Primitive::Codepoint)
        } else if same_text(text, "HeapPtr") {
            Some(Primitive::HeapPtr)
        } else {
            None
        }
    }

    /// Whether this is an integer type of either signedness.
    pub open spec fn integer_kind(self) -> bool {
        match self {
            Primitive::I8 | Primitive::I16 | Primitive::I32 | Primitive::I64 | Primitive::I128 | Primitive::Isize | Primitive::U8 | Primitive::U16 | Primitive::U32 | Primitive::U64 | Primitive::U128 | Primitive::Usize => true,
            _ => false,
        }
    }

    /// Whether this is an integer type of either signedness.
    pub fn is_integer(self) -> (r: bool)
        ensures
            r == self.integer_kind(),
    {
        match self {
            Primitive::I8 | Primitive::I16 | Primitive::I32 | Primitive::I64 | Primitive::I128 | Primitive::Isize | Primitive::U8 | Primitive::U16 | Primitive::U32 | Primitive::U64 | Primitive::U128 | Primitive::Usize => true,
            _ => false,
        }
    }

    /// Whether this is a floating-point type.
    pub open spec fn float_kind(self) -> bool {
        match self {
            Primitive::F32 | Primitive::F64 => true,
            _ => false,
        }
    }

    /// Whether this is a floating-point type.
    pub fn is_float(self) -> (r: bool)
        ensures
            r == self.float_kind(),
    {
        match self {
            Primitive::F32 | Primitive::F64 => true,
            _ => false,
        }
    }

    /// Whether this is an integer or floating-point type.
    pub open spec fn numeric_kind(self) -> bool {
        self.integer_kind() || self.float_kind()
    }

    /// Whether this is an integer or floating-point type.
    pub fn is_numeric(self) -> (r: bool)
        ensures
            r == self.numeric_kind(),
    {
        self.is_integer() || self.is_float()
    }

    /// Whether a value owns no resource: every type but `String` and `HeapPtr`.
    pub open spec fn droppable_kind(self) -> bool {
        self != Primitive::String && self != Primitive::HeapPtr
    }

    /// Whether a value owns no resource: every type but `String` and `HeapPtr`.
    pub fn is_trivially_droppable(self) -> (r: bool)
        ensures
            r == self.droppable_kind(),
    {
        match self {
            Primitive::String | Primitive::HeapPtr => false,
            _ => true,
        }
    }

}

/// Each entry of the catalogue is found again under its spelling.
pub proof fn law_primitive_spelling(entry: Primitive)
    ensures
        Primitive::named(entry.spelling()) == Some(entry),
{
    reveal_strlit("i8");
    assert("i8"@.len() == 2);
    reveal_strlit("i16");
    assert("i16"@.len() == 3);
    reveal_strlit("i32");
    assert("i32"@.len() == 3);
    reveal_strlit("i64");
    assert("i64"@.len() == 3);
    reveal_strlit("i128");
    assert("i128"@.len() == 4);
    reveal_strlit("isize");
    assert("isize"@.len() == 5);
    reveal_strlit("u8");
    assert("u8"@.len() == 2);
    reveal_strlit("u16");
    assert("u16"@.len() == 3);
    reveal_strlit("u32");
    assert("u32"@.len() == 3);
    reveal_strlit("u64");
    assert("u64"@.len() == 3);
    reveal_strlit("u128");
    assert("u128"@.len() == 4);
    reveal_strlit("usize");
    assert("usize"@.len() == 5);
    reveal_strlit("f32");
    assert("f32"@.len() == 3);
    reveal_strlit("f64");
    assert("f64"@.len() == 3);
    reveal_strlit("bool");
    assert("bool"@.len() == 4);
    reveal_strlit("()");
    assert("()"@.len() == 2);
    reveal_strlit("never");
    assert("never"@.len() == 5);
    reveal_strlit("Type");
    assert("Type"@.len() == 4);
    reveal_strlit("String");
    assert("String"@.len() == 6);
    reveal_strlit("Codepoint");
    assert("Codepoint"@.len() == 9);
    reveal_strlit("HeapPtr");
    assert("HeapPtr"@.len() == 7);
    assert("i32"@[1] != "i16"@[1]);
    assert("i64"@[1] != "i16"@[1]);
    assert("i64"@[1] != "i32"@[1]);
    assert("u8"@[0] != "i8"@[0]);
    assert("u16"@[0] != "i16"@[0]);
    assert("u16"@[0] != "i32"@[0]);
    assert("u16"@[0] != "i64"@[0]);
    assert("u32"@[0] != "i16"@[0]);
    assert("u32"@[0] != "i32"@[0]);
    assert("u32"@[0] != "i64"@[0]);
    assert("u32"@[1] != "u16"@[1]);
    assert("u64"@[0] != "i16"@[0]);
    assert("u64"@[0] != "i32"@[0]);
    assert("u64"@[0] != "i64"@[0]);
    assert("u64"@[1] != "u16"@[1]);
    assert("u64"@[1] != "u32"@[1]);
    assert("u128"@[0] != "i128"@[0]);
    assert("usize"@[0] != "isize"@[0]);
    assert("f32"@[0] != "i16"@[0]);
    assert("f32"@[0] != "i32"@[0]);
    assert("f32"@[0] != "i64"@[0]);
    assert("f32"@[0] != "u16"@[0]);
    assert("f32"@[0] != "u32"@[0]);
    assert("f32"@[0] != "u64"@[0]);
    assert("f64"@[0] != "i16"@[0]);
    assert("f64"@[0] != "i32"@[0]);
    assert("f64"@[0] != "i64"@[0]);
    assert("f64"@[0] != "u16"@[0]);
    assert("f64"@[0] != "u32"@[0]);
    assert("f64"@[0] != "u64"@[0]);
    assert("f64"@[1] != "f32"@[1]);
    assert("bool"@[0] != "i128"@[0]);
    assert("bool"@[0] != "u128"@[0]);
    assert("()"@[0] != "i8"@[0]);
    assert("()"@[0] != "u8"@[0]);
    assert("never"@[0] != "isize"@[0]);
    assert("never"@[0] != "usize"@[0]);
    assert("Type"@[0] != "i128"@[0]);
    assert("Type"@[0] != "u128"@[0]);
    assert("Type"@[0] != "bool"@[0]);
}

} // verus!
