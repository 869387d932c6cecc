//! The catalogue of compile-time built-in functions.

use vstd::prelude::*;

use crate::text::same_text;

verus! {

/// A function that only the compile-time evaluator runs.
#[derive(Copy, Clone, Debug, PartialEq, Eq, Structural, Hash)]
pub enum ComptimeBuiltin {
    /// `size_of`.
    SizeOf,
    /// `align_of`.
    AlignOf,
    /// `offset_of`.
    OffsetOf,
    /// `target_has`.
    TargetHas,
    /// `field_count`.
    FieldCount,
    /// `field_name_at`.
    FieldNameAt,
    /// `field_type_at`.
    FieldTypeAt,
    /// `is_signed`.
    IsSigned,
    /// `is_unsigned`.
    IsUnsigned,
    /// `is_integer`.
    IsInteger,
    /// `is_floating`.
    IsFloating,
    /// `is_numeric`.
    IsNumeric,
    /// `is_primitive`.
    IsPrimitive,
    /// `is_sum`.
    IsSum,
    /// `is_copy`.
    IsCopy,
    /// `is_container`.
    IsContainer,
}

impl ComptimeBuiltin {
    /// Source spelling.
    pub open spec fn spelling(self) -> Seq<char> {
        match self {
            ComptimeBuiltin::SizeOf => "size_of"@,
            ComptimeBuiltin::AlignOf => "align_of"@,
            ComptimeBuiltin::OffsetOf => "offset_of"@,
            ComptimeBuiltin::TargetHas => "target_has"@,
            ComptimeBuiltin::FieldCount => "field_count"@,
            ComptimeBuiltin::FieldNameAt => "field_name_at"@,
            ComptimeBuiltin::FieldTypeAt => "field_type_at"@,
            ComptimeBuiltin::IsSigned => "is_signed"@,
            ComptimeBuiltin::IsUnsigned => "is_unsigned"@,
            ComptimeBuiltin::IsInteger => "is_integer"@,
            ComptimeBuiltin::IsFloating => "is_floating"@,
            ComptimeBuiltin::IsNumeric => "is_numeric"@,
            ComptimeBuiltin::IsPrimitive => "is_primitive"@,
            ComptimeBuiltin::IsSum => "is_sum"@,
            ComptimeBuiltin::IsCopy => "is_copy"@,
            ComptimeBuiltin::IsContainer => "is_container"@,
        }
    }

    /// Position in the catalogue.
    pub open spec fn rank(self) -> usize {
        match self {
            ComptimeBuiltin::SizeOf => 0,
            ComptimeBuiltin::AlignOf => 1,
            ComptimeBuiltin::OffsetOf => 2,
            ComptimeBuiltin::TargetHas => 3,
            ComptimeBuiltin::FieldCount => 4,
            ComptimeBuiltin::FieldNameAt => 5,
            ComptimeBuiltin::FieldTypeAt => 6,
            ComptimeBuiltin::IsSigned => 7,
            ComptimeBuiltin::IsUnsigned => 8,
            ComptimeBuiltin::IsInteger => 9,
            ComptimeBuiltin::IsFloating => 10,
            ComptimeBuiltin::IsNumeric => 11,
            ComptimeBuiltin::IsPrimitive => 12,
            ComptimeBuiltin::IsSum => 13,
            ComptimeBuiltin::IsCopy => 14,
            ComptimeBuiltin::IsContainer => 15,
        }
    }

    /// The entry of the catalogue that is spelled `text`.
    pub open spec fn named(text: Seq<char>) -> Option<ComptimeBuiltin> {
        if text == "size_of"@ {
            Some(ComptimeBuiltin::SizeOf)
        } else if text == "align_of"@ {
            Some(ComptimeBuiltin::AlignOf)
        } else if text == "offset_of"@ {
            Some(ComptimeBuiltin::OffsetOf)
        } else if text == "target_has"@ {
            Some(ComptimeBuiltin::TargetHas)
        } else if text == "field_count"@ {
            Some(ComptimeBuiltin::FieldCount)
        } else if text == "field_name_at"@ {
            Some(ComptimeBuiltin::FieldNameAt)
        } else if text == "field_type_at"@ {
            Some(ComptimeBuiltin::FieldTypeAt)
        } else if text == "is_signed"@ {
            Some(ComptimeBuiltin::IsSigned)
        } else if text == "is_unsigned"@ {
            Some(ComptimeBuiltin::IsUnsigned)
        } else if text == "is_integer"@ {
            Some(ComptimeBuiltin::IsInteger)
        } else if text == "is_floating"@ {
            Some(ComptimeBuiltin::IsFloating)
        } else if text == "is_numeric"@ {
            Some(ComptimeBuiltin::IsNumeric)
        } else if text == "is_primitive"@ {
            Some(ComptimeBuiltin::IsPrimitive)
        } else if text == "is_sum"@ {
            Some(ComptimeBuiltin::IsSum)
        } else if text == "is_copy"@ {
            Some(ComptimeBuiltin::IsCopy)
        } else if text == "is_container"@ {
            Some(ComptimeBuiltin::IsContainer)
        } else {
            None
        }
    }

    /// Source spelling.
    pub fn name(self) -> (r: &'static str)
        ensures
            r@ == self.spelling(),
    {
        match self {
            ComptimeBuiltin::SizeOf => "size_of",
            ComptimeBuiltin::AlignOf => "align_of",
            ComptimeBuiltin::OffsetOf => "offset_of",
            ComptimeBuiltin::TargetHas => "target_has",
            ComptimeBuiltin::FieldCount => "field_count",
            ComptimeBuiltin::FieldNameAt => "field_name_at",
            ComptimeBuiltin::FieldTypeAt => "field_type_at",
            ComptimeBuiltin::IsSigned => "is_signed",
            ComptimeBuiltin::IsUnsigned => "is_unsigned",
            ComptimeBuiltin::IsInteger => "is_integer",
            ComptimeBuiltin::IsFloating => "is_floating",
            ComptimeBuiltin::IsNumeric => "is_numeric",
            ComptimeBuiltin::IsPrimitive => "is_primitive",
            ComptimeBuiltin::IsSum => "is_sum",
            ComptimeBuiltin::IsCopy => "is_copy",
            ComptimeBuiltin::IsContainer => "is_container",
        }
    }

    /// Position in the catalogue.
    pub fn index(self) -> (r: usize)
        ensures
            r == self.rank(),
    {
        match self {
            ComptimeBuiltin::SizeOf => 0,
            ComptimeBuiltin::AlignOf => 1,
            ComptimeBuiltin::OffsetOf => 2,
            ComptimeBuiltin::TargetHas => 3,
            ComptimeBuiltin::FieldCount => 4,
            ComptimeBuiltin::FieldNameAt => 5,
            ComptimeBuiltin::FieldTypeAt => 6,
            ComptimeBuiltin::IsSigned => 7,
            ComptimeBuiltin::IsUnsigned => 8,
            ComptimeBuiltin::IsInteger => 9,
            ComptimeBuiltin::IsFloating => 10,
            ComptimeBuiltin::IsNumeric => 11,
            ComptimeBuiltin::IsPrimitive => 12,
            ComptimeBuiltin::IsSum => 13,
            ComptimeBuiltin::IsCopy => 14,
            ComptimeBuiltin::IsContainer => 15,
        }
    }

    /// The entry of the catalogue that is spelled `text`.
    pub fn from_name(text: &str) -> (r: Option<ComptimeBuiltin>)
        ensures
            r == ComptimeBuiltin::named(text@),
    {
        if same_text(text, "size_of") {
            Some(ComptimeBuiltin::SizeOf)
        } else if same_text(text, "align_of") {
            Some(ComptimeBuiltin::AlignOf)
        } else if same_text(text, "offset_of") {
            Some(ComptimeBuiltin::OffsetOf)
        } else if same_text(text, "target_has") {
            Some(ComptimeBuiltin::TargetHas)
        } else if same_text(text, "field_count") {
            Some(ComptimeBuiltin::FieldCount)
        } else if same_text(text, "field_name_at") {
            Some(ComptimeBuiltin::FieldNameAt)
        } else if same_text(text, "field_type_at") {
            Some(ComptimeBuiltin::FieldTypeAt)
        } else if same_text(text, "is_signed") {
            Some(ComptimeBuiltin::IsSigned)
        } else if same_text(text, "is_unsigned") {
            Some(ComptimeBuiltin::IsUnsigned)
        } else if same_text(text, "is_integer") {
            Some(ComptimeBuiltin::IsInteger)
        } else if same_text(text, "is_floating") {
            Some(ComptimeBuiltin::IsFloating)
        } else if same_text(text, "is_numeric") {
            Some(ComptimeBuiltin::IsNumeric)
        } else if same_text(text, "is_primitive") {
            Some(ComptimeBuiltin::IsPrimitive)
        } else if same_text(text, "is_sum") {
            Some(ComptimeBuiltin::IsSum)
        } else if same_text(text, "is_copy") {
            Some(ComptimeBuiltin::IsCopy)
        } else if same_text(text, "is_container") {
            Some(ComptimeBuiltin::IsContainer)
        } else {
            None
        }
    }

    /// Number of positional arguments.
    pub open spec fn argument_count(self) -> usize {
        match self {
            ComptimeBuiltin::OffsetOf | ComptimeBuiltin::FieldNameAt | ComptimeBuiltin::FieldTypeAt => 2,
            _ => 1,
        }
    }

    /// Number of positional arguments.
    pub fn arity(self) -> (r: usize)
        ensures
            r == self.argument_count(),
    {
        match self {
            ComptimeBuiltin::OffsetOf | ComptimeBuiltin::FieldNameAt | ComptimeBuiltin::FieldTypeAt => 2,
            _ => 1,
        }
    }

}

/// Each entry of the catalogue is found again under its spelling.
pub proof fn law_builtin_spelling(entry: ComptimeBuiltin)
    ensures
        ComptimeBuiltin::named(entry.spelling()) == Some(entry),
{
    reveal_strlit("size_of");
    assert("size_of"@.len() == 7);
    reveal_strlit("align_of");
    assert("align_of"@.len() == 8);
    reveal_strlit("offset_of");
    assert("offset_of"@.len() == 9);
    reveal_strlit("target_has");
    assert("target_has"@.len() == 10);
    reveal_strlit("field_count");
    assert("field_count"@.len() == 11);
    reveal_strlit("field_name_at");
    assert("field_name_at"@.len() == 13);
    reveal_strlit("field_type_at");
    assert("field_type_at"@.len() == 13);
    reveal_strlit("is_signed");
    assert("is_signed"@.len() == 9);
    reveal_strlit("is_unsigned");
    assert("is_unsigned"@.len() == 11);
    reveal_strlit("is_integer");
    assert("is_integer"@.len() == 10);
    reveal_strlit("is_floating");
    assert("is_floating"@.len() == 11);
    reveal_strlit("is_numeric");
    assert("is_numeric"@.len() == 10);
    reveal_strlit("is_primitive");
    assert("is_primitive"@.len() == 12);
    reveal_strlit("is_sum");
    assert("is_sum"@.len() == 6);
    reveal_strlit("is_copy");
    assert("is_copy"@.len() == 7);
    reveal_strlit("is_container");
    assert("is_container"@.len() == 12);
    assert("field_type_at"@[6] != "field_name_at"@[6]);
    assert("is_signed"@[0] != "offset_of"@[0]);
    assert("is_unsigned"@[0] != "field_count"@[0]);
    assert("is_integer"@[0] != "target_has"@[0]);
    assert("is_floating"@[0] != "field_count"@[0]);
    assert("is_floating"@[3] != "is_unsigned"@[3]);
    assert("is_numeric"@[0] != "target_has"@[0]);
    assert("is_numeric"@[3] != "is_integer"@[3]);
    assert("is_copy"@[0] != "size_of"@[0]);
    assert("is_container"@[3] != "is_primitive"@[3]);
}

} // verus!
