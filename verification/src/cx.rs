//! Layouts and signatures of declared items.

use vstd::prelude::*;

use crate::intern::Symbol;
use crate::list::List;
use crate::sig::FnSig;
use crate::span::Span;
use crate::syntax::Linearity;
use crate::ty::{BindingId, TyId};

verus! {

/// A declared field.
#[derive(Copy, Clone, Debug, PartialEq, Eq, Structural)]
pub struct FieldInfo {
    /// Where it is declared.
    pub span: Span,
    /// Its name.
    pub name: Symbol,
    /// Its type.
    pub ty: TyId,
}

/// Payload of a declared variant.
#[derive(Debug)]
pub enum VariantPayloadInfo {
    /// No payload.
    Unit,
    /// Positional elements.
    Tuple(List<TyId>),
    /// Named fields.
    Struct(List<FieldInfo>),
}

impl VariantPayloadInfo {
    /// A copy of the payload.
    pub fn dup(&self) -> (r: VariantPayloadInfo)
        ensures
            r == *self,
    {
        match self {
            VariantPayloadInfo::Unit => VariantPayloadInfo::Unit,
            VariantPayloadInfo::Tuple(elems) => VariantPayloadInfo::Tuple(elems.dup()),
            VariantPayloadInfo::Struct(fields) => VariantPayloadInfo::Struct(fields.dup()),
        }
    }
}

/// A declared variant.
#[derive(Debug)]
pub struct VariantInfo {
    /// Where it is declared.
    pub span: Span,
    /// Its name.
    pub name: Symbol,
    /// Its payload.
    pub payload: VariantPayloadInfo,
}

/// Shape of a declared type.
#[derive(Debug)]
pub enum TypeDeclShape {
    /// All fields together.
    Product(List<FieldInfo>),
    /// One of the variants.
    Sum(List<VariantInfo>),
}

/// Layout of a declared type.
#[derive(Debug)]
pub struct TypeDeclInfo {
    /// Consumption discipline.
    pub linearity: Option<Linearity>,
    /// Shape.
    pub kind: TypeDeclShape,
}

/// The first field named `name`.
pub open spec fn field_named(fields: List<FieldInfo>, name: Symbol) -> Option<FieldInfo>
    decreases fields,
{
    match fields {
        List::Nil => None,
        List::Cons(f, rest) => if f.name == name {
            Some(*f)
        } else {
            field_named(*rest, name)
        },
    }
}

/// The first field named `name`.
pub fn find_field(fields: &List<FieldInfo>, name: Symbol) -> (r: Option<FieldInfo>)
    ensures
        r == field_named(*fields, name),
    decreases fields,
{
    match fields {
        List::Nil => None,
        List::Cons(f, rest) => if f.name == name {
            Some(**f)
        } else {
            find_field(rest, name)
        },
    }
}

/// The types of the fields in order.
pub open spec fn field_types(fields: List<FieldInfo>) -> List<TyId>
    decreases fields,
{
    match fields {
        List::Nil => List::Nil,
        List::Cons(f, rest) => List::Cons(Box::new(f.ty), Box::new(field_types(*rest))),
    }
}

/// The types of the fields in order.
pub fn field_tys(fields: &List<FieldInfo>) -> (r: List<TyId>)
    ensures
        r == field_types(*fields),
    decreases fields,
{
    match fields {
        List::Nil => List::Nil,
        List::Cons(f, rest) => List::cons(f.ty, field_tys(rest)),
    }
}

/// Whether `name` is an element of `names`.
pub open spec fn names_has(names: List<Symbol>, name: Symbol) -> bool
    decreases names,
{
    match names {
        List::Nil => false,
        List::Cons(head, tail) => *head == name || names_has(*tail, name),
    }
}

/// Whether `name` is an element of `names`.
pub fn has_name(names: &List<Symbol>, name: Symbol) -> (r: bool)
    ensures
        r == names_has(*names, name),
    decreases names,
{
    match names {
        List::Nil => false,
        List::Cons(head, tail) => **head == name || has_name(tail, name),
    }
}

/// The declared fields that are not given, in order: a field counts as given
/// where its name is among `given` and no field before it (`earlier`) has
/// that name.
pub open spec fn fields_missing(
    fields: List<FieldInfo>,
    given: List<Symbol>,
    earlier: List<Symbol>,
) -> List<Symbol>
    decreases fields,
{
    match fields {
        List::Nil => List::Nil,
        List::Cons(f, rest) => {
            let others = fields_missing(
                *rest,
                given,
                List::Cons(Box::new(f.name), Box::new(earlier)),
            );
            if names_has(given, f.name) && !names_has(earlier, f.name) {
                others
            } else {
                List::Cons(Box::new(f.name), Box::new(others))
            }
        },
    }
}

/// The declared fields that are not given, in order.
pub fn missing_fields(
    fields: &List<FieldInfo>,
    given: &List<Symbol>,
    earlier: &List<Symbol>,
) -> (r: List<Symbol>)
    ensures
        r == fields_missing(*fields, *given, *earlier),
    decreases fields,
{
    match fields {
        List::Nil => List::Nil,
        List::Cons(f, rest) => {
            let others = missing_fields(rest, given, &List::cons(f.name, earlier.dup()));
            if has_name(given, f.name) && !has_name(earlier, f.name) {
                others
            } else {
                List::cons(f.name, others)
            }
        },
    }
}

/// The payload of the first variant named `name`.
pub open spec fn payload_named(variants: List<VariantInfo>, name: Symbol) -> Option<
    VariantPayloadInfo,
>
    decreases variants,
{
    match variants {
        List::Nil => None,
        List::Cons(v, rest) => if v.name == name {
            Some(v.payload)
        } else {
            payload_named(*rest, name)
        },
    }
}

fn find_payload(variants: &List<VariantInfo>, name: Symbol) -> (r: Option<VariantPayloadInfo>)
    ensures
        r == payload_named(*variants, name),
    decreases variants,
{
    match variants {
        List::Nil => None,
        List::Cons(v, rest) => if v.name == name {
            Some(v.payload.dup())
        } else {
            find_payload(rest, name)
        },
    }
}

impl TypeDeclInfo {
    /// The payload of the variant named `name` of a sum.
    pub open spec fn variant_payload(self, name: Symbol) -> Option<VariantPayloadInfo> {
        match self.kind {
            TypeDeclShape::Sum(variants) => payload_named(variants, name),
            TypeDeclShape::Product(_) => None,
        }
    }

    /// The payload of the variant named `name` of a sum.
    pub fn variant(&self, name: Symbol) -> (r: Option<VariantPayloadInfo>)
        ensures
            r == self.variant_payload(name),
    {
        match &self.kind {
            TypeDeclShape::Sum(variants) => find_payload(variants, name),
            TypeDeclShape::Product(_) => None,
        }
    }
}

/// The layout recorded for one item.
#[derive(Debug)]
pub struct TypeDeclEntry {
    /// The item.
    pub id: BindingId,
    /// Its layout.
    pub info: TypeDeclInfo,
}

/// The signature recorded for one item.
#[derive(Debug)]
pub struct SigEntry {
    /// The item.
    pub id: BindingId,
    /// Its signature.
    pub sig: FnSig,
}

/// The type recorded for one constant.
#[derive(Copy, Clone, Debug, PartialEq, Eq, Structural)]
pub struct ConstEntry {
    /// The item.
    pub id: BindingId,
    /// Its type.
    pub ty: TyId,
}

/// The layout recorded first for `id`.
pub open spec fn decl_for(decls: List<TypeDeclEntry>, id: BindingId) -> Option<TypeDeclInfo>
    decreases decls,
{
    match decls {
        List::Nil => None,
        List::Cons(d, rest) => if d.id == id {
            Some(d.info)
        } else {
            decl_for(*rest, id)
        },
    }
}

fn find_decl(decls: &List<TypeDeclEntry>, id: BindingId) -> (r: Option<&TypeDeclInfo>)
    ensures
        match r {
            Some(info) => decl_for(*decls, id) == Some(*info),
            None => decl_for(*decls, id) is None,
        },
    decreases decls,
{
    match decls {
        List::Nil => None,
        List::Cons(d, rest) => if d.id == id {
            Some(&d.info)
        } else {
            find_decl(rest, id)
        },
    }
}

/// The signature recorded first for `id`.
pub open spec fn sig_for(sigs: List<SigEntry>, id: BindingId) -> Option<FnSig>
    decreases sigs,
{
    match sigs {
        List::Nil => None,
        List::Cons(s, rest) => if s.id == id {
            Some(s.sig)
        } else {
            sig_for(*rest, id)
        },
    }
}

/// The signature recorded first for `id`.
pub fn find_sig(sigs: &List<SigEntry>, id: BindingId) -> (r: Option<FnSig>)
    ensures
        r == sig_for(*sigs, id),
    decreases sigs,
{
    match sigs {
        List::Nil => None,
        List::Cons(s, rest) => if s.id == id {
            Some(s.sig.dup())
        } else {
            find_sig(rest, id)
        },
    }
}

/// The type recorded first for `id`.
pub open spec fn const_for(consts: List<ConstEntry>, id: BindingId) -> Option<TyId>
    decreases consts,
{
    match consts {
        List::Nil => None,
        List::Cons(c, rest) => if c.id == id {
            Some(c.ty)
        } else {
            const_for(*rest, id)
        },
    }
}

fn find_const(consts: &List<ConstEntry>, id: BindingId) -> (r: Option<TyId>)
    ensures
        r == const_for(*consts, id),
    decreases consts,
{
    match consts {
        List::Nil => None,
        List::Cons(c, rest) => if c.id == id {
            Some(c.ty)
        } else {
            find_const(rest, id)
        },
    }
}

/// Everything recorded about the declared items of a package.
#[derive(Debug)]
pub struct TyCx {
    /// Layouts.
    pub decls: List<TypeDeclEntry>,
    /// Signatures.
    pub sigs: List<SigEntry>,
    /// Types of constants.
    pub consts: List<ConstEntry>,
}

impl TyCx {
    /// Nothing recorded.
    pub fn new() -> (r: TyCx)
        ensures
            r == (TyCx { decls: List::Nil, sigs: List::Nil, consts: List::Nil }),
    {
        TyCx { decls: List::Nil, sigs: List::Nil, consts: List::Nil }
    }

    /// The layout of a declared type.
    pub open spec fn layout(self, id: BindingId) -> Option<TypeDeclInfo> {
        decl_for(self.decls, id)
    }

    /// The fields of a declared product type.
    pub open spec fn product_fields(self, id: BindingId) -> Option<List<FieldInfo>> {
        match self.layout(id) {
            Some(info) => match info.kind {
                TypeDeclShape::Product(fields) => Some(fields),
                TypeDeclShape::Sum(_) => None,
            },
            None => None,
        }
    }

    /// The variants of a declared sum type.
    pub open spec fn sum_variants(self, id: BindingId) -> Option<List<VariantInfo>> {
        match self.layout(id) {
            Some(info) => match info.kind {
                TypeDeclShape::Sum(variants) => Some(variants),
                TypeDeclShape::Product(_) => None,
            },
            None => None,
        }
    }

    /// The layout of a declared type.
    pub fn type_decl(&self, id: BindingId) -> (r: Option<&TypeDeclInfo>)
        ensures
            match r {
                Some(info) => self.layout(id) == Some(*info),
                None => self.layout(id) is None,
            },
    {
        find_decl(&self.decls, id)
    }

    /// The fields of a declared product type.
    pub fn product(&self, id: BindingId) -> (r: Option<&List<FieldInfo>>)
        ensures
            match r {
                Some(fields) => self.product_fields(id) == Some(*fields),
                None => self.product_fields(id) is None,
            },
    {
        match find_decl(&self.decls, id) {
            Some(info) => match &info.kind {
                TypeDeclShape::Product(fields) => Some(fields),
                TypeDeclShape::Sum(_) => None,
            },
            None => None,
        }
    }

    /// The variants of a declared sum type.
    pub fn sum(&self, id: BindingId) -> (r: Option<&List<VariantInfo>>)
        ensures
            match r {
                Some(variants) => self.sum_variants(id) == Some(*variants),
                None => self.sum_variants(id) is None,
            },
    {
        match find_decl(&self.decls, id) {
            Some(info) => match &info.kind {
                TypeDeclShape::Sum(variants) => Some(variants),
                TypeDeclShape::Product(_) => None,
            },
            None => None,
        }
    }

    /// The signature of a declared function.
    pub fn sig(&self, id: BindingId) -> (r: Option<FnSig>)
        ensures
            r == sig_for(self.sigs, id),
    {
        find_sig(&self.sigs, id)
    }

    /// The type of a declared constant.
    pub fn const_ty(&self, id: BindingId) -> (r: Option<TyId>)
        ensures
            r == const_for(self.consts, id),
    {
        find_const(&self.consts, id)
    }
}

} // verus!
