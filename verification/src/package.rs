//! A package whose names have been resolved.

use vstd::prelude::*;

use crate::cx::{find_sig, sig_for, SigEntry};
use crate::hir::HirBlock;
use crate::intern::Symbol;
use crate::list::List;
use crate::sig::FnSig;
use crate::span::Span;
use crate::ty::{BindingId, ModuleId};

verus! {

/// What a declared name stands for.
#[derive(Copy, Clone, Debug, PartialEq, Eq, Structural)]
pub enum BindingKind {
    /// A function.
    Function,
    /// A type.
    TypeDecl,
    /// A generic declaration.
    Spec,
    /// An instance of a generic declaration.
    SpecInvocation,
    /// An imported module.
    ImportLeaf,
    /// A constant.
    Const,
    /// A parameter.
    Param,
    /// A local.
    Local,
}

/// A declared name.
#[derive(Copy, Clone, Debug, PartialEq, Eq, Structural)]
pub struct BindingEntry {
    /// The name.
    pub name: Symbol,
    /// What it stands for.
    pub kind: BindingKind,
}

/// What a path was resolved to.
#[derive(Copy, Clone, Debug, PartialEq, Eq, Structural)]
pub enum Resolved {
    /// A declared item.
    Binding(BindingId),
    /// A module.
    Module(ModuleId),
    /// Nothing; the failure was already reported.
    Error,
}

/// The resolution recorded for one path.
#[derive(Copy, Clone, Debug, PartialEq, Eq, Structural)]
pub struct Resolution {
    /// Where the path is written.
    pub span: Span,
    /// What it was resolved to.
    pub target: Resolved,
}

/// A name that a module declares, with its position among the bindings.
#[derive(Copy, Clone, Debug, PartialEq, Eq, Structural)]
pub struct ItemEntry {
    /// The name.
    pub name: Symbol,
    /// Position among the module's bindings.
    pub index: usize,
}

/// A function of a module.
#[derive(Debug)]
pub struct FnDecl {
    /// Its name.
    pub name: Symbol,
    /// Whether it has a termination measure.
    pub has_decreases: bool,
    /// Its body, where it has one.
    pub body: Option<HirBlock>,
}

/// A module.
#[derive(Debug)]
pub struct Module {
    /// Its qualified name.
    pub path: List<Symbol>,
    /// Its bindings.
    pub bindings: List<BindingEntry>,
    /// Its item names.
    pub items: List<ItemEntry>,
    /// Its functions.
    pub functions: List<FnDecl>,
}

/// A package whose names have been resolved.
#[derive(Debug)]
pub struct ResolvedPackage {
    /// The modules; a module's handle is its position.
    pub modules: List<Module>,
    /// The resolved paths.
    pub resolutions: List<Resolution>,
}

/// The resolution recorded first for `span`.
pub open spec fn resolution_at(list: List<Resolution>, span: Span) -> Option<Resolved>
    decreases list,
{
    match list {
        List::Nil => None,
        List::Cons(r, rest) => if r.span == span {
            Some(r.target)
        } else {
            resolution_at(*rest, span)
        },
    }
}

fn find_resolution(list: &List<Resolution>, span: Span) -> (r: Option<Resolved>)
    ensures
        r == resolution_at(*list, span),
    decreases list,
{
    match list {
        List::Nil => None,
        List::Cons(head, rest) => if head.span == span {
            Some(head.target)
        } else {
            find_resolution(rest, span)
        },
    }
}

/// The position of the first item named `name`.
pub open spec fn item_index(items: List<ItemEntry>, name: Symbol) -> Option<usize>
    decreases items,
{
    match items {
        List::Nil => None,
        List::Cons(item, rest) => if item.name == name {
            Some(item.index)
        } else {
            item_index(*rest, name)
        },
    }
}

fn find_item(items: &List<ItemEntry>, name: Symbol) -> (r: Option<usize>)
    ensures
        r == item_index(*items, name),
    decreases items,
{
    match items {
        List::Nil => None,
        List::Cons(item, rest) => if item.name == name {
            Some(item.index)
        } else {
            find_item(rest, name)
        },
    }
}

/// Whether two qualified names are equal.
pub fn same_path(a: &List<Symbol>, b: &List<Symbol>) -> (r: bool)
    ensures
        r == (*a == *b),
    decreases a,
{
    match (a, b) {
        (List::Nil, List::Nil) => true,
        (List::Cons(x, s), List::Cons(y, t)) => **x == **y && same_path(s, t),
        _ => false,
    }
}

/// The item `name` of the first module named `path`.
pub open spec fn item_in(
    modules: List<Module>,
    at: usize,
    path: List<Symbol>,
    name: Symbol,
) -> Option<BindingId>
    decreases modules,
{
    match modules {
        List::Nil => None,
        List::Cons(m, rest) => if m.path == path {
            match item_index(m.items, name) {
                Some(index) => Some(BindingId { module: ModuleId(at), index }),
                None => None,
            }
        } else if at == usize::MAX {
            None
        } else {
            item_in(*rest, (at + 1) as usize, path, name)
        },
    }
}

fn find_item_in(modules: &List<Module>, at: usize, path: &List<Symbol>, name: Symbol) -> (r: Option<
    BindingId,
>)
    ensures
        r == item_in(*modules, at, *path, name),
    decreases modules,
{
    match modules {
        List::Nil => None,
        List::Cons(m, rest) => if same_path(&m.path, path) {
            match find_item(&m.items, name) {
                Some(index) => Some(BindingId { module: ModuleId(at), index }),
                None => None,
            }
        } else if at == usize::MAX {
            None
        } else {
            find_item_in(rest, at + 1, path, name)
        },
    }
}

impl Module {
    /// The position of the item named `name`.
    pub fn lookup(&self, name: Symbol) -> (r: Option<usize>)
        ensures
            r == item_index(self.items, name),
    {
        find_item(&self.items, name)
    }
}

impl ResolvedPackage {
    /// The declared name behind `id`.
    pub open spec fn entry(self, id: BindingId) -> Option<BindingEntry> {
        match self.modules.nth(id.module.0 as nat) {
            Some(m) => m.bindings.nth(id.index as nat),
            None => None,
        }
    }

    /// What the path at `span` was resolved to. A resolution to an item that
    /// the package does not hold counts as a reported failure.
    pub open spec fn target(self, span: Span) -> Option<(Resolved, Option<BindingEntry>)> {
        match resolution_at(self.resolutions, span) {
            None => None,
            Some(Resolved::Binding(id)) => match self.entry(id) {
                Some(entry) => Some((Resolved::Binding(id), Some(entry))),
                None => Some((Resolved::Error, None)),
            },
            Some(other) => Some((other, None)),
        }
    }

    /// The declared name behind `id`.
    pub fn binding(&self, id: BindingId) -> (r: Option<BindingEntry>)
        ensures
            r == self.entry(id),
    {
        match self.modules.get_ref(id.module.0) {
            Some(m) => m.bindings.get(id.index),
            None => None,
        }
    }

    /// What the path at `span` was resolved to, with the entry of an item.
    pub fn lookup_path(&self, span: Span) -> (r: Option<(Resolved, Option<BindingEntry>)>)
        ensures
            r == self.target(span),
    {
        match find_resolution(&self.resolutions, span) {
            None => None,
            Some(Resolved::Binding(id)) => match self.binding(id) {
                Some(entry) => Some((Resolved::Binding(id), Some(entry))),
                None => Some((Resolved::Error, None)),
            },
            Some(other) => Some((other, None)),
        }
    }

    /// The item `name` of the module named `path`.
    pub fn lookup_item(&self, path: &List<Symbol>, name: Symbol) -> (r: Option<BindingId>)
        ensures
            r == item_in(self.modules, 0, *path, name),
    {
        find_item_in(&self.modules, 0, path, name)
    }
}

/// A specialised function under its mangled name.
#[derive(Copy, Clone, Debug, PartialEq, Eq, Structural)]
pub struct MonoName {
    /// The mangled name.
    pub name: Symbol,
    /// The function.
    pub id: BindingId,
}

/// Functions that specialisation made.
#[derive(Debug)]
pub struct MonoFns {
    /// By mangled name.
    pub by_name: List<MonoName>,
    /// Their signatures.
    pub sigs: List<SigEntry>,
}

/// The function recorded first under `name`.
pub open spec fn mono_named(names: List<MonoName>, name: Symbol) -> Option<BindingId>
    decreases names,
{
    match names {
        List::Nil => None,
        List::Cons(m, rest) => if m.name == name {
            Some(m.id)
        } else {
            mono_named(*rest, name)
        },
    }
}

fn find_mono(names: &List<MonoName>, name: Symbol) -> (r: Option<BindingId>)
    ensures
        r == mono_named(*names, name),
    decreases names,
{
    match names {
        List::Nil => None,
        List::Cons(m, rest) => if m.name == name {
            Some(m.id)
        } else {
            find_mono(rest, name)
        },
    }
}

impl MonoFns {
    /// The function under a mangled name.
    pub fn lookup(&self, name: Symbol) -> (r: Option<BindingId>)
        ensures
            r == mono_named(self.by_name, name),
    {
        find_mono(&self.by_name, name)
    }

    /// The signature of a specialised function.
    pub fn sig(&self, id: BindingId) -> (r: Option<FnSig>)
        ensures
            r == sig_for(self.sigs, id),
    {
        find_sig(&self.sigs, id)
    }
}

} // verus!
