//! The typed form of function bodies.
//!
//! Inference walks these trees and writes the type of every node into its
//! `ty` field.

use vstd::prelude::*;

use crate::effect::EffectRow;
use crate::intern::Symbol;
use crate::list::List;
use crate::sig::ParamMode;
use crate::span::Span;
use crate::syntax::{AssignOp, BinOp, BindingMode, CastMode, Ident, Literal, RangeKind, ScopeKind, UnOp};
use crate::ty::TyId;

verus! {

/// A possibly qualified name.
#[derive(Debug)]
pub struct HirPath {
    /// Where it is written.
    pub span: Span,
    /// Its segments in order.
    pub segments: List<Ident>,
}

impl HirPath {
    /// The name of a path of one segment.
    pub open spec fn single(self) -> Option<Symbol> {
        match self.segments {
            List::Cons(head, tail) => match *tail {
                List::Nil => Some(head.name),
                _ => None,
            },
            List::Nil => None,
        }
    }

    /// The names of a path of two segments.
    pub open spec fn pair(self) -> Option<(Symbol, Symbol)> {
        match self.segments {
            List::Cons(head, tail) => match *tail {
                List::Cons(leaf, rest) => match *rest {
                    List::Nil => Some((head.name, leaf.name)),
                    _ => None,
                },
                List::Nil => None,
            },
            List::Nil => None,
        }
    }

    /// The name of the last segment of a path of at least two.
    pub open spec fn qualified_leaf(self) -> Option<Symbol> {
        match self.segments {
            List::Cons(_, tail) => match tail.last_of() {
                Some(leaf) => Some(leaf.name),
                None => None,
            },
            List::Nil => None,
        }
    }

    /// The name of a path of one segment.
    pub fn as_single(&self) -> (r: Option<Symbol>)
        ensures
            r == self.single(),
    {
        match &self.segments {
            List::Cons(head, tail) => match &**tail {
                List::Nil => Some(head.name),
                List::Cons(_, _) => None,
            },
            List::Nil => None,
        }
    }

    /// The names of a path of two segments.
    pub fn as_pair(&self) -> (r: Option<(Symbol, Symbol)>)
        ensures
            r == self.pair(),
    {
        match &self.segments {
            List::Cons(head, tail) => match &**tail {
                List::Cons(leaf, rest) => match &**rest {
                    List::Nil => Some((head.name, leaf.name)),
                    List::Cons(_, _) => None,
                },
                List::Nil => None,
            },
            List::Nil => None,
        }
    }

    /// The name of the last segment of a path of at least two.
    pub fn as_qualified_leaf(&self) -> (r: Option<Symbol>)
        ensures
            r == self.qualified_leaf(),
    {
        match &self.segments {
            List::Cons(_, tail) => match tail.last() {
                Some(leaf) => Some(leaf.name),
                None => None,
            },
            List::Nil => None,
        }
    }

    /// A copy of the path.
    pub fn dup(&self) -> (r: HirPath)
        ensures
            r == *self,
    {
        HirPath { span: self.span, segments: self.segments.dup() }
    }
}

/// An expression.
#[derive(Debug)]
pub struct HirExpr {
    /// Where it is written.
    pub span: Span,
    /// What it is.
    pub kind: HirExprKind,
    /// Its type, once inferred.
    pub ty: TyId,
}

/// The forms of an expression.
#[derive(Debug)]
pub enum HirExprKind {
    /// A literal.
    Literal(Literal),
    /// A string with interpolated slots.
    FString(List<HirFStringPart>),
    /// A name.
    Path(HirPath),
    /// `{ ... }`
    Block(Box<HirBlock>),
    /// `lhs op rhs`
    Binary(Box<HirBinary>),
    /// `op operand`
    Unary(Box<HirUnary>),
    /// `if cond { ... } else ...`
    If(Box<HirIf>),
    /// `match scrutinee { ... }`
    Match(Box<HirMatch>),
    /// `loop { ... }`
    Loop(Box<HirLoop>),
    /// `for pat in iter { ... }`
    For(Box<HirFor>),
    /// `return value`
    Return(Option<Box<HirExpr>>),
    /// `break value`
    Break(Option<Box<HirExpr>>),
    /// `continue`
    Continue,
    /// `raise value`
    Raise(Box<HirExpr>),
    /// `panic message`
    Panic(Box<HirExpr>),
    /// `operand?`
    Try(Box<HirExpr>),
    /// `(a, b)`
    Tuple(List<HirExpr>),
    /// `[a, b]`
    Array(List<HirExpr>),
    /// `operand as T`
    Cast(Box<HirCast>),
    /// `receiver[index]`
    Index(Box<HirIndex>),
    /// `lo..<hi`
    Range(Box<HirRange>),
    /// `comptime expr`
    Comptime(Box<HirExpr>),
    /// `comptime { ... }`
    ComptimeBlock(Box<HirBlock>),
    /// `callee(args)`
    Call(Box<HirCall>),
    /// `receiver.name`
    Field(Box<HirField>),
    /// `receiver.0`
    TupleIndex(Box<HirTupleIndex>),
    /// `Path { name: value }`
    StructLit(Box<HirStructLit>),
    /// `handle effect: T as binder -> recovery { ... }`
    Handle(Box<HirHandle>),
    /// `receiver.name(args)`
    MethodCall(Box<HirMethodCall>),
    /// A closure literal.
    Closure(Box<HirClosure>),
    /// `scope(kind) name { ... }`
    Scope(Box<HirScope>),
    /// `scope.spawn { ... }`
    Spawn(Box<HirSpawn>),
    /// `task.await`
    Await(Box<HirExpr>),
    /// An expression that could not be built.
    Error,
}

/// A piece of an interpolated string.
#[derive(Debug)]
pub enum HirFStringPart {
    /// Literal text.
    Text(Symbol),
    /// An interpolated expression.
    Slot(HirExpr),
}

/// A block.
#[derive(Debug)]
pub struct HirBlock {
    /// Where it is written.
    pub span: Span,
    /// The statements in order.
    pub stmts: List<HirStmt>,
    /// The expression whose value the block has.
    pub trailing: Option<HirExpr>,
    /// Its type, once inferred.
    pub ty: TyId,
}

/// A statement.
#[derive(Debug)]
pub struct HirStmt {
    /// Where it is written.
    pub span: Span,
    /// What it is.
    pub kind: HirStmtKind,
}

/// The forms of a statement.
#[derive(Debug)]
pub enum HirStmtKind {
    /// A declaration of locals.
    Let(HirLet),
    /// An assignment.
    Assign(HirAssign),
    /// An expression.
    Expr(HirExpr),
}

/// `let pat: ty = init`
#[derive(Debug)]
pub struct HirLet {
    /// The annotated type.
    pub ty: Option<TyId>,
    /// The initialiser.
    pub init: Option<HirExpr>,
    /// The pattern.
    pub pat: HirPat,
    /// How the locals are declared.
    pub mutability: BindingMode,
}

/// `target op rhs`
#[derive(Debug)]
pub struct HirAssign {
    /// The place.
    pub target: HirExpr,
    /// The operator.
    pub op: AssignOp,
    /// The value.
    pub rhs: HirExpr,
}

/// A binary operation.
#[derive(Debug)]
pub struct HirBinary {
    /// The operator.
    pub op: BinOp,
    /// Left operand.
    pub lhs: HirExpr,
    /// Right operand.
    pub rhs: HirExpr,
}

/// A unary operation.
#[derive(Debug)]
pub struct HirUnary {
    /// The operator.
    pub op: UnOp,
    /// The operand.
    pub operand: HirExpr,
}

/// A conditional.
#[derive(Debug)]
pub struct HirIf {
    /// The condition.
    pub cond: HirExpr,
    /// The branch for `true`.
    pub then_block: HirBlock,
    /// The branch for `false`.
    pub else_branch: Option<HirExpr>,
}

/// A match.
#[derive(Debug)]
pub struct HirMatch {
    /// The value matched on.
    pub scrutinee: HirExpr,
    /// The arms in order.
    pub arms: List<HirMatchArm>,
}

/// An arm of a match.
#[derive(Debug)]
pub struct HirMatchArm {
    /// Where it is written.
    pub span: Span,
    /// The pattern.
    pub pat: HirPat,
    /// The guard.
    pub guard: Option<HirExpr>,
    /// The value.
    pub body: HirExpr,
}

/// A loop.
#[derive(Debug)]
pub struct HirLoop {
    /// The body.
    pub body: HirBlock,
    /// The termination measure.
    pub decreases: Option<HirExpr>,
}

/// A loop over the elements of a slice or range.
#[derive(Debug)]
pub struct HirFor {
    /// The element pattern.
    pub pat: HirPat,
    /// What is walked.
    pub iter: HirExpr,
    /// The body.
    pub body: HirBlock,
}

/// A cast.
#[derive(Debug)]
pub struct HirCast {
    /// The value.
    pub operand: HirExpr,
    /// The target type.
    pub target_ty: TyId,
    /// What happens where the value does not fit.
    pub mode: CastMode,
}

/// An index operation.
#[derive(Debug)]
pub struct HirIndex {
    /// What is indexed.
    pub receiver: HirExpr,
    /// The index or range.
    pub index: HirExpr,
}

/// A range.
#[derive(Debug)]
pub struct HirRange {
    /// Lower endpoint.
    pub lo: Option<HirExpr>,
    /// Upper endpoint.
    pub hi: Option<HirExpr>,
    /// Whether the upper endpoint belongs to it.
    pub kind: RangeKind,
}

/// Mode keyword in front of an argument.
#[derive(Copy, Clone, Debug, PartialEq, Eq, Structural)]
pub enum HirCallMode {
    /// `mutable`
    Mutable,
    /// `take`
    Take,
    /// `init`
    Init,
}

impl HirCallMode {
    /// The keyword.
    pub open spec fn word(self) -> Seq<char> {
        match self {
            HirCallMode::Mutable => "mutable"@,
            HirCallMode::Take => "take"@,
            HirCallMode::Init => "init"@,
        }
    }

    /// The keyword.
    pub fn keyword(self) -> (r: &'static str)
        ensures
            r@ == self.word(),
    {
        match self {
            HirCallMode::Mutable => "mutable",
            HirCallMode::Take => "take",
            HirCallMode::Init => "init",
        }
    }
}

/// An argument.
#[derive(Debug)]
pub struct HirCallArg {
    /// Where it is written.
    pub span: Span,
    /// The mode keyword.
    pub mode: Option<HirCallMode>,
    /// The field name of a named argument.
    pub name: Option<Ident>,
    /// The value.
    pub expr: HirExpr,
}

/// A call.
#[derive(Debug)]
pub struct HirCall {
    /// What is called.
    pub callee: HirExpr,
    /// The arguments in order.
    pub args: List<HirCallArg>,
}

/// A field access.
#[derive(Debug)]
pub struct HirField {
    /// The value.
    pub receiver: HirExpr,
    /// The field.
    pub name: Ident,
}

/// A positional access.
#[derive(Debug)]
pub struct HirTupleIndex {
    /// The value.
    pub receiver: HirExpr,
    /// The position.
    pub index: u32,
}

/// A field of a struct literal.
#[derive(Debug)]
pub struct HirStructLitField {
    /// Where it is written.
    pub span: Span,
    /// The field.
    pub name: Ident,
    /// The mode keyword in front of the value.
    pub mode: Option<HirCallMode>,
    /// The value.
    pub value: HirExpr,
}

/// A struct literal.
#[derive(Debug)]
pub struct HirStructLit {
    /// The type.
    pub path: HirPath,
    /// The fields in order.
    pub fields: List<HirStructLitField>,
}

/// An error handler.
#[derive(Debug)]
pub struct HirHandle {
    /// The handled effect.
    pub effect: Ident,
    /// The type of the handled error.
    pub handled_ty: TyId,
    /// Name of the caught error inside `recovery`.
    pub binder: Option<Ident>,
    /// The value where an error was caught.
    pub recovery: HirExpr,
    /// The guarded block.
    pub body: HirBlock,
}

/// A method call.
#[derive(Debug)]
pub struct HirMethodCall {
    /// The receiver.
    pub receiver: HirExpr,
    /// The method.
    pub name: Ident,
    /// The other arguments in order.
    pub args: List<HirCallArg>,
}

/// A parameter of a closure.
#[derive(Copy, Clone, Debug, PartialEq, Eq, Structural)]
pub struct HirClosureParam {
    /// Its name.
    pub name: Ident,
    /// Its mode.
    pub mode: ParamMode,
    /// Its type.
    pub ty: TyId,
}

/// A closure.
#[derive(Debug)]
pub struct HirClosure {
    /// Where it is written.
    pub span: Span,
    /// The parameters in order.
    pub params: List<HirClosureParam>,
    /// The captured names.
    pub captures: List<Ident>,
    /// The return type.
    pub ret_ty: TyId,
    /// The declared effect row.
    pub effects: EffectRow,
    /// The body.
    pub body: HirBlock,
}

/// A scope region.
#[derive(Debug)]
pub struct HirScope {
    /// Its kind.
    pub kind: ScopeKind,
    /// Name of the scope inside the body.
    pub name: Option<Ident>,
    /// The body.
    pub body: HirBlock,
}

/// A value moved into a spawned task.
#[derive(Debug)]
pub struct HirSpawnArg {
    /// Where it is written.
    pub span: Span,
    /// Its name inside the task.
    pub name: Ident,
    /// Its type.
    pub ty: Option<TyId>,
    /// The value.
    pub init: HirExpr,
}

/// A spawned task.
#[derive(Debug)]
pub struct HirSpawn {
    /// Where it is written.
    pub span: Span,
    /// The values moved in.
    pub args: List<HirSpawnArg>,
    /// The body.
    pub body: HirBlock,
}

/// A pattern.
#[derive(Debug)]
pub struct HirPat {
    /// Where it is written.
    pub span: Span,
    /// What it is.
    pub kind: HirPatKind,
    /// The type that it is matched against, once inferred.
    pub ty: TyId,
}

/// The forms of a pattern.
#[derive(Debug)]
pub enum HirPatKind {
    /// `_`
    Wildcard,
    /// A name.
    Binding(Ident),
    /// A literal.
    Literal(Literal),
    /// `(a, b)`
    Tuple(List<HirPat>),
    /// `Type.variant(...)`
    Variant(Box<HirVariantPat>),
    /// `Type { ... }`
    Struct(Box<HirStructPat>),
    /// `pat if cond`
    Guard(Box<HirGuardPat>),
    /// `lo..=hi`
    Range(Literal, Literal),
    /// `name @ pat`
    AtBinding(Box<HirAtPat>),
    /// `[a, ..rest, b]`
    Slice(Box<HirSlicePat>),
    /// A pattern that could not be built.
    Error,
}

/// A pattern over one variant of a sum type.
#[derive(Debug)]
pub struct HirVariantPat {
    /// The variant.
    pub path: HirPath,
    /// The sub-patterns.
    pub payload: HirVariantPatPayload,
}

/// Sub-patterns of a variant pattern.
#[derive(Debug)]
pub enum HirVariantPatPayload {
    /// No sub-patterns.
    Unit,
    /// By position.
    Tuple(List<HirPat>),
    /// By name.
    Struct(List<HirStructPatField>),
}

/// A field of a struct pattern.
#[derive(Debug)]
pub struct HirStructPatField {
    /// Where it is written.
    pub span: Span,
    /// The field.
    pub name: Ident,
    /// The sub-pattern.
    pub pat: HirPat,
}

/// A pattern over a product type.
#[derive(Debug)]
pub struct HirStructPat {
    /// The type.
    pub path: HirPath,
    /// The fields in order.
    pub fields: List<HirStructPatField>,
    /// Whether `..` stands for the fields left out.
    pub rest: bool,
}

/// A guarded pattern.
#[derive(Debug)]
pub struct HirGuardPat {
    /// The pattern.
    pub pat: HirPat,
    /// The guard.
    pub cond: HirExpr,
}

/// A named pattern.
#[derive(Debug)]
pub struct HirAtPat {
    /// The name of the whole value.
    pub name: Ident,
    /// The pattern.
    pub inner: HirPat,
}

/// A pattern over a slice.
#[derive(Debug)]
pub struct HirSlicePat {
    /// Patterns of the first elements.
    pub prefix: List<HirPat>,
    /// The rest, and its name where it has one.
    pub rest: Option<Option<Ident>>,
    /// Patterns of the last elements.
    pub suffix: List<HirPat>,
}

} // verus!
