//! Surface-syntax atoms that the typed form carries over unchanged.

use vstd::prelude::*;

use crate::intern::Symbol;
use crate::span::Span;

verus! {

/// A name at a source location.
#[derive(Copy, Clone, Debug, PartialEq, Eq, Structural)]
pub struct Ident {
    /// The name.
    pub name: Symbol,
    /// Where it is written.
    pub span: Span,
}

/// Base in which an integer literal is written.
#[derive(Copy, Clone, Debug, PartialEq, Eq, Structural)]
pub enum IntBase {
    /// Base two.
    Bin,
    /// Base eight.
    Oct,
    /// Base ten.
    Dec,
    /// Base sixteen.
    Hex,
}

/// A literal.
#[derive(Copy, Clone, Debug, PartialEq, Eq, Structural)]
pub enum Literal {
    /// An integer without a sign.
    Int {
        /// Its value.
        value: u128,
        /// The base it is written in.
        base: IntBase,
    },
    /// A floating-point numeral, by its text.
    Float(Symbol),
    /// A string, by its text.
    Str(Symbol),
    /// `true` or `false`.
    Bool(bool),
    /// `()`.
    Unit,
}

/// A binary operator.
#[derive(Copy, Clone, Debug, PartialEq, Eq, Structural)]
pub enum BinOp {
    /// `+`
    Add,
    /// `-`
    Sub,
    /// `*`
    Mul,
    /// `/`
    Div,
    /// `%`
    Mod,
    /// `+%`
    WrapAdd,
    /// `-%`
    WrapSub,
    /// `*%`
    WrapMul,
    /// `+?`
    CheckAdd,
    /// `-?`
    CheckSub,
    /// `*?`
    CheckMul,
    /// `%?`
    CheckMod,
    /// `+|`
    SatAdd,
    /// `-|`
    SatSub,
    /// `*|`
    SatMul,
    /// `==`
    Eq,
    /// `!=`
    Ne,
    /// `<`
    Lt,
    /// `<=`
    Le,
    /// `>`
    Gt,
    /// `>=`
    Ge,
    /// `&&`
    And,
    /// `||`
    Or,
    /// `&`
    BitAnd,
    /// `|`
    BitOr,
    /// `^`
    BitXor,
    /// `<<`
    Shl,
    /// `>>`
    Shr,
}

/// A unary operator.
#[derive(Copy, Clone, Debug, PartialEq, Eq, Structural)]
pub enum UnOp {
    /// `-`
    Neg,
    /// `not`
    Not,
    /// `~`
    BitNot,
}

/// What a cast does with a value that the target cannot hold.
#[derive(Copy, Clone, Debug, PartialEq, Eq, Structural)]
pub enum CastMode {
    /// Stop the program.
    Trap,
    /// Raise `Overflow`.
    Checked,
}

/// Kind of a scope expression.
#[derive(Copy, Clone, Debug, PartialEq, Eq, Structural)]
pub enum ScopeKind {
    /// A coherence region.
    Coherence,
    /// A structured-concurrency region.
    Exec,
}

/// How a local is declared.
#[derive(Copy, Clone, Debug, PartialEq, Eq, Structural)]
pub enum BindingMode {
    /// `let`
    Immutable,
    /// `var`
    Mutable,
    /// `uninit`
    Uninit,
}

/// Assignment operator.
#[derive(Copy, Clone, Debug, PartialEq, Eq, Structural)]
pub enum AssignOp {
    /// `=`
    Plain,
    /// `+=`
    AddAssign,
    /// `-=`
    SubAssign,
    /// `*=`
    MulAssign,
    /// `/=`
    DivAssign,
    /// `%=`
    ModAssign,
}

/// Whether a range holds its upper endpoint.
#[derive(Copy, Clone, Debug, PartialEq, Eq, Structural)]
pub enum RangeKind {
    /// `lo..<hi`
    HalfOpen,
    /// `lo..=hi`
    Closed,
}

/// Consumption discipline of a declared type.
#[derive(Copy, Clone, Debug, PartialEq, Eq, Structural)]
pub enum Linearity {
    /// Every value must be consumed.
    Linear,
    /// Every value may be consumed at most once.
    Affine,
}

impl BinOp {
    /// How the operator is written.
    pub open spec fn symbol(self) -> Seq<char> {
        match self {
            BinOp::Add => "+"@,
            BinOp::Sub => "-"@,
            BinOp::Mul => "*"@,
            BinOp::Div => "/"@,
            BinOp::Mod => "%"@,
            BinOp::WrapAdd => "+%"@,
            BinOp::WrapSub => "-%"@,
            BinOp::WrapMul => "*%"@,
            BinOp::CheckAdd => "+?"@,
            BinOp::CheckSub => "-?"@,
            BinOp::CheckMul => "*?"@,
            BinOp::CheckMod => "%?"@,
            BinOp::SatAdd => "+|"@,
            BinOp::SatSub => "-|"@,
            BinOp::SatMul => "*|"@,
            BinOp::Eq => "=="@,
            BinOp::Ne => "!="@,
            BinOp::Lt => "<"@,
            BinOp::Le => "<="@,
            BinOp::Gt => ">"@,
            BinOp::Ge => ">="@,
            BinOp::And => "&&"@,
            BinOp::Or => "||"@,
            BinOp::BitAnd => "&"@,
            BinOp::BitOr => "|"@,
            BinOp::BitXor => "^"@,
            BinOp::Shl => "<<"@,
            BinOp::Shr => ">>"@,
        }
    }
}

/// How an operator is written.
pub fn op_keyword(op: BinOp) -> (r: &'static str)
    ensures
        r@ == op.symbol(),
{
    match op {
        BinOp::Add => "+",
        BinOp::Sub => "-",
        BinOp::Mul => "*",
        BinOp::Div => "/",
        BinOp::Mod => "%",
        BinOp::WrapAdd => "+%",
        BinOp::WrapSub => "-%",
        BinOp::WrapMul => "*%",
        BinOp::CheckAdd => "+?",
        BinOp::CheckSub => "-?",
        BinOp::CheckMul => "*?",
        BinOp::CheckMod => "%?",
        BinOp::SatAdd => "+|",
        BinOp::SatSub => "-|",
        BinOp::SatMul => "*|",
        BinOp::Eq => "==",
        BinOp::Ne => "!=",
        BinOp::Lt => "<",
        BinOp::Le => "<=",
        BinOp::Gt => ">",
        BinOp::Ge => ">=",
        BinOp::And => "&&",
        BinOp::Or => "||",
        BinOp::BitAnd => "&",
        BinOp::BitOr => "|",
        BinOp::BitXor => "^",
        BinOp::Shl => "<<",
        BinOp::Shr => ">>",
    }
}

} // verus!
