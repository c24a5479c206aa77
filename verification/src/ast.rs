//! The syntax of a function body, as far as confirmation and writeback read
//! it: which nodes there are, in which order, and of which form the ones are
//! that the two treat specially.

use crate::list::List;
use crate::ty::{Name, NodeId, Span};
use vstd::prelude::*;

verus! {

/// A unary operator.
#[derive(Clone, Copy, Debug, PartialEq, Eq, Structural)]
pub enum UnOp {
    Deref,
    Not,
    Neg,
    Uniq,
}

/// A binary operator.
#[derive(Clone, Copy, Debug, PartialEq, Eq, Structural)]
pub enum BinOp {
    Add,
    Sub,
    Mul,
    Div,
    Rem,
    And,
    Or,
    BitXor,
    BitAnd,
    BitOr,
    Shl,
    Shr,
    Eq,
    Lt,
    Le,
    Ne,
    Ge,
    Gt,
}

impl BinOp {
    /// Whether the operator takes its operands by value: the arithmetic, bit
    /// and shift operators do, the comparisons and the lazy operators do not.
    pub open spec fn spec_is_by_value(self) -> bool {
        match self {
            BinOp::Add
            | BinOp::Sub
            | BinOp::Mul
            | BinOp::Div
            | BinOp::Rem
            | BinOp::BitXor
            | BinOp::BitAnd
            | BinOp::BitOr
            | BinOp::Shl
            | BinOp::Shr => true,
            _ => false,
        }
    }

    /// Whether the operator takes its operands by value.
    pub fn is_by_value(self) -> (r: bool)
        ensures
            r == self.spec_is_by_value(),
    {
        match self {
            BinOp::Add
            | BinOp::Sub
            | BinOp::Mul
            | BinOp::Div
            | BinOp::Rem
            | BinOp::BitXor
            | BinOp::BitAnd
            | BinOp::BitOr
            | BinOp::Shl
            | BinOp::Shr => true,
            _ => false,
        }
    }
}

/// A type as written in the source.
#[derive(Debug, PartialEq, Eq)]
pub enum AstTy {
    /// A type that is a name.
    Path,
    /// `[T; n]`, with the expression for `n`.
    FixedLengthVec(Box<AstTy>, Box<Expr>),
    /// Any other type, with the types written inside it.
    Other(List<AstTy>),
}

/// The form of a pattern.
#[derive(Debug, PartialEq, Eq)]
pub enum PatKind {
    Wild,
    /// A binding, with the pattern that it names, if any.
    Ident(Option<Box<Pat>>),
    /// A literal or a range, with its expressions.
    Lit(List<Expr>),
    /// Any other pattern, with the patterns inside it.
    Other(List<Pat>),
}

/// A pattern.
#[derive(Debug, PartialEq, Eq)]
pub struct Pat {
    pub id: NodeId,
    pub span: Span,
    pub node: PatKind,
}

/// A `let`.
#[derive(Debug, PartialEq, Eq)]
pub struct Local {
    pub id: NodeId,
    pub span: Span,
    pub pat: Pat,
    pub ty: Option<AstTy>,
    pub init: Option<Expr>,
}

/// The form of a statement.
#[derive(Debug, PartialEq, Eq)]
pub enum StmtKind {
    Local(Box<Local>),
    /// An item declared in the body. Writeback does not enter it.
    Item,
    Expr(Box<Expr>),
    Semi(Box<Expr>),
}

/// A statement.
#[derive(Debug, PartialEq, Eq)]
pub struct Stmt {
    pub id: NodeId,
    pub span: Span,
    pub node: StmtKind,
}

/// A block: its statements and the expression that it ends with, if any.
#[derive(Debug, PartialEq, Eq)]
pub struct Block {
    pub id: NodeId,
    pub span: Span,
    pub stmts: List<Stmt>,
    pub expr: Option<Box<Expr>>,
}

/// A parameter of a function or closure.
#[derive(Debug, PartialEq, Eq)]
pub struct Arg {
    pub id: NodeId,
    pub pat: Pat,
    pub ty: AstTy,
}

/// The parameters and the written return type of a function or closure.
#[derive(Debug, PartialEq, Eq)]
pub struct FnDecl {
    pub inputs: List<Arg>,
    /// The return type, where one is written.
    pub output: Option<AstTy>,
}

/// The form of an expression.
#[derive(Debug, PartialEq, Eq)]
pub enum ExprKind {
    /// A name or a literal.
    Path,
    Paren(Box<Expr>),
    Field(Box<Expr>, Name),
    TupField(Box<Expr>, usize),
    /// `base[index]`.
    Index(Box<Expr>, Box<Expr>),
    Unary(UnOp, Box<Expr>),
    Binary(BinOp, Box<Expr>, Box<Expr>),
    Closure(Box<FnDecl>, Box<Block>),
    Block(Box<Block>),
    Cast(Box<Expr>, Box<AstTy>),
    /// Any other expression, with the expressions inside it in the order
    /// in which they are written.
    Other(List<Expr>),
}

/// An expression.
#[derive(Debug, PartialEq, Eq)]
pub struct Expr {
    pub id: NodeId,
    pub span: Span,
    pub node: ExprKind,
}

impl Pat {
    /// Whether the pattern as a whole is a binding.
    pub open spec fn spec_is_binding(self) -> bool {
        self.node is Ident
    }

    /// Whether the pattern as a whole is a binding.
    pub fn is_binding(&self) -> (r: bool)
        ensures
            r == self.spec_is_binding(),
    {
        match &self.node {
            PatKind::Ident(_) => true,
            _ => false,
        }
    }
}

impl Expr {
    /// The expression from which this one is derived by a parenthesis, a
    /// field access, an index or a dereference: the next link of the chain
    /// that leads from a place to the place it lies in.
    pub open spec fn spec_base(self) -> Option<Expr> {
        match self.node {
            ExprKind::Paren(e) => Some(*e),
            ExprKind::Field(e, _) => Some(*e),
            ExprKind::TupField(e, _) => Some(*e),
            ExprKind::Index(e, _) => Some(*e),
            ExprKind::Unary(UnOp::Deref, e) => Some(*e),
            _ => None,
        }
    }

    /// The expression from which this one is derived as a place, if it is.
    pub fn base(&self) -> (r: Option<&Expr>)
        ensures
            r == match self.spec_base() {
                Some(e) => Some(&e),
                None => None,
            },
    {
        match &self.node {
            ExprKind::Paren(e) => Some(&**e),
            ExprKind::Field(e, _) => Some(&**e),
            ExprKind::TupField(e, _) => Some(&**e),
            ExprKind::Index(e, _) => Some(&**e),
            ExprKind::Unary(UnOp::Deref, e) => Some(&**e),
            _ => None,
        }
    }
}

} // verus!
