//! The program model: an immutable syntax tree addressed by byte-offset
//! spans.
//!
//! An external parser produces the concrete tree; a thin adapter turns it
//! into these plain values before any analysis runs. Only the node shapes
//! the analyses read are distinguished; every other construct is carried as
//! an `Other` node with its span, which the analyses treat as "reachable,
//! non-terminal, nothing to report".

use vstd::prelude::*;
use crate::span::Span;

verus! {

/// A literal in expression position. Numeric literals carry the canonical
/// decimal text of their value, so that two literals compare equal exactly
/// when their numeric values do.
pub enum Lit {
    Str { value: String },
    Num { text: String },
    Bool { value: bool },
    Null,
    Other,
}

/// A literal in type-annotation position.
pub enum TsLit {
    Str { value: String },
    Num { text: String },
    Other,
}

/// A type annotation: either a literal type or anything else.
pub enum TsType {
    Lit { span: Span, lit: TsLit },
    Other { span: Span },
}

impl TsType {
    pub open spec fn spec_span(self) -> Span {
        match self {
            TsType::Lit { span, .. } => span,
            TsType::Other { span } => span,
        }
    }

    pub fn span(&self) -> (s: Span)
        ensures
            s == self.spec_span(),
    {
        match self {
            TsType::Lit { span, .. } => *span,
            TsType::Other { span } => *span,
        }
    }
}

/// The comparison operators a binary expression may carry; every other
/// operator is `Other`.
#[derive(Clone, Copy, PartialEq, Eq, Structural, Debug)]
pub enum BinOp {
    EqEq,
    NotEq,
    EqEqEq,
    NotEqEq,
    Lt,
    LtEq,
    Gt,
    GtEq,
    Other,
}

/// A binding pattern on the left side of a variable declarator. Only the
/// optional type annotation is kept: that is all the analyses read.
pub enum Pat {
    Ident { span: Span, type_ann: Option<TsType> },
    Array { span: Span, type_ann: Option<TsType> },
    Object { span: Span, type_ann: Option<TsType> },
    Other { span: Span },
}

impl Pat {
    pub open spec fn spec_type_ann(self) -> Option<TsType> {
        match self {
            Pat::Ident { type_ann, .. } => type_ann,
            Pat::Array { type_ann, .. } => type_ann,
            Pat::Object { type_ann, .. } => type_ann,
            Pat::Other { .. } => None,
        }
    }
}

/// One `name = init` declarator of a variable declaration.
pub struct VarDeclarator {
    pub span: Span,
    pub name: Pat,
    pub init: Option<Expr>,
}

/// An expression node.
#[allow(inconsistent_fields)]
pub enum Expr {
    Ident { span: Span, sym: String },
    Lit { span: Span, lit: Lit },
    Array { span: Span, elems: Vec<Option<Expr>> },
    Object { span: Span, props: Vec<Expr> },
    Unary { span: Span, arg: Box<Expr> },
    Bin { span: Span, op: BinOp, left: Box<Expr>, right: Box<Expr> },
    Member { span: Span, obj: Box<Expr> },
    OptChain { span: Span, base: Box<Expr> },
    Call { span: Span, callee: Box<Expr>, args: Vec<Expr> },
    NonNull { span: Span, expr: Box<Expr> },
    TsAs { span: Span, expr: Box<Expr>, type_ann: TsType },
    TsTypeAssertion { span: Span, expr: Box<Expr>, type_ann: TsType },
    Paren { span: Span, expr: Box<Expr> },
    Arrow { span: Span, body: Vec<Stmt> },
    Other { span: Span },
}

impl Expr {
    pub open spec fn spec_span(self) -> Span {
        match self {
            Expr::Ident { span, .. } => span,
            Expr::Lit { span, .. } => span,
            Expr::Array { span, .. } => span,
            Expr::Object { span, .. } => span,
            Expr::Unary { span, .. } => span,
            Expr::Bin { span, .. } => span,
            Expr::Member { span, .. } => span,
            Expr::OptChain { span, .. } => span,
            Expr::Call { span, .. } => span,
            Expr::NonNull { span, .. } => span,
            Expr::TsAs { span, .. } => span,
            Expr::TsTypeAssertion { span, .. } => span,
            Expr::Paren { span, .. } => span,
            Expr::Arrow { span, .. } => span,
            Expr::Other { span } => span,
        }
    }

    pub fn span(&self) -> (s: Span)
        ensures
            s == self.spec_span(),
    {
        match self {
            Expr::Ident { span, .. } => *span,
            Expr::Lit { span, .. } => *span,
            Expr::Array { span, .. } => *span,
            Expr::Object { span, .. } => *span,
            Expr::Unary { span, .. } => *span,
            Expr::Bin { span, .. } => *span,
            Expr::Member { span, .. } => *span,
            Expr::OptChain { span, .. } => *span,
            Expr::Call { span, .. } => *span,
            Expr::NonNull { span, .. } => *span,
            Expr::TsAs { span, .. } => *span,
            Expr::TsTypeAssertion { span, .. } => *span,
            Expr::Paren { span, .. } => *span,
            Expr::Arrow { span, .. } => *span,
            Expr::Other { span } => *span,
        }
    }
}

/// One `case`/`default` clause of a switch statement.
pub struct SwitchCase {
    pub span: Span,
    pub test: Option<Expr>,
    pub cons: Vec<Stmt>,
}

/// A statement node. A `Fn` is a function declaration whose body starts a
/// fresh reachability scope; `Other` stands for any construct the analyses
/// do not distinguish.
#[allow(inconsistent_fields)]
pub enum Stmt {
    Expr { span: Span, expr: Expr },
    VarDecl { span: Span, decls: Vec<VarDeclarator> },
    Return { span: Span, arg: Option<Expr> },
    Throw { span: Span, arg: Expr },
    Break { span: Span },
    Continue { span: Span },
    Block { span: Span, stmts: Vec<Stmt> },
    If { span: Span, test: Expr, cons: Box<Stmt>, alt: Option<Box<Stmt>> },
    While { span: Span, test: Expr, body: Box<Stmt> },
    Switch { span: Span, discriminant: Expr, cases: Vec<SwitchCase> },
    Try { span: Span, block: Vec<Stmt>, handler: Option<Vec<Stmt>>, finalizer: Option<Vec<Stmt>> },
    Fn { span: Span, body: Vec<Stmt> },
    Other { span: Span },
}

impl Stmt {
    pub open spec fn spec_span(self) -> Span {
        match self {
            Stmt::Expr { span, .. } => span,
            Stmt::VarDecl { span, .. } => span,
            Stmt::Return { span, .. } => span,
            Stmt::Throw { span, .. } => span,
            Stmt::Break { span } => span,
            Stmt::Continue { span } => span,
            Stmt::Block { span, .. } => span,
            Stmt::If { span, .. } => span,
            Stmt::While { span, .. } => span,
            Stmt::Switch { span, .. } => span,
            Stmt::Try { span, .. } => span,
            Stmt::Fn { span, .. } => span,
            Stmt::Other { span } => span,
        }
    }

    pub fn span(&self) -> (s: Span)
        ensures
            s == self.spec_span(),
    {
        match self {
            Stmt::Expr { span, .. } => *span,
            Stmt::VarDecl { span, .. } => *span,
            Stmt::Return { span, .. } => *span,
            Stmt::Throw { span, .. } => *span,
            Stmt::Break { span } => *span,
            Stmt::Continue { span } => *span,
            Stmt::Block { span, .. } => *span,
            Stmt::If { span, .. } => *span,
            Stmt::While { span, .. } => *span,
            Stmt::Switch { span, .. } => *span,
            Stmt::Try { span, .. } => *span,
            Stmt::Fn { span, .. } => *span,
            Stmt::Other { span } => *span,
        }
    }
}

/// One parsed program: its top-level statements in source order.
pub struct Program {
    pub stmts: Vec<Stmt>,
}

} // verus!
