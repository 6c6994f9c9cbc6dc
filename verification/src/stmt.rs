//! Top-level statements: declarations, delimiter statements, notation in
//! its simple and general forms, coercions, input/output statements,
//! annotations, macro evaluation, and imports.

use vstd::prelude::*;
use crate::modifiers::{DeclKind, Modifiers};
use crate::prec::Prec;
use crate::sexpr::SExpr;
use crate::span::{Formula, Span};
use crate::types::{Binder, Type};

verus! {

/// A delimiter statement's character sets: one set used on both sides, or
/// distinct left and right sets.
#[derive(Debug)]
pub enum Delimiter {
    Both(Vec<u8>),
    LeftRight(Vec<u8>, Vec<u8>),
}

/// A notation constant: the formula it was written as, and the trimmed span
/// of the constant text itself.
#[derive(Clone, Copy, Debug, PartialEq, Eq, Structural)]
pub struct Const {
    pub fmla: Formula,
    pub trim: Span,
}

/// A declaration: modifiers, kind, name, binders, an optional return type,
/// and an optional value expression (meaningful only for definitions).
#[derive(Debug)]
pub struct Decl {
    pub mods: Modifiers,
    pub k: DeclKind,
    pub id: Span,
    pub bis: Vec<Binder>,
    pub ty: Option<Type>,
    pub val: Option<SExpr>,
}

/// The role of a simple notation: prefix, or infix with an associativity
/// flag.
#[derive(Clone, Copy, Debug, PartialEq, Eq, Structural)]
pub enum SimpleNotaKind {
    Prefix,
    Infix { right: bool },
}

/// A simple notation declaration: one constant with one precedence bound to
/// a declared identifier.
#[derive(Debug)]
pub struct SimpleNota {
    pub k: SimpleNotaKind,
    pub id: Span,
    pub c: Const,
    pub prec: Prec,
}

/// One element of a general notation's literal pattern: a constant with its
/// own precedence, or a reference to a bound variable.
#[derive(Clone, Copy, Debug, PartialEq, Eq, Structural)]
pub enum Literal {
    Const(Const, Prec),
    Var(Span),
}

/// A generalized (mixfix) notation declaration: name, binders, optional
/// return type, the literal pattern, and an optional trailing
/// precedence-with-associativity for a right-recursive tail.
#[derive(Debug)]
pub struct GenNota {
    pub id: Span,
    pub bis: Vec<Binder>,
    pub ty: Option<Type>,
    pub lits: Vec<Literal>,
    pub prec: Option<(Prec, bool)>,
}

/// The payload of a top-level statement.
#[derive(Debug)]
pub enum StmtKind {
    Sort(Span, Modifiers),
    Decl(Decl),
    Delimiter(Delimiter),
    SimpleNota(SimpleNota),
    Coercion { id: Span, from: Span, to: Span },
    Notation(GenNota),
    Inout { out: bool, k: Span, hs: Vec<SExpr> },
    Annot(SExpr, Box<Stmt>),
    Do(Vec<SExpr>),
    Import(Span, String),
}

/// A top-level statement: its span and its payload.
#[derive(Debug)]
pub struct Stmt {
    pub span: Span,
    pub k: StmtKind,
}

} // verus!
