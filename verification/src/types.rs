//! Binders and the types they can carry: dependent sort types and embedded
//! formulas.

use vstd::prelude::*;
use crate::span::{Formula, Span};

verus! {

/// The kind of a local variable binding.
#[derive(Clone, Copy, Debug, PartialEq, Eq, Structural)]
pub enum LocalKind {
    Bound,
    Reg,
    Dummy,
    Anon,
}

impl LocalKind {
    /// The binding kinds: variables of these kinds may appear in dependency
    /// lists.
    pub open spec fn spec_is_bound(self) -> bool {
        self == LocalKind::Bound || self == LocalKind::Dummy
    }

    /// Whether this kind is a binding kind (`Bound` or `Dummy`).
    pub fn is_bound(self) -> (r: bool)
        ensures
            r == self.spec_is_bound(),
    {
        match self {
            LocalKind::Bound | LocalKind::Dummy => true,
            LocalKind::Reg | LocalKind::Anon => false,
        }
    }
}

/// A dependent sort type: a sort reference and the variables it depends on.
#[derive(Debug)]
pub struct DepType {
    pub sort: Span,
    pub deps: Vec<Span>,
}

impl DepType {
    /// The span a dependent type covers: from the sort through the last
    /// dependency, or just the sort when there is none.
    pub open spec fn spec_span(&self) -> Span {
        Span {
            start: self.sort.start,
            end: if self.deps@.len() > 0 {
                self.deps@.last().end
            } else {
                self.sort.end
            },
        }
    }

    /// The span from the sort through the last dependency.
    pub fn span(&self) -> (r: Span)
        ensures
            r == self.spec_span(),
    {
        let end = if self.deps.len() > 0 {
            self.deps[self.deps.len() - 1].end
        } else {
            self.sort.end
        };
        Span { start: self.sort.start, end }
    }
}

/// The type of a binder: a dependent sort type or an embedded formula.
#[derive(Debug)]
pub enum Type {
    DepType(DepType),
    Formula(Formula),
}

impl Type {
    /// The span the type covers.
    pub open spec fn spec_span(&self) -> Span {
        match self {
            Type::DepType(d) => d.spec_span(),
            Type::Formula(f) => f.0,
        }
    }

    /// The span the type covers.
    pub fn span(&self) -> (r: Span)
        ensures
            r == self.spec_span(),
    {
        match self {
            Type::DepType(d) => d.span(),
            Type::Formula(f) => f.0,
        }
    }
}

/// A single binder of a declaration or notation: its span, an optional
/// local-variable name span (anonymous when absent), its kind, and an
/// optional type.
#[derive(Debug)]
pub struct Binder {
    pub span: Span,
    pub local: Option<Span>,
    pub kind: LocalKind,
    pub ty: Option<Type>,
}

} // verus!
