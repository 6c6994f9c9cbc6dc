//! Abstract syntax for a declarative specification language: source spans,
//! declaration modifiers, precedence levels, binder and type models, an
//! S-expression sublanguage with curly-infix desugaring, statement and
//! notation forms, and the aggregate syntax tree with checkpoint lookup.

pub mod ast;
pub mod bignum;
pub mod lined_string;
pub mod modifiers;
pub mod prec;
pub mod sexpr;
pub mod span;
pub mod stmt;
pub mod text;
pub mod types;

pub use ast::{ParseError, AST};
pub use lined_string::LinedString;
pub use modifiers::{DeclKind, Modifiers};
pub use prec::Prec;
pub use sexpr::{curly_transform, Atom, SExpr, SExprKind};
pub use span::{Formula, Span};
pub use stmt::{Const, Decl, Delimiter, GenNota, Literal, SimpleNota, SimpleNotaKind, Stmt, StmtKind};
pub use types::{Binder, DepType, LocalKind, Type};
