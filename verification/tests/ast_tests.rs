use std::sync::Arc;
use mm0_ast::{Atom, DepType, LinedString, LocalKind, Modifiers, ParseError, Span, Stmt, StmtKind, Type, AST};
use mm0_ast::Formula;

fn ast_with_ends(source: &str, ends: &[usize]) -> AST {
    let mut stmts = Vec::new();
    let mut start = 0usize;
    for &end in ends {
        stmts.push(Stmt {
            span: Span::new(start, end),
            k: StmtKind::Sort(Span::new(start, end), Modifiers::empty()),
        });
        start = end + 1;
    }
    AST {
        source: Arc::new(LinedString::new(String::from(source))),
        imports: Vec::new(),
        stmts,
        errors: Vec::new(),
    }
}

#[test]
fn test_last_checkpoint_exact_match() {
    let ast = ast_with_ends("", &[10, 25, 40]);
    assert_eq!(ast.last_checkpoint(25), (2, 25));
    assert_eq!(ast.last_checkpoint(10), (1, 10));
    assert_eq!(ast.last_checkpoint(40), (3, 40));
}

#[test]
fn test_last_checkpoint_before_first() {
    let ast = ast_with_ends("", &[10, 25, 40]);
    assert_eq!(ast.last_checkpoint(5), (0, 0));
    assert_eq!(ast.last_checkpoint(0), (0, 0));
}

#[test]
fn test_last_checkpoint_between() {
    let ast = ast_with_ends("", &[10, 25, 40]);
    assert_eq!(ast.last_checkpoint(30), (2, 25));
    assert_eq!(ast.last_checkpoint(11), (1, 10));
    assert_eq!(ast.last_checkpoint(100), (3, 40));
}

#[test]
fn test_last_checkpoint_empty() {
    let ast = ast_with_ends("", &[]);
    assert_eq!(ast.last_checkpoint(7), (0, 0));
}

#[test]
fn test_ast_span_and_span_atom() {
    let ast = ast_with_ends("hello", &[]);
    assert_eq!(ast.span(Span::new(1, 3)), "el");
    assert_eq!(ast.span_atom(Span::new(0, 5), Atom::Ident), "hello");
    assert_eq!(ast.span_atom(Span::new(0, 0), Atom::Quote), "quote");
    assert_eq!(ast.span_atom(Span::new(0, 0), Atom::Unquote), "unquote");
    assert_eq!(ast.span_atom(Span::new(0, 0), Atom::Nfx), ":nfx");
}

#[test]
fn test_ast_keeps_errors_and_imports() {
    let mut ast = ast_with_ends("x", &[]);
    ast.imports.push((Span::new(0, 1), String::from("lib.mm0")));
    ast.errors.push(ParseError { pos: Span::new(0, 1), msg: String::from("unexpected token") });
    assert_eq!(ast.imports.len(), 1);
    assert_eq!(ast.errors[0].msg, "unexpected token");
}

#[test]
fn test_local_kind_is_bound() {
    assert!(LocalKind::Bound.is_bound());
    assert!(LocalKind::Dummy.is_bound());
    assert!(!LocalKind::Reg.is_bound());
    assert!(!LocalKind::Anon.is_bound());
}

#[test]
fn test_dep_type_span() {
    let d = DepType { sort: Span::new(3, 7), deps: vec![Span::new(8, 9), Span::new(10, 12)] };
    assert_eq!(d.span(), Span::new(3, 12));
    let d2 = DepType { sort: Span::new(3, 7), deps: vec![] };
    assert_eq!(d2.span(), Span::new(3, 7));
}

#[test]
fn test_type_span() {
    let d = DepType { sort: Span::new(3, 7), deps: vec![Span::new(8, 9)] };
    assert_eq!(Type::DepType(d).span(), Span::new(3, 9));
    assert_eq!(Type::Formula(Formula(Span::new(2, 6))).span(), Span::new(2, 6));
}
