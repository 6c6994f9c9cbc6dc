use mm0_ast::{curly_transform, Atom, Formula, LinedString, SExpr, SExprKind, Span};

fn src(text: &str) -> LinedString {
    LinedString::new(String::from(text))
}

fn ident(start: usize, end: usize) -> SExpr {
    SExpr::atom(Span::new(start, end), Atom::Ident)
}

// Element spans over the source "a + b + c": a, +, b, +, c.
fn uniform_elements() -> Vec<SExpr> {
    vec![ident(0, 1), ident(2, 3), ident(4, 5), ident(6, 7), ident(8, 9)]
}

#[test]
fn test_curly_uniform_compacts() {
    let s = src("a + b + c");
    let mut es = uniform_elements();
    let marker = SExpr::atom(Span::new(0, 1), Atom::Nfx);
    curly_transform(&mut es, true, &s, marker);
    assert_eq!(es, vec![ident(2, 3), ident(0, 1), ident(4, 5), ident(8, 9)]);
}

#[test]
fn test_curly_nonuniform_gets_marker() {
    let s = src("a + b * c");
    let mut es = uniform_elements();
    let marker = SExpr::atom(Span::new(0, 1), Atom::Nfx);
    curly_transform(&mut es, true, &s, marker);
    let mut expected = vec![SExpr::atom(Span::new(0, 1), Atom::Nfx)];
    expected.extend(uniform_elements());
    assert_eq!(es.len(), 6);
    assert_eq!(es, expected);
}

#[test]
fn test_curly_short_lists_unchanged() {
    let s = src("a + b + c");
    for n in 0..3usize {
        let mut es: Vec<SExpr> = uniform_elements().into_iter().take(n).collect();
        let before: Vec<SExpr> = uniform_elements().into_iter().take(n).collect();
        let marker = SExpr::atom(Span::new(0, 1), Atom::Nfx);
        curly_transform(&mut es, true, &s, marker);
        assert_eq!(es, before);
    }
}

#[test]
fn test_curly_even_length_gets_marker() {
    let s = src("a + b + c");
    let mut es: Vec<SExpr> = uniform_elements().into_iter().take(4).collect();
    let marker = SExpr::atom(Span::new(0, 1), Atom::Nfx);
    curly_transform(&mut es, true, &s, marker);
    assert_eq!(es.len(), 5);
    assert_eq!(es[0], SExpr::atom(Span::new(0, 1), Atom::Nfx));
}

#[test]
fn test_curly_dotted_tail_gets_marker() {
    let s = src("a + b + c");
    let mut es = uniform_elements();
    let marker = SExpr::atom(Span::new(0, 1), Atom::Nfx);
    curly_transform(&mut es, false, &s, marker);
    assert_eq!(es.len(), 6);
    assert_eq!(es[0], SExpr::atom(Span::new(0, 1), Atom::Nfx));
}

#[test]
fn test_curly_list_uniform() {
    let s = src("a + b + c");
    let r = SExpr::curly_list(Span::new(0, 9), true, uniform_elements(), None, &s);
    assert_eq!(r.span, Span::new(0, 9));
    match r.k {
        SExprKind::List(es) => {
            assert_eq!(es, vec![ident(2, 3), ident(0, 1), ident(4, 5), ident(8, 9)]);
        },
        _ => panic!("expected a plain list"),
    }
}

#[test]
fn test_curly_list_not_flagged_is_identity() {
    // One desugaring pass, then reassembly without the curly flag: the
    // elements come through unchanged.
    let s = src("a + b + c");
    let mut es = uniform_elements();
    let marker = SExpr::atom(Span::new(0, 1), Atom::Nfx);
    curly_transform(&mut es, true, &s, marker);
    let transformed = vec![ident(2, 3), ident(0, 1), ident(4, 5), ident(8, 9)];
    assert_eq!(es, transformed);
    let r = SExpr::curly_list(Span::new(0, 9), false, es, None, &s);
    match r.k {
        SExprKind::List(es2) => assert_eq!(es2, transformed),
        _ => panic!("expected a plain list"),
    }
}

#[test]
fn test_dotted_list_no_tail_is_plain_list() {
    let r = SExpr::dotted_list(Span::new(0, 4), vec![ident(0, 1), ident(1, 2)], None);
    match r.k {
        SExprKind::List(es) => assert_eq!(es, vec![ident(0, 1), ident(1, 2)]),
        _ => panic!("expected a plain list"),
    }
}

#[test]
fn test_dotted_list_splices_dotted_tail() {
    // Tail [c] . d spliced into [a, b] gives [a, b, c] . d, not a nested
    // dotted list.
    let tail = SExpr::dotted_list(Span::new(2, 4), vec![ident(2, 3)], Some(ident(3, 4)));
    match &tail.k {
        SExprKind::DottedList(es, t) => {
            assert_eq!(es, &vec![ident(2, 3)]);
            assert_eq!(**t, ident(3, 4));
        },
        _ => panic!("expected a dotted list"),
    }
    let r = SExpr::dotted_list(Span::new(0, 4), vec![ident(0, 1), ident(1, 2)], Some(tail));
    match r.k {
        SExprKind::DottedList(es, t) => {
            assert_eq!(es, vec![ident(0, 1), ident(1, 2), ident(2, 3)]);
            assert_eq!(*t, ident(3, 4));
        },
        _ => panic!("expected a dotted list"),
    }
}

#[test]
fn test_dotted_list_plain_tail_degrades_to_list() {
    let tail = SExpr::list(Span::new(2, 4), vec![ident(2, 3), ident(3, 4)]);
    let r = SExpr::dotted_list(Span::new(0, 4), vec![ident(0, 1)], Some(tail));
    match r.k {
        SExprKind::List(es) => assert_eq!(es, vec![ident(0, 1), ident(2, 3), ident(3, 4)]),
        _ => panic!("expected a plain list"),
    }
}

#[test]
fn test_render_atoms() {
    let s = src("foo bar $x$");
    assert_eq!(ident(0, 3).render(&s), "foo");
    assert_eq!(ident(4, 7).render(&s), "bar");
    assert_eq!(SExpr::atom(Span::new(0, 1), Atom::Quote).render(&s), "quote");
    assert_eq!(SExpr::atom(Span::new(0, 1), Atom::Unquote).render(&s), "unquote");
    assert_eq!(SExpr::atom(Span::new(0, 1), Atom::Nfx).render(&s), ":nfx");
}

#[test]
fn test_render_lists() {
    let s = src("foo bar $x$");
    let empty = SExpr::list(Span::new(0, 0), vec![]);
    assert_eq!(empty.render(&s), "()");
    let l = SExpr::list(Span::new(0, 7), vec![ident(0, 3), ident(4, 7)]);
    assert_eq!(l.render(&s), "(foo bar)");
    let inner = SExpr::list(Span::new(0, 3), vec![ident(0, 3)]);
    let nested = SExpr::list(Span::new(0, 7), vec![inner, ident(4, 7)]);
    assert_eq!(nested.render(&s), "((foo) bar)");
}

#[test]
fn test_render_dotted_list() {
    let s = src("foo bar $x$");
    let d = SExpr {
        span: Span::new(0, 7),
        k: SExprKind::DottedList(vec![ident(0, 3)], Box::new(ident(4, 7))),
    };
    assert_eq!(d.render(&s), "(foo . bar)");
}

#[test]
fn test_render_bools_number_formula() {
    let s = src("foo bar $x$");
    let t = SExpr { span: Span::new(0, 0), k: SExprKind::Bool(true) };
    let f = SExpr { span: Span::new(0, 0), k: SExprKind::Bool(false) };
    assert_eq!(t.render(&s), "#t");
    assert_eq!(f.render(&s), "#f");
    let n = SExpr { span: Span::new(0, 0), k: SExprKind::Number(num::BigUint::from(12345u64)) };
    assert_eq!(n.render(&s), "12345");
    let z = SExpr { span: Span::new(0, 0), k: SExprKind::Number(num::BigUint::from(0u64)) };
    assert_eq!(z.render(&s), "0");
    let big = SExpr {
        span: Span::new(0, 0),
        k: SExprKind::Number(num::BigUint::from(u128::MAX)),
    };
    assert_eq!(big.render(&s), "340282366920938463463374607431768211455");
    let fla = SExpr { span: Span::new(8, 11), k: SExprKind::Formula(Formula(Span::new(8, 11))) };
    assert_eq!(fla.render(&s), "$x$");
}

#[test]
fn test_render_string_escapes() {
    let s = src("");
    let e = SExpr {
        span: Span::new(0, 0),
        k: SExprKind::String(String::from("a\"b\\c\nd\re\tf")),
    };
    assert_eq!(e.render(&s), "\"a\\\"b\\\\c\\nd\\re\\tf\"");
}

#[test]
fn test_check_renderable() {
    let s = src("foo");
    assert!(ident(0, 3).check_renderable(&s));
    assert!(!ident(0, 4).check_renderable(&s));
    let bad_inside = SExpr::list(Span::new(0, 3), vec![ident(0, 3), ident(2, 9)]);
    assert!(!bad_inside.check_renderable(&s));
    let quote = SExpr::atom(Span::new(0, 99), Atom::Quote);
    assert!(quote.check_renderable(&s));
}

#[test]
fn test_formula_inner() {
    let f = Formula(Span::new(8, 11));
    assert_eq!(f.inner(), Span::new(9, 10));
}
