//! The S-expression sublanguage: a recursive value type, constructors that
//! keep dotted tails flat, and the curly-infix desugaring algorithm.

use vstd::prelude::*;
use crate::bignum::{big_to_decimal, big_val};
use crate::lined_string::{spec_span_atom, LinedString};
use crate::span::{Formula, Span};
use crate::text::{dec_str, str_eq};

verus! {

/// Relies on `<[T]>::swap`: exchanges the elements at the two indices.
pub assume_specification<T>[ <[T]>::swap ](s: &mut [T], a: usize, b: usize)
    requires
        a < old(s)@.len(),
        b < old(s)@.len(),
    ensures
        final(s)@ == old(s)@.update(a as int, old(s)@[b as int]).update(
            b as int,
            old(s)@[a as int],
        ),
;

/// The kinds of atom heads an S-expression can carry. All but `Ident` have a
/// fixed spelling independent of their span.
#[derive(Clone, Copy, Debug, PartialEq, Eq, Structural)]
pub enum Atom {
    /// An identifier; its text is the source text under its span.
    Ident,
    /// The `quote` form.
    Quote,
    /// The `unquote` form.
    Unquote,
    /// The synthetic marker prefixed to a curly list whose separators are
    /// not uniform, deferring arity resolution to elaboration.
    Nfx,
}

/// An S-expression value, a span plus its kind.
#[derive(Debug, PartialEq, Eq)]
pub struct SExpr {
    pub span: Span,
    pub k: SExprKind,
}

/// The kinds of S-expression.
#[derive(Debug, PartialEq, Eq)]
pub enum SExprKind {
    Atom(Atom),
    List(Vec<SExpr>),
    DottedList(Vec<SExpr>, Box<SExpr>),
    Number(num::BigUint),
    String(String),
    Bool(bool),
    Formula(Formula),
}

/// The source text under an element's span: the equality the curly-infix
/// desugaring compares separators by.
pub open spec fn elem_text(src: Seq<char>, e: SExpr) -> Seq<char> {
    src.subrange(e.span.start as int, e.span.end as int)
}

/// True when every odd position from three on holds the same text as
/// position one: the uniform-separator pattern of a curly list.
pub open spec fn uniform_seps(src: Seq<char>, es: Seq<SExpr>) -> bool {
    forall|i: int|
        3 <= i < es.len() && i % 2 == 1 ==> elem_text(src, #[trigger] es[i]) == elem_text(
            src,
            es[1],
        )
}

/// A curly list desugars to a prefix application exactly when it has no
/// dotted tail, an odd number of elements, and uniform separators.
pub open spec fn valid_curly(src: Seq<char>, es: Seq<SExpr>, no_dot: bool) -> bool {
    no_dot && es.len() % 2 == 1 && uniform_seps(src, es)
}

/// The compacted form of a uniform curly list: the separator hoisted to the
/// front, then the operands in order.
pub open spec fn compacted(es: Seq<SExpr>) -> Seq<SExpr>
    recommends
        3 <= es.len(),
{
    seq![es[1], es[0], es[2]] + Seq::new(((es.len() - 3) / 2) as nat, |i: int| es[2 * i + 4])
}

/// Compares two elements by the source text under their spans.
pub fn sexpr_text_eq(src: &LinedString, a: &SExpr, b: &SExpr) -> (r: bool)
    requires
        a.span.in_bounds(src@.len()),
        b.span.in_bounds(src@.len()),
    ensures
        r == (elem_text(src@, *a) == elem_text(src@, *b)),
{
    str_eq(src.text_at(a.span), src.text_at(b.span))
}

/// Desugars the element list of a curly list in place.
///
/// A list of at most two elements is left unchanged. A longer list whose
/// separators are uniform (no dotted tail, odd length, the same text at
/// every odd position) is compacted to prefix form: the separator is hoisted
/// to the front and its remaining copies dropped. Any other list is prefixed
/// with the given marker element, deferring resolution to elaboration.
pub fn curly_transform(es: &mut Vec<SExpr>, no_dot: bool, src: &LinedString, nfx: SExpr)
    requires
        old(es)@.len() < usize::MAX,
        forall|i: int|
            0 <= i < old(es)@.len() ==> (#[trigger] old(es)@[i]).span.in_bounds(src@.len()),
    ensures
        old(es)@.len() <= 2 ==> final(es)@ == old(es)@,
        old(es)@.len() > 2 && valid_curly(src@, old(es)@, no_dot) ==> final(es)@ == compacted(
            old(es)@,
        ),
        old(es)@.len() > 2 && !valid_curly(src@, old(es)@, no_dot) ==> final(es)@ == seq![nfx]
            + old(es)@,
{
    let n = es.len();
    if n > 2 {
        let mut valid = no_dot && n % 2 != 0;
        if valid {
            let mut i: usize = 3;
            while i < n
                invariant
                    n == es@.len(),
                    es@ == old(es)@,
                    n % 2 == 1,
                    3 <= i,
                    i % 2 == 1,
                    i <= n + 1,
                    forall|j: int|
                        0 <= j < n ==> (#[trigger] es@[j]).span.in_bounds(src@.len()),
                    valid == (forall|j: int|
                        3 <= j < i && j % 2 == 1 ==> elem_text(src@, #[trigger] es@[j])
                            == elem_text(src@, es@[1])),
                decreases n - i,
            {
                if !sexpr_text_eq(src, &es[i], &es[1]) {
                    valid = false;
                }
                i += 2;
            }
        }
        if valid {
            assert(valid_curly(src@, es@, no_dot));
            let ghost orig = es@;
            es.as_mut_slice().swap(0, 1);
            let mut from: usize = 4;
            let mut to: usize = 3;
            while from < n
                invariant
                    n == es@.len(),
                    n == orig.len(),
                    n < usize::MAX,
                    n % 2 == 1,
                    3 <= n,
                    3 <= to,
                    to <= n,
                    from == 2 * to - 2,
                    from % 2 == 0,
                    from <= n + 1,
                    es@[0] == orig[1],
                    es@[1] == orig[0],
                    es@[2] == orig[2],
                    forall|j: int| 3 <= j < to ==> #[trigger] es@[j] == orig[2 * j - 2],
                    forall|j: int|
                        from <= j < n && (j - from) % 2 == 0 ==> #[trigger] es@[j] == orig[j],
                decreases n + 2 - from,
            {
                es.as_mut_slice().swap(from, to);
                to += 1;
                from += 2;
            }
            es.truncate(to);
            assert(es@ =~= compacted(orig)) by {
                assert(from == n + 1);
                assert(to == 3 + (n - 3) / 2);
            }
        } else {
            es.insert(0, nfx);
            assert(es@ =~= seq![nfx] + old(es)@);
        }
    }
}

/// What [`SExpr::dotted_list`] builds from elements `es` and an optional
/// tail `dot` at span `span`: a plain list when there is no tail, a spliced
/// dotted list when the tail is itself dotted, a plain list when the tail is
/// a plain list, and otherwise a dotted list with the tail as given.
pub open spec fn is_dotted_list_of(r: SExpr, span: Span, es: Seq<SExpr>, dot: Option<SExpr>) -> bool {
    &&& r.span == span
    &&& match dot {
        None => r.k matches SExprKind::List(l) && l@ == es,
        Some(e) => match e.k {
            SExprKind::DottedList(es2, e2) => r.k matches SExprKind::DottedList(l, t) && l@ == es
                + es2@ && t == e2,
            SExprKind::List(es2) => r.k matches SExprKind::List(l) && l@ == es + es2@,
            _ => r.k matches SExprKind::DottedList(l, t) && l@ == es && *t == e,
        },
    }
}

/// A dotted-list node never carries a list-shaped tail.
pub open spec fn tail_flat(e: SExpr) -> bool {
    match e.k {
        SExprKind::DottedList(_, t) => !(t.k matches SExprKind::List(_)) && !(
        t.k matches SExprKind::DottedList(_, _)),
        _ => true,
    }
}

/// Splicing keeps the tree flat: if the tail handed to
/// [`SExpr::dotted_list`] satisfies [`tail_flat`], so does what it builds —
/// a dotted tail's own elements are spliced into the parent rather than
/// nested, and a plain-list tail degrades the node to a plain list.
pub proof fn lemma_dotted_list_flat(r: SExpr, span: Span, es: Seq<SExpr>, dot: Option<SExpr>)
    requires
        is_dotted_list_of(r, span, es, dot),
        dot matches Some(e) ==> tail_flat(e),
    ensures
        tail_flat(r),
{
}

/// One desugaring pass is enough: a uniform curly list of `n > 2` elements
/// compacts to exactly `3 + (n - 3) / 2` elements, and the output is
/// assembled as a plain list — any later assembly of those elements without
/// the curly flag (the only way the transform is ever invoked) leaves them
/// unchanged.
pub proof fn lemma_desugar_once(src: Seq<char>, es: Seq<SExpr>)
    requires
        es.len() > 2,
        valid_curly(src, es, true),
    ensures
        compacted(es).len() == 3 + (es.len() - 3) / 2,
        forall|r: SExpr, span: Span|
            #[trigger] is_dotted_list_of(r, span, compacted(es), None) ==> (r.k matches SExprKind::List(l)
                && l@ == compacted(es)),
{
}

/// The synthetic marker element prefixed to a non-uniform curly list: the
/// non-fixed-arity atom, spanning the list's opening position.
pub open spec fn nfx_marker(span: Span) -> SExpr {
    SExpr {
        span: Span { start: span.start, end: (span.start + 1) as usize },
        k: SExprKind::Atom(Atom::Nfx),
    }
}

impl SExpr {
    /// An atom at the given span.
    pub fn atom(span: Span, a: Atom) -> (r: SExpr)
        ensures
            r.span == span,
            r.k == SExprKind::Atom(a),
    {
        SExpr { span, k: SExprKind::Atom(a) }
    }

    /// A plain list of the given elements.
    pub fn list(span: Span, es: Vec<SExpr>) -> (r: SExpr)
        ensures
            r.span == span,
            r.k matches SExprKind::List(l) && l@ == es@,
    {
        SExpr { span, k: SExprKind::List(es) }
    }

    /// A list with an optional dotted tail, splicing eagerly so that a
    /// dotted tail is never itself a list: see [`is_dotted_list_of`].
    pub fn dotted_list(span: Span, es: Vec<SExpr>, dot: Option<SExpr>) -> (r: SExpr)
        ensures
            is_dotted_list_of(r, span, es@, dot),
    {
        let mut es = es;
        match dot {
            None => SExpr { span, k: SExprKind::List(es) },
            Some(e) => {
                let SExpr { span: tail_span, k: tail_kind } = e;
                match tail_kind {
                    SExprKind::DottedList(es2, e2) => {
                        let mut es2 = es2;
                        es.append(&mut es2);
                        SExpr { span, k: SExprKind::DottedList(es, e2) }
                    },
                    SExprKind::List(es2) => {
                        let mut es2 = es2;
                        es.append(&mut es2);
                        SExpr { span, k: SExprKind::List(es) }
                    },
                    k => SExpr {
                        span,
                        k: SExprKind::DottedList(
                            es,
                            Box::new(SExpr { span: tail_span, k }),
                        ),
                    },
                }
            },
        }
    }

    /// Builds a list from curly-brace syntax: if `curly` is set, the
    /// elements are first desugared by [`curly_transform`] — compacted to
    /// prefix form when the separators are uniform, otherwise prefixed with
    /// the [`nfx_marker`] — and the result is then assembled like
    /// [`SExpr::dotted_list`]. A list that is not flagged curly is assembled
    /// unchanged.
    pub fn curly_list(
        span: Span,
        curly: bool,
        es: Vec<SExpr>,
        dot: Option<SExpr>,
        src: &LinedString,
    ) -> (r: SExpr)
        requires
            curly ==> es@.len() < usize::MAX,
            curly ==> span.start < usize::MAX,
            curly ==> forall|i: int|
                0 <= i < es@.len() ==> (#[trigger] es@[i]).span.in_bounds(src@.len()),
        ensures
            ({
                let es1 = if curly && es@.len() > 2 {
                    if valid_curly(src@, es@, dot is None) {
                        compacted(es@)
                    } else {
                        seq![nfx_marker(span)] + es@
                    }
                } else {
                    es@
                };
                is_dotted_list_of(r, span, es1, dot)
            }),
    {
        let mut es = es;
        if curly {
            let marker = SExpr::atom(Span::new(span.start, span.start + 1), Atom::Nfx);
            curly_transform(&mut es, dot.is_none(), src, marker);
        }
        Self::dotted_list(span, es, dot)
    }
}

/// The rendering of one character inside a string literal: backslash,
/// double quote, newline, carriage return and tab are escaped, everything
/// else stands for itself.
pub open spec fn escape_char(c: char) -> Seq<char> {
    if c == '\\' {
        seq!['\\', '\\']
    } else if c == '"' {
        seq!['\\', '"']
    } else if c == '\n' {
        seq!['\\', 'n']
    } else if c == '\r' {
        seq!['\\', 'r']
    } else if c == '\t' {
        seq!['\\', 't']
    } else {
        seq![c]
    }
}

/// The rendering of a string literal's characters, each escaped.
pub open spec fn escaped(s: Seq<char>) -> Seq<char>
    decreases s.len(),
{
    if s.len() == 0 {
        Seq::empty()
    } else {
        escape_char(s[0]) + escaped(s.drop_first())
    }
}

proof fn lemma_escaped_push(s: Seq<char>, c: char)
    ensures
        escaped(s.push(c)) == escaped(s) + escape_char(c),
    decreases s.len(),
{
    if s.len() == 0 {
        assert(s.push(c).drop_first() =~= s);
        assert(escaped(s.push(c)) =~= escaped(s) + escape_char(c));
    } else {
        lemma_escaped_push(s.drop_first(), c);
        assert(s.push(c).drop_first() =~= s.drop_first().push(c));
        assert(escaped(s.push(c)) =~= escaped(s) + escape_char(c));
    }
}

/// The printed form of an S-expression: Lisp-style parenthesized lists,
/// `. tail` for dotted lists, `#t`/`#f` for booleans, quoted strings,
/// decimal number literals, and formulas copied from the source.
pub open spec fn spec_render(src: Seq<char>, e: SExpr) -> Seq<char>
    decreases e,
{
    match e.k {
        SExprKind::Atom(a) => spec_span_atom(src, e.span, a),
        SExprKind::List(es) => if es@.len() == 0 {
            "()"@
        } else {
            "("@ + spec_render(src, es@[0]) + spec_render_rest(src, es@.drop_first()) + ")"@
        },
        SExprKind::DottedList(es, t) => "("@ + spec_render_dotted(src, es@) + ". "@ + spec_render(
            src,
            *t,
        ) + ")"@,
        SExprKind::Number(n) => dec_str(big_val(n)),
        SExprKind::String(s) => seq!['"'] + escaped(s@) + seq!['"'],
        SExprKind::Bool(b) => if b {
            "#t"@
        } else {
            "#f"@
        },
        SExprKind::Formula(f) => src.subrange(f.0.start as int, f.0.end as int),
    }
}

/// The printed form of the elements after the first of a plain list, each
/// preceded by a space.
pub open spec fn spec_render_rest(src: Seq<char>, s: Seq<SExpr>) -> Seq<char>
    decreases s,
{
    if s.len() == 0 {
        Seq::empty()
    } else {
        seq![' '] + spec_render(src, s[0]) + spec_render_rest(src, s.drop_first())
    }
}

/// The printed form of the elements of a dotted list, each followed by a
/// space.
pub open spec fn spec_render_dotted(src: Seq<char>, s: Seq<SExpr>) -> Seq<char>
    decreases s,
{
    if s.len() == 0 {
        Seq::empty()
    } else {
        spec_render(src, s[0]) + seq![' '] + spec_render_dotted(src, s.drop_first())
    }
}

proof fn lemma_render_rest_push(src: Seq<char>, s: Seq<SExpr>, x: SExpr)
    ensures
        spec_render_rest(src, s.push(x)) == spec_render_rest(src, s) + (seq![' '] + spec_render(
            src,
            x,
        )),
    decreases s.len(),
{
    if s.len() == 0 {
        assert(s.push(x).drop_first() =~= s);
        assert(spec_render_rest(src, s.push(x)) =~= spec_render_rest(src, s) + (seq![' ']
            + spec_render(src, x)));
    } else {
        lemma_render_rest_push(src, s.drop_first(), x);
        assert(s.push(x).drop_first() =~= s.drop_first().push(x));
        assert(spec_render_rest(src, s.push(x)) =~= spec_render_rest(src, s) + (seq![' ']
            + spec_render(src, x)));
    }
}

proof fn lemma_render_dotted_push(src: Seq<char>, s: Seq<SExpr>, x: SExpr)
    ensures
        spec_render_dotted(src, s.push(x)) == spec_render_dotted(src, s) + (spec_render(src, x)
            + seq![' ']),
    decreases s.len(),
{
    if s.len() == 0 {
        assert(s.push(x).drop_first() =~= s);
        assert(spec_render_dotted(src, s.push(x)) =~= spec_render_dotted(src, s) + (spec_render(
            src,
            x,
        ) + seq![' ']));
    } else {
        lemma_render_dotted_push(src, s.drop_first(), x);
        assert(s.push(x).drop_first() =~= s.drop_first().push(x));
        assert(spec_render_dotted(src, s.push(x)) =~= spec_render_dotted(src, s) + (spec_render(
            src,
            x,
        ) + seq![' ']));
    }
}

/// True when every span the renderer reads — identifier atom spans and
/// formula spans — lies inside a source text of length `len`.
pub open spec fn renderable(e: SExpr, len: nat) -> bool
    decreases e,
{
    match e.k {
        SExprKind::Atom(a) => a == Atom::Ident ==> e.span.in_bounds(len),
        SExprKind::List(es) => forall|i: int|
            0 <= i < es@.len() ==> renderable(#[trigger] es@[i], len),
        SExprKind::DottedList(es, t) => (forall|i: int|
            0 <= i < es@.len() ==> renderable(#[trigger] es@[i], len)) && renderable(*t, len),
        SExprKind::Formula(f) => f.0.in_bounds(len),
        _ => true,
    }
}

impl SExpr {
    /// Decides whether every span the renderer would read lies inside the
    /// given source, establishing the precondition of [`SExpr::render`].
    pub fn check_renderable(&self, src: &LinedString) -> (r: bool)
        ensures
            r == renderable(*self, src@.len()),
        decreases *self,
    {
        match &self.k {
            SExprKind::Atom(a) => {
                match a {
                    Atom::Ident => self.span.start <= self.span.end && self.span.end <= src.len(),
                    _ => true,
                }
            },
            SExprKind::List(es) => {
                let mut ok = true;
                let mut i: usize = 0;
                while i < es.len()
                    invariant
                        i <= es@.len(),
                        self.k == SExprKind::List(*es),
                        ok == (forall|j: int| 0 <= j < i ==> renderable(#[trigger] es@[j], src@.len())),
                    decreases es@.len() - i,
                {
                    proof {
                        assert(decreases_to!(*self => self.k));
                        assert(decreases_to!(self.k => self.k->List_0));
                        assert(self.k->List_0 == *es);
                        assert(decreases_to!(*es => es@[i as int]));
                    }
                    let ei = &es[i];
                    if !ei.check_renderable(src) {
                        ok = false;
                    }
                    i += 1;
                }
                ok
            },
            SExprKind::DottedList(es, t) => {
                let mut ok = true;
                let mut i: usize = 0;
                while i < es.len()
                    invariant
                        i <= es@.len(),
                        self.k == SExprKind::DottedList(*es, *t),
                        ok == (forall|j: int| 0 <= j < i ==> renderable(#[trigger] es@[j], src@.len())),
                    decreases es@.len() - i,
                {
                    proof {
                        assert(decreases_to!(*self => self.k));
                        assert(decreases_to!(self.k => self.k->DottedList_0));
                        assert(self.k->DottedList_0 == *es);
                        assert(decreases_to!(*es => es@[i as int]));
                    }
                    let ei = &es[i];
                    if !ei.check_renderable(src) {
                        ok = false;
                    }
                    i += 1;
                }
                ok && t.check_renderable(src)
            },
            SExprKind::Formula(f) => f.0.start <= f.0.end && f.0.end <= src.len(),
            _ => true,
        }
    }

    /// Renders the S-expression as text over the given source, which
    /// resolves identifier and formula spans.
    pub fn render(&self, src: &LinedString) -> (r: String)
        requires
            renderable(*self, src@.len()),
        ensures
            r@ == spec_render(src@, *self),
        decreases *self,
    {
        match &self.k {
            SExprKind::Atom(a) => String::from_str(src.span_atom(self.span, *a)),
            SExprKind::List(es) => {
                if es.len() == 0 {
                    String::from_str("()")
                } else {
                    let mut s = String::from_str("(");
                    let e0 = &es[0];
                    let r0 = e0.render(src);
                    s.append(r0.as_str());
                    let mut i: usize = 1;
                    while i < es.len()
                        invariant
                            1 <= i <= es@.len(),
                            self.k == SExprKind::List(*es),
                            forall|j: int| 0 <= j < es@.len() ==> renderable(#[trigger] es@[j], src@.len()),
                            s@ == "("@ + spec_render(src@, es@[0]) + spec_render_rest(
                                src@,
                                es@.subrange(1, i as int),
                            ),
                        decreases es@.len() - i,
                    {
                        let ei = &es[i];
                        proof {
                            assert(decreases_to!(*self => self.k));
                            assert(decreases_to!(self.k => self.k->List_0));
                            assert(self.k->List_0 == *es);
                            assert(decreases_to!(*es => es@[i as int]));
                        }
                        let ri = ei.render(src);
                        s.append(" ");
                        s.append(ri.as_str());
                        proof {
                            reveal_strlit(" ");
                            lemma_render_rest_push(src@, es@.subrange(1, i as int), es@[i as int]);
                            assert(es@.subrange(1, i + 1) =~= es@.subrange(1, i as int).push(
                                es@[i as int],
                            ));
                            assert(s@ =~= "("@ + spec_render(src@, es@[0]) + spec_render_rest(
                                src@,
                                es@.subrange(1, i + 1),
                            ));
                        }
                        i += 1;
                    }
                    s.append(")");
                    proof {
                        assert(es@.subrange(1, es@.len() as int) =~= es@.drop_first());
                        assert(s@ =~= spec_render(src@, *self));
                    }
                    s
                }
            },
            SExprKind::DottedList(es, t) => {
                let mut s = String::from_str("(");
                let mut i: usize = 0;
                while i < es.len()
                    invariant
                        i <= es@.len(),
                        self.k == SExprKind::DottedList(*es, *t),
                        forall|j: int| 0 <= j < es@.len() ==> renderable(#[trigger] es@[j], src@.len()),
                        s@ == "("@ + spec_render_dotted(src@, es@.subrange(0, i as int)),
                    decreases es@.len() - i,
                {
                    let ei = &es[i];
                    proof {
                        assert(decreases_to!(*self => self.k));
                        assert(decreases_to!(self.k => self.k->DottedList_0));
                        assert(self.k->DottedList_0 == *es);
                        assert(decreases_to!(*es => es@[i as int]));
                    }
                    let ri = ei.render(src);
                    s.append(ri.as_str());
                    s.append(" ");
                    proof {
                        reveal_strlit(" ");
                        lemma_render_dotted_push(src@, es@.subrange(0, i as int), es@[i as int]);
                        assert(es@.subrange(0, i + 1) =~= es@.subrange(0, i as int).push(
                            es@[i as int],
                        ));
                        assert(s@ =~= "("@ + spec_render_dotted(src@, es@.subrange(0, i + 1)));
                    }
                    i += 1;
                }
                s.append(". ");
                let rt = t.render(src);
                s.append(rt.as_str());
                s.append(")");
                proof {
                    assert(es@.subrange(0, es@.len() as int) =~= es@);
                    assert(s@ =~= spec_render(src@, *self));
                }
                s
            },
            SExprKind::Number(n) => big_to_decimal(n),
            SExprKind::String(st) => {
                let mut s = String::new();
                s.push('"');
                let chars = st.as_str();
                let len = chars.unicode_len();
                let mut i: usize = 0;
                while i < len
                    invariant
                        i <= len,
                        len == chars@.len(),
                        chars@ == st@,
                        s@ == seq!['"'] + escaped(st@.subrange(0, i as int)),
                    decreases len - i,
                {
                    let c = chars.get_char(i);
                    if c == '\\' {
                        s.append("\\\\");
                        proof {
                            reveal_strlit("\\\\");
                        }
                    } else if c == '"' {
                        s.append("\\\"");
                        proof {
                            reveal_strlit("\\\"");
                        }
                    } else if c == '\n' {
                        s.append("\\n");
                        proof {
                            reveal_strlit("\\n");
                        }
                    } else if c == '\r' {
                        s.append("\\r");
                        proof {
                            reveal_strlit("\\r");
                        }
                    } else if c == '\t' {
                        s.append("\\t");
                        proof {
                            reveal_strlit("\\t");
                        }
                    } else {
                        s.push(c);
                    }
                    proof {
                        lemma_escaped_push(st@.subrange(0, i as int), st@[i as int]);
                        assert(st@.subrange(0, i + 1) =~= st@.subrange(0, i as int).push(
                            st@[i as int],
                        ));
                        assert(s@ =~= seq!['"'] + escaped(st@.subrange(0, i + 1)));
                    }
                    i += 1;
                }
                s.push('"');
                proof {
                    assert(st@.subrange(0, st@.len() as int) =~= st@);
                    assert(s@ =~= spec_render(src@, *self));
                }
                s
            },
            SExprKind::Bool(b) => {
                if *b {
                    String::from_str("#t")
                } else {
                    String::from_str("#f")
                }
            },
            SExprKind::Formula(f) => String::from_str(src.text_at(f.0)),
        }
    }
}

} // verus!
