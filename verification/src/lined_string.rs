//! The immutable source text that every span points into.

use vstd::prelude::*;
use crate::span::Span;
use crate::sexpr::Atom;

verus! {

/// An immutable source text. Spans index into its character sequence.
pub struct LinedString {
    text: String,
}

impl View for LinedString {
    type V = Seq<char>;

    closed spec fn view(&self) -> Seq<char> {
        self.text@
    }
}

/// The text an atom stands for: identifiers carry their own source text
/// under their span, while the quoting forms and the non-fixed-arity marker
/// have fixed spellings.
pub open spec fn spec_span_atom(src: Seq<char>, sp: Span, a: Atom) -> Seq<char> {
    match a {
        Atom::Ident => src.subrange(sp.start as int, sp.end as int),
        Atom::Quote => "quote"@,
        Atom::Unquote => "unquote"@,
        Atom::Nfx => ":nfx"@,
    }
}

impl LinedString {
    pub fn new(text: String) -> (r: LinedString)
        ensures
            r@ == text@,
    {
        LinedString { text }
    }

    /// The number of characters in the source.
    pub fn len(&self) -> (r: usize)
        ensures
            r == self@.len(),
    {
        self.text.as_str().unicode_len()
    }

    /// The text under a span. Spans are only ever produced by the lexer over
    /// this same text, so a span out of bounds is a caller error.
    pub fn text_at(&self, sp: Span) -> (r: &str)
        requires
            sp.in_bounds(self@.len()),
        ensures
            r@ == self@.subrange(sp.start as int, sp.end as int),
    {
        self.text.as_str().substring_char(sp.start, sp.end)
    }

    /// The text an atom at span `sp` stands for.
    pub fn span_atom(&self, sp: Span, a: Atom) -> (r: &str)
        requires
            a == Atom::Ident ==> sp.in_bounds(self@.len()),
        ensures
            r@ == spec_span_atom(self@, sp, a),
    {
        match a {
            Atom::Ident => self.text_at(sp),
            Atom::Quote => "quote",
            Atom::Unquote => "unquote",
            Atom::Nfx => ":nfx",
        }
    }
}

} // verus!
