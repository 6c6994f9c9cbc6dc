//! The syntax-tree aggregate: the source handle, the parsed statements,
//! collected imports and parse errors, and checkpoint lookup for resumable
//! parsing.

use vstd::prelude::*;
use std::sync::Arc;
use crate::lined_string::{spec_span_atom, LinedString};
use crate::sexpr::Atom;
use crate::span::Span;
use crate::stmt::Stmt;

verus! {

/// A parse error recorded while building the tree: where it was found and
/// what the parser had to say.
#[derive(Debug)]
pub struct ParseError {
    pub pos: Span,
    pub msg: String,
}

/// The completed syntax tree of one source file: the shared source text,
/// the collected import references, the top-level statements in source
/// order, and the parse errors accumulated along the way. Constructed once
/// by the parser and immutable thereafter.
pub struct AST {
    pub source: Arc<LinedString>,
    pub imports: Vec<(Span, String)>,
    pub stmts: Vec<Stmt>,
    pub errors: Vec<ParseError>,
}

/// The end offsets of the statements, in order.
pub open spec fn stmt_ends(stmts: Seq<Stmt>) -> Seq<usize> {
    stmts.map_values(|s: Stmt| s.span.end)
}

/// Statements are appended in source order and never overlap, so their end
/// offsets are strictly increasing.
pub open spec fn ends_strictly_increasing(stmts: Seq<Stmt>) -> bool {
    forall|i: int, j: int|
        0 <= i < j < stmts.len() ==> (#[trigger] stmts[i]).span.end < (#[trigger] stmts[j]).span.end
}

/// What checkpoint lookup returns for `pos` over the end offsets `ends`:
/// an exact match at `i` resumes at statement `i + 1` from `pos`; a
/// position before every end resumes at statement `0` from offset `0`;
/// otherwise parsing resumes at the insertion index from the end offset of
/// the preceding statement.
pub open spec fn is_checkpoint(ends: Seq<usize>, pos: usize, r: (usize, usize)) -> bool {
    &&& (forall|i: int| 0 <= i < ends.len() && ends[i] == pos ==> r == (((i + 1) as usize), pos))
    &&& ((forall|i: int| 0 <= i < ends.len() ==> #[trigger] ends[i] != pos) ==> {
        &&& (r.0 == 0 ==> r.1 == 0 && (forall|i: int| 0 <= i < ends.len() ==> #[trigger] ends[i] > pos))
        &&& (r.0 > 0 ==> {
            &&& r.0 <= ends.len()
            &&& ends[r.0 - 1] == r.1
            &&& ends[r.0 - 1] < pos
            &&& (r.0 < ends.len() ==> ends[r.0 as int] > pos)
        })
    })
}

impl AST {
    /// The source text under a span.
    pub fn span(&self, s: Span) -> (r: &str)
        requires
            s.in_bounds(self.source@.len()),
        ensures
            r@ == self.source@.subrange(s.start as int, s.end as int),
    {
        self.source.text_at(s)
    }

    /// The text an atom at span `sp` stands for.
    pub fn span_atom(&self, sp: Span, a: Atom) -> (r: &str)
        requires
            a == Atom::Ident ==> sp.in_bounds(self.source@.len()),
        ensures
            r@ == spec_span_atom(self.source@, sp, a),
    {
        self.source.span_atom(sp, a)
    }

    /// Finds, by binary search over the statement end offsets, the statement
    /// index and byte offset from which to resume parsing after an edit at
    /// position `pos`.
    pub fn last_checkpoint(&self, pos: usize) -> (r: (usize, usize))
        requires
            ends_strictly_increasing(self.stmts@),
        ensures
            is_checkpoint(stmt_ends(self.stmts@), pos, r),
    {
        let ghost ends = stmt_ends(self.stmts@);
        let mut lo: usize = 0;
        let mut hi: usize = self.stmts.len();
        while lo < hi
            invariant
                lo <= hi <= self.stmts@.len(),
                ends == stmt_ends(self.stmts@),
                ends_strictly_increasing(self.stmts@),
                forall|i: int| 0 <= i < lo ==> #[trigger] ends[i] < pos,
                forall|i: int| hi <= i < ends.len() ==> #[trigger] ends[i] > pos,
            decreases hi - lo,
        {
            let mid = lo + (hi - lo) / 2;
            let e = self.stmts[mid].span.end;
            assert(e == ends[mid as int]);
            if e < pos {
                assert(forall|i: int|
                    0 <= i <= mid ==> #[trigger] ends[i] <= ends[mid as int] < pos);
                lo = mid + 1;
            } else if e > pos {
                assert(forall|i: int|
                    mid <= i < ends.len() ==> pos < ends[mid as int] <= #[trigger] ends[i]);
                hi = mid;
            } else {
                return (mid + 1, pos);
            }
        }
        if lo == 0 {
            (0, 0)
        } else {
            (lo, self.stmts[lo - 1].span.end)
        }
    }
}

} // verus!
