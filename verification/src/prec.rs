//! Precedence levels for notation: a numeric level or the distinguished
//! maximum, which is greater than every numeric level.

use vstd::prelude::*;
use vstd::std_specs::cmp::PartialOrdSpec;
use core::cmp::Ordering;
use crate::text::{dec_str, u32_dec};

verus! {

/// A precedence: a numeric level, or the maximum.
#[derive(Clone, Copy, Debug, PartialEq, Eq, Structural)]
pub enum Prec {
    Prec(u32),
    Max,
}

impl PartialOrd for Prec {
    fn partial_cmp(&self, other: &Prec) -> (r: Option<Ordering>) {
        match (self, other) {
            (Prec::Prec(a), Prec::Prec(b)) => {
                if a < b {
                    Some(Ordering::Less)
                } else if a == b {
                    Some(Ordering::Equal)
                } else {
                    Some(Ordering::Greater)
                }
            },
            (Prec::Prec(_), Prec::Max) => Some(Ordering::Less),
            (Prec::Max, Prec::Prec(_)) => Some(Ordering::Greater),
            (Prec::Max, Prec::Max) => Some(Ordering::Equal),
        }
    }
}

impl vstd::std_specs::cmp::PartialOrdSpecImpl for Prec {
    open spec fn obeys_partial_cmp_spec() -> bool {
        true
    }

    open spec fn partial_cmp_spec(&self, other: &Prec) -> Option<Ordering> {
        match (*self, *other) {
            (Prec::Prec(a), Prec::Prec(b)) => if a < b {
                Some(Ordering::Less)
            } else if a == b {
                Some(Ordering::Equal)
            } else {
                Some(Ordering::Greater)
            },
            (Prec::Prec(_), Prec::Max) => Some(Ordering::Less),
            (Prec::Max, Prec::Prec(_)) => Some(Ordering::Greater),
            (Prec::Max, Prec::Max) => Some(Ordering::Equal),
        }
    }
}

/// The maximum precedence is strictly greater than every numeric level, and
/// numeric levels compare exactly as their numbers do.
pub proof fn lemma_prec_order(a: u32, b: u32)
    ensures
        Prec::Prec(a).partial_cmp_spec(&Prec::Max) == Some(Ordering::Less),
        Prec::Max.partial_cmp_spec(&Prec::Prec(a)) == Some(Ordering::Greater),
        Prec::Max.partial_cmp_spec(&Prec::Max) == Some(Ordering::Equal),
        (Prec::Prec(a).partial_cmp_spec(&Prec::Prec(b)) == Some(Ordering::Less)) <==> a < b,
        (Prec::Prec(a).partial_cmp_spec(&Prec::Prec(b)) == Some(Ordering::Equal)) <==> a == b,
        (Prec::Prec(a).partial_cmp_spec(&Prec::Prec(b)) == Some(Ordering::Greater)) <==> a > b,
{
}

impl Prec {
    /// The rendering of a precedence: the decimal level, or `max`.
    pub open spec fn spec_display(self) -> Seq<char> {
        match self {
            Prec::Prec(p) => dec_str(p as nat),
            Prec::Max => "max"@,
        }
    }

    /// Renders the precedence as text.
    pub fn to_display_string(self) -> (r: String)
        ensures
            r@ == self.spec_display(),
    {
        match self {
            Prec::Prec(p) => u32_dec(p),
            Prec::Max => String::from_str("max"),
        }
    }
}

} // verus!
