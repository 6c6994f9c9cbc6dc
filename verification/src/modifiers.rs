//! Declaration modifiers and the per-declaration-kind visibility rule.

use vstd::prelude::*;
use crate::text::str_eq;

verus! {

/// The kind of a declaration statement.
#[derive(Clone, Copy, Debug, PartialEq, Eq, Structural)]
pub enum DeclKind {
    Term,
    Axiom,
    Thm,
    Def,
}

/// A set of declaration modifiers, one flag per modifier keyword.
///
/// Any subset is representable; which subsets are legal depends on where the
/// set appears, and is decided by [`Modifiers::allowed_visibility`] for
/// declarations and by [`Modifiers::sort_data`] for sort statements.
#[derive(Clone, Copy, Debug, PartialEq, Eq, Structural)]
pub struct Modifiers {
    pub pure: bool,
    pub strict: bool,
    pub provable: bool,
    pub free: bool,
    pub public: bool,
    pub abstract_: bool,
    pub local: bool,
}

impl Modifiers {
    /// The empty modifier set.
    pub open spec fn spec_empty() -> Modifiers {
        Modifiers {
            pure: false,
            strict: false,
            provable: false,
            free: false,
            public: false,
            abstract_: false,
            local: false,
        }
    }

    pub fn empty() -> (r: Modifiers)
        ensures
            r == Modifiers::spec_empty(),
    {
        Modifiers {
            pure: false,
            strict: false,
            provable: false,
            free: false,
            public: false,
            abstract_: false,
            local: false,
        }
    }

    /// True when no flag is set.
    pub open spec fn spec_is_empty(self) -> bool {
        self == Modifiers::spec_empty()
    }

    pub fn is_empty(self) -> (r: bool)
        ensures
            r == self.spec_is_empty(),
    {
        let r = !self.pure && !self.strict && !self.provable && !self.free && !self.public
            && !self.abstract_ && !self.local;
        proof {
            if r {
                assert(self =~= Modifiers::spec_empty());
            }
        }
        r
    }

    /// The union of two modifier sets.
    pub open spec fn spec_union(self, other: Modifiers) -> Modifiers {
        Modifiers {
            pure: self.pure || other.pure,
            strict: self.strict || other.strict,
            provable: self.provable || other.provable,
            free: self.free || other.free,
            public: self.public || other.public,
            abstract_: self.abstract_ || other.abstract_,
            local: self.local || other.local,
        }
    }

    pub fn union(self, other: Modifiers) -> (r: Modifiers)
        ensures
            r == self.spec_union(other),
    {
        Modifiers {
            pure: self.pure || other.pure,
            strict: self.strict || other.strict,
            provable: self.provable || other.provable,
            free: self.free || other.free,
            public: self.public || other.public,
            abstract_: self.abstract_ || other.abstract_,
            local: self.local || other.local,
        }
    }

    /// True when every flag of `other` is also set in `self`.
    pub open spec fn spec_contains(self, other: Modifiers) -> bool {
        self.spec_union(other) == self
    }

    pub fn contains(self, other: Modifiers) -> (r: bool)
        ensures
            r == self.spec_contains(other),
    {
        let r = (!other.pure || self.pure) && (!other.strict || self.strict) && (!other.provable
            || self.provable) && (!other.free || self.free) && (!other.public || self.public) && (
        !other.abstract_ || self.abstract_) && (!other.local || self.local);
        proof {
            if r {
                assert(self.spec_union(other) =~= self);
            } else {
                assert(self.spec_union(other) != self);
            }
        }
        r
    }

    /// The modifier set with only the `abstract` flag.
    pub open spec fn spec_abstract_only() -> Modifiers {
        Modifiers { abstract_: true, ..Modifiers::spec_empty() }
    }

    /// The modifier set with only the `local` flag.
    pub open spec fn spec_local_only() -> Modifiers {
        Modifiers { local: true, ..Modifiers::spec_empty() }
    }

    /// The modifier set with only the `pub` flag.
    pub open spec fn spec_public_only() -> Modifiers {
        Modifiers { public: true, ..Modifiers::spec_empty() }
    }

    /// The set of flags meaningful on a sort declaration:
    /// `pure`, `strict`, `provable` and `free`.
    pub fn sort_data() -> (r: Modifiers)
        ensures
            r == (Modifiers {
                pure: true,
                strict: true,
                provable: true,
                free: true,
                public: false,
                abstract_: false,
                local: false,
            }),
    {
        Modifiers {
            pure: true,
            strict: true,
            provable: true,
            free: true,
            public: false,
            abstract_: false,
            local: false,
        }
    }

    /// The legality rule for a modifier set on a declaration of kind `k`:
    /// terms and axioms take no modifiers, a definition may be marked
    /// `abstract` or `local` (but not both, and with nothing else), and a
    /// theorem may be marked `pub`.
    pub open spec fn spec_allowed_visibility(self, k: DeclKind) -> bool {
        match k {
            DeclKind::Term => self.spec_is_empty(),
            DeclKind::Axiom => self.spec_is_empty(),
            DeclKind::Def => self == Modifiers::spec_abstract_only() || self
                == Modifiers::spec_local_only() || self.spec_is_empty(),
            DeclKind::Thm => self == Modifiers::spec_public_only() || self.spec_is_empty(),
        }
    }

    /// Decides whether this modifier set is legal on a declaration of kind
    /// `k`. Illegal combinations are reported as parse errors by the caller;
    /// nothing here rejects them structurally.
    pub fn allowed_visibility(self, k: DeclKind) -> (r: bool)
        ensures
            r == self.spec_allowed_visibility(k),
    {
        match k {
            DeclKind::Term => self.is_empty(),
            DeclKind::Axiom => self.is_empty(),
            DeclKind::Def => {
                let ab = Modifiers { abstract_: true, ..Modifiers::empty() };
                let lo = Modifiers { local: true, ..Modifiers::empty() };
                self == ab || self == lo || self.is_empty()
            },
            DeclKind::Thm => {
                let pb = Modifiers { public: true, ..Modifiers::empty() };
                self == pb || self.is_empty()
            },
        }
    }

    /// The meaning of a single modifier keyword, or `None` for any other
    /// word.
    pub open spec fn spec_from_name(s: Seq<char>) -> Option<Modifiers> {
        if s == "pure"@ {
            Some(Modifiers { pure: true, ..Modifiers::spec_empty() })
        } else if s == "strict"@ {
            Some(Modifiers { strict: true, ..Modifiers::spec_empty() })
        } else if s == "provable"@ {
            Some(Modifiers { provable: true, ..Modifiers::spec_empty() })
        } else if s == "free"@ {
            Some(Modifiers { free: true, ..Modifiers::spec_empty() })
        } else if s == "pub"@ {
            Some(Modifiers { public: true, ..Modifiers::spec_empty() })
        } else if s == "abstract"@ {
            Some(Modifiers { abstract_: true, ..Modifiers::spec_empty() })
        } else if s == "local"@ {
            Some(Modifiers { local: true, ..Modifiers::spec_empty() })
        } else {
            None
        }
    }

    /// Parses a single modifier keyword.
    pub fn from_name(s: &str) -> (r: Option<Modifiers>)
        ensures
            r == Modifiers::spec_from_name(s@),
    {
        if str_eq(s, "pure") {
            Some(Modifiers { pure: true, ..Modifiers::empty() })
        } else if str_eq(s, "strict") {
            Some(Modifiers { strict: true, ..Modifiers::empty() })
        } else if str_eq(s, "provable") {
            Some(Modifiers { provable: true, ..Modifiers::empty() })
        } else if str_eq(s, "free") {
            Some(Modifiers { free: true, ..Modifiers::empty() })
        } else if str_eq(s, "pub") {
            Some(Modifiers { public: true, ..Modifiers::empty() })
        } else if str_eq(s, "abstract") {
            Some(Modifiers { abstract_: true, ..Modifiers::empty() })
        } else if str_eq(s, "local") {
            Some(Modifiers { local: true, ..Modifiers::empty() })
        } else {
            None
        }
    }

    /// The rendering of a modifier set: each set flag's keyword followed by
    /// one space, in the fixed order of the flags.
    pub open spec fn spec_display(self) -> Seq<char> {
        (if self.pure {
            "pure "@
        } else {
            Seq::<char>::empty()
        }) + (if self.strict {
            "strict "@
        } else {
            Seq::<char>::empty()
        }) + (if self.provable {
            "provable "@
        } else {
            Seq::<char>::empty()
        }) + (if self.free {
            "free "@
        } else {
            Seq::<char>::empty()
        }) + (if self.public {
            "pub "@
        } else {
            Seq::<char>::empty()
        }) + (if self.abstract_ {
            "abstract "@
        } else {
            Seq::<char>::empty()
        }) + (if self.local {
            "local "@
        } else {
            Seq::<char>::empty()
        })
    }

    /// Renders the modifier set as the keywords it contains, each followed
    /// by a space.
    pub fn to_display_string(self) -> (r: String)
        ensures
            r@ == self.spec_display(),
    {
        let mut s = String::new();
        if self.pure {
            s.append("pure ");
        }
        if self.strict {
            s.append("strict ");
        }
        if self.provable {
            s.append("provable ");
        }
        if self.free {
            s.append("free ");
        }
        if self.public {
            s.append("pub ");
        }
        if self.abstract_ {
            s.append("abstract ");
        }
        if self.local {
            s.append("local ");
        }
        assert(s@ =~= self.spec_display());
        s
    }
}

} // verus!
