use mm0_ast::{DeclKind, Modifiers};

fn mods_from_bits(bits: u8) -> Modifiers {
    Modifiers {
        pure: bits & 1 != 0,
        strict: bits & 2 != 0,
        provable: bits & 4 != 0,
        free: bits & 8 != 0,
        public: bits & 16 != 0,
        abstract_: bits & 32 != 0,
        local: bits & 64 != 0,
    }
}

#[test]
fn test_allowed_visibility_exhaustive() {
    let kinds = [DeclKind::Term, DeclKind::Axiom, DeclKind::Thm, DeclKind::Def];
    for bits in 0u8..128 {
        let m = mods_from_bits(bits);
        for &k in kinds.iter() {
            let expected = match k {
                DeclKind::Term | DeclKind::Axiom => bits == 0,
                DeclKind::Def => bits == 0 || bits == 32 || bits == 64,
                DeclKind::Thm => bits == 0 || bits == 16,
            };
            assert_eq!(m.allowed_visibility(k), expected, "bits {} kind {:?}", bits, k);
        }
    }
}

#[test]
fn test_sort_data() {
    let m = Modifiers::sort_data();
    assert!(m.pure && m.strict && m.provable && m.free);
    assert!(!m.public && !m.abstract_ && !m.local);
}

#[test]
fn test_empty_and_is_empty() {
    assert!(Modifiers::empty().is_empty());
    assert!(!Modifiers::sort_data().is_empty());
}

#[test]
fn test_union_and_contains() {
    let a = mods_from_bits(1 | 4);
    let b = mods_from_bits(4 | 16);
    let u = a.union(b);
    assert_eq!(u, mods_from_bits(1 | 4 | 16));
    assert!(u.contains(a));
    assert!(u.contains(b));
    assert!(!a.contains(b));
}

#[test]
fn test_from_name() {
    assert_eq!(Modifiers::from_name("pure"), Some(mods_from_bits(1)));
    assert_eq!(Modifiers::from_name("strict"), Some(mods_from_bits(2)));
    assert_eq!(Modifiers::from_name("provable"), Some(mods_from_bits(4)));
    assert_eq!(Modifiers::from_name("free"), Some(mods_from_bits(8)));
    assert_eq!(Modifiers::from_name("pub"), Some(mods_from_bits(16)));
    assert_eq!(Modifiers::from_name("abstract"), Some(mods_from_bits(32)));
    assert_eq!(Modifiers::from_name("local"), Some(mods_from_bits(64)));
    assert_eq!(Modifiers::from_name("public"), None);
    assert_eq!(Modifiers::from_name(""), None);
}

#[test]
fn test_modifiers_display() {
    assert_eq!(Modifiers::empty().to_display_string(), "");
    assert_eq!(mods_from_bits(1 | 4).to_display_string(), "pure provable ");
    assert_eq!(mods_from_bits(127).to_display_string(), "pure strict provable free pub abstract local ");
}
