use mm0_ast::Prec;

#[test]
fn test_max_greater_than_every_numeric() {
    for n in [0u32, 1, 2, 123, u32::MAX - 1, u32::MAX] {
        assert!(Prec::Prec(n) < Prec::Max);
        assert!(Prec::Max > Prec::Prec(n));
        assert!(Prec::Max != Prec::Prec(n));
    }
    assert!(Prec::Max == Prec::Max);
    assert!(!(Prec::Max < Prec::Max));
}

#[test]
fn test_numeric_order_matches_numbers() {
    assert!(Prec::Prec(1) < Prec::Prec(2));
    assert!(Prec::Prec(2) > Prec::Prec(1));
    assert!(Prec::Prec(7) == Prec::Prec(7));
    assert!(!(Prec::Prec(7) < Prec::Prec(7)));
    assert!(Prec::Prec(0) < Prec::Prec(u32::MAX));
}

#[test]
fn test_prec_display() {
    assert_eq!(Prec::Prec(0).to_display_string(), "0");
    assert_eq!(Prec::Prec(10).to_display_string(), "10");
    assert_eq!(Prec::Prec(4095).to_display_string(), "4095");
    assert_eq!(Prec::Max.to_display_string(), "max");
}
