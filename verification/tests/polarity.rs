use eight_segment::lit_to_physical;

#[test]
fn lit_on_a_high_on_display_is_high() {
    assert!(lit_to_physical(true, true));
}

#[test]
fn dark_on_a_high_on_display_is_low() {
    assert!(!lit_to_physical(false, true));
}

#[test]
fn lit_on_a_low_on_display_is_low() {
    assert!(!lit_to_physical(true, false));
}

#[test]
fn dark_on_a_low_on_display_is_high() {
    assert!(lit_to_physical(false, false));
}

#[test]
fn level_is_lit_xor_not_high_on() {
    for lit in [false, true] {
        for high_on in [false, true] {
            assert_eq!(lit_to_physical(lit, high_on), lit ^ !high_on);
        }
    }
}

#[test]
fn opposite_polarity_gives_the_opposite_level() {
    for lit in [false, true] {
        assert_eq!(lit_to_physical(lit, true), !lit_to_physical(lit, false));
    }
}
