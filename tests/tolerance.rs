use aline::IVec2;

#[test]
fn should_equal() {
    let cases = [(IVec2::zero(), IVec2::zero()), (IVec2::new(12, 34), IVec2::new(12, 34))];
    for (a, b) in cases {
        let epsilon = IVec2::default_epsilon();
        assert!(a.abs_diff_eq(&b, epsilon));
        assert!(!a.abs_diff_ne(&b, epsilon));
    }
}

#[test]
fn should_not_equal() {
    let cases = [
        (IVec2::zero(), IVec2::unit_x()),
        (IVec2::unit_x(), IVec2::unit_y()),
        (IVec2::new(12, 34), IVec2::new(34, 12)),
    ];
    for (a, b) in cases {
        let epsilon = IVec2::default_epsilon();
        assert!(!a.abs_diff_eq(&b, epsilon));
        assert!(a.abs_diff_ne(&b, epsilon));
    }
}

#[test]
fn default_epsilon_is_zero() {
    assert_eq!(IVec2::default_epsilon(), 0);
}

#[test]
fn tolerance_applies_to_each_component() {
    let a = IVec2::new(10, -10);
    assert!(a.abs_diff_eq(&IVec2::new(13, -7), 3));
    assert!(a.abs_diff_eq(&IVec2::new(7, -13), 3));
    assert!(!a.abs_diff_eq(&IVec2::new(10, -14), 3));
    assert!(!a.abs_diff_eq(&IVec2::new(14, -10), 3));
    assert!(!a.abs_diff_eq(&a, -1));
}
