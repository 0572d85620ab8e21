//! Powers with fractional exponents.
use tincd::natural::Natural;
use tincd::rounding::nearest_power;

#[test]
fn naturals_compare_as_numbers() {
    let mut a = Natural::one();
    let mut b = Natural::one();
    assert!(a.at_most(&b));
    for _ in 0..100 {
        a.scale(3);
        b.scale(3);
    }
    assert!(a.at_most(&b) && b.at_most(&a));
    b.scale(2);
    assert!(a.at_most(&b));
    assert!(!b.at_most(&a));
}

#[test]
fn whole_exponents_are_exact() {
    assert_eq!(nearest_power(1000, 7, 7), 1000);
    assert_eq!(nearest_power(1000, 0, 7), 1);
    assert_eq!(nearest_power(65_535, 700, 700), 65_535);
}

#[test]
fn roots_are_rounded() {
    // 2.24 and 2.45
    assert_eq!(nearest_power(5, 1, 2), 2);
    assert_eq!(nearest_power(6, 1, 2), 2);
    // 2.65
    assert_eq!(nearest_power(7, 1, 2), 3);
    assert_eq!(nearest_power(100, 1, 2), 10);
    assert_eq!(nearest_power(1006, 679, 700), 818);
}
