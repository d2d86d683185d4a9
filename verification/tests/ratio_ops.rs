use loquat_common::ratio::Ratio;

#[test]
fn rational_arithmetic_is_exact() {
    let a = Ratio::new(1, 3);
    let b = Ratio::new(1, 6);
    assert!(a.add_r(&b).unwrap().eq_rat(&Ratio::new(1, 2)));
    assert!(a.sub_r(&b).unwrap().eq_rat(&Ratio::new(1, 6)));
    assert!(a.mul_r(&b).unwrap().eq_rat(&Ratio::new(1, 18)));
    assert!(a.div_r(&b).unwrap().eq_rat(&Ratio::from_int(2)));
}

#[test]
fn division_keeps_the_denominator_positive() {
    let a = Ratio::from_int(1);
    let b = Ratio::from_int(-2);
    let q = a.div_r(&b).unwrap();
    assert!(q.den() > 0);
    assert!(q.eq_rat(&Ratio::new(-1, 2)));
}

#[test]
fn powers_are_exact() {
    let a = Ratio::new(3, 2);
    assert!(a.pow_r(0).unwrap().eq_rat(&Ratio::from_int(1)));
    assert!(a.pow_r(3).unwrap().eq_rat(&Ratio::new(27, 8)));
    assert!(a.pow_r(5).unwrap().eq_rat(&Ratio::new(243, 32)));
}

#[test]
fn overflowing_operations_report_no_value() {
    let big = Ratio::from_int(i64::MAX);
    assert!(big.add_r(&big).is_none());
    assert!(big.mul_r(&big).is_none());
    assert!(big.pow_r(2).is_none());
}

#[test]
fn comparisons_follow_the_rational_order() {
    let a = Ratio::new(1, 3);
    let b = Ratio::new(2, 6);
    let c = Ratio::new(1, 2);
    assert!(a.eq_rat(&b));
    assert!(a.le_rat(&b));
    assert!(!a.lt_rat(&b));
    assert!(a.lt_rat(&c));
    assert!(!c.le_rat(&a));
    assert!(Ratio::from_int(0).is_zero());
}
