use loquat_common::fan_series::FanSeries;
use loquat_common::fan_series::FanType;

#[test]
fn fan_series_keeps_its_fields() {
    let s = FanSeries::new(String::from("S-100"), FanType::Centrifugal);
    assert_eq!(s.id, "S-100");
    assert_eq!(s.fan_type, FanType::Centrifugal);
}

#[test]
fn fan_series_equality_compares_fields() {
    let a = FanSeries::new(String::from("S-100"), FanType::Axial);
    let b = a.clone();
    assert_eq!(a, b);
    let c = FanSeries::new(String::from("S-200"), FanType::Axial);
    assert_ne!(a, c);
}
