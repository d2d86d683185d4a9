use loquat_common::calculations::Quantity;
use loquat_common::calculations::ScaleError;
use loquat_common::calculations::ScalesTo;
use loquat_common::calculations::ScalesWith;
use loquat_common::ratio::Ratio;
use loquat_common::units::AirDensity;
use loquat_common::units::BrakeHorsepower;
use loquat_common::units::FanDiameter;
use loquat_common::units::FanSpeed;
use loquat_common::units::InletAirflow;
use loquat_common::units::OutletAirflow;
use loquat_common::units::StaticPressure;

#[test]
fn scale_to_same_context_is_identity() {
    let q = InletAirflow::from_cfm(Ratio::new(1234, 7));
    let d = FanDiameter::from_inches(Ratio::from_int(10));
    let r = q.scale(&d, &d).unwrap();
    assert_eq!(r, q);
}

#[test]
fn scale_to_rationally_equal_context_is_identity() {
    let q = StaticPressure::from_inches_wg(Ratio::from_int(9));
    let d1 = FanDiameter::from_inches(Ratio::from_int(10));
    let d2 = FanDiameter::from_inches(Ratio::new(20, 2));
    let r = q.scale(&d1, &d2).unwrap();
    assert_eq!(r, q);
}

#[test]
fn scale_context_value_to_itself_is_identity() {
    let d = FanDiameter::from_inches(Ratio::from_int(10));
    let r = d.scale(&d, &d).unwrap();
    assert_eq!(r, d);
}

#[test]
fn scaling_composes_transitively() {
    let q = InletAirflow::from_cfm(Ratio::from_int(3));
    let d10 = FanDiameter::from_inches(Ratio::from_int(10));
    let d20 = FanDiameter::from_inches(Ratio::from_int(20));
    let d40 = FanDiameter::from_inches(Ratio::from_int(40));
    let stepped = q.scale(&d10, &d20).unwrap().scale(&d20, &d40).unwrap();
    let direct = q.scale(&d10, &d40).unwrap();
    assert!(stepped.cfm().eq_rat(&direct.cfm()));
    assert!(direct.cfm().eq_rat(&Ratio::from_int(192)));
}

#[test]
fn diameter_scaling_follows_affinity_exponents() {
    let d10 = FanDiameter::from_inches(Ratio::from_int(10));
    let d20 = FanDiameter::from_inches(Ratio::from_int(20));

    let airflow = InletAirflow::from_cfm(Ratio::from_int(3));
    assert!(airflow.scale(&d10, &d20).unwrap().cfm().eq_rat(&Ratio::from_int(24)));

    let outlet = OutletAirflow::from_cfm(Ratio::from_int(5));
    assert!(outlet.scale(&d10, &d20).unwrap().cfm().eq_rat(&Ratio::from_int(40)));

    let pressure = StaticPressure::from_inches_wg(Ratio::from_int(6));
    assert!(pressure.scale(&d10, &d20).unwrap().inches_wg().eq_rat(&Ratio::from_int(24)));

    let power = BrakeHorsepower::from_hp(Ratio::from_int(2));
    assert!(power.scale(&d10, &d20).unwrap().hp().eq_rat(&Ratio::from_int(64)));
}

#[test]
fn speed_scaling_follows_affinity_exponents() {
    let n1 = FanSpeed::from_rpm(Ratio::from_int(1000));
    let n2 = FanSpeed::from_rpm(Ratio::from_int(2000));

    let airflow = InletAirflow::from_cfm(Ratio::from_int(7));
    assert!(airflow.scale(&n1, &n2).unwrap().cfm().eq_rat(&Ratio::from_int(14)));

    let pressure = StaticPressure::from_inches_wg(Ratio::from_int(3));
    assert!(pressure.scale(&n1, &n2).unwrap().inches_wg().eq_rat(&Ratio::from_int(12)));

    let power = BrakeHorsepower::from_hp(Ratio::from_int(5));
    assert!(power.scale(&n1, &n2).unwrap().hp().eq_rat(&Ratio::from_int(40)));
}

#[test]
fn density_scaling_follows_affinity_exponents() {
    let rho1 = AirDensity::from_pounds_per_cubic_foot(Ratio::from_int(1));
    let rho2 = AirDensity::from_pounds_per_cubic_foot(Ratio::from_int(2));

    let airflow = InletAirflow::from_cfm(Ratio::from_int(9));
    assert!(airflow.scale(&rho1, &rho2).unwrap().cfm().eq_rat(&Ratio::from_int(9)));

    let pressure = StaticPressure::from_inches_wg(Ratio::from_int(3));
    assert!(pressure.scale(&rho1, &rho2).unwrap().inches_wg().eq_rat(&Ratio::from_int(6)));

    let power = BrakeHorsepower::from_hp(Ratio::from_int(5));
    assert!(power.scale(&rho1, &rho2).unwrap().hp().eq_rat(&Ratio::from_int(10)));
}

#[test]
fn independent_context_changes_commute() {
    let q = InletAirflow::from_cfm(Ratio::from_int(3));
    let d10 = FanDiameter::from_inches(Ratio::from_int(10));
    let d20 = FanDiameter::from_inches(Ratio::from_int(20));
    let n1 = FanSpeed::from_rpm(Ratio::from_int(1000));
    let n2 = FanSpeed::from_rpm(Ratio::from_int(2000));
    let diameter_first = q.scale(&d10, &d20).unwrap().scale(&n1, &n2).unwrap();
    let speed_first = q.scale(&n1, &n2).unwrap().scale(&d10, &d20).unwrap();
    assert!(diameter_first.cfm().eq_rat(&speed_first.cfm()));
    assert!(diameter_first.cfm().eq_rat(&Ratio::from_int(48)));
}

#[test]
fn fractional_diameter_scaling_is_exact() {
    let d10 = FanDiameter::from_inches(Ratio::from_int(10));
    let d15 = FanDiameter::from_inches(Ratio::from_int(15));
    let airflow = InletAirflow::from_cfm(Ratio::from_int(8));
    // 8 * (15/10)^3 = 27
    assert!(airflow.scale(&d10, &d15).unwrap().cfm().eq_rat(&Ratio::from_int(27)));
}

#[test]
fn context_mismatch_is_reported() {
    let d10 = FanDiameter::from_inches(Ratio::from_int(10));
    let d12 = FanDiameter::from_inches(Ratio::from_int(12));
    let d25 = FanDiameter::from_inches(Ratio::from_int(25));
    assert_eq!(d10.scale(&d12, &d25), Err(ScaleError::ContextMismatch));
}

#[test]
fn context_value_rescales_to_new_context() {
    let n1 = FanSpeed::from_rpm(Ratio::from_int(1750));
    let n2 = FanSpeed::from_rpm(Ratio::from_int(3500));
    let r = n1.scale(&n1, &n2).unwrap();
    assert!(r.rpm().eq_rat(&Ratio::from_int(3500)));
}

#[test]
fn degenerate_context_is_reported() {
    let d0 = FanDiameter::from_inches(Ratio::from_int(0));
    let d5 = FanDiameter::from_inches(Ratio::from_int(5));
    let q = InletAirflow::from_cfm(Ratio::from_int(3));
    assert_eq!(q.scale(&d0, &d5), Err(ScaleError::DegenerateContext));
}

#[test]
fn scaling_overflow_is_reported() {
    let d10 = FanDiameter::from_inches(Ratio::from_int(10));
    let d20 = FanDiameter::from_inches(Ratio::from_int(20));
    let q = InletAirflow::from_cfm(Ratio::from_int(i64::MAX));
    assert_eq!(q.scale(&d10, &d20), Err(ScaleError::Overflow));
}

#[test]
fn scale_to_returns_the_new_context() {
    let d10 = FanDiameter::from_inches(Ratio::from_int(10));
    let d20 = FanDiameter::from_inches(Ratio::from_int(20));
    assert_eq!(d10.scale_to(&d20), d20);
    let n1 = FanSpeed::from_rpm(Ratio::from_int(1000));
    let n2 = FanSpeed::from_rpm(Ratio::from_int(1800));
    assert_eq!(n1.scale_to(&n2), n2);
}

#[test]
fn quantity_constructors_round_trip() {
    let v = Ratio::new(22, 7);
    assert!(InletAirflow::new(v).cfm().eq_rat(&v));
    assert!(InletAirflow::from_cfm(v).cfm().eq_rat(&v));
    assert!(StaticPressure::from_inches_wg(v).inches_wg().eq_rat(&v));
    assert!(BrakeHorsepower::from_hp(v).hp().eq_rat(&v));
    assert!(FanSpeed::from_rpm(v).rpm().eq_rat(&v));
    assert!(FanDiameter::from_inches(v).inches().eq_rat(&v));
    assert!(AirDensity::from_pounds_per_cubic_foot(v).pounds_per_cubic_foot().eq_rat(&v));
    assert!(InletAirflow::from_ratio(v).value().eq_rat(&v));
}
