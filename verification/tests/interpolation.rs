use loquat_common::calculations::Interpolable;
use loquat_common::calculations::InterpolationError;
use loquat_common::ratio::Ratio;
use loquat_common::units::InletAirflow;
use loquat_common::units::StaticPressure;

#[test]
fn degenerate_bracket_with_equal_endpoints_returns_the_value() {
    let x = InletAirflow::from_cfm(Ratio::from_int(5));
    let y = StaticPressure::from_inches_wg(Ratio::from_int(7));
    let r = StaticPressure::interpolate_between((x, y), (x, y), &x).unwrap();
    assert_eq!(r, y);
}

#[test]
fn degenerate_bracket_with_unequal_values_is_undefined() {
    let x = InletAirflow::from_cfm(Ratio::from_int(5));
    let y0 = StaticPressure::from_inches_wg(Ratio::from_int(7));
    let y1 = StaticPressure::from_inches_wg(Ratio::from_int(8));
    let r = StaticPressure::interpolate_between((x, y0), (x, y1), &x);
    assert_eq!(r, Err(InterpolationError::UndefinedInterpolation));
}

#[test]
fn midpoint_interpolation_is_exact() {
    let low = (
        InletAirflow::from_cfm(Ratio::from_int(0)),
        StaticPressure::from_inches_wg(Ratio::from_int(0)),
    );
    let high = (
        InletAirflow::from_cfm(Ratio::from_int(10)),
        StaticPressure::from_inches_wg(Ratio::from_int(100)),
    );
    let target = InletAirflow::from_cfm(Ratio::from_int(5));
    let r = StaticPressure::interpolate_between(low, high, &target).unwrap();
    assert!(r.inches_wg().eq_rat(&Ratio::from_int(50)));
}

#[test]
fn fractional_interpolation_is_exact() {
    let low = (
        InletAirflow::from_cfm(Ratio::from_int(0)),
        StaticPressure::from_inches_wg(Ratio::from_int(0)),
    );
    let high = (
        InletAirflow::from_cfm(Ratio::from_int(10)),
        StaticPressure::from_inches_wg(Ratio::from_int(100)),
    );
    let target = InletAirflow::from_cfm(Ratio::new(5, 2));
    let r = StaticPressure::interpolate_between(low, high, &target).unwrap();
    assert!(r.inches_wg().eq_rat(&Ratio::from_int(25)));
}

#[test]
fn interpolation_along_pressure_inverts_the_curve() {
    let low = (
        StaticPressure::from_inches_wg(Ratio::from_int(10)),
        InletAirflow::from_cfm(Ratio::from_int(0)),
    );
    let high = (
        StaticPressure::from_inches_wg(Ratio::from_int(8)),
        InletAirflow::from_cfm(Ratio::from_int(100)),
    );
    let target = StaticPressure::from_inches_wg(Ratio::from_int(9));
    let r = InletAirflow::interpolate_between(low, high, &target).unwrap();
    assert!(r.cfm().eq_rat(&Ratio::from_int(50)));
}

#[test]
fn interpolation_overflow_is_reported() {
    let low = (
        InletAirflow::from_cfm(Ratio::from_int(0)),
        StaticPressure::from_inches_wg(Ratio::from_int(i64::MIN)),
    );
    let high = (
        InletAirflow::from_cfm(Ratio::from_int(10)),
        StaticPressure::from_inches_wg(Ratio::from_int(i64::MAX)),
    );
    let target = InletAirflow::from_cfm(Ratio::from_int(5));
    let r = StaticPressure::interpolate_between(low, high, &target);
    assert_eq!(r, Err(InterpolationError::Overflow));
}
