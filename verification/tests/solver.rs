use loquat_common::operating_point::Constraint;
use loquat_common::operating_point::DeterminationPoint;
use loquat_common::operating_point::Lenable;
use loquat_common::operating_point::SolveError;
use loquat_common::operating_point::SystemCurve;
use loquat_common::operating_point::solve_operating_point;
use loquat_common::ratio::Ratio;
use loquat_common::units::BrakeHorsepower;
use loquat_common::units::InletAirflow;
use loquat_common::units::StaticPressure;

fn det(pressure: i64, airflow: i64, power: i64) -> DeterminationPoint {
    DeterminationPoint::new(
        StaticPressure::from_inches_wg(Ratio::from_int(pressure)),
        InletAirflow::from_cfm(Ratio::from_int(airflow)),
        BrakeHorsepower::from_hp(Ratio::from_int(power)),
    )
}

fn example_points() -> Vec<DeterminationPoint> {
    vec![det(10, 0, 1), det(8, 100, 2), det(4, 200, 3)]
}

fn no_tolerance() -> Ratio {
    Ratio::from_int(0)
}

#[test]
fn solve_at_pressure_hits_the_first_bracket_midpoint() {
    let points = example_points();
    let target = Constraint::AtPressure(StaticPressure::from_inches_wg(Ratio::from_int(9)));
    let op = solve_operating_point(&points, &target, false, &no_tolerance(), 0).unwrap();
    assert!(op.cfm.cfm().eq_rat(&Ratio::from_int(50)));
    assert!(op.static_pressure.inches_wg().eq_rat(&Ratio::from_int(9)));
    assert!(op.brake_horsepower.hp().eq_rat(&Ratio::new(3, 2)));
    assert!(!op.extrapolated);
}

#[test]
fn solve_at_airflow_interpolates_both_quantities() {
    let points = example_points();
    let target = Constraint::AtAirflow(InletAirflow::from_cfm(Ratio::from_int(150)));
    let op = solve_operating_point(&points, &target, false, &no_tolerance(), 0).unwrap();
    assert!(op.static_pressure.inches_wg().eq_rat(&Ratio::from_int(6)));
    assert!(op.brake_horsepower.hp().eq_rat(&Ratio::new(5, 2)));
    assert!(!op.extrapolated);
}

#[test]
fn non_monotonic_airflow_is_an_invalid_curve() {
    let points = vec![det(10, 0, 1), det(8, 200, 2), det(4, 100, 3)];
    let target = Constraint::AtPressure(StaticPressure::from_inches_wg(Ratio::from_int(9)));
    let r = solve_operating_point(&points, &target, false, &no_tolerance(), 0);
    assert_eq!(r, Err(SolveError::InvalidCurve));
}

#[test]
fn empty_sequence_is_an_invalid_curve() {
    let points: Vec<DeterminationPoint> = vec![];
    let target = Constraint::AtAirflow(InletAirflow::from_cfm(Ratio::from_int(50)));
    let r = solve_operating_point(&points, &target, false, &no_tolerance(), 0);
    assert_eq!(r, Err(SolveError::InvalidCurve));
}

#[test]
fn non_monotonic_pressure_rejected_only_for_pressure_solves() {
    let points = vec![det(10, 0, 1), det(8, 100, 2), det(9, 200, 3)];
    let by_pressure = Constraint::AtPressure(StaticPressure::from_inches_wg(Ratio::from_int(9)));
    let r = solve_operating_point(&points, &by_pressure, false, &no_tolerance(), 0);
    assert_eq!(r, Err(SolveError::InvalidCurve));

    let by_airflow = Constraint::AtAirflow(InletAirflow::from_cfm(Ratio::from_int(50)));
    let op = solve_operating_point(&points, &by_airflow, false, &no_tolerance(), 0).unwrap();
    assert!(op.static_pressure.inches_wg().eq_rat(&Ratio::from_int(9)));
}

#[test]
fn airflow_target_above_the_envelope_is_out_of_range() {
    let points = example_points();
    let target = Constraint::AtAirflow(InletAirflow::from_cfm(Ratio::from_int(250)));
    let r = solve_operating_point(&points, &target, false, &no_tolerance(), 0);
    assert_eq!(r, Err(SolveError::OutOfRange));
}

#[test]
fn airflow_target_below_the_envelope_is_out_of_range() {
    let points = example_points();
    let target = Constraint::AtAirflow(InletAirflow::from_cfm(Ratio::from_int(-10)));
    let r = solve_operating_point(&points, &target, false, &no_tolerance(), 0);
    assert_eq!(r, Err(SolveError::OutOfRange));
}

#[test]
fn pressure_target_outside_the_envelope_is_out_of_range() {
    let points = example_points();
    let target = Constraint::AtPressure(StaticPressure::from_inches_wg(Ratio::from_int(11)));
    let r = solve_operating_point(&points, &target, false, &no_tolerance(), 0);
    assert_eq!(r, Err(SolveError::OutOfRange));
}

#[test]
fn allowed_extrapolation_is_flagged_and_exact() {
    let points = example_points();
    let target = Constraint::AtAirflow(InletAirflow::from_cfm(Ratio::from_int(250)));
    let op = solve_operating_point(&points, &target, true, &no_tolerance(), 0).unwrap();
    assert!(op.extrapolated);
    // Extending the last pair: 8 + (4 - 8) * (250 - 100) / (200 - 100) = 2.
    assert!(op.static_pressure.inches_wg().eq_rat(&Ratio::from_int(2)));
}

#[test]
fn extrapolation_below_uses_the_first_pair() {
    let points = example_points();
    let target = Constraint::AtAirflow(InletAirflow::from_cfm(Ratio::from_int(-50)));
    let op = solve_operating_point(&points, &target, true, &no_tolerance(), 0).unwrap();
    assert!(op.extrapolated);
    // Extending the first pair: 10 + (8 - 10) * (-50 - 0) / (100 - 0) = 11.
    assert!(op.static_pressure.inches_wg().eq_rat(&Ratio::from_int(11)));
}

#[test]
fn system_curve_intersection_converges_within_tolerance() {
    let points = example_points();
    // System resistance pressure = airflow^2 / 1000 crosses the fan curve
    // between the first two determination points.
    let constraint = Constraint::System(SystemCurve { coefficient: Ratio::new(1, 1000) });
    let tolerance = Ratio::new(1, 100);
    let op = solve_operating_point(&points, &constraint, false, &tolerance, 40).unwrap();
    assert!(!op.extrapolated);
    // The intersection lies strictly inside the measured envelope.
    assert!(Ratio::from_int(0).lt_rat(&op.cfm.cfm()));
    assert!(op.cfm.cfm().lt_rat(&Ratio::from_int(200)));
    // The accepted point satisfies the convergence criterion, checked in
    // product form: (fan - system)^2 <= tolerance * system^2.
    let q = op.cfm.cfm().reduced();
    let sys = Ratio::new(1, 1000).mul_r(&q.mul_r(&q).unwrap()).unwrap().reduced();
    let fan = op.static_pressure.inches_wg().reduced();
    let diff = fan.sub_r(&sys).unwrap().reduced();
    let squared_diff = diff.mul_r(&diff).unwrap();
    let bound = tolerance.mul_r(&sys.mul_r(&sys).unwrap()).unwrap();
    assert!(squared_diff.le_rat(&bound));
}

#[test]
fn system_curve_with_zero_tolerance_does_not_converge() {
    let points = example_points();
    let constraint = Constraint::System(SystemCurve { coefficient: Ratio::new(1, 1000) });
    let r = solve_operating_point(&points, &constraint, false, &no_tolerance(), 10);
    assert_eq!(r, Err(SolveError::NotConverged));
}

#[test]
fn system_curve_below_the_fan_curve_is_out_of_range() {
    let points = example_points();
    let constraint = Constraint::System(SystemCurve {
        coefficient: Ratio::new(1, 1_000_000_000),
    });
    let r = solve_operating_point(&points, &constraint, false, &Ratio::new(1, 100), 40);
    assert_eq!(r, Err(SolveError::OutOfRange));
}

#[test]
fn system_curve_on_an_invalid_sequence_is_rejected() {
    let points = vec![det(10, 0, 1), det(8, 200, 2), det(4, 100, 3)];
    let constraint = Constraint::System(SystemCurve { coefficient: Ratio::new(1, 1000) });
    let r = solve_operating_point(&points, &constraint, false, &Ratio::new(1, 100), 40);
    assert_eq!(r, Err(SolveError::InvalidCurve));
}

#[test]
fn solver_overflow_is_reported() {
    let points = vec![det(10, 0, 1), det(4, i64::MAX, 2)];
    let target = Constraint::AtAirflow(InletAirflow::from_cfm(Ratio::from_int(i64::MAX / 2)));
    let r = solve_operating_point(&points, &target, false, &no_tolerance(), 0);
    assert_eq!(r, Err(SolveError::Overflow));
}

#[test]
fn determination_points_group_three_quantities() {
    let p = det(10, 0, 1);
    assert_eq!(p.len(), 3);
    let points = example_points();
    let target = Constraint::AtPressure(StaticPressure::from_inches_wg(Ratio::from_int(9)));
    let op = solve_operating_point(&points, &target, false, &no_tolerance(), 0).unwrap();
    assert_eq!(op.len(), 3);
}
