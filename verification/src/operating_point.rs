//! The operating-point solver.
//!
//! A report owns an ordered sequence of measured determination points;
//! the solver validates the sequence, finds the adjacent pair that
//! brackets a target value of the chosen independent variable, and
//! interpolates every other quantity there.  Against a system-resistance
//! curve it refines a bracket iteratively until the squared-relative-error
//! convergence criterion is met.

use vstd::prelude::*;

use crate::calculations::err_sq_law;
use crate::calculations::interp_fits;
use crate::calculations::interp_law;
use crate::calculations::interp_ratio;
use crate::calculations::lemma_error_le_product_form;
use crate::calculations::lemma_mul_congruence_both;
use crate::calculations::lemma_rat_eq_trans;
use crate::calculations::lemma_rat_le_transfer;
use crate::calculations::lemma_sub_congruence;
use crate::calculations::rat_btw;
use crate::calculations::Quantity;
use crate::ratio::lemma_pos_prod;
use crate::ratio::rat_eq;
use crate::ratio::rat_le;
use crate::ratio::rat_lt;
use crate::ratio::rat_mul;
use crate::ratio::rat_sub;
use crate::ratio::Ratio;
use crate::units::BrakeHorsepower;
use crate::units::InletAirflow;
use crate::units::StaticPressure;

verus! {

/// One measured sample: static pressure, airflow and brake horsepower
/// observed together at one test reading.
#[derive(Clone, Copy, Debug, PartialEq, Eq, Structural)]
pub struct DeterminationPoint {
    pub static_pressure: StaticPressure,
    pub cfm: InletAirflow,
    pub brake_horsepower: BrakeHorsepower,
}

impl DeterminationPoint {
    pub open spec fn wf(self) -> bool {
        self.static_pressure.wf() && self.cfm.wf() && self.brake_horsepower.wf()
    }

    pub fn new(
        static_pressure: StaticPressure,
        cfm: InletAirflow,
        brake_horsepower: BrakeHorsepower,
    ) -> (r: DeterminationPoint)
        requires
            static_pressure.wf(),
            cfm.wf(),
            brake_horsepower.wf(),
        ensures
            r == (DeterminationPoint { static_pressure, cfm, brake_horsepower }),
            r.wf(),
    {
        DeterminationPoint { static_pressure, cfm, brake_horsepower }
    }
}

/// A derived point where the fan's interpolated performance curve meets
/// the target; `extrapolated` flags a lower-confidence result computed
/// outside the measured envelope.
#[derive(Clone, Copy, Debug, PartialEq, Eq, Structural)]
pub struct OperatingPoint {
    pub static_pressure: StaticPressure,
    pub cfm: InletAirflow,
    pub brake_horsepower: BrakeHorsepower,
    pub extrapolated: bool,
}

impl OperatingPoint {
    pub open spec fn wf(self) -> bool {
        self.static_pressure.wf() && self.cfm.wf() && self.brake_horsepower.wf()
    }
}

/// A known element count, for fixed-size groups of co-measured quantities.
pub trait Lenable {
    /// The number of quantities the value groups together.
    spec fn spec_len(&self) -> int;

    fn len(&self) -> (n: i32)
        ensures
            n as int == self.spec_len(),
    ;
}

impl Lenable for DeterminationPoint {
    open spec fn spec_len(&self) -> int {
        3
    }

    fn len(&self) -> (n: i32) {
        3
    }
}

impl Lenable for OperatingPoint {
    open spec fn spec_len(&self) -> int {
        3
    }

    fn len(&self) -> (n: i32) {
        3
    }
}

/// Failure modes of an operating-point solve.
#[derive(Clone, Copy, Debug, PartialEq, Eq, Structural)]
pub enum SolveError {
    /// Empty or non-monotonic determination-point sequence.
    InvalidCurve,
    /// Target outside the measured envelope, with extrapolation disallowed.
    OutOfRange,
    /// Iterative refinement exhausted its iteration bound.
    NotConverged,
    /// An exact intermediate value cannot be stored in a `Ratio`.
    Overflow,
}

/// A system-resistance constraint curve: `pressure = coefficient * airflow^2`.
#[derive(Clone, Copy, Debug, PartialEq, Eq, Structural)]
pub struct SystemCurve {
    pub coefficient: Ratio,
}

/// The target a solve must satisfy on the fan's performance curve.
#[derive(Clone, Copy, Debug, PartialEq, Eq, Structural)]
pub enum Constraint {
    /// Find the operating point at a fixed airflow.
    AtAirflow(InletAirflow),
    /// Find the operating point at a fixed static pressure.
    AtPressure(StaticPressure),
    /// Find the intersection with a system-resistance curve.
    System(SystemCurve),
}

pub open spec fn points_wf(s: Seq<DeterminationPoint>) -> bool {
    forall|i: int| 0 <= i < s.len() ==> (#[trigger] s[i]).wf()
}

pub open spec fn cfm_v(p: DeterminationPoint) -> (int, int) {
    p.cfm.val()
}

pub open spec fn sp_v(p: DeterminationPoint) -> (int, int) {
    p.static_pressure.val()
}

pub open spec fn bhp_v(p: DeterminationPoint) -> (int, int) {
    p.brake_horsepower.val()
}

/// The independent variable of a solve: static pressure when
/// `by_pressure`, airflow otherwise.
pub open spec fn xv(p: DeterminationPoint, by_pressure: bool) -> (int, int) {
    if by_pressure {
        sp_v(p)
    } else {
        cfm_v(p)
    }
}

/// The first `n` adjacent steps are strictly rising in the chosen variable.
pub open spec fn inc_prefix(s: Seq<DeterminationPoint>, by_pressure: bool, n: int) -> bool {
    forall|j: int| 0 <= j < n ==> rat_lt(xv(#[trigger] s[j], by_pressure), xv(s[j + 1], by_pressure))
}

/// The first `n` adjacent steps are strictly falling in the chosen variable.
pub open spec fn dec_prefix(s: Seq<DeterminationPoint>, by_pressure: bool, n: int) -> bool {
    forall|j: int| 0 <= j < n ==> rat_lt(xv(s[j + 1], by_pressure), xv(#[trigger] s[j], by_pressure))
}

/// Strictly monotonic in the chosen variable, rising or falling.
pub open spec fn strictly_monotonic(s: Seq<DeterminationPoint>, by_pressure: bool) -> bool {
    inc_prefix(s, by_pressure, s.len() - 1) || dec_prefix(s, by_pressure, s.len() - 1)
}

/// A sequence interpolation is well-defined over: non-empty, ordered by
/// airflow, and ordered by pressure as well when pressure is the
/// independent variable.
pub open spec fn valid_curve(s: Seq<DeterminationPoint>, by_pressure: bool) -> bool {
    &&& s.len() > 0
    &&& strictly_monotonic(s, false)
    &&& (by_pressure ==> strictly_monotonic(s, true))
}

/// Adjacent pair `i, i + 1` brackets the target `t`.
pub open spec fn brackets(s: Seq<DeterminationPoint>, by_pressure: bool, t: (int, int), i: int) -> bool {
    rat_btw(t, xv(s[i], by_pressure), xv(s[i + 1], by_pressure))
}

/// The least bracketing index at or after `i`, or `-1` when none exists.
pub open spec fn first_bracket_from(
    s: Seq<DeterminationPoint>,
    by_pressure: bool,
    t: (int, int),
    i: nat,
) -> int
    decreases s.len() - i,
{
    if i + 1 >= s.len() {
        -1
    } else if brackets(s, by_pressure, t, i as int) {
        i as int
    } else {
        first_bracket_from(s, by_pressure, t, i + 1)
    }
}

pub open spec fn first_bracket(s: Seq<DeterminationPoint>, by_pressure: bool, t: (int, int)) -> int {
    first_bracket_from(s, by_pressure, t, 0)
}

/// When no pair brackets `t`, whether `t` lies beyond the first point
/// (rather than beyond the last).
pub open spec fn toward_first(s: Seq<DeterminationPoint>, by_pressure: bool, t: (int, int)) -> bool {
    let x0 = xv(s[0], by_pressure);
    let xl = xv(s[s.len() - 1], by_pressure);
    (rat_lt(t, x0) && rat_lt(x0, xl)) || (rat_lt(x0, t) && rat_lt(xl, x0))
}

/// The edge pair used for a flagged extrapolation.
pub open spec fn edge_index(s: Seq<DeterminationPoint>, by_pressure: bool, t: (int, int)) -> int {
    if toward_first(s, by_pressure, t) {
        0
    } else {
        s.len() - 2
    }
}

/// Whether both dependent interpolations at pair `i` fit in exact storage.
pub open spec fn solve_fits(s: Seq<DeterminationPoint>, by_pressure: bool, t: (int, int), i: int) -> bool {
    if by_pressure {
        &&& interp_fits(sp_v(s[i]), cfm_v(s[i]), sp_v(s[i + 1]), cfm_v(s[i + 1]), t)
        &&& interp_fits(sp_v(s[i]), bhp_v(s[i]), sp_v(s[i + 1]), bhp_v(s[i + 1]), t)
    } else {
        &&& interp_fits(cfm_v(s[i]), sp_v(s[i]), cfm_v(s[i + 1]), sp_v(s[i + 1]), t)
        &&& interp_fits(cfm_v(s[i]), bhp_v(s[i]), cfm_v(s[i + 1]), bhp_v(s[i + 1]), t)
    }
}

/// The operating point interpolated at pair `i` for target `t`.
pub open spec fn solved_point(
    op: OperatingPoint,
    s: Seq<DeterminationPoint>,
    by_pressure: bool,
    t: (int, int),
    i: int,
    extrapolated: bool,
) -> bool {
    &&& op.wf()
    &&& op.extrapolated == extrapolated
    &&& if by_pressure {
        &&& op.static_pressure.val() == t
        &&& op.cfm.val() == interp_law(sp_v(s[i]), cfm_v(s[i]), sp_v(s[i + 1]), cfm_v(s[i + 1]), t)
        &&& op.brake_horsepower.val() == interp_law(
            sp_v(s[i]),
            bhp_v(s[i]),
            sp_v(s[i + 1]),
            bhp_v(s[i + 1]),
            t,
        )
    } else {
        &&& op.cfm.val() == t
        &&& op.static_pressure.val() == interp_law(
            cfm_v(s[i]),
            sp_v(s[i]),
            cfm_v(s[i + 1]),
            sp_v(s[i + 1]),
            t,
        )
        &&& op.brake_horsepower.val() == interp_law(
            cfm_v(s[i]),
            bhp_v(s[i]),
            cfm_v(s[i + 1]),
            bhp_v(s[i + 1]),
            t,
        )
    }
}

/// What a fixed-target solve returns, exactly.
pub open spec fn solve_post(
    s: Seq<DeterminationPoint>,
    by_pressure: bool,
    t: (int, int),
    allow_extrapolation: bool,
    r: Result<OperatingPoint, SolveError>,
) -> bool {
    &&& ((r == Err::<OperatingPoint, SolveError>(SolveError::InvalidCurve)) <==> !valid_curve(
        s,
        by_pressure,
    ))
    &&& (valid_curve(s, by_pressure) ==> {
        let i = first_bracket(s, by_pressure, t);
        &&& (i >= 0 ==> (if solve_fits(s, by_pressure, t, i) {
            r is Ok && solved_point(r->Ok_0, s, by_pressure, t, i, false)
        } else {
            r == Err::<OperatingPoint, SolveError>(SolveError::Overflow)
        }))
        &&& (i < 0 && !(allow_extrapolation && s.len() >= 2) ==> r == Err::<
            OperatingPoint,
            SolveError,
        >(SolveError::OutOfRange))
        &&& (i < 0 && allow_extrapolation && s.len() >= 2 ==> {
            let e = edge_index(s, by_pressure, t);
            if solve_fits(s, by_pressure, t, e) {
                r is Ok && solved_point(r->Ok_0, s, by_pressure, t, e, true)
            } else {
                r == Err::<OperatingPoint, SolveError>(SolveError::Overflow)
            }
        })
    })
}

/// The pressure the system-resistance curve imposes at airflow `q`.
pub open spec fn system_pressure(c: (int, int), q: (int, int)) -> (int, int) {
    rat_mul(c, rat_mul(q, q))
}

/// A converged intersection point: it lies on the interpolated fan curve
/// within the measured envelope, and its fan pressure is within the error
/// tolerance of the system curve's pressure at the same airflow.
pub open spec fn converged_point(
    op: OperatingPoint,
    s: Seq<DeterminationPoint>,
    c: (int, int),
    tol: (int, int),
) -> bool {
    &&& op.wf()
    &&& !op.extrapolated
    &&& (exists|i: int|
        0 <= i < s.len() - 1 && #[trigger] brackets(s, false, op.cfm.val(), i) && solved_point(
            op,
            s,
            false,
            op.cfm.val(),
            i,
            false,
        ))
    &&& rat_le(err_sq_law(op.static_pressure.val(), system_pressure(c, op.cfm.val())), tol)
}

/// What a system-curve solve returns: the success case is pinned down by
/// the convergence criterion itself; which failure ends an unsuccessful
/// refinement depends on the iteration budget.
pub open spec fn system_post(
    s: Seq<DeterminationPoint>,
    c: (int, int),
    tol: (int, int),
    r: Result<OperatingPoint, SolveError>,
) -> bool {
    &&& ((r == Err::<OperatingPoint, SolveError>(SolveError::InvalidCurve)) <==> !valid_curve(
        s,
        false,
    ))
    &&& (r is Ok ==> converged_point(r->Ok_0, s, c, tol))
}

/// The independent-variable magnitude of one point.
fn x_of(p: &DeterminationPoint, by_pressure: bool) -> (r: Ratio)
    requires
        p.wf(),
    ensures
        r@ == xv(*p, by_pressure),
        r.wf(),
{
    if by_pressure {
        p.static_pressure.inches_wg()
    } else {
        p.cfm.cfm()
    }
}

/// Whether the sequence is strictly monotonic in the chosen variable.
fn check_monotonic(points: &Vec<DeterminationPoint>, by_pressure: bool) -> (r: bool)
    requires
        points_wf(points@),
    ensures
        r == strictly_monotonic(points@, by_pressure),
{
    if points.len() < 2 {
        return true;
    }
    let mut rising: bool = true;
    let mut falling: bool = true;
    let mut i: usize = 0;
    while i < points.len() - 1
        invariant
            points_wf(points@),
            points.len() >= 2,
            i <= points.len() - 1,
            rising == inc_prefix(points@, by_pressure, i as int),
            falling == dec_prefix(points@, by_pressure, i as int),
        decreases points.len() - i,
    {
        let a = x_of(&points[i], by_pressure);
        let b = x_of(&points[i + 1], by_pressure);
        if !a.lt_rat(&b) {
            rising = false;
        }
        if !b.lt_rat(&a) {
            falling = false;
        }
        i = i + 1;
    }
    rising || falling
}

/// Finds the least adjacent pair bracketing the target, if any.
fn find_bracket(points: &Vec<DeterminationPoint>, by_pressure: bool, target: &Ratio) -> (r: Option<
    usize,
>)
    requires
        points_wf(points@),
        target.wf(),
    ensures
        r is Some ==> r->Some_0 as int == first_bracket(points@, by_pressure, target@) && r->Some_0
            + 1 < points.len() && brackets(points@, by_pressure, target@, r->Some_0 as int),
        r is None ==> first_bracket(points@, by_pressure, target@) == -1,
{
    if points.len() < 2 {
        return None;
    }
    let mut i: usize = 0;
    while i < points.len() - 1
        invariant
            points_wf(points@),
            target.wf(),
            points.len() >= 2,
            i <= points.len() - 1,
            first_bracket(points@, by_pressure, target@) == first_bracket_from(
                points@,
                by_pressure,
                target@,
                i as nat,
            ),
        decreases points.len() - i,
    {
        let a = x_of(&points[i], by_pressure);
        let b = x_of(&points[i + 1], by_pressure);
        let lo_side = a.le_rat(target) && target.le_rat(&b);
        let hi_side = b.le_rat(target) && target.le_rat(&a);
        if lo_side || hi_side {
            proof {
                assert(brackets(points@, by_pressure, target@, i as int));
            }
            return Some(i);
        }
        i = i + 1;
    }
    None
}

/// Interpolates both dependent quantities at pair `i` and assembles the
/// operating point.
fn interp_op(
    points: &Vec<DeterminationPoint>,
    by_pressure: bool,
    target: &Ratio,
    i: usize,
    extrapolated: bool,
) -> (r: Result<OperatingPoint, SolveError>)
    requires
        points_wf(points@),
        target.wf(),
        i + 1 < points.len(),
        !rat_eq(xv(points@[i as int], by_pressure), xv(points@[i as int + 1], by_pressure)),
    ensures
        (if solve_fits(points@, by_pressure, target@, i as int) {
            r is Ok && solved_point(r->Ok_0, points@, by_pressure, target@, i as int, extrapolated)
        } else {
            r == Err::<OperatingPoint, SolveError>(SolveError::Overflow)
        }),
{
    let a = points[i];
    let b = points[i + 1];
    if by_pressure {
        let x0 = a.static_pressure.inches_wg();
        let x1 = b.static_pressure.inches_wg();
        let q = match interp_ratio(&x0, &a.cfm.cfm(), &x1, &b.cfm.cfm(), target) {
            Ok(v) => v,
            Err(_) => {
                return Err(SolveError::Overflow);
            }
        };
        let h = match interp_ratio(&x0, &a.brake_horsepower.hp(), &x1, &b.brake_horsepower.hp(), target) {
            Ok(v) => v,
            Err(_) => {
                return Err(SolveError::Overflow);
            }
        };
        Ok(OperatingPoint {
            static_pressure: StaticPressure::from_inches_wg(*target),
            cfm: InletAirflow::from_cfm(q),
            brake_horsepower: BrakeHorsepower::from_hp(h),
            extrapolated,
        })
    } else {
        let x0 = a.cfm.cfm();
        let x1 = b.cfm.cfm();
        let p = match interp_ratio(&x0, &a.static_pressure.inches_wg(), &x1, &b.static_pressure.inches_wg(), target) {
            Ok(v) => v,
            Err(_) => {
                return Err(SolveError::Overflow);
            }
        };
        let h = match interp_ratio(&x0, &a.brake_horsepower.hp(), &x1, &b.brake_horsepower.hp(), target) {
            Ok(v) => v,
            Err(_) => {
                return Err(SolveError::Overflow);
            }
        };
        Ok(OperatingPoint {
            static_pressure: StaticPressure::from_inches_wg(p),
            cfm: InletAirflow::from_cfm(*target),
            brake_horsepower: BrakeHorsepower::from_hp(h),
            extrapolated,
        })
    }
}

/// Adjacent positions are distinct wherever the sequence is strictly
/// monotonic in the chosen variable.
proof fn lemma_adjacent_distinct(s: Seq<DeterminationPoint>, by_pressure: bool, i: int)
    requires
        strictly_monotonic(s, by_pressure),
        0 <= i < s.len() - 1,
    ensures
        !rat_eq(xv(s[i], by_pressure), xv(s[i + 1], by_pressure)),
{
    if inc_prefix(s, by_pressure, s.len() - 1) {
        assert(rat_lt(xv(s[i], by_pressure), xv(s[i + 1], by_pressure)));
    } else {
        assert(rat_lt(xv(s[i + 1], by_pressure), xv(s[i], by_pressure)));
    }
}

/// Locates the operating point at a fixed value of the chosen independent
/// variable.
fn solve_at(
    points: &Vec<DeterminationPoint>,
    by_pressure: bool,
    target: &Ratio,
    allow_extrapolation: bool,
) -> (r: Result<OperatingPoint, SolveError>)
    requires
        points_wf(points@),
        target.wf(),
    ensures
        solve_post(points@, by_pressure, target@, allow_extrapolation, r),
{
    if points.len() == 0 {
        return Err(SolveError::InvalidCurve);
    }
    if !check_monotonic(points, false) {
        return Err(SolveError::InvalidCurve);
    }
    if by_pressure && !check_monotonic(points, true) {
        return Err(SolveError::InvalidCurve);
    }
    match find_bracket(points, by_pressure, target) {
        Some(i) => {
            proof {
                lemma_adjacent_distinct(points@, by_pressure, i as int);
            }
            interp_op(points, by_pressure, target, i, false)
        }
        None => {
            if !allow_extrapolation || points.len() < 2 {
                return Err(SolveError::OutOfRange);
            }
            let x0 = x_of(&points[0], by_pressure);
            let xl = x_of(&points[points.len() - 1], by_pressure);
            let low_side = (target.lt_rat(&x0) && x0.lt_rat(&xl)) || (x0.lt_rat(target)
                && xl.lt_rat(&x0));
            let e: usize = if low_side {
                0
            } else {
                points.len() - 2
            };
            proof {
                lemma_adjacent_distinct(points@, by_pressure, e as int);
            }
            interp_op(points, by_pressure, target, e, true)
        }
    }
}

/// Tries one airflow position against the convergence criterion.
fn try_converge(
    points: &Vec<DeterminationPoint>,
    coefficient: &Ratio,
    tolerance: &Ratio,
    q: &Ratio,
) -> (r: Option<OperatingPoint>)
    requires
        points_wf(points@),
        strictly_monotonic(points@, false),
        coefficient.wf(),
        tolerance.wf(),
        q.wf(),
    ensures
        r is Some ==> converged_point(r->Some_0, points@, coefficient@, tolerance@),
{
    let i = match find_bracket(points, false, q) {
        Some(i) => i,
        None => {
            return None;
        }
    };
    proof {
        lemma_adjacent_distinct(points@, false, i as int);
    }
    let op = match interp_op(points, false, q, i, false) {
        Ok(op) => op,
        Err(_) => {
            return None;
        }
    };
    let qq = match q.mul_r(q) {
        Some(v) => v,
        None => {
            return None;
        }
    };
    let sys_p = match coefficient.mul_r(&qq) {
        Some(v) => v,
        None => {
            return None;
        }
    };
    if sys_p.is_zero() {
        return None;
    }
    // Work on reduced copies and compare in product form, so that the
    // comparison itself stays within exact storage.
    let fan_red = op.static_pressure.inches_wg().reduced();
    let sys_red = sys_p.reduced();
    let diff = match fan_red.sub_r(&sys_red) {
        Some(v) => v,
        None => {
            return None;
        }
    };
    let diff_red = diff.reduced();
    let diff_sq = match diff_red.mul_r(&diff_red) {
        Some(v) => v,
        None => {
            return None;
        }
    };
    let sys_sq = match sys_red.mul_r(&sys_red) {
        Some(v) => v,
        None => {
            return None;
        }
    };
    let bound = match tolerance.mul_r(&sys_sq) {
        Some(v) => v,
        None => {
            return None;
        }
    };
    if diff_sq.le_rat(&bound) {
        proof {
            let fan = op.static_pressure.val();
            let sysv = system_pressure(coefficient@, op.cfm.val());
            let s_true = rat_sub(fan, sysv);
            lemma_pos_prod(fan.1, sysv.1);
            lemma_sub_congruence(fan_red@, fan, sys_red@, sysv);
            lemma_rat_eq_trans(diff_red@, diff@, s_true);
            lemma_mul_congruence_both(diff_red@, s_true, diff_red@, s_true);
            lemma_mul_congruence_both(sys_red@, sysv, sys_red@, sysv);
            lemma_mul_congruence_both(tolerance@, tolerance@, sys_sq@, rat_mul(sysv, sysv));
            lemma_pos_prod(s_true.1, s_true.1);
            lemma_pos_prod(sysv.1, sysv.1);
            lemma_pos_prod(tolerance@.1, sysv.1 * sysv.1);
            lemma_rat_le_transfer(
                rat_mul(s_true, s_true),
                diff_sq@,
                rat_mul(tolerance@, rat_mul(sysv, sysv)),
                bound@,
            );
            lemma_error_le_product_form(fan, sysv, tolerance@);
            assert(0 <= i as int && (i as int) < points@.len() - 1 && brackets(
                points@,
                false,
                op.cfm.val(),
                i as int,
            ) && solved_point(op, points@, false, op.cfm.val(), i as int, false));
        }
        Some(op)
    } else {
        None
    }
}

/// Locates the intersection of the fan curve with a system-resistance
/// curve by bisection on airflow, accepting a position once the squared
/// relative error between the two pressures is within the tolerance.
fn solve_system(
    points: &Vec<DeterminationPoint>,
    curve: &SystemCurve,
    tolerance: &Ratio,
    max_iterations: u32,
) -> (r: Result<OperatingPoint, SolveError>)
    requires
        points_wf(points@),
        curve.coefficient.wf(),
        tolerance.wf(),
    ensures
        system_post(points@, curve.coefficient@, tolerance@, r),
{
    if points.len() == 0 {
        return Err(SolveError::InvalidCurve);
    }
    if !check_monotonic(points, false) {
        return Err(SolveError::InvalidCurve);
    }
    let lo = points[0].cfm.cfm();
    let hi = points[points.len() - 1].cfm.cfm();
    match try_converge(points, &curve.coefficient, tolerance, &lo) {
        Some(op) => {
            return Ok(op);
        }
        None => {}
    }
    match try_converge(points, &curve.coefficient, tolerance, &hi) {
        Some(op) => {
            return Ok(op);
        }
        None => {}
    }
    // The sign of (fan pressure - system pressure) at each end of the
    // envelope; without a sign change the curves do not cross inside it.
    let lo_sq = match lo.mul_r(&lo) {
        Some(v) => v,
        None => {
            return Err(SolveError::Overflow);
        }
    };
    let sys_lo = match curve.coefficient.mul_r(&lo_sq) {
        Some(v) => v,
        None => {
            return Err(SolveError::Overflow);
        }
    };
    let hi_sq = match hi.mul_r(&hi) {
        Some(v) => v,
        None => {
            return Err(SolveError::Overflow);
        }
    };
    let sys_hi = match curve.coefficient.mul_r(&hi_sq) {
        Some(v) => v,
        None => {
            return Err(SolveError::Overflow);
        }
    };
    let lo_under = sys_lo.le_rat(&points[0].static_pressure.inches_wg());
    let hi_under = sys_hi.le_rat(&points[points.len() - 1].static_pressure.inches_wg());
    if lo_under == hi_under {
        return Err(SolveError::OutOfRange);
    }
    // Bisect on a dyadic grid between the envelope ends: the midpoint is
    // recomputed from the ends each round, so denominators stay small.
    let span = match hi.sub_r(&lo) {
        Some(v) => v,
        None => {
            return Err(SolveError::Overflow);
        }
    };
    let mut j_lo: u64 = 0;
    let mut j_hi: u64 = 1;
    let mut denom: u64 = 1;
    let mut iter: u32 = 0;
    while iter < max_iterations
        invariant
            points_wf(points@),
            strictly_monotonic(points@, false),
            points@.len() > 0,
            curve.coefficient.wf(),
            tolerance.wf(),
            lo.wf(),
            span.wf(),
            j_lo < j_hi,
            j_hi <= denom,
            1 <= denom <= 0x1000_0000_0000_0000u64,
        decreases max_iterations - iter,
    {
        if denom >= 0x0800_0000_0000_0000u64 {
            return Err(SolveError::NotConverged);
        }
        j_lo = j_lo * 2;
        j_hi = j_hi * 2;
        denom = denom * 2;
        let j_mid = j_lo + (j_hi - j_lo) / 2;
        let frac = Ratio::new(j_mid as i64, denom as i64);
        let offset = match span.mul_r(&frac) {
            Some(v) => v,
            None => {
                return Err(SolveError::Overflow);
            }
        };
        let mid = match lo.add_r(&offset) {
            Some(v) => v,
            None => {
                return Err(SolveError::Overflow);
            }
        };
        match try_converge(points, &curve.coefficient, tolerance, &mid) {
            Some(op) => {
                return Ok(op);
            }
            None => {}
        }
        let i = match find_bracket(points, false, &mid) {
            Some(i) => i,
            None => {
                return Err(SolveError::NotConverged);
            }
        };
        proof {
            lemma_adjacent_distinct(points@, false, i as int);
        }
        let a = points[i];
        let b = points[i + 1];
        let fan_p = match interp_ratio(
            &a.cfm.cfm(),
            &a.static_pressure.inches_wg(),
            &b.cfm.cfm(),
            &b.static_pressure.inches_wg(),
            &mid,
        ) {
            Ok(v) => v,
            Err(_) => {
                return Err(SolveError::Overflow);
            }
        };
        let mid_sq = match mid.mul_r(&mid) {
            Some(v) => v,
            None => {
                return Err(SolveError::Overflow);
            }
        };
        let sys_mid = match curve.coefficient.mul_r(&mid_sq) {
            Some(v) => v,
            None => {
                return Err(SolveError::Overflow);
            }
        };
        let mid_under = sys_mid.le_rat(&fan_p);
        if mid_under == lo_under {
            j_lo = j_mid;
        } else {
            j_hi = j_mid;
        }
        iter = iter + 1;
    }
    Err(SolveError::NotConverged)
}

/// Locates the operating point the report's determination points imply
/// for the given constraint.
pub fn solve_operating_point(
    points: &Vec<DeterminationPoint>,
    constraint: &Constraint,
    allow_extrapolation: bool,
    tolerance: &Ratio,
    max_iterations: u32,
) -> (r: Result<OperatingPoint, SolveError>)
    requires
        points_wf(points@),
        tolerance.wf(),
        (constraint matches Constraint::AtAirflow(q) ==> q.wf()),
        (constraint matches Constraint::AtPressure(p) ==> p.wf()),
        (constraint matches Constraint::System(c) ==> c.coefficient.wf()),
    ensures
        (constraint matches Constraint::AtAirflow(q) ==> solve_post(
            points@,
            false,
            q.val(),
            allow_extrapolation,
            r,
        )),
        (constraint matches Constraint::AtPressure(p) ==> solve_post(
            points@,
            true,
            p.val(),
            allow_extrapolation,
            r,
        )),
        (constraint matches Constraint::System(c) ==> system_post(
            points@,
            c.coefficient@,
            tolerance@,
            r,
        )),
{
    match constraint {
        Constraint::AtAirflow(q) => solve_at(points, false, &q.cfm(), allow_extrapolation),
        Constraint::AtPressure(p) => solve_at(points, true, &p.inches_wg(), allow_extrapolation),
        Constraint::System(c) => solve_system(points, c, tolerance, max_iterations),
    }
}

} // verus!
