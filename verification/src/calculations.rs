//! Core calculation capabilities: affinity-law scaling, linear
//! interpolation, and the normalized squared-relative-error metric.
//!
//! Each capability is a trait over unit-typed quantities; the shared
//! arithmetic lives in free functions over [`Ratio`] so that every
//! quantity/context pair proves the same exact contracts.

use vstd::prelude::*;

use crate::ratio::rat_add;
use crate::ratio::rat_div;
use crate::ratio::rat_eq;
use crate::ratio::rat_fits;
use crate::ratio::rat_le;
use crate::ratio::rat_mul;
use crate::ratio::rat_pow;
use crate::ratio::rat_pow_fits;
use crate::ratio::rat_sub;
use crate::ratio::Ratio;

verus! {

/// A unit-typed scalar quantity: a dimension-tagged wrapper around an
/// exact rational magnitude.
pub trait Quantity: Sized + Copy {
    /// The mathematical magnitude, as a numerator/denominator pair.
    spec fn val(self) -> (int, int);

    /// Well-formed: the magnitude has a positive denominator.
    open spec fn wf(self) -> bool {
        self.val().1 > 0
    }

    /// The raw magnitude.
    fn value(&self) -> (r: Ratio)
        requires
            self.wf(),
        ensures
            r@ == self.val(),
            r.wf(),
    ;

    /// Constructs the quantity with the given raw magnitude.
    fn from_ratio(v: Ratio) -> (r: Self)
        requires
            v.wf(),
        ensures
            r.val() == v@,
            r.wf(),
    ;
}

/// Failure modes of rescaling a quantity between two context values.
#[derive(Clone, Copy, Debug, PartialEq, Eq, Structural)]
pub enum ScaleError {
    /// The quantity was not measured under the given source context.
    ContextMismatch,
    /// The source context is zero, so the power law is undefined.
    DegenerateContext,
    /// An exact intermediate value cannot be stored in a `Ratio`.
    Overflow,
}

/// Failure modes of interpolating between two bracketing samples.
#[derive(Clone, Copy, Debug, PartialEq, Eq, Structural)]
pub enum InterpolationError {
    /// Degenerate bracket: equal positions with different values.
    UndefinedInterpolation,
    /// An exact intermediate value cannot be stored in a `Ratio`.
    Overflow,
}

/// Failure modes of the squared-relative-error metric.
#[derive(Clone, Copy, Debug, PartialEq, Eq, Structural)]
pub enum ErrorMetricError {
    /// Comparison against a zero reference value.
    DegenerateReference,
    /// An exact intermediate value cannot be stored in a `Ratio`.
    Overflow,
}

/// The affinity power law: the value a quantity measured at context `f`
/// takes at context `t`, with exponent `k` for this quantity/context pair.
pub open spec fn scale_law(q: (int, int), f: (int, int), t: (int, int), k: nat) -> (int, int) {
    rat_mul(q, rat_pow(rat_div(t, f), k))
}

/// Whether every intermediate of the power-law computation fits in a `Ratio`.
pub open spec fn scale_fits(q: (int, int), f: (int, int), t: (int, int), k: nat) -> bool {
    &&& rat_fits(rat_div(t, f))
    &&& rat_pow_fits(rat_div(t, f), k)
    &&& rat_fits(rat_mul(q, rat_pow(rat_div(t, f), k)))
}

/// Linear interpolation: the value at `t` on the line through
/// `(x0, y0)` and `(x1, y1)`.
pub open spec fn interp_law(
    x0: (int, int),
    y0: (int, int),
    x1: (int, int),
    y1: (int, int),
    t: (int, int),
) -> (int, int) {
    rat_add(y0, rat_div(rat_mul(rat_sub(y1, y0), rat_sub(t, x0)), rat_sub(x1, x0)))
}

/// Whether every intermediate of the interpolation fits in a `Ratio`.
pub open spec fn interp_fits(
    x0: (int, int),
    y0: (int, int),
    x1: (int, int),
    y1: (int, int),
    t: (int, int),
) -> bool {
    &&& rat_fits(rat_sub(x1, x0))
    &&& rat_fits(rat_sub(y1, y0))
    &&& rat_fits(rat_sub(t, x0))
    &&& rat_fits(rat_mul(rat_sub(y1, y0), rat_sub(t, x0)))
    &&& rat_fits(rat_div(rat_mul(rat_sub(y1, y0), rat_sub(t, x0)), rat_sub(x1, x0)))
    &&& rat_fits(rat_add(y0, rat_div(rat_mul(rat_sub(y1, y0), rat_sub(t, x0)), rat_sub(x1, x0))))
}

/// The relative deviation of `v` from a reference value.
pub open spec fn relative_deviation(v: (int, int), refv: (int, int)) -> (int, int) {
    rat_div(rat_sub(v, refv), refv)
}

/// The squared relative error of `v` against a reference value.
pub open spec fn err_sq_law(v: (int, int), refv: (int, int)) -> (int, int) {
    rat_mul(relative_deviation(v, refv), relative_deviation(v, refv))
}

/// Whether every intermediate of the error metric fits in a `Ratio`.
pub open spec fn err_fits(v: (int, int), refv: (int, int)) -> bool {
    &&& rat_fits(rat_sub(v, refv))
    &&& rat_fits(relative_deviation(v, refv))
    &&& rat_fits(err_sq_law(v, refv))
}

/// `t` lies between `a` and `b`, in either ordering of the endpoints.
pub open spec fn rat_btw(t: (int, int), a: (int, int), b: (int, int)) -> bool {
    (rat_le(a, t) && rat_le(t, b)) || (rat_le(b, t) && rat_le(t, a))
}

/// What `scale` returns, for a quantity/context pair with exponent `k`
/// and source-context check `matches`.
pub open spec fn scale_post<Q: Quantity>(
    q: Q,
    f: (int, int),
    t: (int, int),
    k: nat,
    matches: bool,
    r: Result<Q, ScaleError>,
) -> bool {
    &&& ((r == Err::<Q, ScaleError>(ScaleError::ContextMismatch)) <==> !matches)
    &&& (matches && rat_eq(f, t) ==> r == Ok::<Q, ScaleError>(q))
    &&& (matches && !rat_eq(f, t) && f.0 == 0 ==> r == Err::<Q, ScaleError>(
        ScaleError::DegenerateContext,
    ))
    &&& (matches && !rat_eq(f, t) && f.0 != 0 ==> (if scale_fits(q.val(), f, t, k) {
        &&& r is Ok
        &&& (r->Ok_0).val() == scale_law(q.val(), f, t, k)
        &&& (r->Ok_0).wf()
    } else {
        r == Err::<Q, ScaleError>(ScaleError::Overflow)
    }))
}

/// Rescaling between two values of one physical configuration variable
/// (diameter, speed, density), by the affinity law for the pair of
/// dimensions.
pub trait ScalesWith<Context: Quantity>: Quantity {
    /// The affinity-law exponent for this quantity/context pair.
    spec fn exp() -> nat;

    /// Whether the quantity can have been measured under `from`; a
    /// mismatch is reported as `ContextMismatch` rather than a wrong
    /// number.
    spec fn from_matches(self, from: Context) -> bool;

    /// Returns the value this quantity would take if the context changed
    /// from `from` to `to`, all else held equal.  Scaling to a context
    /// equal to the source context returns the quantity unchanged.
    fn scale(self, from: &Context, to: &Context) -> (r: Result<Self, ScaleError>)
        requires
            self.wf(),
            from.wf(),
            to.wf(),
        ensures
            scale_post(self, from.val(), to.val(), Self::exp(), self.from_matches(*from), r),
    ;
}

/// Rescaling a value that is itself the configuration variable: the
/// result is simply the new context value.
pub trait ScalesTo<Context: Quantity>: Sized {
    /// The value this quantity takes under the new context.
    spec fn scaled_to(self, to: Context) -> Self;

    fn scale_to(self, to: &Context) -> (r: Self)
        requires
            to.wf(),
        ensures
            r == self.scaled_to(*to),
    ;
}

/// What `interpolate_between` returns for bracket `(x0, y0)`, `(x1, y1)`
/// and position `t`.
pub open spec fn interp_post<Y: Quantity>(
    x0: (int, int),
    y0: Y,
    x1: (int, int),
    y1: Y,
    t: (int, int),
    r: Result<Y, InterpolationError>,
) -> bool {
    &&& (rat_eq(x0, x1) && rat_eq(y0.val(), y1.val()) ==> r == Ok::<Y, InterpolationError>(y0))
    &&& (rat_eq(x0, x1) && !rat_eq(y0.val(), y1.val()) ==> r == Err::<Y, InterpolationError>(
        InterpolationError::UndefinedInterpolation,
    ))
    &&& (!rat_eq(x0, x1) ==> (if interp_fits(x0, y0.val(), x1, y1.val(), t) {
        &&& r is Ok
        &&& (r->Ok_0).val() == interp_law(x0, y0.val(), x1, y1.val(), t)
        &&& (r->Ok_0).wf()
    } else {
        r == Err::<Y, InterpolationError>(InterpolationError::Overflow)
    }))
}

/// Estimating a quantity at an arbitrary position of an independent
/// variable, from two bracketing samples, by linear interpolation.
pub trait Interpolable<X: Quantity>: Quantity {
    fn interpolate_between(low: (X, Self), high: (X, Self), target: &X) -> (r: Result<
        Self,
        InterpolationError,
    >)
        requires
            low.0.wf(),
            low.1.wf(),
            high.0.wf(),
            high.1.wf(),
            target.wf(),
            rat_btw(target.val(), low.0.val(), high.0.val()),
        ensures
            interp_post(low.0.val(), low.1, high.0.val(), high.1, target.val(), r),
    ;
}

/// What `error_from` returns for value `v` against reference `refv`.
pub open spec fn error_post(
    v: (int, int),
    refv: (int, int),
    r: Result<Ratio, ErrorMetricError>,
) -> bool {
    &&& ((r == Err::<Ratio, ErrorMetricError>(ErrorMetricError::DegenerateReference)) <==> refv.0
        == 0)
    &&& (refv.0 != 0 ==> (if err_fits(v, refv) {
        &&& r is Ok
        &&& (r->Ok_0)@ == err_sq_law(v, refv)
        &&& (r->Ok_0).wf()
    } else {
        r == Err::<Ratio, ErrorMetricError>(ErrorMetricError::Overflow)
    }))
}

/// The normalized fitness score used as a convergence criterion: the
/// squared relative error against a reference value.
pub trait MeanErrorSquareComparable: Quantity {
    fn error_from(&self, reference: &Self) -> (r: Result<Ratio, ErrorMetricError>)
        requires
            self.wf(),
            reference.wf(),
        ensures
            error_post(self.val(), reference.val(), r),
    ;
}

/// Every quantity supports the error metric on its raw magnitude.
impl<T: Quantity> MeanErrorSquareComparable for T {
    fn error_from(&self, reference: &Self) -> (r: Result<Ratio, ErrorMetricError>) {
        error_from_ratio(&self.value(), &reference.value())
    }
}

/// Every quantity interpolates linearly along every quantity used as the
/// independent variable.
impl<X: Quantity, Y: Quantity> Interpolable<X> for Y {
    fn interpolate_between(low: (X, Y), high: (X, Y), target: &X) -> (r: Result<
        Y,
        InterpolationError,
    >) {
        let x0 = low.0.value();
        let x1 = high.0.value();
        if x0.eq_rat(&x1) {
            if low.1.value().eq_rat(&high.1.value()) {
                Ok(low.1)
            } else {
                Err(InterpolationError::UndefinedInterpolation)
            }
        } else {
            match interp_ratio(&x0, &low.1.value(), &x1, &high.1.value(), &target.value()) {
                Ok(v) => Ok(Y::from_ratio(v)),
                Err(e) => Err(e),
            }
        }
    }
}

/// Multiplication of fraction pairs is associative.
proof fn lemma_rat_mul_assoc(x: (int, int), y: (int, int), z: (int, int))
    ensures
        rat_mul(rat_mul(x, y), z) == rat_mul(x, rat_mul(y, z)),
{
    assert((x.0 * y.0) * z.0 == x.0 * (y.0 * z.0)) by (nonlinear_arith);
    assert((x.1 * y.1) * z.1 == x.1 * (y.1 * z.1)) by (nonlinear_arith);
}

/// Every power of `(1, 1)` is `(1, 1)`.
proof fn lemma_pow_one(k: nat)
    ensures
        rat_pow((1int, 1int), k) == (1int, 1int),
    decreases k,
{
    if k > 0 {
        lemma_pow_one((k - 1) as nat);
    }
}

/// Rationally equal bases have rationally equal powers.
proof fn lemma_pow_congruence(a: (int, int), b: (int, int), k: nat)
    requires
        rat_eq(a, b),
    ensures
        rat_eq(rat_pow(a, k), rat_pow(b, k)),
    decreases k,
{
    if k > 0 {
        lemma_pow_congruence(a, b, (k - 1) as nat);
        let pa = rat_pow(a, (k - 1) as nat);
        let pb = rat_pow(b, (k - 1) as nat);
        assert((pa.0 * a.0) * (pb.1 * b.1) == (pb.0 * b.0) * (pa.1 * a.1)) by (nonlinear_arith)
            requires
                pa.0 * pb.1 == pb.0 * pa.1,
                a.0 * b.1 == b.0 * a.1,
        ;
    }
}

/// Multiplying by rationally equal factors gives rationally equal products.
proof fn lemma_mul_congruence(q: (int, int), a: (int, int), b: (int, int))
    requires
        rat_eq(a, b),
    ensures
        rat_eq(rat_mul(q, a), rat_mul(q, b)),
{
    assert((q.0 * a.0) * (q.1 * b.1) == (q.0 * b.0) * (q.1 * a.1)) by (nonlinear_arith)
        requires
            a.0 * b.1 == b.0 * a.1,
    ;
}

/// A power of a product is the product of the powers.
proof fn lemma_pow_mul_distrib(a: (int, int), b: (int, int), k: nat)
    ensures
        rat_pow(rat_mul(a, b), k) == rat_mul(rat_pow(a, k), rat_pow(b, k)),
    decreases k,
{
    if k > 0 {
        lemma_pow_mul_distrib(a, b, (k - 1) as nat);
        let pa = rat_pow(a, (k - 1) as nat);
        let pb = rat_pow(b, (k - 1) as nat);
        assert((pa.0 * pb.0) * (a.0 * b.0) == (pa.0 * a.0) * (pb.0 * b.0)) by (nonlinear_arith);
        assert((pa.1 * pb.1) * (a.1 * b.1) == (pa.1 * a.1) * (pb.1 * b.1)) by (nonlinear_arith);
    }
}

/// Two successive context changes compose: going `c1 -> c2 -> c3` is,
/// as a fraction, the same step as going `c1 -> c3` directly.
/// Sign algebra for products.
proof fn lemma_neg_mul(x: int, y: int)
    ensures
        (-x) * (-y) == x * y,
        (-x) * y == -(x * y),
        x * (-y) == -(x * y),
{
    assert((-x) * (-y) == x * y && (-x) * y == -(x * y) && x * (-y) == -(x * y))
        by (nonlinear_arith);
}

proof fn lemma_div_compose(c1: (int, int), c2: (int, int), c3: (int, int))
    ensures
        rat_eq(rat_mul(rat_div(c2, c1), rat_div(c3, c2)), rat_div(c3, c1)),
{
    let a1 = c2.0 * c1.1;
    let a2 = c2.1 * c1.0;
    let b1 = c3.0 * c2.1;
    let b2 = c3.1 * c2.0;
    let d1 = c3.0 * c1.1;
    let d2 = c3.1 * c1.0;
    assert((a1 * b1) * d2 == d1 * (a2 * b2)) by (nonlinear_arith)
        requires
            a1 == c2.0 * c1.1,
            a2 == c2.1 * c1.0,
            b1 == c3.0 * c2.1,
            b2 == c3.1 * c2.0,
            d1 == c3.0 * c1.1,
            d2 == c3.1 * c1.0,
    ;
    lemma_neg_mul(a1, b1);
    lemma_neg_mul(a2, b2);
    lemma_neg_mul(a1 * b1, d2);
    lemma_neg_mul(a2 * b2, d1);
    lemma_neg_mul(d1, a2 * b2);
    lemma_neg_mul(d2, a1 * b1);
    if c1.0 < 0 {
        if c2.0 < 0 {
            assert(((-a1) * (-b1)) * (-d2) == (-d1) * ((-a2) * (-b2)));
        } else {
            assert(((-a1) * b1) * (-d2) == (-d1) * ((-a2) * b2));
        }
    } else {
        if c2.0 < 0 {
            assert((a1 * (-b1)) * d2 == d1 * (a2 * (-b2)));
        } else {
            assert((a1 * b1) * d2 == d1 * (a2 * b2));
        }
    }
}

/// Scaling to the source context itself is the identity, for any context
/// and any exponent: `scale(q, c, c)` keeps the value of `q`.
pub proof fn lemma_scale_same_context(q: (int, int), c: (int, int), k: nat)
    ensures
        rat_eq(scale_law(q, c, c, k), q),
{
    let d = rat_div(c, c);
    assert(c.0 * c.1 == c.1 * c.0) by (nonlinear_arith);
    assert(rat_eq(d, (1int, 1int)));
    lemma_pow_congruence(d, (1int, 1int), k);
    lemma_pow_one(k);
    lemma_mul_congruence(q, rat_pow(d, k), (1int, 1int));
    assert(rat_mul(q, (1int, 1int)) == q);
}

/// Scaling is transitive: rescaling `q` from `c1` to `c2` and the result
/// from `c2` to `c3` gives the same value as rescaling `q` from `c1` to
/// `c3` directly, for any exponent.
pub proof fn lemma_scale_transitive(
    q: (int, int),
    c1: (int, int),
    c2: (int, int),
    c3: (int, int),
    k: nat,
)
    ensures
        rat_eq(scale_law(scale_law(q, c1, c2, k), c2, c3, k), scale_law(q, c1, c3, k)),
{
    let a = rat_div(c2, c1);
    let b = rat_div(c3, c2);
    let c = rat_div(c3, c1);
    lemma_rat_mul_assoc(q, rat_pow(a, k), rat_pow(b, k));
    lemma_pow_mul_distrib(a, b, k);
    lemma_div_compose(c1, c2, c3);
    lemma_pow_congruence(rat_mul(a, b), c, k);
    lemma_mul_congruence(q, rat_pow(rat_mul(a, b), k), rat_pow(c, k));
}

/// Rescaling across two independent contexts is order-independent: the
/// power laws are multiplicative, so applying the two context changes in
/// either order gives the same value.
pub proof fn lemma_scale_order_independent(
    q: (int, int),
    f1: (int, int),
    t1: (int, int),
    k1: nat,
    f2: (int, int),
    t2: (int, int),
    k2: nat,
)
    ensures
        scale_law(scale_law(q, f1, t1, k1), f2, t2, k2) == scale_law(
            scale_law(q, f2, t2, k2),
            f1,
            t1,
            k1,
        ),
{
    let p1 = rat_pow(rat_div(t1, f1), k1);
    let p2 = rat_pow(rat_div(t2, f2), k2);
    assert((q.0 * p1.0) * p2.0 == (q.0 * p2.0) * p1.0) by (nonlinear_arith);
    assert((q.1 * p1.1) * p2.1 == (q.1 * p2.1) * p1.1) by (nonlinear_arith);
}

/// The error metric is zero exactly on an exact match: for a non-zero
/// reference, `error_from(v, refv)` is zero if and only if `v == refv`.
pub proof fn lemma_error_zero_iff(v: (int, int), refv: (int, int))
    requires
        v.1 > 0,
        refv.1 > 0,
        refv.0 != 0,
    ensures
        rat_eq(err_sq_law(v, refv), (0int, 1int)) <==> rat_eq(v, refv),
{
    let s = rat_sub(v, refv);
    let d = relative_deviation(v, refv);
    assert(d.0 == 0 <==> s.0 == 0) by (nonlinear_arith)
        requires
            refv.1 > 0,
            (d.0 == s.0 * refv.1 || d.0 == -(s.0 * refv.1)),
    ;
    assert(d.0 * d.0 == 0 <==> d.0 == 0) by (nonlinear_arith);
}

/// The error metric is never negative.
pub proof fn lemma_error_nonneg(v: (int, int), refv: (int, int))
    requires
        v.1 > 0,
        refv.1 > 0,
        refv.0 != 0,
    ensures
        rat_le((0int, 1int), err_sq_law(v, refv)),
{
    let d = relative_deviation(v, refv);
    assert(d.0 * d.0 >= 0) by (nonlinear_arith);
}

/// The magnitude of a fraction pair, component by component.
pub open spec fn rat_abs(a: (int, int)) -> (int, int) {
    (
        if a.0 >= 0 {
            a.0
        } else {
            -a.0
        },
        if a.1 >= 0 {
            a.1
        } else {
            -a.1
        },
    )
}

/// The relative deviation keeps a positive denominator.
proof fn lemma_deviation_den_pos(v: (int, int), refv: (int, int))
    requires
        v.1 > 0,
        refv.1 > 0,
        refv.0 != 0,
    ensures
        relative_deviation(v, refv).1 > 0,
{
    let s = rat_sub(v, refv);
    assert(v.1 * refv.1 > 0) by (nonlinear_arith)
        requires
            v.1 > 0,
            refv.1 > 0,
    ;
    if refv.0 < 0 {
        assert(-(s.1 * refv.0) > 0) by (nonlinear_arith)
            requires
                s.1 > 0,
                refv.0 < 0,
        ;
    } else {
        assert(s.1 * refv.0 > 0) by (nonlinear_arith)
            requires
                s.1 > 0,
                refv.0 > 0,
        ;
    }
}

/// The error metric grows with the relative deviation: a value whose
/// relative deviation from the reference is no larger in magnitude scores
/// no larger an error.
pub proof fn lemma_error_monotone(v1: (int, int), v2: (int, int), refv: (int, int))
    requires
        v1.1 > 0,
        v2.1 > 0,
        refv.1 > 0,
        refv.0 != 0,
        rat_le(rat_abs(relative_deviation(v1, refv)), rat_abs(relative_deviation(v2, refv))),
    ensures
        rat_le(err_sq_law(v1, refv), err_sq_law(v2, refv)),
{
    let d1 = relative_deviation(v1, refv);
    let d2 = relative_deviation(v2, refv);
    let x1: int = if d1.0 >= 0 {
        d1.0
    } else {
        -d1.0
    };
    let x2: int = if d2.0 >= 0 {
        d2.0
    } else {
        -d2.0
    };
    lemma_deviation_den_pos(v1, refv);
    lemma_deviation_den_pos(v2, refv);
    assert((d1.0 * d1.0) * (d2.1 * d2.1) <= (d2.0 * d2.0) * (d1.1 * d1.1)) by (nonlinear_arith)
        requires
            (x1 == d1.0 || x1 == -d1.0),
            x1 >= 0,
            (x2 == d2.0 || x2 == -d2.0),
            x2 >= 0,
            x1 * d2.1 <= x2 * d1.1,
            d1.1 > 0,
            d2.1 > 0,
    ;
}

/// Rational equality is transitive through a fraction with a non-zero
/// denominator.
pub proof fn lemma_rat_eq_trans(a: (int, int), b: (int, int), c: (int, int))
    requires
        rat_eq(a, b),
        rat_eq(b, c),
        b.1 != 0,
    ensures
        rat_eq(a, c),
{
    assert(a.0 * c.1 == c.0 * a.1) by (nonlinear_arith)
        requires
            a.0 * b.1 == b.0 * a.1,
            b.0 * c.1 == c.0 * b.1,
            b.1 != 0,
    ;
}

/// Replacing both operands by rationally equal values keeps the
/// difference rationally equal.
pub proof fn lemma_sub_congruence(a: (int, int), a2: (int, int), b: (int, int), b2: (int, int))
    requires
        rat_eq(a, a2),
        rat_eq(b, b2),
    ensures
        rat_eq(rat_sub(a, b), rat_sub(a2, b2)),
{
    assert((a.0 * b.1) * (a2.1 * b2.1) == (a2.0 * b2.1) * (a.1 * b.1)) by (nonlinear_arith)
        requires
            a.0 * a2.1 == a2.0 * a.1,
    ;
    assert((b.0 * a.1) * (a2.1 * b2.1) == (b2.0 * a2.1) * (a.1 * b.1)) by (nonlinear_arith)
        requires
            b.0 * b2.1 == b2.0 * b.1,
    ;
    assert((a.0 * b.1 - b.0 * a.1) * (a2.1 * b2.1) == (a.0 * b.1) * (a2.1 * b2.1) - (b.0 * a.1) * (
    a2.1 * b2.1)) by (nonlinear_arith);
    assert((a2.0 * b2.1 - b2.0 * a2.1) * (a.1 * b.1) == (a2.0 * b2.1) * (a.1 * b.1) - (b2.0 * a2.1)
        * (a.1 * b.1)) by (nonlinear_arith);
}

/// Replacing both factors by rationally equal values keeps the product
/// rationally equal.
pub proof fn lemma_mul_congruence_both(x: (int, int), x2: (int, int), y: (int, int), y2: (int, int))
    requires
        rat_eq(x, x2),
        rat_eq(y, y2),
    ensures
        rat_eq(rat_mul(x, y), rat_mul(x2, y2)),
{
    assert((x.0 * y.0) * (x2.1 * y2.1) == (x2.0 * y2.0) * (x.1 * y.1)) by (nonlinear_arith)
        requires
            x.0 * x2.1 == x2.0 * x.1,
            y.0 * y2.1 == y2.0 * y.1,
    ;
}

/// Order transfers across rational equality on both sides.
pub proof fn lemma_rat_le_transfer(a: (int, int), a2: (int, int), c: (int, int), c2: (int, int))
    requires
        rat_eq(a, a2),
        rat_eq(c, c2),
        rat_le(a2, c2),
        a.1 > 0,
        a2.1 > 0,
        c.1 > 0,
        c2.1 > 0,
    ensures
        rat_le(a, c),
{
    assert(a.0 * c.1 <= c.0 * a.1) by (nonlinear_arith)
        requires
            a.0 * a2.1 == a2.0 * a.1,
            c.0 * c2.1 == c2.0 * c.1,
            a2.0 * c2.1 <= c2.0 * a2.1,
            a.1 > 0,
            a2.1 > 0,
            c.1 > 0,
            c2.1 > 0,
    ;
}

/// The convergence test in product form: comparing the squared relative
/// error against a tolerance is the same as comparing the squared
/// difference against the tolerance times the squared reference, which
/// needs no division.
pub proof fn lemma_error_le_product_form(v: (int, int), refv: (int, int), tol: (int, int))
    ensures
        rat_le(err_sq_law(v, refv), tol) == rat_le(
            rat_mul(rat_sub(v, refv), rat_sub(v, refv)),
            rat_mul(tol, rat_mul(refv, refv)),
        ),
{
    let s = rat_sub(v, refv);
    let d = relative_deviation(v, refv);
    let u = s.0 * refv.1;
    let w = s.1 * refv.0;
    assert(d.0 * d.0 == u * u && d.1 * d.1 == w * w) by (nonlinear_arith)
        requires
            (d.0 == u || d.0 == -u),
            (d.1 == w || d.1 == -w),
    ;
    assert((s.0 * s.0) * (tol.1 * (refv.1 * refv.1)) == (u * u) * tol.1 && (tol.0 * (refv.0
        * refv.0)) * (s.1 * s.1) == tol.0 * (w * w)) by (nonlinear_arith)
        requires
            u == s.0 * refv.1,
            w == s.1 * refv.0,
    ;
}

/// The affinity power law on raw magnitudes: `q * (to / from)^k`.
pub fn scale_ratio(q: &Ratio, from: &Ratio, to: &Ratio, k: u32) -> (r: Result<Ratio, ScaleError>)
    requires
        q.wf(),
        from.wf(),
        to.wf(),
    ensures
        rat_eq(from@, to@) ==> r == Ok::<Ratio, ScaleError>(*q),
        !rat_eq(from@, to@) && from@.0 == 0 ==> r == Err::<Ratio, ScaleError>(
            ScaleError::DegenerateContext,
        ),
        !rat_eq(from@, to@) && from@.0 != 0 ==> (if scale_fits(q@, from@, to@, k as nat) {
            &&& r is Ok
            &&& (r->Ok_0)@ == scale_law(q@, from@, to@, k as nat)
            &&& (r->Ok_0).wf()
        } else {
            r == Err::<Ratio, ScaleError>(ScaleError::Overflow)
        }),
{
    if from.eq_rat(to) {
        return Ok(*q);
    }
    if from.num() == 0 {
        return Err(ScaleError::DegenerateContext);
    }
    let ratio = match to.div_r(from) {
        Some(v) => v,
        None => {
            return Err(ScaleError::Overflow);
        }
    };
    let powered = match ratio.pow_r(k) {
        Some(v) => v,
        None => {
            return Err(ScaleError::Overflow);
        }
    };
    match q.mul_r(&powered) {
        Some(v) => Ok(v),
        None => Err(ScaleError::Overflow),
    }
}

/// Linear interpolation on raw magnitudes:
/// `y0 + (y1 - y0) * (t - x0) / (x1 - x0)`.
pub fn interp_ratio(x0: &Ratio, y0: &Ratio, x1: &Ratio, y1: &Ratio, t: &Ratio) -> (r: Result<
    Ratio,
    InterpolationError,
>)
    requires
        x0.wf(),
        y0.wf(),
        x1.wf(),
        y1.wf(),
        t.wf(),
    ensures
        rat_eq(x0@, x1@) && rat_eq(y0@, y1@) ==> r == Ok::<Ratio, InterpolationError>(*y0),
        rat_eq(x0@, x1@) && !rat_eq(y0@, y1@) ==> r == Err::<Ratio, InterpolationError>(
            InterpolationError::UndefinedInterpolation,
        ),
        !rat_eq(x0@, x1@) ==> (if interp_fits(x0@, y0@, x1@, y1@, t@) {
            &&& r is Ok
            &&& (r->Ok_0)@ == interp_law(x0@, y0@, x1@, y1@, t@)
            &&& (r->Ok_0).wf()
        } else {
            r == Err::<Ratio, InterpolationError>(InterpolationError::Overflow)
        }),
{
    if x0.eq_rat(x1) {
        if y0.eq_rat(y1) {
            return Ok(*y0);
        }
        return Err(InterpolationError::UndefinedInterpolation);
    }
    let dx = match x1.sub_r(x0) {
        Some(v) => v,
        None => {
            return Err(InterpolationError::Overflow);
        }
    };
    let dy = match y1.sub_r(y0) {
        Some(v) => v,
        None => {
            return Err(InterpolationError::Overflow);
        }
    };
    let dt = match t.sub_r(x0) {
        Some(v) => v,
        None => {
            return Err(InterpolationError::Overflow);
        }
    };
    let rise = match dy.mul_r(&dt) {
        Some(v) => v,
        None => {
            return Err(InterpolationError::Overflow);
        }
    };
    let slope_part = match rise.div_r(&dx) {
        Some(v) => v,
        None => {
            return Err(InterpolationError::Overflow);
        }
    };
    match y0.add_r(&slope_part) {
        Some(v) => Ok(v),
        None => Err(InterpolationError::Overflow),
    }
}

/// The squared relative error on raw magnitudes:
/// `((v - refv) / refv)^2`.
pub fn error_from_ratio(v: &Ratio, refv: &Ratio) -> (r: Result<Ratio, ErrorMetricError>)
    requires
        v.wf(),
        refv.wf(),
    ensures
        error_post(v@, refv@, r),
{
    if refv.is_zero() {
        return Err(ErrorMetricError::DegenerateReference);
    }
    let diff = match v.sub_r(refv) {
        Some(d) => d,
        None => {
            return Err(ErrorMetricError::Overflow);
        }
    };
    let dev = match diff.div_r(refv) {
        Some(d) => d,
        None => {
            return Err(ErrorMetricError::Overflow);
        }
    };
    match dev.mul_r(&dev) {
        Some(e) => Ok(e),
        None => Err(ErrorMetricError::Overflow),
    }
}

} // verus!
