//! Exact rational scalars.
//!
//! Every physical quantity in the engine carries its magnitude as a
//! `Ratio`: a fraction of two `i64` values with a positive denominator.
//! Arithmetic is exact; each operation computes in `i128`, where a product
//! of two `i64` values always fits, and succeeds exactly when the result
//! can be stored back into `i64` components.

use vstd::prelude::*;

verus! {

/// The mathematical value of a `Ratio` is a pair `(numerator, denominator)`
/// of unbounded integers with a positive denominator; the spec-level
/// operations below are the ordinary fraction laws over such pairs:
/// equality of fractions is by cross multiplication.
pub open spec fn rat_eq(a: (int, int), b: (int, int)) -> bool {
    a.0 * b.1 == b.0 * a.1
}

/// Order on fractions by cross multiplication; meaningful when both
/// denominators are positive.
pub open spec fn rat_le(a: (int, int), b: (int, int)) -> bool {
    a.0 * b.1 <= b.0 * a.1
}

pub open spec fn rat_lt(a: (int, int), b: (int, int)) -> bool {
    a.0 * b.1 < b.0 * a.1
}

pub open spec fn rat_add(a: (int, int), b: (int, int)) -> (int, int) {
    (a.0 * b.1 + b.0 * a.1, a.1 * b.1)
}

pub open spec fn rat_sub(a: (int, int), b: (int, int)) -> (int, int) {
    (a.0 * b.1 - b.0 * a.1, a.1 * b.1)
}

pub open spec fn rat_mul(a: (int, int), b: (int, int)) -> (int, int) {
    (a.0 * b.0, a.1 * b.1)
}

/// Division keeps the denominator positive by moving the divisor's sign
/// into the numerator.
pub open spec fn rat_div(a: (int, int), b: (int, int)) -> (int, int) {
    if b.0 < 0 {
        (-(a.0 * b.1), -(a.1 * b.0))
    } else {
        (a.0 * b.1, a.1 * b.0)
    }
}

pub open spec fn rat_pow(a: (int, int), k: nat) -> (int, int)
    decreases k,
{
    if k == 0 {
        (1, 1)
    } else {
        rat_mul(rat_pow(a, (k - 1) as nat), a)
    }
}

/// Whether an unbounded integer can be stored in an `i64`.
pub open spec fn fits_i64(n: int) -> bool {
    i64::MIN <= n <= i64::MAX
}

pub open spec fn rat_fits(a: (int, int)) -> bool {
    fits_i64(a.0) && fits_i64(a.1)
}

/// Whether every intermediate power of `a` up to `a^k`, taken left to
/// right, can be stored in a `Ratio`.
pub open spec fn rat_pow_fits(a: (int, int), k: nat) -> bool
    decreases k,
{
    if k == 0 {
        true
    } else {
        rat_pow_fits(a, (k - 1) as nat) && rat_fits(rat_mul(rat_pow(a, (k - 1) as nat), a))
    }
}

/// A product of two values in `i64` range stays within `2^126` in
/// magnitude, so it always fits in an `i128`.
pub proof fn lemma_i64_prod_bound(x: int, y: int)
    requires
        -0x8000_0000_0000_0000 <= x <= 0x7fff_ffff_ffff_ffff,
        -0x8000_0000_0000_0000 <= y <= 0x7fff_ffff_ffff_ffff,
    ensures
        -0x4000_0000_0000_0000_0000_0000_0000_0000 <= x * y
            <= 0x4000_0000_0000_0000_0000_0000_0000_0000,
{
    assert(-0x4000_0000_0000_0000_0000_0000_0000_0000 <= x * y
        <= 0x4000_0000_0000_0000_0000_0000_0000_0000) by (nonlinear_arith)
        requires
            -0x8000_0000_0000_0000 <= x <= 0x7fff_ffff_ffff_ffff,
            -0x8000_0000_0000_0000 <= y <= 0x7fff_ffff_ffff_ffff,
    ;
}

/// A product of an `i64` value and a positive `i64` value stays strictly
/// below `2^126` in magnitude, so two such products can be added in `i128`.
pub proof fn lemma_i64_pos_prod_bound(x: int, y: int)
    requires
        -0x8000_0000_0000_0000 <= x <= 0x7fff_ffff_ffff_ffff,
        1 <= y <= 0x7fff_ffff_ffff_ffff,
    ensures
        -0x3fff_ffff_ffff_ffff_8000_0000_0000_0000 <= x * y
            <= 0x3fff_ffff_ffff_ffff_8000_0000_0000_0000,
{
    assert(-0x3fff_ffff_ffff_ffff_8000_0000_0000_0000 <= x * y
        <= 0x3fff_ffff_ffff_ffff_8000_0000_0000_0000) by (nonlinear_arith)
        requires
            -0x8000_0000_0000_0000 <= x <= 0x7fff_ffff_ffff_ffff,
            1 <= y <= 0x7fff_ffff_ffff_ffff,
    ;
}

/// A product of two positive values is positive.
pub proof fn lemma_pos_prod(x: int, y: int)
    requires
        x > 0,
        y > 0,
    ensures
        x * y > 0,
{
    assert(x * y > 0) by (nonlinear_arith)
        requires
            x > 0,
            y > 0,
    ;
}

/// An exact rational scalar: `num / den` with `den > 0`.
#[derive(Clone, Copy, Debug, PartialEq, Eq, Structural)]
pub struct Ratio {
    num: i64,
    den: i64,
}

impl View for Ratio {
    type V = (int, int);

    closed spec fn view(&self) -> (int, int) {
        (self.num as int, self.den as int)
    }
}

impl Ratio {
    /// Well-formed: the denominator is positive.
    pub open spec fn wf(self) -> bool {
        self@.1 > 0
    }

    /// Constructs the fraction `num / den`.
    pub fn new(num: i64, den: i64) -> (r: Ratio)
        requires
            den > 0,
        ensures
            r@ == (num as int, den as int),
            r.wf(),
    {
        Ratio { num, den }
    }

    /// Constructs the whole number `n`.
    pub fn from_int(n: i64) -> (r: Ratio)
        ensures
            r@ == (n as int, 1int),
            r.wf(),
    {
        Ratio { num: n, den: 1 }
    }

    /// The raw numerator.
    pub fn num(&self) -> (r: i64)
        ensures
            r as int == self@.0,
    {
        self.num
    }

    /// The raw denominator.
    pub fn den(&self) -> (r: i64)
        ensures
            r as int == self@.1,
    {
        self.den
    }

    /// Stores an exact `i128` fraction back into a `Ratio` when it fits.
    fn store(n: i128, d: i128) -> (r: Option<Ratio>)
        requires
            d > 0,
        ensures
            r is Some <==> rat_fits((n as int, d as int)),
            r is Some ==> r.unwrap()@ == (n as int, d as int) && r.unwrap().wf(),
    {
        if i64::MIN as i128 <= n && n <= i64::MAX as i128 && d <= i64::MAX as i128 {
            Some(Ratio { num: n as i64, den: d as i64 })
        } else {
            None
        }
    }

    /// Exact rational equality (cross multiplication in `i128`).
    pub fn eq_rat(&self, other: &Ratio) -> (r: bool)
        ensures
            r == rat_eq(self@, other@),
    {
        proof {
            lemma_i64_prod_bound(self.num as int, other.den as int);
            lemma_i64_prod_bound(other.num as int, self.den as int);
        }
        (self.num as i128) * (other.den as i128) == (other.num as i128) * (self.den as i128)
    }

    /// Exact rational comparison; meaningful for well-formed operands.
    pub fn le_rat(&self, other: &Ratio) -> (r: bool)
        ensures
            r == rat_le(self@, other@),
    {
        proof {
            lemma_i64_prod_bound(self.num as int, other.den as int);
            lemma_i64_prod_bound(other.num as int, self.den as int);
        }
        (self.num as i128) * (other.den as i128) <= (other.num as i128) * (self.den as i128)
    }

    pub fn lt_rat(&self, other: &Ratio) -> (r: bool)
        ensures
            r == rat_lt(self@, other@),
    {
        proof {
            lemma_i64_prod_bound(self.num as int, other.den as int);
            lemma_i64_prod_bound(other.num as int, self.den as int);
        }
        (self.num as i128) * (other.den as i128) < (other.num as i128) * (self.den as i128)
    }

    /// Whether the value is exactly zero.
    pub fn is_zero(&self) -> (r: bool)
        ensures
            r == (self@.0 == 0),
    {
        self.num == 0
    }

    /// Exact sum; `None` exactly when the result does not fit.
    pub fn add_r(&self, other: &Ratio) -> (r: Option<Ratio>)
        requires
            self.wf(),
            other.wf(),
        ensures
            r is Some <==> rat_fits(rat_add(self@, other@)),
            r is Some ==> r.unwrap()@ == rat_add(self@, other@) && r.unwrap().wf(),
    {
        proof {
            lemma_i64_pos_prod_bound(self.num as int, other.den as int);
            lemma_i64_pos_prod_bound(other.num as int, self.den as int);
            lemma_i64_pos_prod_bound(self.den as int, other.den as int);
            lemma_pos_prod(self.den as int, other.den as int);
        }
        let n: i128 = (self.num as i128) * (other.den as i128)
            + (other.num as i128) * (self.den as i128);
        let d: i128 = (self.den as i128) * (other.den as i128);
        Self::store(n, d)
    }

    /// Exact difference; `None` exactly when the result does not fit.
    pub fn sub_r(&self, other: &Ratio) -> (r: Option<Ratio>)
        requires
            self.wf(),
            other.wf(),
        ensures
            r is Some <==> rat_fits(rat_sub(self@, other@)),
            r is Some ==> r.unwrap()@ == rat_sub(self@, other@) && r.unwrap().wf(),
    {
        proof {
            lemma_i64_pos_prod_bound(self.num as int, other.den as int);
            lemma_i64_pos_prod_bound(other.num as int, self.den as int);
            lemma_i64_pos_prod_bound(self.den as int, other.den as int);
            lemma_pos_prod(self.den as int, other.den as int);
        }
        let n: i128 = (self.num as i128) * (other.den as i128)
            - (other.num as i128) * (self.den as i128);
        let d: i128 = (self.den as i128) * (other.den as i128);
        Self::store(n, d)
    }

    /// Exact product; `None` exactly when the result does not fit.
    pub fn mul_r(&self, other: &Ratio) -> (r: Option<Ratio>)
        requires
            self.wf(),
            other.wf(),
        ensures
            r is Some <==> rat_fits(rat_mul(self@, other@)),
            r is Some ==> r.unwrap()@ == rat_mul(self@, other@) && r.unwrap().wf(),
    {
        proof {
            lemma_i64_prod_bound(self.num as int, other.num as int);
            lemma_i64_pos_prod_bound(self.den as int, other.den as int);
            lemma_pos_prod(self.den as int, other.den as int);
        }
        let n: i128 = (self.num as i128) * (other.num as i128);
        let d: i128 = (self.den as i128) * (other.den as i128);
        Self::store(n, d)
    }

    /// Exact quotient; the divisor must be non-zero, and `None` comes back
    /// exactly when the result does not fit.
    pub fn div_r(&self, other: &Ratio) -> (r: Option<Ratio>)
        requires
            self.wf(),
            other.wf(),
            other@.0 != 0,
        ensures
            r is Some <==> rat_fits(rat_div(self@, other@)),
            r is Some ==> r.unwrap()@ == rat_div(self@, other@) && r.unwrap().wf(),
    {
        proof {
            lemma_i64_pos_prod_bound(self.num as int, other.den as int);
            lemma_i64_prod_bound(self.den as int, other.num as int);
            assert(((other.num as int) > 0 ==> (self.den as int) * (other.num as int) > 0)
                && ((other.num as int) < 0 ==> (self.den as int) * (other.num as int) < 0))
                by (nonlinear_arith)
                requires
                    (self.den as int) > 0,
            ;
        }
        let n: i128 = (self.num as i128) * (other.den as i128);
        let d: i128 = (self.den as i128) * (other.num as i128);
        if d < 0 {
            Self::store(-n, -d)
        } else {
            Self::store(n, d)
        }
    }

    /// The same value in lowest terms: both components are divided by
    /// their greatest common divisor.
    pub fn reduced(&self) -> (r: Ratio)
        requires
            self.wf(),
        ensures
            r.wf(),
            rat_eq(r@, self@),
    {
        if self.num == 0 {
            let zero = Ratio { num: 0, den: 1 };
            proof {
                assert(zero@.0 * self@.1 == 0) by (nonlinear_arith)
                    requires
                        zero@.0 == 0,
                ;
            }
            return zero;
        }
        let na: u64 = if self.num < 0 {
            (-(self.num as i128)) as u64
        } else {
            self.num as u64
        };
        let da: u64 = self.den as u64;
        let g: u64 = gcd_u64(na, da);
        if g <= 1 {
            return *self;
        }
        proof {
            let kn = choose|k: int| na as int == #[trigger] (g as int * k);
            let kd = choose|k: int| da as int == #[trigger] (g as int * k);
            vstd::arithmetic::div_mod::lemma_div_multiples_vanish(kn, g as int);
            vstd::arithmetic::div_mod::lemma_div_multiples_vanish(kd, g as int);
            assert(kn >= 1 && 2 * kn <= na as int && kd >= 1 && 2 * kd <= da as int)
                by (nonlinear_arith)
                requires
                    na as int == g as int * kn,
                    da as int == g as int * kd,
                    na as int > 0,
                    da as int > 0,
                    g as int >= 2,
            ;
        }
        let q_n: u64 = na / g;
        let q_d: u64 = da / g;
        let new_num: i64 = if self.num < 0 {
            -(q_n as i64)
        } else {
            q_n as i64
        };
        let new_den: i64 = q_d as i64;
        proof {
            assert((q_n as int) * (self.den as int) == (na as int) * (new_den as int)
                && ((-(q_n as int)) * (self.den as int) == (-(na as int)) * (new_den as int))
                && (new_den as int) > 0) by (nonlinear_arith)
                requires
                    na as int == g as int * (q_n as int),
                    da as int == g as int * (q_d as int),
                    self.den as int == da as int,
                    new_den as int == q_d as int,
                    q_d as int >= 1,
                    g as int >= 2,
            ;
        }
        Ratio { num: new_num, den: new_den }
    }

    /// Exact power by repeated multiplication; `None` exactly when some
    /// intermediate power does not fit.
    pub fn pow_r(&self, k: u32) -> (r: Option<Ratio>)
        requires
            self.wf(),
        ensures
            r is Some <==> rat_pow_fits(self@, k as nat),
            r is Some ==> r.unwrap()@ == rat_pow(self@, k as nat) && r.unwrap().wf(),
    {
        let mut acc: Ratio = Ratio::from_int(1);
        let mut i: u32 = 0;
        while i < k
            invariant
                self.wf(),
                i <= k,
                acc.wf(),
                acc@ == rat_pow(self@, i as nat),
                rat_pow_fits(self@, i as nat),
            decreases k - i,
        {
            match acc.mul_r(self) {
                Some(next) => {
                    acc = next;
                    i = i + 1;
                }
                None => {
                    proof {
                        if rat_pow_fits(self@, k as nat) {
                            lemma_pow_fits_mono(self@, (i + 1) as nat, k as nat);
                        }
                    }
                    return None;
                }
            }
        }
        Some(acc)
    }
}

/// `d` evenly divides `x`.
pub open spec fn divides(d: int, x: int) -> bool {
    exists|k: int| x == #[trigger] (d * k)
}

/// Euclid's algorithm; the result is a positive common divisor of both
/// arguments.
fn gcd_u64(a0: u64, b0: u64) -> (g: u64)
    requires
        a0 > 0 || b0 > 0,
    ensures
        g > 0,
        divides(g as int, a0 as int),
        divides(g as int, b0 as int),
{
    let mut a = a0;
    let mut b = b0;
    while b != 0
        invariant
            a > 0 || b > 0,
            forall|d: int|
                #[trigger] divides(d, a as int) && divides(d, b as int) ==> divides(d, a0 as int)
                    && divides(d, b0 as int),
        decreases b,
    {
        let t = a % b;
        proof {
            assert forall|d: int|
                #[trigger] divides(d, b as int) && divides(d, t as int) implies divides(
                d,
                a as int,
            ) && divides(d, b as int) by {
                let k1 = choose|k: int| b as int == #[trigger] (d * k);
                let k2 = choose|k: int| t as int == #[trigger] (d * k);
                vstd::arithmetic::div_mod::lemma_fundamental_div_mod(a as int, b as int);
                let q = a as int / b as int;
                assert(a as int == d * (k1 * q + k2)) by (nonlinear_arith)
                    requires
                        b as int == d * k1,
                        t as int == d * k2,
                        a as int == (b as int) * q + (t as int),
                ;
                assert(divides(d, a as int));
            }
        }
        a = b;
        b = t;
    }
    proof {
        assert(a as int == (a as int) * 1);
        assert(divides(a as int, a as int));
        assert(0int == (a as int) * 0);
        assert(divides(a as int, b as int));
    }
    a
}

/// If every power of `a` up to `a^k` fits, so does every power up to a
/// smaller exponent.
pub proof fn lemma_pow_fits_mono(a: (int, int), j: nat, k: nat)
    requires
        j <= k,
        rat_pow_fits(a, k),
    ensures
        rat_pow_fits(a, j),
    decreases k,
{
    if j < k {
        lemma_pow_fits_mono(a, j, (k - 1) as nat);
    }
}

} // verus!
