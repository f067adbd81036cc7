//! Exact rational scalars.
//!
//! The transform pipeline works over rationals instead of machine reals,
//! so every matrix identity it needs can be stated and proved exactly.
//! A value is a numerator over a positive denominator; operations check
//! for overflow and return `None` instead of wrapping. Specifications
//! speak of unbounded fractions `(int, int)` and of the equivalence
//! `frac_eq` (equal cross products), never of the representation alone.

use vstd::prelude::*;

verus! {

/// An exact rational number: `n / d` with `d >= 1`.
///
/// Two values may represent the same rational with different numerators
/// (`1/2` and `2/4`); `==` compares representations, `Rat::eqv` compares
/// the rationals themselves.
#[derive(Clone, Copy, Debug, PartialEq, Eq, Structural)]
pub struct Rat {
    pub n: i64,
    pub d: i64,
}

/// The unbounded fraction a `Rat` stands for.
pub open spec fn frac_of(r: Rat) -> (int, int) {
    (r.n as int, r.d as int)
}

/// Two fractions name the same rational: equal cross products.
pub open spec fn frac_eq(a: (int, int), b: (int, int)) -> bool {
    a.0 * b.1 == b.0 * a.1
}

/// Fraction sum, as taught: cross-multiplied over the common denominator.
pub open spec fn frac_add(a: (int, int), b: (int, int)) -> (int, int) {
    (a.0 * b.1 + b.0 * a.1, a.1 * b.1)
}

/// Fraction difference.
pub open spec fn frac_sub(a: (int, int), b: (int, int)) -> (int, int) {
    (a.0 * b.1 - b.0 * a.1, a.1 * b.1)
}

/// Fraction product.
pub open spec fn frac_mul(a: (int, int), b: (int, int)) -> (int, int) {
    (a.0 * b.0, a.1 * b.1)
}

/// Fraction quotient, the divisor's sign moved into the numerator so the
/// denominator stays positive.
pub open spec fn frac_div(a: (int, int), b: (int, int)) -> (int, int) {
    if b.0 >= 0 {
        (a.0 * b.1, a.1 * b.0)
    } else {
        (-(a.0 * b.1), -(a.1 * b.0))
    }
}

/// Whether an unbounded integer fits the representation's numerator.
pub open spec fn fits_i64(x: int) -> bool {
    i64::MIN <= x <= i64::MAX
}

/// How a computed fraction is packed back into a `Rat`: a zero numerator
/// collapses to `0/1`; otherwise the fraction is kept as computed when it
/// fits, and the operation fails when it does not.
pub open spec fn spec_pack(f: (int, int)) -> Option<Rat> {
    if f.0 == 0 {
        Some(Rat { n: 0, d: 1 })
    } else if fits_i64(f.0) && f.1 <= i64::MAX {
        Some(Rat { n: f.0 as i64, d: f.1 as i64 })
    } else {
        Option::None
    }
}

/// The checked sum of two scalars, as a spec-level function.
pub open spec fn spec_add(a: Rat, b: Rat) -> Option<Rat> {
    spec_pack(frac_add(frac_of(a), frac_of(b)))
}

/// The checked difference of two scalars.
pub open spec fn spec_sub(a: Rat, b: Rat) -> Option<Rat> {
    spec_pack(frac_sub(frac_of(a), frac_of(b)))
}

/// The checked product of two scalars.
pub open spec fn spec_mul(a: Rat, b: Rat) -> Option<Rat> {
    spec_pack(frac_mul(frac_of(a), frac_of(b)))
}

/// The checked quotient of two scalars.
pub open spec fn spec_div(a: Rat, b: Rat) -> Option<Rat> {
    spec_pack(frac_div(frac_of(a), frac_of(b)))
}

/// The checked negation of a scalar.
pub open spec fn spec_neg(a: Rat) -> Option<Rat> {
    spec_pack((-(a.n as int), a.d as int))
}

/// The product of an i64 numerator and a positive i64 denominator stays
/// well inside the 128-bit range.
proof fn lemma_nd_prod_bounds(n: int, d: int)
    requires
        i64::MIN <= n <= i64::MAX,
        1 <= d <= i64::MAX,
    ensures
        -0x4000_0000_0000_0000_0000_0000_0000_0000 <= n * d
            < 0x4000_0000_0000_0000_0000_0000_0000_0000,
{
    assert(-0x4000_0000_0000_0000_0000_0000_0000_0000 <= n * d
        < 0x4000_0000_0000_0000_0000_0000_0000_0000) by (nonlinear_arith)
        requires
            -0x8000_0000_0000_0000 <= n < 0x8000_0000_0000_0000,
            1 <= d < 0x8000_0000_0000_0000,
    ;
}

/// The product of two i64 values fits the 128-bit range.
proof fn lemma_nn_prod_bounds(a: int, b: int)
    requires
        i64::MIN <= a <= i64::MAX,
        i64::MIN <= b <= i64::MAX,
    ensures
        -0x8000_0000_0000_0000_0000_0000_0000_0000 < a * b
            <= 0x4000_0000_0000_0000_0000_0000_0000_0000,
{
    assert(-0x8000_0000_0000_0000_0000_0000_0000_0000 < a * b
        <= 0x4000_0000_0000_0000_0000_0000_0000_0000) by (nonlinear_arith)
        requires
            -0x8000_0000_0000_0000 <= a < 0x8000_0000_0000_0000,
            -0x8000_0000_0000_0000 <= b < 0x8000_0000_0000_0000,
    ;
}

/// The product of two positive i64 denominators is positive and fits the
/// 128-bit range.
proof fn lemma_dd_prod_bounds(a: int, b: int)
    requires
        1 <= a <= i64::MAX,
        1 <= b <= i64::MAX,
    ensures
        1 <= a * b < 0x4000_0000_0000_0000_0000_0000_0000_0000,
{
    assert(1 <= a * b < 0x4000_0000_0000_0000_0000_0000_0000_0000) by (nonlinear_arith)
        requires
            1 <= a < 0x8000_0000_0000_0000,
            1 <= b < 0x8000_0000_0000_0000,
    ;
}

impl Rat {
    /// The representation invariant: denominators are positive.
    pub open spec fn wf(self) -> bool {
        self.d >= 1
    }

    /// Zero, canonically `0/1`.
    pub fn zero() -> (r: Rat)
        ensures
            r == (Rat { n: 0, d: 1 }),
    {
        Rat { n: 0, d: 1 }
    }

    /// One, canonically `1/1`.
    pub fn one() -> (r: Rat)
        ensures
            r == (Rat { n: 1, d: 1 }),
    {
        Rat { n: 1, d: 1 }
    }

    /// The rational `n / d`.
    pub fn new(n: i64, d: i64) -> (r: Rat)
        requires
            d >= 1,
        ensures
            r == (Rat { n, d }),
    {
        Rat { n, d }
    }

    /// The integer `n` as a rational.
    pub fn from_int(n: i64) -> (r: Rat)
        ensures
            r == (Rat { n, d: 1 }),
    {
        Rat { n, d: 1 }
    }

    /// Packs a 128-bit fraction into a `Rat`, exactly as `spec_pack` says.
    fn pack(n: i128, d: i128) -> (r: Option<Rat>)
        requires
            1 <= d < 0x4000_0000_0000_0000_0000_0000_0000_0000,
        ensures
            r == spec_pack((n as int, d as int)),
    {
        if n == 0 {
            Some(Rat { n: 0, d: 1 })
        } else if i64::MIN as i128 <= n && n <= i64::MAX as i128 && d <= i64::MAX as i128 {
            Some(Rat { n: n as i64, d: d as i64 })
        } else {
            Option::None
        }
    }

    /// Checked addition; `None` exactly when the cross-multiplied sum no
    /// longer fits the representation.
    pub fn checked_add(self, other: Rat) -> (r: Option<Rat>)
        requires
            self.wf(),
            other.wf(),
        ensures
            r == spec_add(self, other),
            r matches Some(v) ==> v.wf() && frac_eq(frac_of(v), frac_add(frac_of(self), frac_of(other))),
    {
        proof {
            lemma_nd_prod_bounds(self.n as int, other.d as int);
            lemma_nd_prod_bounds(other.n as int, self.d as int);
            lemma_dd_prod_bounds(self.d as int, other.d as int);
        }
        let n: i128 = (self.n as i128) * (other.d as i128) + (other.n as i128) * (self.d as i128);
        let d: i128 = (self.d as i128) * (other.d as i128);
        let r = Self::pack(n, d);
        proof {
            lemma_pack_value((n as int, d as int));
        }
        r
    }

    /// Checked subtraction; `None` exactly when the result no longer fits.
    pub fn checked_sub(self, other: Rat) -> (r: Option<Rat>)
        requires
            self.wf(),
            other.wf(),
        ensures
            r == spec_sub(self, other),
            r matches Some(v) ==> v.wf() && frac_eq(frac_of(v), frac_sub(frac_of(self), frac_of(other))),
    {
        proof {
            lemma_nd_prod_bounds(self.n as int, other.d as int);
            lemma_nd_prod_bounds(other.n as int, self.d as int);
            lemma_dd_prod_bounds(self.d as int, other.d as int);
        }
        let n: i128 = (self.n as i128) * (other.d as i128) - (other.n as i128) * (self.d as i128);
        let d: i128 = (self.d as i128) * (other.d as i128);
        let r = Self::pack(n, d);
        proof {
            lemma_pack_value((n as int, d as int));
        }
        r
    }

    /// Checked multiplication; `None` exactly when the result no longer
    /// fits.
    pub fn checked_mul(self, other: Rat) -> (r: Option<Rat>)
        requires
            self.wf(),
            other.wf(),
        ensures
            r == spec_mul(self, other),
            r matches Some(v) ==> v.wf() && frac_eq(frac_of(v), frac_mul(frac_of(self), frac_of(other))),
    {
        proof {
            lemma_nn_prod_bounds(self.n as int, other.n as int);
            lemma_dd_prod_bounds(self.d as int, other.d as int);
        }
        let n: i128 = (self.n as i128) * (other.n as i128);
        let d: i128 = (self.d as i128) * (other.d as i128);
        let r = Self::pack(n, d);
        proof {
            lemma_pack_value((n as int, d as int));
        }
        r
    }

    /// Checked division by a non-zero rational; `None` exactly when the
    /// result no longer fits.
    pub fn checked_div(self, other: Rat) -> (r: Option<Rat>)
        requires
            self.wf(),
            other.wf(),
            other.n != 0,
        ensures
            r == spec_div(self, other),
            r matches Some(v) ==> v.wf() && frac_eq(frac_of(v), frac_div(frac_of(self), frac_of(other))),
    {
        proof {
            lemma_nd_prod_bounds(self.n as int, other.d as int);
            lemma_nn_prod_bounds(self.d as int, other.n as int);
        }
        let n0: i128 = (self.n as i128) * (other.d as i128);
        let d0: i128 = (self.d as i128) * (other.n as i128);
        let (n, d): (i128, i128) = if other.n >= 1 {
            (n0, d0)
        } else {
            (-n0, -d0)
        };
        proof {
            assert(d == frac_div(frac_of(self), frac_of(other)).1);
            assert(n == frac_div(frac_of(self), frac_of(other)).0);
            assert(1 <= d < 0x4000_0000_0000_0000_0000_0000_0000_0000) by (nonlinear_arith)
                requires
                    d0 == (self.d as int) * (other.n as int),
                    1 <= self.d < 0x8000_0000_0000_0000,
                    -0x8000_0000_0000_0000 <= other.n < 0x8000_0000_0000_0000,
                    other.n != 0,
                    (other.n >= 1 && d == d0) || (other.n <= -1 && d == -d0),
            ;
        }
        let r = Self::pack(n, d);
        proof {
            lemma_pack_value((n as int, d as int));
        }
        r
    }

    /// Checked negation; `None` exactly when the numerator has no
    /// negation in the representation.
    pub fn checked_neg(self) -> (r: Option<Rat>)
        requires
            self.wf(),
        ensures
            r == spec_neg(self),
            r matches Some(v) ==> v.wf() && frac_eq(frac_of(v), (-(self.n as int), self.d as int)),
    {
        let n: i128 = -(self.n as i128);
        let r = Self::pack(n, self.d as i128);
        proof {
            lemma_pack_value((n as int, self.d as int));
        }
        r
    }

    /// Whether two scalars name the same rational.
    pub fn eqv(self, other: Rat) -> (r: bool)
        requires
            self.wf(),
            other.wf(),
        ensures
            r == frac_eq(frac_of(self), frac_of(other)),
    {
        proof {
            lemma_nd_prod_bounds(self.n as int, other.d as int);
            lemma_nd_prod_bounds(other.n as int, self.d as int);
        }
        (self.n as i128) * (other.d as i128) == (other.n as i128) * (self.d as i128)
    }

    /// Whether `self <= other` as rationals.
    pub fn le(self, other: Rat) -> (r: bool)
        requires
            self.wf(),
            other.wf(),
        ensures
            r == (frac_of(self).0 * frac_of(other).1 <= frac_of(other).0 * frac_of(self).1),
    {
        proof {
            lemma_nd_prod_bounds(self.n as int, other.d as int);
            lemma_nd_prod_bounds(other.n as int, self.d as int);
        }
        (self.n as i128) * (other.d as i128) <= (other.n as i128) * (self.d as i128)
    }

    /// Whether `self < other` as rationals.
    pub fn lt(self, other: Rat) -> (r: bool)
        requires
            self.wf(),
            other.wf(),
        ensures
            r == (frac_of(self).0 * frac_of(other).1 < frac_of(other).0 * frac_of(self).1),
    {
        proof {
            lemma_nd_prod_bounds(self.n as int, other.d as int);
            lemma_nd_prod_bounds(other.n as int, self.d as int);
        }
        (self.n as i128) * (other.d as i128) < (other.n as i128) * (self.d as i128)
    }
}

/// What `spec_pack` keeps is the rational it was given.
pub proof fn lemma_pack_value(f: (int, int))
    requires
        f.1 >= 1,
    ensures
        spec_pack(f) matches Some(v) ==> v.wf() && frac_eq(frac_of(v), f),
{
    if f.0 == 0 {
        let v = Rat { n: 0, d: 1 };
        assert(frac_of(v).0 * f.1 == 0);
        assert(f.0 * frac_of(v).1 == 0) by (nonlinear_arith)
            requires
                f.0 == 0,
        ;
    }
}



/// `frac_eq` is transitive over positive denominators.
pub proof fn lemma_frac_eq_trans(a: (int, int), b: (int, int), c: (int, int))
    requires
        a.1 >= 1,
        b.1 >= 1,
        c.1 >= 1,
        frac_eq(a, b),
        frac_eq(b, c),
    ensures
        frac_eq(a, c),
{
    assert(a.0 * c.1 == c.0 * a.1) by (nonlinear_arith)
        requires
            a.0 * b.1 == b.0 * a.1,
            b.0 * c.1 == c.0 * b.1,
            b.1 >= 1,
    ;
}

/// Replacing either summand by an equivalent fraction leaves the sum
/// equivalent.
#[verifier::rlimit(100)]
pub proof fn lemma_frac_add_congruent(a1: (int, int), a2: (int, int), b1: (int, int), b2: (
    int,
    int,
))
    requires
        a1.1 >= 1,
        a2.1 >= 1,
        b1.1 >= 1,
        b2.1 >= 1,
        frac_eq(a1, a2),
        frac_eq(b1, b2),
    ensures
        frac_eq(frac_add(a1, b1), frac_add(a2, b2)),
{
    let m1 = frac_add(a1, b1);
    let m2 = frac_add(a2, b1);
    let m3 = frac_add(a2, b2);
    assert(m1.1 >= 1 && m2.1 >= 1 && m3.1 >= 1) by (nonlinear_arith)
        requires
            a1.1 >= 1,
            a2.1 >= 1,
            b1.1 >= 1,
            b2.1 >= 1,
            m1.1 == a1.1 * b1.1,
            m2.1 == a2.1 * b1.1,
            m3.1 == a2.1 * b2.1,
    ;
    assert(m1.0 == a1.0 * b1.1 + b1.0 * a1.1 && m1.1 == a1.1 * b1.1 && m2.0 == a2.0 * b1.1 + b1.0
        * a2.1 && m2.1 == a2.1 * b1.1);
    assert(m1.0 * m2.1 == m2.0 * m1.1) by (nonlinear_arith)
        requires
            m1.0 == a1.0 * b1.1 + b1.0 * a1.1,
            m1.1 == a1.1 * b1.1,
            m2.0 == a2.0 * b1.1 + b1.0 * a2.1,
            m2.1 == a2.1 * b1.1,
            a1.0 * a2.1 == a2.0 * a1.1,
    ;
    let m2r = frac_add(b1, a2);
    let m3r = frac_add(b2, a2);
    assert(m2 == m2r && m3 == m3r) by (nonlinear_arith)
        requires
            m2 == frac_add(a2, b1),
            m3 == frac_add(a2, b2),
            m2r == frac_add(b1, a2),
            m3r == frac_add(b2, a2),
    ;
    assert(m2r.0 == b1.0 * a2.1 + a2.0 * b1.1 && m2r.1 == b1.1 * a2.1 && m3r.0 == b2.0 * a2.1
        + a2.0 * b2.1 && m3r.1 == b2.1 * a2.1);
    assert(m2r.0 * m3r.1 == m3r.0 * m2r.1) by (nonlinear_arith)
        requires
            m2r.0 == b1.0 * a2.1 + a2.0 * b1.1,
            m2r.1 == b1.1 * a2.1,
            m3r.0 == b2.0 * a2.1 + a2.0 * b2.1,
            m3r.1 == b2.1 * a2.1,
            b1.0 * b2.1 == b2.0 * b1.1,
    ;
    lemma_frac_eq_trans(m1, m2, m3);
}


} // verus!
