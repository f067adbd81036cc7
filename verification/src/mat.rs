//! 4x4 matrices over exact rational scalars.
//!
//! Entries are stored flat, row major. Arithmetic is checked: an
//! operation returns `None` exactly when some entry's result no longer
//! fits the scalar representation, and otherwise every entry is pinned
//! down by the scalar specs of `rat`.

use vstd::prelude::*;

use crate::rat::{frac_add, frac_eq, frac_mul, frac_of, spec_add, spec_mul, Rat};
use crate::rat::{lemma_frac_add_congruent, lemma_frac_eq_trans, lemma_pack_value};

verus! {

/// A 4x4 matrix of rationals, row major: entry `(i, j)` at `4 * i + j`.
#[derive(Clone, Debug, PartialEq, Eq)]
pub struct Mat4 {
    pub e: Vec<Rat>,
}

impl Mat4 {
    /// Sixteen entries, each with a positive denominator.
    pub open spec fn wf(self) -> bool {
        self.e.len() == 16 && forall|k: int| 0 <= k < 16 ==> (#[trigger] self.e[k]).wf()
    }

    /// Entry `(i, j)`.
    pub open spec fn idx(self, i: int, j: int) -> Rat {
        self.e[4 * i + j]
    }

    /// Reads entry `(i, j)`.
    pub fn get(&self, i: usize, j: usize) -> (r: Rat)
        requires
            self.wf(),
            i < 4,
            j < 4,
        ensures
            r == self.idx(i as int, j as int),
    {
        self.e[4 * i + j]
    }

    /// Builds a matrix from sixteen row-major entries.
    pub fn from_rows(rows: [Rat; 16]) -> (m: Mat4)
        requires
            forall|k: int| 0 <= k < 16 ==> (#[trigger] rows[k]).wf(),
        ensures
            m.wf(),
            forall|i: int, j: int| 0 <= i < 4 && 0 <= j < 4 ==> m.idx(i, j) == rows[4 * i + j],
    {
        let mut e: Vec<Rat> = Vec::new();
        for k in 0..16usize
            invariant
                e@.len() == k,
                forall|m: int| 0 <= m < k ==> e@[m] == rows[m],
                forall|m: int| 0 <= m < 16 ==> (#[trigger] rows[m]).wf(),
        {
            e.push(rows[k]);
        }
        Mat4 { e }
    }

    /// The matrix with `v` in every entry.
    pub fn fill(v: Rat) -> (m: Mat4)
        requires
            v.wf(),
        ensures
            m.wf(),
            forall|i: int, j: int| 0 <= i < 4 && 0 <= j < 4 ==> m.idx(i, j) == v,
    {
        let mut e: Vec<Rat> = Vec::new();
        for k in 0..16usize
            invariant
                e@.len() == k,
                forall|m: int| 0 <= m < k ==> e@[m] == v,
                v.wf(),
        {
            e.push(v);
        }
        Mat4 { e }
    }

    /// The zero matrix.
    pub fn zero() -> (m: Mat4)
        ensures
            m.wf(),
            forall|i: int, j: int|
                0 <= i < 4 && 0 <= j < 4 ==> m.idx(i, j) == (Rat { n: 0, d: 1 }),
    {
        Self::fill(Rat::zero())
    }

    /// The identity matrix.
    pub fn ident() -> (m: Mat4)
        ensures
            m.wf(),
            forall|i: int, j: int|
                0 <= i < 4 && 0 <= j < 4 ==> m.idx(i, j) == (if i == j {
                    Rat { n: 1, d: 1 }
                } else {
                    Rat { n: 0, d: 1 }
                }),
    {
        let o = Rat::one();
        let z = Rat::zero();
        let m = Self::from_rows(
            [o, z, z, z, z, o, z, z, z, z, o, z, z, z, z, o],
        );
        proof {
            assert forall|i: int, j: int| 0 <= i < 4 && 0 <= j < 4 implies m.idx(i, j) == (if i
                == j {
                Rat { n: 1, d: 1 }
            } else {
                Rat { n: 0, d: 1 }
            }) by {
                assert(0 <= 4 * i + j < 16);
            }
        }
        m
    }

    /// The transpose: entry `(i, j)` becomes entry `(j, i)`.
    pub fn trans(&self) -> (m: Mat4)
        requires
            self.wf(),
        ensures
            m.wf(),
            forall|i: int, j: int|
                0 <= i < 4 && 0 <= j < 4 ==> m.idx(i, j) == self.idx(j, i),
    {
        let mut e: Vec<Rat> = Vec::new();
        for i in 0..4usize
            invariant
                self.wf(),
                e@.len() == 4 * i,
                forall|i2: int, j2: int|
                    0 <= i2 < i && 0 <= j2 < 4 ==> e@[4 * i2 + j2] == self.idx(j2, i2),
        {
            for j in 0..4usize
                invariant
                    self.wf(),
                    i < 4,
                    e@.len() == 4 * i + j,
                    forall|i2: int, j2: int|
                        0 <= i2 < i && 0 <= j2 < 4 ==> e@[4 * i2 + j2] == self.idx(j2, i2),
                    forall|j2: int| 0 <= j2 < j ==> e@[4 * i + j2] == self.idx(j2, i as int),
            {
                e.push(self.get(j, i));
            }
        }
        let m = Mat4 { e };
        proof {
            assert forall|i: int, j: int| 0 <= i < 4 && 0 <= j < 4 implies m.idx(i, j) == self.idx(
                j,
                i,
            ) by {
                assert(m.e[4 * i + j] == self.idx(j, i));
            }
            assert forall|k: int| 0 <= k < 16 implies (#[trigger] m.e[k]).wf() by {
                let i = k / 4;
                let j = k % 4;
                assert(k == 4 * i + j);
                assert(m.e[4 * i + j] == self.idx(j, i));
                assert(self.e[4 * j + i].wf());
            }
        }
        m
    }

    /// Checked entry-wise addition; `None` exactly when some entry's sum
    /// no longer fits.
    pub fn add(&self, other: &Mat4) -> (r: Option<Mat4>)
        requires
            self.wf(),
            other.wf(),
        ensures
            r is Some <==> forall|k: int|
                0 <= k < 16 ==> (#[trigger] spec_add(self.e[k], other.e[k])) is Some,
            r matches Some(m) ==> m.wf() && forall|i: int, j: int|
                0 <= i < 4 && 0 <= j < 4 ==> Some(#[trigger] m.idx(i, j)) == spec_add(
                    self.idx(i, j),
                    other.idx(i, j),
                ),
    {
        let mut e: Vec<Rat> = Vec::new();
        for k in 0..16usize
            invariant
                self.wf(),
                other.wf(),
                e@.len() == k,
                forall|m: int|
                    0 <= m < k ==> Some(e@[m]) == #[trigger] spec_add(self.e[m], other.e[m]),
                forall|m: int| 0 <= m < k ==> (#[trigger] e@[m]).wf(),
        {
            match self.e[k].checked_add(other.e[k]) {
                Some(v) => e.push(v),
                Option::None => {
                    return Option::None;
                },
            }
        }
        let m = Mat4 { e };
        proof {
            assert forall|i: int, j: int| 0 <= i < 4 && 0 <= j < 4 implies Some(
                #[trigger] m.idx(i, j),
            ) == spec_add(self.idx(i, j), other.idx(i, j)) by {
                assert(0 <= 4 * i + j < 16);
            }
        }
        Some(m)
    }

    /// Checked entry-wise subtraction; `None` exactly when some entry's
    /// difference no longer fits.
    pub fn sub(&self, other: &Mat4) -> (r: Option<Mat4>)
        requires
            self.wf(),
            other.wf(),
        ensures
            r is Some <==> forall|k: int|
                0 <= k < 16 ==> (#[trigger] crate::rat::spec_sub(self.e[k], other.e[k])) is Some,
            r matches Some(m) ==> m.wf() && forall|i: int, j: int|
                0 <= i < 4 && 0 <= j < 4 ==> Some(#[trigger] m.idx(i, j)) == crate::rat::spec_sub(
                    self.idx(i, j),
                    other.idx(i, j),
                ),
    {
        let mut e: Vec<Rat> = Vec::new();
        for k in 0..16usize
            invariant
                self.wf(),
                other.wf(),
                e@.len() == k,
                forall|m: int|
                    0 <= m < k ==> Some(e@[m]) == #[trigger] crate::rat::spec_sub(
                        self.e[m],
                        other.e[m],
                    ),
                forall|m: int| 0 <= m < k ==> (#[trigger] e@[m]).wf(),
        {
            match self.e[k].checked_sub(other.e[k]) {
                Some(v) => e.push(v),
                Option::None => {
                    return Option::None;
                },
            }
        }
        let m = Mat4 { e };
        proof {
            assert forall|i: int, j: int| 0 <= i < 4 && 0 <= j < 4 implies Some(
                #[trigger] m.idx(i, j),
            ) == crate::rat::spec_sub(self.idx(i, j), other.idx(i, j)) by {
                assert(0 <= 4 * i + j < 16);
            }
        }
        Some(m)
    }

    /// Checked scalar multiplication; `None` exactly when some entry's
    /// product no longer fits.
    pub fn scale(&self, k: Rat) -> (r: Option<Mat4>)
        requires
            self.wf(),
            k.wf(),
        ensures
            r is Some <==> forall|m: int| 0 <= m < 16 ==> (#[trigger] spec_mul(self.e[m], k)) is Some,
            r matches Some(o) ==> o.wf() && forall|i: int, j: int|
                0 <= i < 4 && 0 <= j < 4 ==> Some(#[trigger] o.idx(i, j)) == spec_mul(
                    self.idx(i, j),
                    k,
                ),
    {
        let mut e: Vec<Rat> = Vec::new();
        for m in 0..16usize
            invariant
                self.wf(),
                k.wf(),
                e@.len() == m,
                forall|p: int| 0 <= p < m ==> Some(e@[p]) == #[trigger] spec_mul(self.e[p], k),
                forall|p: int| 0 <= p < m ==> (#[trigger] e@[p]).wf(),
        {
            match self.e[m].checked_mul(k) {
                Some(v) => e.push(v),
                Option::None => {
                    return Option::None;
                },
            }
        }
        let o = Mat4 { e };
        proof {
            assert forall|i: int, j: int| 0 <= i < 4 && 0 <= j < 4 implies Some(
                #[trigger] o.idx(i, j),
            ) == spec_mul(self.idx(i, j), k) by {
                assert(0 <= 4 * i + j < 16);
            }
        }
        Some(o)
    }
}

/// The checked dot product of row `i` of `a` with column `j` of `b`, the
/// four products summed left to right.
pub open spec fn spec_dot(a: Mat4, b: Mat4, i: int, j: int) -> Option<Rat> {
    match spec_mul(a.idx(i, 0), b.idx(0, j)) {
        Some(t0) => match spec_mul(a.idx(i, 1), b.idx(1, j)) {
            Some(t1) => match spec_add(t0, t1) {
                Some(s1) => match spec_mul(a.idx(i, 2), b.idx(2, j)) {
                    Some(t2) => match spec_add(s1, t2) {
                        Some(s2) => match spec_mul(a.idx(i, 3), b.idx(3, j)) {
                            Some(t3) => spec_add(s2, t3),
                            Option::None => Option::None,
                        },
                        Option::None => Option::None,
                    },
                    Option::None => Option::None,
                },
                Option::None => Option::None,
            },
            Option::None => Option::None,
        },
        Option::None => Option::None,
    }
}

/// The exact rational value of the dot product of row `i` of `a` with
/// column `j` of `b`, as an unbounded fraction.
pub open spec fn spec_dot_frac(a: Mat4, b: Mat4, i: int, j: int) -> (int, int) {
    let p0 = frac_mul(frac_of(a.idx(i, 0)), frac_of(b.idx(0, j)));
    let p1 = frac_mul(frac_of(a.idx(i, 1)), frac_of(b.idx(1, j)));
    let p2 = frac_mul(frac_of(a.idx(i, 2)), frac_of(b.idx(2, j)));
    let p3 = frac_mul(frac_of(a.idx(i, 3)), frac_of(b.idx(3, j)));
    frac_add(frac_add(frac_add(p0, p1), p2), p3)
}

/// When the checked dot product succeeds, its value is exactly the
/// mathematical dot product of the row and column.
pub proof fn lemma_dot_value(a: Mat4, b: Mat4, i: int, j: int)
    requires
        a.wf(),
        b.wf(),
        0 <= i < 4,
        0 <= j < 4,
        spec_dot(a, b, i, j) is Some,
    ensures
        spec_dot(a, b, i, j) matches Some(v) ==> v.wf() && frac_eq(
            frac_of(v),
            spec_dot_frac(a, b, i, j),
        ),
{
    assert(0 <= 4 * i + j < 16);
    assert(0 <= 4 * i + 0 < 16 && 0 <= 4 * i + 1 < 16 && 0 <= 4 * i + 2 < 16 && 0 <= 4 * i + 3
        < 16);
    assert(0 <= 4 * 0 + j < 16 && 0 <= 4 * 1 + j < 16 && 0 <= 4 * 2 + j < 16 && 0 <= 4 * 3 + j
        < 16);
    let fa0 = frac_of(a.idx(i, 0));
    let fb0 = frac_of(b.idx(0, j));
    let fa1 = frac_of(a.idx(i, 1));
    let fb1 = frac_of(b.idx(1, j));
    let fa2 = frac_of(a.idx(i, 2));
    let fb2 = frac_of(b.idx(2, j));
    let fa3 = frac_of(a.idx(i, 3));
    let fb3 = frac_of(b.idx(3, j));
    let p0 = frac_mul(fa0, fb0);
    let p1 = frac_mul(fa1, fb1);
    let p2 = frac_mul(fa2, fb2);
    let p3 = frac_mul(fa3, fb3);
    let t0 = spec_mul(a.idx(i, 0), b.idx(0, j))->Some_0;
    let t1 = spec_mul(a.idx(i, 1), b.idx(1, j))->Some_0;
    let t2 = spec_mul(a.idx(i, 2), b.idx(2, j))->Some_0;
    let t3 = spec_mul(a.idx(i, 3), b.idx(3, j))->Some_0;
    let s1 = spec_add(t0, t1)->Some_0;
    let s2 = spec_add(s1, t2)->Some_0;
    let v = spec_dot(a, b, i, j)->Some_0;
    assert(p0.1 >= 1 && p1.1 >= 1 && p2.1 >= 1 && p3.1 >= 1) by (nonlinear_arith)
        requires
            p0.1 == fa0.1 * fb0.1,
            p1.1 == fa1.1 * fb1.1,
            p2.1 == fa2.1 * fb2.1,
            p3.1 == fa3.1 * fb3.1,
            fa0.1 >= 1,
            fb0.1 >= 1,
            fa1.1 >= 1,
            fb1.1 >= 1,
            fa2.1 >= 1,
            fb2.1 >= 1,
            fa3.1 >= 1,
            fb3.1 >= 1,
    ;
    assert(frac_add(p0, p1).1 >= 1 && frac_add(frac_add(p0, p1), p2).1 >= 1 && frac_add(
        frac_add(frac_add(p0, p1), p2),
        p3,
    ).1 >= 1) by (nonlinear_arith)
        requires
            p0.1 >= 1,
            p1.1 >= 1,
            p2.1 >= 1,
            p3.1 >= 1,
            frac_add(p0, p1).1 == p0.1 * p1.1,
            frac_add(frac_add(p0, p1), p2).1 == (p0.1 * p1.1) * p2.1,
            frac_add(frac_add(frac_add(p0, p1), p2), p3).1 == ((p0.1 * p1.1) * p2.1) * p3.1,
    ;
    // Each product fits or the chain would have stopped; its value is the
    // exact product.
    lemma_pack_value(p0);
    lemma_pack_value(p1);
    lemma_pack_value(p2);
    lemma_pack_value(p3);
    // t0 ~ p0, t1 ~ p1, hence s1 ~ p0 + p1.
    assert(frac_add(frac_of(t0), frac_of(t1)).1 >= 1) by (nonlinear_arith)
        requires
            frac_of(t0).1 >= 1,
            frac_of(t1).1 >= 1,
            frac_add(frac_of(t0), frac_of(t1)).1 == frac_of(t0).1 * frac_of(t1).1,
    ;
    lemma_pack_value(frac_add(frac_of(t0), frac_of(t1)));
    lemma_frac_add_congruent(frac_of(t0), p0, frac_of(t1), p1);
    lemma_frac_eq_trans(frac_of(s1), frac_add(frac_of(t0), frac_of(t1)), frac_add(p0, p1));
    // s2 ~ (p0 + p1) + p2.
    assert(frac_add(frac_of(s1), frac_of(t2)).1 >= 1) by (nonlinear_arith)
        requires
            frac_of(s1).1 >= 1,
            frac_of(t2).1 >= 1,
            frac_add(frac_of(s1), frac_of(t2)).1 == frac_of(s1).1 * frac_of(t2).1,
    ;
    lemma_pack_value(frac_add(frac_of(s1), frac_of(t2)));
    lemma_frac_add_congruent(frac_of(s1), frac_add(p0, p1), frac_of(t2), p2);
    lemma_frac_eq_trans(
        frac_of(s2),
        frac_add(frac_of(s1), frac_of(t2)),
        frac_add(frac_add(p0, p1), p2),
    );
    // v ~ ((p0 + p1) + p2) + p3.
    assert(frac_add(frac_of(s2), frac_of(t3)).1 >= 1) by (nonlinear_arith)
        requires
            frac_of(s2).1 >= 1,
            frac_of(t3).1 >= 1,
            frac_add(frac_of(s2), frac_of(t3)).1 == frac_of(s2).1 * frac_of(t3).1,
    ;
    lemma_pack_value(frac_add(frac_of(s2), frac_of(t3)));
    lemma_frac_add_congruent(frac_of(s2), frac_add(frac_add(p0, p1), p2), frac_of(t3), p3);
    lemma_frac_eq_trans(
        frac_of(v),
        frac_add(frac_of(s2), frac_of(t3)),
        frac_add(frac_add(frac_add(p0, p1), p2), p3),
    );
}

impl Mat4 {
    /// The checked dot product of row `i` of `self` with column `j` of
    /// `other`.
    fn dot(&self, other: &Mat4, i: usize, j: usize) -> (r: Option<Rat>)
        requires
            self.wf(),
            other.wf(),
            i < 4,
            j < 4,
        ensures
            r == spec_dot(*self, *other, i as int, j as int),
            r matches Some(v) ==> v.wf(),
    {
        let t0 = match self.get(i, 0).checked_mul(other.get(0, j)) {
            Some(v) => v,
            Option::None => {
                return Option::None;
            },
        };
        let t1 = match self.get(i, 1).checked_mul(other.get(1, j)) {
            Some(v) => v,
            Option::None => {
                return Option::None;
            },
        };
        let s1 = match t0.checked_add(t1) {
            Some(v) => v,
            Option::None => {
                return Option::None;
            },
        };
        let t2 = match self.get(i, 2).checked_mul(other.get(2, j)) {
            Some(v) => v,
            Option::None => {
                return Option::None;
            },
        };
        let s2 = match s1.checked_add(t2) {
            Some(v) => v,
            Option::None => {
                return Option::None;
            },
        };
        let t3 = match self.get(i, 3).checked_mul(other.get(3, j)) {
            Some(v) => v,
            Option::None => {
                return Option::None;
            },
        };
        s2.checked_add(t3)
    }

    /// Checked matrix multiplication: entry `(i, j)` of the result is the
    /// dot product of row `i` of `self` with column `j` of `other`;
    /// `None` exactly when some entry's computation no longer fits.
    pub fn mult(&self, other: &Mat4) -> (r: Option<Mat4>)
        requires
            self.wf(),
            other.wf(),
        ensures
            r is Some <==> forall|i: int, j: int|
                0 <= i < 4 && 0 <= j < 4 ==> (#[trigger] spec_dot(*self, *other, i, j)) is Some,
            r matches Some(m) ==> m.wf() && forall|i: int, j: int|
                0 <= i < 4 && 0 <= j < 4 ==> Some(#[trigger] m.idx(i, j)) == spec_dot(
                    *self,
                    *other,
                    i,
                    j,
                ),
    {
        let mut e: Vec<Rat> = Vec::new();
        for i in 0..4usize
            invariant
                self.wf(),
                other.wf(),
                e@.len() == 4 * i,
                forall|i2: int, j2: int|
                    0 <= i2 < i && 0 <= j2 < 4 ==> Some(e@[4 * i2 + j2]) == #[trigger] spec_dot(
                        *self,
                        *other,
                        i2,
                        j2,
                    ),
                forall|m: int| 0 <= m < e@.len() ==> (#[trigger] e@[m]).wf(),
        {
            for j in 0..4usize
                invariant
                    self.wf(),
                    other.wf(),
                    i < 4,
                    e@.len() == 4 * i + j,
                    forall|i2: int, j2: int|
                        0 <= i2 < i && 0 <= j2 < 4 ==> Some(e@[4 * i2 + j2]) == #[trigger] spec_dot(
                            *self,
                            *other,
                            i2,
                            j2,
                        ),
                    forall|j2: int|
                        0 <= j2 < j ==> Some(e@[4 * i + j2]) == #[trigger] spec_dot(
                            *self,
                            *other,
                            i as int,
                            j2,
                        ),
                    forall|m: int| 0 <= m < e@.len() ==> (#[trigger] e@[m]).wf(),
            {
                match self.dot(other, i, j) {
                    Some(v) => e.push(v),
                    Option::None => {
                        return Option::None;
                    },
                }
            }
        }
        let m = Mat4 { e };
        Some(m)
    }
}

} // verus!
