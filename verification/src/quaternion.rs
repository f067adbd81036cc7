//! Quaternions over exact rational scalars: the orientation
//! representation of the camera, composed by multiplication and lowered
//! to a rotation matrix for the GPU.

use vstd::prelude::*;

use crate::mat::Mat4;
use crate::rat::{frac_eq, frac_of, spec_add, spec_mul, spec_sub, Rat};
use crate::rat::{lemma_frac_eq_trans, lemma_pack_value};

verus! {

/// A quaternion `w + xi + yj + zk` of rational components.
#[derive(Clone, Copy, Debug, PartialEq, Eq, Structural)]
pub struct Quaternion {
    pub w: Rat,
    pub x: Rat,
    pub y: Rat,
    pub z: Rat,
}

/// A four-term checked combination `((a # b) # c) # d` where each `#` is
/// an addition or a subtraction chosen by the flags.
pub open spec fn spec_comb4(a: Rat, b: Rat, add1: bool, c: Rat, add2: bool, d: Rat, add3: bool) -> Option<Rat> {
    match (if add1 {
        spec_add(a, b)
    } else {
        spec_sub(a, b)
    }) {
        Some(s1) => match (if add2 {
            spec_add(s1, c)
        } else {
            spec_sub(s1, c)
        }) {
            Some(s2) => if add3 {
                spec_add(s2, d)
            } else {
                spec_sub(s2, d)
            },
            Option::None => Option::None,
        },
        Option::None => Option::None,
    }
}

/// One component of the Hamilton product: the four pairwise products
/// combined with the component's signs.
pub open spec fn spec_qmul_part(
    a1: Rat,
    a2: Rat,
    b1: Rat,
    b2: Rat,
    add1: bool,
    c1: Rat,
    c2: Rat,
    add2: bool,
    d1: Rat,
    d2: Rat,
    add3: bool,
) -> Option<Rat> {
    match (spec_mul(a1, a2), spec_mul(b1, b2), spec_mul(c1, c2), spec_mul(d1, d2)) {
        (Some(p0), Some(p1), Some(p2), Some(p3)) => spec_comb4(p0, p1, add1, p2, add2, p3, add3),
        _ => Option::None,
    }
}

/// The checked Hamilton product of two quaternions.
pub open spec fn spec_qmul(q1: Quaternion, q2: Quaternion) -> Option<Quaternion> {
    match (
        spec_qmul_part(q1.w, q2.w, q1.x, q2.x, false, q1.y, q2.y, false, q1.z, q2.z, false),
        spec_qmul_part(q1.w, q2.x, q1.x, q2.w, true, q1.y, q2.z, true, q1.z, q2.y, false),
        spec_qmul_part(q1.w, q2.y, q1.x, q2.z, false, q1.y, q2.w, true, q1.z, q2.x, true),
        spec_qmul_part(q1.w, q2.z, q1.x, q2.y, true, q1.y, q2.x, false, q1.z, q2.w, true),
    ) {
        (Some(w), Some(x), Some(y), Some(z)) => Some(Quaternion { w, x, y, z }),
        _ => Option::None,
    }
}

impl Quaternion {
    /// All components have positive denominators.
    pub open spec fn wf(self) -> bool {
        self.w.wf() && self.x.wf() && self.y.wf() && self.z.wf()
    }

    /// The identity rotation: `1 + 0i + 0j + 0k`.
    pub open spec fn spec_identity() -> Quaternion {
        Quaternion {
            w: Rat { n: 1, d: 1 },
            x: Rat { n: 0, d: 1 },
            y: Rat { n: 0, d: 1 },
            z: Rat { n: 0, d: 1 },
        }
    }

    /// Builds a quaternion from four scalars.
    pub fn new(w: Rat, x: Rat, y: Rat, z: Rat) -> (q: Quaternion)
        ensures
            q == (Quaternion { w, x, y, z }),
    {
        Quaternion { w, x, y, z }
    }

    /// A four-term checked combination with sign flags.
    fn comb4(a: Rat, b: Rat, add1: bool, c: Rat, add2: bool, d: Rat, add3: bool) -> (r: Option<
        Rat,
    >)
        requires
            a.wf(),
            b.wf(),
            c.wf(),
            d.wf(),
        ensures
            r == spec_comb4(a, b, add1, c, add2, d, add3),
            r matches Some(v) ==> v.wf(),
    {
        let s1 = match (if add1 {
            a.checked_add(b)
        } else {
            a.checked_sub(b)
        }) {
            Some(v) => v,
            Option::None => {
                return Option::None;
            },
        };
        let s2 = match (if add2 {
            s1.checked_add(c)
        } else {
            s1.checked_sub(c)
        }) {
            Some(v) => v,
            Option::None => {
                return Option::None;
            },
        };
        if add3 {
            s2.checked_add(d)
        } else {
            s2.checked_sub(d)
        }
    }

    /// One component of the Hamilton product.
    fn qmul_part(
        a1: Rat,
        a2: Rat,
        b1: Rat,
        b2: Rat,
        add1: bool,
        c1: Rat,
        c2: Rat,
        add2: bool,
        d1: Rat,
        d2: Rat,
        add3: bool,
    ) -> (r: Option<Rat>)
        requires
            a1.wf(),
            a2.wf(),
            b1.wf(),
            b2.wf(),
            c1.wf(),
            c2.wf(),
            d1.wf(),
            d2.wf(),
        ensures
            r == spec_qmul_part(a1, a2, b1, b2, add1, c1, c2, add2, d1, d2, add3),
            r matches Some(v) ==> v.wf(),
    {
        let p0 = match a1.checked_mul(a2) {
            Some(v) => v,
            Option::None => {
                return Option::None;
            },
        };
        let p1 = match b1.checked_mul(b2) {
            Some(v) => v,
            Option::None => {
                return Option::None;
            },
        };
        let p2 = match c1.checked_mul(c2) {
            Some(v) => v,
            Option::None => {
                return Option::None;
            },
        };
        let p3 = match d1.checked_mul(d2) {
            Some(v) => v,
            Option::None => {
                return Option::None;
            },
        };
        Self::comb4(p0, p1, add1, p2, add2, p3, add3)
    }

    /// The checked Hamilton product `self * other`: composes the two
    /// rotations, `other` applied first.
    pub fn mul(self, other: Quaternion) -> (r: Option<Quaternion>)
        requires
            self.wf(),
            other.wf(),
        ensures
            r == spec_qmul(self, other),
            r matches Some(q) ==> q.wf(),
    {
        let w = match Self::qmul_part(
            self.w,
            other.w,
            self.x,
            other.x,
            false,
            self.y,
            other.y,
            false,
            self.z,
            other.z,
            false,
        ) {
            Some(v) => v,
            Option::None => {
                return Option::None;
            },
        };
        let x = match Self::qmul_part(
            self.w,
            other.x,
            self.x,
            other.w,
            true,
            self.y,
            other.z,
            true,
            self.z,
            other.y,
            false,
        ) {
            Some(v) => v,
            Option::None => {
                return Option::None;
            },
        };
        let y = match Self::qmul_part(
            self.w,
            other.y,
            self.x,
            other.z,
            false,
            self.y,
            other.w,
            true,
            self.z,
            other.x,
            true,
        ) {
            Some(v) => v,
            Option::None => {
                return Option::None;
            },
        };
        let z = match Self::qmul_part(
            self.w,
            other.z,
            self.x,
            other.y,
            true,
            self.y,
            other.x,
            false,
            self.z,
            other.w,
            true,
        ) {
            Some(v) => v,
            Option::None => {
                return Option::None;
            },
        };
        Some(Quaternion { w, x, y, z })
    }

    /// The conjugate of a quaternion: the imaginary components negated.
    pub open spec fn spec_conjugate(self) -> Option<Quaternion> {
        match (
            crate::rat::spec_neg(self.x),
            crate::rat::spec_neg(self.y),
            crate::rat::spec_neg(self.z),
        ) {
            (Some(x), Some(y), Some(z)) => Some(Quaternion { w: self.w, x, y, z }),
            _ => Option::None,
        }
    }

    /// The conjugate: the inverse rotation of a unit quaternion.
    pub fn conjugate(self) -> (r: Option<Quaternion>)
        requires
            self.wf(),
        ensures
            r == self.spec_conjugate(),
            r matches Some(q) ==> q.wf(),
    {
        let x = match self.x.checked_neg() {
            Some(v) => v,
            Option::None => {
                return Option::None;
            },
        };
        let y = match self.y.checked_neg() {
            Some(v) => v,
            Option::None => {
                return Option::None;
            },
        };
        let z = match self.z.checked_neg() {
            Some(v) => v,
            Option::None => {
                return Option::None;
            },
        };
        Some(Quaternion { w: self.w, x, y, z })
    }
}

/// A diagonal entry of the rotation matrix: `1 - 2 * (a^2 + b^2)`.
pub open spec fn spec_diag_part(a: Rat, b: Rat) -> Option<Rat> {
    match (spec_mul(a, a), spec_mul(b, b)) {
        (Some(aa), Some(bb)) => match spec_add(aa, bb) {
            Some(s) => match spec_mul(Rat { n: 2, d: 1 }, s) {
                Some(t) => spec_sub(Rat { n: 1, d: 1 }, t),
                Option::None => Option::None,
            },
            Option::None => Option::None,
        },
        _ => Option::None,
    }
}

/// An off-diagonal entry of the rotation matrix:
/// `2 * (p1 * p2 + q1 * q2)` or `2 * (p1 * p2 - q1 * q2)`.
pub open spec fn spec_off_part(p1: Rat, p2: Rat, q1: Rat, q2: Rat, plus: bool) -> Option<Rat> {
    match (spec_mul(p1, p2), spec_mul(q1, q2)) {
        (Some(p), Some(q)) => match (if plus {
            spec_add(p, q)
        } else {
            spec_sub(p, q)
        }) {
            Some(d) => spec_mul(Rat { n: 2, d: 1 }, d),
            Option::None => Option::None,
        },
        _ => Option::None,
    }
}

/// Entry `(i, j)` of the rotation matrix of a quaternion, in the usual
/// quadratic form over its components; the last row and column are those
/// of the identity.
pub open spec fn spec_rot_entry(q: Quaternion, i: int, j: int) -> Option<Rat> {
    if i == 0 && j == 0 {
        spec_diag_part(q.y, q.z)
    } else if i == 0 && j == 1 {
        spec_off_part(q.x, q.y, q.z, q.w, false)
    } else if i == 0 && j == 2 {
        spec_off_part(q.x, q.z, q.y, q.w, true)
    } else if i == 1 && j == 0 {
        spec_off_part(q.x, q.y, q.z, q.w, true)
    } else if i == 1 && j == 1 {
        spec_diag_part(q.x, q.z)
    } else if i == 1 && j == 2 {
        spec_off_part(q.y, q.z, q.x, q.w, false)
    } else if i == 2 && j == 0 {
        spec_off_part(q.x, q.z, q.y, q.w, false)
    } else if i == 2 && j == 1 {
        spec_off_part(q.y, q.z, q.x, q.w, true)
    } else if i == 2 && j == 2 {
        spec_diag_part(q.x, q.y)
    } else if i == 3 && j == 3 {
        Some(Rat { n: 1, d: 1 })
    } else {
        Some(Rat { n: 0, d: 1 })
    }
}

impl Quaternion {
    /// A diagonal entry of the rotation matrix.
    fn diag_part(a: Rat, b: Rat) -> (r: Option<Rat>)
        requires
            a.wf(),
            b.wf(),
        ensures
            r == spec_diag_part(a, b),
            r matches Some(v) ==> v.wf(),
    {
        let aa = match a.checked_mul(a) {
            Some(v) => v,
            Option::None => {
                return Option::None;
            },
        };
        let bb = match b.checked_mul(b) {
            Some(v) => v,
            Option::None => {
                return Option::None;
            },
        };
        let s = match aa.checked_add(bb) {
            Some(v) => v,
            Option::None => {
                return Option::None;
            },
        };
        let t = match Rat::from_int(2).checked_mul(s) {
            Some(v) => v,
            Option::None => {
                return Option::None;
            },
        };
        Rat::one().checked_sub(t)
    }

    /// An off-diagonal entry of the rotation matrix.
    fn off_part(p1: Rat, p2: Rat, q1: Rat, q2: Rat, plus: bool) -> (r: Option<Rat>)
        requires
            p1.wf(),
            p2.wf(),
            q1.wf(),
            q2.wf(),
        ensures
            r == spec_off_part(p1, p2, q1, q2, plus),
            r matches Some(v) ==> v.wf(),
    {
        let p = match p1.checked_mul(p2) {
            Some(v) => v,
            Option::None => {
                return Option::None;
            },
        };
        let q = match q1.checked_mul(q2) {
            Some(v) => v,
            Option::None => {
                return Option::None;
            },
        };
        let d = match (if plus {
            p.checked_add(q)
        } else {
            p.checked_sub(q)
        }) {
            Some(v) => v,
            Option::None => {
                return Option::None;
            },
        };
        Rat::from_int(2).checked_mul(d)
    }

    /// The rotation matrix of this quaternion: `None` exactly when some
    /// entry's computation no longer fits the scalar representation.
    pub fn rotation_matrix(&self) -> (r: Option<Mat4>)
        requires
            self.wf(),
        ensures
            r is Some <==> forall|i: int, j: int|
                0 <= i < 4 && 0 <= j < 4 ==> (#[trigger] spec_rot_entry(*self, i, j)) is Some,
            r matches Some(m) ==> m.wf() && forall|i: int, j: int|
                0 <= i < 4 && 0 <= j < 4 ==> Some(#[trigger] m.idx(i, j)) == spec_rot_entry(
                    *self,
                    i,
                    j,
                ),
    {
        let e00 = match Self::diag_part(self.y, self.z) {
            Some(v) => v,
            Option::None => {
                proof {
                    assert(spec_rot_entry(*self, 0, 0) is None);
                }
                return Option::None;
            },
        };
        let e01 = match Self::off_part(self.x, self.y, self.z, self.w, false) {
            Some(v) => v,
            Option::None => {
                proof {
                    assert(spec_rot_entry(*self, 0, 1) is None);
                }
                return Option::None;
            },
        };
        let e02 = match Self::off_part(self.x, self.z, self.y, self.w, true) {
            Some(v) => v,
            Option::None => {
                proof {
                    assert(spec_rot_entry(*self, 0, 2) is None);
                }
                return Option::None;
            },
        };
        let e10 = match Self::off_part(self.x, self.y, self.z, self.w, true) {
            Some(v) => v,
            Option::None => {
                proof {
                    assert(spec_rot_entry(*self, 1, 0) is None);
                }
                return Option::None;
            },
        };
        let e11 = match Self::diag_part(self.x, self.z) {
            Some(v) => v,
            Option::None => {
                proof {
                    assert(spec_rot_entry(*self, 1, 1) is None);
                }
                return Option::None;
            },
        };
        let e12 = match Self::off_part(self.y, self.z, self.x, self.w, false) {
            Some(v) => v,
            Option::None => {
                proof {
                    assert(spec_rot_entry(*self, 1, 2) is None);
                }
                return Option::None;
            },
        };
        let e20 = match Self::off_part(self.x, self.z, self.y, self.w, false) {
            Some(v) => v,
            Option::None => {
                proof {
                    assert(spec_rot_entry(*self, 2, 0) is None);
                }
                return Option::None;
            },
        };
        let e21 = match Self::off_part(self.y, self.z, self.x, self.w, true) {
            Some(v) => v,
            Option::None => {
                proof {
                    assert(spec_rot_entry(*self, 2, 1) is None);
                }
                return Option::None;
            },
        };
        let e22 = match Self::diag_part(self.x, self.y) {
            Some(v) => v,
            Option::None => {
                proof {
                    assert(spec_rot_entry(*self, 2, 2) is None);
                }
                return Option::None;
            },
        };
        let z = Rat::zero();
        let o = Rat::one();
        let m = Mat4::from_rows(
            [e00, e01, e02, z, e10, e11, e12, z, e20, e21, e22, z, z, z, z, o],
        );
        proof {
            assert forall|i: int, j: int| 0 <= i < 4 && 0 <= j < 4 implies Some(
                #[trigger] m.idx(i, j),
            ) == spec_rot_entry(*self, i, j) by {
                assert(0 <= 4 * i + j < 16);
            }
        }
        Some(m)
    }
}

impl Default for Quaternion {
    /// The identity rotation.
    fn default() -> (q: Quaternion)
        ensures
            q == Quaternion::spec_identity(),
    {
        Quaternion {
            w: Rat::one(),
            x: Rat::zero(),
            y: Rat::zero(),
            z: Rat::zero(),
        }
    }
}

/// One component of a quaternion built from Euler half angles: the two
/// triple products of sines and cosines, added or subtracted.
pub open spec fn spec_euler_part(
    a1: Rat,
    a2: Rat,
    a3: Rat,
    b1: Rat,
    b2: Rat,
    b3: Rat,
    plus: bool,
) -> Option<Rat> {
    match spec_mul(a1, a2) {
        Some(a12) => match spec_mul(a12, a3) {
            Some(a) => match spec_mul(b1, b2) {
                Some(b12) => match spec_mul(b12, b3) {
                    Some(b) => if plus {
                        spec_add(a, b)
                    } else {
                        spec_sub(a, b)
                    },
                    Option::None => Option::None,
                },
                Option::None => Option::None,
            },
            Option::None => Option::None,
        },
        Option::None => Option::None,
    }
}

/// The quaternion of a rotation given by Euler angles, entered through
/// the sines and cosines of the half angles (pitch, roll, yaw).
pub open spec fn spec_from_euler(sp: Rat, cp: Rat, sr: Rat, cr: Rat, sy: Rat, cy: Rat) -> Option<
    Quaternion,
> {
    match (
        spec_euler_part(cr, cp, cy, sr, sp, sy, true),
        spec_euler_part(sr, cp, cy, cr, sp, sy, false),
        spec_euler_part(cr, sp, cy, sr, cp, sy, true),
        spec_euler_part(cr, cp, sy, sr, sp, cy, false),
    ) {
        (Some(w), Some(x), Some(y), Some(z)) => Some(Quaternion { w, x, y, z }),
        _ => Option::None,
    }
}

impl Quaternion {
    /// One component of the Euler construction.
    fn euler_part(a1: Rat, a2: Rat, a3: Rat, b1: Rat, b2: Rat, b3: Rat, plus: bool) -> (r: Option<
        Rat,
    >)
        requires
            a1.wf(),
            a2.wf(),
            a3.wf(),
            b1.wf(),
            b2.wf(),
            b3.wf(),
        ensures
            r == spec_euler_part(a1, a2, a3, b1, b2, b3, plus),
            r matches Some(v) ==> v.wf(),
    {
        let a12 = match a1.checked_mul(a2) {
            Some(v) => v,
            Option::None => {
                return Option::None;
            },
        };
        let a = match a12.checked_mul(a3) {
            Some(v) => v,
            Option::None => {
                return Option::None;
            },
        };
        let b12 = match b1.checked_mul(b2) {
            Some(v) => v,
            Option::None => {
                return Option::None;
            },
        };
        let b = match b12.checked_mul(b3) {
            Some(v) => v,
            Option::None => {
                return Option::None;
            },
        };
        if plus {
            a.checked_add(b)
        } else {
            a.checked_sub(b)
        }
    }

    /// Builds the quaternion of a rotation from the sines and cosines of
    /// the Euler half angles (pitch, roll, yaw); the caller evaluates the
    /// trigonometry.
    pub fn from_half_angle_sin_cos(sp: Rat, cp: Rat, sr: Rat, cr: Rat, sy: Rat, cy: Rat) -> (r:
        Option<Quaternion>)
        requires
            sp.wf(),
            cp.wf(),
            sr.wf(),
            cr.wf(),
            sy.wf(),
            cy.wf(),
        ensures
            r == spec_from_euler(sp, cp, sr, cr, sy, cy),
            r matches Some(q) ==> q.wf(),
    {
        let w = match Self::euler_part(cr, cp, cy, sr, sp, sy, true) {
            Some(v) => v,
            Option::None => {
                return Option::None;
            },
        };
        let x = match Self::euler_part(sr, cp, cy, cr, sp, sy, false) {
            Some(v) => v,
            Option::None => {
                return Option::None;
            },
        };
        let y = match Self::euler_part(cr, sp, cy, sr, cp, sy, true) {
            Some(v) => v,
            Option::None => {
                return Option::None;
            },
        };
        let z = match Self::euler_part(cr, cp, sy, sr, sp, cy, false) {
            Some(v) => v,
            Option::None => {
                return Option::None;
            },
        };
        Some(Quaternion { w, x, y, z })
    }
}

/// The zero rotation built from Euler angles is exactly the identity
/// quaternion: all half-angle sines zero, all cosines one.
pub proof fn lemma_from_euler_zero()
    ensures
        spec_from_euler(
            Rat { n: 0, d: 1 },
            Rat { n: 1, d: 1 },
            Rat { n: 0, d: 1 },
            Rat { n: 1, d: 1 },
            Rat { n: 0, d: 1 },
            Rat { n: 1, d: 1 },
        ) == Some(Quaternion::spec_identity()),
{
}

/// Adding or subtracting a zero-valued fraction leaves a fraction
/// equivalent to itself.
proof fn lemma_comb_zero(a: (int, int), b: (int, int))
    requires
        a.1 >= 1,
        b.1 >= 1,
        b.0 == 0,
    ensures
        frac_eq(crate::rat::frac_add(a, b), a),
        frac_eq(crate::rat::frac_sub(a, b), a),
{
    assert((a.0 * b.1 + b.0 * a.1) * a.1 == a.0 * (a.1 * b.1) && (a.0 * b.1 - b.0 * a.1) * a.1
        == a.0 * (a.1 * b.1)) by (nonlinear_arith)
        requires
            b.0 == 0,
    ;
}

/// Multiplying by one leaves a fraction equivalent to itself, and
/// multiplying by a zero-valued fraction yields zero.
proof fn lemma_mul_unit_zero(c: Rat)
    requires
        c.wf(),
    ensures
        spec_mul(Rat { n: 1, d: 1 }, c) matches Some(v) && v.wf() && frac_eq(
            frac_of(v),
            frac_of(c),
        ),
        spec_mul(Rat { n: 0, d: 1 }, c) == Some(Rat { n: 0, d: 1 }),
{
    let one = Rat { n: 1, d: 1 };
    let f = crate::rat::frac_mul(frac_of(one), frac_of(c));
    assert(f.0 == c.n && f.1 == c.d) by (nonlinear_arith)
        requires
            f.0 == 1 * c.n,
            f.1 == 1 * c.d,
    ;
    lemma_pack_value(f);
    let zero = Rat { n: 0, d: 1 };
    let g = crate::rat::frac_mul(frac_of(zero), frac_of(c));
    assert(g.0 == 0) by (nonlinear_arith)
        requires
            g.0 == 0 * c.n,
    ;
}

/// Composition with the identity orientation changes nothing: for every
/// quaternion `q`, the product `identity * q` is defined and each of its
/// components names the same rational as the corresponding component of
/// `q`.
pub proof fn lemma_identity_mul(q: Quaternion)
    requires
        q.wf(),
    ensures
        spec_qmul(Quaternion::spec_identity(), q) matches Some(r) ==> r.wf() && frac_eq(
            frac_of(r.w),
            frac_of(q.w),
        ) && frac_eq(frac_of(r.x), frac_of(q.x)) && frac_eq(frac_of(r.y), frac_of(q.y)) && frac_eq(
            frac_of(r.z),
            frac_of(q.z),
        ),
        spec_qmul(Quaternion::spec_identity(), q) is Some,
{
    let id = Quaternion::spec_identity();
    lemma_qmul_part_identity(q.w, q.x, false, q.y, false, q.z, false);
    lemma_qmul_part_identity(q.x, q.w, true, q.z, true, q.y, false);
    lemma_qmul_part_identity(q.y, q.z, false, q.w, true, q.x, true);
    lemma_qmul_part_identity(q.z, q.y, true, q.x, false, q.w, true);
}

/// A Hamilton-product component against the identity: the first product
/// carries `main` through, the other three vanish, so the combination is
/// defined and equivalent to `main`.
proof fn lemma_qmul_part_identity(main: Rat, o1: Rat, add1: bool, o2: Rat, add2: bool, o3: Rat, add3: bool)
    requires
        main.wf(),
        o1.wf(),
        o2.wf(),
        o3.wf(),
    ensures
        spec_qmul_part(
            Rat { n: 1, d: 1 },
            main,
            Rat { n: 0, d: 1 },
            o1,
            add1,
            Rat { n: 0, d: 1 },
            o2,
            add2,
            Rat { n: 0, d: 1 },
            o3,
            add3,
        ) matches Some(v) && v.wf() && frac_eq(frac_of(v), frac_of(main)),
{
    let one = Rat { n: 1, d: 1 };
    let zero = Rat { n: 0, d: 1 };
    lemma_mul_unit_zero(main);
    lemma_mul_unit_zero(o1);
    lemma_mul_unit_zero(o2);
    lemma_mul_unit_zero(o3);
    let p0 = spec_mul(one, main)->Some_0;
    // Each combination step keeps the running value equivalent to p0,
    // whose value is that of main.
    let f0 = frac_of(p0);
    let s1 = if add1 {
        spec_add(p0, zero)
    } else {
        spec_sub(p0, zero)
    };
    lemma_comb_zero(f0, frac_of(zero));
    lemma_pack_value(crate::rat::frac_add(f0, frac_of(zero)));
    lemma_pack_value(crate::rat::frac_sub(f0, frac_of(zero)));
    assert(s1 is Some);
    let v1 = s1->Some_0;
    lemma_frac_eq_trans(
        frac_of(v1),
        if add1 {
            crate::rat::frac_add(f0, frac_of(zero))
        } else {
            crate::rat::frac_sub(f0, frac_of(zero))
        },
        f0,
    );
    let f1 = frac_of(v1);
    let s2 = if add2 {
        spec_add(v1, zero)
    } else {
        spec_sub(v1, zero)
    };
    lemma_comb_zero(f1, frac_of(zero));
    lemma_pack_value(crate::rat::frac_add(f1, frac_of(zero)));
    lemma_pack_value(crate::rat::frac_sub(f1, frac_of(zero)));
    assert(s2 is Some);
    let v2 = s2->Some_0;
    lemma_frac_eq_trans(
        frac_of(v2),
        if add2 {
            crate::rat::frac_add(f1, frac_of(zero))
        } else {
            crate::rat::frac_sub(f1, frac_of(zero))
        },
        f1,
    );
    let f2 = frac_of(v2);
    let s3 = if add3 {
        spec_add(v2, zero)
    } else {
        spec_sub(v2, zero)
    };
    lemma_comb_zero(f2, frac_of(zero));
    lemma_pack_value(crate::rat::frac_add(f2, frac_of(zero)));
    lemma_pack_value(crate::rat::frac_sub(f2, frac_of(zero)));
    assert(s3 is Some);
    let v3 = s3->Some_0;
    lemma_frac_eq_trans(
        frac_of(v3),
        if add3 {
            crate::rat::frac_add(f2, frac_of(zero))
        } else {
            crate::rat::frac_sub(f2, frac_of(zero))
        },
        f2,
    );
    // Chain back to main.
    lemma_frac_eq_trans(frac_of(v2), f1, f0);
    lemma_frac_eq_trans(frac_of(v3), f2, f0);
    lemma_frac_eq_trans(frac_of(v3), f0, frac_of(main));
}

} // verus!
