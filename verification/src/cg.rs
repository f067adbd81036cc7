//! Projection and translation transforms: the perspective frustum and
//! the translation matrix, with the depth-mapping laws of the projection.
//!
//! Convention, fixed for the whole system: matrices multiply column
//! vectors from the left, the projection maps eye-space depth `z` in
//! `[near, far]` to clip depth `z'/w'` in `[0, 1]`, and a composed
//! transform is `projection * view * model`.

use vstd::prelude::*;

use crate::mat::Mat4;
use crate::rat::{frac_of, spec_div, spec_mul, spec_neg, spec_sub, Rat};
use crate::vec::Vec3;

verus! {

/// Entry `(i, j)` of the translation matrix by `v`: the identity with
/// the vector in the last column.
pub open spec fn spec_trans_entry(v: Vec3, i: int, j: int) -> Rat {
    if j == 3 && i == 0 {
        v.x
    } else if j == 3 && i == 1 {
        v.y
    } else if j == 3 && i == 2 {
        v.z
    } else if i == j {
        Rat { n: 1, d: 1 }
    } else {
        Rat { n: 0, d: 1 }
    }
}

impl Vec3 {
    /// The translation matrix by this vector.
    pub fn translation_matrix(self) -> (m: Mat4)
        requires
            self.wf(),
        ensures
            m.wf(),
            forall|i: int, j: int|
                0 <= i < 4 && 0 <= j < 4 ==> #[trigger] m.idx(i, j) == spec_trans_entry(
                    self,
                    i,
                    j,
                ),
    {
        let o = Rat::one();
        let z = Rat::zero();
        let m = Mat4::from_rows(
            [o, z, z, self.x, z, o, z, self.y, z, z, o, self.z, z, z, z, o],
        );
        proof {
            assert forall|i: int, j: int| 0 <= i < 4 && 0 <= j < 4 implies #[trigger] m.idx(i, j)
                == spec_trans_entry(self, i, j) by {
                assert(0 <= 4 * i + j < 16);
            }
        }
        m
    }
}

/// A perspective viewing volume. The field of view enters through the
/// tangent of its half angle, which the caller evaluates; a right angle
/// has tangent one exactly.
#[derive(Clone, Copy, Debug, PartialEq, Eq, Structural)]
pub struct PerspectiveFrustum {
    pub near: Rat,
    pub far: Rat,
    pub tan_half_fov: Rat,
    pub ar: Rat,
}

impl PerspectiveFrustum {
    /// All scalars are well-formed, the planes and the tangent and the
    /// aspect ratio are positive, and the near plane is nearer.
    pub open spec fn wf(self) -> bool {
        &&& self.near.wf()
        &&& self.far.wf()
        &&& self.tan_half_fov.wf()
        &&& self.ar.wf()
        &&& self.near.n >= 1
        &&& self.far.n >= 1
        &&& self.tan_half_fov.n >= 1
        &&& self.ar.n >= 1
        &&& frac_of(self.near).0 * frac_of(self.far).1 < frac_of(self.far).0 * frac_of(
            self.near,
        ).1
    }
}

/// Entry `(i, j)` of the perspective projection matrix:
/// `1 / (tan * aspect)` and `1 / tan` scale x and y, row two maps depth
/// by `far / (far - near)` and `-near * far / (far - near)`, and row
/// three moves the eye-space depth into `w`.
pub open spec fn spec_proj_entry(f: PerspectiveFrustum, i: int, j: int) -> Option<Rat> {
    if i == 0 && j == 0 {
        match spec_mul(f.tan_half_fov, f.ar) {
            Some(ta) => spec_div(Rat { n: 1, d: 1 }, ta),
            Option::None => Option::None,
        }
    } else if i == 1 && j == 1 {
        spec_div(Rat { n: 1, d: 1 }, f.tan_half_fov)
    } else if i == 2 && j == 2 {
        match spec_sub(f.far, f.near) {
            Some(den) => spec_div(f.far, den),
            Option::None => Option::None,
        }
    } else if i == 2 && j == 3 {
        match (spec_mul(f.near, f.far), spec_sub(f.far, f.near)) {
            (Some(nf), Some(den)) => match spec_neg(nf) {
                Some(nn) => spec_div(nn, den),
                Option::None => Option::None,
            },
            _ => Option::None,
        }
    } else if i == 3 && j == 2 {
        Some(Rat { n: 1, d: 1 })
    } else {
        Some(Rat { n: 0, d: 1 })
    }
}

/// A positive times a positive is positive: the packed product of two
/// scalars with positive values has a positive numerator.
proof fn lemma_mul_positive(a: Rat, b: Rat)
    requires
        a.wf(),
        b.wf(),
        a.n >= 1,
        b.n >= 1,
        spec_mul(a, b) is Some,
    ensures
        spec_mul(a, b) matches Some(v) ==> v.wf() && v.n >= 1,
{
    let f = crate::rat::frac_mul(frac_of(a), frac_of(b));
    assert(f.0 >= 1 && f.1 >= 1) by (nonlinear_arith)
        requires
            f.0 == (a.n as int) * (b.n as int),
            f.1 == (a.d as int) * (b.d as int),
            a.n >= 1,
            b.n >= 1,
            a.d >= 1,
            b.d >= 1,
    ;
    let v = spec_mul(a, b)->Some_0;
    assert(crate::rat::fits_i64(f.0) && f.1 <= i64::MAX);
    assert(v == (Rat { n: f.0 as i64, d: f.1 as i64 }));
}

/// The packed difference `far - near` of a valid frustum has a positive
/// numerator.
proof fn lemma_sub_positive(far: Rat, near: Rat)
    requires
        far.wf(),
        near.wf(),
        frac_of(near).0 * frac_of(far).1 < frac_of(far).0 * frac_of(near).1,
        spec_sub(far, near) is Some,
    ensures
        spec_sub(far, near) matches Some(v) ==> v.wf() && v.n >= 1,
{
    let f = crate::rat::frac_sub(frac_of(far), frac_of(near));
    assert(f.0 >= 1);
    assert(f.1 >= 1) by (nonlinear_arith)
        requires
            f.1 == (far.d as int) * (near.d as int),
            far.d >= 1,
            near.d >= 1,
    ;
    let v = spec_sub(far, near)->Some_0;
    assert(crate::rat::fits_i64(f.0) && f.1 <= i64::MAX);
    assert(v == (Rat { n: f.0 as i64, d: f.1 as i64 }));
}

impl PerspectiveFrustum {
    /// The perspective projection matrix; `None` exactly when some
    /// entry's computation no longer fits the scalar representation.
    pub fn projection_matrix(&self) -> (r: Option<Mat4>)
        requires
            self.wf(),
        ensures
            r is Some <==> forall|i: int, j: int|
                0 <= i < 4 && 0 <= j < 4 ==> (#[trigger] spec_proj_entry(*self, i, j)) is Some,
            r matches Some(m) ==> m.wf() && forall|i: int, j: int|
                0 <= i < 4 && 0 <= j < 4 ==> Some(#[trigger] m.idx(i, j)) == spec_proj_entry(
                    *self,
                    i,
                    j,
                ),
    {
        let one = Rat::one();
        let z = Rat::zero();
        let e00 = match self.tan_half_fov.checked_mul(self.ar) {
            Some(ta) => {
                proof {
                    lemma_mul_positive(self.tan_half_fov, self.ar);
                }
                match one.checked_div(ta) {
                    Some(v) => v,
                    Option::None => {
                        proof {
                            assert(spec_proj_entry(*self, 0, 0) is None);
                        }
                        return Option::None;
                    },
                }
            },
            Option::None => {
                proof {
                    assert(spec_proj_entry(*self, 0, 0) is None);
                }
                return Option::None;
            },
        };
        let e11 = match one.checked_div(self.tan_half_fov) {
            Some(v) => v,
            Option::None => {
                proof {
                    assert(spec_proj_entry(*self, 1, 1) is None);
                }
                return Option::None;
            },
        };
        let den = match self.far.checked_sub(self.near) {
            Some(v) => v,
            Option::None => {
                proof {
                    assert(spec_proj_entry(*self, 2, 2) is None);
                }
                return Option::None;
            },
        };
        proof {
            lemma_sub_positive(self.far, self.near);
        }
        let e22 = match self.far.checked_div(den) {
            Some(v) => v,
            Option::None => {
                proof {
                    assert(spec_proj_entry(*self, 2, 2) is None);
                }
                return Option::None;
            },
        };
        let e23 = match self.near.checked_mul(self.far) {
            Some(nf) => match nf.checked_neg() {
                Some(nn) => match nn.checked_div(den) {
                    Some(v) => v,
                    Option::None => {
                        proof {
                            assert(spec_proj_entry(*self, 2, 3) is None);
                        }
                        return Option::None;
                    },
                },
                Option::None => {
                    proof {
                        assert(spec_proj_entry(*self, 2, 3) is None);
                    }
                    return Option::None;
                },
            },
            Option::None => {
                proof {
                    assert(spec_proj_entry(*self, 2, 3) is None);
                }
                return Option::None;
            },
        };
        let m = Mat4::from_rows(
            [e00, z, z, z, z, e11, z, z, z, z, e22, e23, z, z, one, z],
        );
        proof {
            assert forall|i: int, j: int| 0 <= i < 4 && 0 <= j < 4 implies Some(
                #[trigger] m.idx(i, j),
            ) == spec_proj_entry(*self, i, j) by {
                assert(0 <= 4 * i + j < 16);
            }
        }
        Some(m)
    }
}

/// The aspect ratio of a surface extent, width over height, exact.
pub fn aspect_ratio(width: u32, height: u32) -> (r: Rat)
    requires
        width >= 1,
        height >= 1,
    ensures
        r == (Rat { n: width as i64, d: height as i64 }),
{
    Rat::new(width as i64, height as i64)
}

impl PerspectiveFrustum {
    /// Replaces the field-of-view tangent, as zooming recomputes it.
    pub fn set_tan_half_fov(&mut self, t: Rat)
        requires
            old(self).wf(),
            t.wf(),
            t.n >= 1,
        ensures
            final(self).wf(),
            *final(self) == (PerspectiveFrustum { tan_half_fov: t, ..*old(self) }),
    {
        self.tan_half_fov = t;
    }

    /// Replaces the aspect ratio, as a resize recomputes it.
    pub fn set_aspect_ratio(&mut self, ar: Rat)
        requires
            old(self).wf(),
            ar.wf(),
            ar.n >= 1,
        ensures
            final(self).wf(),
            *final(self) == (PerspectiveFrustum { ar, ..*old(self) }),
    {
        self.ar = ar;
    }
}

/// The clip-space depth the projection assigns to an eye-space point at
/// depth `z`, for integer near and far planes: the `z'/w'` quotient of
/// the projected point, `far * (z - near)` over `(far - near) * z`,
/// with `z` an arbitrary rational given as a fraction.
pub open spec fn spec_clip_depth(near: int, far: int, z: (int, int)) -> (int, int) {
    (far * (z.0 - near * z.1), (far - near) * z.0)
}

/// The clip depth of every eye-space point between the planes lies in
/// `[0, 1]`: zero at the near plane, one at the far plane.
pub proof fn lemma_clip_depth_range(near: int, far: int, z: (int, int))
    requires
        0 < near < far,
        z.1 >= 1,
        near * z.1 <= z.0,
        z.0 <= far * z.1,
    ensures
        spec_clip_depth(near, far, z).1 >= 1,
        0 <= spec_clip_depth(near, far, z).0,
        spec_clip_depth(near, far, z).0 <= spec_clip_depth(near, far, z).1,
{
    let d = spec_clip_depth(near, far, z);
    assert(z.0 >= 1) by (nonlinear_arith)
        requires
            near * z.1 <= z.0,
            near >= 1,
            z.1 >= 1,
    ;
    assert(d.1 >= 1) by (nonlinear_arith)
        requires
            d.1 == (far - near) * z.0,
            far - near >= 1,
            z.0 >= 1,
    ;
    assert(d.0 >= 0) by (nonlinear_arith)
        requires
            d.0 == far * (z.0 - near * z.1),
            far >= 1,
            z.0 >= near * z.1,
    ;
    assert(d.0 <= d.1) by (nonlinear_arith)
        requires
            d.0 == far * (z.0 - near * z.1),
            d.1 == (far - near) * z.0,
            z.0 <= far * z.1,
            0 < near < far,
            z.1 >= 1,
            z.0 >= 1,
    ;
}

/// The clip depth grows strictly with eye-space depth: points farther
/// from the camera land deeper in the depth range.
pub proof fn lemma_clip_depth_monotonic(near: int, far: int, z1: (int, int), z2: (int, int))
    requires
        0 < near < far,
        z1.1 >= 1,
        z2.1 >= 1,
        near * z1.1 <= z1.0,
        near * z2.1 <= z2.0,
        z1.0 * z2.1 < z2.0 * z1.1,
    ensures
        spec_clip_depth(near, far, z1).0 * spec_clip_depth(near, far, z2).1 < spec_clip_depth(
            near,
            far,
            z2,
        ).0 * spec_clip_depth(near, far, z1).1,
{
    let d1 = spec_clip_depth(near, far, z1);
    let d2 = spec_clip_depth(near, far, z2);
    assert(z1.0 >= 1 && z2.0 >= 1) by (nonlinear_arith)
        requires
            near * z1.1 <= z1.0,
            near * z2.1 <= z2.0,
            near >= 1,
            z1.1 >= 1,
            z2.1 >= 1,
    ;
    assert(d1.0 * d2.1 < d2.0 * d1.1) by (nonlinear_arith)
        requires
            d1.0 == far * (z1.0 - near * z1.1),
            d1.1 == (far - near) * z1.0,
            d2.0 == far * (z2.0 - near * z2.1),
            d2.1 == (far - near) * z2.0,
            0 < near < far,
            z1.0 * z2.1 < z2.0 * z1.1,
            z1.0 >= 1,
            z2.0 >= 1,
            z1.1 >= 1,
            z2.1 >= 1,
    ;
}

} // verus!
