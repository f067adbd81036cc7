//! Three- and four-component vectors over exact rational scalars, and
//! the matrix-vector product used to project points.

use vstd::prelude::*;

use crate::mat::Mat4;
use crate::rat::{spec_add, spec_mul, spec_sub, Rat};

verus! {

/// A three-component vector of rationals.
#[derive(Clone, Copy, Debug, PartialEq, Eq, Structural)]
pub struct Vec3 {
    pub x: Rat,
    pub y: Rat,
    pub z: Rat,
}

/// A four-component homogeneous vector of rationals.
#[derive(Clone, Copy, Debug, PartialEq, Eq, Structural)]
pub struct Vec4 {
    pub x: Rat,
    pub y: Rat,
    pub z: Rat,
    pub w: Rat,
}

/// The checked component-wise sum of two vectors.
pub open spec fn spec_vadd(a: Vec3, b: Vec3) -> Option<Vec3> {
    match (spec_add(a.x, b.x), spec_add(a.y, b.y), spec_add(a.z, b.z)) {
        (Some(x), Some(y), Some(z)) => Some(Vec3 { x, y, z }),
        _ => Option::None,
    }
}

/// The checked component-wise difference of two vectors.
pub open spec fn spec_vsub(a: Vec3, b: Vec3) -> Option<Vec3> {
    match (spec_sub(a.x, b.x), spec_sub(a.y, b.y), spec_sub(a.z, b.z)) {
        (Some(x), Some(y), Some(z)) => Some(Vec3 { x, y, z }),
        _ => Option::None,
    }
}

/// The checked scaling of a vector by a scalar.
pub open spec fn spec_vscale(a: Vec3, k: Rat) -> Option<Vec3> {
    match (spec_mul(a.x, k), spec_mul(a.y, k), spec_mul(a.z, k)) {
        (Some(x), Some(y), Some(z)) => Some(Vec3 { x, y, z }),
        _ => Option::None,
    }
}

/// The checked dot product, the three products summed left to right.
pub open spec fn spec_vdot(a: Vec3, b: Vec3) -> Option<Rat> {
    match (spec_mul(a.x, b.x), spec_mul(a.y, b.y), spec_mul(a.z, b.z)) {
        (Some(px), Some(py), Some(pz)) => match spec_add(px, py) {
            Some(s) => spec_add(s, pz),
            Option::None => Option::None,
        },
        _ => Option::None,
    }
}

/// One component of the checked cross product: `p - q` over two products.
pub open spec fn spec_cross_part(p1: Rat, p2: Rat, q1: Rat, q2: Rat) -> Option<Rat> {
    match (spec_mul(p1, p2), spec_mul(q1, q2)) {
        (Some(p), Some(q)) => spec_sub(p, q),
        _ => Option::None,
    }
}

/// The checked cross product of two vectors.
pub open spec fn spec_vcross(a: Vec3, b: Vec3) -> Option<Vec3> {
    match (
        spec_cross_part(a.y, b.z, a.z, b.y),
        spec_cross_part(a.z, b.x, a.x, b.z),
        spec_cross_part(a.x, b.y, a.y, b.x),
    ) {
        (Some(x), Some(y), Some(z)) => Some(Vec3 { x, y, z }),
        _ => Option::None,
    }
}

impl Vec3 {
    /// All components have positive denominators.
    pub open spec fn wf(self) -> bool {
        self.x.wf() && self.y.wf() && self.z.wf()
    }

    /// The zero vector.
    pub fn zero() -> (v: Vec3)
        ensures
            v == (Vec3 { x: Rat { n: 0, d: 1 }, y: Rat { n: 0, d: 1 }, z: Rat { n: 0, d: 1 } }),
    {
        Vec3 { x: Rat::zero(), y: Rat::zero(), z: Rat::zero() }
    }

    /// Builds a vector from three scalars.
    pub fn new(x: Rat, y: Rat, z: Rat) -> (v: Vec3)
        ensures
            v == (Vec3 { x, y, z }),
    {
        Vec3 { x, y, z }
    }

    /// Checked component-wise addition.
    pub fn add(self, other: Vec3) -> (r: Option<Vec3>)
        requires
            self.wf(),
            other.wf(),
        ensures
            r == spec_vadd(self, other),
            r matches Some(v) ==> v.wf(),
    {
        let x = match self.x.checked_add(other.x) {
            Some(v) => v,
            Option::None => {
                return Option::None;
            },
        };
        let y = match self.y.checked_add(other.y) {
            Some(v) => v,
            Option::None => {
                return Option::None;
            },
        };
        let z = match self.z.checked_add(other.z) {
            Some(v) => v,
            Option::None => {
                return Option::None;
            },
        };
        Some(Vec3 { x, y, z })
    }

    /// Checked component-wise subtraction.
    pub fn sub(self, other: Vec3) -> (r: Option<Vec3>)
        requires
            self.wf(),
            other.wf(),
        ensures
            r == spec_vsub(self, other),
            r matches Some(v) ==> v.wf(),
    {
        let x = match self.x.checked_sub(other.x) {
            Some(v) => v,
            Option::None => {
                return Option::None;
            },
        };
        let y = match self.y.checked_sub(other.y) {
            Some(v) => v,
            Option::None => {
                return Option::None;
            },
        };
        let z = match self.z.checked_sub(other.z) {
            Some(v) => v,
            Option::None => {
                return Option::None;
            },
        };
        Some(Vec3 { x, y, z })
    }

    /// Checked scaling by a scalar.
    pub fn mult(self, k: Rat) -> (r: Option<Vec3>)
        requires
            self.wf(),
            k.wf(),
        ensures
            r == spec_vscale(self, k),
            r matches Some(v) ==> v.wf(),
    {
        let x = match self.x.checked_mul(k) {
            Some(v) => v,
            Option::None => {
                return Option::None;
            },
        };
        let y = match self.y.checked_mul(k) {
            Some(v) => v,
            Option::None => {
                return Option::None;
            },
        };
        let z = match self.z.checked_mul(k) {
            Some(v) => v,
            Option::None => {
                return Option::None;
            },
        };
        Some(Vec3 { x, y, z })
    }

    /// Checked dot product.
    pub fn dot(self, other: Vec3) -> (r: Option<Rat>)
        requires
            self.wf(),
            other.wf(),
        ensures
            r == spec_vdot(self, other),
            r matches Some(v) ==> v.wf(),
    {
        let px = match self.x.checked_mul(other.x) {
            Some(v) => v,
            Option::None => {
                return Option::None;
            },
        };
        let py = match self.y.checked_mul(other.y) {
            Some(v) => v,
            Option::None => {
                return Option::None;
            },
        };
        let pz = match self.z.checked_mul(other.z) {
            Some(v) => v,
            Option::None => {
                return Option::None;
            },
        };
        let s = match px.checked_add(py) {
            Some(v) => v,
            Option::None => {
                return Option::None;
            },
        };
        s.checked_add(pz)
    }

    /// The checked squared length: the vector dotted with itself.
    pub fn len2(self) -> (r: Option<Rat>)
        requires
            self.wf(),
        ensures
            r == spec_vdot(self, self),
            r matches Some(v) ==> v.wf(),
    {
        self.dot(self)
    }

    /// Checked cross product.
    pub fn cross(self, other: Vec3) -> (r: Option<Vec3>)
        requires
            self.wf(),
            other.wf(),
        ensures
            r == spec_vcross(self, other),
            r matches Some(v) ==> v.wf(),
    {
        let x = match Self::cross_part(self.y, other.z, self.z, other.y) {
            Some(v) => v,
            Option::None => {
                return Option::None;
            },
        };
        let y = match Self::cross_part(self.z, other.x, self.x, other.z) {
            Some(v) => v,
            Option::None => {
                return Option::None;
            },
        };
        let z = match Self::cross_part(self.x, other.y, self.y, other.x) {
            Some(v) => v,
            Option::None => {
                return Option::None;
            },
        };
        Some(Vec3 { x, y, z })
    }

    /// One cross-product component, `p1 * p2 - q1 * q2`.
    fn cross_part(p1: Rat, p2: Rat, q1: Rat, q2: Rat) -> (r: Option<Rat>)
        requires
            p1.wf(),
            p2.wf(),
            q1.wf(),
            q2.wf(),
        ensures
            r == spec_cross_part(p1, p2, q1, q2),
            r matches Some(v) ==> v.wf(),
    {
        let p = match p1.checked_mul(p2) {
            Some(v) => v,
            Option::None => {
                return Option::None;
            },
        };
        let q = match q1.checked_mul(q2) {
            Some(v) => v,
            Option::None => {
                return Option::None;
            },
        };
        p.checked_sub(q)
    }
}

impl Vec4 {
    /// All components have positive denominators.
    pub open spec fn wf(self) -> bool {
        self.x.wf() && self.y.wf() && self.z.wf() && self.w.wf()
    }

    /// Builds a homogeneous vector from four scalars.
    pub fn new(x: Rat, y: Rat, z: Rat, w: Rat) -> (v: Vec4)
        ensures
            v == (Vec4 { x, y, z, w }),
    {
        Vec4 { x, y, z, w }
    }
}

/// The checked dot product of matrix row `i` with a homogeneous vector.
pub open spec fn spec_row_dot(m: Mat4, v: Vec4, i: int) -> Option<Rat> {
    match (
        spec_mul(m.idx(i, 0), v.x),
        spec_mul(m.idx(i, 1), v.y),
        spec_mul(m.idx(i, 2), v.z),
        spec_mul(m.idx(i, 3), v.w),
    ) {
        (Some(t0), Some(t1), Some(t2), Some(t3)) => match spec_add(t0, t1) {
            Some(s1) => match spec_add(s1, t2) {
                Some(s2) => spec_add(s2, t3),
                Option::None => Option::None,
            },
            Option::None => Option::None,
        },
        _ => Option::None,
    }
}

/// The checked matrix-vector product.
pub open spec fn spec_mat_vec(m: Mat4, v: Vec4) -> Option<Vec4> {
    match (
        spec_row_dot(m, v, 0),
        spec_row_dot(m, v, 1),
        spec_row_dot(m, v, 2),
        spec_row_dot(m, v, 3),
    ) {
        (Some(x), Some(y), Some(z), Some(w)) => Some(Vec4 { x, y, z, w }),
        _ => Option::None,
    }
}

impl Mat4 {
    /// The checked dot product of row `i` with a homogeneous vector.
    fn row_dot(&self, v: Vec4, i: usize) -> (r: Option<Rat>)
        requires
            self.wf(),
            v.wf(),
            i < 4,
        ensures
            r == spec_row_dot(*self, v, i as int),
            r matches Some(u) ==> u.wf(),
    {
        let t0 = match self.get(i, 0).checked_mul(v.x) {
            Some(u) => u,
            Option::None => {
                return Option::None;
            },
        };
        let t1 = match self.get(i, 1).checked_mul(v.y) {
            Some(u) => u,
            Option::None => {
                return Option::None;
            },
        };
        let t2 = match self.get(i, 2).checked_mul(v.z) {
            Some(u) => u,
            Option::None => {
                return Option::None;
            },
        };
        let t3 = match self.get(i, 3).checked_mul(v.w) {
            Some(u) => u,
            Option::None => {
                return Option::None;
            },
        };
        let s1 = match t0.checked_add(t1) {
            Some(u) => u,
            Option::None => {
                return Option::None;
            },
        };
        let s2 = match s1.checked_add(t2) {
            Some(u) => u,
            Option::None => {
                return Option::None;
            },
        };
        s2.checked_add(t3)
    }

    /// Checked matrix-vector multiplication: applies the matrix to a
    /// homogeneous point.
    pub fn mult_vec(&self, v: Vec4) -> (r: Option<Vec4>)
        requires
            self.wf(),
            v.wf(),
        ensures
            r == spec_mat_vec(*self, v),
            r matches Some(u) ==> u.wf(),
    {
        let x = match self.row_dot(v, 0) {
            Some(u) => u,
            Option::None => {
                return Option::None;
            },
        };
        let y = match self.row_dot(v, 1) {
            Some(u) => u,
            Option::None => {
                return Option::None;
            },
        };
        let z = match self.row_dot(v, 2) {
            Some(u) => u,
            Option::None => {
                return Option::None;
            },
        };
        let w = match self.row_dot(v, 3) {
            Some(u) => u,
            Option::None => {
                return Option::None;
            },
        };
        Some(Vec4 { x, y, z, w })
    }
}

} // verus!
