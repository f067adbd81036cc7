//! The viewpoint. Two variants: a camera carrying a unit-quaternion
//! orientation, moved in its own local frame and rotated by incremental
//! quaternions; and a camera tracking a target point, whose orthonormal
//! basis the shell normalizes and hands in as values.
//!
//! Convention, fixed here and stated in every contract: the stored
//! orientation rotates camera-local directions into the world — that is
//! the rotation `local_move` applies to its delta — so the view matrix
//! applies the *inverse* rotation, the conjugate for a unit quaternion,
//! followed by the translation by the mirrored position.

use vstd::prelude::*;

use crate::cg::spec_trans_entry;
use crate::mat::{spec_dot, Mat4};
use crate::quaternion::{spec_qmul, spec_rot_entry, Quaternion};
use crate::rat::Rat;
use crate::vec::{spec_mat_vec, spec_vadd, spec_vcross, spec_vscale, Vec3, Vec4};

verus! {

/// `rm` is the rotation matrix of `q`: every entry is defined and equal
/// to the entry the quaternion prescribes.
pub open spec fn rot_matrix_of(q: Quaternion, rm: Mat4) -> bool {
    rm.wf() && forall|i: int, j: int|
        0 <= i < 4 && 0 <= j < 4 ==> Some(#[trigger] rm.idx(i, j)) == spec_rot_entry(q, i, j)
}

/// `tm` is the translation matrix by `v`.
pub open spec fn trans_matrix_of(v: Vec3, tm: Mat4) -> bool {
    tm.wf() && forall|i: int, j: int|
        0 <= i < 4 && 0 <= j < 4 ==> #[trigger] tm.idx(i, j) == spec_trans_entry(v, i, j)
}

/// `m` is the matrix product `a * b`: every entry is the defined dot
/// product of a row of `a` with a column of `b`.
pub open spec fn mult_of(a: Mat4, b: Mat4, m: Mat4) -> bool {
    m.wf() && forall|i: int, j: int|
        0 <= i < 4 && 0 <= j < 4 ==> Some(#[trigger] m.idx(i, j)) == spec_dot(a, b, i, j)
}

/// `rm` and `tm` are the two factors of the view matrix of camera `c`:
/// the rotation matrix of the *conjugated* orientation — the inverse of
/// the camera's world rotation — and the translation by the mirrored
/// position.
pub open spec fn view_parts_of(c: OrientedCamera, rm: Mat4, tm: Mat4) -> bool {
    (c.orientation.spec_conjugate() matches Some(cq) && rot_matrix_of(cq, rm)) && (spec_vscale(
        c.pos,
        spec_minus_one(),
    ) matches Some(np) && trans_matrix_of(np, tm))
}

/// A camera given by a position and an orientation quaternion; the
/// orientation takes camera-local directions to world directions.
#[derive(Clone, Copy, Debug, PartialEq, Eq, Structural)]
pub struct OrientedCamera {
    pub pos: Vec3,
    pub orientation: Quaternion,
}

/// Minus one, the scalar that mirrors the camera position for the view
/// transform.
pub open spec fn spec_minus_one() -> Rat {
    Rat { n: -1i64, d: 1 }
}

impl OrientedCamera {
    /// Position and orientation are well-formed scalars.
    pub open spec fn wf(self) -> bool {
        self.pos.wf() && self.orientation.wf()
    }

    /// A camera at the origin with the identity orientation.
    pub fn at_origin() -> (c: OrientedCamera)
        ensures
            c.wf(),
            c.pos == (Vec3 {
                x: Rat { n: 0, d: 1 },
                y: Rat { n: 0, d: 1 },
                z: Rat { n: 0, d: 1 },
            }),
            c.orientation == Quaternion::spec_identity(),
    {
        OrientedCamera { pos: Vec3::zero(), orientation: Quaternion::default() }
    }

    /// The view matrix: the inverse of the orientation — its conjugate,
    /// for a unit quaternion — as a rotation matrix, times the
    /// translation by the mirrored position, so that the world moves
    /// inversely to the camera. `None` exactly when a step of the exact
    /// arithmetic no longer fits.
    pub fn view_matrix(&self) -> (r: Option<Mat4>)
        requires
            self.wf(),
        ensures
            r matches Some(m) ==> exists|rm: Mat4, tm: Mat4|
                #[trigger] view_parts_of(*self, rm, tm) && mult_of(rm, tm, m),
            r is None ==> self.orientation.spec_conjugate() is None || (
            self.orientation.spec_conjugate() matches Some(cq) && !(forall|i: int, j: int|
                0 <= i < 4 && 0 <= j < 4 ==> (#[trigger] spec_rot_entry(cq, i, j)) is Some))
                || spec_vscale(self.pos, spec_minus_one()) is None || exists|rm: Mat4, tm: Mat4|
                #[trigger] view_parts_of(*self, rm, tm) && exists|i: int, j: int|
                    0 <= i < 4 && 0 <= j < 4 && (#[trigger] spec_dot(rm, tm, i, j)) is None,
    {
        let inverse = match self.orientation.conjugate() {
            Some(q) => q,
            Option::None => {
                return Option::None;
            },
        };
        let rm = match inverse.rotation_matrix() {
            Some(m) => m,
            Option::None => {
                return Option::None;
            },
        };
        let np = match self.pos.mult(Rat::new(-1, 1)) {
            Some(v) => v,
            Option::None => {
                return Option::None;
            },
        };
        let tm = np.translation_matrix();
        let r = rm.mult(&tm);
        proof {
            if r is Some {
                assert(view_parts_of(*self, rm, tm) && mult_of(rm, tm, r->Some_0));
            } else {
                assert(!(forall|i: int, j: int|
                    0 <= i < 4 && 0 <= j < 4 ==> (#[trigger] spec_dot(rm, tm, i, j)) is Some));
                let (i, j) = choose|i: int, j: int|
                    !(0 <= i < 4 && 0 <= j < 4 ==> (#[trigger] spec_dot(rm, tm, i, j)) is Some);
                assert(view_parts_of(*self, rm, tm) && 0 <= i < 4 && 0 <= j < 4 && spec_dot(
                    rm,
                    tm,
                    i,
                    j,
                ) is None);
            }
        }
        r
    }

    /// Moves the camera by `delta` expressed in its own frame: the delta
    /// is rotated by the current orientation — camera-local to world —
    /// then added to the position. Returns whether the move was applied;
    /// it fails, leaving the camera unchanged, exactly when a step of
    /// the exact arithmetic no longer fits.
    pub fn local_move(&mut self, delta: Vec3) -> (applied: bool)
        requires
            old(self).wf(),
            delta.wf(),
        ensures
            final(self).wf(),
            final(self).orientation == old(self).orientation,
            applied ==> exists|rm: Mat4|
                #[trigger] rot_matrix_of(old(self).orientation, rm) && (spec_mat_vec(
                    rm,
                    Vec4 { x: delta.x, y: delta.y, z: delta.z, w: Rat { n: 1, d: 1 } },
                ) matches Some(u) && spec_vadd(old(self).pos, Vec3 { x: u.x, y: u.y, z: u.z })
                    == Some(final(self).pos)),
            !applied ==> *final(self) == *old(self) && (!(forall|i: int, j: int|
                0 <= i < 4 && 0 <= j < 4 ==> (#[trigger] spec_rot_entry(
                    old(self).orientation,
                    i,
                    j,
                )) is Some) || exists|rm: Mat4|
                #[trigger] rot_matrix_of(old(self).orientation, rm) && (spec_mat_vec(
                    rm,
                    Vec4 { x: delta.x, y: delta.y, z: delta.z, w: Rat { n: 1, d: 1 } },
                ) is None || (spec_mat_vec(
                    rm,
                    Vec4 { x: delta.x, y: delta.y, z: delta.z, w: Rat { n: 1, d: 1 } },
                ) matches Some(u) && spec_vadd(old(self).pos, Vec3 { x: u.x, y: u.y, z: u.z }) is None))),
    {
        let rm = match self.orientation.rotation_matrix() {
            Some(m) => m,
            Option::None => {
                return false;
            },
        };
        let hom = Vec4::new(delta.x, delta.y, delta.z, Rat::one());
        let rotated = match rm.mult_vec(hom) {
            Some(u) => u,
            Option::None => {
                proof {
                    assert(rot_matrix_of(old(self).orientation, rm));
                }
                return false;
            },
        };
        let moved = match self.pos.add(Vec3::new(rotated.x, rotated.y, rotated.z)) {
            Some(p) => p,
            Option::None => {
                proof {
                    assert(rot_matrix_of(old(self).orientation, rm));
                }
                return false;
            },
        };
        self.pos = moved;
        proof {
            assert(rot_matrix_of(old(self).orientation, rm));
        }
        true
    }

    /// Rotates the camera by an incremental rotation, applied after the
    /// current orientation. Returns whether the rotation was applied; on
    /// overflow the camera is unchanged.
    pub fn rotate_by(&mut self, delta: Quaternion) -> (applied: bool)
        requires
            old(self).wf(),
            delta.wf(),
        ensures
            final(self).wf(),
            final(self).pos == old(self).pos,
            applied ==> spec_qmul(delta, old(self).orientation) == Some(final(self).orientation),
            !applied ==> *final(self) == *old(self) && spec_qmul(delta, old(self).orientation) is None,
    {
        match delta.mul(self.orientation) {
            Some(q) => {
                self.orientation = q;
                true
            },
            Option::None => false,
        }
    }
}

/// Entry `(i, j)` of the world-to-eye basis matrix of a tracking camera:
/// the right vector in the first row, the forward vector in the second,
/// the computed up vector in the third, and the identity's last row and
/// column.
pub open spec fn spec_basis_entry(right: Vec3, forward: Vec3, up: Vec3, i: int, j: int) -> Rat {
    if i == 0 && j == 0 {
        right.x
    } else if i == 0 && j == 1 {
        right.y
    } else if i == 0 && j == 2 {
        right.z
    } else if i == 1 && j == 0 {
        forward.x
    } else if i == 1 && j == 1 {
        forward.y
    } else if i == 1 && j == 2 {
        forward.z
    } else if i == 2 && j == 0 {
        up.x
    } else if i == 2 && j == 1 {
        up.y
    } else if i == 2 && j == 2 {
        up.z
    } else if i == 3 && j == 3 {
        Rat { n: 1, d: 1 }
    } else {
        Rat { n: 0, d: 1 }
    }
}

/// `bm` is the basis matrix built from the given right and forward
/// vectors: its third row is their exact cross product.
pub open spec fn basis_matrix_of(right: Vec3, forward: Vec3, bm: Mat4) -> bool {
    bm.wf() && (spec_vcross(right, forward) matches Some(up) && forall|i: int, j: int|
        0 <= i < 4 && 0 <= j < 4 ==> #[trigger] bm.idx(i, j) == spec_basis_entry(
            right,
            forward,
            up,
            i,
            j,
        ))
}

/// `bm` and `tm` are the two factors of the view matrix of tracking
/// camera `c` under the given basis vectors.
pub open spec fn tracking_view_parts_of(
    c: TrackingCamera,
    right: Vec3,
    forward: Vec3,
    bm: Mat4,
    tm: Mat4,
) -> bool {
    basis_matrix_of(right, forward, bm) && (spec_vscale(c.pos, spec_minus_one()) matches Some(np)
        && trans_matrix_of(np, tm))
}

/// A camera looking from its position at a target point. Deriving its
/// basis takes two normalizations — `forward` from `target - pos` and
/// `right` from `forward` crossed with the world up — which are square
/// roots no exact rational holds; the shell normalizes and hands the
/// two unit vectors in, and everything from there on is exact.
#[derive(Clone, Copy, Debug, PartialEq, Eq, Structural)]
pub struct TrackingCamera {
    pub pos: Vec3,
    pub target: Vec3,
}

impl TrackingCamera {
    /// Position and target are well-formed scalars.
    pub open spec fn wf(self) -> bool {
        self.pos.wf() && self.target.wf()
    }

    /// The basis matrix for the given unit right and forward vectors:
    /// right, forward, and their exact cross product as the up row.
    /// `None` exactly when the cross product no longer fits.
    pub fn basis_matrix(right: Vec3, forward: Vec3) -> (r: Option<Mat4>)
        requires
            right.wf(),
            forward.wf(),
        ensures
            r is Some <==> spec_vcross(right, forward) is Some,
            r matches Some(m) ==> basis_matrix_of(right, forward, m),
    {
        let up = match right.cross(forward) {
            Some(v) => v,
            Option::None => {
                return Option::None;
            },
        };
        let z = Rat::zero();
        let o = Rat::one();
        let m = Mat4::from_rows(
            [
                right.x,
                right.y,
                right.z,
                z,
                forward.x,
                forward.y,
                forward.z,
                z,
                up.x,
                up.y,
                up.z,
                z,
                z,
                z,
                z,
                o,
            ],
        );
        proof {
            assert forall|i: int, j: int| 0 <= i < 4 && 0 <= j < 4 implies #[trigger] m.idx(i, j)
                == spec_basis_entry(right, forward, up, i, j) by {
                assert(0 <= 4 * i + j < 16);
            }
        }
        Some(m)
    }

    /// The view matrix under the given basis: the basis matrix times the
    /// translation by the mirrored position. `None` exactly when a step
    /// of the exact arithmetic no longer fits.
    pub fn view_matrix(&self, right: Vec3, forward: Vec3) -> (r: Option<Mat4>)
        requires
            self.wf(),
            right.wf(),
            forward.wf(),
        ensures
            r matches Some(m) ==> exists|bm: Mat4, tm: Mat4|
                #[trigger] tracking_view_parts_of(*self, right, forward, bm, tm) && mult_of(
                    bm,
                    tm,
                    m,
                ),
            r is None ==> spec_vcross(right, forward) is None || spec_vscale(
                self.pos,
                spec_minus_one(),
            ) is None || exists|bm: Mat4, tm: Mat4|
                #[trigger] tracking_view_parts_of(*self, right, forward, bm, tm) && exists|
                    i: int,
                    j: int,
                |
                    0 <= i < 4 && 0 <= j < 4 && (#[trigger] spec_dot(bm, tm, i, j)) is None,
    {
        let bm = match Self::basis_matrix(right, forward) {
            Some(m) => m,
            Option::None => {
                return Option::None;
            },
        };
        let np = match self.pos.mult(Rat::new(-1, 1)) {
            Some(v) => v,
            Option::None => {
                return Option::None;
            },
        };
        let tm = np.translation_matrix();
        let r = bm.mult(&tm);
        proof {
            if r is Some {
                assert(tracking_view_parts_of(*self, right, forward, bm, tm) && mult_of(
                    bm,
                    tm,
                    r->Some_0,
                ));
            } else {
                assert(!(forall|i: int, j: int|
                    0 <= i < 4 && 0 <= j < 4 ==> (#[trigger] spec_dot(bm, tm, i, j)) is Some));
                let (i, j) = choose|i: int, j: int|
                    !(0 <= i < 4 && 0 <= j < 4 ==> (#[trigger] spec_dot(bm, tm, i, j)) is Some);
                assert(tracking_view_parts_of(*self, right, forward, bm, tm) && 0 <= i < 4 && 0
                    <= j < 4 && spec_dot(bm, tm, i, j) is None);
            }
        }
        r
    }

    /// Moves the camera by `delta` expressed in its own frame, under the
    /// given basis: the delta is carried through the basis matrix, then
    /// added to the position; the target stays. Returns whether the move
    /// was applied; it fails, leaving the camera unchanged, exactly when
    /// a step of the exact arithmetic no longer fits.
    pub fn local_move(&mut self, delta: Vec3, right: Vec3, forward: Vec3) -> (applied: bool)
        requires
            old(self).wf(),
            delta.wf(),
            right.wf(),
            forward.wf(),
        ensures
            final(self).wf(),
            final(self).target == old(self).target,
            applied ==> exists|bm: Mat4|
                #[trigger] basis_matrix_of(right, forward, bm) && (spec_mat_vec(
                    bm,
                    Vec4 { x: delta.x, y: delta.y, z: delta.z, w: Rat { n: 1, d: 1 } },
                ) matches Some(u) && spec_vadd(old(self).pos, Vec3 { x: u.x, y: u.y, z: u.z })
                    == Some(final(self).pos)),
            !applied ==> *final(self) == *old(self) && (spec_vcross(right, forward) is None
                || exists|bm: Mat4|
                #[trigger] basis_matrix_of(right, forward, bm) && (spec_mat_vec(
                    bm,
                    Vec4 { x: delta.x, y: delta.y, z: delta.z, w: Rat { n: 1, d: 1 } },
                ) is None || (spec_mat_vec(
                    bm,
                    Vec4 { x: delta.x, y: delta.y, z: delta.z, w: Rat { n: 1, d: 1 } },
                ) matches Some(u) && spec_vadd(old(self).pos, Vec3 { x: u.x, y: u.y, z: u.z }) is None))),
    {
        let bm = match Self::basis_matrix(right, forward) {
            Some(m) => m,
            Option::None => {
                return false;
            },
        };
        let hom = Vec4::new(delta.x, delta.y, delta.z, Rat::one());
        let rotated = match bm.mult_vec(hom) {
            Some(u) => u,
            Option::None => {
                proof {
                    assert(basis_matrix_of(right, forward, bm));
                }
                return false;
            },
        };
        let moved = match self.pos.add(Vec3::new(rotated.x, rotated.y, rotated.z)) {
            Some(p) => p,
            Option::None => {
                proof {
                    assert(basis_matrix_of(right, forward, bm));
                }
                return false;
            },
        };
        self.pos = moved;
        proof {
            assert(basis_matrix_of(right, forward, bm));
        }
        true
    }
}

} // verus!
