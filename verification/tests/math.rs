//! Scalar, matrix, vector and quaternion arithmetic.

use voxel_render::camera::{OrientedCamera, TrackingCamera};
use voxel_render::cg::PerspectiveFrustum;
use voxel_render::controller::compose_pvm;
use voxel_render::mat::Mat4;
use voxel_render::quaternion::Quaternion;
use voxel_render::rat::Rat;
use voxel_render::vec::{Vec3, Vec4};

fn r(n: i64) -> Rat {
    Rat::from_int(n)
}

#[test]
fn rat_add_exact() {
    let a = Rat::new(1, 2);
    let b = Rat::new(1, 3);
    let s = a.checked_add(b).unwrap();
    assert!(s.eqv(Rat::new(5, 6)));
    assert_eq!(s, Rat::new(5, 6));
}

#[test]
fn rat_zero_collapses() {
    let a = Rat::new(1, 2);
    let b = Rat::new(-1, 2);
    let s = a.checked_add(b).unwrap();
    assert_eq!(s, Rat::new(0, 1));
}

#[test]
fn rat_overflow_is_none() {
    let big = Rat::new(i64::MAX, 1);
    assert!(big.checked_add(Rat::new(1, 1)).is_none());
    assert!(big.checked_mul(big).is_none());
}

#[test]
fn rat_div_sign() {
    let a = Rat::new(1, 2);
    let b = Rat::new(-1, 3);
    let q = a.checked_div(b).unwrap();
    assert!(q.eqv(Rat::new(-3, 2)));
    assert!(q.d >= 1);
}

#[test]
fn test_num_mult() {
    let m = Mat4::ident().scale(r(5)).unwrap();
    for i in 0..4 {
        for j in 0..4 {
            let want = if i == j { r(5) } else { r(0) };
            assert!(m.get(i, j).eqv(want));
        }
    }
}

#[test]
fn mat_test_add_sub() {
    let m1 = Mat4::fill(r(9));
    let m2 = Mat4::ident().scale(r(2)).unwrap();
    let sum = m1.add(&m2).unwrap();
    let diff = m1.sub(&m2).unwrap();
    for i in 0..4 {
        for j in 0..4 {
            let on_diag = i == j;
            assert!(sum.get(i, j).eqv(if on_diag { r(11) } else { r(9) }));
            assert!(diff.get(i, j).eqv(if on_diag { r(7) } else { r(9) }));
        }
    }
}

#[test]
fn mat_mult_ident() {
    let a = Mat4::ident();
    let b = Mat4::fill(r(3));
    let p = a.mult(&b).unwrap();
    for i in 0..4 {
        for j in 0..4 {
            assert!(p.get(i, j).eqv(r(3)));
        }
    }
}

#[test]
fn mat_trans_swaps() {
    let t = Vec3::new(r(1), r(2), r(3)).translation_matrix();
    let tt = t.trans();
    assert!(tt.get(3, 0).eqv(r(1)));
    assert!(tt.get(3, 1).eqv(r(2)));
    assert!(tt.get(3, 2).eqv(r(3)));
    assert!(tt.get(0, 3).eqv(r(0)));
}

#[test]
fn vec_test_dot_prod() {
    let v1 = Vec3::new(r(10), r(-67), r(23));
    let v2 = Vec3::new(r(8), Rat::new(-3, 2), r(-5));
    let dot = v1.dot(v2).unwrap();
    // 10*8 + 1.5*67 - 5*23 = 65.5
    assert!(dot.eqv(Rat::new(131, 2)));
}

#[test]
fn vec_test_cross_prod() {
    let v1 = Vec3::new(r(8), r(0), r(0));
    let v2 = Vec3::new(r(0), r(0), Rat::new(-3, 2));
    let cross = v1.cross(v2).unwrap();
    assert!(cross.x.eqv(r(0)));
    assert!(cross.y.eqv(r(12)));
    assert!(cross.z.eqv(r(0)));
    // The squared length is 144, so scaling by 1/12 normalizes exactly.
    let len2 = cross.len2().unwrap();
    assert!(len2.eqv(r(144)));
    let unit = cross.mult(Rat::new(1, 12)).unwrap();
    assert!(unit.x.eqv(r(0)));
    assert!(unit.y.eqv(r(1)));
    assert!(unit.z.eqv(r(0)));
}

#[test]
fn vec_test_add_sub() {
    let a = Vec3::new(r(1), r(1), r(1));
    let b = Vec3::new(r(1), r(1), r(1));
    let sum = a.add(b).unwrap();
    let twice = a.mult(r(2)).unwrap();
    assert_eq!(sum, twice);
    let diff = a.sub(b).unwrap();
    assert!(diff.x.eqv(r(0)) && diff.y.eqv(r(0)) && diff.z.eqv(r(0)));
}

#[test]
fn test_quat_mult() {
    let q1 = Quaternion::new(r(0), r(0), r(1), r(0));
    let q2 = Quaternion::default();
    let q3 = q1.mul(q2).unwrap();
    assert_eq!(q1, q3);
}

#[test]
fn quat_identity_composes_left() {
    // An arbitrary unit quaternion: (1/2, 1/2, 1/2, 1/2).
    let q = Quaternion::new(Rat::new(1, 2), Rat::new(1, 2), Rat::new(1, 2), Rat::new(1, 2));
    let id = Quaternion::default();
    let p = id.mul(q).unwrap();
    assert!(p.w.eqv(q.w) && p.x.eqv(q.x) && p.y.eqv(q.y) && p.z.eqv(q.z));
}

#[test]
fn quat_from_zero_euler_is_identity() {
    let q = Quaternion::from_half_angle_sin_cos(r(0), r(1), r(0), r(1), r(0), r(1)).unwrap();
    assert_eq!(q, Quaternion::default());
}

#[test]
fn view_inverts_the_orientation() {
    // A unit quaternion (3/5, 4/5, 0, 0): the view matrix carries the
    // rotation of its conjugate, so entry (1,2) is 2(yz - xw) of
    // (3/5, -4/5, 0, 0), which is +24/25 — the inverse rotation, not
    // the camera's own.
    let cam = OrientedCamera {
        pos: Vec3::new(r(0), r(0), r(0)),
        orientation: Quaternion::new(Rat::new(3, 5), Rat::new(4, 5), r(0), r(0)),
    };
    let view = cam.view_matrix().unwrap();
    assert!(view.get(1, 2).eqv(Rat::new(24, 25)));
    assert!(view.get(2, 1).eqv(Rat::new(-24, 25)));
    assert!(view.get(1, 1).eqv(Rat::new(-7, 25)));
    assert!(view.get(0, 0).eqv(r(1)));
}

#[test]
fn local_move_uses_the_camera_rotation() {
    // The same quaternion rotates the move delta camera-to-world: a
    // step of (0, 1, 0) in the camera's frame lands at (0, -7/25,
    // 24/25) in the world.
    let mut cam = OrientedCamera {
        pos: Vec3::new(r(0), r(0), r(0)),
        orientation: Quaternion::new(Rat::new(3, 5), Rat::new(4, 5), r(0), r(0)),
    };
    assert!(cam.local_move(Vec3::new(r(0), r(1), r(0))));
    assert!(cam.pos.x.eqv(r(0)));
    assert!(cam.pos.y.eqv(Rat::new(-7, 25)));
    assert!(cam.pos.z.eqv(Rat::new(24, 25)));
}

#[test]
fn tracking_camera_with_axis_basis() {
    // Looking straight down the world's second axis: right and forward
    // are axis vectors, the computed up is their cross product, and the
    // view from the origin is the identity.
    let right = Vec3::new(r(1), r(0), r(0));
    let forward = Vec3::new(r(0), r(1), r(0));
    let mut cam = TrackingCamera {
        pos: Vec3::new(r(0), r(0), r(0)),
        target: Vec3::new(r(0), r(10), r(0)),
    };
    let view = cam.view_matrix(right, forward).unwrap();
    for i in 0..4 {
        for j in 0..4 {
            let want = if i == j { r(1) } else { r(0) };
            assert!(view.get(i, j).eqv(want));
        }
    }
    assert!(cam.local_move(Vec3::new(r(0), r(2), r(0)), right, forward));
    assert!(cam.pos.y.eqv(r(2)));
    assert_eq!(cam.target, Vec3::new(r(0), r(10), r(0)));
}

#[test]
fn identity_camera_view_is_identity() {
    let cam = OrientedCamera::at_origin();
    let view = cam.view_matrix().unwrap();
    for i in 0..4 {
        for j in 0..4 {
            let want = if i == j { r(1) } else { r(0) };
            assert!(view.get(i, j).eqv(want));
        }
    }
}

#[test]
fn perspective_depth_in_range_and_monotone() {
    // near = 1, far = 100, a right-angle field of view (tangent 1),
    // square aspect.
    let f = PerspectiveFrustum { near: r(1), far: r(100), tan_half_fov: r(1), ar: r(1) };
    let p = f.projection_matrix().unwrap();
    let depth_at = |z: i64| -> Rat {
        let clip = p.mult_vec(Vec4::new(r(0), r(0), r(z), r(1))).unwrap();
        clip.z.checked_div(clip.w).unwrap()
    };
    let d_near = depth_at(1);
    let d_mid = depth_at(50);
    let d_far = depth_at(100);
    // The depth of the projected point lies in [0, 1]: zero at the near
    // plane, one at the far plane.
    assert!(d_near.eqv(r(0)));
    assert!(d_far.eqv(r(1)));
    assert!(r(0).le(d_mid) && d_mid.le(r(1)));
    // And grows with eye-space depth.
    assert!(d_near.lt(d_mid));
    assert!(d_mid.lt(d_far));
}

#[test]
fn compose_pvm_of_identities() {
    let id = Mat4::ident();
    let m = compose_pvm(&id, &id, &id).unwrap();
    for i in 0..4 {
        for j in 0..4 {
            let want = if i == j { r(1) } else { r(0) };
            assert!(m.get(i, j).eqv(want));
        }
    }
}
