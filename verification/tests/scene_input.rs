//! The scene, keyboard state, event digestion and camera movement.

use voxel_render::camera::OrientedCamera;
use voxel_render::controller::{
    chunk_origin, movement_delta, scan_events, WindowEventModel, KEY_ESCAPE, KEY_S, KEY_SPACE,
    KEY_W,
};
use voxel_render::key_input::KeyInputHelper;
use voxel_render::quaternion::Quaternion;
use voxel_render::rat::Rat;
use voxel_render::chunk::Chunk;
use voxel_render::scene::Scene;
use voxel_render::vec::Vec3;

fn r(n: i64) -> Rat {
    Rat::from_int(n)
}

#[test]
fn key_input_tracks_press_and_release() {
    let mut input = KeyInputHelper::new();
    assert!(!input.is_pressed(KEY_W));
    input.input(KEY_W, true, false);
    assert!(input.is_pressed(KEY_W));
    // A repeat changes nothing.
    input.input(KEY_W, true, true);
    assert!(input.is_pressed(KEY_W));
    input.input(KEY_S, true, false);
    input.input(KEY_W, false, false);
    assert!(!input.is_pressed(KEY_W));
    assert!(input.is_pressed(KEY_S));
}

#[test]
fn scan_stops_at_close() {
    let events = vec![
        WindowEventModel::Resized { width: 100, height: 50 },
        WindowEventModel::KeyboardInput { key: KEY_W, pressed: true, repeat: false },
        WindowEventModel::RedrawRequested,
        WindowEventModel::Resized { width: 200, height: 100 },
        WindowEventModel::CloseRequested,
        WindowEventModel::Resized { width: 999, height: 999 },
        WindowEventModel::KeyboardInput { key: KEY_ESCAPE, pressed: true, repeat: false },
    ];
    let scan = scan_events(&events);
    assert!(scan.close);
    assert!(scan.redraw);
    // The last resize before the close wins; nothing after it counts.
    assert_eq!(scan.resized, Some((200, 100)));
    assert_eq!(scan.keys, vec![(KEY_W, true, false)]);
}

#[test]
fn scan_without_close() {
    let events = vec![
        WindowEventModel::Other,
        WindowEventModel::KeyboardInput { key: KEY_S, pressed: false, repeat: false },
    ];
    let scan = scan_events(&events);
    assert!(!scan.close);
    assert!(!scan.redraw);
    assert_eq!(scan.resized, None);
    assert_eq!(scan.keys, vec![(KEY_S, false, false)]);
}

#[test]
fn movement_table() {
    assert_eq!(
        movement_delta(KEY_W),
        Some(Vec3::new(r(0), Rat::new(1, 2), r(0)))
    );
    assert_eq!(
        movement_delta(KEY_SPACE),
        Some(Vec3::new(r(0), r(0), Rat::new(1, 2)))
    );
    assert_eq!(movement_delta(KEY_ESCAPE), None);
}

#[test]
fn local_move_with_identity_orientation_translates() {
    let mut cam = OrientedCamera::at_origin();
    let applied = cam.local_move(Vec3::new(r(0), Rat::new(1, 2), r(0)));
    assert!(applied);
    assert!(cam.pos.x.eqv(r(0)));
    assert!(cam.pos.y.eqv(Rat::new(1, 2)));
    assert!(cam.pos.z.eqv(r(0)));
}

#[test]
fn rotate_by_identity_keeps_orientation() {
    let mut cam = OrientedCamera::at_origin();
    let q = Quaternion::new(Rat::new(1, 2), Rat::new(1, 2), Rat::new(1, 2), Rat::new(1, 2));
    assert!(cam.rotate_by(q));
    let applied = cam.rotate_by(Quaternion::default());
    assert!(applied);
    assert!(cam.orientation.w.eqv(q.w));
    assert!(cam.orientation.x.eqv(q.x));
    assert!(cam.orientation.y.eqv(q.y));
    assert!(cam.orientation.z.eqv(q.z));
}

#[test]
fn chunk_origin_scales_by_side_length() {
    let v = chunk_origin((1, 0, -2)).unwrap();
    assert!(v.x.eqv(r(32)));
    assert!(v.y.eqv(r(0)));
    assert!(v.z.eqv(r(-64)));
    assert!(chunk_origin((i64::MAX, 0, 0)).is_none());
}

#[test]
fn default_scene_contents() {
    let s = Scene::default();
    assert_eq!(s.chunks.len(), 2);
    assert!(s.get_chunk((0, 0, 0)).is_some());
    assert!(s.get_chunk((1, 0, 0)).is_some());
    assert!(s.get_chunk((2, 0, 0)).is_none());
    // The camera starts a few units back with the identity orientation.
    assert!(s.camera.pos.y.eqv(r(-5)));
    assert_eq!(s.camera.orientation, Quaternion::default());
    // The origin chunk is the procedural fill.
    let c = s.get_chunk((0, 0, 0)).unwrap();
    assert_eq!(c.get(0, 0, 0), Some([0, 0, 0, 100]));
}

#[test]
fn scene_rejects_duplicate_index() {
    let mut s = Scene::default();
    assert!(!s.add_chunk((0, 0, 0), Chunk::empty()));
    assert!(s.add_chunk((5, 5, 5), Chunk::empty()));
    assert_eq!(s.chunks.len(), 3);
}
