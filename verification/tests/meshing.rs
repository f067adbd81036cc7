//! Chunks, voxels and the mesher.

use voxel_render::chunk::{Chunk, DIMENSIONS};
use voxel_render::mesher::mesh;
use voxel_render::voxel::Voxel;

#[test]
fn voxel_from_cycles() {
    assert_eq!(Voxel::from(0), Voxel::Empty);
    assert_eq!(Voxel::from(1), Voxel::White);
    assert_eq!(Voxel::from(7), Voxel::White);
    assert_eq!(Voxel::from(5), Voxel::Blue);
}

#[test]
fn voxel_color_packs_bytes() {
    assert_eq!(Voxel::color_from_bytes(255, 0, 0, 255), 0xFF0000FF);
    assert_eq!(Voxel::Red.color(), 0xFF0000FF);
    assert_eq!(Voxel::White.color(), 0xFFFFFFFF);
    assert_eq!(Voxel::Empty.color(), 0);
    assert_eq!(Voxel::Blue.rgba(), Some([0, 0, 255, 255]));
    assert_eq!(Voxel::Empty.rgba(), None);
}

#[test]
fn empty_chunk_meshes_empty() {
    let c = Chunk::empty();
    assert_eq!(mesh(&c).len(), 0);
}

#[test]
fn mesh_len_is_36_per_voxel() {
    let mut c = Chunk::empty();
    c.set(0, 0, 0, Some([1, 2, 3, 4]));
    c.set(5, 6, 7, Some([9, 9, 9, 9]));
    c.set(31, 31, 31, Some([7, 7, 7, 7]));
    assert_eq!(mesh(&c).len(), 3 * 36);
}

#[test]
fn mesh_len_matches_count_on_random_chunk() {
    let c = Chunk::random();
    let mut count = 0usize;
    for x in 0..DIMENSIONS {
        for y in 0..DIMENSIONS {
            for z in 0..DIMENSIONS {
                if c.get(x, y, z).is_some() {
                    count += 1;
                }
            }
        }
    }
    assert!(count > 0);
    assert_eq!(mesh(&c).len(), 36 * count);
}

#[test]
fn single_origin_voxel_mesh_is_unit_cube() {
    let mut c = Chunk::empty();
    let col = [10, 20, 30, 40];
    c.set(0, 0, 0, Some(col));
    let m = mesh(&c);
    assert_eq!(m.len(), 36);
    let corners: [(u32, u32, u32); 36] = [
        (0, 0, 0), (1, 0, 0), (1, 0, 1), (1, 0, 1), (0, 0, 1), (0, 0, 0),
        (0, 0, 0), (0, 1, 0), (1, 1, 0), (1, 1, 0), (1, 0, 0), (0, 0, 0),
        (0, 0, 0), (0, 0, 1), (0, 1, 1), (0, 1, 1), (0, 1, 0), (0, 0, 0),
        (0, 1, 0), (0, 1, 1), (1, 1, 1), (1, 1, 1), (1, 1, 0), (0, 1, 0),
        (0, 0, 1), (1, 0, 1), (1, 1, 1), (1, 1, 1), (0, 1, 1), (0, 0, 1),
        (1, 0, 0), (1, 1, 0), (1, 1, 1), (1, 1, 1), (1, 0, 1), (1, 0, 0),
    ];
    for (i, v) in m.iter().enumerate() {
        assert_eq!((v.x, v.y, v.z), corners[i]);
        assert_eq!(v.color, col);
    }
}

#[test]
fn mesh_triangles_wind_counter_clockwise() {
    let mut c = Chunk::empty();
    c.set(3, 4, 5, Some([1, 1, 1, 1]));
    let m = mesh(&c);
    assert_eq!(m.len(), 36);
    // The outward normals of the six faces, two triangles each.
    let normals: [(i64, i64, i64); 6] =
        [(0, -1, 0), (0, 0, -1), (-1, 0, 0), (0, 1, 0), (0, 0, 1), (1, 0, 0)];
    for t in 0..12 {
        let a = &m[3 * t];
        let b = &m[3 * t + 1];
        let c2 = &m[3 * t + 2];
        let e1 = (
            b.x as i64 - a.x as i64,
            b.y as i64 - a.y as i64,
            b.z as i64 - a.z as i64,
        );
        let e2 = (
            c2.x as i64 - a.x as i64,
            c2.y as i64 - a.y as i64,
            c2.z as i64 - a.z as i64,
        );
        let cross = (
            e1.1 * e2.2 - e1.2 * e2.1,
            e1.2 * e2.0 - e1.0 * e2.2,
            e1.0 * e2.1 - e1.1 * e2.0,
        );
        assert_eq!(cross, normals[t / 2]);
    }
}

#[test]
fn cat_chunk_has_expected_pixels() {
    let c = Chunk::cat();
    // Row 0 of the picture sits at z = 22: column 0 empty, column 1 the
    // near-black outline.
    assert_eq!(c.get(10, 16, 22), None);
    assert_eq!(c.get(11, 16, 22), Some([20, 20, 20, 255]));
    // Off the picture wall everything is empty.
    assert_eq!(c.get(0, 0, 0), None);
    assert_eq!(c.get(10, 15, 22), None);
}

#[test]
fn rand_chunk_follows_parity() {
    let c = Chunk::rand();
    // (0,0,0): sum 0, Voxel::from(0) is empty.
    assert_eq!(c.get(0, 0, 0), None);
    // (1,0,0): odd sum, untouched.
    assert_eq!(c.get(1, 0, 0), None);
    // (2,0,0): sum 2, Voxel::from(2) is black.
    assert_eq!(c.get(2, 0, 0), Some([0, 0, 0, 255]));
    // (4,0,0): sum 4, Voxel::from(4) is green.
    assert_eq!(c.get(4, 0, 0), Some([0, 255, 0, 255]));
}

#[test]
fn random_chunk_follows_seed_formula() {
    let c = Chunk::random();
    // (0,0,0): seed 0, divisible by 27.
    assert_eq!(c.get(0, 0, 0), Some([0, 0, 0, 100]));
    // (1,0,0): seed 8, not divisible.
    assert_eq!(c.get(1, 0, 0), None);
    // (3,0,1): seed 27.
    assert_eq!(c.get(3, 0, 1), Some([69, 0, 25, 100]));
}
