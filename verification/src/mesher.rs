//! Chunk meshing: turns a voxel grid into a flat vertex list, 36 vertices
//! (6 faces, 2 triangles each) for every non-empty voxel.

use vstd::prelude::*;

use crate::chunk::{Chunk, DIMENSIONS};
use crate::voxel::Rgba;

verus! {

/// One mesh vertex: a corner position in chunk-local grid units and the
/// color of the voxel it belongs to.
#[derive(Clone, Copy, Debug)]
pub struct ChunkMeshVertex {
    pub x: u32,
    pub y: u32,
    pub z: u32,
    pub color: Rgba,
}

/// Corner `i` of the unit cube's 36-vertex template, in emission order:
/// six faces, two triangles each, three vertices per triangle.
pub open spec fn spec_corner(i: int) -> (int, int, int) {
    if i == 0 {
        (0, 0, 0)
    } else if i == 1 {
        (1, 0, 0)
    } else if i == 2 {
        (1, 0, 1)
    } else if i == 3 {
        (1, 0, 1)
    } else if i == 4 {
        (0, 0, 1)
    } else if i == 5 {
        (0, 0, 0)
    } else if i == 6 {
        (0, 0, 0)
    } else if i == 7 {
        (0, 1, 0)
    } else if i == 8 {
        (1, 1, 0)
    } else if i == 9 {
        (1, 1, 0)
    } else if i == 10 {
        (1, 0, 0)
    } else if i == 11 {
        (0, 0, 0)
    } else if i == 12 {
        (0, 0, 0)
    } else if i == 13 {
        (0, 0, 1)
    } else if i == 14 {
        (0, 1, 1)
    } else if i == 15 {
        (0, 1, 1)
    } else if i == 16 {
        (0, 1, 0)
    } else if i == 17 {
        (0, 0, 0)
    } else if i == 18 {
        (0, 1, 0)
    } else if i == 19 {
        (0, 1, 1)
    } else if i == 20 {
        (1, 1, 1)
    } else if i == 21 {
        (1, 1, 1)
    } else if i == 22 {
        (1, 1, 0)
    } else if i == 23 {
        (0, 1, 0)
    } else if i == 24 {
        (0, 0, 1)
    } else if i == 25 {
        (1, 0, 1)
    } else if i == 26 {
        (1, 1, 1)
    } else if i == 27 {
        (1, 1, 1)
    } else if i == 28 {
        (0, 1, 1)
    } else if i == 29 {
        (0, 0, 1)
    } else if i == 30 {
        (1, 0, 0)
    } else if i == 31 {
        (1, 1, 0)
    } else if i == 32 {
        (1, 1, 1)
    } else if i == 33 {
        (1, 1, 1)
    } else if i == 34 {
        (1, 0, 1)
    } else {
        (1, 0, 0)
    }
}

/// Vertex `i` of the cube at `(x, y, z)` with color `col`.
pub open spec fn spec_vertex(x: int, y: int, z: int, col: Rgba, i: int) -> ChunkMeshVertex {
    ChunkMeshVertex {
        x: (x + spec_corner(i).0) as u32,
        y: (y + spec_corner(i).1) as u32,
        z: (z + spec_corner(i).2) as u32,
        color: col,
    }
}

/// The 36 vertices of the cube at `(x, y, z)` with color `col`.
pub open spec fn spec_voxel_mesh(x: int, y: int, z: int, col: Rgba) -> Seq<ChunkMeshVertex> {
    Seq::new(36, |i: int| spec_vertex(x, y, z, col, i))
}

/// What the cell at `(x, y, z)` contributes to the mesh: a cube if it is
/// filled, nothing if it is empty.
pub open spec fn spec_cell_mesh(c: &Chunk, x: int, y: int, z: int) -> Seq<ChunkMeshVertex> {
    match c.at(x, y, z) {
        Some(col) => spec_voxel_mesh(x, y, z, col),
        Option::None => Seq::empty(),
    }
}

/// Mesh of row `(x, y, *)`, cells `z < z_end`, in emission order.
pub open spec fn spec_row_mesh(c: &Chunk, x: int, y: int, z_end: int) -> Seq<ChunkMeshVertex>
    decreases z_end,
{
    if z_end <= 0 {
        Seq::empty()
    } else {
        spec_row_mesh(c, x, y, z_end - 1) + spec_cell_mesh(c, x, y, z_end - 1)
    }
}

/// Mesh of plane `(x, *, *)`, rows `y < y_end`.
pub open spec fn spec_plane_mesh(c: &Chunk, x: int, y_end: int) -> Seq<ChunkMeshVertex>
    decreases y_end,
{
    if y_end <= 0 {
        Seq::empty()
    } else {
        spec_plane_mesh(c, x, y_end - 1) + spec_row_mesh(c, x, y_end - 1, DIMENSIONS as int)
    }
}

/// Mesh of the planes `x < x_end`.
pub open spec fn spec_mesh_upto(c: &Chunk, x_end: int) -> Seq<ChunkMeshVertex>
    decreases x_end,
{
    if x_end <= 0 {
        Seq::empty()
    } else {
        spec_mesh_upto(c, x_end - 1) + spec_plane_mesh(c, x_end - 1, DIMENSIONS as int)
    }
}

/// The whole mesh of a chunk: every filled cell's cube, cells visited with
/// `x` outermost and `z` innermost.
pub open spec fn spec_mesh(c: &Chunk) -> Seq<ChunkMeshVertex> {
    spec_mesh_upto(c, DIMENSIONS as int)
}

/// Filled cells of row `(x, y, *)`, `z < z_end`.
pub open spec fn spec_row_count(c: &Chunk, x: int, y: int, z_end: int) -> int
    decreases z_end,
{
    if z_end <= 0 {
        0
    } else {
        spec_row_count(c, x, y, z_end - 1) + if c.at(x, y, z_end - 1) is Some {
            1int
        } else {
            0int
        }
    }
}

/// Filled cells of plane `(x, *, *)`, `y < y_end`.
pub open spec fn spec_plane_count(c: &Chunk, x: int, y_end: int) -> int
    decreases y_end,
{
    if y_end <= 0 {
        0
    } else {
        spec_plane_count(c, x, y_end - 1) + spec_row_count(c, x, y_end - 1, DIMENSIONS as int)
    }
}

/// Filled cells of the planes `x < x_end`.
pub open spec fn spec_count_upto(c: &Chunk, x_end: int) -> int
    decreases x_end,
{
    if x_end <= 0 {
        0
    } else {
        spec_count_upto(c, x_end - 1) + spec_plane_count(c, x_end - 1, DIMENSIONS as int)
    }
}

/// How many cells of the chunk hold a voxel.
pub open spec fn spec_count(c: &Chunk) -> int {
    spec_count_upto(c, DIMENSIONS as int)
}

/// The outward unit normal of face `f` of the unit cube, faces in the
/// template's emission order.
pub open spec fn spec_face_normal(f: int) -> (int, int, int) {
    if f == 0 {
        (0, -1, 0)
    } else if f == 1 {
        (0, 0, -1)
    } else if f == 2 {
        (-1, 0, 0)
    } else if f == 3 {
        (0, 1, 0)
    } else if f == 4 {
        (0, 0, 1)
    } else {
        (1, 0, 0)
    }
}

/// The cross product of two vectors given by their components.
pub open spec fn spec_cross(ax: int, ay: int, az: int, bx: int, by: int, bz: int) -> (
    int,
    int,
    int,
) {
    (ay * bz - az * by, az * bx - ax * bz, ax * by - ay * bx)
}

/// The cross product of the two edge vectors of triangle `t` of a vertex
/// sequence: `(v1 - v0) x (v2 - v0)` over vertices `3t, 3t+1, 3t+2`.
pub open spec fn spec_triangle_cross(s: Seq<ChunkMeshVertex>, t: int) -> (int, int, int) {
    let a = s[3 * t];
    let b = s[3 * t + 1];
    let c = s[3 * t + 2];
    spec_cross(b.x - a.x, b.y - a.y, b.z - a.z, c.x - a.x, c.y - a.y, c.z - a.z)
}

/// Evaluates the cross product of every edge pair of the cube template.
proof fn lemma_cross_table()
    ensures
        spec_cross(1, 0, 0, 1, 0, 1) == (0int, -1int, 0int),
        spec_cross(-1, 0, 0, -1, 0, -1) == (0int, -1int, 0int),
        spec_cross(0, 1, 0, 1, 1, 0) == (0int, 0int, -1int),
        spec_cross(0, -1, 0, -1, -1, 0) == (0int, 0int, -1int),
        spec_cross(0, 0, 1, 0, 1, 1) == (-1int, 0int, 0int),
        spec_cross(0, 0, -1, 0, -1, -1) == (-1int, 0int, 0int),
        spec_cross(0, 0, 1, 1, 0, 1) == (0int, 1int, 0int),
        spec_cross(0, 0, -1, -1, 0, -1) == (0int, 1int, 0int),
        spec_cross(1, 0, 0, 1, 1, 0) == (0int, 0int, 1int),
        spec_cross(-1, 0, 0, -1, -1, 0) == (0int, 0int, 1int),
        spec_cross(0, 1, 0, 0, 1, 1) == (1int, 0int, 0int),
        spec_cross(0, -1, 0, 0, -1, -1) == (1int, 0int, 0int),
{
}

/// Every triangle a voxel emits is wound counter-clockwise when viewed
/// from outside its cube: the cross product of its edge vectors is exactly
/// the outward unit normal of the face the triangle lies on, for all six
/// faces and both triangles of each face, wherever the voxel sits.
#[verifier::rlimit(100)]
pub proof fn lemma_voxel_mesh_winding(x: int, y: int, z: int, col: Rgba, t: int)
    requires
        0 <= x < DIMENSIONS,
        0 <= y < DIMENSIONS,
        0 <= z < DIMENSIONS,
        0 <= t < 12,
    ensures
        spec_triangle_cross(spec_voxel_mesh(x, y, z, col), t) == spec_face_normal(t / 2),
{
    let s = spec_voxel_mesh(x, y, z, col);
    assert(s[3 * t] == spec_vertex(x, y, z, col, 3 * t));
    assert(s[3 * t + 1] == spec_vertex(x, y, z, col, 3 * t + 1));
    assert(s[3 * t + 2] == spec_vertex(x, y, z, col, 3 * t + 2));
    // The translation by (x, y, z) cancels out of every edge vector.
    assert forall|i: int, j: int| 0 <= i < 36 && 0 <= j < 36 implies s[i].x - s[j].x == spec_corner(
        i,
    ).0 - spec_corner(j).0 && s[i].y - s[j].y == spec_corner(i).1 - spec_corner(j).1 && s[i].z
        - s[j].z == spec_corner(i).2 - spec_corner(j).2 by {
        assert(s[i] == spec_vertex(x, y, z, col, i));
        assert(s[j] == spec_vertex(x, y, z, col, j));
        assert(0 <= spec_corner(i).0 <= 1 && 0 <= spec_corner(i).1 <= 1 && 0 <= spec_corner(i).2
            <= 1);
        assert(0 <= spec_corner(j).0 <= 1 && 0 <= spec_corner(j).1 <= 1 && 0 <= spec_corner(j).2
            <= 1);
    }
    lemma_cross_table();
    let n = spec_face_normal(t / 2);
    let i0 = 3 * t;
    let i1 = 3 * t + 1;
    let i2 = 3 * t + 2;
    assert(s[i1].x - s[i0].x == spec_corner(i1).0 - spec_corner(i0).0);
    assert(spec_triangle_cross(s, t) == spec_cross(
        spec_corner(i1).0 - spec_corner(i0).0,
        spec_corner(i1).1 - spec_corner(i0).1,
        spec_corner(i1).2 - spec_corner(i0).2,
        spec_corner(i2).0 - spec_corner(i0).0,
        spec_corner(i2).1 - spec_corner(i0).1,
        spec_corner(i2).2 - spec_corner(i0).2,
    ));
    if t == 0 {
        assert(spec_cross(1, 0, 0, 1, 0, 1) == (0int, -1int, 0int));
    } else if t == 1 {
        assert(spec_cross(-1, 0, 0, -1, 0, -1) == (0int, -1int, 0int));
    } else if t == 2 {
        assert(spec_cross(0, 1, 0, 1, 1, 0) == (0int, 0int, -1int));
    } else if t == 3 {
        assert(spec_cross(0, -1, 0, -1, -1, 0) == (0int, 0int, -1int));
    } else if t == 4 {
        assert(spec_cross(0, 0, 1, 0, 1, 1) == (-1int, 0int, 0int));
    } else if t == 5 {
        assert(spec_cross(0, 0, -1, 0, -1, -1) == (-1int, 0int, 0int));
    } else if t == 6 {
        assert(spec_cross(0, 0, 1, 1, 0, 1) == (0int, 1int, 0int));
    } else if t == 7 {
        assert(spec_cross(0, 0, -1, -1, 0, -1) == (0int, 1int, 0int));
    } else if t == 8 {
        assert(spec_cross(1, 0, 0, 1, 1, 0) == (0int, 0int, 1int));
    } else if t == 9 {
        assert(spec_cross(-1, 0, 0, -1, -1, 0) == (0int, 0int, 1int));
    } else if t == 10 {
        assert(spec_cross(0, 1, 0, 0, 1, 1) == (1int, 0int, 0int));
    } else {
        assert(spec_cross(0, -1, 0, 0, -1, -1) == (1int, 0int, 0int));
    }
}

/// A row holds at most `z_end` filled cells.
proof fn lemma_row_count_bounds(c: &Chunk, x: int, y: int, z_end: int)
    requires
        0 <= z_end,
    ensures
        0 <= spec_row_count(c, x, y, z_end) <= z_end,
    decreases z_end,
{
    if z_end > 0 {
        lemma_row_count_bounds(c, x, y, z_end - 1);
    }
}

/// A plane holds at most `y_end * DIMENSIONS` filled cells.
proof fn lemma_plane_count_bounds(c: &Chunk, x: int, y_end: int)
    requires
        0 <= y_end,
    ensures
        0 <= spec_plane_count(c, x, y_end) <= y_end * DIMENSIONS,
    decreases y_end,
{
    if y_end > 0 {
        lemma_plane_count_bounds(c, x, y_end - 1);
        lemma_row_count_bounds(c, x, y_end - 1, DIMENSIONS as int);
        assert(y_end * DIMENSIONS == (y_end - 1) * DIMENSIONS + DIMENSIONS) by (nonlinear_arith);
    }
}

/// The planes `x < x_end` hold at most `x_end * DIMENSIONS^2` filled cells.
proof fn lemma_count_upto_bounds(c: &Chunk, x_end: int)
    requires
        0 <= x_end,
    ensures
        0 <= spec_count_upto(c, x_end) <= x_end * (DIMENSIONS * DIMENSIONS),
    decreases x_end,
{
    if x_end > 0 {
        lemma_count_upto_bounds(c, x_end - 1);
        lemma_plane_count_bounds(c, x_end - 1, DIMENSIONS as int);
        assert(x_end * (DIMENSIONS * DIMENSIONS) == (x_end - 1) * (DIMENSIONS * DIMENSIONS)
            + DIMENSIONS * DIMENSIONS) by (nonlinear_arith);
    }
}

/// Corner `i` of the unit cube's vertex template.
fn corner(i: usize) -> (r: (u32, u32, u32))
    requires
        i < 36,
    ensures
        (r.0 as int, r.1 as int, r.2 as int) == spec_corner(i as int),
{
    if i == 0 {
        (0, 0, 0)
    } else if i == 1 {
        (1, 0, 0)
    } else if i == 2 {
        (1, 0, 1)
    } else if i == 3 {
        (1, 0, 1)
    } else if i == 4 {
        (0, 0, 1)
    } else if i == 5 {
        (0, 0, 0)
    } else if i == 6 {
        (0, 0, 0)
    } else if i == 7 {
        (0, 1, 0)
    } else if i == 8 {
        (1, 1, 0)
    } else if i == 9 {
        (1, 1, 0)
    } else if i == 10 {
        (1, 0, 0)
    } else if i == 11 {
        (0, 0, 0)
    } else if i == 12 {
        (0, 0, 0)
    } else if i == 13 {
        (0, 0, 1)
    } else if i == 14 {
        (0, 1, 1)
    } else if i == 15 {
        (0, 1, 1)
    } else if i == 16 {
        (0, 1, 0)
    } else if i == 17 {
        (0, 0, 0)
    } else if i == 18 {
        (0, 1, 0)
    } else if i == 19 {
        (0, 1, 1)
    } else if i == 20 {
        (1, 1, 1)
    } else if i == 21 {
        (1, 1, 1)
    } else if i == 22 {
        (1, 1, 0)
    } else if i == 23 {
        (0, 1, 0)
    } else if i == 24 {
        (0, 0, 1)
    } else if i == 25 {
        (1, 0, 1)
    } else if i == 26 {
        (1, 1, 1)
    } else if i == 27 {
        (1, 1, 1)
    } else if i == 28 {
        (0, 1, 1)
    } else if i == 29 {
        (0, 0, 1)
    } else if i == 30 {
        (1, 0, 0)
    } else if i == 31 {
        (1, 1, 0)
    } else if i == 32 {
        (1, 1, 1)
    } else if i == 33 {
        (1, 1, 1)
    } else if i == 34 {
        (1, 0, 1)
    } else {
        (1, 0, 0)
    }
}

/// Appends the 36-vertex cube of the voxel at `(x, y, z)`.
fn push_voxel_mesh(mesh: &mut Vec<ChunkMeshVertex>, x: usize, y: usize, z: usize, col: Rgba)
    requires
        x < DIMENSIONS,
        y < DIMENSIONS,
        z < DIMENSIONS,
        old(mesh)@.len() + 36 <= usize::MAX,
    ensures
        final(mesh)@ == old(mesh)@ + spec_voxel_mesh(x as int, y as int, z as int, col),
{
    let ghost base = mesh@;
    for i in 0..36usize
        invariant
            x < DIMENSIONS,
            y < DIMENSIONS,
            z < DIMENSIONS,
            mesh@ == base + spec_voxel_mesh(x as int, y as int, z as int, col).take(i as int),
    {
        let (cx, cy, cz) = corner(i);
        let v = ChunkMeshVertex { x: (x as u32) + cx, y: (y as u32) + cy, z: (z as u32) + cz, color: col };
        mesh.push(v);
        proof {
            let full = spec_voxel_mesh(x as int, y as int, z as int, col);
            assert(v == full[i as int]);
            assert(full.take(i + 1) =~= full.take(i as int).push(full[i as int]));
        }
    }
    proof {
        let full = spec_voxel_mesh(x as int, y as int, z as int, col);
        assert(full.take(36) =~= full);
    }
}

/// Meshes a chunk: every filled cell becomes the 36 vertices of a unit
/// cube at its coordinates, carrying the cell's color; empty cells emit
/// nothing, and no face between adjacent filled cells is removed.
pub fn mesh(chunk: &Chunk) -> (out: Vec<ChunkMeshVertex>)
    requires
        chunk.wf(),
    ensures
        out@ == spec_mesh(chunk),
        out@.len() == 36 * spec_count(chunk),
{
    let mut out: Vec<ChunkMeshVertex> = Vec::new();
    for x in 0..DIMENSIONS
        invariant
            chunk.wf(),
            out@ == spec_mesh_upto(chunk, x as int),
            out@.len() == 36 * spec_count_upto(chunk, x as int),
    {
        for y in 0..DIMENSIONS
            invariant
                chunk.wf(),
                x < DIMENSIONS,
                out@ == spec_mesh_upto(chunk, x as int) + spec_plane_mesh(chunk, x as int, y as int),
                out@.len() == 36 * (spec_count_upto(chunk, x as int) + spec_plane_count(
                    chunk,
                    x as int,
                    y as int,
                )),
        {
            for z in 0..DIMENSIONS
                invariant
                    chunk.wf(),
                    x < DIMENSIONS,
                    y < DIMENSIONS,
                    out@ == spec_mesh_upto(chunk, x as int) + spec_plane_mesh(
                        chunk,
                        x as int,
                        y as int,
                    ) + spec_row_mesh(chunk, x as int, y as int, z as int),
                    out@.len() == 36 * (spec_count_upto(chunk, x as int) + spec_plane_count(
                        chunk,
                        x as int,
                        y as int,
                    ) + spec_row_count(chunk, x as int, y as int, z as int)),
            {
                proof {
                    lemma_count_upto_bounds(chunk, x as int);
                    lemma_plane_count_bounds(chunk, x as int, y as int);
                    lemma_row_count_bounds(chunk, x as int, y as int, z as int);
                    assert((x as int) * (DIMENSIONS * DIMENSIONS) + (y as int) * DIMENSIONS <= 31
                        * (DIMENSIONS * DIMENSIONS) + 31 * DIMENSIONS) by (nonlinear_arith)
                        requires
                            x < DIMENSIONS,
                            y < DIMENSIONS,
                    ;
                }
                if let Some(col) = chunk.get(x, y, z) {
                    push_voxel_mesh(&mut out, x, y, z, col);
                }
                proof {
                    assert(spec_row_mesh(chunk, x as int, y as int, z + 1) == spec_row_mesh(
                        chunk,
                        x as int,
                        y as int,
                        z as int,
                    ) + spec_cell_mesh(chunk, x as int, y as int, z as int));
                    if chunk.at(x as int, y as int, z as int) is None {
                        assert(out@ + Seq::<ChunkMeshVertex>::empty() =~= out@);
                    }
                }
            }
        }
    }
    proof {
        assert(out@.len() == 36 * spec_count(chunk));
    }
    out
}

} // verus!
