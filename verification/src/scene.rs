//! The scene: chunks addressed by their chunk-grid index, one light and
//! one active camera, owned and mutated by the render thread alone.

use vstd::prelude::*;

use crate::camera::OrientedCamera;
use crate::chunk::{spec_cat_cell, spec_on_cat_wall, spec_random_cell, Chunk, CAT_COLS, CAT_ROWS,
    DIMENSIONS};
use crate::quaternion::Quaternion;
use crate::rat::Rat;
use crate::vec::Vec3;

verus! {

/// A chunk's position in chunk-grid space; its world origin is this
/// index scaled by the chunk side length.
pub type ChunkIndex = (i64, i64, i64);

/// A directional light.
#[derive(Clone, Copy, Debug, PartialEq, Eq)]
pub struct Light {
    pub direction: Vec3,
    pub color: (Rat, Rat, Rat),
    pub intensity: Rat,
}

impl Light {
    /// All scalars are well-formed.
    pub open spec fn wf(self) -> bool {
        self.direction.wf() && self.color.0.wf() && self.color.1.wf() && self.color.2.wf()
            && self.intensity.wf()
    }
}

impl Default for Light {
    /// White light of unit intensity shining straight down.
    fn default() -> (l: Light)
        ensures
            l.wf(),
            l.direction == (Vec3 {
                x: Rat { n: 0, d: 1 },
                y: Rat { n: -1i64, d: 1 },
                z: Rat { n: 0, d: 1 },
            }),
            l.color == (Rat { n: 1, d: 1 }, Rat { n: 1, d: 1 }, Rat { n: 1, d: 1 }),
            l.intensity == (Rat { n: 1, d: 1 }),
    {
        Light {
            direction: Vec3::new(Rat::zero(), Rat::new(-1, 1), Rat::zero()),
            color: (Rat::one(), Rat::one(), Rat::one()),
            intensity: Rat::one(),
        }
    }
}

/// The scene contents: a chunk map with unique indices, a light, and
/// the active camera.
pub struct Scene {
    pub chunks: Vec<(ChunkIndex, Chunk)>,
    pub light: Light,
    pub camera: OrientedCamera,
}

impl Scene {
    /// The chunk entries, in insertion order.
    pub open spec fn spec_chunks(&self) -> Seq<(ChunkIndex, Chunk)> {
        self.chunks@
    }

    /// Indices are unique, every chunk has a full grid, and light and
    /// camera are well-formed.
    pub open spec fn wf(&self) -> bool {
        &&& forall|i: int, j: int|
            0 <= i < j < self.spec_chunks().len() ==> (#[trigger] self.spec_chunks()[i]).0 != (
            #[trigger] self.spec_chunks()[j]).0
        &&& forall|i: int|
            0 <= i < self.spec_chunks().len() ==> (#[trigger] self.spec_chunks()[i]).1.wf()
        &&& self.light.wf()
        &&& self.camera.wf()
    }

    /// Whether some entry carries the index.
    pub open spec fn spec_has(&self, idx: ChunkIndex) -> bool {
        exists|i: int| 0 <= i < self.spec_chunks().len() && (#[trigger] self.spec_chunks()[i]).0
            == idx
    }

    /// A scene with no chunks, the default light, and a camera.
    pub fn with_camera(camera: OrientedCamera) -> (s: Scene)
        requires
            camera.wf(),
        ensures
            s.wf(),
            s.spec_chunks() == Seq::<(ChunkIndex, Chunk)>::empty(),
            s.camera == camera,
            s.light == (Light {
                direction: Vec3 {
                    x: Rat { n: 0, d: 1 },
                    y: Rat { n: -1i64, d: 1 },
                    z: Rat { n: 0, d: 1 },
                },
                color: (Rat { n: 1, d: 1 }, Rat { n: 1, d: 1 }, Rat { n: 1, d: 1 }),
                intensity: Rat { n: 1, d: 1 },
            }),
    {
        let s = Scene { chunks: Vec::new(), light: Light::default(), camera };
        proof {
            assert(s.chunks@ =~= Seq::<(ChunkIndex, Chunk)>::empty());
        }
        s
    }

    /// Adds a chunk under an index not yet present; returns whether it
    /// was added, and changes nothing when the index is taken.
    pub fn add_chunk(&mut self, idx: ChunkIndex, chunk: Chunk) -> (added: bool)
        requires
            old(self).wf(),
            chunk.wf(),
        ensures
            final(self).wf(),
            added == !old(self).spec_has(idx),
            added ==> final(self).spec_chunks() == old(self).spec_chunks().push((idx, chunk)),
            !added ==> *final(self) == *old(self),
            final(self).camera == old(self).camera,
            final(self).light == old(self).light,
    {
        let len = self.chunks.len();
        let mut i: usize = 0;
        while i < len
            invariant
                i <= len,
                len == self.spec_chunks().len(),
                old(self).wf(),
                chunk.wf(),
                *self == *old(self),
                forall|j: int| 0 <= j < i ==> (#[trigger] self.spec_chunks()[j]).0 != idx,
            decreases len - i,
        {
            let (k, _) = &self.chunks[i];
            if k.0 == idx.0 && k.1 == idx.1 && k.2 == idx.2 {
                proof {
                    assert(self.spec_chunks()[i as int].0 == idx);
                }
                return false;
            }
            i = i + 1;
        }
        self.chunks.push((idx, chunk));
        proof {
            assert(!old(self).spec_has(idx));
            assert forall|a: int, b: int| 0 <= a < b < self.spec_chunks().len() implies (
            #[trigger] self.spec_chunks()[a]).0 != (#[trigger] self.spec_chunks()[b]).0 by {
                if b == self.spec_chunks().len() - 1 {
                    assert(self.spec_chunks()[a] == old(self).spec_chunks()[a]);
                }
            }
        }
        true
    }

    /// The chunk stored under an index, if any.
    pub fn get_chunk(&self, idx: ChunkIndex) -> (r: Option<&Chunk>)
        requires
            self.wf(),
        ensures
            r is Some <==> self.spec_has(idx),
            r matches Some(c) ==> exists|i: int|
                0 <= i < self.spec_chunks().len() && #[trigger] self.spec_chunks()[i] == (idx, *c),
    {
        let len = self.chunks.len();
        let mut i: usize = 0;
        while i < len
            invariant
                i <= len,
                len == self.spec_chunks().len(),
                forall|j: int| 0 <= j < i ==> (#[trigger] self.spec_chunks()[j]).0 != idx,
            decreases len - i,
        {
            let (k, _) = &self.chunks[i];
            if k.0 == idx.0 && k.1 == idx.1 && k.2 == idx.2 {
                proof {
                    assert(self.spec_chunks()[i as int].0 == idx);
                }
                return Some(&self.chunks[i].1);
            }
            i = i + 1;
        }
        Option::None
    }

    /// All chunk entries, for the per-chunk draw loop.
    pub fn get_chunks(&self) -> (r: &Vec<(ChunkIndex, Chunk)>)
        ensures
            r@ == self.spec_chunks(),
    {
        &self.chunks
    }
}

impl Default for Scene {
    /// The startup scene: a procedurally filled chunk at the origin, the
    /// pixel-art chunk beside it, the default light, and a camera a few
    /// units back along the viewing axis.
    fn default() -> (s: Scene)
        ensures
            s.wf(),
            s.spec_chunks().len() == 2,
            s.spec_chunks()[0].0 == (0i64, 0i64, 0i64),
            forall|x: int, y: int, z: int|
                0 <= x < DIMENSIONS && 0 <= y < DIMENSIONS && 0 <= z < DIMENSIONS
                    ==> s.spec_chunks()[0].1.at(x, y, z) == spec_random_cell(x, y, z),
            s.spec_chunks()[1].0 == (1i64, 0i64, 0i64),
            forall|px: int, py: int|
                0 <= px < CAT_COLS && 0 <= py < CAT_ROWS ==> s.spec_chunks()[1].1.at(
                    10 + px,
                    DIMENSIONS as int / 2,
                    DIMENSIONS - py - 10,
                ) == spec_cat_cell(px, py),
            forall|x: int, y: int, z: int|
                0 <= x < DIMENSIONS && 0 <= y < DIMENSIONS && 0 <= z < DIMENSIONS
                    && !spec_on_cat_wall(x, y, z) ==> s.spec_chunks()[1].1.at(x, y, z) is None,
            s.camera == (OrientedCamera {
                pos: Vec3 {
                    x: Rat { n: 0, d: 1 },
                    y: Rat { n: -5i64, d: 1 },
                    z: Rat { n: 0, d: 1 },
                },
                orientation: Quaternion::spec_identity(),
            }),
    {
        let camera = OrientedCamera {
            pos: Vec3::new(Rat::zero(), Rat::new(-5, 1), Rat::zero()),
            orientation: Quaternion::default(),
        };
        let mut s = Scene::with_camera(camera);
        let added_random = s.add_chunk((0, 0, 0), Chunk::random());
        let added_cat = s.add_chunk((1, 0, 0), Chunk::cat());
        proof {
            assert(added_random);
            assert(added_cat);
        }
        s
    }
}

} // verus!
