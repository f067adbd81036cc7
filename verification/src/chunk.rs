//! A chunk: the fixed-size cubic voxel grid that is the unit of scene
//! storage and meshing.

use vstd::prelude::*;

use crate::voxel::{Rgba, Voxel};

verus! {

/// One grid cell: either empty space or a colored voxel.
pub type Cell = Option<Rgba>;

/// Side length of the cubic grid.
pub const DIMENSIONS: usize = 32;

/// A cubic grid of `DIMENSIONS`^3 cells, stored flat.
///
/// Cell `(x, y, z)` lives at flat index `(z * D + y) * D + x`; every
/// constructor establishes `wf()` and every accessor preserves it.
pub struct Chunk {
    voxels: Vec<Cell>,
}

/// Flat index of cell `(x, y, z)`.
pub open spec fn spec_index(x: int, y: int, z: int) -> int {
    (z * DIMENSIONS + y) * DIMENSIONS + x
}

impl Chunk {
    /// The grid holds exactly one cell for each coordinate triple.
    pub closed spec fn wf(&self) -> bool {
        self.voxels.len() == DIMENSIONS * DIMENSIONS * DIMENSIONS
    }

    /// The cell at `(x, y, z)`.
    pub closed spec fn at(&self, x: int, y: int, z: int) -> Cell {
        self.voxels[spec_index(x, y, z)]
    }

    proof fn lemma_index_bounds(x: int, y: int, z: int)
        requires
            0 <= x < DIMENSIONS,
            0 <= y < DIMENSIONS,
            0 <= z < DIMENSIONS,
        ensures
            0 <= spec_index(x, y, z) < DIMENSIONS * DIMENSIONS * DIMENSIONS,
    {
    }

    /// A chunk with every cell empty.
    pub fn empty() -> (c: Self)
        ensures
            c.wf(),
            forall|x: int, y: int, z: int|
                0 <= x < DIMENSIONS && 0 <= y < DIMENSIONS && 0 <= z < DIMENSIONS ==> c.at(
                    x,
                    y,
                    z,
                ) is None,
    {
        let voxels: Vec<Cell> = vec![Option::None; DIMENSIONS * DIMENSIONS * DIMENSIONS];
        let c = Chunk { voxels };
        proof {
            assert forall|x: int, y: int, z: int|
                0 <= x < DIMENSIONS && 0 <= y < DIMENSIONS && 0 <= z < DIMENSIONS implies c.at(
                x,
                y,
                z,
            ) is None by {
                Self::lemma_index_bounds(x, y, z);
            }
        }
        c
    }

    /// Reads the cell at `(x, y, z)`.
    pub fn get(&self, x: usize, y: usize, z: usize) -> (cell: Cell)
        requires
            self.wf(),
            x < DIMENSIONS,
            y < DIMENSIONS,
            z < DIMENSIONS,
        ensures
            cell == self.at(x as int, y as int, z as int),
    {
        proof {
            Self::lemma_index_bounds(x as int, y as int, z as int);
        }
        self.voxels[(z * DIMENSIONS + y) * DIMENSIONS + x]
    }

    /// Replaces the cell at `(x, y, z)`; all other cells are unchanged.
    pub fn set(&mut self, x: usize, y: usize, z: usize, cell: Cell)
        requires
            old(self).wf(),
            x < DIMENSIONS,
            y < DIMENSIONS,
            z < DIMENSIONS,
        ensures
            final(self).wf(),
            final(self).at(x as int, y as int, z as int) == cell,
            forall|i: int, j: int, k: int|
                0 <= i < DIMENSIONS && 0 <= j < DIMENSIONS && 0 <= k < DIMENSIONS && !(i == x && j
                    == y && k == z) ==> final(self).at(i, j, k) == old(self).at(i, j, k),
    {
        proof {
            Self::lemma_index_bounds(x as int, y as int, z as int);
        }
        let idx: usize = (z * DIMENSIONS + y) * DIMENSIONS + x;
        self.voxels[idx] = cell;
        proof {
            assert forall|i: int, j: int, k: int|
                0 <= i < DIMENSIONS && 0 <= j < DIMENSIONS && 0 <= k < DIMENSIONS && !(i == x && j
                    == y && k == z) implies final(self).at(i, j, k) == old(self).at(i, j, k) by {
                Self::lemma_index_bounds(i, j, k);
                lemma_index_injective(i, j, k, x as int, y as int, z as int);
            }
        }
    }
}

/// A cell is done once the triple loop over `(x, y, z)` (x outermost) has
/// passed it, the loop standing at `(cx, cy, cz)`.
pub open spec fn spec_cell_done(i: int, j: int, k: int, cx: int, cy: int, cz: int) -> bool {
    i < cx || (i == cx && (j < cy || (j == cy && k < cz)))
}

/// The procedurally filled cell at `(x, y, z)`: roughly every 27th cell
/// gets a color derived from its coordinates.
pub open spec fn spec_random_cell(x: int, y: int, z: int) -> Cell {
    if (8 * x + 2 * y + 3 * z) % 27 == 0 {
        Some([(x * 23 % 255) as u8, (y * 224 % 255) as u8, (z * 25 % 255) as u8, 100u8])
    } else {
        Option::None
    }
}

/// The parity-filled cell at `(x, y, z)`: cells with an even coordinate sum
/// take their palette entry from that sum.
pub open spec fn spec_rand_cell(x: int, y: int, z: int) -> Cell {
    if (x + y + z) % 2 == 0 {
        crate::voxel::spec_rgba(Voxel::spec_from((x + y + z) as u32))
    } else {
        Option::None
    }
}

impl Chunk {
    /// A chunk filled procedurally from the cell coordinates.
    pub fn random() -> (c: Self)
        ensures
            c.wf(),
            forall|x: int, y: int, z: int|
                0 <= x < DIMENSIONS && 0 <= y < DIMENSIONS && 0 <= z < DIMENSIONS ==> c.at(x, y, z)
                    == spec_random_cell(x, y, z),
    {
        let mut c = Self::empty();
        for x in 0..DIMENSIONS
            invariant
                c.wf(),
                forall|i: int, j: int, k: int|
                    0 <= i < DIMENSIONS && 0 <= j < DIMENSIONS && 0 <= k < DIMENSIONS ==> c.at(
                        i,
                        j,
                        k,
                    ) == (if spec_cell_done(i, j, k, x as int, 0, 0) {
                        spec_random_cell(i, j, k)
                    } else {
                        Option::<Rgba>::None
                    }),
        {
            for y in 0..DIMENSIONS
                invariant
                    c.wf(),
                    x < DIMENSIONS,
                    forall|i: int, j: int, k: int|
                        0 <= i < DIMENSIONS && 0 <= j < DIMENSIONS && 0 <= k < DIMENSIONS ==> c.at(
                            i,
                            j,
                            k,
                        ) == (if spec_cell_done(i, j, k, x as int, y as int, 0) {
                            spec_random_cell(i, j, k)
                        } else {
                            Option::<Rgba>::None
                        }),
            {
                for z in 0..DIMENSIONS
                    invariant
                        c.wf(),
                        x < DIMENSIONS,
                        y < DIMENSIONS,
                        forall|i: int, j: int, k: int|
                            0 <= i < DIMENSIONS && 0 <= j < DIMENSIONS && 0 <= k < DIMENSIONS
                                ==> c.at(i, j, k) == (if spec_cell_done(
                                i,
                                j,
                                k,
                                x as int,
                                y as int,
                                z as int,
                            ) {
                                spec_random_cell(i, j, k)
                            } else {
                                Option::<Rgba>::None
                            }),
                {
                    let seed: usize = 8 * x + 2 * y + 3 * z;
                    if seed % 27 == 0 {
                        let cell: Cell = Some(
                            [(x * 23 % 255) as u8, (y * 224 % 255) as u8, (z * 25 % 255) as u8, 100],
                        );
                        c.set(x, y, z, cell);
                    }
                }
            }
        }
        c
    }

    /// A chunk filled by coordinate-sum parity with palette colors.
    pub fn rand() -> (c: Self)
        ensures
            c.wf(),
            forall|x: int, y: int, z: int|
                0 <= x < DIMENSIONS && 0 <= y < DIMENSIONS && 0 <= z < DIMENSIONS ==> c.at(x, y, z)
                    == spec_rand_cell(x, y, z),
    {
        let mut c = Self::empty();
        for x in 0..DIMENSIONS
            invariant
                c.wf(),
                forall|i: int, j: int, k: int|
                    0 <= i < DIMENSIONS && 0 <= j < DIMENSIONS && 0 <= k < DIMENSIONS ==> c.at(
                        i,
                        j,
                        k,
                    ) == (if spec_cell_done(i, j, k, x as int, 0, 0) {
                        spec_rand_cell(i, j, k)
                    } else {
                        Option::<Rgba>::None
                    }),
        {
            for y in 0..DIMENSIONS
                invariant
                    c.wf(),
                    x < DIMENSIONS,
                    forall|i: int, j: int, k: int|
                        0 <= i < DIMENSIONS && 0 <= j < DIMENSIONS && 0 <= k < DIMENSIONS ==> c.at(
                            i,
                            j,
                            k,
                        ) == (if spec_cell_done(i, j, k, x as int, y as int, 0) {
                            spec_rand_cell(i, j, k)
                        } else {
                            Option::<Rgba>::None
                        }),
            {
                for z in 0..DIMENSIONS
                    invariant
                        c.wf(),
                        x < DIMENSIONS,
                        y < DIMENSIONS,
                        forall|i: int, j: int, k: int|
                            0 <= i < DIMENSIONS && 0 <= j < DIMENSIONS && 0 <= k < DIMENSIONS
                                ==> c.at(i, j, k) == (if spec_cell_done(
                                i,
                                j,
                                k,
                                x as int,
                                y as int,
                                z as int,
                            ) {
                                spec_rand_cell(i, j, k)
                            } else {
                                Option::<Rgba>::None
                            }),
                {
                    let choice: usize = x + y + z;
                    if choice % 2 == 0 {
                        let voxel = Voxel::from(choice as u32);
                        c.set(x, y, z, voxel.rgba());
                    } else {
                        c.set(x, y, z, Option::None);
                    }
                }
            }
        }
        c
    }
}

/// Number of pixel-art rows in the cat picture.
pub const CAT_ROWS: usize = 17;

/// Number of pixel-art columns in the cat picture.
pub const CAT_COLS: usize = 18;

/// One row of the cat picture, 3 bits per column, column 0 lowest.
///
/// Palette codes: 0 empty, 1 white, 2 light gray, 3 dark gray, 4 near
/// black, 5 cyan, 6 orange, 7 pink.
pub open spec fn spec_cat_row(y: int) -> u64 {
    if y == 0 {
        0x00000920000920u64
    } else if y == 1 {
        0x0000084c924260u64
    } else if y == 2 {
        0x000008912494a0u64
    } else if y == 3 {
        0x000008892492a0u64
    } else if y == 4 {
        0x00000849249260u64
    } else if y == 5 {
        0x0000484c24c264u64
    } else if y == 6 {
        0x0000084e24d260u64
    } else if y == 7 {
        0x000048893c92a4u64
    } else if y == 8 {
        0x00000111249500u64
    } else if y == 9 {
        0x048008892492a0u64
    } else if y == 10 {
        0x21300849249260u64
    } else if y == 11 {
        0x21304449249254u64
    } else if y == 12 {
        0x21304449249254u64
    } else if y == 13 {
        0x212644c96592d4u64
    } else if y == 14 {
        0x042544ca65a2d4u64
    } else if y == 15 {
        0x0089289a69a6a0u64
    } else {
        0x00124924924900u64
    }
}

/// The color bytes behind a 3-bit palette code of the cat picture.
pub open spec fn spec_cat_palette(code: u64) -> Cell {
    if code == 1 {
        Some([255u8, 255u8, 255u8, 255u8])
    } else if code == 2 {
        Some([204u8, 207u8, 221u8, 255u8])
    } else if code == 3 {
        Some([67u8, 74u8, 103u8, 255u8])
    } else if code == 4 {
        Some([20u8, 20u8, 20u8, 255u8])
    } else if code == 5 {
        Some([3u8, 157u8, 227u8, 255u8])
    } else if code == 6 {
        Some([234u8, 117u8, 17u8, 255u8])
    } else if code == 7 {
        Some([235u8, 128u8, 193u8, 255u8])
    } else {
        Option::None
    }
}

/// The cat-picture cell at picture column `px` and picture row `py`.
pub open spec fn spec_cat_cell(px: int, py: int) -> Cell {
    spec_cat_palette((spec_cat_row(py) >> (3 * px) as u64) & 7u64)
}

/// Whether grid cell `(x, y, z)` lies on the wall the cat is painted on:
/// the picture occupies one slab of the grid, rows stacked downward in z.
pub open spec fn spec_on_cat_wall(x: int, y: int, z: int) -> bool {
    10 <= x < 10 + CAT_COLS && y == DIMENSIONS / 2 && DIMENSIONS - (CAT_ROWS - 1) - 10 <= z
        <= DIMENSIONS - 10
}

impl Chunk {
    /// The bit-packed row constants of the cat picture.
    fn cat_row(y: usize) -> (r: u64)
        requires
            y < CAT_ROWS,
        ensures
            r == spec_cat_row(y as int),
    {
        if y == 0 {
            0x00000920000920
        } else if y == 1 {
            0x0000084c924260
        } else if y == 2 {
            0x000008912494a0
        } else if y == 3 {
            0x000008892492a0
        } else if y == 4 {
            0x00000849249260
        } else if y == 5 {
            0x0000484c24c264
        } else if y == 6 {
            0x0000084e24d260
        } else if y == 7 {
            0x000048893c92a4
        } else if y == 8 {
            0x00000111249500
        } else if y == 9 {
            0x048008892492a0
        } else if y == 10 {
            0x21300849249260
        } else if y == 11 {
            0x21304449249254
        } else if y == 12 {
            0x21304449249254
        } else if y == 13 {
            0x212644c96592d4
        } else if y == 14 {
            0x042544ca65a2d4
        } else if y == 15 {
            0x0089289a69a6a0
        } else {
            0x00124924924900
        }
    }

    /// Decodes a 3-bit palette code of the cat picture.
    fn cat_palette(code: u64) -> (c: Cell)
        ensures
            c == spec_cat_palette(code),
    {
        if code == 1 {
            Some([255, 255, 255, 255])
        } else if code == 2 {
            Some([204, 207, 221, 255])
        } else if code == 3 {
            Some([67, 74, 103, 255])
        } else if code == 4 {
            Some([20, 20, 20, 255])
        } else if code == 5 {
            Some([3, 157, 227, 255])
        } else if code == 6 {
            Some([234, 117, 17, 255])
        } else if code == 7 {
            Some([235, 128, 193, 255])
        } else {
            Option::None
        }
    }

    /// A chunk holding a pixel-art cat on one vertical wall of the grid;
    /// every cell off that wall is empty.
    pub fn cat() -> (c: Self)
        ensures
            c.wf(),
            forall|px: int, py: int|
                0 <= px < CAT_COLS && 0 <= py < CAT_ROWS ==> c.at(
                    10 + px,
                    DIMENSIONS as int / 2,
                    DIMENSIONS - py - 10,
                ) == spec_cat_cell(px, py),
            forall|x: int, y: int, z: int|
                0 <= x < DIMENSIONS && 0 <= y < DIMENSIONS && 0 <= z < DIMENSIONS
                    && !spec_on_cat_wall(x, y, z) ==> c.at(x, y, z) is None,
    {
        let mut c = Self::empty();
        for py in 0..CAT_ROWS
            invariant
                c.wf(),
                forall|px: int, qy: int|
                    0 <= px < CAT_COLS && 0 <= qy < py ==> c.at(
                        10 + px,
                        DIMENSIONS as int / 2,
                        DIMENSIONS - qy - 10,
                    ) == spec_cat_cell(px, qy),
                forall|x: int, y: int, z: int|
                    0 <= x < DIMENSIONS && 0 <= y < DIMENSIONS && 0 <= z < DIMENSIONS && !(10 <= x
                        < 10 + CAT_COLS && y == DIMENSIONS / 2 && DIMENSIONS - py < z + 10
                        <= DIMENSIONS) ==> c.at(x, y, z) is None,
        {
            let row = Self::cat_row(py);
            for px in 0..CAT_COLS
                invariant
                    c.wf(),
                    py < CAT_ROWS,
                    row == spec_cat_row(py as int),
                    forall|qx: int, qy: int|
                        0 <= qx < CAT_COLS && 0 <= qy < py ==> c.at(
                            10 + qx,
                            DIMENSIONS as int / 2,
                            DIMENSIONS - qy - 10,
                        ) == spec_cat_cell(qx, qy),
                    forall|qx: int|
                        0 <= qx < px ==> c.at(
                            10 + qx,
                            DIMENSIONS as int / 2,
                            DIMENSIONS - py - 10,
                        ) == spec_cat_cell(qx, py as int),
                    forall|x: int, y: int, z: int|
                        0 <= x < DIMENSIONS && 0 <= y < DIMENSIONS && 0 <= z < DIMENSIONS && !(10
                            <= x < 10 + CAT_COLS && y == DIMENSIONS / 2 && DIMENSIONS - py - 1 < z
                            + 10 <= DIMENSIONS) ==> c.at(x, y, z) is None,
            {
                let code: u64 = (row >> ((3 * px) as u64)) & 7;
                let cell = Self::cat_palette(code);
                c.set(10 + px, DIMENSIONS / 2, DIMENSIONS - py - 10, cell);
            }
        }
        c
    }
}

/// Distinct coordinate triples map to distinct flat indices.
proof fn lemma_index_injective(x1: int, y1: int, z1: int, x2: int, y2: int, z2: int)
    requires
        0 <= x1 < DIMENSIONS,
        0 <= y1 < DIMENSIONS,
        0 <= z1 < DIMENSIONS,
        0 <= x2 < DIMENSIONS,
        0 <= y2 < DIMENSIONS,
        0 <= z2 < DIMENSIONS,
        !(x1 == x2 && y1 == y2 && z1 == z2),
    ensures
        spec_index(x1, y1, z1) != spec_index(x2, y2, z2),
{
}

} // verus!
