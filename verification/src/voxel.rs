//! Voxels: a cell of a chunk is either empty or carries an RGBA color.

use vstd::prelude::*;

verus! {

/// A packed RGBA color, one byte per channel, red in the highest byte.
pub type Color = u32;

/// The color of one grid cell, as four bytes `[r, g, b, a]`.
pub type Rgba = [u8; 4];

/// A voxel drawn from a small named palette; `Empty` is empty space.
#[derive(Clone, Copy, PartialEq, Eq, Structural, Debug)]
pub enum Voxel {
    Empty,
    White,
    Black,
    Red,
    Green,
    Blue,
}

/// The packed color a palette entry stands for.
pub open spec fn spec_color(v: Voxel) -> Color {
    match v {
        Voxel::Empty => spec_color_from_bytes(0, 0, 0, 0),
        Voxel::White => spec_color_from_bytes(255, 255, 255, 255),
        Voxel::Black => spec_color_from_bytes(0, 0, 0, 255),
        Voxel::Red => spec_color_from_bytes(255, 0, 0, 255),
        Voxel::Green => spec_color_from_bytes(0, 255, 0, 255),
        Voxel::Blue => spec_color_from_bytes(0, 0, 255, 255),
    }
}

/// Bytes packed big-endian: red highest, alpha lowest.
pub open spec fn spec_color_from_bytes(r: u8, g: u8, b: u8, a: u8) -> Color {
    (r * 0x1000000 + g * 0x10000 + b * 0x100 + a) as Color
}

/// The color bytes a palette entry stands for; empty space has none.
pub open spec fn spec_rgba(v: Voxel) -> Option<Rgba> {
    match v {
        Voxel::Empty => Option::None,
        Voxel::White => Some([255u8, 255u8, 255u8, 255u8]),
        Voxel::Black => Some([0u8, 0u8, 0u8, 255u8]),
        Voxel::Red => Some([255u8, 0u8, 0u8, 255u8]),
        Voxel::Green => Some([0u8, 255u8, 0u8, 255u8]),
        Voxel::Blue => Some([0u8, 0u8, 255u8, 255u8]),
    }
}

impl Voxel {
    /// The palette entry for an arbitrary seed, cycling through all six.
    pub fn from(i: u32) -> (v: Self)
        ensures
            v == Self::spec_from(i),
    {
        match i % 6 {
            0 => Voxel::Empty,
            1 => Voxel::White,
            2 => Voxel::Black,
            3 => Voxel::Red,
            4 => Voxel::Green,
            _ => Voxel::Blue,
        }
    }

    pub open spec fn spec_from(i: u32) -> Voxel {
        if i % 6 == 0 {
            Voxel::Empty
        } else if i % 6 == 1 {
            Voxel::White
        } else if i % 6 == 2 {
            Voxel::Black
        } else if i % 6 == 3 {
            Voxel::Red
        } else if i % 6 == 4 {
            Voxel::Green
        } else {
            Voxel::Blue
        }
    }

    /// The packed RGBA color of this palette entry.
    pub fn color(&self) -> (c: Color)
        ensures
            c == spec_color(*self),
    {
        match self {
            Voxel::Empty => Self::color_from_bytes(0, 0, 0, 0),
            Voxel::White => Self::color_from_bytes(255, 255, 255, 255),
            Voxel::Black => Self::color_from_bytes(0, 0, 0, 255),
            Voxel::Red => Self::color_from_bytes(255, 0, 0, 255),
            Voxel::Green => Self::color_from_bytes(0, 255, 0, 255),
            Voxel::Blue => Self::color_from_bytes(0, 0, 255, 255),
        }
    }

    /// The color bytes of this palette entry, `None` for empty space.
    pub fn rgba(&self) -> (c: Option<Rgba>)
        ensures
            c == spec_rgba(*self),
    {
        match self {
            Voxel::Empty => Option::None,
            Voxel::White => Some([255, 255, 255, 255]),
            Voxel::Black => Some([0, 0, 0, 255]),
            Voxel::Red => Some([255, 0, 0, 255]),
            Voxel::Green => Some([0, 255, 0, 255]),
            Voxel::Blue => Some([0, 0, 255, 255]),
        }
    }

    /// Packs four channel bytes into one word, red highest.
    pub fn color_from_bytes(r: u8, g: u8, b: u8, a: u8) -> (c: Color)
        ensures
            c == spec_color_from_bytes(r, g, b, a),
    {
        let color: u32 = (r as u32) * 0x1000000 + (g as u32) * 0x10000 + (b as u32) * 0x100
            + (a as u32);
        color
    }
}

} // verus!
