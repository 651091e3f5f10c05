//! Concrete sprite identifiers.
//!
//! A `TileIndex` is an opaque tag for one sprite of the tile sheet.  The
//! renderer turns it into a source rectangle through `atlas_index`, a fixed
//! lookup into a sheet of 64 columns; nothing in the grid algebra depends
//! on those numbers.

use vstd::prelude::*;

verus! {

/// One sprite of the tile sheet.
#[derive(Clone, Copy, Debug, PartialEq, Eq, Structural)]
pub enum TileIndex {
    GrassDark,
    GrassLight,
    GrassSpottedLight1,
    GrassSpottedLight2,
    GrassSpottedLight3,
    GrassSpottedLight4,
    GrassSpottedLight5,
    GrassSpottedLight6,
    GrassSpottedLight7,
    GrassDiagonal,
    GrassGrid,
    Ocean1,
    Ocean2,
    Ocean3,
    Ocean4,
    Ocean5,
    Ocean6,
    Ocean7,
    Ocean8,
    Ocean9,
    Ocean10,
    Ocean11,
    Ocean12,
    Ocean13,
    Ocean14,
    Ocean15,
    Ocean16,
    Sand,
    SandSpotted1,
    SandSpotted2,
    SandSpotted3,
    SandEdgeTop,
    SandEdgeBottom,
    SandEdgeLeft,
    SandEdgeRight,
    SandEdgeTopLeft,
    SandEdgeTopRight,
    SandEdgeBottomLeft,
    SandEdgeBottomRight,
    SandCornerTopLeft,
    SandCornerTopRight,
    SandCornerBottomLeft,
    SandCornerBottomRight,
}

/// The position of each sprite in the tile sheet, counting tiles from 1 in
/// rows of 64, as the sheet's accompanying map file does.
pub open spec fn spec_atlas_index(t: TileIndex) -> u16 {
    match t {
        TileIndex::GrassDark => 66,
        TileIndex::GrassLight => 67,
        TileIndex::GrassSpottedLight1 => 130,
        TileIndex::GrassSpottedLight2 => 131,
        TileIndex::GrassSpottedLight3 => 132,
        TileIndex::GrassSpottedLight4 => 196,
        TileIndex::GrassSpottedLight5 => 197,
        TileIndex::GrassSpottedLight6 => 258,
        TileIndex::GrassSpottedLight7 => 259,
        TileIndex::GrassDiagonal => 193,
        TileIndex::GrassGrid => 194,
        TileIndex::Ocean1 => 1164,
        TileIndex::Ocean2 => 1165,
        TileIndex::Ocean3 => 1166,
        TileIndex::Ocean4 => 1167,
        TileIndex::Ocean5 => 1228,
        TileIndex::Ocean6 => 1229,
        TileIndex::Ocean7 => 1230,
        TileIndex::Ocean8 => 1231,
        TileIndex::Ocean9 => 1292,
        TileIndex::Ocean10 => 1293,
        TileIndex::Ocean11 => 1294,
        TileIndex::Ocean12 => 1295,
        TileIndex::Ocean13 => 1356,
        TileIndex::Ocean14 => 1357,
        TileIndex::Ocean15 => 1358,
        TileIndex::Ocean16 => 1359,
        TileIndex::Sand => 70,
        TileIndex::SandSpotted1 => 72,
        TileIndex::SandSpotted2 => 73,
        TileIndex::SandSpotted3 => 74,
        TileIndex::SandEdgeTop => 1799,
        TileIndex::SandEdgeBottom => 2055,
        TileIndex::SandEdgeLeft => 1925,
        TileIndex::SandEdgeRight => 1929,
        TileIndex::SandEdgeTopLeft => 1862,
        TileIndex::SandEdgeTopRight => 1864,
        TileIndex::SandEdgeBottomLeft => 1990,
        TileIndex::SandEdgeBottomRight => 1992,
        TileIndex::SandCornerTopLeft => 1798,
        TileIndex::SandCornerTopRight => 1800,
        TileIndex::SandCornerBottomLeft => 2054,
        TileIndex::SandCornerBottomRight => 2056,
    }
}

/// How a character travels over a tile: open water only lets them idle
/// in place, land can be walked, and rolling is a faster gait gameplay
/// may trigger on walkable ground.
#[allow(non_camel_case_types)]
#[derive(Clone, Copy, Debug, PartialEq, Eq, Structural)]
pub enum CharacterAction {
    IDLE,
    ROLL,
    WALKING,
}

/// Whether a sprite belongs to the ocean's water pattern.
pub open spec fn is_ocean_tile(t: TileIndex) -> bool {
    ||| t == TileIndex::Ocean1
    ||| t == TileIndex::Ocean2
    ||| t == TileIndex::Ocean3
    ||| t == TileIndex::Ocean4
    ||| t == TileIndex::Ocean5
    ||| t == TileIndex::Ocean6
    ||| t == TileIndex::Ocean7
    ||| t == TileIndex::Ocean8
    ||| t == TileIndex::Ocean9
    ||| t == TileIndex::Ocean10
    ||| t == TileIndex::Ocean11
    ||| t == TileIndex::Ocean12
    ||| t == TileIndex::Ocean13
    ||| t == TileIndex::Ocean14
    ||| t == TileIndex::Ocean15
    ||| t == TileIndex::Ocean16
}

impl TileIndex {
    /// The sprite's position in the tile sheet.
    pub fn atlas_index(&self) -> (r: u16)
        ensures
            r == spec_atlas_index(*self),
    {
        match *self {
            TileIndex::GrassDark => 66,
            TileIndex::GrassLight => 67,
            TileIndex::GrassSpottedLight1 => 130,
            TileIndex::GrassSpottedLight2 => 131,
            TileIndex::GrassSpottedLight3 => 132,
            TileIndex::GrassSpottedLight4 => 196,
            TileIndex::GrassSpottedLight5 => 197,
            TileIndex::GrassSpottedLight6 => 258,
            TileIndex::GrassSpottedLight7 => 259,
            TileIndex::GrassDiagonal => 193,
            TileIndex::GrassGrid => 194,
            TileIndex::Ocean1 => 1164,
            TileIndex::Ocean2 => 1165,
            TileIndex::Ocean3 => 1166,
            TileIndex::Ocean4 => 1167,
            TileIndex::Ocean5 => 1228,
            TileIndex::Ocean6 => 1229,
            TileIndex::Ocean7 => 1230,
            TileIndex::Ocean8 => 1231,
            TileIndex::Ocean9 => 1292,
            TileIndex::Ocean10 => 1293,
            TileIndex::Ocean11 => 1294,
            TileIndex::Ocean12 => 1295,
            TileIndex::Ocean13 => 1356,
            TileIndex::Ocean14 => 1357,
            TileIndex::Ocean15 => 1358,
            TileIndex::Ocean16 => 1359,
            TileIndex::Sand => 70,
            TileIndex::SandSpotted1 => 72,
            TileIndex::SandSpotted2 => 73,
            TileIndex::SandSpotted3 => 74,
            TileIndex::SandEdgeTop => 1799,
            TileIndex::SandEdgeBottom => 2055,
            TileIndex::SandEdgeLeft => 1925,
            TileIndex::SandEdgeRight => 1929,
            TileIndex::SandEdgeTopLeft => 1862,
            TileIndex::SandEdgeTopRight => 1864,
            TileIndex::SandEdgeBottomLeft => 1990,
            TileIndex::SandEdgeBottomRight => 1992,
            TileIndex::SandCornerTopLeft => 1798,
            TileIndex::SandCornerTopRight => 1800,
            TileIndex::SandCornerBottomLeft => 2054,
            TileIndex::SandCornerBottomRight => 2056,
        }
    }

    /// How a character moves over this sprite: idle on water, walking
    /// anywhere else.
    pub fn move_action(&self) -> (r: CharacterAction)
        ensures
            is_ocean_tile(*self) ==> r == CharacterAction::IDLE,
            !is_ocean_tile(*self) ==> r == CharacterAction::WALKING,
    {
        match *self {
            TileIndex::Ocean1
            | TileIndex::Ocean2
            | TileIndex::Ocean3
            | TileIndex::Ocean4
            | TileIndex::Ocean5
            | TileIndex::Ocean6
            | TileIndex::Ocean7
            | TileIndex::Ocean8
            | TileIndex::Ocean9
            | TileIndex::Ocean10
            | TileIndex::Ocean11
            | TileIndex::Ocean12
            | TileIndex::Ocean13
            | TileIndex::Ocean14
            | TileIndex::Ocean15
            | TileIndex::Ocean16 => CharacterAction::IDLE,
            _ => CharacterAction::WALKING,
        }
    }
}

} // verus!
