//! World-space units and the conversion to tile coordinates.
//!
//! A world position is an integer pair of world units; one tile spans
//! `TILE_SIZE` units.  Converting a position to a tile coordinate is a
//! flooring division, and a box's far corner converts with a ceiling
//! division; both are defined here once, over mathematical integers, and
//! used by every query.

use vstd::prelude::*;

verus! {

/// The side of one tile in world units.
pub const TILE_SIZE: i64 = 16;

/// Magnitude bound on the world coordinates a query may pass; keeps every
/// sum and difference inside `i64`.
pub const COORD_LIMIT: i64 = 0x100_0000_0000;

/// A point (or extent) in world units.
#[derive(Clone, Copy, Debug, PartialEq, Eq, Structural)]
pub struct WorldPoint {
    pub x: i64,
    pub y: i64,
}

/// The tile coordinate containing world coordinate `v`: the floor of
/// `v / 16`.  Since the divisor is positive, Euclidean division is the
/// floor.
pub open spec fn tile_floor(v: int) -> int {
    v / 16
}

/// The first tile coordinate past world coordinate `v`: the ceiling of
/// `v / 16`.
pub open spec fn tile_ceil(v: int) -> int {
    (v + 15) / 16
}

/// Flooring division of a world coordinate by the tile size.
pub fn div_floor_tile(v: i64) -> (r: i64)
    requires
        i64::MIN + 16 < v < i64::MAX - 16,
    ensures
        r == tile_floor(v as int),
{
    if v >= 0 {
        v / 16
    } else {
        let u: i64 = -v;
        let q0: i64 = (u + 15) / 16;
        proof {
            vstd::arithmetic::div_mod::lemma_fundamental_div_mod_converse(
                v as int,
                16,
                -(q0 as int),
                v as int + 16 * (q0 as int),
            );
        }
        -q0
    }
}

/// Ceiling division of a world coordinate by the tile size.
pub fn div_ceil_tile(v: i64) -> (r: i64)
    requires
        i64::MIN + 32 < v < i64::MAX - 32,
    ensures
        r == tile_ceil(v as int),
{
    div_floor_tile(v + 15)
}

} // verus!
