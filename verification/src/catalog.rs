//! Per-layer sprite tables.
//!
//! A catalog says which concrete sprites a layer uses for each role:
//! interchangeable *center* fillers, the eight directional *edge* sprites,
//! and the four diagonal *corner* sprites.  The generation passes are
//! generic over this mapping; each layer kind supplies its own fixed
//! catalog.  The boundary sprites stand apart in a plain value so that
//! contracts can write a whole catalog down literally.

use vstd::prelude::*;

use crate::tileset::TileIndex;

verus! {

/// The eight edge sprites and four corner sprites of one layer kind.
#[derive(Clone, Copy, Debug, PartialEq, Eq, Structural)]
pub struct BoundarySprites {
    pub top_edge: TileIndex,
    pub top_right_edge: TileIndex,
    pub right_edge: TileIndex,
    pub bottom_right_edge: TileIndex,
    pub bottom_edge: TileIndex,
    pub bottom_left_edge: TileIndex,
    pub left_edge: TileIndex,
    pub top_left_edge: TileIndex,
    pub top_right_corner: TileIndex,
    pub top_left_corner: TileIndex,
    pub bottom_right_corner: TileIndex,
    pub bottom_left_corner: TileIndex,
}

impl BoundarySprites {
    /// Whether `t` serves as one of the eight edge sprites.
    pub open spec fn is_edge_tile(self, t: TileIndex) -> bool {
        ||| t == self.top_edge
        ||| t == self.top_right_edge
        ||| t == self.right_edge
        ||| t == self.bottom_right_edge
        ||| t == self.bottom_edge
        ||| t == self.bottom_left_edge
        ||| t == self.left_edge
        ||| t == self.top_left_edge
    }

    /// Whether `t` serves as one of the four corner sprites.
    pub open spec fn is_corner_tile(self, t: TileIndex) -> bool {
        ||| t == self.top_right_corner
        ||| t == self.top_left_corner
        ||| t == self.bottom_right_corner
        ||| t == self.bottom_left_corner
    }

    /// No sprite serves as both an edge and a corner.
    pub open spec fn edges_corners_disjoint(self) -> bool {
        forall|t: TileIndex| !(self.is_edge_tile(t) && self.is_corner_tile(t))
    }
}

/// The sprites a layer assigns to each tile role.
pub struct TileCatalog {
    pub centers: Vec<TileIndex>,
    pub sprites: BoundarySprites,
}

impl TileCatalog {
    /// A usable catalog: the center role is populated (a catalog missing
    /// it is a configuration error) and small enough to draw from.
    pub open spec fn wf(self) -> bool {
        1 <= self.centers@.len() <= 64
    }

    /// No center sprite doubles as an edge or corner sprite, so a cell's
    /// sprite says whether the cell is land.
    pub open spec fn centers_not_boundary(self) -> bool {
        forall|t: TileIndex|
            self.centers@.contains(t) ==> !self.sprites.is_edge_tile(t)
                && !self.sprites.is_corner_tile(t)
    }
}

} // verus!
