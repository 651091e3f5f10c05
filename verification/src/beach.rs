//! The island/beach layer: sand terrain generated over the ocean.

use vstd::prelude::*;

use crate::catalog::{BoundarySprites, TileCatalog};
use crate::geom::{COORD_LIMIT, WorldPoint, div_floor_tile, tile_floor};
use crate::grid::{MAX_DIM, TileGrid, on_grid};
use crate::layer::{ConfigError, layer_centroid, layer_model};
use crate::rng::seed_state;
use crate::tileset::TileIndex;

verus! {

/// The containment tolerance the beach walk uses: a generous overflow
/// beyond the nominal ellipse.
pub const BEACH_TOLERANCE: u32 = 32;

/// The sand center sprites.
pub open spec fn beach_centers() -> Seq<TileIndex> {
    seq![
        TileIndex::Sand,
        TileIndex::SandSpotted1,
        TileIndex::SandSpotted2,
        TileIndex::SandSpotted3,
    ]
}

/// The sand edge and corner sprites.
pub open spec fn beach_sprites() -> BoundarySprites {
    BoundarySprites {
        top_edge: TileIndex::SandEdgeTop,
        top_right_edge: TileIndex::SandEdgeTopRight,
        right_edge: TileIndex::SandEdgeRight,
        bottom_right_edge: TileIndex::SandEdgeBottomRight,
        bottom_edge: TileIndex::SandEdgeBottom,
        bottom_left_edge: TileIndex::SandEdgeBottomLeft,
        left_edge: TileIndex::SandEdgeLeft,
        top_left_edge: TileIndex::SandEdgeTopLeft,
        top_right_corner: TileIndex::SandCornerTopRight,
        top_left_corner: TileIndex::SandCornerTopLeft,
        bottom_right_corner: TileIndex::SandCornerBottomRight,
        bottom_left_corner: TileIndex::SandCornerBottomLeft,
    }
}

/// The beach layer's cells and final rng state for a seed.
pub open spec fn beach_layer_model(width: usize, height: usize, seed: u64) -> (
    Seq<Option<TileIndex>>,
    u64,
) {
    layer_model(width, height, BEACH_TOLERANCE, beach_centers(), beach_sprites(), seed_state(seed))
}

/// A generated sand layer and its spawn-anchor centroid.
pub struct BeachLayer {
    pub tiles: TileGrid,
    pub center: WorldPoint,
}

impl BeachLayer {
    /// The grid is well-formed.
    pub open spec fn wf(self) -> bool {
        self.tiles.wf()
    }

    /// The beach sprite catalog.
    pub fn catalog() -> (c: TileCatalog)
        ensures
            c.centers@ == beach_centers(),
            c.sprites == beach_sprites(),
            c.wf(),
            c.centers_not_boundary(),
            c.sprites.edges_corners_disjoint(),
    {
        let mut centers: Vec<TileIndex> = Vec::new();
        centers.push(TileIndex::Sand);
        centers.push(TileIndex::SandSpotted1);
        centers.push(TileIndex::SandSpotted2);
        centers.push(TileIndex::SandSpotted3);
        let c = TileCatalog {
            centers,
            sprites: BoundarySprites {
                top_edge: TileIndex::SandEdgeTop,
                top_right_edge: TileIndex::SandEdgeTopRight,
                right_edge: TileIndex::SandEdgeRight,
                bottom_right_edge: TileIndex::SandEdgeBottomRight,
                bottom_edge: TileIndex::SandEdgeBottom,
                bottom_left_edge: TileIndex::SandEdgeBottomLeft,
                left_edge: TileIndex::SandEdgeLeft,
                top_left_edge: TileIndex::SandEdgeTopLeft,
                top_right_corner: TileIndex::SandCornerTopRight,
                top_left_corner: TileIndex::SandCornerTopLeft,
                bottom_right_corner: TileIndex::SandCornerBottomRight,
                bottom_left_corner: TileIndex::SandCornerBottomLeft,
            },
        };
        proof {
            assert(c.centers@ =~= beach_centers());
            assert forall|t: TileIndex| c.centers@.contains(t) implies !c.sprites.is_edge_tile(t)
                && !c.sprites.is_corner_tile(t) by {
                let i = choose|i: int| 0 <= i < c.centers@.len() && c.centers@[i] == t;
                assert(i == 0 || i == 1 || i == 2 || i == 3);
            }
        }
        c
    }

    /// Generates a beach layer from a seed counter, which is advanced so
    /// that a following layer draws differently.  Dimension errors are
    /// returned if and only if a dimension is zero or above `MAX_DIM`.
    pub fn new(seed: &mut u64, width: usize, height: usize) -> (r: Result<BeachLayer, ConfigError>)
        requires
            *old(seed) < u64::MAX,
        ensures
            *final(seed) == *old(seed) + 1,
            r is Ok <==> (1 <= width <= MAX_DIM && 1 <= height <= MAX_DIM),
            (width == 0 || height == 0) ==> r == Result::<BeachLayer, ConfigError>::Err(
                ConfigError::ZeroDimension,
            ),
            (!(width == 0 || height == 0) && (width > MAX_DIM || height > MAX_DIM)) ==> r
                == Result::<BeachLayer, ConfigError>::Err(ConfigError::DimensionTooLarge),
            r is Ok ==> ({
                let out = r->Ok_0;
                let m = beach_layer_model(width, height, *old(seed));
                let c = layer_centroid(width, height, BEACH_TOLERANCE, seed_state(*old(seed)));
                &&& out.wf()
                &&& out.tiles.width == width
                &&& out.tiles.height == height
                &&& out.tiles.cells@ == m.0
                &&& out.center.x == c.0
                &&& out.center.y == c.1
            }),
    {
        let cat = Self::catalog();
        let mut rng = crate::rng::SeedRng::new(*seed);
        *seed = *seed + 1;
        match crate::layer::generate_layer(width, height, BEACH_TOLERANCE, &cat, &mut rng) {
            Ok((center, tiles, _unmatched)) => Ok(BeachLayer { tiles, center }),
            Err(e) => Err(e),
        }
    }

    /// The tile at `(x, y)`.
    pub fn get_tile(&self, x: usize, y: usize) -> (r: Option<TileIndex>)
        requires
            self.wf(),
            x < self.tiles.width,
            y < self.tiles.height,
        ensures
            r == self.tiles.spec_cell(x as int, y as int),
    {
        self.tiles.get(x, y)
    }

    /// Whether `position` is free of this layer's terrain: positions off
    /// the grid, and positions over a cell the layer leaves empty, count
    /// as walkable.  The composed world's collision query, not this
    /// presence test, decides what actually blocks movement.
    pub fn is_walkable(&self, position: WorldPoint) -> (r: bool)
        requires
            self.wf(),
            -COORD_LIMIT <= position.x <= COORD_LIMIT,
            -COORD_LIMIT <= position.y <= COORD_LIMIT,
        ensures
            r == ({
                let tx = tile_floor(position.x as int);
                let ty = tile_floor(position.y as int);
                !on_grid(self.tiles.width as int, self.tiles.height as int, tx, ty)
                    || self.tiles.spec_cell(tx, ty) is None
            }),
    {
        let tx = div_floor_tile(position.x);
        let ty = div_floor_tile(position.y);
        if tx < 0 || ty < 0 || tx >= self.tiles.width as i64 || ty >= self.tiles.height as i64 {
            return true;
        }
        match self.tiles.get(tx as usize, ty as usize) {
            Some(_) => false,
            None => true,
        }
    }
}

} // verus!
