//! The grass layer: a smaller blob stacked above the beach.

use vstd::prelude::*;

use crate::catalog::{BoundarySprites, TileCatalog};
use crate::geom::WorldPoint;
use crate::grid::{MAX_DIM, TileGrid};
use crate::layer::{ConfigError, layer_centroid, layer_model};
use crate::rng::seed_state;
use crate::tileset::TileIndex;
use crate::world_map::Layer;

verus! {

/// The containment tolerance the grass walk uses.
pub const GRASS_TOLERANCE: u32 = 32;

/// The grass center sprites.
pub open spec fn grass_centers() -> Seq<TileIndex> {
    seq![
        TileIndex::GrassLight,
        TileIndex::GrassSpottedLight1,
        TileIndex::GrassSpottedLight2,
        TileIndex::GrassSpottedLight3,
    ]
}

/// The grass boundary sprites: one dark-grass sprite serves for every
/// edge and corner role.
pub open spec fn grass_sprites() -> BoundarySprites {
    BoundarySprites {
        top_edge: TileIndex::GrassDark,
        top_right_edge: TileIndex::GrassDark,
        right_edge: TileIndex::GrassDark,
        bottom_right_edge: TileIndex::GrassDark,
        bottom_edge: TileIndex::GrassDark,
        bottom_left_edge: TileIndex::GrassDark,
        left_edge: TileIndex::GrassDark,
        top_left_edge: TileIndex::GrassDark,
        top_right_corner: TileIndex::GrassDark,
        top_left_corner: TileIndex::GrassDark,
        bottom_right_corner: TileIndex::GrassDark,
        bottom_left_corner: TileIndex::GrassDark,
    }
}

/// The grass layer's cells and final rng state for a seed.
pub open spec fn grass_layer_model(width: usize, height: usize, seed: u64) -> (
    Seq<Option<TileIndex>>,
    u64,
) {
    layer_model(width, height, GRASS_TOLERANCE, grass_centers(), grass_sprites(), seed_state(seed))
}

/// The altitude a new grass layer gets: one above a previous grass layer,
/// ground level over anything else.
pub open spec fn next_altitude(prev_layer: Option<&Layer>) -> int {
    match prev_layer {
        Some(l) => match l {
            Layer::Grass(g) => g.altitude + 1,
            _ => 0,
        },
        None => 0,
    }
}

/// A generated grass layer, its spawn-anchor centroid, and how many grass
/// layers sit below it.
pub struct GrassLayer {
    pub tiles: TileGrid,
    pub center: WorldPoint,
    pub altitude: usize,
}

impl GrassLayer {
    /// The grid is well-formed.
    pub open spec fn wf(self) -> bool {
        self.tiles.wf()
    }

    /// The grass sprite catalog.
    pub fn catalog() -> (c: TileCatalog)
        ensures
            c.centers@ == grass_centers(),
            c.sprites == grass_sprites(),
            c.wf(),
            c.centers_not_boundary(),
    {
        let mut centers: Vec<TileIndex> = Vec::new();
        centers.push(TileIndex::GrassLight);
        centers.push(TileIndex::GrassSpottedLight1);
        centers.push(TileIndex::GrassSpottedLight2);
        centers.push(TileIndex::GrassSpottedLight3);
        let c = TileCatalog {
            centers,
            sprites: BoundarySprites {
                top_edge: TileIndex::GrassDark,
                top_right_edge: TileIndex::GrassDark,
                right_edge: TileIndex::GrassDark,
                bottom_right_edge: TileIndex::GrassDark,
                bottom_edge: TileIndex::GrassDark,
                bottom_left_edge: TileIndex::GrassDark,
                left_edge: TileIndex::GrassDark,
                top_left_edge: TileIndex::GrassDark,
                top_right_corner: TileIndex::GrassDark,
                top_left_corner: TileIndex::GrassDark,
                bottom_right_corner: TileIndex::GrassDark,
                bottom_left_corner: TileIndex::GrassDark,
            },
        };
        proof {
            assert(c.centers@ =~= grass_centers());
            assert forall|t: TileIndex| c.centers@.contains(t) implies !c.sprites.is_edge_tile(t)
                && !c.sprites.is_corner_tile(t) by {
                let i = choose|i: int| 0 <= i < c.centers@.len() && c.centers@[i] == t;
                assert(i == 0 || i == 1 || i == 2 || i == 3);
            }
        }
        c
    }

    /// Generates a grass layer from a seed counter, stacking one altitude
    /// level above a previous grass layer if one is given.
    pub fn new(
        seed: &mut u64,
        width: usize,
        height: usize,
        prev_layer: Option<&Layer>,
    ) -> (r: Result<GrassLayer, ConfigError>)
        requires
            *old(seed) < u64::MAX,
            next_altitude(prev_layer) < usize::MAX,
        ensures
            *final(seed) == *old(seed) + 1,
            r is Ok <==> (1 <= width <= MAX_DIM && 1 <= height <= MAX_DIM),
            (width == 0 || height == 0) ==> r == Result::<GrassLayer, ConfigError>::Err(
                ConfigError::ZeroDimension,
            ),
            (!(width == 0 || height == 0) && (width > MAX_DIM || height > MAX_DIM)) ==> r
                == Result::<GrassLayer, ConfigError>::Err(ConfigError::DimensionTooLarge),
            r is Ok ==> ({
                let out = r->Ok_0;
                let m = grass_layer_model(width, height, *old(seed));
                let c = layer_centroid(width, height, GRASS_TOLERANCE, seed_state(*old(seed)));
                &&& out.wf()
                &&& out.tiles.width == width
                &&& out.tiles.height == height
                &&& out.tiles.cells@ == m.0
                &&& out.center.x == c.0
                &&& out.center.y == c.1
                &&& out.altitude == next_altitude(prev_layer)
            }),
    {
        let altitude: usize = match prev_layer {
            Some(l) => match l {
                Layer::Grass(g) => g.altitude + 1,
                _ => 0,
            },
            None => 0,
        };
        let cat = Self::catalog();
        let mut rng = crate::rng::SeedRng::new(*seed);
        *seed = *seed + 1;
        match crate::layer::generate_layer(width, height, GRASS_TOLERANCE, &cat, &mut rng) {
            Ok((center, tiles, _unmatched)) => Ok(GrassLayer { tiles, center, altitude }),
            Err(e) => Err(e),
        }
    }

    /// The tile at `(x, y)`.
    pub fn get_tile(&self, x: usize, y: usize) -> (r: Option<TileIndex>)
        requires
            self.wf(),
            x < self.tiles.width,
            y < self.tiles.height,
        ensures
            r == self.tiles.spec_cell(x as int, y as int),
    {
        self.tiles.get(x, y)
    }

    /// The world-space rectangle the layer covers.
    pub fn get_bounds(&self) -> (r: (WorldPoint, WorldPoint))
        requires
            self.wf(),
        ensures
            r.0 == (WorldPoint { x: 0, y: 0 }),
            r.1.x == self.tiles.width * 16,
            r.1.y == self.tiles.height * 16,
    {
        let w: i64 = self.tiles.width as i64;
        let h: i64 = self.tiles.height as i64;
        (WorldPoint { x: 0, y: 0 }, WorldPoint { x: w * 16, y: h * 16 })
    }
}

} // verus!
