//! The composed world: an ordered stack of layers with query semantics.
//!
//! The ocean sits at the bottom and is passable by convention; generated
//! layers sit above it and all share the world's dimensions.  The world
//! is built once from `(width, height, seed)` and never mutated, so the
//! three queries — per-layer tile lookup, the collision predicate, and
//! viewport culling — are pure functions of the world and their
//! arguments, each pinned exactly by a spec function here.

use vstd::prelude::*;

use crate::beach::{BEACH_TOLERANCE, BeachLayer, beach_layer_model};
use crate::geom::{COORD_LIMIT, WorldPoint, div_ceil_tile, div_floor_tile, tile_ceil, tile_floor};
use crate::grass::GrassLayer;
use crate::grid::{MAX_DIM, on_grid};
use crate::layer::{ConfigError, layer_centroid};
use crate::ocean::OceanLayer;
use crate::rng::seed_state;
use crate::tileset::TileIndex;

verus! {

/// One layer of the world.
pub enum Layer {
    Ocean(OceanLayer),
    Beach(BeachLayer),
    Grass(GrassLayer),
}

impl Layer {
    /// The wrapped layer is well-formed.
    pub open spec fn wf(self) -> bool {
        match self {
            Layer::Ocean(o) => o.wf(),
            Layer::Beach(b) => b.wf(),
            Layer::Grass(g) => g.wf(),
        }
    }

    /// The layer's grid width.
    pub open spec fn spec_width(self) -> int {
        match self {
            Layer::Ocean(o) => o.tiles.width as int,
            Layer::Beach(b) => b.tiles.width as int,
            Layer::Grass(g) => g.tiles.width as int,
        }
    }

    /// The layer's grid height.
    pub open spec fn spec_height(self) -> int {
        match self {
            Layer::Ocean(o) => o.tiles.height as int,
            Layer::Beach(b) => b.tiles.height as int,
            Layer::Grass(g) => g.tiles.height as int,
        }
    }

    /// The layer's cell at `(x, y)`.
    pub open spec fn spec_tile(self, x: int, y: int) -> Option<TileIndex> {
        match self {
            Layer::Ocean(o) => o.tiles.spec_cell(x, y),
            Layer::Beach(b) => b.tiles.spec_cell(x, y),
            Layer::Grass(g) => g.tiles.spec_cell(x, y),
        }
    }

    /// The tile at `(x, y)`.
    pub fn get_tile(&self, x: usize, y: usize) -> (r: Option<TileIndex>)
        requires
            self.wf(),
            x < self.spec_width(),
            y < self.spec_height(),
        ensures
            r == self.spec_tile(x as int, y as int),
    {
        match self {
            Layer::Ocean(o) => o.tiles.get(x, y),
            Layer::Beach(b) => b.get_tile(x, y),
            Layer::Grass(g) => g.get_tile(x, y),
        }
    }

    /// The world-space rectangle the layer covers.
    pub fn get_bounds(&self) -> (r: (WorldPoint, WorldPoint))
        requires
            self.wf(),
        ensures
            r.0 == (WorldPoint { x: 0, y: 0 }),
            r.1.x == self.spec_width() * 16,
            r.1.y == self.spec_height() * 16,
    {
        match self {
            Layer::Ocean(o) => o.get_bounds(),
            Layer::Beach(b) => {
                let w: i64 = b.tiles.width as i64;
                let h: i64 = b.tiles.height as i64;
                (WorldPoint { x: 0, y: 0 }, WorldPoint { x: w * 16, y: h * 16 })
            },
            Layer::Grass(g) => g.get_bounds(),
        }
    }

    /// The layer's display name.
    pub fn to_string(&self) -> (r: &'static str)
        ensures
            self is Ocean ==> r@ == "Ocean"@,
            self is Beach ==> r@ == "Beach"@,
            self is Grass ==> r@ == "Grass"@,
    {
        match self {
            Layer::Ocean(_) => "Ocean",
            Layer::Beach(_) => "Beach",
            Layer::Grass(_) => "Grass",
        }
    }
}

/// The world-space rectangle a camera sees: its target point and the
/// half-extents of the view, in world units.  Dividing the screen's half
/// size by the camera zoom is the caller's (float-side) concern; the
/// culling arithmetic itself is exact.
#[derive(Clone, Copy, Debug, PartialEq, Eq, Structural)]
pub struct Viewport {
    pub target: WorldPoint,
    pub half_extent: WorldPoint,
}

/// A half-open rectangle of tile coordinates to draw:
/// `x0 <= x < x1`, `y0 <= y < y1`.
#[derive(Clone, Copy, Debug, PartialEq, Eq, Structural)]
pub struct TileRange {
    pub x0: usize,
    pub x1: usize,
    pub y0: usize,
    pub y1: usize,
}

/// The clamped upper tile bound for a view edge at world coordinate `v`
/// on an axis `dim` tiles long.
pub open spec fn view_hi(v: int, dim: int) -> int {
    let c = tile_ceil(v);
    if c < 0 {
        0
    } else if c > dim {
        dim
    } else {
        c
    }
}

/// The clamped lower tile bound for a view edge at world coordinate `v`,
/// never above the upper bound `hi`.
pub open spec fn view_lo(v: int, hi: int) -> int {
    let f = tile_floor(v);
    if f < 0 {
        0
    } else if f > hi {
        hi
    } else {
        f
    }
}

/// The island world: an ocean layer below one generated beach layer.
pub struct WorldMap {
    pub layers: Vec<Layer>,
    pub start_location: WorldPoint,
    pub width: usize,
    pub height: usize,
}

/// Where the world's tile query looks: inside the stack and the grid it
/// returns the layer's cell, anywhere else `None`.
pub open spec fn spec_tile_at(wm: WorldMap, layer: int, x: int, y: int) -> Option<TileIndex> {
    if 0 <= layer < wm.layers@.len() && on_grid(wm.width as int, wm.height as int, x, y) {
        wm.layers@[layer].spec_tile(x, y)
    } else {
        None
    }
}

/// Whether the inclusive tile rectangle is blocked: any part off the
/// grid, or any cell that some layer above the ocean leaves empty.
pub open spec fn blocked_range(wm: WorldMap, min_x: int, min_y: int, max_x: int, max_y: int) -> bool {
    ||| min_x < 0
    ||| min_y < 0
    ||| max_x >= wm.width
    ||| max_y >= wm.height
    ||| exists|l: int, x: int, y: int|
        1 <= l < wm.layers@.len() && min_x <= x <= max_x && min_y <= y <= max_y
            && #[trigger] wm.layers@[l].spec_tile(x, y) is None
}

/// Whether the world-space box `[position, position + size]` is blocked.
pub open spec fn spec_blocked(wm: WorldMap, px: int, py: int, sx: int, sy: int) -> bool {
    blocked_range(
        wm,
        tile_floor(px),
        tile_floor(py),
        tile_floor(px + sx),
        tile_floor(py + sy),
    )
}

impl WorldMap {
    /// A valid world: bounded positive dimensions, an ocean at the
    /// bottom, and every layer well-formed with the world's dimensions.
    pub open spec fn wf(self) -> bool {
        &&& 1 <= self.width <= MAX_DIM
        &&& 1 <= self.height <= MAX_DIM
        &&& self.layers@.len() >= 2
        &&& self.layers@[0] is Ocean
        &&& forall|i: int|
            0 <= i < self.layers@.len() ==> (#[trigger] self.layers@[i]).wf()
                && self.layers@[i].spec_width() == self.width && self.layers@[i].spec_height()
                == self.height
    }

    /// What `new` promises of a world built from `(width, height, seed)`:
    /// well-formed, the given dimensions, a full ocean below one beach
    /// layer whose cells are the beach model of the seed, and the start
    /// location at the beach blob's centroid.
    pub open spec fn built_from(self, width: usize, height: usize, seed: u64) -> bool {
        let m = beach_layer_model(width, height, seed);
        let c = layer_centroid(width, height, BEACH_TOLERANCE, seed_state(seed));
        &&& self.wf()
        &&& self.width == width
        &&& self.height == height
        &&& self.layers@.len() == 2
        &&& self.layers@[0] is Ocean
        &&& (self.layers@[1] matches Layer::Beach(b) && b.tiles.cells@ == m.0)
        &&& self.start_location.x == c.0
        &&& self.start_location.y == c.1
    }

    /// Builds the world: a full ocean below one generated beach layer,
    /// both `width x height`, everything determined by the seed.  The
    /// start location is the beach blob's centroid.  Dimension errors
    /// are returned if and only if a dimension is zero or above
    /// `MAX_DIM`.
    pub fn new(width: usize, height: usize, seed: u64) -> (r: Result<WorldMap, ConfigError>)
        ensures
            r is Ok <==> (1 <= width <= MAX_DIM && 1 <= height <= MAX_DIM),
            (width == 0 || height == 0) ==> r == Result::<WorldMap, ConfigError>::Err(
                ConfigError::ZeroDimension,
            ),
            (!(width == 0 || height == 0) && (width > MAX_DIM || height > MAX_DIM)) ==> r
                == Result::<WorldMap, ConfigError>::Err(ConfigError::DimensionTooLarge),
            r is Ok ==> r->Ok_0.built_from(width, height, seed),
    {
        if width == 0 || height == 0 {
            return Err(ConfigError::ZeroDimension);
        }
        if width > MAX_DIM || height > MAX_DIM {
            return Err(ConfigError::DimensionTooLarge);
        }
        let ocean = OceanLayer::new(width, height);
        let cat = BeachLayer::catalog();
        let mut rng = crate::rng::SeedRng::new(seed);
        match crate::layer::generate_layer(width, height, BEACH_TOLERANCE, &cat, &mut rng) {
            Ok((center, tiles, _unmatched)) => {
                let beach = BeachLayer { tiles, center };
                let mut layers: Vec<Layer> = Vec::new();
                layers.push(Layer::Ocean(ocean));
                layers.push(Layer::Beach(beach));
                Ok(WorldMap { layers, start_location: center, width, height })
            },
            Err(_) => {
                proof {
                    assert(false);
                }
                Err(ConfigError::ZeroDimension)
            },
        }
    }

    /// The tile of layer `layer` at `(x, y)`; out-of-range layer indices
    /// or coordinates yield `None`, never an error.
    pub fn tile_at(&self, layer: usize, x: usize, y: usize) -> (r: Option<TileIndex>)
        requires
            self.wf(),
        ensures
            r == spec_tile_at(*self, layer as int, x as int, y as int),
    {
        if layer >= self.layers.len() {
            return None;
        }
        if x >= self.width || y >= self.height {
            return None;
        }
        self.layers[layer].get_tile(x, y)
    }

    /// Whether the world-space box `[position, position + size]` collides:
    /// it is blocked exactly when some covered tile index leaves the grid
    /// or some layer above the ocean has no tile there.
    #[verifier::loop_isolation(false)]
    pub fn is_collision(&self, position: WorldPoint, size: WorldPoint) -> (r: bool)
        requires
            self.wf(),
            -COORD_LIMIT <= position.x <= COORD_LIMIT,
            -COORD_LIMIT <= position.y <= COORD_LIMIT,
            0 <= size.x <= COORD_LIMIT,
            0 <= size.y <= COORD_LIMIT,
        ensures
            r == spec_blocked(
                *self,
                position.x as int,
                position.y as int,
                size.x as int,
                size.y as int,
            ),
    {
        let min_xi: i64 = div_floor_tile(position.x);
        let min_yi: i64 = div_floor_tile(position.y);
        let max_xi: i64 = div_floor_tile(position.x + size.x);
        let max_yi: i64 = div_floor_tile(position.y + size.y);
        if min_xi < 0 || min_yi < 0 {
            return true;
        }
        if max_xi >= self.width as i64 || max_yi >= self.height as i64 {
            return true;
        }
        let min_x: usize = min_xi as usize;
        let min_y: usize = min_yi as usize;
        let max_x: usize = max_xi as usize;
        let max_y: usize = max_yi as usize;
        let ghost mni = min_xi as int;
        let ghost mnj = min_yi as int;
        let ghost mxi = max_xi as int;
        let ghost mxj = max_yi as int;
        let nl: usize = self.layers.len();
        let mut l: usize = 1;
        while l < nl
            invariant
                1 <= l <= nl,
                nl == self.layers@.len(),
                self.wf(),
                min_x == mni,
                min_y == mnj,
                max_x == mxi,
                max_y == mxj,
                0 <= mni <= mxi < self.width,
                0 <= mnj <= mxj < self.height,
                forall|ll: int, x: int, y: int|
                    1 <= ll < l && mni <= x <= mxi && mnj <= y <= mxj
                        ==> !((#[trigger] self.layers@[ll].spec_tile(x, y)) is None),
            decreases nl - l,
        {
            let mut y: usize = min_y;
            while y <= max_y
                invariant
                    1 <= l < nl,
                    nl == self.layers@.len(),
                    self.wf(),
                    min_x == mni,
                    min_y == mnj,
                    max_x == mxi,
                    max_y == mxj,
                    0 <= mni <= mxi < self.width,
                    0 <= mnj <= mxj < self.height,
                    mnj <= y <= mxj + 1,
                    forall|ll: int, x: int, yy: int|
                        1 <= ll < l && mni <= x <= mxi && mnj <= yy <= mxj
                            ==> !((#[trigger] self.layers@[ll].spec_tile(x, yy)) is None),
                    forall|x: int, yy: int|
                        mni <= x <= mxi && mnj <= yy < y
                            ==> !((#[trigger] self.layers@[l as int].spec_tile(x, yy)) is None),
                decreases max_y + 1 - y,
            {
                let mut x: usize = min_x;
                while x <= max_x
                    invariant
                        1 <= l < nl,
                        nl == self.layers@.len(),
                        self.wf(),
                        min_x == mni,
                        min_y == mnj,
                        max_x == mxi,
                        max_y == mxj,
                        0 <= mni <= mxi < self.width,
                        0 <= mnj <= mxj < self.height,
                        mnj <= y <= mxj,
                        mni <= x <= mxi + 1,
                        forall|ll: int, xx: int, yy: int|
                            1 <= ll < l && mni <= xx <= mxi && mnj <= yy <= mxj
                                ==> !((#[trigger] self.layers@[ll].spec_tile(xx, yy)) is None),
                        forall|xx: int, yy: int|
                            mni <= xx <= mxi && mnj <= yy < y
                                ==> !((#[trigger] self.layers@[l as int].spec_tile(xx, yy))
                                is None),
                        forall|xx: int|
                            mni <= xx < x ==> !((#[trigger] self.layers@[l as int].spec_tile(
                                xx,
                                y as int,
                            )) is None),
                    decreases max_x + 1 - x,
                {
                    match self.layers[l].get_tile(x, y) {
                        None => {
                            proof {
                                assert(self.layers@[l as int].spec_tile(x as int, y as int) is None);
                                assert(blocked_range(*self, mni, mnj, mxi, mxj));
                            }
                            return true;
                        },
                        Some(_) => {
                        },
                    }
                    x = x + 1;
                }
                y = y + 1;
            }
            l = l + 1;
        }
        proof {
            assert(!blocked_range(*self, mni, mnj, mxi, mxj));
        }
        false
    }

    /// The half-open tile rectangle the viewport can see, clamped to the
    /// grid: the bounds never exceed the world's dimensions and never
    /// form a negative-width or negative-height range, wherever the
    /// camera points.
    pub fn visible_tile_range(&self, viewport: Viewport) -> (r: TileRange)
        requires
            self.wf(),
            -COORD_LIMIT <= viewport.target.x <= COORD_LIMIT,
            -COORD_LIMIT <= viewport.target.y <= COORD_LIMIT,
            0 <= viewport.half_extent.x <= COORD_LIMIT,
            0 <= viewport.half_extent.y <= COORD_LIMIT,
        ensures
            r.x1 == view_hi(viewport.target.x + viewport.half_extent.x, self.width as int),
            r.y1 == view_hi(viewport.target.y + viewport.half_extent.y, self.height as int),
            r.x0 == view_lo(viewport.target.x - viewport.half_extent.x, r.x1 as int),
            r.y0 == view_lo(viewport.target.y - viewport.half_extent.y, r.y1 as int),
            r.x0 <= r.x1 <= self.width,
            r.y0 <= r.y1 <= self.height,
    {
        let right: i64 = viewport.target.x + viewport.half_extent.x;
        let bottom: i64 = viewport.target.y + viewport.half_extent.y;
        let left: i64 = viewport.target.x - viewport.half_extent.x;
        let top: i64 = viewport.target.y - viewport.half_extent.y;

        let xc: i64 = div_ceil_tile(right);
        let x1: usize = if xc < 0 {
            0
        } else if xc > self.width as i64 {
            self.width
        } else {
            xc as usize
        };
        let yc: i64 = div_ceil_tile(bottom);
        let y1: usize = if yc < 0 {
            0
        } else if yc > self.height as i64 {
            self.height
        } else {
            yc as usize
        };
        let xf: i64 = div_floor_tile(left);
        let x0: usize = if xf < 0 {
            0
        } else if xf > x1 as i64 {
            x1
        } else {
            xf as usize
        };
        let yf: i64 = div_floor_tile(top);
        let y0: usize = if yf < 0 {
            0
        } else if yf > y1 as i64 {
            y1
        } else {
            yf as usize
        };
        TileRange { x0, x1, y0, y1 }
    }
}

} // verus!
