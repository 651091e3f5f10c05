//! The always-filled ocean background layer.
//!
//! The ocean carries no generation: every cell holds a sprite from a fixed
//! 4 x 4 water pattern, repeated across the grid.  It sits at the bottom of
//! the layer stack and is passable by convention, so collision queries
//! never consult it.

use vstd::prelude::*;

use crate::geom::WorldPoint;
use crate::grid::{MAX_DIM, TileGrid};
use crate::tileset::TileIndex;

verus! {

/// The sprite of the 4 x 4 water pattern at `(x, y)`.
pub open spec fn ocean_pattern(x: int, y: int) -> TileIndex {
    let col = x % 4;
    let row = y % 4;
    if row == 0 {
        if col == 0 {
            TileIndex::Ocean1
        } else if col == 1 {
            TileIndex::Ocean2
        } else if col == 2 {
            TileIndex::Ocean3
        } else {
            TileIndex::Ocean4
        }
    } else if row == 1 {
        if col == 0 {
            TileIndex::Ocean5
        } else if col == 1 {
            TileIndex::Ocean6
        } else if col == 2 {
            TileIndex::Ocean7
        } else {
            TileIndex::Ocean8
        }
    } else if row == 2 {
        if col == 0 {
            TileIndex::Ocean9
        } else if col == 1 {
            TileIndex::Ocean10
        } else if col == 2 {
            TileIndex::Ocean11
        } else {
            TileIndex::Ocean12
        }
    } else {
        if col == 0 {
            TileIndex::Ocean13
        } else if col == 1 {
            TileIndex::Ocean14
        } else if col == 2 {
            TileIndex::Ocean15
        } else {
            TileIndex::Ocean16
        }
    }
}

/// The fully occupied background layer.
pub struct OceanLayer {
    pub tiles: TileGrid,
}

impl OceanLayer {
    /// Every cell of an ocean layer holds its pattern sprite.
    pub open spec fn wf(self) -> bool {
        &&& self.tiles.wf()
        &&& forall|x: int, y: int|
            crate::grid::on_grid(self.tiles.width as int, self.tiles.height as int, x, y)
                ==> self.tiles.spec_cell(x, y) == Some(ocean_pattern(x, y))
    }

    /// Builds the `width x height` ocean, every cell filled from the fixed
    /// 4 x 4 pattern.
    pub fn new(width: usize, height: usize) -> (r: OceanLayer)
        requires
            1 <= width <= MAX_DIM,
            1 <= height <= MAX_DIM,
        ensures
            r.wf(),
            r.tiles.width == width,
            r.tiles.height == height,
    {
        let mut tiles = TileGrid::new(width, height);
        let mut y: usize = 0;
        while y < height
            invariant
                y <= height,
                tiles.wf(),
                tiles.width == width,
                tiles.height == height,
                forall|xx: int, yy: int|
                    0 <= xx < width && 0 <= yy < y ==> tiles.spec_cell(xx, yy) == Some(
                        ocean_pattern(xx, yy),
                    ),
            decreases height - y,
        {
            let mut x: usize = 0;
            while x < width
                invariant
                    x <= width,
                    y < height,
                    tiles.wf(),
                    tiles.width == width,
                    tiles.height == height,
                    forall|xx: int, yy: int|
                        0 <= xx < width && 0 <= yy < y ==> tiles.spec_cell(xx, yy) == Some(
                            ocean_pattern(xx, yy),
                        ),
                    forall|xx: int| 0 <= xx < x ==> tiles.spec_cell(xx, y as int) == Some(
                        ocean_pattern(xx, y as int),
                    ),
                decreases width - x,
            {
                let t = Self::pattern_tile(x, y);
                let ghost before = tiles;
                tiles.set(x, y, Some(t));
                proof {
                    let w: int = width as int;
                    let h: int = height as int;
                    let wi: int = crate::grid::cell_index(w, x as int, y as int);
                    crate::grid::mul_index_in_range(w, h, x as int, y as int);
                    assert(tiles.cells@ == before.cells@.update(wi, Some(t)));
                    assert forall|xx: int, yy: int|
                        0 <= xx < width && 0 <= yy <= y && (xx, yy) != (x as int, y as int)
                            && before.spec_cell(xx, yy) == Some(ocean_pattern(xx, yy)) implies
                        tiles.spec_cell(xx, yy) == Some(ocean_pattern(xx, yy)) by {
                        let j: int = crate::grid::cell_index(w, xx, yy);
                        crate::grid::mul_index_in_range(w, h, xx, yy);
                        crate::grid::cell_index_injective(w, h, xx, yy, x as int, y as int);
                        assert(tiles.cells@[j] == before.cells@[j]);
                    }
                    assert(tiles.spec_cell(x as int, y as int) == Some(ocean_pattern(x as int, y as int)));
                }
                x = x + 1;
            }
            y = y + 1;
        }
        OceanLayer { tiles }
    }

    /// The pattern sprite for `(x, y)`.
    fn pattern_tile(x: usize, y: usize) -> (t: TileIndex)
        ensures
            t == ocean_pattern(x as int, y as int),
    {
        let col: usize = x % 4;
        let row: usize = y % 4;
        if row == 0 {
            if col == 0 {
                TileIndex::Ocean1
            } else if col == 1 {
                TileIndex::Ocean2
            } else if col == 2 {
                TileIndex::Ocean3
            } else {
                TileIndex::Ocean4
            }
        } else if row == 1 {
            if col == 0 {
                TileIndex::Ocean5
            } else if col == 1 {
                TileIndex::Ocean6
            } else if col == 2 {
                TileIndex::Ocean7
            } else {
                TileIndex::Ocean8
            }
        } else if row == 2 {
            if col == 0 {
                TileIndex::Ocean9
            } else if col == 1 {
                TileIndex::Ocean10
            } else if col == 2 {
                TileIndex::Ocean11
            } else {
                TileIndex::Ocean12
            }
        } else {
            if col == 0 {
                TileIndex::Ocean13
            } else if col == 1 {
                TileIndex::Ocean14
            } else if col == 2 {
                TileIndex::Ocean15
            } else {
                TileIndex::Ocean16
            }
        }
    }

    /// The tile at `(x, y)`; the ocean is total, so this is always the
    /// pattern sprite.
    pub fn get_tile(&self, x: usize, y: usize) -> (r: Option<TileIndex>)
        requires
            self.wf(),
            x < self.tiles.width,
            y < self.tiles.height,
        ensures
            r == Some(ocean_pattern(x as int, y as int)),
    {
        self.tiles.get(x, y)
    }

    /// The world-space rectangle the layer covers: from the origin to
    /// `(width, height)` tiles of 16 world units each.
    pub fn get_bounds(&self) -> (r: (WorldPoint, WorldPoint))
        requires
            self.wf(),
        ensures
            r.0 == (WorldPoint { x: 0, y: 0 }),
            r.1.x == self.tiles.width * 16,
            r.1.y == self.tiles.height * 16,
    {
        let w: i64 = self.tiles.width as i64;
        let h: i64 = self.tiles.height as i64;
        (WorldPoint { x: 0, y: 0 }, WorldPoint { x: w * 16, y: h * 16 })
    }
}

} // verus!
