//! Growing the land mass.
//!
//! A blob of land grows from a seed cell by a radius-constrained random
//! walk inside a bounding sub-region of the grid.  Each step picks a
//! random land cell, a random cardinal direction, clamps the move to the
//! grid, and fills the neighbour with a random center sprite unless it is
//! already land or falls outside an elliptical containment region around
//! the seed.  The ellipse test is exact integer arithmetic: with the seed
//! at the sub-region's center and semi-axes of half its width and height,
//! a cell `(x, y)` at offset `(dx, dy)` is accepted when
//! `4*dx^2*sh^2 + 4*dy^2*sw^2 <= tolerance * sw^2 * sh^2`, the tolerance
//! scaling the squared normalised distance.

use vstd::prelude::*;

use crate::grid::{
    MAX_DIM, TileGrid, cell_index, cell_index_injective, mul_index_in_range, mul_le, occupied_at,
};
use crate::geom::WorldPoint;
use crate::rng::{SeedRng, rng_next, rng_pick};
use crate::tileset::TileIndex;

verus! {

/// Largest accepted containment tolerance; keeps the ellipse arithmetic
/// inside `i64`.
pub const MAX_TOLERANCE: u32 = 1024;

/// Where and how a blob grows: the grid, the bounding sub-region, and the
/// containment tolerance.
pub struct GrowConfig {
    pub width: usize,
    pub height: usize,
    pub sub_x: usize,
    pub sub_y: usize,
    pub sub_w: usize,
    pub sub_h: usize,
    pub tolerance: u32,
}

impl GrowConfig {
    /// The sub-region sits on the grid, both are non-degenerate and
    /// bounded, and the tolerance admits at least the nominal ellipse.
    pub open spec fn wf(self) -> bool {
        &&& 1 <= self.width <= MAX_DIM
        &&& 1 <= self.height <= MAX_DIM
        &&& 1 <= self.sub_w
        &&& 1 <= self.sub_h
        &&& self.sub_x + self.sub_w <= self.width
        &&& self.sub_y + self.sub_h <= self.height
        &&& 1 <= self.tolerance <= MAX_TOLERANCE
    }

    /// The seed cell: the sub-region's center.
    pub open spec fn seed_x(self) -> int {
        self.sub_x + self.sub_w / 2
    }

    /// The seed cell: the sub-region's center.
    pub open spec fn seed_y(self) -> int {
        self.sub_y + self.sub_h / 2
    }
}

/// The elliptical containment test around the seed cell.
pub open spec fn inside_ellipse(cfg: GrowConfig, x: int, y: int) -> bool {
    let dx = x - cfg.seed_x();
    let dy = y - cfg.seed_y();
    let sw = cfg.sub_w as int;
    let sh = cfg.sub_h as int;
    4 * ((dx * dx) * (sh * sh)) + 4 * ((dy * dy) * (sw * sw)) <= cfg.tolerance * ((sw * sw) * (sh
        * sh))
}

/// One walk move from `(x, y)` in direction `d`, clamped to the grid.
pub open spec fn step_target(cfg: GrowConfig, x: usize, y: usize, d: u32) -> (usize, usize) {
    if d == 0 {
        (if x > 0 {
            (x - 1) as usize
        } else {
            0usize
        }, y)
    } else if d == 1 {
        (if x + 1 < cfg.width {
            (x + 1) as usize
        } else {
            (cfg.width - 1) as usize
        }, y)
    } else if d == 2 {
        (x, if y > 0 {
            (y - 1) as usize
        } else {
            0usize
        })
    } else {
        (x, if y + 1 < cfg.height {
            (y + 1) as usize
        } else {
            (cfg.height - 1) as usize
        })
    }
}

/// One step of the walk over the state (cells, frontier, rng state).
pub open spec fn walk_step(
    cfg: GrowConfig,
    centers: Seq<TileIndex>,
    st: (Seq<Option<TileIndex>>, Seq<(usize, usize)>, u64),
) -> (Seq<Option<TileIndex>>, Seq<(usize, usize)>, u64) {
    let fi = rng_pick(st.2, st.1.len() as u32);
    let r1 = rng_next(st.2);
    let xy = st.1[fi as int];
    let d = rng_pick(r1, 4);
    let r2 = rng_next(r1);
    let nxy = step_target(cfg, xy.0, xy.1, d);
    let ci = cell_index(cfg.width as int, nxy.0 as int, nxy.1 as int);
    if st.0[ci] is Some {
        (st.0, st.1, r2)
    } else if !inside_ellipse(cfg, nxy.0 as int, nxy.1 as int) {
        (st.0, st.1, r2)
    } else {
        let k = rng_pick(r2, centers.len() as u32);
        (st.0.update(ci, Some(centers[k as int])), st.1.push(nxy), rng_next(r2))
    }
}

/// A well-formed walk state: the cell store matches the grid, and the
/// frontier is a non-empty list of on-grid coordinates.
pub open spec fn walk_state_wf(
    cfg: GrowConfig,
    st: (Seq<Option<TileIndex>>, Seq<(usize, usize)>, u64),
) -> bool {
    &&& st.0.len() == cfg.width * cfg.height
    &&& 1 <= st.1.len()
    &&& forall|j: int|
        0 <= j < st.1.len() ==> (#[trigger] st.1[j]).0 < cfg.width && st.1[j].1 < cfg.height
}

/// The walk state after `n` steps.
pub open spec fn walk_n(
    cfg: GrowConfig,
    centers: Seq<TileIndex>,
    st: (Seq<Option<TileIndex>>, Seq<(usize, usize)>, u64),
    n: nat,
) -> (Seq<Option<TileIndex>>, Seq<(usize, usize)>, u64)
    decreases n,
{
    if n == 0 {
        st
    } else {
        walk_step(cfg, centers, walk_n(cfg, centers, st, (n - 1) as nat))
    }
}

/// The initial walk state: an empty grid with the seed cell holding the
/// first center sprite, a frontier of just the seed, and the rng after
/// the step-budget draw.
pub open spec fn walk_init(
    cfg: GrowConfig,
    centers: Seq<TileIndex>,
    rng1: u64,
) -> (Seq<Option<TileIndex>>, Seq<(usize, usize)>, u64) {
    let ci = cell_index(cfg.width as int, cfg.seed_x(), cfg.seed_y());
    (
        Seq::new(
            (cfg.width * cfg.height) as nat,
            |i: int|
                if i == ci {
                    Some(centers[0])
                } else {
                    None
                },
        ),
        seq![(cfg.seed_x() as usize, cfg.seed_y() as usize)],
        rng1,
    )
}

/// How many steps the walk takes from rng state `rng0`: drawn once,
/// between half and the full cell count of the sub-region, inclusive.
pub open spec fn step_budget(cfg: GrowConfig, rng0: u64) -> int {
    let area = cfg.sub_w * cfg.sub_h;
    let lo = area / 2;
    let span = area - lo + 1;
    lo + rng_pick(rng0, span as u32)
}

/// What growing a blob returns: the occupancy grid and the final rng
/// state.
pub open spec fn grow_model(cfg: GrowConfig, centers: Seq<TileIndex>, rng0: u64) -> (
    Seq<Option<TileIndex>>,
    u64,
) {
    let st = walk_n(
        cfg,
        centers,
        walk_init(cfg, centers, rng_next(rng0)),
        step_budget(cfg, rng0) as nat,
    );
    (st.0, st.2)
}

/// The seed cell itself always passes the containment test.
proof fn ellipse_at_seed(t: int, sw: int, sh: int)
    by (nonlinear_arith)
    requires
        1 <= t,
        1 <= sw,
        1 <= sh,
    ensures
        4 * ((0 * 0) * (sh * sh)) + 4 * ((0 * 0) * (sw * sw)) <= t * ((sw * sw) * (sh * sh)),
{
}

/// Squares of bounded values are bounded.
proof fn square_bound(a: int, amax: int)
    by (nonlinear_arith)
    requires
        -amax <= a <= amax,
        0 <= amax,
    ensures
        0 <= a * a <= amax * amax,
{
}

/// The exact integer ellipse test.
fn inside_ellipse_exec(cfg: &GrowConfig, x: usize, y: usize) -> (r: bool)
    requires
        cfg.wf(),
        x < cfg.width,
        y < cfg.height,
    ensures
        r == inside_ellipse(*cfg, x as int, y as int),
{
    let sx: i64 = (cfg.sub_x + cfg.sub_w / 2) as i64;
    let sy: i64 = (cfg.sub_y + cfg.sub_h / 2) as i64;
    let dx: i64 = x as i64 - sx;
    let dy: i64 = y as i64 - sy;
    let sw: i64 = cfg.sub_w as i64;
    let sh: i64 = cfg.sub_h as i64;
    proof {
        square_bound(dx as int, 4096);
        square_bound(dy as int, 4096);
        square_bound(sw as int, 4096);
        square_bound(sh as int, 4096);
        mul_le(dx as int * dx as int, 0x1000000, sh as int * sh as int, 0x1000000);
        mul_le(dy as int * dy as int, 0x1000000, sw as int * sw as int, 0x1000000);
        mul_le(sw as int * sw as int, 0x1000000, sh as int * sh as int, 0x1000000);
        mul_le(cfg.tolerance as int, 1024, (sw as int * sw as int) * (sh as int * sh as int), 0x1000000000000);
    }
    let dx2: i64 = dx * dx;
    let dy2: i64 = dy * dy;
    let sw2: i64 = sw * sw;
    let sh2: i64 = sh * sh;
    let a: i64 = dx2 * sh2;
    let b: i64 = dy2 * sw2;
    let lhs: i64 = 4 * a + 4 * b;
    let rhs: i64 = (cfg.tolerance as i64) * (sw2 * sh2);
    lhs <= rhs
}

/// Grows a blob of land: the returned grid is exactly `grow_model` of the
/// incoming rng state, the seed cell holds the first center sprite, and
/// every occupied cell lies inside the containment ellipse.
pub fn grow_blob(cfg: &GrowConfig, centers: &Vec<TileIndex>, rng: &mut SeedRng) -> (r: (
    TileGrid,
    WorldPoint,
))
    requires
        cfg.wf(),
        1 <= centers@.len() <= 64,
    ensures
        r.0.wf(),
        r.0.width == cfg.width,
        r.0.height == cfg.height,
        r.0.cells@ == grow_model(*cfg, centers@, old(rng).state).0,
        final(rng).state == grow_model(*cfg, centers@, old(rng).state).1,
        r.0.spec_cell(cfg.seed_x(), cfg.seed_y()) == Some(centers@[0]),
        forall|x: int, y: int|
            occupied_at(r.0.cells@, cfg.width as int, cfg.height as int, x, y)
                ==> #[trigger] inside_ellipse(*cfg, x, y),
        r.1.x == 16 * cfg.seed_x() + 8,
        r.1.y == 16 * cfg.seed_y() + 8,
{
    let ghost rng0 = rng.state;
    let w: usize = cfg.width;
    let h: usize = cfg.height;
    let ghost wi = w as int;
    let ghost hi = h as int;
    let mut grid = TileGrid::new(w, h);
    let cx: usize = cfg.sub_x + cfg.sub_w / 2;
    let cy: usize = cfg.sub_y + cfg.sub_h / 2;
    let seed_tile = centers[0];
    grid.set(cx, cy, Some(seed_tile));
    let mut frontier: Vec<(usize, usize)> = Vec::new();
    frontier.push((cx, cy));

    proof {
        mul_le(cfg.sub_w as int, MAX_DIM as int, cfg.sub_h as int, MAX_DIM as int);
    }
    let area: usize = cfg.sub_w * cfg.sub_h;
    let lo: usize = area / 2;
    let span: usize = area - lo + 1;
    let steps: usize = lo + rng.pick(span as u32) as usize;

    let ghost st0 = walk_init(*cfg, centers@, rng.state);
    proof {
        mul_index_in_range(wi, hi, cx as int, cy as int);
        assert(grid.cells@ =~= st0.0);
        assert(frontier@ =~= st0.1);
        assert(steps == step_budget(*cfg, rng0));
        assert forall|x: int, y: int|
            occupied_at(grid.cells@, wi, hi, x, y) implies #[trigger] inside_ellipse(
            *cfg,
            x,
            y,
        ) by {
            mul_index_in_range(wi, hi, x, y);
            if x == cx as int && y == cy as int {
                let sw = cfg.sub_w as int;
                let sh = cfg.sub_h as int;
                ellipse_at_seed(cfg.tolerance as int, sw, sh);
                assert(x - cfg.seed_x() == 0 && y - cfg.seed_y() == 0);
                assert(inside_ellipse(*cfg, x, y));
            } else {
                cell_index_injective(wi, hi, x, y, cx as int, cy as int);
                assert(false);
            }
        }
    }

    let ghost seed_ci = cell_index(wi, cfg.seed_x(), cfg.seed_y());
    let mut k: usize = 0;
    while k < steps
        invariant
            k <= steps,
            steps <= area,
            area == cfg.sub_w * cfg.sub_h,
            area <= 0x1000000,
            cfg.wf(),
            1 <= centers@.len() <= 64,
            w == cfg.width,
            h == cfg.height,
            wi == w as int,
            hi == h as int,
            grid.wf(),
            grid.width == w,
            grid.height == h,
            seed_ci == cell_index(wi, cfg.seed_x(), cfg.seed_y()),
            0 <= seed_ci < grid.cells@.len(),
            (grid.cells@, frontier@, rng.state) == walk_n(*cfg, centers@, st0, k as nat),
            1 <= frontier@.len() <= 1 + k,
            forall|j: int|
                0 <= j < frontier@.len() ==> (#[trigger] frontier@[j]).0 < w && frontier@[j].1
                    < h,
            grid.cells@[seed_ci] == Some(centers@[0]),
            forall|x: int, y: int|
                occupied_at(grid.cells@, wi, hi, x, y) ==> #[trigger] inside_ellipse(
                    *cfg,
                    x,
                    y,
                ),
        decreases steps - k,
    {
        let flen: usize = frontier.len();
        let fi = rng.pick(flen as u32) as usize;
        let (x, y): (usize, usize) = frontier[fi];
        let d = rng.pick(4);
        let (nx, ny): (usize, usize) = if d == 0 {
            (if x > 0 {
                x - 1
            } else {
                0
            }, y)
        } else if d == 1 {
            (if x + 1 < w {
                x + 1
            } else {
                w - 1
            }, y)
        } else if d == 2 {
            (x, if y > 0 {
                y - 1
            } else {
                0
            })
        } else {
            (x, if y + 1 < h {
                y + 1
            } else {
                h - 1
            })
        };
        proof {
            assert((nx, ny) == step_target(*cfg, x, y, d));
            mul_index_in_range(wi, hi, nx as int, ny as int);
        }
        let occupied_now = grid.is_occupied(nx, ny);
        if !occupied_now {
            if inside_ellipse_exec(cfg, nx, ny) {
                let kk = rng.pick(centers.len() as u32);
                let t = centers[kk as usize];
                let ghost before = grid.cells@;
                grid.set(nx, ny, Some(t));
                frontier.push((nx, ny));
                proof {
                    let ci = cell_index(wi, nx as int, ny as int);
                    mul_index_in_range(wi, hi, cfg.seed_x(), cfg.seed_y());
                    assert(grid.cells@ == before.update(ci, Some(t)));
                    assert(before[ci] is None);
                    assert(grid.cells@[seed_ci] == Some(centers@[0]));
                    assert forall|xx: int, yy: int|
                        occupied_at(grid.cells@, wi, hi, xx, yy) implies #[trigger] inside_ellipse(
                        *cfg,
                        xx,
                        yy,
                    ) by {
                        if xx == nx as int && yy == ny as int {
                        } else {
                            cell_index_injective(wi, hi, xx, yy, nx as int, ny as int);
                            mul_index_in_range(wi, hi, xx, yy);
                            assert(occupied_at(before, wi, hi, xx, yy));
                        }
                    }
                }
            }
        }
        proof {
            assert(walk_n(*cfg, centers@, st0, (k + 1) as nat) == walk_step(
                *cfg,
                centers@,
                walk_n(*cfg, centers@, st0, k as nat),
            ));
        }
        k = k + 1;
    }
    let centroid = WorldPoint { x: (cx as i64) * 16 + 8, y: (cy as i64) * 16 + 8 };
    (grid, centroid)
}

} // verus!
