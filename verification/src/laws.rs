//! The library's cross-cutting guarantees, stated and proved once.
//!
//! Each proof function here records a promise that spans several
//! functions: generation is deterministic in the seed, the blob only ever
//! grows, classification never pairs an edge with a corner on one cell,
//! and the read-only queries answer identically however often they are
//! asked.  The per-function guarantees (gap-free grids, ellipse
//! containment, clamped view ranges) live in the `ensures` of the
//! functions themselves.

use vstd::prelude::*;

use crate::blob::{GrowConfig, walk_n, walk_state_wf, walk_step};
use crate::catalog::BoundarySprites;
use crate::classify::{corner_pass, edge_pass};
use crate::gapfill::{count_none_upto, gap_fill, lemma_count_none_le, lemma_gap_fill_rec_props};
use crate::grid::cell_index;
use crate::tileset::TileIndex;
use crate::world_map::{WorldMap, blocked_range, spec_tile_at};

verus! {

/// Determinism: two worlds built from the same `(width, height, seed)`
/// answer every tile query alike, block the very same boxes, and share
/// their start location.  `WorldMap::new` pins each world to a model
/// that is a function of the inputs alone; this law states that nothing
/// observable distinguishes two such worlds.
pub proof fn lemma_generation_deterministic(
    w1: WorldMap,
    w2: WorldMap,
    width: usize,
    height: usize,
    seed: u64,
)
    requires
        w1.built_from(width, height, seed),
        w2.built_from(width, height, seed),
    ensures
        w1.width == w2.width,
        w1.height == w2.height,
        forall|l: int, x: int, y: int|
            #[trigger] spec_tile_at(w1, l, x, y) == spec_tile_at(w2, l, x, y),
        forall|ax: int, ay: int, bx: int, by: int|
            #[trigger] blocked_range(w1, ax, ay, bx, by) == blocked_range(w2, ax, ay, bx, by),
        w1.start_location == w2.start_location,
{
    lemma_same_layers(w1, w2, width, height, seed);
    assert forall|ax: int, ay: int, bx: int, by: int|
        #[trigger] blocked_range(w1, ax, ay, bx, by) == blocked_range(w2, ax, ay, bx, by) by {
        if blocked_range(w1, ax, ay, bx, by) && !(ax < 0 || ay < 0 || bx >= w1.width || by
            >= w1.height) {
            let (l, x, y) = choose|l: int, x: int, y: int|
                1 <= l < w1.layers@.len() && ax <= x <= bx && ay <= y <= by
                    && #[trigger] w1.layers@[l].spec_tile(x, y) is None;
            assert(w2.layers@[l].spec_tile(x, y) is None);
        }
        if blocked_range(w2, ax, ay, bx, by) && !(ax < 0 || ay < 0 || bx >= w2.width || by
            >= w2.height) {
            let (l, x, y) = choose|l: int, x: int, y: int|
                1 <= l < w2.layers@.len() && ax <= x <= bx && ay <= y <= by
                    && #[trigger] w2.layers@[l].spec_tile(x, y) is None;
            assert(w1.layers@[l].spec_tile(x, y) is None);
        }
    }
}

/// Two worlds built from the same inputs have pointwise equal layers.
proof fn lemma_same_layers(w1: WorldMap, w2: WorldMap, width: usize, height: usize, seed: u64)
    requires
        w1.built_from(width, height, seed),
        w2.built_from(width, height, seed),
    ensures
        w1.layers@.len() == w2.layers@.len(),
        w1.width == w2.width,
        w1.height == w2.height,
        forall|l: int, x: int, y: int|
            0 <= l < w1.layers@.len() ==> #[trigger] w1.layers@[l].spec_tile(x, y)
                == w2.layers@[l].spec_tile(x, y),
        forall|l: int, x: int, y: int|
            #[trigger] spec_tile_at(w1, l, x, y) == spec_tile_at(w2, l, x, y),
        w1.start_location == w2.start_location,
{
    let o1 = w1.layers@[0]->Ocean_0;
    let o2 = w2.layers@[0]->Ocean_0;
    assert forall|x: int, y: int|
        0 <= x < width && 0 <= y < height implies o1.tiles.cells@[cell_index(width as int, x, y)]
        == o2.tiles.cells@[cell_index(width as int, x, y)] by {
        crate::grid::mul_index_in_range(width as int, height as int, x, y);
        assert(o1.tiles.spec_cell(x, y) == Some(crate::ocean::ocean_pattern(x, y)));
        assert(o2.tiles.spec_cell(x, y) == Some(crate::ocean::ocean_pattern(x, y)));
    }
    assert forall|i: int| 0 <= i < o1.tiles.cells@.len() implies o1.tiles.cells@[i]
        == o2.tiles.cells@[i] by {
        crate::grid::div_mod_decompose(i, width as int, height as int);
        assert(o1.tiles.cells@[cell_index(width as int, i % width as int, i / width as int)]
            == o2.tiles.cells@[cell_index(width as int, i % width as int, i / width as int)]);
    }
    assert(o1.tiles.cells@ =~= o2.tiles.cells@);
    let b1 = w1.layers@[1]->Beach_0;
    let b2 = w2.layers@[1]->Beach_0;
    assert(b1.tiles.cells@ == b2.tiles.cells@);
    assert forall|l: int, x: int, y: int|
        0 <= l < w1.layers@.len() implies #[trigger] w1.layers@[l].spec_tile(x, y)
        == w2.layers@[l].spec_tile(x, y) by {
        if l == 0 {
            assert(w1.layers@[0].spec_tile(x, y) == o1.tiles.cells@[cell_index(
                width as int,
                x,
                y,
            )]);
        }
    }
}

/// Idempotent queries: the world is immutable, and both queries are
/// pinned to spec functions of the world and the arguments alone, so two
/// calls with identical arguments return identical results.
pub proof fn lemma_queries_idempotent(
    wm: WorldMap,
    l: int,
    x: int,
    y: int,
    r1: Option<TileIndex>,
    r2: Option<TileIndex>,
    b1: bool,
    b2: bool,
    px: int,
    py: int,
    sx: int,
    sy: int,
)
    requires
        r1 == spec_tile_at(wm, l, x, y),
        r2 == spec_tile_at(wm, l, x, y),
        b1 == crate::world_map::spec_blocked(wm, px, py, sx, sy),
        b2 == crate::world_map::spec_blocked(wm, px, py, sx, sy),
    ensures
        r1 == r2,
        b1 == b2,
{
}

/// Monotone growth: a walk step never removes or changes a land cell, so
/// the occupied region only ever grows while the blob walk runs.
pub proof fn lemma_walk_monotone(
    cfg: GrowConfig,
    centers: Seq<TileIndex>,
    st: (Seq<Option<TileIndex>>, Seq<(usize, usize)>, u64),
    n: nat,
)
    requires
        cfg.wf(),
        walk_state_wf(cfg, st),
        st.1.len() + n < 0x1_0000_0000,
    ensures
        walk_state_wf(cfg, walk_n(cfg, centers, st, n)),
        walk_n(cfg, centers, st, n).1.len() <= st.1.len() + n,
        walk_n(cfg, centers, st, n).0.len() == st.0.len(),
        forall|j: int|
            0 <= j < st.0.len() && st.0[j] is Some ==> #[trigger] walk_n(cfg, centers, st, n).0[j]
                == st.0[j],
        count_none_upto(walk_n(cfg, centers, st, n).0, st.0.len() as int) <= count_none_upto(
            st.0,
            st.0.len() as int,
        ),
    decreases n,
{
    if n > 0 {
        lemma_walk_monotone(cfg, centers, st, (n - 1) as nat);
        let prev = walk_n(cfg, centers, st, (n - 1) as nat);
        let cur = walk_step(cfg, centers, prev);
        let fi = crate::rng::rng_pick(prev.2, prev.1.len() as u32);
        assert(prev.1.len() as u32 >= 1);
        assert(fi < prev.1.len());
        let xy = prev.1[fi as int];
        let d = crate::rng::rng_pick(crate::rng::rng_next(prev.2), 4);
        let nxy = crate::blob::step_target(cfg, xy.0, xy.1, d);
        assert(nxy.0 < cfg.width && nxy.1 < cfg.height);
        crate::grid::mul_index_in_range(
            cfg.width as int,
            cfg.height as int,
            nxy.0 as int,
            nxy.1 as int,
        );
        assert forall|j: int| 0 <= j < st.0.len() && st.0[j] is Some implies #[trigger] cur.0[j]
            == st.0[j] by {
            assert(prev.0[j] == st.0[j]);
        }
        assert forall|j: int| 0 <= j < st.0.len() && cur.0[j] is None implies st.0[j] is None by {
            if st.0[j] is Some {
                assert(cur.0[j] == st.0[j]);
            }
        }
        lemma_count_none_le(st.0, cur.0, st.0.len() as int);
    }
}

/// Monotone growth across the later stages: gap filling and the two
/// classification passes keep every occupied cell with its sprite, so
/// the count of empty cells never rises from the walk's result to the
/// finished layer.
pub proof fn lemma_stages_monotone(
    grown: Seq<Option<TileIndex>>,
    w: int,
    h: int,
    centers: Seq<TileIndex>,
    sprites: BoundarySprites,
    rng: u64,
)
    requires
        1 <= w,
        1 <= h,
        grown.len() == w * h,
        1 <= centers.len() <= 64,
    ensures
        ({
            let filled = gap_fill(grown, w, h, centers, rng).0;
            let finished = corner_pass(edge_pass(filled, w, h, sprites), w, h, sprites);
            &&& finished.len() == grown.len()
            &&& forall|j: int|
                0 <= j < grown.len() && grown[j] is Some ==> #[trigger] finished[j] == grown[j]
            &&& count_none_upto(finished, grown.len() as int) <= count_none_upto(
                grown,
                grown.len() as int,
            )
        }),
{
    let p = |x: int, y: int| true;
    lemma_gap_fill_rec_props(
        grown,
        w,
        h,
        centers,
        rng,
        count_none_upto(grown, grown.len() as int) as nat,
        p,
    );
    let filled = gap_fill(grown, w, h, centers, rng).0;
    let edged = edge_pass(filled, w, h, sprites);
    let finished = corner_pass(edged, w, h, sprites);
    assert forall|j: int| 0 <= j < grown.len() && grown[j] is Some implies #[trigger] finished[j]
        == grown[j] by {
        assert(filled[j] == grown[j]);
        assert(edged[j] == filled[j]);
        assert(finished[j] == edged[j]);
    }
    assert forall|j: int| 0 <= j < grown.len() && finished[j] is None implies grown[j] is None by {
        if grown[j] is Some {
            assert(finished[j] == grown[j]);
        }
    }
    lemma_count_none_le(grown, finished, grown.len() as int);
}

/// The spawn point is usable: in any built world, the tile under the
/// start location belongs to the generated beach layer (the blob's seed
/// cell is land and every later stage preserves land), so a point-sized
/// box there never collides.
pub proof fn lemma_spawn_point_on_land(wm: WorldMap, width: usize, height: usize, seed: u64)
    requires
        wm.built_from(width, height, seed),
    ensures
        spec_tile_at(
            wm,
            1,
            crate::geom::tile_floor(wm.start_location.x as int),
            crate::geom::tile_floor(wm.start_location.y as int),
        ) is Some,
        !crate::world_map::spec_blocked(
            wm,
            wm.start_location.x as int,
            wm.start_location.y as int,
            0,
            0,
        ),
{
    let rng0 = crate::rng::seed_state(seed);
    let tol = crate::beach::BEACH_TOLERANCE;
    let centers = crate::beach::beach_centers();
    let cfg = crate::layer::drawn_config(width, height, tol, rng0);
    crate::layer::lemma_drawn_config_wf(width, height, tol, rng0);
    let wi = width as int;
    let hi = height as int;
    let sx = cfg.seed_x();
    let sy = cfg.seed_y();
    assert(0 <= sx < wi && 0 <= sy < hi);
    crate::grid::mul_index_in_range(wi, hi, sx, sy);
    let ci = cell_index(wi, sx, sy);

    // The walk starts from a state whose seed cell is land and preserves
    // every land cell.
    let r2 = crate::rng::rng_next(crate::rng::rng_next(rng0));
    let st = crate::blob::walk_init(cfg, centers, crate::rng::rng_next(r2));
    let budget = crate::blob::step_budget(cfg, r2);
    crate::grid::mul_le(cfg.sub_w as int, 4096, cfg.sub_h as int, 4096);
    assert(budget <= cfg.sub_w * cfg.sub_h) by {
        let area = cfg.sub_w * cfg.sub_h;
        let span: u32 = (area - area / 2 + 1) as u32;
        assert(crate::rng::rng_pick(r2, span) < span);
    }
    assert(walk_state_wf(cfg, st));
    lemma_walk_monotone(cfg, centers, st, budget as nat);
    let grown = crate::blob::grow_model(cfg, centers, r2);
    assert(grown.0[ci] == Some(centers[0]));
    assert(grown.0.len() == wi * hi);

    // Gap filling and classification keep the seed cell as it is.
    let p = |x: int, y: int| true;
    lemma_gap_fill_rec_props(
        grown.0,
        wi,
        hi,
        centers,
        grown.1,
        count_none_upto(grown.0, grown.0.len() as int) as nat,
        p,
    );
    let filled = gap_fill(grown.0, wi, hi, centers, grown.1).0;
    assert(filled[ci] == grown.0[ci]);
    let sprites = crate::beach::beach_sprites();
    let edged = edge_pass(filled, wi, hi, sprites);
    assert(edged[ci] == filled[ci]);
    let finished = corner_pass(edged, wi, hi, sprites);
    assert(finished[ci] == edged[ci]);
    assert(crate::beach::beach_layer_model(width, height, seed).0[ci] is Some);

    // The start location is the center of the seed cell, so it floors
    // back to that cell.
    vstd::arithmetic::div_mod::lemma_fundamental_div_mod_converse(16 * sx + 8, 16, sx, 8);
    assert(crate::geom::tile_floor(wm.start_location.x as int) == sx);
    assert(crate::geom::tile_floor(wm.start_location.y as int) == sy);

    // The beach layer of the world holds exactly those cells.
    let b = wm.layers@[1]->Beach_0;
    assert(b.tiles.width == width && b.tiles.height == height);
    assert(b.tiles.spec_cell(sx, sy) is Some);
    assert(spec_tile_at(wm, 1, sx, sy) is Some);

    // A point-sized box over the seed cell covers only that cell, on the
    // grid, and no upper layer leaves it empty.
    assert(!blocked_range(wm, sx, sy, sx, sy)) by {
        assert forall|l: int, x: int, y: int|
            1 <= l < wm.layers@.len() && sx <= x <= sx && sy <= y <= sy implies !((
            #[trigger] wm.layers@[l].spec_tile(x, y)) is None) by {
            assert(l == 1 && x == sx && y == sy);
        }
    }
}

/// Edge/corner exclusivity: the corner pass keeps every already-occupied
/// cell, so a cell the edge pass decorated is never redecorated, and
/// with a catalog whose edge and corner sprite sets are disjoint no cell
/// of the finished grid carries a sprite that is both.
pub proof fn lemma_edge_corner_exclusive(
    cells: Seq<Option<TileIndex>>,
    w: int,
    h: int,
    sprites: BoundarySprites,
)
    ensures
        ({
            let edged = edge_pass(cells, w, h, sprites);
            let finished = corner_pass(edged, w, h, sprites);
            &&& forall|j: int|
                0 <= j < cells.len() && edged[j] is Some ==> #[trigger] finished[j] == edged[j]
            &&& (sprites.edges_corners_disjoint() ==> forall|j: int|
                0 <= j < cells.len() ==> !((#[trigger] finished[j]) matches Some(t)
                    && sprites.is_edge_tile(t) && sprites.is_corner_tile(t)))
        }),
{
    let edged = edge_pass(cells, w, h, sprites);
    let finished = corner_pass(edged, w, h, sprites);
    assert forall|j: int| 0 <= j < cells.len() && edged[j] is Some implies #[trigger] finished[j]
        == edged[j] by {
        assert(finished[j] == crate::classify::corner_cell(edged, w, h, sprites, j));
    }
}

} // verus!
