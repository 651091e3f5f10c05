//! One generated terrain layer: the composed pipeline.
//!
//! `generate_layer` runs the random walk, the gap filler and the two
//! classification passes in that order over a fresh grid, after drawing a
//! bounding sub-region of half the grid per axis at a random offset.  The
//! result is pinned exactly by `layer_model`, a function of the inputs
//! alone, which is what makes generation reproducible.  Malformed input is
//! rejected up front with a `ConfigError`; generation itself cannot fail.

use vstd::prelude::*;

use crate::blob::{
    GrowConfig, MAX_TOLERANCE, grow_blob, grow_model, inside_ellipse,
};
use crate::catalog::{BoundarySprites, TileCatalog};
use crate::classify::{corner_pass, edge_pass, populate_corners, populate_edges, unmatched_upto};
use crate::gapfill::{fill_single_tile_gaps, gap_fill, lemma_gap_fill_rec_props};
use crate::geom::WorldPoint;
use crate::grid::{MAX_DIM, TileGrid, occupied_at, on_grid};
use crate::rng::{SeedRng, rng_next, rng_pick};
use crate::tileset::TileIndex;

verus! {

/// Why a construction request was rejected.
#[derive(Clone, Copy, Debug, PartialEq, Eq, Structural)]
pub enum ConfigError {
    /// A dimension was zero.
    ZeroDimension,
    /// A dimension exceeded `MAX_DIM`.
    DimensionTooLarge,
    /// The catalog supplies no center sprites.
    EmptyCenterTiles,
    /// The catalog supplies more center sprites than can be drawn from.
    CenterSetTooLarge,
    /// The containment tolerance was zero or above `MAX_TOLERANCE`.
    ToleranceOutOfRange,
}

/// Whether the inputs to `generate_layer` are acceptable.
pub open spec fn layer_inputs_ok(width: usize, height: usize, tolerance: u32, cat: TileCatalog) -> bool {
    &&& 1 <= width <= MAX_DIM
    &&& 1 <= height <= MAX_DIM
    &&& cat.wf()
    &&& 1 <= tolerance <= MAX_TOLERANCE
}

/// The bounding sub-region drawn for a layer: half the grid per axis (at
/// least one cell), at a random offset that keeps it on the grid.
pub open spec fn drawn_config(width: usize, height: usize, tolerance: u32, rng0: u64) -> GrowConfig {
    let sw = if width / 2 >= 1 {
        (width / 2) as usize
    } else {
        1usize
    };
    let sh = if height / 2 >= 1 {
        (height / 2) as usize
    } else {
        1usize
    };
    let sx = rng_pick(rng0, (width - sw + 1) as u32) as usize;
    let sy = rng_pick(rng_next(rng0), (height - sh + 1) as u32) as usize;
    GrowConfig {
        width,
        height,
        sub_x: sx,
        sub_y: sy,
        sub_w: sw,
        sub_h: sh,
        tolerance,
    }
}

/// The generated layer as a function of the inputs alone: cells after all
/// four stages, and the final rng state.
pub open spec fn layer_model(
    width: usize,
    height: usize,
    tolerance: u32,
    centers: Seq<TileIndex>,
    sprites: BoundarySprites,
    rng0: u64,
) -> (Seq<Option<TileIndex>>, u64) {
    let cfg = drawn_config(width, height, tolerance, rng0);
    let r2 = rng_next(rng_next(rng0));
    let grown = grow_model(cfg, centers, r2);
    let filled = gap_fill(grown.0, width as int, height as int, centers, grown.1);
    let edged = edge_pass(filled.0, width as int, height as int, sprites);
    let cornered = corner_pass(edged, width as int, height as int, sprites);
    (cornered, filled.1)
}

/// How many boundary cells of the gap-filled grid have a mask outside
/// the edge table; they are left empty and reported as a diagnostic.
pub open spec fn layer_unmatched(
    width: usize,
    height: usize,
    tolerance: u32,
    centers: Seq<TileIndex>,
    rng0: u64,
) -> int {
    let cfg = drawn_config(width, height, tolerance, rng0);
    let grown = grow_model(cfg, centers, rng_next(rng_next(rng0)));
    let filled = gap_fill(grown.0, width as int, height as int, centers, grown.1);
    unmatched_upto(filled.0, width as int, height as int, (width * height) as int)
}

/// The spawn-anchor centroid of the drawn sub-region, in world units.
pub open spec fn layer_centroid(width: usize, height: usize, tolerance: u32, rng0: u64) -> (
    int,
    int,
) {
    let cfg = drawn_config(width, height, tolerance, rng0);
    (16 * cfg.seed_x() + 8, 16 * cfg.seed_y() + 8)
}

/// The drawn sub-region always fits the grid: half of each axis, and an
/// offset below the remaining room.
pub proof fn lemma_drawn_config_wf(width: usize, height: usize, tolerance: u32, rng0: u64)
    requires
        1 <= width <= MAX_DIM,
        1 <= height <= MAX_DIM,
        1 <= tolerance <= MAX_TOLERANCE,
    ensures
        drawn_config(width, height, tolerance, rng0).wf(),
{
    let cfg = drawn_config(width, height, tolerance, rng0);
    assert(1 <= cfg.sub_w <= width);
    assert(1 <= cfg.sub_h <= height);
    let nx: u32 = (width - cfg.sub_w + 1) as u32;
    let ny: u32 = (height - cfg.sub_h + 1) as u32;
    assert(rng_pick(rng0, nx) < nx);
    assert(rng_pick(rng_next(rng0), ny) < ny);
}

/// The squared-distance form of the containment test is closed under
/// vertical midpoints.
proof fn midpoint_vertical(t: int, sw: int, sh: int, dx: int, dy: int)
    by (nonlinear_arith)
    requires
        1 <= t,
        1 <= sw,
        1 <= sh,
        4 * ((dx * dx) * (sh * sh)) + 4 * (((dy - 1) * (dy - 1)) * (sw * sw)) <= t * ((sw * sw) * (
        sh * sh)),
        4 * ((dx * dx) * (sh * sh)) + 4 * (((dy + 1) * (dy + 1)) * (sw * sw)) <= t * ((sw * sw) * (
        sh * sh)),
    ensures
        4 * ((dx * dx) * (sh * sh)) + 4 * ((dy * dy) * (sw * sw)) <= t * ((sw * sw) * (sh * sh)),
{
}

/// The squared-distance form of the containment test is closed under
/// horizontal midpoints.
proof fn midpoint_horizontal(t: int, sw: int, sh: int, dx: int, dy: int)
    by (nonlinear_arith)
    requires
        1 <= t,
        1 <= sw,
        1 <= sh,
        4 * (((dx - 1) * (dx - 1)) * (sh * sh)) + 4 * ((dy * dy) * (sw * sw)) <= t * ((sw * sw) * (
        sh * sh)),
        4 * (((dx + 1) * (dx + 1)) * (sh * sh)) + 4 * ((dy * dy) * (sw * sw)) <= t * ((sw * sw) * (
        sh * sh)),
    ensures
        4 * ((dx * dx) * (sh * sh)) + 4 * ((dy * dy) * (sw * sw)) <= t * ((sw * sw) * (sh * sh)),
{
}

/// A cell between two vertically adjacent cells inside the ellipse is
/// inside it too, and likewise horizontally.
pub proof fn lemma_ellipse_midpoint_closed(cfg: GrowConfig)
    requires
        cfg.wf(),
    ensures
        forall|x: int, y: int|
            inside_ellipse(cfg, x, y - 1) && inside_ellipse(cfg, x, y + 1)
                ==> #[trigger] inside_ellipse(cfg, x, y),
        forall|x: int, y: int|
            inside_ellipse(cfg, x - 1, y) && inside_ellipse(cfg, x + 1, y)
                ==> #[trigger] inside_ellipse(cfg, x, y),
{
    assert forall|x: int, y: int|
        inside_ellipse(cfg, x, y - 1) && inside_ellipse(cfg, x, y + 1) implies #[trigger] inside_ellipse(
        cfg,
        x,
        y,
    ) by {
        midpoint_vertical(
            cfg.tolerance as int,
            cfg.sub_w as int,
            cfg.sub_h as int,
            x - cfg.seed_x(),
            y - cfg.seed_y(),
        );
    }
    assert forall|x: int, y: int|
        inside_ellipse(cfg, x - 1, y) && inside_ellipse(cfg, x + 1, y) implies #[trigger] inside_ellipse(
        cfg,
        x,
        y,
    ) by {
        midpoint_horizontal(
            cfg.tolerance as int,
            cfg.sub_w as int,
            cfg.sub_h as int,
            x - cfg.seed_x(),
            y - cfg.seed_y(),
        );
    }
}

/// Containment survives classification: edge and corner sprites never
/// masquerade as centers (given a catalog whose center set is disjoint
/// from its boundary sets), so any center-valued cell of the classified
/// grid was already occupied before classification and thus lies inside
/// the ellipse.
#[verifier::rlimit(60)]
pub proof fn lemma_classified_containment(
    filled: Seq<Option<TileIndex>>,
    w: int,
    h: int,
    centers: Seq<TileIndex>,
    sprites: BoundarySprites,
    cfg: GrowConfig,
)
    requires
        1 <= w,
        1 <= h,
        filled.len() == w * h,
        forall|x: int, y: int|
            occupied_at(filled, w, h, x, y) ==> #[trigger] inside_ellipse(cfg, x, y),
        forall|t: TileIndex|
            centers.contains(t) ==> !sprites.is_edge_tile(t) && !sprites.is_corner_tile(t),
    ensures
        forall|x: int, y: int|
            (#[trigger] corner_pass(edge_pass(filled, w, h, sprites), w, h, sprites)[crate::grid::cell_index(
                w,
                x,
                y,
            )]) matches Some(t) && on_grid(w, h, x, y) && centers.contains(t)
                ==> inside_ellipse(cfg, x, y),
{
    let edged = edge_pass(filled, w, h, sprites);
    let cornered = corner_pass(edged, w, h, sprites);
    assert forall|x: int, y: int|
        (#[trigger] cornered[crate::grid::cell_index(w, x, y)]) matches Some(t) && on_grid(
            w,
            h,
            x,
            y,
        ) && centers.contains(t) implies inside_ellipse(cfg, x, y) by {
        let j = crate::grid::cell_index(w, x, y);
        crate::grid::mul_index_in_range(w, h, x, y);
        crate::grid::cell_index_inverse(w, h, x, y);
        if filled[j] is Some {
            assert(edged[j] == filled[j]);
            assert(cornered[j] == filled[j]);
            assert(occupied_at(filled, w, h, x, y));
        } else if edged[j] is Some {
            assert(sprites.is_edge_tile(edged[j]->Some_0));
            assert(cornered[j] == edged[j]);
            assert(false);
        } else {
            assert(cornered[j] is Some);
            assert(sprites.is_corner_tile(cornered[j]->Some_0));
            assert(false);
        }
    }
}

/// The generation pipeline on validated inputs: blob growth inside the
/// drawn sub-region, gap filling to a fixed point, then edge and corner
/// classification.  The results are pinned exactly by the models above.
#[verifier::rlimit(80)]
fn generate_layer_core(
    width: usize,
    height: usize,
    tolerance: u32,
    cat: &TileCatalog,
    rng: &mut SeedRng,
) -> (r: (WorldPoint, TileGrid, usize))
    requires
        layer_inputs_ok(width, height, tolerance, *cat),
    ensures
        ({
            let m = layer_model(width, height, tolerance, cat.centers@, cat.sprites, old(rng).state);
            let c = layer_centroid(width, height, tolerance, old(rng).state);
            let cfg = drawn_config(width, height, tolerance, old(rng).state);
            &&& r.1.wf()
            &&& r.1.width == width
            &&& r.1.height == height
            &&& r.1.cells@ == m.0
            &&& final(rng).state == m.1
            &&& r.0.x == c.0
            &&& r.0.y == c.1
            &&& r.2 == layer_unmatched(width, height, tolerance, cat.centers@, old(rng).state)
            &&& r.1.spec_cell(cfg.seed_x(), cfg.seed_y()) == Some(cat.centers@[0])
            &&& (cat.centers_not_boundary() ==> forall|x: int, y: int|
                (#[trigger] r.1.spec_cell(x, y)) matches Some(t) && on_grid(
                    width as int,
                    height as int,
                    x,
                    y,
                ) && cat.centers@.contains(t) ==> inside_ellipse(cfg, x, y))
        }),
{
    let ghost rng0 = rng.state;
    let ghost wi = width as int;
    let ghost hi = height as int;

    // Draw the bounding sub-region: half the grid per axis, random offset.
    let sw: usize = if width / 2 >= 1 {
        width / 2
    } else {
        1
    };
    let sh: usize = if height / 2 >= 1 {
        height / 2
    } else {
        1
    };
    let sx = rng.pick((width - sw + 1) as u32) as usize;
    let sy = rng.pick((height - sh + 1) as u32) as usize;
    let cfg = GrowConfig { width, height, sub_x: sx, sub_y: sy, sub_w: sw, sub_h: sh, tolerance };
    proof {
        assert(cfg == drawn_config(width, height, tolerance, rng0));
        assert(cfg.wf());
    }

    let (mut grid, centroid) = grow_blob(&cfg, &cat.centers, rng);
    let ghost grown_cells = grid.cells@;
    let ghost rng_after_grow = rng.state;
    let ghost seed_ci = crate::grid::cell_index(wi, cfg.seed_x(), cfg.seed_y());

    fill_single_tile_gaps(&mut grid, &cat.centers, rng);
    let ghost filled_cells = grid.cells@;

    proof {
        crate::grid::mul_index_in_range(wi, hi, cfg.seed_x(), cfg.seed_y());
        let p = |x: int, y: int| inside_ellipse(cfg, x, y);
        lemma_ellipse_midpoint_closed(cfg);
        crate::grid::mul_le(wi, MAX_DIM as int, hi, MAX_DIM as int);
        lemma_gap_fill_rec_props(
            grown_cells,
            wi,
            hi,
            cat.centers@,
            rng_after_grow,
            crate::gapfill::count_none_upto(grown_cells, grown_cells.len() as int) as nat,
            p,
        );
        assert(filled_cells[seed_ci] == Some(cat.centers@[0]));
        assert forall|x: int, y: int|
            occupied_at(filled_cells, wi, hi, x, y) implies #[trigger] inside_ellipse(
            cfg,
            x,
            y,
        ) by {
            assert(p(x, y));
        }
        if cat.centers_not_boundary() {
            lemma_classified_containment(filled_cells, wi, hi, cat.centers@, cat.sprites, cfg);
        }
    }

    let unmatched = populate_edges(&mut grid, &cat.sprites);
    let ghost edged_cells = grid.cells@;
    populate_corners(&mut grid, &cat.sprites);

    proof {
        assert(edged_cells[seed_ci] == filled_cells[seed_ci]);
        assert(grid.cells@[seed_ci] == filled_cells[seed_ci]);
        let m = layer_model(width, height, tolerance, cat.centers@, cat.sprites, rng0);
        assert(grid.cells@ == m.0);
    }

    (centroid, grid, unmatched)
}

/// Runs the full generation pipeline, rejecting malformed input: the
/// listed configuration errors are returned if and only if their
/// condition holds, checked in the order given; on success the centroid,
/// grid and unmatched diagnostic count are pinned exactly by the models
/// above.
pub fn generate_layer(
    width: usize,
    height: usize,
    tolerance: u32,
    cat: &TileCatalog,
    rng: &mut SeedRng,
) -> (r: Result<(WorldPoint, TileGrid, usize), ConfigError>)
    ensures
        r is Ok <==> layer_inputs_ok(width, height, tolerance, *cat),
        (width == 0 || height == 0) ==> r == Result::<(WorldPoint, TileGrid, usize), ConfigError>::Err(ConfigError::ZeroDimension),
        (!(width == 0 || height == 0) && (width > MAX_DIM || height > MAX_DIM)) ==> r
            == Result::<(WorldPoint, TileGrid, usize), ConfigError>::Err(ConfigError::DimensionTooLarge),
        (1 <= width <= MAX_DIM && 1 <= height <= MAX_DIM && cat.centers@.len() == 0) ==> r
            == Result::<(WorldPoint, TileGrid, usize), ConfigError>::Err(ConfigError::EmptyCenterTiles),
        (1 <= width <= MAX_DIM && 1 <= height <= MAX_DIM && cat.centers@.len() > 64) ==> r
            == Result::<(WorldPoint, TileGrid, usize), ConfigError>::Err(ConfigError::CenterSetTooLarge),
        (1 <= width <= MAX_DIM && 1 <= height <= MAX_DIM && cat.wf() && !(1 <= tolerance
            <= MAX_TOLERANCE)) ==> r == Result::<(WorldPoint, TileGrid, usize), ConfigError>::Err(
            ConfigError::ToleranceOutOfRange,
        ),
        r is Err ==> final(rng).state == old(rng).state,
        r is Ok ==> ({
            let m = layer_model(width, height, tolerance, cat.centers@, cat.sprites, old(rng).state);
            let c = layer_centroid(width, height, tolerance, old(rng).state);
            let cfg = drawn_config(width, height, tolerance, old(rng).state);
            let out = r->Ok_0;
            &&& out.1.wf()
            &&& out.1.width == width
            &&& out.1.height == height
            &&& out.1.cells@ == m.0
            &&& final(rng).state == m.1
            &&& out.0.x == c.0
            &&& out.0.y == c.1
            &&& out.2 == layer_unmatched(width, height, tolerance, cat.centers@, old(rng).state)
            &&& out.1.spec_cell(cfg.seed_x(), cfg.seed_y()) == Some(cat.centers@[0])
            &&& (cat.centers_not_boundary() ==> forall|x: int, y: int|
                (#[trigger] out.1.spec_cell(x, y)) matches Some(t) && on_grid(
                    width as int,
                    height as int,
                    x,
                    y,
                ) && cat.centers@.contains(t) ==> inside_ellipse(cfg, x, y))
        }),
{
    if width == 0 || height == 0 {
        return Err(ConfigError::ZeroDimension);
    }
    if width > MAX_DIM || height > MAX_DIM {
        return Err(ConfigError::DimensionTooLarge);
    }
    if cat.centers.len() == 0 {
        return Err(ConfigError::EmptyCenterTiles);
    }
    if cat.centers.len() > 64 {
        return Err(ConfigError::CenterSetTooLarge);
    }
    if tolerance == 0 || tolerance > MAX_TOLERANCE {
        return Err(ConfigError::ToleranceOutOfRange);
    }
    let out = generate_layer_core(width, height, tolerance, cat, rng);
    Ok(out)
}

} // verus!
