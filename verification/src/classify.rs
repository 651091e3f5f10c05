//! Edge and corner resolution from neighbour occupancy.
//!
//! Two ordered passes over the occupancy grid, each reading every
//! neighbour from a snapshot taken before the pass writes anything, so the
//! outcome never depends on the visiting order.  The *edge pass* gives
//! each empty cell bordering the land an edge sprite picked from a fixed
//! precedence table over its 4-bit cardinal occupancy mask.  The *corner
//! pass* then fills the diagonal transitions that remain, with a mask that
//! discounts a neighbour whose edge sprite already covers that side, so a
//! concave boundary never carries both an edge and a redundant corner.

use vstd::prelude::*;

use crate::catalog::BoundarySprites;
use crate::grid::{TileGrid, cell_index, div_mod_decompose, mul_index_in_range, occupied_at};
use crate::tileset::TileIndex;

verus! {

/// The edge sprite assigned for a cardinal occupancy mask, or `None` for
/// the isolated mask and for the masks the table deliberately leaves out.
pub open spec fn edge_tile_for_mask(
    cat: BoundarySprites,
    top: bool,
    bottom: bool,
    left: bool,
    right: bool,
) -> Option<TileIndex> {
    if !top && bottom && left && right {
        Some(cat.top_edge)
    } else if !top && bottom && !left && !right {
        Some(cat.top_edge)
    } else if top && !bottom && left && right {
        Some(cat.bottom_edge)
    } else if top && !bottom && !left && !right {
        Some(cat.bottom_edge)
    } else if top && bottom && !left && right {
        Some(cat.left_edge)
    } else if !top && !bottom && !left && right {
        Some(cat.left_edge)
    } else if top && bottom && left && !right {
        Some(cat.right_edge)
    } else if !top && !bottom && left && !right {
        Some(cat.right_edge)
    } else if !top && bottom && !left && right {
        Some(cat.top_left_edge)
    } else if !top && bottom && left && !right {
        Some(cat.top_right_edge)
    } else if top && !bottom && !left && right {
        Some(cat.bottom_left_edge)
    } else if top && !bottom && left && !right {
        Some(cat.bottom_right_edge)
    } else {
        None
    }
}

/// The masks outside the table that still touch land: occupied on all four
/// sides, only above and below, or only left and right.  They are counted
/// as a diagnostic, not treated as an error.
pub open spec fn mask_unmatched(top: bool, bottom: bool, left: bool, right: bool) -> bool {
    ||| (top && bottom && left && right)
    ||| (top && bottom && !left && !right)
    ||| (!top && !bottom && left && right)
}

/// What the edge pass leaves at flat index `i`: occupied cells are kept,
/// empty cells get the sprite their cardinal mask selects, if any.
pub open spec fn edge_cell(orig: Seq<Option<TileIndex>>, w: int, h: int, cat: BoundarySprites, i: int) -> Option<
    TileIndex,
> {
    let x = i % w;
    let y = i / w;
    if orig[i] is Some {
        orig[i]
    } else {
        edge_tile_for_mask(
            cat,
            occupied_at(orig, w, h, x, y - 1),
            occupied_at(orig, w, h, x, y + 1),
            occupied_at(orig, w, h, x - 1, y),
            occupied_at(orig, w, h, x + 1, y),
        )
    }
}

/// The whole grid after the edge pass.
pub open spec fn edge_pass(orig: Seq<Option<TileIndex>>, w: int, h: int, cat: BoundarySprites) -> Seq<
    Option<TileIndex>,
> {
    Seq::new(orig.len(), |i: int| edge_cell(orig, w, h, cat, i))
}

/// How many of the first `n` cells are empty with an unmatched mask.
pub open spec fn unmatched_upto(orig: Seq<Option<TileIndex>>, w: int, h: int, n: int) -> int
    decreases n,
{
    if n <= 0 {
        0
    } else {
        let i = n - 1;
        let x = i % w;
        let y = i / w;
        unmatched_upto(orig, w, h, i) + if orig[i] is None && mask_unmatched(
            occupied_at(orig, w, h, x, y - 1),
            occupied_at(orig, w, h, x, y + 1),
            occupied_at(orig, w, h, x - 1, y),
            occupied_at(orig, w, h, x + 1, y),
        ) {
            1int
        } else {
            0int
        }
    }
}

/// Whether the corner pass counts the cell `(x, y)` as an occupied
/// neighbour: occupied and not carrying the one edge sprite that would
/// make a corner on that side redundant.
pub open spec fn corner_neighbor(
    orig: Seq<Option<TileIndex>>,
    w: int,
    h: int,
    x: int,
    y: int,
    excluded: TileIndex,
) -> bool {
    occupied_at(orig, w, h, x, y) && orig[cell_index(w, x, y)] != Some(excluded)
}

/// The corner sprite assigned for an adjusted occupancy mask.
pub open spec fn corner_tile_for_mask(
    cat: BoundarySprites,
    top: bool,
    bottom: bool,
    left: bool,
    right: bool,
) -> Option<TileIndex> {
    if !top && bottom && !left && right {
        Some(cat.top_left_corner)
    } else if !top && bottom && left && !right {
        Some(cat.top_right_corner)
    } else if top && !bottom && !left && right {
        Some(cat.bottom_left_corner)
    } else if top && !bottom && left && !right {
        Some(cat.bottom_right_corner)
    } else {
        None
    }
}

/// What the corner pass leaves at flat index `i`.
pub open spec fn corner_cell(
    orig: Seq<Option<TileIndex>>,
    w: int,
    h: int,
    cat: BoundarySprites,
    i: int,
) -> Option<TileIndex> {
    let x = i % w;
    let y = i / w;
    if orig[i] is Some {
        orig[i]
    } else {
        corner_tile_for_mask(
            cat,
            corner_neighbor(orig, w, h, x, y - 1, cat.bottom_edge),
            corner_neighbor(orig, w, h, x, y + 1, cat.top_edge),
            corner_neighbor(orig, w, h, x - 1, y, cat.right_edge),
            corner_neighbor(orig, w, h, x + 1, y, cat.left_edge),
        )
    }
}

/// The whole grid after the corner pass.
pub open spec fn corner_pass(orig: Seq<Option<TileIndex>>, w: int, h: int, cat: BoundarySprites) -> Seq<
    Option<TileIndex>,
> {
    Seq::new(orig.len(), |i: int| corner_cell(orig, w, h, cat, i))
}

/// The edge sprite for a mask, as executable code.
fn edge_tile_for_mask_exec(
    cat: &BoundarySprites,
    top: bool,
    bottom: bool,
    left: bool,
    right: bool,
) -> (r: Option<TileIndex>)
    ensures
        r == edge_tile_for_mask(*cat, top, bottom, left, right),
{
    if !top && bottom && left && right {
        Some(cat.top_edge)
    } else if !top && bottom && !left && !right {
        Some(cat.top_edge)
    } else if top && !bottom && left && right {
        Some(cat.bottom_edge)
    } else if top && !bottom && !left && !right {
        Some(cat.bottom_edge)
    } else if top && bottom && !left && right {
        Some(cat.left_edge)
    } else if !top && !bottom && !left && right {
        Some(cat.left_edge)
    } else if top && bottom && left && !right {
        Some(cat.right_edge)
    } else if !top && !bottom && left && !right {
        Some(cat.right_edge)
    } else if !top && bottom && !left && right {
        Some(cat.top_left_edge)
    } else if !top && bottom && left && !right {
        Some(cat.top_right_edge)
    } else if top && !bottom && !left && right {
        Some(cat.bottom_left_edge)
    } else if top && !bottom && left && !right {
        Some(cat.bottom_right_edge)
    } else {
        None
    }
}

/// The corner sprite for an adjusted mask, as executable code.
fn corner_tile_for_mask_exec(
    cat: &BoundarySprites,
    top: bool,
    bottom: bool,
    left: bool,
    right: bool,
) -> (r: Option<TileIndex>)
    ensures
        r == corner_tile_for_mask(*cat, top, bottom, left, right),
{
    if !top && bottom && !left && right {
        Some(cat.top_left_corner)
    } else if !top && bottom && left && !right {
        Some(cat.top_right_corner)
    } else if top && !bottom && !left && right {
        Some(cat.bottom_left_corner)
    } else if top && !bottom && left && !right {
        Some(cat.bottom_right_corner)
    } else {
        None
    }
}

/// Whether the corner pass counts `(x, y)` of `snap` as occupied, with
/// `excluded` discounted.
fn corner_probe(snap: &TileGrid, x: usize, y: usize, excluded: TileIndex) -> (r: bool)
    requires
        snap.wf(),
    ensures
        r == corner_neighbor(
            snap.cells@,
            snap.width as int,
            snap.height as int,
            x as int,
            y as int,
            excluded,
        ),
{
    if x < snap.width && y < snap.height {
        match snap.get(x, y) {
            Some(t) => !(t == excluded),
            None => false,
        }
    } else {
        false
    }
}

/// Runs the edge pass over `grid`, returning how many boundary cells had
/// a mask outside the table (left empty, recorded as a diagnostic).
pub fn populate_edges(grid: &mut TileGrid, cat: &BoundarySprites) -> (unmatched: usize)
    requires
        old(grid).wf(),
    ensures
        final(grid).wf(),
        final(grid).width == old(grid).width,
        final(grid).height == old(grid).height,
        final(grid).cells@ == edge_pass(
            old(grid).cells@,
            old(grid).width as int,
            old(grid).height as int,
            *cat,
        ),
        unmatched == unmatched_upto(
            old(grid).cells@,
            old(grid).width as int,
            old(grid).height as int,
            old(grid).cells@.len() as int,
        ),
{
    let snap = grid.snapshot();
    let ghost w = grid.width as int;
    let ghost h = grid.height as int;
    let n: usize = grid.cells.len();
    let mut unmatched: usize = 0;
    let mut i: usize = 0;
    while i < n
        invariant
            i <= n,
            n == snap.cells@.len(),
            snap.wf(),
            grid.wf(),
            grid.width == snap.width,
            grid.height == snap.height,
            w == grid.width as int,
            h == grid.height as int,
            grid.cells@.len() == n,
            forall|j: int| 0 <= j < i ==> grid.cells@[j] == edge_cell(snap.cells@, w, h, *cat, j),
            forall|j: int| i <= j < n ==> grid.cells@[j] == snap.cells@[j],
            unmatched == unmatched_upto(snap.cells@, w, h, i as int),
            unmatched <= i,
        decreases n - i,
    {
        proof {
            div_mod_decompose(i as int, w, h);
        }
        let x: usize = i % grid.width;
        let y: usize = i / grid.width;
        let occupied_here = match snap.get(x, y) {
            Some(_) => true,
            None => false,
        };
        if !occupied_here {
            let top = y > 0 && snap.is_occupied(x, y - 1);
            let bottom = snap.is_occupied(x, y + 1);
            let left = x > 0 && snap.is_occupied(x - 1, y);
            let right = snap.is_occupied(x + 1, y);
            let choice = edge_tile_for_mask_exec(cat, top, bottom, left, right);
            let ghost before = *grid;
            match choice {
                Some(t) => {
                    grid.set(x, y, Some(t));
                    proof {
                        mul_index_in_range(w, h, x as int, y as int);
                        assert forall|j: int| 0 <= j < i implies grid.cells@[j] == edge_cell(
                            snap.cells@,
                            w,
                            h,
                            *cat,
                            j,
                        ) by {
                            assert(grid.cells@[j] == before.cells@[j]);
                        }
                    }
                }
                None => {
                }
            }
            if top && bottom && left && right {
                unmatched = unmatched + 1;
            } else if top && bottom && !left && !right {
                unmatched = unmatched + 1;
            } else if !top && !bottom && left && right {
                unmatched = unmatched + 1;
            }
        }
        i = i + 1;
    }
    proof {
        assert(grid.cells@ =~= edge_pass(snap.cells@, w, h, *cat));
    }
    unmatched
}

/// Runs the corner pass over `grid`.
pub fn populate_corners(grid: &mut TileGrid, cat: &BoundarySprites)
    requires
        old(grid).wf(),
    ensures
        final(grid).wf(),
        final(grid).width == old(grid).width,
        final(grid).height == old(grid).height,
        final(grid).cells@ == corner_pass(
            old(grid).cells@,
            old(grid).width as int,
            old(grid).height as int,
            *cat,
        ),
{
    let snap = grid.snapshot();
    let ghost w = grid.width as int;
    let ghost h = grid.height as int;
    let n: usize = grid.cells.len();
    let mut i: usize = 0;
    while i < n
        invariant
            i <= n,
            n == snap.cells@.len(),
            snap.wf(),
            grid.wf(),
            grid.width == snap.width,
            grid.height == snap.height,
            w == grid.width as int,
            h == grid.height as int,
            grid.cells@.len() == n,
            forall|j: int| 0 <= j < i ==> grid.cells@[j] == corner_cell(snap.cells@, w, h, *cat, j),
            forall|j: int| i <= j < n ==> grid.cells@[j] == snap.cells@[j],
        decreases n - i,
    {
        proof {
            div_mod_decompose(i as int, w, h);
        }
        let x: usize = i % grid.width;
        let y: usize = i / grid.width;
        let occupied_here = match snap.get(x, y) {
            Some(_) => true,
            None => false,
        };
        if !occupied_here {
            let top = y > 0 && corner_probe(&snap, x, y - 1, cat.bottom_edge);
            let bottom = corner_probe(&snap, x, y + 1, cat.top_edge);
            let left = x > 0 && corner_probe(&snap, x - 1, y, cat.right_edge);
            let right = corner_probe(&snap, x + 1, y, cat.left_edge);
            let choice = corner_tile_for_mask_exec(cat, top, bottom, left, right);
            let ghost before = *grid;
            match choice {
                Some(t) => {
                    grid.set(x, y, Some(t));
                    proof {
                        mul_index_in_range(w, h, x as int, y as int);
                        assert forall|j: int| 0 <= j < i implies grid.cells@[j] == corner_cell(
                            snap.cells@,
                            w,
                            h,
                            *cat,
                            j,
                        ) by {
                            assert(grid.cells@[j] == before.cells@[j]);
                        }
                    }
                }
                None => {
                }
            }
        }
        i = i + 1;
    }
    proof {
        assert(grid.cells@ =~= corner_pass(snap.cells@, w, h, *cat));
    }
}

} // verus!
