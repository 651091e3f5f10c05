//! Closing interior gaps.
//!
//! After the random walk, the land mass can enclose single-cell holes and
//! thin pockets.  The gap filler repeats full passes until a fixed point:
//! each pass reads a snapshot taken at its start (so the visiting order
//! cannot matter) and fills every empty cell with at least three of its
//! four cardinal neighbours occupied, drawing a center sprite from the
//! rng.  Passes only ever turn empty cells into land, so the empty set
//! shrinks monotonically and the iteration terminates.

use vstd::prelude::*;

use crate::grid::{
    TileGrid, cardinal_occupancy, cell_index, cell_index_inverse, div_mod_decompose,
    mul_index_in_range, occupied_at,
};
use crate::rng::{SeedRng, rng_next, rng_pick};
use crate::tileset::TileIndex;

verus! {

/// Whether one pass fills flat index `i`: empty, with at least three of
/// its four cardinal neighbours occupied in the snapshot.
pub open spec fn fills_at(orig: Seq<Option<TileIndex>>, w: int, h: int, i: int) -> bool {
    orig[i] is None && cardinal_occupancy(orig, w, h, i % w, i / w) >= 3
}

/// One pass over the first `n` cells: neighbours are read from the
/// snapshot `orig`, filled values are drawn from the rng in visiting
/// order, and the flag reports whether anything was filled.
pub open spec fn gap_pass_upto(
    orig: Seq<Option<TileIndex>>,
    w: int,
    h: int,
    centers: Seq<TileIndex>,
    rng0: u64,
    n: int,
) -> (Seq<Option<TileIndex>>, u64, bool)
    decreases n,
{
    if n <= 0 {
        (orig, rng0, false)
    } else {
        let prev = gap_pass_upto(orig, w, h, centers, rng0, n - 1);
        let i = n - 1;
        if fills_at(orig, w, h, i) {
            let k = rng_pick(prev.1, centers.len() as u32);
            (prev.0.update(i, Some(centers[k as int])), rng_next(prev.1), true)
        } else {
            prev
        }
    }
}

/// One full pass.
pub open spec fn gap_pass(
    orig: Seq<Option<TileIndex>>,
    w: int,
    h: int,
    centers: Seq<TileIndex>,
    rng0: u64,
) -> (Seq<Option<TileIndex>>, u64, bool) {
    gap_pass_upto(orig, w, h, centers, rng0, orig.len() as int)
}

/// How many of the first `n` cells are empty.
pub open spec fn count_none_upto(cells: Seq<Option<TileIndex>>, n: int) -> int
    decreases n,
{
    if n <= 0 {
        0
    } else {
        count_none_upto(cells, n - 1) + if cells[n - 1] is None {
            1int
        } else {
            0int
        }
    }
}

/// Passes repeated to a fixed point, with the recursion bounded by a fuel
/// count; `gap_fill` supplies enough fuel that the fixed point is always
/// reached before the fuel runs out.
pub open spec fn gap_fill_rec(
    cells: Seq<Option<TileIndex>>,
    w: int,
    h: int,
    centers: Seq<TileIndex>,
    rng0: u64,
    fuel: nat,
) -> (Seq<Option<TileIndex>>, u64)
    decreases fuel,
{
    if fuel == 0 {
        (cells, rng0)
    } else {
        let pass = gap_pass(cells, w, h, centers, rng0);
        if !pass.2 {
            (cells, rng0)
        } else {
            gap_fill_rec(pass.0, w, h, centers, pass.1, (fuel - 1) as nat)
        }
    }
}

/// The gap-filling fixed point: every effective pass fills at least one
/// empty cell, so the number of empty cells is enough fuel.
pub open spec fn gap_fill(
    cells: Seq<Option<TileIndex>>,
    w: int,
    h: int,
    centers: Seq<TileIndex>,
    rng0: u64,
) -> (Seq<Option<TileIndex>>, u64) {
    gap_fill_rec(cells, w, h, centers, rng0, count_none_upto(cells, cells.len() as int) as nat)
}

/// What one pass does, cell by cell: exactly the qualifying cells are
/// filled, with center sprites, and the flag is their existence.
pub proof fn lemma_gap_pass_upto_char(
    orig: Seq<Option<TileIndex>>,
    w: int,
    h: int,
    centers: Seq<TileIndex>,
    rng0: u64,
    n: int,
)
    requires
        0 <= n <= orig.len(),
        1 <= centers.len() <= 64,
    ensures
        ({
            let r = gap_pass_upto(orig, w, h, centers, rng0, n);
            &&& r.0.len() == orig.len()
            &&& forall|j: int| n <= j < orig.len() ==> r.0[j] == orig[j]
            &&& forall|j: int|
                0 <= j < n && !fills_at(orig, w, h, j) ==> r.0[j] == orig[j]
            &&& forall|j: int|
                0 <= j < n && #[trigger] fills_at(orig, w, h, j) ==> r.0[j] is Some
                    && centers.contains(r.0[j]->Some_0)
            &&& r.2 == exists|j: int| 0 <= j < n && #[trigger] fills_at(orig, w, h, j)
            &&& !r.2 ==> r.0 == orig && r.1 == rng0
        }),
    decreases n,
{
    if n <= 0 {
    } else {
        lemma_gap_pass_upto_char(orig, w, h, centers, rng0, n - 1);
        let prev = gap_pass_upto(orig, w, h, centers, rng0, n - 1);
        let r = gap_pass_upto(orig, w, h, centers, rng0, n);
        let i = n - 1;
        if fills_at(orig, w, h, i) {
            let k = rng_pick(prev.1, centers.len() as u32);
            assert(k < centers.len());
            assert(centers.contains(centers[k as int]));
            assert(r.2 == exists|j: int| 0 <= j < n && #[trigger] fills_at(orig, w, h, j));
        } else {
            if !r.2 {
                assert(r.0 == orig && r.1 == rng0);
            }
            assert(r.2 == exists|j: int| 0 <= j < n && #[trigger] fills_at(orig, w, h, j));
        }
    }
}

/// Empty-cell counts are non-negative.
pub proof fn lemma_count_none_nonneg(cells: Seq<Option<TileIndex>>, n: int)
    ensures
        0 <= count_none_upto(cells, n),
    decreases n,
{
    if n > 0 {
        lemma_count_none_nonneg(cells, n - 1);
    }
}

/// Pointwise fewer empty cells means a smaller (or equal) count.
pub proof fn lemma_count_none_le(
    a: Seq<Option<TileIndex>>,
    b: Seq<Option<TileIndex>>,
    n: int,
)
    requires
        forall|j: int| 0 <= j < n && b[j] is None ==> a[j] is None,
    ensures
        count_none_upto(b, n) <= count_none_upto(a, n),
    decreases n,
{
    if n > 0 {
        lemma_count_none_le(a, b, n - 1);
    }
}

/// With a witness cell that was empty and got filled, the count strictly
/// drops.
pub proof fn lemma_count_none_lt(
    a: Seq<Option<TileIndex>>,
    b: Seq<Option<TileIndex>>,
    n: int,
    jw: int,
)
    requires
        forall|j: int| 0 <= j < n && b[j] is None ==> a[j] is None,
        0 <= jw < n,
        a[jw] is None,
        b[jw] is Some,
    ensures
        count_none_upto(b, n) < count_none_upto(a, n),
    decreases n,
{
    if jw == n - 1 {
        lemma_count_none_le(a, b, n - 1);
    } else {
        lemma_count_none_lt(a, b, n - 1, jw);
    }
}

/// What the whole fixed-point iteration guarantees, for any predicate `p`
/// over coordinates that is closed under vertical and horizontal
/// midpoints: occupied cells are preserved with their sprites, cells are
/// never emptied, newly filled cells hold center sprites, no empty cell
/// with three occupied cardinal neighbours remains, and `p` keeps holding
/// over all occupied cells.
pub proof fn lemma_gap_fill_rec_props(
    cells: Seq<Option<TileIndex>>,
    w: int,
    h: int,
    centers: Seq<TileIndex>,
    rng0: u64,
    fuel: nat,
    p: spec_fn(int, int) -> bool,
)
    requires
        1 <= w,
        1 <= h,
        cells.len() == w * h,
        1 <= centers.len() <= 64,
        fuel >= count_none_upto(cells, cells.len() as int),
        forall|x: int, y: int| occupied_at(cells, w, h, x, y) ==> #[trigger] p(x, y),
        forall|x: int, y: int| p(x, y - 1) && p(x, y + 1) ==> #[trigger] p(x, y),
        forall|x: int, y: int| p(x - 1, y) && p(x + 1, y) ==> #[trigger] p(x, y),
    ensures
        ({
            let r = gap_fill_rec(cells, w, h, centers, rng0, fuel);
            &&& r.0.len() == cells.len()
            &&& forall|j: int| 0 <= j < cells.len() && cells[j] is Some ==> r.0[j] == cells[j]
            &&& forall|j: int| 0 <= j < cells.len() && r.0[j] is None ==> cells[j] is None
            &&& forall|j: int|
                0 <= j < cells.len() && cells[j] is None && r.0[j] is Some ==> centers.contains(
                    r.0[j]->Some_0,
                )
            &&& forall|j: int|
                0 <= j < cells.len() && r.0[j] is None ==> cardinal_occupancy(
                    r.0,
                    w,
                    h,
                    j % w,
                    j / w,
                ) < 3
            &&& forall|x: int, y: int| occupied_at(r.0, w, h, x, y) ==> #[trigger] p(x, y)
        }),
    decreases fuel,
{
    let n = cells.len() as int;
    lemma_gap_pass_upto_char(cells, w, h, centers, rng0, n);
    let pass = gap_pass(cells, w, h, centers, rng0);
    if fuel == 0 {
        // No fuel is only possible with no empty cells at all, and then
        // the result is the input and every claim is immediate.
        lemma_count_none_nonneg(cells, n);
        assert forall|j: int|
            0 <= j < cells.len() && cells[j] is None implies cardinal_occupancy(
            cells,
            w,
            h,
            j % w,
            j / w,
        ) < 3 by {
            lemma_count_none_none_at(cells, n, j);
        }
        assert(gap_fill_rec(cells, w, h, centers, rng0, fuel).0 == cells);
        assert(p2_holds(gap_fill_rec(cells, w, h, centers, rng0, fuel).0, w, h));
    } else if !pass.2 {
        // Fixed point already: nothing qualifies for filling, which is
        // exactly the no-gaps property.
        assert forall|j: int|
            0 <= j < cells.len() && cells[j] is None implies cardinal_occupancy(
            cells,
            w,
            h,
            j % w,
            j / w,
        ) < 3 by {
            assert(!fills_at(cells, w, h, j));
        }
        assert(gap_fill_rec(cells, w, h, centers, rng0, fuel).0 == cells);
        assert(p2_holds(gap_fill_rec(cells, w, h, centers, rng0, fuel).0, w, h));
    } else {
        // An effective pass: it strictly shrinks the empty set, keeps the
        // invariant p (a filled cell sits midway between two occupied,
        // hence p-satisfying, neighbours), and the recursion finishes the
        // job.
        let jw = choose|j: int| 0 <= j < n && #[trigger] fills_at(cells, w, h, j);
        assert(pass.0[jw] is Some);
        lemma_count_none_lt(cells, pass.0, n, jw);
        lemma_count_none_nonneg(pass.0, n);
        assert forall|x: int, y: int| occupied_at(pass.0, w, h, x, y) implies #[trigger] p(
            x,
            y,
        ) by {
            let j = cell_index(w, x, y);
            cell_index_inverse(w, h, x, y);
            if cells[j] is Some {
                assert(occupied_at(cells, w, h, x, y));
            } else {
                assert(fills_at(cells, w, h, j));
                assert(cardinal_occupancy(cells, w, h, x, y) >= 3);
                if occupied_at(cells, w, h, x, y - 1) && occupied_at(cells, w, h, x, y + 1) {
                    assert(p(x, y - 1) && p(x, y + 1));
                } else {
                    assert(occupied_at(cells, w, h, x - 1, y) && occupied_at(
                        cells,
                        w,
                        h,
                        x + 1,
                        y,
                    ));
                    assert(p(x - 1, y) && p(x + 1, y));
                }
            }
        }
        lemma_gap_fill_rec_props(pass.0, w, h, centers, pass.1, (fuel - 1) as nat, p);
        let r = gap_fill_rec(cells, w, h, centers, rng0, fuel);
        assert(r == gap_fill_rec(pass.0, w, h, centers, pass.1, (fuel - 1) as nat));
        assert forall|j: int| 0 <= j < cells.len() && cells[j] is Some implies r.0[j] == cells[j] by {
            assert(!fills_at(cells, w, h, j));
            assert(pass.0[j] == cells[j]);
        }
        assert forall|j: int| 0 <= j < cells.len() && r.0[j] is None implies cells[j] is None by {
            assert(pass.0[j] is None);
            if fills_at(cells, w, h, j) {
                assert(false);
            }
            assert(pass.0[j] == cells[j]);
        }
        assert forall|j: int|
            0 <= j < cells.len() && cells[j] is None && r.0[j] is Some implies centers.contains(
            r.0[j]->Some_0,
        ) by {
            if pass.0[j] is Some {
                if !fills_at(cells, w, h, j) {
                    assert(pass.0[j] == cells[j]);
                    assert(false);
                }
                assert(centers.contains(pass.0[j]->Some_0));
                assert(r.0[j] == pass.0[j]);
            }
        }
        assert(p2_holds(gap_fill_rec(pass.0, w, h, centers, pass.1, (fuel - 1) as nat).0, w, h));
        assert(p2_holds(r.0, w, h));
    }
}

/// No empty cell has three or more occupied cardinal neighbours.
pub open spec fn p2_holds(cells: Seq<Option<TileIndex>>, w: int, h: int) -> bool {
    forall|j: int|
        0 <= j < cells.len() && cells[j] is None ==> cardinal_occupancy(
            cells,
            w,
            h,
            j % w,
            j / w,
        ) < 3
}

/// Fills single-cell and thin unclosed gaps in place, repeating passes
/// until one changes nothing.  Each pass reads neighbours from a snapshot
/// taken at its start.  The result is exactly the `gap_fill` fixed point
/// of the input: occupied cells keep their sprites, newly filled cells
/// hold sprites from `centers`, and afterwards no empty cell has three or
/// more occupied cardinal neighbours.
pub fn fill_single_tile_gaps(grid: &mut TileGrid, centers: &Vec<TileIndex>, rng: &mut SeedRng)
    requires
        old(grid).wf(),
        1 <= centers@.len() <= 64,
    ensures
        final(grid).wf(),
        final(grid).width == old(grid).width,
        final(grid).height == old(grid).height,
        ({
            let r = gap_fill(
                old(grid).cells@,
                old(grid).width as int,
                old(grid).height as int,
                centers@,
                old(rng).state,
            );
            final(grid).cells@ == r.0 && final(rng).state == r.1
        }),
        forall|j: int|
            0 <= j < old(grid).cells@.len() && old(grid).cells@[j] is Some
                ==> final(grid).cells@[j] == old(grid).cells@[j],
        forall|j: int|
            0 <= j < old(grid).cells@.len() && final(grid).cells@[j] is None
                ==> old(grid).cells@[j] is None,
        forall|j: int|
            0 <= j < old(grid).cells@.len() && old(grid).cells@[j] is None
                && final(grid).cells@[j] is Some
                ==> centers@.contains(final(grid).cells@[j]->Some_0),
        forall|j: int|
            0 <= j < final(grid).cells@.len() && final(grid).cells@[j] is None
                ==> cardinal_occupancy(
                final(grid).cells@,
                old(grid).width as int,
                old(grid).height as int,
                j % old(grid).width as int,
                j / old(grid).width as int,
            ) < 3,
{
    let ghost w = grid.width as int;
    let ghost h = grid.height as int;
    let ghost orig0 = grid.cells@;
    let ghost rng0 = rng.state;
    let ghost fuel0: nat = count_none_upto(orig0, orig0.len() as int) as nat;
    let ghost mut fuel: nat = fuel0;
    let n: usize = grid.cells.len();
    proof {
        lemma_count_none_nonneg(orig0, n as int);
    }
    loop
        invariant
            grid.wf(),
            grid.width as int == w,
            grid.height as int == h,
            grid.cells@.len() == n,
            1 <= centers@.len() <= 64,
            fuel >= count_none_upto(grid.cells@, n as int),
            gap_fill_rec(orig0, w, h, centers@, rng0, fuel0) == gap_fill_rec(
                grid.cells@,
                w,
                h,
                centers@,
                rng.state,
                fuel,
            ),
        ensures
            grid.wf(),
            grid.width as int == w,
            grid.height as int == h,
            grid.cells@.len() == n,
            gap_fill_rec(orig0, w, h, centers@, rng0, fuel0).0 == grid.cells@,
            gap_fill_rec(orig0, w, h, centers@, rng0, fuel0).1 == rng.state,
        decreases fuel,
    {
        let snap = grid.snapshot();
        let ghost pre_cells = grid.cells@;
        let ghost pre_rng = rng.state;
        let mut changed = false;
        let mut i: usize = 0;
        while i < n
            invariant
                i <= n,
                n == snap.cells@.len(),
                snap.wf(),
                grid.wf(),
                grid.width == snap.width,
                grid.height == snap.height,
                w == grid.width as int,
                h == grid.height as int,
                grid.cells@.len() == n,
                1 <= centers@.len() <= 64,
                snap.cells@ == pre_cells,
                ({
                    let st = gap_pass_upto(pre_cells, w, h, centers@, pre_rng, i as int);
                    grid.cells@ == st.0 && rng.state == st.1 && changed == st.2
                }),
            decreases n - i,
        {
            proof {
                div_mod_decompose(i as int, w, h);
            }
            let x: usize = i % grid.width;
            let y: usize = i / grid.width;
            let occupied_here = match snap.get(x, y) {
                Some(_) => true,
                None => false,
            };
            if !occupied_here {
                let top: u32 = if y > 0 && snap.is_occupied(x, y - 1) {
                    1
                } else {
                    0
                };
                let bottom: u32 = if snap.is_occupied(x, y + 1) {
                    1
                } else {
                    0
                };
                let left: u32 = if x > 0 && snap.is_occupied(x - 1, y) {
                    1
                } else {
                    0
                };
                let right: u32 = if snap.is_occupied(x + 1, y) {
                    1
                } else {
                    0
                };
                if top + bottom + left + right >= 3 {
                    let k = rng.pick(centers.len() as u32);
                    let t = centers[k as usize];
                    let ghost before = *grid;
                    grid.set(x, y, Some(t));
                    changed = true;
                    proof {
                        mul_index_in_range(w, h, x as int, y as int);
                        assert(fills_at(pre_cells, w, h, i as int));
                    }
                } else {
                    proof {
                        assert(!fills_at(pre_cells, w, h, i as int));
                    }
                }
            } else {
                proof {
                    assert(!fills_at(pre_cells, w, h, i as int));
                }
            }
            i = i + 1;
        }
        proof {
            lemma_gap_pass_upto_char(pre_cells, w, h, centers@, pre_rng, n as int);
        }
        if !changed {
            proof {
                assert(gap_pass(pre_cells, w, h, centers@, pre_rng).2 == false);
                assert(gap_fill_rec(pre_cells, w, h, centers@, pre_rng, fuel) == (
                    pre_cells,
                    pre_rng,
                ));
            }
            break;
        }
        proof {
            let pass = gap_pass(pre_cells, w, h, centers@, pre_rng);
            let jw = choose|j: int| 0 <= j < n && #[trigger] fills_at(pre_cells, w, h, j);
            lemma_count_none_lt(pre_cells, pass.0, n as int, jw);
            lemma_count_none_nonneg(pass.0, n as int);
            assert(fuel >= 1);
            assert(gap_fill_rec(pre_cells, w, h, centers@, pre_rng, fuel) == gap_fill_rec(
                pass.0,
                w,
                h,
                centers@,
                pass.1,
                (fuel - 1) as nat,
            ));
            fuel = (fuel - 1) as nat;
        }
    }
    proof {
        let p = |x: int, y: int| true;
        lemma_gap_fill_rec_props(orig0, w, h, centers@, rng0, fuel0, p);
    }
}

/// A prefix containing an empty cell has a positive empty count.
pub proof fn lemma_count_none_none_at(cells: Seq<Option<TileIndex>>, n: int, j: int)
    requires
        0 <= j < n,
        cells[j] is None,
    ensures
        count_none_upto(cells, n) >= 1,
    decreases n,
{
    if j == n - 1 {
        lemma_count_none_nonneg(cells, n - 1);
    } else {
        lemma_count_none_none_at(cells, n - 1, j);
    }
}

} // verus!
