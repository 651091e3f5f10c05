//! The occupancy grid.
//!
//! A `TileGrid` is a `width x height` array of cells, each empty (`None`)
//! or holding one sprite.  Cells are stored row-major: the cell at
//! `(x, y)` lives at index `y * width + x`.  All generation passes and all
//! queries work over this one representation.

use vstd::prelude::*;

use crate::tileset::TileIndex;

verus! {

/// Largest accepted grid side.  Keeps every index, area and squared
/// distance comfortably inside the machine integer types.
pub const MAX_DIM: usize = 4096;

/// The row-major index of `(x, y)` in a grid `w` cells wide.
pub open spec fn cell_index(w: int, x: int, y: int) -> int {
    y * w + x
}

/// Whether `(x, y)` lies on a `w x h` grid.
pub open spec fn on_grid(w: int, h: int, x: int, y: int) -> bool {
    0 <= x < w && 0 <= y < h
}

/// Whether the cell `(x, y)` of `cells` is occupied; coordinates off the
/// grid count as unoccupied.
pub open spec fn occupied_at(cells: Seq<Option<TileIndex>>, w: int, h: int, x: int, y: int) -> bool {
    on_grid(w, h, x, y) && cells[cell_index(w, x, y)] is Some
}

/// How many of the four cardinal neighbours of `(x, y)` are occupied.
pub open spec fn cardinal_occupancy(
    cells: Seq<Option<TileIndex>>,
    w: int,
    h: int,
    x: int,
    y: int,
) -> int {
    (if occupied_at(cells, w, h, x, y - 1) { 1int } else { 0int })
        + (if occupied_at(cells, w, h, x, y + 1) { 1int } else { 0int })
        + (if occupied_at(cells, w, h, x - 1, y) { 1int } else { 0int })
        + (if occupied_at(cells, w, h, x + 1, y) { 1int } else { 0int })
}

/// A rectangular grid of optional sprites, stored row-major.
pub struct TileGrid {
    pub width: usize,
    pub height: usize,
    pub cells: Vec<Option<TileIndex>>,
}

impl TileGrid {
    /// Dimensions are positive, bounded, and the cell store matches them.
    pub open spec fn wf(self) -> bool {
        &&& 1 <= self.width <= MAX_DIM
        &&& 1 <= self.height <= MAX_DIM
        &&& self.cells@.len() == self.width * self.height
    }

    /// The cell at `(x, y)`.
    pub open spec fn spec_cell(self, x: int, y: int) -> Option<TileIndex> {
        self.cells@[cell_index(self.width as int, x, y)]
    }

    /// A fully empty grid.
    pub fn new(width: usize, height: usize) -> (r: TileGrid)
        requires
            1 <= width <= MAX_DIM,
            1 <= height <= MAX_DIM,
        ensures
            r.wf(),
            r.width == width,
            r.height == height,
            r.cells@ == Seq::new((width * height) as nat, |i: int| None::<TileIndex>),
    {
        proof {
            mul_le(width as int, MAX_DIM as int, height as int, MAX_DIM as int);
        }
        let n: usize = width * height;
        let mut cells: Vec<Option<TileIndex>> = Vec::new();
        let mut i: usize = 0;
        while i < n
            invariant
                i <= n,
                cells@.len() == i,
                forall|j: int| 0 <= j < i ==> cells@[j] is None,
            decreases n - i,
        {
            cells.push(None);
            i = i + 1;
        }
        assert(cells@ =~= Seq::new(n as nat, |i: int| None::<TileIndex>));
        TileGrid { width, height, cells }
    }

    /// The cell at `(x, y)`.
    pub fn get(&self, x: usize, y: usize) -> (r: Option<TileIndex>)
        requires
            self.wf(),
            x < self.width,
            y < self.height,
        ensures
            r == self.spec_cell(x as int, y as int),
    {
        proof {
            vstd::std_specs::vec::axiom_spec_len(&self.cells);
            mul_index_in_range(self.width as int, self.height as int, x as int, y as int);
        }
        self.cells[y * self.width + x]
    }

    /// Writes the cell at `(x, y)`.
    pub fn set(&mut self, x: usize, y: usize, v: Option<TileIndex>)
        requires
            old(self).wf(),
            x < old(self).width,
            y < old(self).height,
        ensures
            final(self).wf(),
            final(self).width == old(self).width,
            final(self).height == old(self).height,
            final(self).cells@ == old(self).cells@.update(
                cell_index(old(self).width as int, x as int, y as int),
                v,
            ),
    {
        proof {
            vstd::std_specs::vec::axiom_spec_len(&self.cells);
            mul_index_in_range(self.width as int, self.height as int, x as int, y as int);
        }
        let i: usize = y * self.width + x;
        self.cells[i] = v;
    }

    /// Whether `(x, y)` is on the grid and occupied; total, so callers can
    /// probe neighbours without a bounds check of their own.
    pub fn is_occupied(&self, x: usize, y: usize) -> (r: bool)
        requires
            self.wf(),
        ensures
            r == occupied_at(
                self.cells@,
                self.width as int,
                self.height as int,
                x as int,
                y as int,
            ),
    {
        if x < self.width && y < self.height {
            proof {
                vstd::std_specs::vec::axiom_spec_len(&self.cells);
                mul_index_in_range(self.width as int, self.height as int, x as int, y as int);
            }
            match self.cells[y * self.width + x] {
                Some(_) => true,
                None => false,
            }
        } else {
            false
        }
    }

    /// An independent copy, for the snapshot-then-write passes.
    pub fn snapshot(&self) -> (r: TileGrid)
        ensures
            r.width == self.width,
            r.height == self.height,
            r.cells@ == self.cells@,
    {
        let mut cells: Vec<Option<TileIndex>> = Vec::new();
        let n: usize = self.cells.len();
        let mut i: usize = 0;
        while i < n
            invariant
                i <= n,
                n == self.cells@.len(),
                cells@.len() == i,
                forall|j: int| 0 <= j < i ==> cells@[j] == self.cells@[j],
            decreases n - i,
        {
            cells.push(self.cells[i]);
            i = i + 1;
        }
        assert(cells@ =~= self.cells@);
        TileGrid { width: self.width, height: self.height, cells }
    }
}

/// Products of bounded non-negative factors are bounded.
pub proof fn mul_le(a: int, amax: int, b: int, bmax: int)
    by (nonlinear_arith)
    requires
        0 <= a <= amax,
        0 <= b <= bmax,
    ensures
        a * b <= amax * bmax,
{
}

/// Products of non-negative factors are non-negative.
pub proof fn mul_nonneg(a: int, b: int)
    by (nonlinear_arith)
    requires
        0 <= a,
        0 <= b,
    ensures
        0 <= a * b,
{
}

/// Row-major indices of on-grid coordinates stay below the cell count.
pub proof fn mul_index_in_range(w: int, h: int, x: int, y: int)
    by (nonlinear_arith)
    requires
        0 < w,
        0 < h,
        0 <= x < w,
        0 <= y < h,
    ensures
        0 <= cell_index(w, x, y) < w * h,
{
}

/// A row-major index decomposes into on-grid coordinates.
pub proof fn div_mod_decompose(i: int, w: int, h: int)
    by (nonlinear_arith)
    requires
        0 <= i,
        i < w * h,
        1 <= w,
    ensures
        0 <= i % w < w,
        0 <= i / w < h,
        cell_index(w, i % w, i / w) == i,
{
}

/// Row-major indexing and its decomposition are mutually inverse.
pub proof fn cell_index_inverse(w: int, h: int, x: int, y: int)
    by (nonlinear_arith)
    requires
        1 <= w,
        on_grid(w, h, x, y),
    ensures
        cell_index(w, x, y) % w == x,
        cell_index(w, x, y) / w == y,
        0 <= cell_index(w, x, y) < w * h,
{
}

/// Row-major indexing is injective: distinct on-grid coordinates get
/// distinct indices.
pub proof fn cell_index_injective(w: int, h: int, x1: int, y1: int, x2: int, y2: int)
    by (nonlinear_arith)
    requires
        0 < w,
        0 < h,
        on_grid(w, h, x1, y1),
        on_grid(w, h, x2, y2),
        !(x1 == x2 && y1 == y2),
    ensures
        cell_index(w, x1, y1) != cell_index(w, x2, y2),
{
}

} // verus!
