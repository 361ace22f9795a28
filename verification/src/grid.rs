//! The authoritative per-cell state of a terminal: a dense row-major grid of
//! tile cells with per-cell dirty tracking.
//!
//! Each cell holds a glyph code and two colors. Edits mark cells dirty; the
//! mesh builder reads the dirty set to regenerate only the affected vertex
//! ranges, and the caller clears the set after a successful rebuild. A grid
//! with a zero dimension is a valid "no geometry" state.

use vstd::prelude::*;

use crate::color::Rgba;
use crate::error::TerminalError;

verus! {

/// Upper bound on each grid dimension; a resize beyond it is rejected as
/// absurd. Keeps `4 * width * height` well inside `u32` and all coordinate
/// arithmetic inside `i64`.
pub const MAX_GRID_DIM: u32 = 4096;

/// One character position: a glyph code and flat foreground and background
/// colors.
#[derive(Clone, Copy, PartialEq, Eq, Structural, Debug)]
pub struct TileCell {
    /// Which glyph sprite to draw; resolved through the glyph mapping, so
    /// any value stays renderable.
    pub glyph: u32,
    /// Foreground color of the glyph.
    pub fg: Rgba,
    /// Background color behind the glyph.
    pub bg: Rgba,
}

/// The cell every fresh or cleared position holds: a space glyph, opaque
/// white foreground, transparent background.
pub open spec fn default_cell() -> TileCell {
    TileCell {
        glyph: 32,
        fg: Rgba { r: 255, g: 255, b: 255, a: 255 },
        bg: Rgba { r: 0, g: 0, b: 0, a: 0 },
    }
}

impl Default for TileCell {
    /// A space glyph with white foreground and transparent background.
    fn default() -> (r: Self)
        ensures
            r == default_cell(),
    {
        TileCell { glyph: 32, fg: Rgba::white(), bg: Rgba::transparent() }
    }
}

/// The dirty bookkeeping is consistent: every listed index is in range and
/// marked in the mask, every marked index is listed, and no index is listed
/// twice. The list is what makes dirty iteration cost proportional to the
/// number of dirty cells rather than to the grid size.
pub open spec fn dirty_wf(mask: Seq<bool>, list: Seq<usize>) -> bool {
    &&& forall|j: int|
        0 <= j < list.len() ==> (#[trigger] list[j]) < mask.len() && mask[list[j] as int]
    &&& forall|i: int| 0 <= i < mask.len() && #[trigger] mask[i] ==> list.contains(i as usize)
    &&& list.no_duplicates()
}

/// Marking a clean cell and appending its index keeps the dirty bookkeeping
/// consistent.
proof fn lemma_dirty_push(mask: Seq<bool>, list: Seq<usize>, idx: usize)
    requires
        dirty_wf(mask, list),
        idx < mask.len(),
        !mask[idx as int],
    ensures
        dirty_wf(mask.update(idx as int, true), list.push(idx)),
{
    let m2 = mask.update(idx as int, true);
    let l2 = list.push(idx);
    assert forall|j: int| 0 <= j < l2.len() implies (#[trigger] l2[j]) < m2.len() && m2[l2[j] as int] by {
        if j < list.len() {
            assert(l2[j] == list[j]);
        } else {
            assert(l2[j] == idx);
        }
    }
    assert forall|i: int| 0 <= i < m2.len() && #[trigger] m2[i] implies l2.contains(i as usize) by {
        if i == idx as int {
            assert(l2[list.len() as int] == i as usize);
        } else {
            assert(mask[i]);
            assert(list.contains(i as usize));
            let k = choose|k: int| 0 <= k < list.len() && list[k] == i as usize;
            assert(l2[k] == i as usize);
        }
    }
    assert forall|a: int, b: int|
        0 <= a < l2.len() && 0 <= b < l2.len() && a != b implies l2[a] != l2[b] by {
        if a < list.len() && b < list.len() {
            assert(list[a] != list[b]);
        } else if a < list.len() {
            assert(l2[b] == idx);
            if list[a] == idx {
                assert(mask[list[a] as int]);
            }
        } else if b < list.len() {
            assert(l2[a] == idx);
            if list[b] == idx {
                assert(mask[list[b] as int]);
            }
        }
    }
}

/// A mask with everything marked and the list of all indices in order are
/// consistent dirty bookkeeping: the state right after a grid is created or
/// resized, when the dirty set covers the whole grid.
proof fn lemma_all_dirty_iota(mask: Seq<bool>, list: Seq<usize>)
    requires
        mask.len() == list.len(),
        forall|i: int| 0 <= i < mask.len() ==> mask[i],
        forall|j: int| 0 <= j < list.len() ==> (#[trigger] list[j]) == j,
    ensures
        dirty_wf(mask, list),
{
    assert forall|i: int| 0 <= i < mask.len() && #[trigger] mask[i] implies list.contains(
        i as usize,
    ) by {
        assert(list[i] == i as usize);
    }
}

/// A row of `n` default cells, used to (re)fill the grid.
fn make_cells(n: usize) -> (v: Vec<TileCell>)
    ensures
        v@.len() == n,
        forall|i: int| 0 <= i < n ==> v@[i] == default_cell(),
{
    let mut v: Vec<TileCell> = Vec::new();
    let mut i: usize = 0;
    while i < n
        invariant
            i <= n,
            v@.len() == i,
            forall|j: int| 0 <= j < i ==> v@[j] == default_cell(),
        decreases n - i,
    {
        v.push(TileCell::default());
        i = i + 1;
    }
    v
}

/// A dirty mask of `n` positions, all set to `val`.
fn make_mask(n: usize, val: bool) -> (v: Vec<bool>)
    ensures
        v@.len() == n,
        forall|i: int| 0 <= i < n ==> v@[i] == val,
{
    let mut v: Vec<bool> = Vec::new();
    let mut i: usize = 0;
    while i < n
        invariant
            i <= n,
            v@.len() == i,
            forall|j: int| 0 <= j < i ==> v@[j] == val,
        decreases n - i,
    {
        v.push(val);
        i = i + 1;
    }
    v
}

/// The list of all indices below `n`, in increasing order: the dirty list
/// of a grid whose every cell is dirty.
fn make_iota(n: usize) -> (v: Vec<usize>)
    ensures
        v@.len() == n,
        forall|j: int| 0 <= j < n ==> (#[trigger] v@[j]) == j,
{
    let mut v: Vec<usize> = Vec::new();
    let mut i: usize = 0;
    while i < n
        invariant
            i <= n,
            v@.len() == i,
            forall|j: int| 0 <= j < i ==> (#[trigger] v@[j]) == j,
        decreases n - i,
    {
        v.push(i);
        i = i + 1;
    }
    v
}

/// The tile grid: dimensions, a dense row-major cell sequence, a dirty mask
/// with one flag per cell, and the duplicate-free list of dirty indices in
/// the order they were marked.
#[derive(Debug)]
pub struct TileGrid {
    width: u32,
    height: u32,
    cells: Vec<TileCell>,
    dirty: Vec<bool>,
    dirty_list: Vec<usize>,
}

impl TileGrid {
    /// Grid width in cells.
    pub closed spec fn spec_width(&self) -> u32 {
        self.width
    }

    /// Grid height in cells.
    pub closed spec fn spec_height(&self) -> u32 {
        self.height
    }

    /// The cells, row-major from the bottom-left cell.
    pub closed spec fn spec_cells(&self) -> Seq<TileCell> {
        self.cells@
    }

    /// The dirty mask, one flag per cell.
    pub closed spec fn spec_dirty(&self) -> Seq<bool> {
        self.dirty@
    }

    /// The dirty indices, each once, in the order they were marked.
    pub closed spec fn spec_dirty_list(&self) -> Seq<usize> {
        self.dirty_list@
    }

    /// Number of cells.
    pub open spec fn spec_cell_count(&self) -> int {
        self.spec_width() * self.spec_height()
    }

    /// The flat index of the cell at column `x`, row `y`.
    pub open spec fn spec_index(&self, x: int, y: int) -> int {
        y * self.spec_width() + x
    }

    /// The cell at column `x`, row `y`.
    pub open spec fn spec_cell(&self, x: int, y: int) -> TileCell {
        self.spec_cells()[self.spec_index(x, y)]
    }

    /// Well-formedness: bounded dimensions, exactly `width * height` cells,
    /// and one dirty flag per cell.
    pub open spec fn wf(&self) -> bool {
        &&& self.spec_width() <= MAX_GRID_DIM
        &&& self.spec_height() <= MAX_GRID_DIM
        &&& self.spec_cells().len() == self.spec_cell_count()
        &&& self.spec_dirty().len() == self.spec_cell_count()
        &&& dirty_wf(self.spec_dirty(), self.spec_dirty_list())
    }

    /// Dimensions a resize accepts: nonzero and not absurd.
    pub open spec fn valid_dims(width: u32, height: u32) -> bool {
        &&& 1 <= width <= MAX_GRID_DIM
        &&& 1 <= height <= MAX_GRID_DIM
    }

    /// A fresh grid of default cells, everything dirty. Zero dimensions are
    /// allowed and mean "no geometry"; a dimension beyond `MAX_GRID_DIM` is
    /// rejected with `InvalidDimensions`.
    pub fn new(width: u32, height: u32) -> (r: Result<TileGrid, TerminalError>)
        ensures
            match r {
                Ok(g) => {
                    &&& width <= MAX_GRID_DIM && height <= MAX_GRID_DIM
                    &&& g.wf()
                    &&& g.spec_width() == width
                    &&& g.spec_height() == height
                    &&& forall|i: int| 0 <= i < g.spec_cells().len() ==> g.spec_cells()[i] == default_cell()
                    &&& forall|i: int| 0 <= i < g.spec_dirty().len() ==> g.spec_dirty()[i]
                    &&& g.spec_dirty_list().len() == g.spec_cell_count()
                    &&& forall|j: int| 0 <= j < g.spec_dirty_list().len() ==> (#[trigger] g.spec_dirty_list()[j]) == j
                },
                Err(e) => {
                    &&& e == TerminalError::InvalidDimensions
                    &&& !(width <= MAX_GRID_DIM && height <= MAX_GRID_DIM)
                },
            },
    {
        if width > MAX_GRID_DIM || height > MAX_GRID_DIM {
            return Err(TerminalError::InvalidDimensions);
        }
        proof {
            vstd::arithmetic::mul::lemma_mul_upper_bound(
                width as int,
                MAX_GRID_DIM as int,
                height as int,
                MAX_GRID_DIM as int,
            );
        }
        let n: usize = (width as usize) * (height as usize);
        let g = TileGrid {
            width,
            height,
            cells: make_cells(n),
            dirty: make_mask(n, true),
            dirty_list: make_iota(n),
        };
        proof {
            lemma_all_dirty_iota(g.spec_dirty(), g.spec_dirty_list());
        }
        Ok(g)
    }

    /// Grid width in cells.
    pub fn width(&self) -> (r: u32)
        ensures
            r == self.spec_width(),
    {
        self.width
    }

    /// Grid height in cells.
    pub fn height(&self) -> (r: u32)
        ensures
            r == self.spec_height(),
    {
        self.height
    }

    /// Number of cells.
    pub fn cell_count(&self) -> (r: usize)
        requires
            self.wf(),
        ensures
            r == self.spec_cell_count(),
    {
        self.cells.len()
    }

    /// Reallocate the grid to new dimensions: every cell reverts to the
    /// default and the whole grid is marked dirty. Fails with
    /// `InvalidDimensions` (grid untouched) exactly on a zero or absurd
    /// dimension.
    pub fn resize(&mut self, width: u32, height: u32) -> (r: Result<(), TerminalError>)
        ensures
            match r {
                Ok(()) => {
                    &&& TileGrid::valid_dims(width, height)
                    &&& final(self).wf()
                    &&& final(self).spec_width() == width
                    &&& final(self).spec_height() == height
                    &&& forall|i: int|
                        0 <= i < final(self).spec_cells().len() ==> final(self).spec_cells()[i]
                            == default_cell()
                    &&& forall|i: int|
                        0 <= i < final(self).spec_dirty().len() ==> final(self).spec_dirty()[i]
                    &&& final(self).spec_dirty_list().len() == final(self).spec_cell_count()
                    &&& forall|j: int|
                        0 <= j < final(self).spec_dirty_list().len()
                            ==> (#[trigger] final(self).spec_dirty_list()[j]) == j
                },
                Err(e) => {
                    &&& e == TerminalError::InvalidDimensions
                    &&& !TileGrid::valid_dims(width, height)
                    &&& *final(self) == *old(self)
                },
            },
    {
        if width < 1 || height < 1 || width > MAX_GRID_DIM || height > MAX_GRID_DIM {
            return Err(TerminalError::InvalidDimensions);
        }
        proof {
            vstd::arithmetic::mul::lemma_mul_upper_bound(
                width as int,
                MAX_GRID_DIM as int,
                height as int,
                MAX_GRID_DIM as int,
            );
        }
        let n: usize = (width as usize) * (height as usize);
        self.width = width;
        self.height = height;
        self.cells = make_cells(n);
        self.dirty = make_mask(n, true);
        self.dirty_list = make_iota(n);
        proof {
            lemma_all_dirty_iota(self.spec_dirty(), self.spec_dirty_list());
        }
        Ok(())
    }

    /// Write one cell, marking it dirty. Fails with `OutOfBounds` (grid
    /// untouched) exactly when the coordinates lie outside the grid.
    pub fn set_cell(&mut self, x: u32, y: u32, cell: TileCell) -> (r: Result<(), TerminalError>)
        requires
            old(self).wf(),
        ensures
            final(self).wf(),
            final(self).spec_width() == old(self).spec_width(),
            final(self).spec_height() == old(self).spec_height(),
            match r {
                Ok(()) => {
                    &&& x < old(self).spec_width() && y < old(self).spec_height()
                    &&& final(self).spec_cells() == old(self).spec_cells().update(
                        old(self).spec_index(x as int, y as int),
                        cell,
                    )
                    &&& final(self).spec_dirty() == old(self).spec_dirty().update(
                        old(self).spec_index(x as int, y as int),
                        true,
                    )
                    &&& final(self).spec_dirty_list() == (if old(self).spec_dirty()[old(self).spec_index(
                        x as int,
                        y as int,
                    )] {
                        old(self).spec_dirty_list()
                    } else {
                        old(self).spec_dirty_list().push(
                            old(self).spec_index(x as int, y as int) as usize,
                        )
                    })
                },
                Err(e) => {
                    &&& e == TerminalError::OutOfBounds
                    &&& !(x < old(self).spec_width() && y < old(self).spec_height())
                    &&& *final(self) == *old(self)
                },
            },
    {
        if x >= self.width || y >= self.height {
            return Err(TerminalError::OutOfBounds);
        }
        proof {
            self.lemma_index_in_range(x as int, y as int);
        }
        let idx: usize = (y as usize) * (self.width as usize) + (x as usize);
        self.cells.set(idx, cell);
        if !self.dirty[idx] {
            proof {
                lemma_dirty_push(self.spec_dirty(), self.spec_dirty_list(), idx);
            }
            self.dirty.set(idx, true);
            self.dirty_list.push(idx);
        } else {
            proof {
                assert(self.spec_dirty() =~= self.spec_dirty().update(idx as int, true));
            }
        }
        Ok(())
    }

    /// Read one cell. Fails with `OutOfBounds` exactly when the coordinates
    /// lie outside the grid.
    pub fn get_cell(&self, x: u32, y: u32) -> (r: Result<TileCell, TerminalError>)
        requires
            self.wf(),
        ensures
            match r {
                Ok(c) => {
                    &&& x < self.spec_width() && y < self.spec_height()
                    &&& c == self.spec_cell(x as int, y as int)
                },
                Err(e) => {
                    &&& e == TerminalError::OutOfBounds
                    &&& !(x < self.spec_width() && y < self.spec_height())
                },
            },
    {
        if x >= self.width || y >= self.height {
            return Err(TerminalError::OutOfBounds);
        }
        proof {
            self.lemma_index_in_range(x as int, y as int);
        }
        let idx: usize = (y as usize) * (self.width as usize) + (x as usize);
        Ok(self.cells[idx])
    }

    /// Read one cell by its flat row-major index.
    pub fn cell_at_index(&self, i: usize) -> (c: TileCell)
        requires
            self.wf(),
            i < self.spec_cell_count(),
        ensures
            c == self.spec_cells()[i as int],
    {
        self.cells[i]
    }

    /// Whether the cell at a flat index is marked dirty.
    pub fn is_dirty(&self, i: usize) -> (r: bool)
        requires
            self.wf(),
            i < self.spec_cell_count(),
        ensures
            r == self.spec_dirty()[i as int],
    {
        self.dirty[i]
    }

    /// Unmark every cell; called after a successful mesh rebuild.
    pub fn clear_dirty(&mut self)
        requires
            old(self).wf(),
        ensures
            final(self).wf(),
            final(self).spec_width() == old(self).spec_width(),
            final(self).spec_height() == old(self).spec_height(),
            final(self).spec_cells() == old(self).spec_cells(),
            forall|i: int| 0 <= i < final(self).spec_dirty().len() ==> !final(self).spec_dirty()[i],
            final(self).spec_dirty_list().len() == 0,
    {
        let n = self.dirty.len();
        self.dirty = make_mask(n, false);
        self.dirty_list = Vec::new();
    }

    /// The dirty cells: each marked flat index, each once, in the order it
    /// was marked, paired with the cell it holds. Reflects the current dirty
    /// set, not a snapshot; costs time proportional to the dirty set alone.
    pub fn iter_dirty(&self) -> (r: Vec<(usize, TileCell)>)
        requires
            self.wf(),
        ensures
            r@.len() == self.spec_dirty_list().len(),
            forall|k: int|
                0 <= k < r@.len() ==> {
                    &&& (#[trigger] r@[k]).0 == self.spec_dirty_list()[k]
                    &&& r@[k].1 == self.spec_cells()[r@[k].0 as int]
                },
    {
        let m = self.dirty_list.len();
        let mut r: Vec<(usize, TileCell)> = Vec::new();
        let mut j: usize = 0;
        while j < m
            invariant
                j <= m,
                self.wf(),
                m == self.spec_dirty_list().len(),
                r@.len() == j,
                forall|k: int|
                    0 <= k < j ==> {
                        &&& (#[trigger] r@[k]).0 == self.spec_dirty_list()[k]
                        &&& r@[k].1 == self.spec_cells()[r@[k].0 as int]
                    },
            decreases m - j,
        {
            let idx = self.dirty_list[j];
            r.push((idx, self.cells[idx]));
            j = j + 1;
        }
        r
    }

    /// The flat index of in-bounds coordinates is in range.
    proof fn lemma_index_in_range(&self, x: int, y: int)
        requires
            self.wf(),
            0 <= x < self.spec_width(),
            0 <= y < self.spec_height(),
        ensures
            0 <= self.spec_index(x, y) < self.spec_cell_count(),
            self.spec_index(x, y) < usize::MAX,
    {
        let w = self.spec_width() as int;
        let h = self.spec_height() as int;
        assert(0 <= y * w + x < w * h) by (nonlinear_arith)
            requires
                0 <= x < w,
                0 <= y < h,
        ;
        vstd::arithmetic::mul::lemma_mul_upper_bound(w, MAX_GRID_DIM as int, h, MAX_GRID_DIM as int);
    }
}

/// Law: a cell written at in-bounds coordinates is exactly what reading the
/// same coordinates from the updated grid yields. The premises are the
/// postcondition of `set_cell`; the conclusion is what `get_cell` returns.
pub proof fn lemma_cell_round_trip(g0: TileGrid, g1: TileGrid, x: u32, y: u32, cell: TileCell)
    requires
        g0.wf(),
        x < g0.spec_width(),
        y < g0.spec_height(),
        g1.spec_width() == g0.spec_width(),
        g1.spec_height() == g0.spec_height(),
        g1.spec_cells() == g0.spec_cells().update(g0.spec_index(x as int, y as int), cell),
    ensures
        g1.spec_cell(x as int, y as int) == cell,
{
    g0.lemma_index_in_range(x as int, y as int);
}

} // verus!
