use ascii_terminal::color::Rgba;
use ascii_terminal::error::TerminalError;
use ascii_terminal::grid::{TileCell, TileGrid, MAX_GRID_DIM};

fn cell(glyph: u32) -> TileCell {
    TileCell { glyph, fg: Rgba::white(), bg: Rgba::black() }
}

#[test]
fn new_grid_is_default_and_all_dirty() {
    let g = TileGrid::new(3, 2).unwrap();
    assert_eq!(g.width(), 3);
    assert_eq!(g.height(), 2);
    assert_eq!(g.cell_count(), 6);
    let space = TileCell::default();
    assert_eq!(space.glyph, 32);
    for y in 0..2 {
        for x in 0..3 {
            assert_eq!(g.get_cell(x, y).unwrap(), space);
        }
    }
    assert_eq!(g.iter_dirty().len(), 6);
}

#[test]
fn zero_dimension_grid_is_valid() {
    let g = TileGrid::new(0, 5).unwrap();
    assert_eq!(g.cell_count(), 0);
    assert_eq!(g.iter_dirty().len(), 0);
    assert_eq!(g.get_cell(0, 0).unwrap_err(), TerminalError::OutOfBounds);
}

#[test]
fn absurd_dimensions_are_rejected() {
    assert_eq!(TileGrid::new(MAX_GRID_DIM + 1, 1).unwrap_err(), TerminalError::InvalidDimensions);
    let mut g = TileGrid::new(2, 2).unwrap();
    assert_eq!(g.resize(0, 3).unwrap_err(), TerminalError::InvalidDimensions);
    assert_eq!(g.resize(3, MAX_GRID_DIM + 1).unwrap_err(), TerminalError::InvalidDimensions);
    // The prior state is retained on failure.
    assert_eq!(g.width(), 2);
    assert_eq!(g.height(), 2);
    assert_eq!(g.cell_count(), 4);
}

#[test]
fn write_then_read_round_trip() {
    let mut g = TileGrid::new(4, 4).unwrap();
    let c = cell(65);
    g.set_cell(2, 3, c).unwrap();
    assert_eq!(g.get_cell(2, 3).unwrap(), c);
}

#[test]
fn out_of_bounds_write_is_rejected_without_mutation() {
    let mut g = TileGrid::new(2, 2).unwrap();
    g.clear_dirty();
    let before = g.get_cell(1, 1).unwrap();
    assert_eq!(g.set_cell(2, 0, cell(65)).unwrap_err(), TerminalError::OutOfBounds);
    assert_eq!(g.set_cell(0, 2, cell(65)).unwrap_err(), TerminalError::OutOfBounds);
    assert_eq!(g.get_cell(1, 1).unwrap(), before);
    // A rejected write marks nothing dirty.
    assert_eq!(g.iter_dirty().len(), 0);
}

#[test]
fn set_cell_marks_exactly_that_cell_dirty() {
    let mut g = TileGrid::new(3, 3).unwrap();
    g.clear_dirty();
    g.set_cell(1, 0, cell(65)).unwrap();
    g.set_cell(2, 2, cell(66)).unwrap();
    // Writing one cell twice keeps one entry.
    g.set_cell(1, 0, cell(67)).unwrap();
    let dirty = g.iter_dirty();
    assert_eq!(dirty.len(), 2);
    // Flat indices in the order first marked, paired with the current cells.
    assert_eq!(dirty[0].0, 1);
    assert_eq!(dirty[0].1, cell(67));
    assert_eq!(dirty[1].0, 8);
    assert_eq!(dirty[1].1, cell(66));
}

#[test]
fn resize_marks_everything_dirty_and_clears_content() {
    let mut g = TileGrid::new(2, 2).unwrap();
    g.set_cell(0, 0, cell(65)).unwrap();
    g.clear_dirty();
    g.resize(3, 3).unwrap();
    assert_eq!(g.cell_count(), 9);
    // The dirty set covers all 9 cells.
    let dirty = g.iter_dirty();
    assert_eq!(dirty.len(), 9);
    for (k, entry) in dirty.iter().enumerate() {
        assert_eq!(entry.0, k);
        assert_eq!(entry.1, TileCell::default());
    }
    // Clear-on-resize: the written cell is gone.
    assert_eq!(g.get_cell(0, 0).unwrap(), TileCell::default());
}

#[test]
fn clear_dirty_empties_the_dirty_set() {
    let mut g = TileGrid::new(2, 2).unwrap();
    g.set_cell(1, 1, cell(65)).unwrap();
    g.clear_dirty();
    assert_eq!(g.iter_dirty().len(), 0);
    // Cells are untouched by clearing the mask.
    assert_eq!(g.get_cell(1, 1).unwrap(), cell(65));
}
