//! The error taxonomy of the terminal core.
//!
//! Nothing here is fatal to a whole process: at worst one optional font is
//! skipped or one edit is rejected with the grid left unchanged.

use vstd::prelude::*;

verus! {

/// Every failure the terminal core can report.
#[derive(Clone, Copy, PartialEq, Eq, Structural, Debug)]
pub enum TerminalError {
    /// A font texture whose pixel dimensions are not evenly divisible by its
    /// atlas tile count (or that is degenerate or absurdly large). The font
    /// is skipped; other fonts still load.
    InvalidFontTexture,
    /// A font name absent from the registry. Never silently substituted:
    /// callers must fall back to a default name themselves.
    NotFound,
    /// A grid resize to a zero or absurd dimension. The prior grid state is
    /// retained.
    InvalidDimensions,
    /// A cell write outside the grid extents. The write is rejected and
    /// nothing is mutated.
    OutOfBounds,
}

} // verus!
