//! Layout configuration: pivots, tile scaling, and the fixed-point scale
//! that world coordinates are expressed in.
//!
//! Pivots are normalized anchors in `[0,1]` per axis. To keep geometry
//! exact, a pivot is stored as an integer numerator over [`COORD_SCALE`],
//! and all mesh positions are produced in subunits: `COORD_SCALE` subunits
//! make one world unit. Because tile sizes are whole world units (or whole
//! pixels), every vertex coordinate is an exact integer of subunits.

use vstd::prelude::*;

use crate::font::TerminalFont;

verus! {

/// Subunits per world unit; also the denominator of pivot numerators.
pub const COORD_SCALE: u32 = 65536;

/// Anchor of the whole terminal mesh within world space, as numerators over
/// `COORD_SCALE`. `(0,0)` is the bottom-left corner of the mesh; the anchor
/// lands on the world origin.
#[derive(Clone, Copy, PartialEq, Eq, Structural, Debug)]
pub struct TerminalPivot {
    /// Horizontal numerator, at most `COORD_SCALE`.
    pub x: u32,
    /// Vertical numerator, at most `COORD_SCALE`.
    pub y: u32,
}

impl TerminalPivot {
    /// Well-formedness: both numerators stay within the unit interval.
    pub open spec fn wf(&self) -> bool {
        self.x <= COORD_SCALE && self.y <= COORD_SCALE
    }
}

impl Default for TerminalPivot {
    /// Centered: `(1/2, 1/2)`.
    fn default() -> (r: Self)
        ensures
            r == (TerminalPivot { x: 32768u32, y: 32768u32 }),
            r.wf(),
    {
        TerminalPivot { x: 32768, y: 32768 }
    }
}

/// Anchor of each tile quad relative to the tile's base position, as
/// numerators over `COORD_SCALE`. `(0,0)` is the tile's bottom-left corner.
#[derive(Clone, Copy, PartialEq, Eq, Structural, Debug)]
pub struct TilePivot {
    /// Horizontal numerator, at most `COORD_SCALE`.
    pub x: u32,
    /// Vertical numerator, at most `COORD_SCALE`.
    pub y: u32,
}

impl TilePivot {
    /// Well-formedness: both numerators stay within the unit interval.
    pub open spec fn wf(&self) -> bool {
        self.x <= COORD_SCALE && self.y <= COORD_SCALE
    }
}

impl Default for TilePivot {
    /// Bottom-left: `(0, 0)`.
    fn default() -> (r: Self)
        ensures
            r == (TilePivot { x: 0u32, y: 0u32 }),
            r.wf(),
    {
        TilePivot { x: 0, y: 0 }
    }
}

/// How terminal tiles are scaled into world space.
#[derive(Clone, Copy, PartialEq, Eq, Structural, Debug)]
pub enum TileScaling {
    /// Each tile takes up one square world unit. Intended for square fonts:
    /// a non-square font under this mode is a caller error and simply
    /// renders stretched.
    World,
    /// One texture pixel is one world unit, so a tile takes its pixel size
    /// in world units. Supports non-square fonts.
    Pixels,
}

impl Default for TileScaling {
    /// `World` scaling.
    fn default() -> (r: Self)
        ensures
            r == TileScaling::World,
    {
        TileScaling::World
    }
}

/// Horizontal world-unit size of one tile under a scaling mode.
pub open spec fn spec_tile_size_x(scaling: TileScaling, font: TerminalFont) -> int {
    match scaling {
        TileScaling::World => 1,
        TileScaling::Pixels => font.spec_tile_width_px() as int,
    }
}

/// Vertical world-unit size of one tile under a scaling mode.
pub open spec fn spec_tile_size_y(scaling: TileScaling, font: TerminalFont) -> int {
    match scaling {
        TileScaling::World => 1,
        TileScaling::Pixels => font.spec_pixels_per_unit() as int,
    }
}

/// The world-unit size of one tile: `(1,1)` under `World` scaling, the
/// tile's pixel size under `Pixels` scaling.
pub fn tile_size_world(scaling: TileScaling, font: &TerminalFont) -> (r: (u32, u32))
    ensures
        r.0 == spec_tile_size_x(scaling, *font),
        r.1 == spec_tile_size_y(scaling, *font),
{
    match scaling {
        TileScaling::World => (1, 1),
        TileScaling::Pixels => (font.tile_width_pixels(), font.pixels_per_unit()),
    }
}

/// Everything the mesh builder needs besides the grid, the font and the
/// mapping: both pivots, the scaling mode, and the texture-space vertical
/// orientation.
#[derive(Clone, Copy, PartialEq, Eq, Structural, Debug)]
pub struct LayoutConfig {
    /// Anchor of the whole terminal mesh.
    pub terminal_pivot: TerminalPivot,
    /// Anchor of each tile quad.
    pub tile_pivot: TilePivot,
    /// How tiles are scaled into world space.
    pub scaling: TileScaling,
    /// Whether the vertical texture coordinate is flipped; resolves the
    /// render backend's texture-space convention at mesh-build time.
    pub uv_flip: bool,
}

impl LayoutConfig {
    /// Well-formedness: both pivots stay within the unit square.
    pub open spec fn wf(&self) -> bool {
        self.terminal_pivot.wf() && self.tile_pivot.wf()
    }
}

impl Default for LayoutConfig {
    /// Centered terminal pivot, bottom-left tile pivot, `World` scaling, no
    /// vertical flip.
    fn default() -> (r: Self)
        ensures
            r.terminal_pivot == (TerminalPivot { x: 32768u32, y: 32768u32 }),
            r.tile_pivot == (TilePivot { x: 0u32, y: 0u32 }),
            r.scaling == TileScaling::World,
            r.uv_flip == false,
            r.wf(),
    {
        LayoutConfig {
            terminal_pivot: TerminalPivot::default(),
            tile_pivot: TilePivot::default(),
            scaling: TileScaling::default(),
            uv_flip: false,
        }
    }
}

} // verus!
