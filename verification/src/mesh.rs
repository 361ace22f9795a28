//! The mesh builder: turns the tile grid plus a glyph mapping, a font and a
//! layout configuration into GPU-drawable vertex and index buffers.
//!
//! Every cell becomes one quad: 4 vertices and 6 indices (two triangles,
//! counter-clockwise with +y up). Corner order within a quad is bottom-left,
//! bottom-right, top-right, top-left, and the index pattern per quad is
//! `{0,1,2, 2,3,0}` offset by four times the tile index.
//!
//! Positions are exact integers of subunits ([`COORD_SCALE`] per world
//! unit): the terminal pivot, tile pivot and tile size all multiply out to
//! whole subunits, so rebuilding never rounds. Texture coordinates are
//! numerators over the atlas tile count, stored next to their denominators
//! in the buffers.
//!
//! A full rebuild regenerates everything; a partial rebuild rewrites only
//! the quads of dirty cells and leaves the index buffer alone (it depends
//! only on the grid dimensions). Both establish the same predicate
//! [`mesh_built`], which pins every buffer element, so the two paths yield
//! identical buffers ([`lemma_mesh_build_deterministic`]).

use vstd::arithmetic::div_mod::{lemma_mod_division_less_than_divisor, lemma_multiply_divide_lt};
use vstd::arithmetic::mul::lemma_mul_upper_bound;
use vstd::prelude::*;

use crate::color::Rgba;
use crate::font::TerminalFont;
use crate::font::MAX_TILE_PIXELS;
use crate::glyph_mapping::GlyphMapping;
use crate::grid::TileGrid;
use crate::layout::{spec_tile_size_x, spec_tile_size_y, tile_size_world, LayoutConfig, COORD_SCALE};

verus! {

/// One vertex position, in subunits (`COORD_SCALE` subunits per world
/// unit). The grid is flat, so `z` is always 0.
#[derive(Clone, Copy, PartialEq, Eq, Structural, Debug)]
pub struct Vertex3 {
    pub x: i64,
    pub y: i64,
    pub z: i64,
}

/// One texture coordinate, as numerators over the mesh buffers' UV
/// denominators (the atlas tile count).
#[derive(Clone, Copy, PartialEq, Eq, Structural, Debug)]
pub struct UvVertex {
    pub u: u32,
    pub v: u32,
}

/// The derived GPU-facing buffers: per-vertex positions, texture
/// coordinates and flat colors, plus the quad index pattern. Exclusively
/// owned by one terminal; handed to the render backend each frame it
/// changed.
#[derive(Debug)]
pub struct MeshBuffers {
    /// Vertex positions, 4 per tile, in subunits.
    pub positions: Vec<Vertex3>,
    /// Texture coordinates, 4 per tile, numerators over the UV denominators.
    pub uvs: Vec<UvVertex>,
    /// Foreground color, flat across each tile's 4 vertices.
    pub fg_colors: Vec<Rgba>,
    /// Background color, flat across each tile's 4 vertices.
    pub bg_colors: Vec<Rgba>,
    /// Two counter-clockwise triangles per tile: `{0,1,2, 2,3,0}` offset by
    /// `4 * tile_index`.
    pub indices: Vec<u32>,
    /// Denominator of the `u` coordinates: the atlas tile columns.
    pub uv_denom_x: u32,
    /// Denominator of the `v` coordinates: the atlas tile rows.
    pub uv_denom_y: u32,
    /// Whether the buffers changed since the backend last uploaded them;
    /// set by every rebuild, cleared by `mark_uploaded`.
    pub changed: bool,
}

/// Horizontal corner offset of vertex `k` of a quad (corner order:
/// bottom-left, bottom-right, top-right, top-left).
pub open spec fn corner_dx(k: int) -> int {
    if k == 1 || k == 2 {
        1
    } else {
        0
    }
}

/// Vertical corner offset of vertex `k` of a quad.
pub open spec fn corner_dy(k: int) -> int {
    if k == 2 || k == 3 {
        1
    } else {
        0
    }
}

/// The constant index pattern of one quad: `{0,1,2, 2,3,0}`.
pub open spec fn index_pattern(j: int) -> int {
    if j == 0 {
        0
    } else if j == 1 {
        1
    } else if j == 2 {
        2
    } else if j == 3 {
        2
    } else if j == 4 {
        3
    } else {
        0
    }
}

/// Horizontal subunit step from one tile column to the next.
pub open spec fn spec_step_x(cfg: LayoutConfig, font: TerminalFont) -> int {
    spec_tile_size_x(cfg.scaling, font) * (COORD_SCALE as int)
}

/// Vertical subunit step from one tile row to the next.
pub open spec fn spec_step_y(cfg: LayoutConfig, font: TerminalFont) -> int {
    spec_tile_size_y(cfg.scaling, font) * (COORD_SCALE as int)
}

/// Horizontal subunit offset of the whole mesh: the terminal pivot scaled
/// by the grid's world width, negated so the anchor lands on the origin.
pub open spec fn spec_origin_x(cfg: LayoutConfig, font: TerminalFont, width: int) -> int {
    -(cfg.terminal_pivot.x * width * spec_tile_size_x(cfg.scaling, font))
}

/// Vertical subunit offset of the whole mesh.
pub open spec fn spec_origin_y(cfg: LayoutConfig, font: TerminalFont, height: int) -> int {
    -(cfg.terminal_pivot.y * height * spec_tile_size_y(cfg.scaling, font))
}

/// Horizontal subunit offset of each quad: the tile pivot scaled by the
/// tile's world width, subtracted so the anchor lands on the tile's base
/// position.
pub open spec fn spec_tile_offset_x(cfg: LayoutConfig, font: TerminalFont) -> int {
    cfg.tile_pivot.x * spec_tile_size_x(cfg.scaling, font)
}

/// Vertical subunit offset of each quad.
pub open spec fn spec_tile_offset_y(cfg: LayoutConfig, font: TerminalFont) -> int {
    cfg.tile_pivot.y * spec_tile_size_y(cfg.scaling, font)
}

/// The exact horizontal position, in subunits, of corner `k` of the tile in
/// column `col`.
pub open spec fn spec_pos_x(cfg: LayoutConfig, font: TerminalFont, width: int, col: int, k: int) -> int {
    spec_origin_x(cfg, font, width) + col * spec_step_x(cfg, font) + corner_dx(k) * spec_step_x(cfg, font)
        - spec_tile_offset_x(cfg, font)
}

/// The exact vertical position, in subunits, of corner `k` of the tile in
/// row `row`.
pub open spec fn spec_pos_y(cfg: LayoutConfig, font: TerminalFont, height: int, row: int, k: int) -> int {
    spec_origin_y(cfg, font, height) + row * spec_step_y(cfg, font) + corner_dy(k) * spec_step_y(cfg, font)
        - spec_tile_offset_y(cfg, font)
}

/// The `u` numerator of corner `k` for a glyph: its atlas column, or the
/// next column for the right-hand corners.
pub open spec fn spec_uv_u(mapping: GlyphMapping, glyph: u32, k: int) -> int {
    mapping.spec_map(glyph).col + corner_dx(k)
}

/// The `v` numerator of corner `k` for a glyph. In texture space `v` grows
/// downward, so the quad's bottom corners read the lower edge `row + 1` and
/// the top corners read `row`; with `uv_flip` the whole column is mirrored.
pub open spec fn spec_uv_v(mapping: GlyphMapping, font: TerminalFont, cfg: LayoutConfig, glyph: u32, k: int) -> int {
    let raw = mapping.spec_map(glyph).row + 1 - corner_dy(k);
    if cfg.uv_flip {
        font.spec_tile_count_y() - raw
    } else {
        raw
    }
}

/// What the mesh builder needs of its inputs: each part well-formed, and
/// the mapping built for exactly the font's atlas.
pub open spec fn inputs_wf(grid: TileGrid, mapping: GlyphMapping, font: TerminalFont, cfg: LayoutConfig) -> bool {
    &&& grid.wf()
    &&& mapping.wf()
    &&& font.wf()
    &&& cfg.wf()
    &&& mapping.spec_cols() == font.spec_tile_count_x()
    &&& mapping.spec_rows() == font.spec_tile_count_y()
}

/// The buffers have exactly 4 vertices and 6 indices per cell (so a grid
/// with a zero dimension yields empty buffers), and carry the font's atlas
/// tile count as UV denominators.
pub open spec fn mesh_sized(mb: MeshBuffers, grid: TileGrid, font: TerminalFont) -> bool {
    let n = grid.spec_cell_count();
    &&& mb.positions@.len() == 4 * n
    &&& mb.uvs@.len() == 4 * n
    &&& mb.fg_colors@.len() == 4 * n
    &&& mb.bg_colors@.len() == 4 * n
    &&& mb.indices@.len() == 6 * n
    &&& mb.uv_denom_x == font.spec_tile_count_x()
    &&& mb.uv_denom_y == font.spec_tile_count_y()
}

/// The index buffer holds the constant per-quad pattern for `n` tiles.
pub open spec fn indices_built(s: Seq<u32>, n: int) -> bool {
    &&& s.len() == 6 * n
    &&& forall|e: int| 0 <= e < 6 * n ==> (#[trigger] s[e]) as int == 4 * (e / 6) + index_pattern(e % 6)
}

/// Vertex `v` of the buffers is exactly what the grid, mapping, font and
/// layout dictate for corner `v % 4` of tile `v / 4`.
pub open spec fn vertex_matches(
    mb: MeshBuffers,
    grid: TileGrid,
    mapping: GlyphMapping,
    font: TerminalFont,
    cfg: LayoutConfig,
    v: int,
) -> bool {
    let w = grid.spec_width() as int;
    let h = grid.spec_height() as int;
    let i = v / 4;
    let k = v % 4;
    let col = i % w;
    let row = i / w;
    let cell = grid.spec_cells()[i];
    &&& mb.positions@[v].x == spec_pos_x(cfg, font, w, col, k)
    &&& mb.positions@[v].y == spec_pos_y(cfg, font, h, row, k)
    &&& mb.positions@[v].z == 0
    &&& mb.uvs@[v].u == spec_uv_u(mapping, cell.glyph, k)
    &&& mb.uvs@[v].v == spec_uv_v(mapping, font, cfg, cell.glyph, k)
    &&& mb.fg_colors@[v] == cell.fg
    &&& mb.bg_colors@[v] == cell.bg
}

/// The buffers are exactly what a rebuild of this grid under this mapping,
/// font and layout produces: right sizes, the constant index pattern, and
/// every vertex pinned down.
pub open spec fn mesh_built(
    mb: MeshBuffers,
    grid: TileGrid,
    mapping: GlyphMapping,
    font: TerminalFont,
    cfg: LayoutConfig,
) -> bool {
    &&& mesh_sized(mb, grid, font)
    &&& indices_built(mb.indices@, grid.spec_cell_count())
    &&& forall|v: int|
        0 <= v < 4 * grid.spec_cell_count() ==> #[trigger] vertex_matches(mb, grid, mapping, font, cfg, v)
}

/// A vector of `m` copies of one value.
fn filled<T: Copy>(m: usize, val: T) -> (v: Vec<T>)
    ensures
        v@.len() == m,
{
    let mut v: Vec<T> = Vec::new();
    let mut i: usize = 0;
    while i < m
        invariant
            i <= m,
            v@.len() == i,
        decreases m - i,
    {
        v.push(val);
        i = i + 1;
    }
    v
}

/// The index buffer for `n` tiles: `{0,1,2, 2,3,0}` offset by `4 * i` for
/// each tile `i`.
fn build_indices(n: usize) -> (v: Vec<u32>)
    requires
        n <= 0x1000000,
    ensures
        indices_built(v@, n as int),
{
    let mut v: Vec<u32> = Vec::new();
    let mut i: usize = 0;
    while i < n
        invariant
            i <= n,
            n <= 0x1000000,
            v@.len() == 6 * i,
            forall|e: int| 0 <= e < 6 * i ==> (#[trigger] v@[e]) as int == 4 * (e / 6) + index_pattern(e % 6),
        decreases n - i,
    {
        let base: u32 = (4 * i) as u32;
        v.push(base);
        v.push(base + 1);
        v.push(base + 2);
        v.push(base + 2);
        v.push(base + 3);
        v.push(base);
        proof {
            assert forall|e: int| 0 <= e < 6 * (i + 1) implies (#[trigger] v@[e]) as int == 4 * (e / 6)
                + index_pattern(e % 6) by {
                if e >= 6 * i {
                    assert(e / 6 == i as int) by (nonlinear_arith)
                        requires
                            6 * i <= e < 6 * (i + 1),
                    ;
                    assert(e % 6 == e - 6 * (i as int)) by (nonlinear_arith)
                        requires
                            6 * i <= e < 6 * (i + 1),
                            e / 6 == i as int,
                    ;
                }
            }
        }
        i = i + 1;
    }
    v
}

impl MeshBuffers {
    /// Empty buffers, before any rebuild: the state of a terminal with no
    /// geometry.
    pub fn new() -> (r: MeshBuffers)
        ensures
            r.positions@.len() == 0,
            r.uvs@.len() == 0,
            r.fg_colors@.len() == 0,
            r.bg_colors@.len() == 0,
            r.indices@.len() == 0,
            r.uv_denom_x == 1,
            r.uv_denom_y == 1,
            r.changed == false,
    {
        MeshBuffers {
            positions: Vec::new(),
            uvs: Vec::new(),
            fg_colors: Vec::new(),
            bg_colors: Vec::new(),
            indices: Vec::new(),
            uv_denom_x: 1,
            uv_denom_y: 1,
            changed: false,
        }
    }

    /// Whether the render backend needs to re-upload the buffers this frame.
    pub fn needs_upload(&self) -> (r: bool)
        ensures
            r == self.changed,
    {
        self.changed
    }

    /// Note that the backend has taken the current buffers; `needs_upload`
    /// reports false until the next rebuild.
    pub fn mark_uploaded(&mut self)
        ensures
            *final(self) == (MeshBuffers { changed: false, ..*old(self) }),
    {
        self.changed = false;
    }

    /// Write the 4 vertices of tile `i` in place from the current cell
    /// state. The layout parameters must be the exact subunit values of the
    /// configuration; everything outside this tile's 4 vertex slots is left
    /// untouched.
    fn write_tile(
        &mut self,
        grid: &TileGrid,
        mapping: &GlyphMapping,
        font: &TerminalFont,
        cfg: &LayoutConfig,
        i: usize,
        origin_x: i64,
        origin_y: i64,
        step_x: i64,
        step_y: i64,
        off_x: i64,
        off_y: i64,
    )
        requires
            inputs_wf(*grid, *mapping, *font, *cfg),
            i < grid.spec_cell_count(),
            mesh_sized(*old(self), *grid, *font),
            origin_x == spec_origin_x(*cfg, *font, grid.spec_width() as int),
            origin_y == spec_origin_y(*cfg, *font, grid.spec_height() as int),
            step_x == spec_step_x(*cfg, *font),
            step_y == spec_step_y(*cfg, *font),
            off_x == spec_tile_offset_x(*cfg, *font),
            off_y == spec_tile_offset_y(*cfg, *font),
        ensures
            mesh_sized(*final(self), *grid, *font),
            final(self).indices@ == old(self).indices@,
            final(self).changed == old(self).changed,
            forall|k: int|
                0 <= k < 4 ==> #[trigger] vertex_matches(*final(self), *grid, *mapping, *font, *cfg, 4 * i + k),
            forall|v: int|
                0 <= v < old(self).positions@.len() && !(4 * i <= v < 4 * i + 4) ==> {
                    &&& final(self).positions@[v] == old(self).positions@[v]
                    &&& final(self).uvs@[v] == old(self).uvs@[v]
                    &&& final(self).fg_colors@[v] == old(self).fg_colors@[v]
                    &&& final(self).bg_colors@[v] == old(self).bg_colors@[v]
                },
    {
        proof {
            lemma_layout_bounds(*grid, *font, *cfg);
        }
        let w = grid.width() as usize;
        proof {
            if grid.spec_width() == 0 || grid.spec_height() == 0 {
                assert(grid.spec_cell_count() == 0) by (nonlinear_arith)
                    requires
                        grid.spec_cell_count() == grid.spec_width() * grid.spec_height(),
                        grid.spec_width() == 0 || grid.spec_height() == 0,
                ;
            }
            lemma_mod_division_less_than_divisor(i as int, w as int);
            lemma_multiply_divide_lt(i as int, w as int, grid.spec_height() as int);
            assert((i as int) < grid.spec_width() * grid.spec_height());
            assert((i as int) < (w as int) * (grid.spec_height() as int)) by (nonlinear_arith)
                requires
                    (i as int) < grid.spec_width() * grid.spec_height(),
                    w == grid.spec_width(),
            ;
        }
        let col: usize = i % w;
        let row: usize = i / w;
        proof {
            assert(0 <= (col as int) * step_x <= 0xfff * 0x10000000) by (nonlinear_arith)
                requires
                    0 <= col as int <= 0xfff,
                    0 <= step_x <= 0x10000000,
            ;
            assert(0 <= (row as int) * step_y <= 0xfff * 0x10000000) by (nonlinear_arith)
                requires
                    0 <= row as int <= 0xfff,
                    0 <= step_y <= 0x10000000,
            ;
        }
        let base_x: i64 = origin_x + (col as i64) * step_x - off_x;
        let base_y: i64 = origin_y + (row as i64) * step_y - off_y;
        let x1: i64 = base_x + step_x;
        let y1: i64 = base_y + step_y;

        let cell = grid.cell_at_index(i);
        let tile = mapping.map(cell.glyph);
        let u0: u32 = tile.col;
        let u1: u32 = tile.col + 1;
        let rows: u32 = font.tile_count_y();
        let v_bottom_raw: u32 = tile.row + 1;
        let v_top_raw: u32 = tile.row;
        let v_bottom: u32 = if cfg.uv_flip {
            rows - v_bottom_raw
        } else {
            v_bottom_raw
        };
        let v_top: u32 = if cfg.uv_flip {
            rows - v_top_raw
        } else {
            v_top_raw
        };

        let base: usize = 4 * i;
        self.positions.set(base, Vertex3 { x: base_x, y: base_y, z: 0 });
        self.positions.set(base + 1, Vertex3 { x: x1, y: base_y, z: 0 });
        self.positions.set(base + 2, Vertex3 { x: x1, y: y1, z: 0 });
        self.positions.set(base + 3, Vertex3 { x: base_x, y: y1, z: 0 });
        self.uvs.set(base, UvVertex { u: u0, v: v_bottom });
        self.uvs.set(base + 1, UvVertex { u: u1, v: v_bottom });
        self.uvs.set(base + 2, UvVertex { u: u1, v: v_top });
        self.uvs.set(base + 3, UvVertex { u: u0, v: v_top });
        self.fg_colors.set(base, cell.fg);
        self.fg_colors.set(base + 1, cell.fg);
        self.fg_colors.set(base + 2, cell.fg);
        self.fg_colors.set(base + 3, cell.fg);
        self.bg_colors.set(base, cell.bg);
        self.bg_colors.set(base + 1, cell.bg);
        self.bg_colors.set(base + 2, cell.bg);
        self.bg_colors.set(base + 3, cell.bg);

        proof {
            assert forall|k: int|
                0 <= k < 4 implies #[trigger] vertex_matches(*self, *grid, *mapping, *font, *cfg, 4 * i + k) by {
                let v = 4 * i + k;
                assert(v / 4 == i as int);
                assert(v % 4 == k);
                let wspec = grid.spec_width() as int;
                assert((i as int) % wspec == col as int);
                assert((i as int) / wspec == row as int);
                assert(self.positions@[v].z == 0);
                assert(base_x == spec_origin_x(*cfg, *font, wspec) + (col as int) * spec_step_x(*cfg, *font)
                    - spec_tile_offset_x(*cfg, *font));
                if k == 0 || k == 3 {
                    assert(self.positions@[v].x == base_x as int);
                    assert(corner_dx(k) == 0);
                } else {
                    assert(self.positions@[v].x == x1 as int);
                    assert(corner_dx(k) == 1);
                }
                assert(self.positions@[v].x == spec_pos_x(*cfg, *font, wspec, col as int, k));
                assert(base_y == spec_origin_y(*cfg, *font, grid.spec_height() as int) + (row as int)
                    * spec_step_y(*cfg, *font) - spec_tile_offset_y(*cfg, *font));
                if k == 2 || k == 3 {
                    assert(self.positions@[v].y == y1 as int);
                    assert(corner_dy(k) == 1);
                } else {
                    assert(self.positions@[v].y == base_y as int);
                    assert(corner_dy(k) == 0);
                }
                assert(self.positions@[v].y == spec_pos_y(*cfg, *font, grid.spec_height() as int, row as int, k));
                assert(self.fg_colors@[v] == grid.spec_cells()[i as int].fg);
                assert(self.bg_colors@[v] == grid.spec_cells()[i as int].bg);
                assert(self.uvs@[v].u == spec_uv_u(*mapping, cell.glyph, k));
                assert(self.uvs@[v].v == spec_uv_v(*mapping, *font, *cfg, cell.glyph, k));
            }
        }
    }
}

/// The six subunit layout parameters of a rebuild, computed once per pass:
/// mesh origin, per-tile step and tile-pivot offset, each per axis.
fn layout_params(grid: &TileGrid, font: &TerminalFont, cfg: &LayoutConfig) -> (r: (
    i64,
    i64,
    i64,
    i64,
    i64,
    i64,
))
    requires
        grid.wf(),
        font.wf(),
        cfg.wf(),
    ensures
        r.0 == spec_origin_x(*cfg, *font, grid.spec_width() as int),
        r.1 == spec_origin_y(*cfg, *font, grid.spec_height() as int),
        r.2 == spec_step_x(*cfg, *font),
        r.3 == spec_step_y(*cfg, *font),
        r.4 == spec_tile_offset_x(*cfg, *font),
        r.5 == spec_tile_offset_y(*cfg, *font),
{
    proof {
        lemma_layout_bounds(*grid, *font, *cfg);
    }
    let (tsx, tsy) = tile_size_world(cfg.scaling, font);
    let step_x: i64 = (tsx as i64) * (COORD_SCALE as i64);
    let step_y: i64 = (tsy as i64) * (COORD_SCALE as i64);
    let origin_x: i64 = -((cfg.terminal_pivot.x as i64) * (grid.width() as i64) * (tsx as i64));
    let origin_y: i64 = -((cfg.terminal_pivot.y as i64) * (grid.height() as i64) * (tsy as i64));
    let off_x: i64 = (cfg.tile_pivot.x as i64) * (tsx as i64);
    let off_y: i64 = (cfg.tile_pivot.y as i64) * (tsy as i64);
    (origin_x, origin_y, step_x, step_y, off_x, off_y)
}

impl MeshBuffers {
    /// Regenerate every buffer from the whole grid: steps 1 through 6 of the
    /// synthesis for every cell, index pattern included. Never fails on a
    /// well-formed grid; a zero-dimension grid yields empty buffers.
    pub fn rebuild_full(
        &mut self,
        grid: &TileGrid,
        mapping: &GlyphMapping,
        font: &TerminalFont,
        cfg: &LayoutConfig,
    )
        requires
            inputs_wf(*grid, *mapping, *font, *cfg),
        ensures
            mesh_built(*final(self), *grid, *mapping, *font, *cfg),
            final(self).changed,
    {
        proof {
            lemma_layout_bounds(*grid, *font, *cfg);
        }
        let n = grid.cell_count();
        self.changed = true;
        self.uv_denom_x = font.tile_count_x();
        self.uv_denom_y = font.tile_count_y();
        self.positions = filled(4 * n, Vertex3 { x: 0, y: 0, z: 0 });
        self.uvs = filled(4 * n, UvVertex { u: 0, v: 0 });
        self.fg_colors = filled(4 * n, Rgba::white());
        self.bg_colors = filled(4 * n, Rgba::white());
        self.indices = build_indices(n);
        let (origin_x, origin_y, step_x, step_y, off_x, off_y) = layout_params(grid, font, cfg);
        let mut i: usize = 0;
        while i < n
            invariant
                inputs_wf(*grid, *mapping, *font, *cfg),
                n == grid.spec_cell_count(),
                i <= n,
                self.changed,
                mesh_sized(*self, *grid, *font),
                indices_built(self.indices@, n as int),
                origin_x == spec_origin_x(*cfg, *font, grid.spec_width() as int),
                origin_y == spec_origin_y(*cfg, *font, grid.spec_height() as int),
                step_x == spec_step_x(*cfg, *font),
                step_y == spec_step_y(*cfg, *font),
                off_x == spec_tile_offset_x(*cfg, *font),
                off_y == spec_tile_offset_y(*cfg, *font),
                forall|v: int|
                    0 <= v < 4 * i ==> #[trigger] vertex_matches(*self, *grid, *mapping, *font, *cfg, v),
            decreases n - i,
        {
            let ghost prev = *self;
            self.write_tile(grid, mapping, font, cfg, i, origin_x, origin_y, step_x, step_y, off_x, off_y);
            proof {
                assert forall|v: int|
                    0 <= v < 4 * (i + 1) implies #[trigger] vertex_matches(
                    *self,
                    *grid,
                    *mapping,
                    *font,
                    *cfg,
                    v,
                ) by {
                    if v < 4 * i {
                        assert(vertex_matches(prev, *grid, *mapping, *font, *cfg, v));
                        assert(self.positions@[v] == prev.positions@[v]);
                        assert(self.uvs@[v] == prev.uvs@[v]);
                        assert(self.fg_colors@[v] == prev.fg_colors@[v]);
                        assert(self.bg_colors@[v] == prev.bg_colors@[v]);
                    } else {
                        let k = v - 4 * (i as int);
                        assert(vertex_matches(*self, *grid, *mapping, *font, *cfg, 4 * i + k));
                        assert(4 * (i as int) + k == v);
                    }
                }
            }
            i = i + 1;
        }
    }

    /// Rewrite only the quads of dirty cells, in place. The buffers must be
    /// sized for this grid with the index pattern in place (the index buffer
    /// depends only on the grid dimensions and is left untouched), and every
    /// clean cell's quad must already match the current state; afterwards
    /// the whole mesh matches it, exactly as after a full rebuild. Costs
    /// time proportional to the dirty set, not to the grid.
    pub fn rebuild_partial(
        &mut self,
        grid: &TileGrid,
        mapping: &GlyphMapping,
        font: &TerminalFont,
        cfg: &LayoutConfig,
    )
        requires
            inputs_wf(*grid, *mapping, *font, *cfg),
            mesh_sized(*old(self), *grid, *font),
            indices_built(old(self).indices@, grid.spec_cell_count()),
            forall|v: int|
                0 <= v < 4 * grid.spec_cell_count() && !grid.spec_dirty()[v / 4]
                    ==> #[trigger] vertex_matches(*old(self), *grid, *mapping, *font, *cfg, v),
        ensures
            mesh_built(*final(self), *grid, *mapping, *font, *cfg),
            final(self).changed,
    {
        proof {
            lemma_layout_bounds(*grid, *font, *cfg);
        }
        self.changed = true;
        proof {
            assert forall|v: int|
                0 <= v < 4 * grid.spec_cell_count() && !grid.spec_dirty()[v / 4]
                    implies #[trigger] vertex_matches(*self, *grid, *mapping, *font, *cfg, v) by {
                assert(vertex_matches(*old(self), *grid, *mapping, *font, *cfg, v));
            }
        }
        let (origin_x, origin_y, step_x, step_y, off_x, off_y) = layout_params(grid, font, cfg);
        let dirty = grid.iter_dirty();
        let m = dirty.len();
        let mut j: usize = 0;
        while j < m
            invariant
                inputs_wf(*grid, *mapping, *font, *cfg),
                j <= m,
                m == grid.spec_dirty_list().len(),
                dirty@.len() == m,
                forall|k: int|
                    0 <= k < m ==> (#[trigger] dirty@[k]).0 == grid.spec_dirty_list()[k],
                self.changed,
                mesh_sized(*self, *grid, *font),
                indices_built(self.indices@, grid.spec_cell_count()),
                origin_x == spec_origin_x(*cfg, *font, grid.spec_width() as int),
                origin_y == spec_origin_y(*cfg, *font, grid.spec_height() as int),
                step_x == spec_step_x(*cfg, *font),
                step_y == spec_step_y(*cfg, *font),
                off_x == spec_tile_offset_x(*cfg, *font),
                off_y == spec_tile_offset_y(*cfg, *font),
                forall|v: int|
                    0 <= v < 4 * grid.spec_cell_count() && !grid.spec_dirty()[v / 4]
                        ==> #[trigger] vertex_matches(*self, *grid, *mapping, *font, *cfg, v),
                forall|jj: int, k: int|
                    0 <= jj < j && 0 <= k < 4 ==> #[trigger] vertex_matches(
                        *self,
                        *grid,
                        *mapping,
                        *font,
                        *cfg,
                        4 * (grid.spec_dirty_list()[jj] as int) + k,
                    ),
            decreases m - j,
        {
            let pair = dirty[j];
            let i: usize = pair.0;
            proof {
                // The dirty list is sound: this index names a real cell.
                assert(grid.spec_dirty_list()[j as int] < grid.spec_cell_count());
            }
            let ghost prev = *self;
            self.write_tile(grid, mapping, font, cfg, i, origin_x, origin_y, step_x, step_y, off_x, off_y);
            proof {
                assert forall|v: int|
                    0 <= v < 4 * grid.spec_cell_count() && !grid.spec_dirty()[v / 4]
                        implies #[trigger] vertex_matches(*self, *grid, *mapping, *font, *cfg, v) by {
                    assert(grid.spec_dirty()[i as int]);
                    assert(v / 4 != i as int);
                    assert(vertex_matches(prev, *grid, *mapping, *font, *cfg, v));
                    assert(self.positions@[v] == prev.positions@[v]);
                    assert(self.uvs@[v] == prev.uvs@[v]);
                    assert(self.fg_colors@[v] == prev.fg_colors@[v]);
                    assert(self.bg_colors@[v] == prev.bg_colors@[v]);
                }
                assert forall|jj: int, k: int|
                    0 <= jj < j + 1 && 0 <= k < 4 implies #[trigger] vertex_matches(
                    *self,
                    *grid,
                    *mapping,
                    *font,
                    *cfg,
                    4 * (grid.spec_dirty_list()[jj] as int) + k,
                ) by {
                    let t = grid.spec_dirty_list()[jj] as int;
                    if jj == j as int {
                        assert(t == i as int);
                        assert(vertex_matches(*self, *grid, *mapping, *font, *cfg, 4 * i + k));
                    } else {
                        // An earlier dirty tile is a different tile, so its
                        // vertex slots were not touched by this write.
                        assert(grid.spec_dirty_list()[jj] != grid.spec_dirty_list()[j as int]);
                        let v = 4 * t + k;
                        assert(!(4 * (i as int) <= v < 4 * (i as int) + 4));
                        assert(vertex_matches(prev, *grid, *mapping, *font, *cfg, v));
                        assert(self.positions@[v] == prev.positions@[v]);
                        assert(self.uvs@[v] == prev.uvs@[v]);
                        assert(self.fg_colors@[v] == prev.fg_colors@[v]);
                        assert(self.bg_colors@[v] == prev.bg_colors@[v]);
                    }
                }
            }
            j = j + 1;
        }
        proof {
            assert forall|v: int|
                0 <= v < 4 * grid.spec_cell_count() implies #[trigger] vertex_matches(
                *self,
                *grid,
                *mapping,
                *font,
                *cfg,
                v,
            ) by {
                let i = v / 4;
                let k = v % 4;
                assert(0 <= i < grid.spec_cell_count());
                if grid.spec_dirty()[i] {
                    // The dirty list is complete: this tile was rewritten.
                    assert(grid.spec_dirty_list().contains(i as usize));
                    let jj = choose|jj: int|
                        0 <= jj < grid.spec_dirty_list().len() && grid.spec_dirty_list()[jj]
                            == i as usize;
                    assert(vertex_matches(
                        *self,
                        *grid,
                        *mapping,
                        *font,
                        *cfg,
                        4 * (grid.spec_dirty_list()[jj] as int) + k,
                    ));
                    assert(4 * i + k == v);
                }
            }
        }
    }
}

/// Law: the mesh contents are a function of grid, mapping, font and layout
/// alone. Two buffer sets that both satisfy `mesh_built` for the same state
/// are identical, however they were produced — so rebuilding twice with no
/// intervening edits changes nothing, and a partial rebuild of the dirty
/// cells equals a full rebuild of the same final grid state.
pub proof fn lemma_mesh_build_deterministic(
    m1: MeshBuffers,
    m2: MeshBuffers,
    grid: TileGrid,
    mapping: GlyphMapping,
    font: TerminalFont,
    cfg: LayoutConfig,
)
    requires
        mesh_built(m1, grid, mapping, font, cfg),
        mesh_built(m2, grid, mapping, font, cfg),
    ensures
        m1.positions@ == m2.positions@,
        m1.uvs@ == m2.uvs@,
        m1.fg_colors@ == m2.fg_colors@,
        m1.bg_colors@ == m2.bg_colors@,
        m1.indices@ == m2.indices@,
        m1.uv_denom_x == m2.uv_denom_x,
        m1.uv_denom_y == m2.uv_denom_y,
{
    let n = grid.spec_cell_count();
    assert forall|v: int| 0 <= v < 4 * n implies m1.positions@[v] == m2.positions@[v]
        && m1.uvs@[v] == m2.uvs@[v] && m1.fg_colors@[v] == m2.fg_colors@[v] && m1.bg_colors@[v]
        == m2.bg_colors@[v] by {
        assert(vertex_matches(m1, grid, mapping, font, cfg, v));
        assert(vertex_matches(m2, grid, mapping, font, cfg, v));
    }
    assert(m1.positions@ =~= m2.positions@);
    assert(m1.uvs@ =~= m2.uvs@);
    assert(m1.fg_colors@ =~= m2.fg_colors@);
    assert(m1.bg_colors@ =~= m2.bg_colors@);
    assert(m1.indices@ =~= m2.indices@);
}

/// All the layout quantities the builder computes stay well inside `i64`:
/// pivots are at most `COORD_SCALE`, grid dimensions at most the grid's
/// bound, tile sizes at most `MAX_TILE_PIXELS`.
proof fn lemma_layout_bounds(grid: TileGrid, font: TerminalFont, cfg: LayoutConfig)
    requires
        grid.wf(),
        font.wf(),
        cfg.wf(),
    ensures
        1 <= spec_tile_size_x(cfg.scaling, font) <= MAX_TILE_PIXELS,
        1 <= spec_tile_size_y(cfg.scaling, font) <= MAX_TILE_PIXELS,
        0 < spec_step_x(cfg, font) <= 0x10000000,
        0 < spec_step_y(cfg, font) <= 0x10000000,
        -0x10000000000 <= spec_origin_x(cfg, font, grid.spec_width() as int) <= 0,
        -0x10000000000 <= spec_origin_y(cfg, font, grid.spec_height() as int) <= 0,
        0 <= spec_tile_offset_x(cfg, font) <= 0x10000000,
        0 <= spec_tile_offset_y(cfg, font) <= 0x10000000,
        0 <= cfg.terminal_pivot.x * (grid.spec_width() as int) <= 0x10000000,
        0 <= cfg.terminal_pivot.y * (grid.spec_height() as int) <= 0x10000000,
        grid.spec_cell_count() <= 0x1000000,
{
    assert(0 <= cfg.terminal_pivot.x * (grid.spec_width() as int) <= 0x10000000) by (nonlinear_arith)
        requires
            0 <= cfg.terminal_pivot.x <= 0x10000,
            0 <= grid.spec_width() as int <= 0x1000,
    ;
    assert(0 <= cfg.terminal_pivot.y * (grid.spec_height() as int) <= 0x10000000) by (nonlinear_arith)
        requires
            0 <= cfg.terminal_pivot.y <= 0x10000,
            0 <= grid.spec_height() as int <= 0x1000,
    ;
    let tsx = spec_tile_size_x(cfg.scaling, font);
    let tsy = spec_tile_size_y(cfg.scaling, font);
    assert(0 < tsx * (COORD_SCALE as int) <= 0x10000000) by (nonlinear_arith)
        requires
            1 <= tsx <= 0x1000,
    ;
    assert(0 < tsy * (COORD_SCALE as int) <= 0x10000000) by (nonlinear_arith)
        requires
            1 <= tsy <= 0x1000,
    ;
    assert(0 <= cfg.terminal_pivot.x * (grid.spec_width() as int) * tsx <= 0x10000000000) by (nonlinear_arith)
        requires
            0 <= cfg.terminal_pivot.x <= 0x10000,
            0 <= grid.spec_width() as int <= 0x1000,
            0 <= tsx <= 0x1000,
    ;
    assert(0 <= cfg.terminal_pivot.y * (grid.spec_height() as int) * tsy <= 0x10000000000) by (nonlinear_arith)
        requires
            0 <= cfg.terminal_pivot.y <= 0x10000,
            0 <= grid.spec_height() as int <= 0x1000,
            0 <= tsy <= 0x1000,
    ;
    assert(0 <= cfg.tile_pivot.x * tsx <= 0x10000000) by (nonlinear_arith)
        requires
            0 <= cfg.tile_pivot.x <= 0x10000,
            0 <= tsx <= 0x1000,
    ;
    assert(0 <= cfg.tile_pivot.y * tsy <= 0x10000000) by (nonlinear_arith)
        requires
            0 <= cfg.tile_pivot.y <= 0x10000,
            0 <= tsy <= 0x1000,
    ;
    lemma_mul_upper_bound(
        grid.spec_width() as int,
        0x1000,
        grid.spec_height() as int,
        0x1000,
    );
}

} // verus!
