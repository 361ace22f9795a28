//! Everything one terminal instance needs to be rendered, bundled: its mesh
//! buffers, font, material and layout components, with rebuilds wired to the
//! grid.
//!
//! The grid itself stays outside the bundle: it is owned by the terminal's
//! editing side and is read-only to the renderer, which consumes its dirty
//! state and rebuilds the affected vertex ranges.

use vstd::prelude::*;

use crate::font::TerminalFont;
use crate::glyph_mapping::GlyphMapping;
use crate::grid::TileGrid;
use crate::layout::{LayoutConfig, TerminalPivot, TilePivot, TileScaling};
use crate::material::TerminalMaterial;
use crate::mesh::{indices_built, inputs_wf, mesh_built, mesh_sized, vertex_matches, MeshBuffers};

verus! {

/// The render-side components of one terminal: derived mesh buffers, the
/// font and material bound for drawing, and the layout the mesh was (or will
/// be) built with.
#[derive(Debug)]
pub struct TerminalRendererBundle {
    /// The derived vertex and index buffers.
    pub mesh: MeshBuffers,
    /// Which font texture the terminal renders, and its metrics.
    pub font: TerminalFont,
    /// The clip color and texture binding handed to the shader.
    pub material: TerminalMaterial,
    /// How tiles are scaled into world space.
    pub scaling: TileScaling,
    /// Anchor of the whole terminal mesh.
    pub terminal_pivot: TerminalPivot,
    /// Anchor of each tile quad.
    pub tile_pivot: TilePivot,
    /// Whether the vertical texture coordinate is flipped for the backend.
    pub uv_flip: bool,
}

impl TerminalRendererBundle {
    /// The layout configuration the bundle's components assemble into.
    pub open spec fn spec_layout(&self) -> LayoutConfig {
        LayoutConfig {
            terminal_pivot: self.terminal_pivot,
            tile_pivot: self.tile_pivot,
            scaling: self.scaling,
            uv_flip: self.uv_flip,
        }
    }

    /// The layout configuration the bundle's components assemble into.
    pub fn layout(&self) -> (r: LayoutConfig)
        ensures
            r == self.spec_layout(),
    {
        LayoutConfig {
            terminal_pivot: self.terminal_pivot,
            tile_pivot: self.tile_pivot,
            scaling: self.scaling,
            uv_flip: self.uv_flip,
        }
    }

    /// Regenerate the whole mesh from the grid under the bundle's font and
    /// layout; every other component is left as it is. Forced whenever
    /// dimensions, font, pivots or scaling change.
    pub fn rebuild_full(&mut self, grid: &TileGrid, mapping: &GlyphMapping)
        requires
            inputs_wf(*grid, *mapping, old(self).font, old(self).spec_layout()),
        ensures
            mesh_built(final(self).mesh, *grid, *mapping, old(self).font, old(self).spec_layout()),
            final(self).font == old(self).font,
            final(self).material == old(self).material,
            final(self).spec_layout() == old(self).spec_layout(),
    {
        let cfg = self.layout();
        self.mesh.rebuild_full(grid, mapping, &self.font, &cfg);
    }

    /// Rewrite only the quads of the grid's dirty cells; afterwards the mesh
    /// matches the grid exactly as after a full rebuild. The mesh must be
    /// sized for this grid with its index pattern in place, and the quads of
    /// clean cells must already match the grid.
    pub fn rebuild_partial(&mut self, grid: &TileGrid, mapping: &GlyphMapping)
        requires
            inputs_wf(*grid, *mapping, old(self).font, old(self).spec_layout()),
            mesh_sized(old(self).mesh, *grid, old(self).font),
            indices_built(old(self).mesh.indices@, grid.spec_cell_count()),
            forall|v: int|
                0 <= v < 4 * grid.spec_cell_count() && !grid.spec_dirty()[v / 4]
                    ==> #[trigger] vertex_matches(
                    old(self).mesh,
                    *grid,
                    *mapping,
                    old(self).font,
                    old(self).spec_layout(),
                    v,
                ),
        ensures
            mesh_built(final(self).mesh, *grid, *mapping, old(self).font, old(self).spec_layout()),
            final(self).font == old(self).font,
            final(self).material == old(self).material,
            final(self).spec_layout() == old(self).spec_layout(),
    {
        let cfg = self.layout();
        self.mesh.rebuild_partial(grid, mapping, &self.font, &cfg);
    }
}

impl Default for TerminalRendererBundle {
    /// Empty buffers, the default font and material, centered terminal
    /// pivot, bottom-left tile pivot, `World` scaling, no vertical flip.
    fn default() -> (r: Self)
        ensures
            r.mesh.positions@.len() == 0,
            r.mesh.indices@.len() == 0,
            r.font.wf(),
            r.font.spec_name() == crate::font::DEFAULT_FONT_NAME@,
            r.material.texture is None,
            r.scaling == TileScaling::World,
            r.terminal_pivot == (TerminalPivot { x: 32768u32, y: 32768u32 }),
            r.tile_pivot == (TilePivot { x: 0u32, y: 0u32 }),
            r.uv_flip == false,
            r.spec_layout().wf(),
    {
        TerminalRendererBundle {
            mesh: MeshBuffers::new(),
            font: TerminalFont::default(),
            material: TerminalMaterial::default(),
            scaling: TileScaling::default(),
            terminal_pivot: TerminalPivot::default(),
            tile_pivot: TilePivot::default(),
            uv_flip: false,
        }
    }
}

} // verus!
