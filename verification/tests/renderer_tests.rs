use ascii_terminal::color::Rgba;
use ascii_terminal::font::DEFAULT_FONT_NAME;
use ascii_terminal::glyph_mapping::GlyphMapping;
use ascii_terminal::grid::{TileCell, TileGrid};
use ascii_terminal::layout::{TerminalPivot, TilePivot, TileScaling};
use ascii_terminal::mesh::MeshBuffers;
use ascii_terminal::renderer::TerminalRendererBundle;

#[test]
fn default_bundle_components() {
    let b = TerminalRendererBundle::default();
    assert!(b.mesh.positions.is_empty());
    assert!(b.mesh.indices.is_empty());
    assert_eq!(b.font.name(), DEFAULT_FONT_NAME);
    assert_eq!(b.material.texture, None);
    assert!(matches!(b.scaling, TileScaling::World));
    assert_eq!(b.terminal_pivot, TerminalPivot { x: 32768, y: 32768 });
    assert_eq!(b.tile_pivot, TilePivot { x: 0, y: 0 });
    assert!(!b.uv_flip);
}

#[test]
fn bundle_rebuilds_match_direct_rebuilds() {
    let mapping = GlyphMapping::code_page_16x16();
    let mut grid = TileGrid::new(3, 2).unwrap();
    let mut bundle = TerminalRendererBundle::default();

    bundle.rebuild_full(&grid, &mapping);
    grid.clear_dirty();

    // Edit one cell and take the partial path through the bundle.
    grid.set_cell(1, 1, TileCell { glyph: 64, fg: Rgba::white(), bg: Rgba::black() }).unwrap();
    bundle.rebuild_partial(&grid, &mapping);
    grid.clear_dirty();

    // A direct full rebuild of the same state yields the same buffers.
    let mut direct = MeshBuffers::new();
    let cfg = bundle.layout();
    direct.rebuild_full(&grid, &mapping, &bundle.font, &cfg);
    assert_eq!(bundle.mesh.positions, direct.positions);
    assert_eq!(bundle.mesh.uvs, direct.uvs);
    assert_eq!(bundle.mesh.fg_colors, direct.fg_colors);
    assert_eq!(bundle.mesh.bg_colors, direct.bg_colors);
    assert_eq!(bundle.mesh.indices, direct.indices);
}
