use ascii_terminal::color::Rgba;
use ascii_terminal::font::TerminalFont;
use ascii_terminal::glyph_mapping::GlyphMapping;
use ascii_terminal::grid::{TileCell, TileGrid};
use ascii_terminal::layout::{
    tile_size_world, LayoutConfig, TerminalPivot, TilePivot, TileScaling, COORD_SCALE,
};
use ascii_terminal::mesh::{MeshBuffers, UvVertex, Vertex3};

fn default_setup() -> (GlyphMapping, TerminalFont, LayoutConfig) {
    (GlyphMapping::code_page_16x16(), TerminalFont::default(), LayoutConfig::default())
}

fn full_build(grid: &TileGrid, mapping: &GlyphMapping, font: &TerminalFont, cfg: &LayoutConfig) -> MeshBuffers {
    let mut mb = MeshBuffers::new();
    mb.rebuild_full(grid, mapping, font, cfg);
    mb
}

fn assert_same_buffers(a: &MeshBuffers, b: &MeshBuffers) {
    assert_eq!(a.positions, b.positions);
    assert_eq!(a.uvs, b.uvs);
    assert_eq!(a.fg_colors, b.fg_colors);
    assert_eq!(a.bg_colors, b.bg_colors);
    assert_eq!(a.indices, b.indices);
    assert_eq!(a.uv_denom_x, b.uv_denom_x);
    assert_eq!(a.uv_denom_y, b.uv_denom_y);
}

#[test]
fn buffer_lengths_are_four_and_six_per_cell() {
    let (mapping, font, cfg) = default_setup();
    for (w, h) in [(1u32, 1u32), (2, 3), (0, 4), (5, 1), (7, 7)] {
        let grid = TileGrid::new(w, h).unwrap();
        let mb = full_build(&grid, &mapping, &font, &cfg);
        let n = (w * h) as usize;
        assert_eq!(mb.positions.len(), 4 * n);
        assert_eq!(mb.uvs.len(), 4 * n);
        assert_eq!(mb.fg_colors.len(), 4 * n);
        assert_eq!(mb.bg_colors.len(), 4 * n);
        assert_eq!(mb.indices.len(), 6 * n);
    }
}

#[test]
fn zero_dimension_grid_yields_empty_buffers() {
    let (mapping, font, cfg) = default_setup();
    let grid = TileGrid::new(0, 17).unwrap();
    let mb = full_build(&grid, &mapping, &font, &cfg);
    assert!(mb.positions.is_empty());
    assert!(mb.indices.is_empty());
}

#[test]
fn single_centered_quad_scenario() {
    // 1x1 grid, World scaling, pivot (1/2, 1/2), tile pivot (0,0), glyph 'A'.
    let mapping = GlyphMapping::code_page_16x16();
    let font = TerminalFont::default();
    let cfg = LayoutConfig {
        terminal_pivot: TerminalPivot { x: COORD_SCALE / 2, y: COORD_SCALE / 2 },
        tile_pivot: TilePivot { x: 0, y: 0 },
        scaling: TileScaling::World,
        uv_flip: false,
    };
    let mut grid = TileGrid::new(1, 1).unwrap();
    let fg = Rgba::new(10, 20, 30, 255);
    let bg = Rgba::new(1, 2, 3, 4);
    grid.set_cell(0, 0, TileCell { glyph: 'A' as u32, fg, bg }).unwrap();
    let mb = full_build(&grid, &mapping, &font, &cfg);

    // Exactly one quad, centered on the origin: half a world unit each way.
    let half = (COORD_SCALE / 2) as i64;
    assert_eq!(
        mb.positions,
        vec![
            Vertex3 { x: -half, y: -half, z: 0 },
            Vertex3 { x: half, y: -half, z: 0 },
            Vertex3 { x: half, y: half, z: 0 },
            Vertex3 { x: -half, y: half, z: 0 },
        ]
    );
    // 'A' is code 65: atlas tile (1, 4); its UV rectangle over a 16x16
    // atlas, with v growing downward in texture space.
    assert_eq!(mb.uv_denom_x, 16);
    assert_eq!(mb.uv_denom_y, 16);
    assert_eq!(
        mb.uvs,
        vec![
            UvVertex { u: 1, v: 5 },
            UvVertex { u: 2, v: 5 },
            UvVertex { u: 2, v: 4 },
            UvVertex { u: 1, v: 4 },
        ]
    );
    assert_eq!(mb.indices, vec![0, 1, 2, 2, 3, 0]);
    assert_eq!(mb.fg_colors, vec![fg; 4]);
    assert_eq!(mb.bg_colors, vec![bg; 4]);
}

#[test]
fn uv_flip_mirrors_the_vertical_coordinate() {
    let mapping = GlyphMapping::code_page_16x16();
    let font = TerminalFont::default();
    let mut cfg = LayoutConfig::default();
    cfg.uv_flip = true;
    let mut grid = TileGrid::new(1, 1).unwrap();
    grid.set_cell(0, 0, TileCell { glyph: 'A' as u32, ..TileCell::default() }).unwrap();
    let mb = full_build(&grid, &mapping, &font, &cfg);
    // Tile (1,4) of 16 rows, mirrored: v runs 11 (bottom) to 12 (top).
    assert_eq!(
        mb.uvs,
        vec![
            UvVertex { u: 1, v: 11 },
            UvVertex { u: 2, v: 11 },
            UvVertex { u: 2, v: 12 },
            UvVertex { u: 1, v: 12 },
        ]
    );
}

#[test]
fn pixels_scaling_uses_tile_pixel_size() {
    let mapping = GlyphMapping::code_page_16x16();
    let font = TerminalFont::default();  // 8x8 pixel tiles
    assert_eq!(tile_size_world(TileScaling::World, &font), (1, 1));
    assert_eq!(tile_size_world(TileScaling::Pixels, &font), (8, 8));
    let cfg = LayoutConfig {
        terminal_pivot: TerminalPivot { x: 0, y: 0 },
        tile_pivot: TilePivot { x: 0, y: 0 },
        scaling: TileScaling::Pixels,
        uv_flip: false,
    };
    let grid = TileGrid::new(2, 1).unwrap();
    let mb = full_build(&grid, &mapping, &font, &cfg);
    let step = 8 * COORD_SCALE as i64;
    // First tile spans [0, 8) world pixels, second [8, 16).
    assert_eq!(mb.positions[0], Vertex3 { x: 0, y: 0, z: 0 });
    assert_eq!(mb.positions[1], Vertex3 { x: step, y: 0, z: 0 });
    assert_eq!(mb.positions[2], Vertex3 { x: step, y: step, z: 0 });
    assert_eq!(mb.positions[4], Vertex3 { x: step, y: 0, z: 0 });
    assert_eq!(mb.positions[5], Vertex3 { x: 2 * step, y: 0, z: 0 });
}

#[test]
fn tile_pivot_shifts_each_quad() {
    let mapping = GlyphMapping::code_page_16x16();
    let font = TerminalFont::default();
    let cfg = LayoutConfig {
        terminal_pivot: TerminalPivot { x: 0, y: 0 },
        tile_pivot: TilePivot { x: COORD_SCALE / 2, y: COORD_SCALE / 2 },
        scaling: TileScaling::World,
        uv_flip: false,
    };
    let grid = TileGrid::new(1, 1).unwrap();
    let mb = full_build(&grid, &mapping, &font, &cfg);
    let half = (COORD_SCALE / 2) as i64;
    // The tile anchor (its center) lands on the tile's base position.
    assert_eq!(mb.positions[0], Vertex3 { x: -half, y: -half, z: 0 });
    assert_eq!(mb.positions[2], Vertex3 { x: half, y: half, z: 0 });
}

#[test]
fn rebuilding_twice_is_idempotent() {
    let (mapping, font, cfg) = default_setup();
    let mut grid = TileGrid::new(3, 2).unwrap();
    grid.set_cell(1, 1, TileCell { glyph: 66, ..TileCell::default() }).unwrap();
    let mut a = full_build(&grid, &mapping, &font, &cfg);
    let b = full_build(&grid, &mapping, &font, &cfg);
    assert_same_buffers(&a, &b);
    // Rebuilding the same buffers again changes nothing either.
    a.rebuild_full(&grid, &mapping, &font, &cfg);
    assert_same_buffers(&a, &b);
}

#[test]
fn partial_rebuild_of_one_edit_equals_full_rebuild() {
    let (mapping, font, cfg) = default_setup();
    let mut grid = TileGrid::new(4, 3).unwrap();
    let mut partial = full_build(&grid, &mapping, &font, &cfg);
    grid.clear_dirty();

    grid.set_cell(2, 1, TileCell { glyph: 35, fg: Rgba::new(9, 9, 9, 255), bg: Rgba::black() }).unwrap();
    partial.rebuild_partial(&grid, &mapping, &font, &cfg);
    grid.clear_dirty();

    let full = full_build(&grid, &mapping, &font, &cfg);
    assert_same_buffers(&partial, &full);
}

#[test]
fn partial_rebuild_matches_full_across_random_edit_sequences() {
    let (mapping, font, cfg) = default_setup();
    let mut grid = TileGrid::new(8, 5).unwrap();
    let mut partial = full_build(&grid, &mapping, &font, &cfg);
    grid.clear_dirty();

    // A fixed linear-congruential sequence drives batches of edits.
    let mut state: u64 = 0x2545f4914f6cdd1d;
    let mut next = move || {
        state = state.wrapping_mul(6364136223846793005).wrapping_add(1442695040888963407);
        (state >> 33) as u32
    };
    for _batch in 0..20 {
        let edits = 1 + next() % 6;
        for _ in 0..edits {
            let x = next() % 8;
            let y = next() % 5;
            let glyph = next() % 300;  // includes out-of-range codes
            let fg = Rgba::new((next() % 256) as u8, (next() % 256) as u8, 0, 255);
            let bg = Rgba::new(0, (next() % 256) as u8, (next() % 256) as u8, 128);
            grid.set_cell(x, y, TileCell { glyph, fg, bg }).unwrap();
        }
        partial.rebuild_partial(&grid, &mapping, &font, &cfg);
        grid.clear_dirty();
        let full = full_build(&grid, &mapping, &font, &cfg);
        assert_same_buffers(&partial, &full);
    }
}

#[test]
fn resize_grows_buffers_and_dirties_everything() {
    let (mapping, font, cfg) = default_setup();
    let mut grid = TileGrid::new(2, 2).unwrap();
    let mut mb = full_build(&grid, &mapping, &font, &cfg);
    grid.clear_dirty();
    assert_eq!(mb.positions.len(), 16);
    assert_eq!(mb.indices.len(), 24);

    grid.resize(3, 3).unwrap();
    assert_eq!(grid.iter_dirty().len(), 9);
    mb.rebuild_full(&grid, &mapping, &font, &cfg);
    grid.clear_dirty();
    assert_eq!(mb.positions.len(), 36);
    assert_eq!(mb.indices.len(), 54);
}

#[test]
fn dirty_set_is_empty_after_resize_and_rebuild() {
    let (mapping, font, cfg) = default_setup();
    let mut grid = TileGrid::new(2, 3).unwrap();
    let mut mb = MeshBuffers::new();
    grid.resize(4, 4).unwrap();
    mb.rebuild_full(&grid, &mapping, &font, &cfg);
    grid.clear_dirty();
    assert_eq!(grid.iter_dirty().len(), 0);
}

#[test]
fn upload_flag_tracks_rebuilds() {
    let (mapping, font, cfg) = default_setup();
    let mut grid = TileGrid::new(2, 1).unwrap();
    let mut mb = MeshBuffers::new();
    assert!(!mb.needs_upload());
    mb.rebuild_full(&grid, &mapping, &font, &cfg);
    grid.clear_dirty();
    assert!(mb.needs_upload());
    mb.mark_uploaded();
    assert!(!mb.needs_upload());
    grid.set_cell(0, 0, TileCell { glyph: 33, ..TileCell::default() }).unwrap();
    mb.rebuild_partial(&grid, &mapping, &font, &cfg);
    assert!(mb.needs_upload());
}

#[test]
fn index_pattern_is_two_triangles_per_quad() {
    let (mapping, font, cfg) = default_setup();
    let grid = TileGrid::new(3, 1).unwrap();
    let mb = full_build(&grid, &mapping, &font, &cfg);
    assert_eq!(mb.indices, vec![0, 1, 2, 2, 3, 0, 4, 5, 6, 6, 7, 4, 8, 9, 10, 10, 11, 8]);
}

#[test]
fn bad_glyph_renders_as_fallback_not_error() {
    let (mapping, font, cfg) = default_setup();
    let mut grid = TileGrid::new(1, 1).unwrap();
    grid.set_cell(0, 0, TileCell { glyph: 9999, ..TileCell::default() }).unwrap();
    let mb = full_build(&grid, &mapping, &font, &cfg);
    // Code 9999 is out of range: it draws glyph 0's tile (0, 0).
    assert_eq!(mb.uvs[0], UvVertex { u: 0, v: 1 });
    assert_eq!(mb.uvs[2], UvVertex { u: 1, v: 0 });
}
