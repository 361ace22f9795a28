use ascii_terminal::glyph_mapping::{AtlasTile, GlyphMapping};

#[test]
fn code_page_maps_are_code_page_style() {
    let m = GlyphMapping::code_page_16x16();
    assert_eq!(m.cols(), 16);
    assert_eq!(m.rows(), 16);
    assert_eq!(m.supported_codes(), 256);
    for c in 0u32..256 {
        let t = m.map(c);
        assert_eq!(t, AtlasTile { col: c % 16, row: c / 16 });
    }
    // 'A' is code 65: column 1, row 4.
    assert_eq!(m.map(65), AtlasTile { col: 1, row: 4 });
}

#[test]
fn map_is_deterministic_and_total() {
    let m = GlyphMapping::code_page_16x16();
    // Same input, same output across calls.
    for c in [0u32, 1, 65, 255, 256, 4096, u32::MAX] {
        let first = m.map(c);
        for _ in 0..3 {
            assert_eq!(m.map(c), first);
        }
        // Total: the result is always inside the atlas.
        assert!(first.col < m.cols());
        assert!(first.row < m.rows());
    }
}

#[test]
fn out_of_range_code_falls_back_to_entry_zero() {
    let m = GlyphMapping::code_page_16x16();
    let fallback = m.map(0);
    assert_eq!(m.map(256), fallback);
    assert_eq!(m.map(u32::MAX), fallback);
}

#[test]
fn custom_table_mapping() {
    // A tiny non-contiguous atlas: three glyph codes in a 4x2 atlas.
    let entries = vec![
        AtlasTile { col: 3, row: 1 },
        AtlasTile { col: 0, row: 0 },
        AtlasTile { col: 2, row: 1 },
    ];
    let m = GlyphMapping::from_table(4, 2, entries).unwrap();
    assert_eq!(m.map(0), AtlasTile { col: 3, row: 1 });
    assert_eq!(m.map(2), AtlasTile { col: 2, row: 1 });
    // Out of range falls back to entry 0.
    assert_eq!(m.map(3), AtlasTile { col: 3, row: 1 });
}

#[test]
fn invalid_tables_are_rejected() {
    // Entry outside the atlas.
    let bad = vec![AtlasTile { col: 4, row: 0 }];
    assert!(GlyphMapping::from_table(4, 2, bad).is_none());
    // Empty table: no fallback entry.
    assert!(GlyphMapping::from_table(4, 2, Vec::new()).is_none());
    // Degenerate atlas.
    let one = vec![AtlasTile { col: 0, row: 0 }];
    assert!(GlyphMapping::from_table(0, 2, one).is_none());
}
