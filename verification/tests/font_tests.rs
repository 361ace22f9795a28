use ascii_terminal::color::Rgba;
use ascii_terminal::error::TerminalError;
use ascii_terminal::font::{built_in_fonts, TerminalFont, TerminalFonts, DEFAULT_FONT_NAME};

#[test]
fn pixels_per_unit_derived_from_texture() {
    // 128x128 px with a 16x16 atlas: 8 vertical pixels per tile.
    let f = TerminalFont::from_texture("px437_8x8.png", 128, 128, 16, 16).unwrap();
    assert_eq!(f.pixels_per_unit(), 8);
    assert_eq!(f.tile_width_pixels(), 8);
    assert_eq!(f.tile_count_x(), 16);
    assert_eq!(f.tile_count_y(), 16);
    assert_eq!(f.name(), "px437_8x8.png");
}

#[test]
fn indivisible_texture_is_invalid() {
    // 100x100 px does not divide into 16x16 tiles.
    let r = TerminalFont::from_texture("bad.png", 100, 100, 16, 16);
    assert_eq!(r.unwrap_err(), TerminalError::InvalidFontTexture);
    // Degenerate cases are invalid too.
    assert!(TerminalFont::from_texture("empty.png", 0, 0, 16, 16).is_err());
    assert!(TerminalFont::from_texture("zero.png", 128, 128, 0, 16).is_err());
}

#[test]
fn invalid_font_is_skipped_and_others_still_load() {
    let mut fonts = TerminalFonts::new();
    fonts.register("good_a.png", 128, 128, 16, 16).unwrap();
    // The bad font is rejected, not fatal: the registry keeps working.
    let bad = fonts.register("bad.png", 100, 100, 16, 16);
    assert_eq!(bad.unwrap_err(), TerminalError::InvalidFontTexture);
    fonts.register("good_b.png", 192, 192, 16, 16).unwrap();
    assert_eq!(fonts.get("good_a.png").unwrap().pixels_per_unit(), 8);
    assert_eq!(fonts.get("good_b.png").unwrap().pixels_per_unit(), 12);
    assert_eq!(fonts.get("bad.png").unwrap_err(), TerminalError::NotFound);
}

#[test]
fn get_missing_font_is_not_found() {
    let fonts = TerminalFonts::new();
    assert_eq!(fonts.get("anything.png").unwrap_err(), TerminalError::NotFound);
}

#[test]
fn add_replaces_same_name() {
    let mut fonts = TerminalFonts::new();
    let first = TerminalFont::from_texture("f.png", 128, 128, 16, 16).unwrap();
    let second = TerminalFont::from_texture("f.png", 192, 192, 16, 16).unwrap();
    fonts.add(first);
    assert_eq!(fonts.get("f.png").unwrap().pixels_per_unit(), 8);
    fonts.add(second);
    assert_eq!(fonts.get("f.png").unwrap().pixels_per_unit(), 12);
}

#[test]
fn built_in_fonts_all_load() {
    let fonts = TerminalFonts::with_built_ins();
    assert_eq!(fonts.get("jt_curses_12x12.png").unwrap().pixels_per_unit(), 12);
    assert_eq!(fonts.get("pastiche_8x8.png").unwrap().pixels_per_unit(), 8);
    assert_eq!(fonts.get("px437_8x8.png").unwrap().pixels_per_unit(), 8);
    assert_eq!(fonts.get("taffer_10x10.png").unwrap().pixels_per_unit(), 10);
    assert_eq!(fonts.get("zx_evolution_8x8.png").unwrap().pixels_per_unit(), 8);
    // The default font is among the built-ins.
    assert!(fonts.get(DEFAULT_FONT_NAME).is_ok());
}

#[test]
fn built_in_font_data_lists_five() {
    let data = built_in_fonts();
    assert_eq!(data.len(), 5);
    for d in &data {
        assert_eq!(d.tile_count_x, 16);
        assert_eq!(d.tile_count_y, 16);
        assert_eq!(d.tex_width, d.tex_height);
    }
    assert_eq!(data[2].name, "px437_8x8.png");
    assert_eq!(data[0].tex_height, 192);
}

#[test]
fn change_font_and_clip_color() {
    let mut f = TerminalFont::default();
    assert_eq!(f.name(), DEFAULT_FONT_NAME);
    assert_eq!(f.clip_color(), Rgba::black());
    assert_eq!(f.pixels_per_unit(), 8);
    f.change_font("taffer_10x10.png");
    assert_eq!(f.name(), "taffer_10x10.png");
    let red = Rgba::new(255, 0, 0, 255);
    f.change_clip_color(red);
    assert_eq!(f.clip_color(), red);
    // The texture metrics are untouched by either change.
    assert_eq!(f.pixels_per_unit(), 8);
    assert_eq!(f.tile_count_y(), 16);
}
