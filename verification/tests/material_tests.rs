use ascii_terminal::color::Rgba;
use ascii_terminal::material::{
    TerminalMaterial, TextureHandle, TERMINAL_MATERIAL_FLAGS_NONE, TERMINAL_MATERIAL_FLAGS_TEXTURE,
    TERMINAL_MATERIAL_FLAGS_UNINITIALIZED,
};

#[test]
fn default_material_has_no_texture_and_black_clip() {
    let m = TerminalMaterial::default();
    assert_eq!(m.texture, None);
    assert_eq!(m.clip_color, Rgba::black());
    assert_eq!(m.flags(), TERMINAL_MATERIAL_FLAGS_NONE);
}

#[test]
fn material_from_texture_sets_the_texture_bit() {
    let handle = TextureHandle { id: 42 };
    let m = TerminalMaterial::from(handle);
    assert_eq!(m.texture, Some(handle));
    assert_eq!(m.clip_color, Rgba::black());
    assert_eq!(m.flags(), TERMINAL_MATERIAL_FLAGS_TEXTURE);
}

#[test]
fn flag_word_values_match_the_shader_layout() {
    assert_eq!(TERMINAL_MATERIAL_FLAGS_NONE, 0);
    assert_eq!(TERMINAL_MATERIAL_FLAGS_TEXTURE, 1 << 0);
    assert_eq!(TERMINAL_MATERIAL_FLAGS_UNINITIALIZED, 0xFFFF);
}
