//! The material state the terminal hands to its shader binding.
//!
//! The render backend binds an atlas texture and a clip-color uniform; the
//! shader treats texels matching the clip color as background. The core only
//! carries that state: a texture is an opaque handle owned by the host
//! engine's asset layer, so it is modeled here by its numeric id. The
//! "texture present" bit is folded into a plain flag word whose layout the
//! shader shares.

use vstd::prelude::*;

use crate::color::Rgba;

verus! {

/// Flag word bit: a texture is bound.
pub const TERMINAL_MATERIAL_FLAGS_TEXTURE: u32 = 1;

/// Flag word with nothing set.
pub const TERMINAL_MATERIAL_FLAGS_NONE: u32 = 0;

/// Flag word of a material the renderer has not prepared yet.
pub const TERMINAL_MATERIAL_FLAGS_UNINITIALIZED: u32 = 0xFFFF;

/// An opaque handle to a texture asset owned by the host engine, carried
/// through the core by its id alone.
#[derive(Clone, Copy, PartialEq, Eq, Structural, Debug)]
pub struct TextureHandle {
    /// The asset id the host engine assigned to the texture.
    pub id: u64,
}

/// The material for rendering a terminal: which font texture to bind, and
/// which texel color the shader masks out as background.
#[derive(Clone, Copy, PartialEq, Eq, Structural, Debug)]
pub struct TerminalMaterial {
    /// The clip color for the active font texture.
    pub clip_color: Rgba,
    /// The font texture rendered by the terminal, if one is bound.
    pub texture: Option<TextureHandle>,
}

/// The flag word a material uniform carries: the texture bit exactly when a
/// texture is bound.
pub open spec fn spec_material_flags(m: TerminalMaterial) -> u32 {
    if m.texture is Some {
        TERMINAL_MATERIAL_FLAGS_TEXTURE
    } else {
        TERMINAL_MATERIAL_FLAGS_NONE
    }
}

impl TerminalMaterial {
    /// The flag word for this material's uniform data.
    pub fn flags(&self) -> (r: u32)
        ensures
            r == spec_material_flags(*self),
    {
        match self.texture {
            Some(_) => TERMINAL_MATERIAL_FLAGS_TEXTURE,
            None => TERMINAL_MATERIAL_FLAGS_NONE,
        }
    }
}

impl Default for TerminalMaterial {
    /// No texture bound, opaque black clip color.
    fn default() -> (r: Self)
        ensures
            r.clip_color == (Rgba { r: 0u8, g: 0u8, b: 0u8, a: 255u8 }),
            r.texture is None,
    {
        TerminalMaterial { clip_color: Rgba::black(), texture: None }
    }
}

impl From<TextureHandle> for TerminalMaterial {
    /// A material that binds this texture, with the default opaque black
    /// clip color.
    fn from(texture: TextureHandle) -> (r: Self)
    {
        TerminalMaterial { clip_color: Rgba::black(), texture: Some(texture) }
    }
}

impl vstd::std_specs::convert::FromSpecImpl<TextureHandle> for TerminalMaterial {
    open spec fn obeys_from_spec() -> bool {
        true
    }

    open spec fn from_spec(texture: TextureHandle) -> Self {
        TerminalMaterial { clip_color: Rgba { r: 0, g: 0, b: 0, a: 255 }, texture: Some(texture) }
    }
}

} // verus!
