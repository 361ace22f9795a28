//! Renders a 2D grid of character cells (a terminal) as GPU-drawable
//! quad-mesh geometry.
//!
//! The crate covers the grid-to-mesh synthesis pipeline: the in-memory tile
//! grid with its dirty tracking, the glyph-to-atlas mapping, the font
//! descriptor registry, and the vertex/index buffer builder. All geometry is
//! kept in exact integer arithmetic: world positions are expressed in
//! subunits (a fixed fraction of a world unit, see [`layout::COORD_SCALE`])
//! and texture coordinates as numerators over the atlas tile count, so every
//! buffer element is pinned down exactly by the contracts.

pub mod color;
pub mod error;
pub mod font;
pub mod glyph_mapping;
pub mod grid;
pub mod layout;
pub mod material;
pub mod mesh;
pub mod renderer;

pub use color::Rgba;
pub use error::TerminalError;
pub use font::{TerminalFont, DEFAULT_FONT_NAME, MAX_TILE_PIXELS};
pub use glyph_mapping::{AtlasTile, GlyphMapping};
pub use grid::{TileCell, TileGrid, MAX_GRID_DIM};
pub use layout::{LayoutConfig, TerminalPivot, TilePivot, TileScaling, COORD_SCALE};
pub use material::{TerminalMaterial, TextureHandle};
pub use mesh::{MeshBuffers, UvVertex, Vertex3};
pub use renderer::TerminalRendererBundle;
