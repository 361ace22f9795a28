//! Font descriptors and the registry that stores them.
//!
//! A terminal font is a texture of glyph sprites laid out as an atlas of
//! equally sized tiles. Only the texture's pixel metrics matter to the mesh
//! pipeline (loading the image bytes and uploading them to the GPU is the
//! host engine's job), so a descriptor carries plain values: the tile pixel
//! sizes, the atlas tile count, a clip color and a name.

use vstd::prelude::*;

use crate::color::Rgba;
use crate::error::TerminalError;

verus! {

/// The file name of the default built-in font.
pub const DEFAULT_FONT_NAME: &'static str = "px437_8x8.png";

/// Upper bound on the pixel size of one atlas tile; a texture whose tiles
/// come out larger is rejected as invalid. Keeps all mesh coordinate
/// arithmetic comfortably inside `i64`.
pub const MAX_TILE_PIXELS: u32 = 4096;

/// Whether texture pixel dimensions fit an atlas of `count_x` by `count_y`
/// tiles: the counts are nonzero, each dimension divides evenly, and each
/// tile is at least one pixel and at most `MAX_TILE_PIXELS` wide and high.
pub open spec fn texture_metrics_valid(tex_w: u32, tex_h: u32, count_x: u32, count_y: u32) -> bool {
    &&& 1 <= count_x
    &&& 1 <= count_y
    &&& tex_w as int % count_x as int == 0
    &&& tex_h as int % count_y as int == 0
    &&& 1 <= tex_w as int / count_x as int <= MAX_TILE_PIXELS
    &&& 1 <= tex_h as int / count_y as int <= MAX_TILE_PIXELS
}

/// Per-font metadata: immutable pixel metrics of one font texture, plus the
/// mutable name and clip color the terminal uses to select and mask it.
#[derive(Debug)]
pub struct TerminalFont {
    /// The file name (including extension) of the texture to render.
    name: String,
    /// The color on the texture that is treated as the background.
    clip_color: Rgba,
    /// Horizontal pixels of one atlas tile.
    tile_width_px: u32,
    /// Vertical pixels of one atlas tile; also the font's pixels-per-unit.
    pixels_per_unit: u32,
    /// Number of tile columns in the atlas texture.
    tile_count_x: u32,
    /// Number of tile rows in the atlas texture.
    tile_count_y: u32,
}

impl TerminalFont {
    /// The font's name, as a sequence of characters.
    pub closed spec fn spec_name(&self) -> Seq<char> {
        self.name@
    }

    /// The font's clip color.
    pub closed spec fn spec_clip_color(&self) -> Rgba {
        self.clip_color
    }

    /// Horizontal pixels of one atlas tile.
    pub closed spec fn spec_tile_width_px(&self) -> u32 {
        self.tile_width_px
    }

    /// Vertical pixels of one atlas tile.
    pub closed spec fn spec_pixels_per_unit(&self) -> u32 {
        self.pixels_per_unit
    }

    /// Number of tile columns in the atlas texture.
    pub closed spec fn spec_tile_count_x(&self) -> u32 {
        self.tile_count_x
    }

    /// Number of tile rows in the atlas texture.
    pub closed spec fn spec_tile_count_y(&self) -> u32 {
        self.tile_count_y
    }

    /// Well-formedness: a non-degenerate atlas whose tiles have a bounded,
    /// nonzero pixel size.
    pub open spec fn wf(&self) -> bool {
        &&& 1 <= self.spec_tile_width_px() <= MAX_TILE_PIXELS
        &&& 1 <= self.spec_pixels_per_unit() <= MAX_TILE_PIXELS
        &&& 1 <= self.spec_tile_count_x()
        &&& 1 <= self.spec_tile_count_y()
    }

    /// Construct a font from the pixel dimensions of its texture and the
    /// tile count of its atlas. The clip color starts as opaque black.
    ///
    /// Fails with `InvalidFontTexture` exactly when the dimensions do not
    /// divide evenly into the tile count (or a tile would be empty or
    /// absurdly large); such a font is meant to be skipped, not to abort
    /// loading.
    pub fn from_texture(name: &str, tex_width: u32, tex_height: u32, tile_count_x: u32, tile_count_y: u32) -> (r:
        Result<TerminalFont, TerminalError>)
        ensures
            match r {
                Ok(f) => {
                    &&& texture_metrics_valid(tex_width, tex_height, tile_count_x, tile_count_y)
                    &&& f.wf()
                    &&& f.spec_name() == name@
                    &&& f.spec_clip_color() == (Rgba { r: 0u8, g: 0u8, b: 0u8, a: 255u8 })
                    &&& f.spec_tile_width_px() == tex_width as int / tile_count_x as int
                    &&& f.spec_pixels_per_unit() == tex_height as int / tile_count_y as int
                    &&& f.spec_tile_count_x() == tile_count_x
                    &&& f.spec_tile_count_y() == tile_count_y
                },
                Err(e) => {
                    &&& e == TerminalError::InvalidFontTexture
                    &&& !texture_metrics_valid(tex_width, tex_height, tile_count_x, tile_count_y)
                },
            },
    {
        if tile_count_x < 1 || tile_count_y < 1 {
            return Err(TerminalError::InvalidFontTexture);
        }
        if tex_width % tile_count_x != 0 || tex_height % tile_count_y != 0 {
            return Err(TerminalError::InvalidFontTexture);
        }
        let tile_w = tex_width / tile_count_x;
        let tile_h = tex_height / tile_count_y;
        if tile_w < 1 || tile_w > MAX_TILE_PIXELS || tile_h < 1 || tile_h > MAX_TILE_PIXELS {
            return Err(TerminalError::InvalidFontTexture);
        }
        Ok(TerminalFont {
            name: name.to_owned(),
            clip_color: Rgba::black(),
            tile_width_px: tile_w,
            pixels_per_unit: tile_h,
            tile_count_x,
            tile_count_y,
        })
    }

    /// The file name of the font, including extension.
    pub fn name(&self) -> (r: &str)
        ensures
            r@ == self.spec_name(),
    {
        self.name.as_str()
    }

    /// Change which font texture the terminal renders, by file name.
    pub fn change_font(&mut self, font_name: &str)
        ensures
            final(self).spec_name() == font_name@,
            final(self).spec_clip_color() == old(self).spec_clip_color(),
            final(self).spec_tile_width_px() == old(self).spec_tile_width_px(),
            final(self).spec_pixels_per_unit() == old(self).spec_pixels_per_unit(),
            final(self).spec_tile_count_x() == old(self).spec_tile_count_x(),
            final(self).spec_tile_count_y() == old(self).spec_tile_count_y(),
    {
        self.name = font_name.to_owned();
    }

    /// The clip color of the font texture: the texel color the shader
    /// regards as "background".
    pub fn clip_color(&self) -> (c: Rgba)
        ensures
            c == self.spec_clip_color(),
    {
        self.clip_color
    }

    /// Change the clip color of the font's texture.
    pub fn change_clip_color(&mut self, color: Rgba)
        ensures
            final(self).spec_clip_color() == color,
            final(self).spec_name() == old(self).spec_name(),
            final(self).spec_tile_width_px() == old(self).spec_tile_width_px(),
            final(self).spec_pixels_per_unit() == old(self).spec_pixels_per_unit(),
            final(self).spec_tile_count_x() == old(self).spec_tile_count_x(),
            final(self).spec_tile_count_y() == old(self).spec_tile_count_y(),
    {
        self.clip_color = color;
    }

    /// How many vertical pixels one character tile has.
    pub fn pixels_per_unit(&self) -> (r: u32)
        ensures
            r == self.spec_pixels_per_unit(),
    {
        self.pixels_per_unit
    }

    /// How many horizontal pixels one character tile has.
    pub fn tile_width_pixels(&self) -> (r: u32)
        ensures
            r == self.spec_tile_width_px(),
    {
        self.tile_width_px
    }

    /// Number of tile columns in the atlas texture.
    pub fn tile_count_x(&self) -> (r: u32)
        ensures
            r == self.spec_tile_count_x(),
    {
        self.tile_count_x
    }

    /// Number of tile rows in the atlas texture.
    pub fn tile_count_y(&self) -> (r: u32)
        ensures
            r == self.spec_tile_count_y(),
    {
        self.tile_count_y
    }
}

impl Default for TerminalFont {
    /// The default font: the built-in code page texture `px437_8x8.png`,
    /// 128 by 128 pixels in a 16 by 16 atlas, with an opaque black clip
    /// color.
    fn default() -> (r: Self)
        ensures
            r.wf(),
            r.spec_name() == DEFAULT_FONT_NAME@,
            r.spec_clip_color() == (Rgba { r: 0u8, g: 0u8, b: 0u8, a: 255u8 }),
            r.spec_tile_width_px() == 8,
            r.spec_pixels_per_unit() == 8,
            r.spec_tile_count_x() == 16,
            r.spec_tile_count_y() == 16,
    {
        TerminalFont {
            name: DEFAULT_FONT_NAME.to_owned(),
            clip_color: Rgba::black(),
            tile_width_px: 8,
            pixels_per_unit: 8,
            tile_count_x: 16,
            tile_count_y: 16,
        }
    }
}

/// Every font in the sequence is well-formed and names are unique, so a
/// name picks out at most one font.
pub open spec fn fonts_wf(s: Seq<TerminalFont>) -> bool {
    &&& forall|i: int| 0 <= i < s.len() ==> (#[trigger] s[i]).wf()
    &&& forall|i: int, j: int|
        0 <= i < s.len() && 0 <= j < s.len() && i != j ==> s[i].spec_name() != s[j].spec_name()
}

/// Whether some font in the sequence carries this name.
pub open spec fn contains_name(s: Seq<TerminalFont>, name: Seq<char>) -> bool {
    exists|i: int| 0 <= i < s.len() && (#[trigger] s[i]).spec_name() == name
}

/// The position of the font with this name (meaningful when the name is
/// present and names are unique).
pub open spec fn index_of_name(s: Seq<TerminalFont>, name: Seq<char>) -> int {
    choose|i: int| 0 <= i < s.len() && (#[trigger] s[i]).spec_name() == name
}

/// The sequence of fonts read as a map from name to font.
pub open spec fn font_map(s: Seq<TerminalFont>) -> Map<Seq<char>, TerminalFont> {
    Map::new(|n: Seq<char>| contains_name(s, n), |n: Seq<char>| s[index_of_name(s, n)])
}

/// With unique names, the font at position `i` is exactly the one its name
/// finds.
proof fn lemma_name_index(s: Seq<TerminalFont>, i: int)
    requires
        fonts_wf(s),
        0 <= i < s.len(),
    ensures
        contains_name(s, s[i].spec_name()),
        index_of_name(s, s[i].spec_name()) == i,
{
    assert(contains_name(s, s[i].spec_name()));
    let j = index_of_name(s, s[i].spec_name());
    assert(0 <= j < s.len() && s[j].spec_name() == s[i].spec_name());
    if i != j {
        assert(s[i].spec_name() != s[j].spec_name());
    }
}

/// Replacing the font at `i` by one of the same name keeps the sequence
/// well-formed and acts as a map insert on that name.
proof fn lemma_font_map_update(s: Seq<TerminalFont>, i: int, font: TerminalFont)
    requires
        fonts_wf(s),
        0 <= i < s.len(),
        s[i].spec_name() == font.spec_name(),
        font.wf(),
    ensures
        fonts_wf(s.update(i, font)),
        font_map(s.update(i, font)) == font_map(s).insert(font.spec_name(), font),
{
    let t = s.update(i, font);
    let name = font.spec_name();
    assert(forall|k: int| 0 <= k < t.len() ==> (#[trigger] t[k]).spec_name() == s[k].spec_name());
    assert(fonts_wf(t));
    let m1 = font_map(t);
    let m2 = font_map(s).insert(name, font);
    assert forall|n: Seq<char>| m1.dom().contains(n) implies m2.dom().contains(n) by {
        let k = choose|k: int| 0 <= k < t.len() && (#[trigger] t[k]).spec_name() == n;
        assert(s[k].spec_name() == n);
        assert(contains_name(s, n));
    }
    assert forall|n: Seq<char>| m2.dom().contains(n) implies m1.dom().contains(n) by {
        if n == name {
            assert(t[i].spec_name() == n);
            assert(contains_name(t, n));
        } else {
            let k = choose|k: int| 0 <= k < s.len() && (#[trigger] s[k]).spec_name() == n;
            assert(t[k].spec_name() == n);
            assert(contains_name(t, n));
        }
    }
    assert forall|n: Seq<char>| m1.dom().contains(n) implies m1[n] == m2[n] by {
        let kt = index_of_name(t, n);
        assert(0 <= kt < t.len() && t[kt].spec_name() == n);
        lemma_name_index(t, kt);
        if n == name {
            lemma_name_index(t, i);
            assert(kt == i);
            assert(m1[n] == font);
        } else {
            assert(kt != i);
            assert(s[kt].spec_name() == n);
            lemma_name_index(s, kt);
            assert(m2[n] == s[kt]);
            assert(m1[n] == t[kt]);
        }
    }
    assert(m1 =~= m2);
}

/// Appending a font under a fresh name keeps the sequence well-formed and
/// acts as a map insert of that name.
proof fn lemma_font_map_push(s: Seq<TerminalFont>, font: TerminalFont)
    requires
        fonts_wf(s),
        font.wf(),
        !contains_name(s, font.spec_name()),
    ensures
        fonts_wf(s.push(font)),
        font_map(s.push(font)) == font_map(s).insert(font.spec_name(), font),
{
    let t = s.push(font);
    let name = font.spec_name();
    assert forall|i: int, j: int|
        0 <= i < t.len() && 0 <= j < t.len() && i != j implies t[i].spec_name()
        != t[j].spec_name() by {
        if i < s.len() && j < s.len() {
            assert(s[i].spec_name() != s[j].spec_name());
        } else if i < s.len() {
            assert(t[j] == font);
            if s[i].spec_name() == name {
                assert(contains_name(s, name));
            }
        } else {
            assert(t[i] == font);
            if s[j].spec_name() == name {
                assert(contains_name(s, name));
            }
        }
    }
    assert(fonts_wf(t));
    let m1 = font_map(t);
    let m2 = font_map(s).insert(name, font);
    assert forall|n: Seq<char>| m1.dom().contains(n) implies m2.dom().contains(n) by {
        let k = choose|k: int| 0 <= k < t.len() && (#[trigger] t[k]).spec_name() == n;
        if k < s.len() {
            assert(s[k].spec_name() == n);
            assert(contains_name(s, n));
        } else {
            assert(n == name);
        }
    }
    assert forall|n: Seq<char>| m2.dom().contains(n) implies m1.dom().contains(n) by {
        if n == name {
            assert(t[s.len() as int].spec_name() == n);
            assert(contains_name(t, n));
        } else {
            let k = choose|k: int| 0 <= k < s.len() && (#[trigger] s[k]).spec_name() == n;
            assert(t[k].spec_name() == n);
            assert(contains_name(t, n));
        }
    }
    assert forall|n: Seq<char>| m1.dom().contains(n) implies m1[n] == m2[n] by {
        let kt = index_of_name(t, n);
        assert(0 <= kt < t.len() && t[kt].spec_name() == n);
        lemma_name_index(t, kt);
        if n == name {
            lemma_name_index(t, s.len() as int);
            assert(kt == s.len() as int);
            assert(m1[n] == font);
        } else {
            assert(kt != s.len() as int);
            assert(s[kt].spec_name() == n);
            lemma_name_index(s, kt);
            assert(m2[n] == s[kt]);
            assert(m1[n] == t[kt]);
        }
    }
    assert(m1 =~= m2);
}

/// Resource used to store and retrieve terminal fonts, keyed by their file
/// name (names unique). Fonts are added at startup or hot-added later, never
/// removed.
#[derive(Debug)]
pub struct TerminalFonts {
    fonts: Vec<TerminalFont>,
}

impl View for TerminalFonts {
    type V = Map<Seq<char>, TerminalFont>;

    /// The registry read as a map from font name to font.
    closed spec fn view(&self) -> Map<Seq<char>, TerminalFont> {
        font_map(self.fonts@)
    }
}

impl TerminalFonts {
    /// The stored fonts, in insertion order.
    pub closed spec fn spec_fonts(&self) -> Seq<TerminalFont> {
        self.fonts@
    }

    /// Well-formedness: every stored font is well-formed and names are
    /// unique.
    pub open spec fn wf(&self) -> bool {
        fonts_wf(self.spec_fonts())
    }

    /// An empty registry.
    pub fn new() -> (r: TerminalFonts)
        ensures
            r.wf(),
            r@ == Map::<Seq<char>, TerminalFont>::empty(),
    {
        let r = TerminalFonts { fonts: Vec::new() };
        proof {
            assert(r@ =~= Map::<Seq<char>, TerminalFont>::empty());
        }
        r
    }

    /// Add a font to the registry, replacing any font of the same name.
    pub fn add(&mut self, font: TerminalFont)
        requires
            old(self).wf(),
            font.wf(),
        ensures
            final(self).wf(),
            final(self)@ == old(self)@.insert(font.spec_name(), font),
    {
        let n = self.fonts.len();
        let mut i: usize = 0;
        while i < n
            invariant
                n == self.fonts@.len(),
                i <= n,
                self.fonts@ == old(self).fonts@,
                self.wf(),
                font.wf(),
                forall|j: int| 0 <= j < i ==> (#[trigger] self.fonts@[j]).spec_name() != font.spec_name(),
            decreases n - i,
        {
            if self.fonts[i].name == font.name {
                proof {
                    lemma_font_map_update(self.fonts@, i as int, font);
                }
                self.fonts.set(i, font);
                return;
            }
            i = i + 1;
        }
        proof {
            lemma_font_map_push(self.fonts@, font);
        }
        self.fonts.push(font);
    }

    /// Retrieve a font by name. Fails with `NotFound` exactly when no font
    /// of that name was registered; never silently substitutes another font.
    pub fn get(&self, font_name: &str) -> (r: Result<&TerminalFont, TerminalError>)
        requires
            self.wf(),
        ensures
            match r {
                Ok(f) => self@.dom().contains(font_name@) && *f == self@[font_name@],
                Err(e) => {
                    &&& e == TerminalError::NotFound
                    &&& !self@.dom().contains(font_name@)
                },
            },
    {
        let key: String = font_name.to_owned();
        let n = self.fonts.len();
        let mut i: usize = 0;
        while i < n
            invariant
                n == self.fonts@.len(),
                i <= n,
                self.wf(),
                key@ == font_name@,
                forall|j: int| 0 <= j < i ==> (#[trigger] self.fonts@[j]).spec_name() != font_name@,
            decreases n - i,
        {
            if self.fonts[i].name == key {
                proof {
                    lemma_name_index(self.fonts@, i as int);
                }
                return Ok(&self.fonts[i]);
            }
            i = i + 1;
        }
        Err(TerminalError::NotFound)
    }

    /// Register a font straight from its texture metrics. A texture whose
    /// dimensions do not divide evenly into the tile count is rejected with
    /// `InvalidFontTexture` and the registry is left unchanged, so other
    /// fonts still load.
    pub fn register(&mut self, name: &str, tex_width: u32, tex_height: u32, tile_count_x: u32, tile_count_y: u32) -> (r:
        Result<(), TerminalError>)
        requires
            old(self).wf(),
        ensures
            final(self).wf(),
            match r {
                Ok(()) => {
                    &&& texture_metrics_valid(tex_width, tex_height, tile_count_x, tile_count_y)
                    &&& final(self)@.dom().contains(name@)
                    &&& final(self)@[name@].spec_name() == name@
                    &&& final(self)@[name@].spec_tile_width_px() == tex_width as int / tile_count_x as int
                    &&& final(self)@[name@].spec_pixels_per_unit() == tex_height as int / tile_count_y as int
                    &&& final(self)@[name@].spec_tile_count_x() == tile_count_x
                    &&& final(self)@[name@].spec_tile_count_y() == tile_count_y
                    &&& final(self)@ == old(self)@.insert(name@, final(self)@[name@])
                },
                Err(e) => {
                    &&& e == TerminalError::InvalidFontTexture
                    &&& !texture_metrics_valid(tex_width, tex_height, tile_count_x, tile_count_y)
                    &&& final(self)@ == old(self)@
                },
            },
    {
        match TerminalFont::from_texture(name, tex_width, tex_height, tile_count_x, tile_count_y) {
            Ok(font) => {
                self.add(font);
                Ok(())
            },
            Err(e) => Err(e),
        }
    }
}

/// Name and texture metrics of one font that ships with the terminal. The
/// image bytes themselves live with the host engine's asset layer; the core
/// only needs the metrics.
#[derive(Clone, Copy, Debug)]
pub struct BuiltInFontData {
    /// The file name of the font texture, including extension.
    pub name: &'static str,
    /// Horizontal pixels of the texture.
    pub tex_width: u32,
    /// Vertical pixels of the texture.
    pub tex_height: u32,
    /// Number of tile columns in the atlas.
    pub tile_count_x: u32,
    /// Number of tile rows in the atlas.
    pub tile_count_y: u32,
}

/// The metrics of the five fonts that ship with the terminal, each a 16 by
/// 16 code-page atlas.
pub fn built_in_fonts() -> (r: Vec<BuiltInFontData>)
    ensures
        r@.len() == 5,
        forall|i: int|
            0 <= i < 5 ==> texture_metrics_valid(
                (#[trigger] r@[i]).tex_width,
                r@[i].tex_height,
                r@[i].tile_count_x,
                r@[i].tile_count_y,
            ),
        r@[0].name@ == "jt_curses_12x12.png"@ && r@[0].tex_height == 192,
        r@[1].name@ == "pastiche_8x8.png"@ && r@[1].tex_height == 128,
        r@[2].name@ == "px437_8x8.png"@ && r@[2].tex_height == 128,
        r@[3].name@ == "taffer_10x10.png"@ && r@[3].tex_height == 160,
        r@[4].name@ == "zx_evolution_8x8.png"@ && r@[4].tex_height == 128,
        forall|i: int| 0 <= i < 5 ==> (#[trigger] r@[i]).tile_count_x == 16 && r@[i].tile_count_y == 16
            && r@[i].tex_width == r@[i].tex_height,
{
    let mut v: Vec<BuiltInFontData> = Vec::new();
    v.push(BuiltInFontData {
        name: "jt_curses_12x12.png",
        tex_width: 192,
        tex_height: 192,
        tile_count_x: 16,
        tile_count_y: 16,
    });
    v.push(BuiltInFontData {
        name: "pastiche_8x8.png",
        tex_width: 128,
        tex_height: 128,
        tile_count_x: 16,
        tile_count_y: 16,
    });
    v.push(BuiltInFontData {
        name: "px437_8x8.png",
        tex_width: 128,
        tex_height: 128,
        tile_count_x: 16,
        tile_count_y: 16,
    });
    v.push(BuiltInFontData {
        name: "taffer_10x10.png",
        tex_width: 160,
        tex_height: 160,
        tile_count_x: 16,
        tile_count_y: 16,
    });
    v.push(BuiltInFontData {
        name: "zx_evolution_8x8.png",
        tex_width: 128,
        tex_height: 128,
        tile_count_x: 16,
        tile_count_y: 16,
    });
    v
}

impl TerminalFonts {
    /// A registry populated with the five built-in fonts, keyed by their
    /// file names, each read as a 16 by 16 atlas of square tiles.
    pub fn with_built_ins() -> (r: TerminalFonts)
        ensures
            r.wf(),
            r@.dom().contains("jt_curses_12x12.png"@) && r@["jt_curses_12x12.png"@].spec_pixels_per_unit() == 12,
            r@.dom().contains("pastiche_8x8.png"@) && r@["pastiche_8x8.png"@].spec_pixels_per_unit() == 8,
            r@.dom().contains("px437_8x8.png"@) && r@["px437_8x8.png"@].spec_pixels_per_unit() == 8,
            r@.dom().contains("taffer_10x10.png"@) && r@["taffer_10x10.png"@].spec_pixels_per_unit() == 10,
            r@.dom().contains("zx_evolution_8x8.png"@) && r@["zx_evolution_8x8.png"@].spec_pixels_per_unit()
                == 8,
    {
        proof {
            reveal_strlit("jt_curses_12x12.png");
            reveal_strlit("pastiche_8x8.png");
            reveal_strlit("px437_8x8.png");
            reveal_strlit("taffer_10x10.png");
            reveal_strlit("zx_evolution_8x8.png");
            assert("jt_curses_12x12.png"@.len() == 19);
            assert("pastiche_8x8.png"@.len() == 16);
            assert("px437_8x8.png"@.len() == 13);
            assert("taffer_10x10.png"@.len() == 16);
            assert("zx_evolution_8x8.png"@.len() == 20);
            assert("pastiche_8x8.png"@[0] != "taffer_10x10.png"@[0]);
            assert("jt_curses_12x12.png"@ != "pastiche_8x8.png"@);
            assert("jt_curses_12x12.png"@ != "px437_8x8.png"@);
            assert("jt_curses_12x12.png"@ != "taffer_10x10.png"@);
            assert("jt_curses_12x12.png"@ != "zx_evolution_8x8.png"@);
            assert("pastiche_8x8.png"@ != "px437_8x8.png"@);
            assert("pastiche_8x8.png"@ != "taffer_10x10.png"@);
            assert("pastiche_8x8.png"@ != "zx_evolution_8x8.png"@);
            assert("px437_8x8.png"@ != "taffer_10x10.png"@);
            assert("px437_8x8.png"@ != "zx_evolution_8x8.png"@);
            assert("taffer_10x10.png"@ != "zx_evolution_8x8.png"@);
        }
        let mut r = TerminalFonts::new();
        let _ = r.register("jt_curses_12x12.png", 192, 192, 16, 16);
        let _ = r.register("pastiche_8x8.png", 128, 128, 16, 16);
        let _ = r.register("px437_8x8.png", 128, 128, 16, 16);
        let _ = r.register("taffer_10x10.png", 160, 160, 16, 16);
        let _ = r.register("zx_evolution_8x8.png", 128, 128, 16, 16);
        r
    }
}

impl Default for TerminalFonts {
    /// An empty registry.
    fn default() -> (r: Self)
        ensures
            r.wf(),
            r@ == Map::<Seq<char>, TerminalFont>::empty(),
    {
        TerminalFonts::new()
    }
}

} // verus!
