//! Maps glyph codes to tile coordinates within a font atlas.
//!
//! A mapping is a plain lookup table, so custom (for example non-contiguous)
//! atlas layouts can be swapped in without touching the mesh builder. The
//! mapping is total: a code outside the supported range resolves to the
//! fallback entry at index 0 rather than erroring, since every grid cell must
//! stay renderable.

use vstd::prelude::*;

verus! {

/// One tile coordinate in a font atlas: column and row, both 0-based with
/// (0,0) the top-left tile of the texture.
#[derive(Clone, Copy, PartialEq, Eq, Structural, Debug)]
pub struct AtlasTile {
    pub col: u32,
    pub row: u32,
}

/// Well-formedness of a lookup table for an atlas of `cols` by `rows`
/// tiles: the atlas has at least one tile each way, the table supports at
/// least one code (the fallback), and every entry lands inside the atlas.
pub open spec fn table_wf(cols: u32, rows: u32, entries: Seq<AtlasTile>) -> bool {
    &&& 1 <= cols
    &&& 1 <= rows
    &&& 1 <= entries.len()
    &&& forall|i: int|
        0 <= i < entries.len() ==> {
            &&& (#[trigger] entries[i]).col < cols
            &&& entries[i].row < rows
        }
}

/// A deterministic, stateless map from an integer glyph code to an atlas
/// tile coordinate, total over all of `u32` via the fallback entry.
pub struct GlyphMapping {
    /// Number of tile columns in the atlas the table indexes into.
    cols: u32,
    /// Number of tile rows in the atlas the table indexes into.
    rows: u32,
    /// Tile coordinate for each supported glyph code; entry 0 doubles as the
    /// fallback for out-of-range codes.
    entries: Vec<AtlasTile>,
}

impl GlyphMapping {
    /// Number of tile columns in the atlas this mapping targets.
    pub closed spec fn spec_cols(&self) -> u32 {
        self.cols
    }

    /// Number of tile rows in the atlas this mapping targets.
    pub closed spec fn spec_rows(&self) -> u32 {
        self.rows
    }

    /// The lookup table: one atlas tile per supported glyph code.
    pub closed spec fn spec_entries(&self) -> Seq<AtlasTile> {
        self.entries@
    }

    /// Well-formedness: the mapping's table is well-formed for its atlas.
    pub open spec fn wf(&self) -> bool {
        table_wf(self.spec_cols(), self.spec_rows(), self.spec_entries())
    }

    /// What `map` returns: the table entry for a supported code, the
    /// fallback entry 0 otherwise. A pure function of the mapping and the
    /// code, hence deterministic across calls.
    pub open spec fn spec_map(&self, code: u32) -> AtlasTile {
        if (code as int) < self.spec_entries().len() {
            self.spec_entries()[code as int]
        } else {
            self.spec_entries()[0]
        }
    }

    /// Build a custom mapping from a lookup table, validating it.
    ///
    /// Returns `Some` exactly when the table is well-formed: a non-degenerate
    /// atlas, a non-empty table, and every entry inside the atlas.
    pub fn from_table(cols: u32, rows: u32, entries: Vec<AtlasTile>) -> (r: Option<GlyphMapping>)
        ensures
            match r {
                Some(m) => {
                    &&& m.wf()
                    &&& m.spec_cols() == cols
                    &&& m.spec_rows() == rows
                    &&& m.spec_entries() == entries@
                },
                None => !table_wf(cols, rows, entries@),
            },
    {
        if cols < 1 || rows < 1 || entries.len() < 1 {
            return None;
        }
        let mut i: usize = 0;
        while i < entries.len()
            invariant
                i <= entries@.len(),
                forall|j: int|
                    0 <= j < i ==> {
                        &&& (#[trigger] entries@[j]).col < cols
                        &&& entries@[j].row < rows
                    },
            decreases entries@.len() - i,
        {
            let e = entries[i];
            if e.col >= cols || e.row >= rows {
                return None;
            }
            i = i + 1;
        }
        Some(GlyphMapping { cols, rows, entries })
    }

    /// The default mapping: a 16x16 code-page style atlas where code `c`
    /// sits at column `c % 16`, row `c / 16`, for codes 0 through 255.
    pub fn code_page_16x16() -> (m: GlyphMapping)
        ensures
            m.wf(),
            m.spec_cols() == 16,
            m.spec_rows() == 16,
            m.spec_entries().len() == 256,
            forall|c: int|
                0 <= c < 256 ==> #[trigger] m.spec_entries()[c] == (AtlasTile {
                    col: (c % 16) as u32,
                    row: (c / 16) as u32,
                }),
    {
        let mut entries: Vec<AtlasTile> = Vec::new();
        let mut c: u32 = 0;
        while c < 256
            invariant
                c <= 256,
                entries@.len() == c,
                forall|i: int|
                    0 <= i < c ==> #[trigger] entries@[i] == (AtlasTile {
                        col: (i % 16) as u32,
                        row: (i / 16) as u32,
                    }),
            decreases 256 - c,
        {
            entries.push(AtlasTile { col: c % 16, row: c / 16 });
            c = c + 1;
        }
        GlyphMapping { cols: 16, rows: 16, entries }
    }

    /// Number of tile columns in the atlas this mapping targets.
    pub fn cols(&self) -> (r: u32)
        ensures
            r == self.spec_cols(),
    {
        self.cols
    }

    /// Number of tile rows in the atlas this mapping targets.
    pub fn rows(&self) -> (r: u32)
        ensures
            r == self.spec_rows(),
    {
        self.rows
    }

    /// How many glyph codes the table supports directly; codes at or above
    /// this resolve to the fallback entry.
    pub fn supported_codes(&self) -> (r: usize)
        ensures
            r == self.spec_entries().len(),
    {
        self.entries.len()
    }

    /// Resolve a glyph code to its atlas tile. Total: out-of-range codes
    /// fall back to entry 0.
    pub fn map(&self, code: u32) -> (tile: AtlasTile)
        requires
            self.wf(),
        ensures
            tile == self.spec_map(code),
            tile.col < self.spec_cols(),
            tile.row < self.spec_rows(),
    {
        let n = self.entries.len();
        if (code as usize) < n {
            self.entries[code as usize]
        } else {
            self.entries[0]
        }
    }
}

/// Law: a well-formed mapping is total over every `u32` glyph code, and what
/// it resolves to always lands inside the atlas. Together with `spec_map`
/// being a pure function of the mapping and the code (so the same input
/// yields the same output across calls), this is the mapping's whole
/// obligation.
pub proof fn lemma_map_total(m: GlyphMapping, code: u32)
    requires
        m.wf(),
    ensures
        m.spec_map(code).col < m.spec_cols(),
        m.spec_map(code).row < m.spec_rows(),
{
}

} // verus!
