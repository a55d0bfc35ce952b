use vstd::prelude::*;
use vstd::arithmetic::div_mod::{lemma_basic_div, lemma_div_by_self, lemma_div_is_ordered};

verus! {

/// Why a glyph sheet cannot be cut into glyphs of the requested size.
#[derive(Clone, Copy, Debug, PartialEq, Eq, Structural)]
pub enum FontError {
    /// The glyphs are wider than the sheet.
    GlyphTooWide,
    /// The glyphs are taller than the sheet.
    GlyphTooTall,
}

/// How a sheet of fixed-size glyphs is laid out: glyph `ch` sits in column
/// `ch % chars_per_row` and row `ch / chars_per_row`.
#[derive(Clone, Copy, Debug, PartialEq, Eq, Structural)]
pub struct GlyphGrid {
    pub width: u32,
    pub height: u32,
    pub chars_per_row: u32,
    pub rows: u32,
}

/// A quotient of naturals is at least one exactly when the dividend is at
/// least the divisor.
proof fn lemma_at_least_one_iff(x: int, d: int)
    requires
        0 <= x,
        0 < d,
    ensures
        (x / d >= 1) == (x >= d),
{
    if x < d {
        lemma_basic_div(x, d);
    } else {
        lemma_div_by_self(d);
        lemma_div_is_ordered(d, x, d);
    }
}

impl GlyphGrid {
    pub open spec fn wf(self) -> bool {
        self.chars_per_row >= 1 && self.rows >= 1
    }

    /// Cuts a sheet of `sheet_width` by `sheet_height` pixels into glyphs of
    /// `width` by `height` pixels.
    pub fn new(sheet_width: u32, sheet_height: u32, width: u32, height: u32) -> (r: Result<
        GlyphGrid,
        FontError,
    >)
        requires
            width > 0,
            height > 0,
        ensures
            sheet_width < width ==> r == Err::<GlyphGrid, FontError>(FontError::GlyphTooWide),
            sheet_width >= width && sheet_height < height ==> r == Err::<GlyphGrid, FontError>(
                FontError::GlyphTooTall,
            ),
            sheet_width >= width && sheet_height >= height ==> r == Ok::<GlyphGrid, FontError>(
                GlyphGrid {
                    width,
                    height,
                    chars_per_row: sheet_width / width,
                    rows: sheet_height / height,
                },
            ),
            r matches Ok(g) ==> g.wf(),
    {
        let chars_per_row = sheet_width / width;
        let rows = sheet_height / height;
        proof {
            lemma_at_least_one_iff(sheet_width as int, width as int);
            lemma_at_least_one_iff(sheet_height as int, height as int);
        }
        if chars_per_row < 1 {
            Err(FontError::GlyphTooWide)
        } else if rows < 1 {
            Err(FontError::GlyphTooTall)
        } else {
            Ok(GlyphGrid { width, height, chars_per_row, rows })
        }
    }

    /// Column and row of glyph `ch` on the sheet, if the sheet holds it.
    pub fn cell(&self, ch: u8) -> (r: Option<(u32, u32)>)
        requires
            self.wf(),
        ensures
            r == if (ch as int) / (self.chars_per_row as int) < self.rows {
                Some(
                    (
                        ((ch as int) % (self.chars_per_row as int)) as u32,
                        ((ch as int) / (self.chars_per_row as int)) as u32,
                    ),
                )
            } else {
                None::<(u32, u32)>
            },
    {
        let i = ch as u32 % self.chars_per_row;
        let j = ch as u32 / self.chars_per_row;
        if j < self.rows {
            Some((i, j))
        } else {
            None
        }
    }
}

} // verus!
