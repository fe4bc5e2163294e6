//! Shaped text as the library receives it from a shaping service: line
//! metrics and glyph runs, each run with the font it was shaped with.

use linebender_resource_handle::FontData;
use vstd::prelude::*;

verus! {

/// A glyph placed by the shaper, relative to the layout's top-left corner.
#[derive(Clone, Copy, Debug, PartialEq)]
pub struct PositionedGlyph<T> {
    pub id: u32,
    pub x: T,
    pub y: T,
    pub advance: T,
}

/// A run of glyphs with the same styling.
#[derive(Clone, Debug)]
pub struct GlyphRun<T> {
    pub glyphs: Vec<PositionedGlyph<T>>,
    pub font_size: T,
}

/// A run of glyphs with what a rasterizer needs to draw them: the font and
/// the variable-font coordinates the run was shaped with.
#[derive(Clone, Debug)]
pub struct GlyphRunWithFont<T> {
    pub glyphs: Vec<PositionedGlyph<T>>,
    pub font_size: T,
    pub font_data: Option<FontData>,
    pub normalized_coords: Vec<i16>,
}

/// Vertical metrics of one line of a layout, measured from the layout's top.
#[derive(Clone, Copy, Debug, PartialEq)]
pub struct LineMetrics<T> {
    /// Distance from the top of the layout to the line's baseline.
    pub baseline: T,
    /// Distance from the baseline up to the top of the line's tallest font.
    pub ascent: T,
    /// Distance from the baseline down to the bottom of the line's deepest
    /// font.
    pub descent: T,
    /// Height of capital letters above the baseline.
    pub cap_height: T,
    /// Height of lower-case letters above the baseline.
    pub x_height: T,
}

/// A laid-out piece of text: the result of one call of the shaping service.
#[derive(Clone, Debug)]
pub struct TextLayout<T> {
    width: T,
    height: T,
    lines: Vec<LineMetrics<T>>,
    runs: Vec<GlyphRunWithFont<T>>,
}

/// What a text layout holds.
pub struct TextLayoutView<T> {
    pub width: T,
    pub height: T,
    pub lines: Seq<LineMetrics<T>>,
    pub runs: Seq<GlyphRunWithFont<T>>,
}

impl<T> View for TextLayout<T> {
    type V = TextLayoutView<T>;

    closed spec fn view(&self) -> TextLayoutView<T> {
        TextLayoutView {
            width: self.width,
            height: self.height,
            lines: self.lines@,
            runs: self.runs@,
        }
    }
}

/// The run without its font and coordinates.
pub open spec fn plain_run<T>(run: GlyphRunWithFont<T>, plain: GlyphRun<T>) -> bool {
    plain.glyphs@ == run.glyphs@ && plain.font_size == run.font_size
}

impl<T: Copy> TextLayout<T> {
    /// A layout of the given extent, lines (top to bottom) and glyph runs (in
    /// visual order).
    pub fn new(
        width: T,
        height: T,
        lines: Vec<LineMetrics<T>>,
        runs: Vec<GlyphRunWithFont<T>>,
    ) -> (r: Self)
        ensures
            r@ == (TextLayoutView { width, height, lines: lines@, runs: runs@ }),
    {
        TextLayout { width, height, lines, runs }
    }

    pub fn width(&self) -> (w: T)
        ensures
            w == self@.width,
    {
        self.width
    }

    pub fn height(&self) -> (h: T)
        ensures
            h == self@.height,
    {
        self.height
    }

    /// The metrics of each line, top to bottom.
    pub fn line_metrics(&self) -> (r: &[LineMetrics<T>])
        ensures
            r@ == self@.lines,
    {
        self.lines.as_slice()
    }

    /// The glyph runs with their fonts, in visual order.
    pub fn glyph_runs_with_font(&self) -> (r: &[GlyphRunWithFont<T>])
        ensures
            r@ == self@.runs,
    {
        self.runs.as_slice()
    }

    /// The glyph runs without their fonts, in visual order.
    pub fn glyph_runs(&self) -> (r: Vec<GlyphRun<T>>)
        ensures
            r@.len() == self@.runs.len(),
            forall|i: int| 0 <= i < r@.len() ==> plain_run(self@.runs[i], #[trigger] r@[i]),
    {
        let mut out: Vec<GlyphRun<T>> = Vec::new();
        let mut i: usize = 0;
        while i < self.runs.len()
            invariant
                i <= self.runs.len(),
                out@.len() == i,
                forall|k: int| 0 <= k < i ==> plain_run(self.runs@[k], #[trigger] out@[k]),
            decreases self.runs.len() - i,
        {
            let run = &self.runs[i];
            let glyphs = copy_glyphs(&run.glyphs);
            out.push(GlyphRun { glyphs, font_size: run.font_size });
            i += 1;
        }
        out
    }
}

/// A copy of a glyph list.
fn copy_glyphs<T: Copy>(glyphs: &Vec<PositionedGlyph<T>>) -> (r: Vec<PositionedGlyph<T>>)
    ensures
        r@ == glyphs@,
{
    let mut out: Vec<PositionedGlyph<T>> = Vec::new();
    let mut i: usize = 0;
    while i < glyphs.len()
        invariant
            i <= glyphs.len(),
            out@ == glyphs@.take(i as int),
        decreases glyphs.len() - i,
    {
        out.push(glyphs[i]);
        i += 1;
    }
    out
}

} // verus!
