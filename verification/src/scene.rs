//! The scene: the flat list of primitives that make up one frame.
//!
//! Insertion order is paint order. A later primitive draws on top of an
//! earlier one; there is no z-index.

use crate::color::Srgba;
use crate::geometry::Corners;
use crate::geometry::DevicePoint;
use crate::geometry::DeviceRect;
use crate::geometry::Edges;
use linebender_resource_handle::FontData;
use vstd::prelude::*;

verus! {

/// `FontData::clone` shares the blob and copies the face index: the clone
/// is the same font as the value it was made from.
pub assume_specification[ <FontData as Clone>::clone ](font: &FontData) -> (r: FontData)
    ensures
        r == *font,
;

/// `Vec::capacity`: the number of elements the vector can hold without
/// reallocating, which is never less than its length.
#[verifier::external_body]
fn vec_capacity<E>(v: &Vec<E>) -> (n: usize)
    ensures
        n >= v@.len(),
{
    v.capacity()
}

/// A filled and bordered rectangle with optional rounded corners. Bounds and
/// clip bounds are in device pixels.
#[derive(Clone, Copy, Debug, PartialEq)]
pub struct Quad<T> {
    pub bounds: DeviceRect<T>,
    pub background: Srgba<T>,
    pub border_color: Srgba<T>,
    pub border_widths: Edges<T>,
    pub corner_radii: Corners<T>,
    /// Fragments outside this rectangle are discarded. `None`: unclipped.
    pub clip_bounds: Option<DeviceRect<T>>,
}

impl<T: Copy + Default> Quad<T> {
    /// `self` is the plain filled quad over `bounds`: no border, square
    /// corners, no clip.
    pub open spec fn is_plain(self, bounds: DeviceRect<T>, background: Srgba<T>) -> bool {
        &&& self.bounds == bounds
        &&& self.background == background
        &&& self.border_color.is_transparent()
        &&& self.border_widths.is_default()
        &&& self.corner_radii.is_default()
        &&& self.clip_bounds.is_none()
    }

    /// A filled quad without border, rounding or clip.
    pub fn new(bounds: DeviceRect<T>, background: Srgba<T>) -> (r: Self)
        ensures
            r.is_plain(bounds, background),
    {
        Quad {
            bounds,
            background,
            border_color: Srgba::transparent(),
            border_widths: Edges::default(),
            corner_radii: Corners::default(),
            clip_bounds: None,
        }
    }
}

/// A glyph of a text run, placed relative to the run's origin.
#[derive(Clone, Copy, Debug, PartialEq)]
pub struct GlyphInstance<T> {
    /// Glyph index in the font.
    pub glyph_id: u32,
    /// Horizontal offset from the run origin.
    pub x: T,
    /// Vertical offset from the run baseline.
    pub y: T,
}

/// A sequence of glyphs that share one font face, size and variable-font
/// configuration.
#[derive(Clone, Debug)]
pub struct TextRun<T> {
    /// Start of the baseline, in device pixels.
    pub origin: DevicePoint<T>,
    pub color: Srgba<T>,
    /// Font size in device pixels.
    pub font_size: T,
    pub font: FontData,
    /// Normalized design-space coordinates of a variable font.
    pub normalized_coords: Vec<i16>,
    pub glyphs: Vec<GlyphInstance<T>>,
}

impl<T: Copy> TextRun<T> {
    /// A run without glyphs or variation coordinates.
    pub fn new(origin: DevicePoint<T>, color: Srgba<T>, font_size: T, font: FontData) -> (r: Self)
        ensures
            r.origin == origin,
            r.color == color,
            r.font_size == font_size,
            r.font == font,
            r.normalized_coords@ == Seq::<i16>::empty(),
            r.glyphs@ == Seq::<GlyphInstance<T>>::empty(),
    {
        TextRun {
            origin,
            color,
            font_size,
            font,
            normalized_coords: Vec::new(),
            glyphs: Vec::new(),
        }
    }

    /// The same run with its variation coordinates replaced.
    pub fn with_normalized_coords(self, coords: Vec<i16>) -> (r: Self)
        ensures
            r.normalized_coords == coords,
            r.origin == self.origin,
            r.color == self.color,
            r.font_size == self.font_size,
            r.font == self.font,
            r.glyphs == self.glyphs,
    {
        let mut run = self;
        run.normalized_coords = coords;
        run
    }

    /// Appends a glyph at offset `(x, y)` from the run origin.
    pub fn push_glyph(&mut self, glyph_id: u32, x: T, y: T)
        ensures
            final(self).glyphs@ == old(self).glyphs@.push(GlyphInstance { glyph_id, x, y }),
            final(self).origin == old(self).origin,
            final(self).color == old(self).color,
            final(self).font_size == old(self).font_size,
            final(self).font == old(self).font,
            final(self).normalized_coords == old(self).normalized_coords,
    {
        self.glyphs.push(GlyphInstance { glyph_id, x, y });
    }
}

/// What a scene holds, in paint order.
pub struct SceneView<T> {
    pub quads: Seq<Quad<T>>,
    pub text_runs: Seq<TextRun<T>>,
}

/// All primitives of one frame, ready for a renderer.
pub struct Scene<T> {
    quads: Vec<Quad<T>>,
    text_runs: Vec<TextRun<T>>,
}

impl<T> View for Scene<T> {
    type V = SceneView<T>;

    closed spec fn view(&self) -> SceneView<T> {
        SceneView { quads: self.quads@, text_runs: self.text_runs@ }
    }
}

impl<T> Scene<T> {
    /// The empty scene.
    pub fn new() -> (r: Self)
        ensures
            r@.quads == Seq::<Quad<T>>::empty(),
            r@.text_runs == Seq::<TextRun<T>>::empty(),
    {
        Scene { quads: Vec::new(), text_runs: Vec::new() }
    }

    /// Removes every primitive. The backing storage is kept for the next
    /// frame.
    pub fn clear(&mut self)
        ensures
            final(self)@.quads == Seq::<Quad<T>>::empty(),
            final(self)@.text_runs == Seq::<TextRun<T>>::empty(),
    {
        self.quads.clear();
        self.text_runs.clear();
    }

    /// Appends a quad; it paints over everything pushed before.
    pub fn push_quad(&mut self, quad: Quad<T>)
        ensures
            final(self)@.quads == old(self)@.quads.push(quad),
            final(self)@.text_runs == old(self)@.text_runs,
    {
        self.quads.push(quad);
    }

    /// The quads in paint order.
    pub fn quads(&self) -> (r: &[Quad<T>])
        ensures
            r@ == self@.quads,
    {
        self.quads.as_slice()
    }

    pub fn quad_count(&self) -> (n: usize)
        ensures
            n == self@.quads.len(),
    {
        self.quads.len()
    }

    /// Appends a text run; it paints over every run pushed before.
    pub fn push_text_run(&mut self, text_run: TextRun<T>)
        ensures
            final(self)@.text_runs == old(self)@.text_runs.push(text_run),
            final(self)@.quads == old(self)@.quads,
    {
        self.text_runs.push(text_run);
    }

    /// The text runs in paint order.
    pub fn text_runs(&self) -> (r: &[TextRun<T>])
        ensures
            r@ == self@.text_runs,
    {
        self.text_runs.as_slice()
    }

    pub fn text_run_count(&self) -> (n: usize)
        ensures
            n == self@.text_runs.len(),
    {
        self.text_runs.len()
    }

    /// Number of quads that the scene can hold before its storage grows.
    /// `clear` leaves it as it is.
    pub fn quad_capacity(&self) -> (n: usize)
        ensures
            n >= self@.quads.len(),
    {
        vec_capacity(&self.quads)
    }

    /// Number of text runs that the scene can hold before its storage grows.
    /// `clear` leaves it as it is.
    pub fn text_run_capacity(&self) -> (n: usize)
        ensures
            n >= self@.text_runs.len(),
    {
        vec_capacity(&self.text_runs)
    }

    /// Whether the scene holds no primitive at all.
    pub fn is_empty(&self) -> (b: bool)
        ensures
            b == (self@.quads.len() == 0 && self@.text_runs.len() == 0),
    {
        self.quads.len() == 0 && self.text_runs.len() == 0
    }
}

impl<T> Default for Scene<T> {
    fn default() -> (r: Self)
        ensures
            r@.quads == Seq::<Quad<T>>::empty(),
            r@.text_runs == Seq::<TextRun<T>>::empty(),
    {
        Scene::new()
    }
}

} // verus!
