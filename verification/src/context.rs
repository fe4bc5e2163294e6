//! The painter's context: a stack of offsets and a stack of clip rectangles
//! under which logical-pixel primitives are projected into device pixels and
//! appended to a scene.
//!
//! Nested clips do not intersect: a painted quad is stamped with the innermost
//! active clip rectangle alone.

use crate::accessibility::AccessId;
use crate::accessibility::AccessNode;
use crate::accessibility::AccessRole;
use crate::accessibility::AccessTree;
use crate::accessibility::AccessTreeView;
use crate::color::Srgba;
use crate::geometry::adds;
use crate::geometry::is_default;
use crate::geometry::multiplies;
use crate::geometry::subtracts;
use crate::geometry::DevicePoint;
use crate::geometry::DeviceRect;
use crate::geometry::Point;
use crate::geometry::Rect;
use crate::geometry::Scalar;
use crate::geometry::ScaleFactor;
use crate::geometry::Size;
use crate::scene::GlyphInstance;
use crate::scene::Quad;
use crate::scene::Scene;
use crate::scene::SceneView;
use crate::scene::TextRun;
use crate::text::GlyphRunWithFont;
use crate::text::LineMetrics;
use crate::text::PositionedGlyph;
use crate::text::TextLayout;
use crate::text::TextLayoutView;
use std::ops::Add;
use std::ops::Div;
use std::ops::Mul;
use std::ops::Sub;
use vstd::prelude::*;
use vstd::std_specs::ops::AddSpec;
use vstd::std_specs::ops::DivSpec;
use vstd::std_specs::ops::MulSpec;
use vstd::std_specs::ops::SubSpec;

verus! {

/// The state of a draw context: the scale factor, the two stacks (innermost
/// entry last) and what the scene holds so far.
pub struct DrawContextView<T> {
    pub scale_factor: ScaleFactor<T>,
    /// Accumulated offsets; each entry is the sum of all offsets pushed up to
    /// and including it.
    pub offsets: Seq<Point<T>>,
    /// Clip rectangles in logical pixels, already moved by the offset that was
    /// current when each was pushed.
    pub clips: Seq<Rect<T>>,
    pub scene: SceneView<T>,
    /// What the accessibility tree holds so far, where the context has one.
    pub access: Option<AccessTreeView<T>>,
    /// The id that the next accessibility node gets.
    pub next_access_id: u64,
}

impl<T: Scalar> DrawContextView<T> {
    /// `o` is the offset that paint calls apply now: the innermost entry of the
    /// offset stack, or a default point when the stack is empty.
    pub open spec fn is_current_offset(self, o: Point<T>) -> bool {
        if self.offsets.len() > 0 {
            o == self.offsets.last()
        } else {
            is_default(o.x) && is_default(o.y)
        }
    }

    /// The scalar arithmetic of `push_offset(delta)` stays within the scalar
    /// type's limits.
    pub open spec fn can_push_offset(self, delta: Point<T>) -> bool {
        forall|o: Point<T>| self.is_current_offset(o) ==> #[trigger] o.can_translate(delta)
    }

    /// The state after `push_offset(delta)` put `pushed` on the offset stack.
    pub open spec fn offset_pushed(self, delta: Point<T>, pushed: Point<T>, after: Self) -> bool {
        &&& exists|o: Point<T>| #[trigger]
            self.is_current_offset(o) && pushed.is_translation_of(o, delta)
        &&& after == (DrawContextView { offsets: self.offsets.push(pushed), ..self })
    }

    /// The state after the innermost offset was popped. Popping an empty stack
    /// changes nothing.
    pub open spec fn offset_popped(self) -> Self {
        if self.offsets.len() > 0 {
            DrawContextView { offsets: self.offsets.drop_last(), ..self }
        } else {
            self
        }
    }

    /// The scalar arithmetic of `push_clip(bounds)` stays within the scalar
    /// type's limits.
    pub open spec fn can_push_clip(self, bounds: Rect<T>) -> bool {
        forall|o: Point<T>| self.is_current_offset(o) ==> #[trigger] bounds.can_translate(o)
    }

    /// The state after `push_clip(bounds)` put `pushed` on the clip stack:
    /// `bounds` moved by the current offset, not scaled.
    pub open spec fn clip_pushed(self, bounds: Rect<T>, pushed: Rect<T>, after: Self) -> bool {
        &&& exists|o: Point<T>| #[trigger]
            self.is_current_offset(o) && pushed.is_translation_of(bounds, o)
        &&& after == (DrawContextView { clips: self.clips.push(pushed), ..self })
    }

    /// The state after the innermost clip was popped. Popping an empty stack
    /// changes nothing.
    pub open spec fn clip_popped(self) -> Self {
        if self.clips.len() > 0 {
            DrawContextView { clips: self.clips.drop_last(), ..self }
        } else {
            self
        }
    }

    /// The innermost clip rectangle can be scaled to device pixels.
    pub open spec fn can_clip(self) -> bool {
        self.clips.len() > 0 ==> self.scale_factor.can_scale_rect(self.clips.last())
    }

    /// `stamped` is `quad` as `paint` puts it into the scene: with an active
    /// clip its clip bounds are the innermost clip rectangle in device pixels,
    /// without one the quad is unchanged.
    pub open spec fn stamps(self, quad: Quad<T>, stamped: Quad<T>) -> bool {
        if self.clips.len() > 0 {
            exists|clip: DeviceRect<T>| #[trigger]
                self.scale_factor.scales_rect(self.clips.last(), clip) && stamped == (Quad {
                    clip_bounds: Some(clip),
                    ..quad
                })
        } else {
            stamped == quad
        }
    }

    /// The state after `paint` appended `stamped` to the scene's quads.
    pub open spec fn painted(self, stamped: Quad<T>) -> Self {
        DrawContextView {
            scene: SceneView { quads: self.scene.quads.push(stamped), ..self.scene },
            ..self
        }
    }

    /// The scalar arithmetic that projects `rect` into device pixels stays
    /// within the scalar type's limits.
    pub open spec fn can_project(self, rect: Rect<T>) -> bool {
        &&& forall|o: Point<T>| self.is_current_offset(o) ==> #[trigger] rect.origin.can_translate(o)
        &&& forall|o: Point<T>, p: Point<T>|
            self.is_current_offset(o) && #[trigger] p.is_translation_of(rect.origin, o)
                ==> self.scale_factor.can_scale_point(p)
        &&& self.scale_factor.can_scale_size(rect.size)
    }

    /// The scalar arithmetic that projects the point `p` into device pixels
    /// stays within the scalar type's limits.
    pub open spec fn can_project_point(self, p: Point<T>) -> bool {
        &&& forall|o: Point<T>| self.is_current_offset(o) ==> #[trigger] p.can_translate(o)
        &&& forall|o: Point<T>, q: Point<T>|
            self.is_current_offset(o) && #[trigger] q.is_translation_of(p, o)
                ==> self.scale_factor.can_scale_point(q)
    }

    /// `device` is the point `p` in device pixels: moved by the current offset
    /// and then scaled.
    pub open spec fn projects_point(self, p: Point<T>, device: DevicePoint<T>) -> bool {
        exists|o: Point<T>, q: Point<T>| #[trigger]
            self.is_current_offset(o) && #[trigger] q.is_translation_of(p, o)
                && self.scale_factor.scales_point(q, device)
    }

    /// The scalar arithmetic that anchors a layout with these lines at the
    /// baseline position `position` stays within the scalar type's limits.
    pub open spec fn can_anchor(self, position: Point<T>, lines: Seq<LineMetrics<T>>) -> bool {
        &&& self.can_project_point(position)
        &&& forall|device: DevicePoint<T>, b: T| #[trigger]
            self.projects_point(position, device) && #[trigger] is_baseline_offset(lines, b)
                ==> device.y.sub_req(b)
    }

    /// `origin` is where the runs of a layout with these lines start so that
    /// the first line's baseline lands on `position`: `position` in device
    /// pixels, moved up by the baseline offset of the first line. Where the
    /// scalar's arithmetic is specified, `origin.y` is the device `y` minus
    /// that baseline.
    pub open spec fn anchors(
        self,
        position: Point<T>,
        lines: Seq<LineMetrics<T>>,
        origin: DevicePoint<T>,
    ) -> bool {
        exists|device: DevicePoint<T>, b: T| #[trigger]
            self.projects_point(position, device) && #[trigger] is_baseline_offset(lines, b)
                && origin.x == device.x && call_ensures(<T as Sub>::sub, (device.y, b), origin.y)
    }

    /// The scalar arithmetic that computes the logical bounds of a painted
    /// text stays within the scalar type's limits.
    pub open spec fn can_describe(self, position: Point<T>, layout: TextLayoutView<T>) -> bool {
        let k = self.scale_factor.0;
        &&& layout.width.div_req(k)
        &&& forall|a: T| #[trigger] is_first_ascent(layout.lines, a) ==> a.div_req(k)
        &&& forall|d: T| #[trigger] is_first_descent(layout.lines, d) ==> d.div_req(k)
        &&& forall|o: Point<T>| #[trigger]
            self.is_current_offset(o) ==> position.x.add_req(o.x) && position.y.add_req(o.y)
        &&& forall|o: Point<T>, t: T, a: T, la: T|
            self.is_current_offset(o) && #[trigger] sum_of(position.y, o.y, t) && is_first_ascent(
                layout.lines,
                a,
            ) && #[trigger] quotient_of(a, k, la) ==> t.sub_req(la)
        &&& forall|a: T, la: T, d: T, ld: T|
            is_first_ascent(layout.lines, a) && #[trigger] quotient_of(a, k, la)
                && is_first_descent(layout.lines, d) && #[trigger] quotient_of(d, k, ld)
                ==> la.add_req(ld)
    }

    /// `bounds` is the box of a painted text in logical pixels: it starts at
    /// `position` plus the current offset, moved up by the first line's
    /// ascent, is as wide as the layout and as high as the first line's ascent
    /// plus descent, the layout's device-pixel metrics divided by the scale
    /// factor.
    pub open spec fn describes(
        self,
        position: Point<T>,
        layout: TextLayoutView<T>,
        bounds: Rect<T>,
    ) -> bool {
        let k = self.scale_factor.0;
        exists|o: Point<T>, t: T, a: T, la: T, d: T, ld: T|
            {
                &&& self.is_current_offset(o)
                &&& sum_of(position.x, o.x, bounds.origin.x)
                &&& #[trigger] sum_of(position.y, o.y, t)
                &&& is_first_ascent(layout.lines, a)
                &&& #[trigger] quotient_of(a, k, la)
                &&& difference_of(t, la, bounds.origin.y)
                &&& quotient_of(layout.width, k, bounds.size.width)
                &&& is_first_descent(layout.lines, d)
                &&& #[trigger] quotient_of(d, k, ld)
                &&& sum_of(la, ld, bounds.size.height)
            }
    }

    /// `node` is the accessibility node of a painted `text`: a label with the
    /// next free id, the text as its name, the text's box as its bounds, and
    /// no children.
    pub open spec fn is_text_node(
        self,
        text: Seq<char>,
        position: Point<T>,
        layout: TextLayoutView<T>,
        node: AccessNode<T>,
    ) -> bool {
        &&& node.id == AccessId(self.next_access_id)
        &&& node.role == AccessRole::Label
        &&& node.name@ == text
        &&& node.children@.len() == 0
        &&& node.bounds.is_some()
        &&& self.describes(position, layout, node.bounds.unwrap())
    }

    /// The state after `node` was added to the accessibility tree and the
    /// next free id advanced. Without a tree or a node nothing changes.
    pub open spec fn noted(self, node: Option<AccessNode<T>>) -> Self {
        match (self.access, node) {
            (Some(tree), Some(n)) => DrawContextView {
                access: Some(AccessTreeView { nodes: tree.nodes.insert(n.id, n), ..tree }),
                next_access_id: (self.next_access_id + 1) as u64,
                ..self
            },
            _ => self,
        }
    }

    /// The state after `paint_text` appended `added` to the scene's text runs.
    pub open spec fn text_painted(self, added: Seq<TextRun<T>>) -> Self {
        DrawContextView {
            scene: SceneView { text_runs: self.scene.text_runs + added, ..self.scene },
            ..self
        }
    }

    /// `device` is `rect` in device pixels: its origin is moved by the current
    /// offset and then scaled, its size is scaled.
    pub open spec fn projects(self, rect: Rect<T>, device: DeviceRect<T>) -> bool {
        &&& exists|o: Point<T>, p: Point<T>| #[trigger]
            self.is_current_offset(o) && #[trigger] p.is_translation_of(rect.origin, o)
                && self.scale_factor.scales_point(p, device.origin)
        &&& self.scale_factor.scales_size(rect.size, device.size)
    }
}

/// `b` is the baseline offset of a layout with these lines: the first line's
/// baseline, or a default (zero) for a layout without lines.
pub open spec fn is_baseline_offset<T: Default>(lines: Seq<LineMetrics<T>>, b: T) -> bool {
    if lines.len() > 0 {
        b == lines[0].baseline
    } else {
        is_default(b)
    }
}

/// `a` is the ascent of the first line, or a default (zero) for a layout
/// without lines.
pub open spec fn is_first_ascent<T: Default>(lines: Seq<LineMetrics<T>>, a: T) -> bool {
    if lines.len() > 0 {
        a == lines[0].ascent
    } else {
        is_default(a)
    }
}

/// `d` is the descent of the first line, or a default (zero) for a layout
/// without lines.
pub open spec fn is_first_descent<T: Default>(lines: Seq<LineMetrics<T>>, d: T) -> bool {
    if lines.len() > 0 {
        d == lines[0].descent
    } else {
        is_default(d)
    }
}

/// `s` is a result that the scalar's addition may give for `a + b`.
pub open spec fn sum_of<T: Add<Output = T>>(a: T, b: T, s: T) -> bool {
    call_ensures(<T as Add>::add, (a, b), s)
}

/// `d` is a result that the scalar's subtraction may give for `a - b`.
pub open spec fn difference_of<T: Sub<Output = T>>(a: T, b: T, d: T) -> bool {
    call_ensures(<T as Sub>::sub, (a, b), d)
}

/// `q` is a result that the scalar's division may give for `a / b`.
pub open spec fn quotient_of<T: Div<Output = T>>(a: T, b: T, q: T) -> bool {
    call_ensures(<T as Div>::div, (a, b), q)
}

/// The shaped runs that are painted for `text`: all of them, and none for an
/// empty text.
pub open spec fn shaped_runs<T>(text: Seq<char>, runs: Seq<GlyphRunWithFont<T>>) -> Seq<
    GlyphRunWithFont<T>,
> {
    if text.len() == 0 {
        Seq::empty()
    } else {
        runs
    }
}

/// The glyph of a text run that stands for a shaped glyph.
pub open spec fn placed_glyph<T>(glyph: PositionedGlyph<T>) -> GlyphInstance<T> {
    GlyphInstance { glyph_id: glyph.id, x: glyph.x, y: glyph.y }
}

/// `text_run` is the shaped `run` as `paint_text` puts it into the scene: at
/// `origin`, in `color`, with the run's font, size, coordinates and glyphs.
pub open spec fn is_text_run<T>(
    origin: DevicePoint<T>,
    color: Srgba<T>,
    run: GlyphRunWithFont<T>,
    text_run: TextRun<T>,
) -> bool {
    &&& run.font_data == Some(text_run.font)
    &&& text_run.origin == origin
    &&& text_run.color == color
    &&& text_run.font_size == run.font_size
    &&& text_run.normalized_coords@ == run.normalized_coords@
    &&& text_run.glyphs@ == run.glyphs@.map_values(|g: PositionedGlyph<T>| placed_glyph(g))
}

/// `text_runs` are the shaped `runs` that have a font, one text run each, in
/// order. A shaped run without a font gives no text run.
pub open spec fn are_text_runs<T>(
    origin: DevicePoint<T>,
    color: Srgba<T>,
    runs: Seq<GlyphRunWithFont<T>>,
    text_runs: Seq<TextRun<T>>,
) -> bool
    decreases runs.len(),
{
    if runs.len() == 0 {
        text_runs.len() == 0
    } else if runs.last().font_data.is_some() {
        &&& text_runs.len() > 0
        &&& is_text_run(origin, color, runs.last(), text_runs.last())
        &&& are_text_runs(origin, color, runs.drop_last(), text_runs.drop_last())
    } else {
        are_text_runs(origin, color, runs.drop_last(), text_runs)
    }
}

/// Painter's stack for hierarchical drawing into one scene.
pub struct DrawContext<'a, T> {
    /// The scene that paint calls append to.
    pub scene: &'a mut Scene<T>,
    pub scale_factor: ScaleFactor<T>,
    /// Accumulated offsets, innermost last.
    pub offset_stack: Vec<Point<T>>,
    /// Active clip rectangles in logical pixels, innermost last.
    pub clip_stack: Vec<Rect<T>>,
    /// Where painted text is described for screen readers, if anywhere.
    pub access_tree: Option<&'a mut AccessTree<T>>,
    pub next_access_id: u64,
}

impl<'a, T: Scalar> View for DrawContext<'a, T> {
    type V = DrawContextView<T>;

    open spec fn view(&self) -> DrawContextView<T> {
        DrawContextView {
            scale_factor: self.scale_factor,
            offsets: self.offset_stack@,
            clips: self.clip_stack@,
            scene: self.scene@,
            access: match self.access_tree {
                Some(tree) => Some(tree@),
                None => None,
            },
            next_access_id: self.next_access_id,
        }
    }
}

impl<'a, T: Scalar> DrawContext<'a, T> {
    /// A context over `scene` with one offset, a default point, and no clip.
    /// What the context paints is appended to what `scene` holds.
    pub fn new(scene: &'a mut Scene<T>, scale_factor: ScaleFactor<T>) -> (r: Self)
        ensures
            r@.scale_factor == scale_factor,
            r@.offsets.len() == 1,
            is_default(r@.offsets[0].x),
            is_default(r@.offsets[0].y),
            r@.clips.len() == 0,
            r@.scene == old(scene)@,
            r@.access.is_none(),
            r@.next_access_id == 1,
            *final(scene) == *final(r.scene),
    {
        let mut offset_stack = Vec::new();
        offset_stack.push(Point::new(T::default(), T::default()));
        DrawContext {
            scene,
            scale_factor,
            offset_stack,
            clip_stack: Vec::new(),
            access_tree: None,
            next_access_id: 1,
        }
    }

    /// As `new`, with an accessibility tree: `paint_text` then also adds a
    /// node that describes the text to `access_tree`. Node ids start at 1.
    pub fn with_accessibility(
        scene: &'a mut Scene<T>,
        access_tree: &'a mut AccessTree<T>,
        scale_factor: ScaleFactor<T>,
    ) -> (r: Self)
        ensures
            r@.scale_factor == scale_factor,
            r@.offsets.len() == 1,
            is_default(r@.offsets[0].x),
            is_default(r@.offsets[0].y),
            r@.clips.len() == 0,
            r@.scene == old(scene)@,
            r@.access == Some(old(access_tree)@),
            r@.next_access_id == 1,
            *final(scene) == *final(r.scene),
            r.access_tree.is_some(),
            *final(access_tree) == *final(r.access_tree.unwrap()),
    {
        let mut offset_stack = Vec::new();
        offset_stack.push(Point::new(T::default(), T::default()));
        DrawContext {
            scene,
            scale_factor,
            offset_stack,
            clip_stack: Vec::new(),
            access_tree: Some(access_tree),
            next_access_id: 1,
        }
    }

    /// The offset that paint calls apply now.
    pub fn current_offset(&self) -> (o: Point<T>)
        ensures
            self@.is_current_offset(o),
    {
        let n = self.offset_stack.len();
        if n > 0 {
            self.offset_stack[n - 1]
        } else {
            Point::default()
        }
    }

    /// Enters a scope whose offset is the current offset plus `delta`.
    pub fn push_offset(&mut self, delta: Point<T>)
        requires
            old(self)@.can_push_offset(delta),
        ensures
            final(self)@.offsets.len() == old(self)@.offsets.len() + 1,
            old(self)@.offset_pushed(delta, final(self)@.offsets.last(), final(self)@),
            *final(final(self).scene) == *final(old(self).scene),
            match (old(self).access_tree, final(self).access_tree) {
                (Some(before), Some(after)) => *final(before) == *final(after),
                (None, None) => true,
                _ => false,
            },
    {
        let current = self.current_offset();
        let pushed = current.translate(delta);
        self.offset_stack.push(pushed);
    }

    /// Leaves the innermost offset scope.
    pub fn pop_offset(&mut self)
        ensures
            final(self)@ == old(self)@.offset_popped(),
            *final(final(self).scene) == *final(old(self).scene),
            match (old(self).access_tree, final(self).access_tree) {
                (Some(before), Some(after)) => *final(before) == *final(after),
                (None, None) => true,
                _ => false,
            },
    {
        self.offset_stack.pop();
    }

    /// Runs `f` under the current offset plus `offset`, then restores the
    /// offset stack: the offset is pushed, `f` runs on the context, the
    /// innermost offset is popped.
    pub fn with_offset<R, F: FnOnce(&mut Self) -> R>(&mut self, offset: Point<T>, f: F) -> (r: R)
        requires
            old(self)@.can_push_offset(offset),
            forall|inner: &mut Self|
                old(self)@.offset_pushed(offset, inner@.offsets.last(), inner@)
                    && *final(inner.scene) == *final(old(self).scene) && (match (
                    old(self).access_tree,
                    inner.access_tree,
                ) {
                    (Some(before), Some(after)) => *final(before) == *final(after),
                    (None, None) => true,
                    _ => false,
                }) ==> #[trigger] call_requires(f, (inner,)),
        ensures
            exists|inner: &mut Self|
                {
                    &&& old(self)@.offset_pushed(offset, inner@.offsets.last(), inner@)
                    &&& *final(inner.scene) == *final(old(self).scene)
                    &&& match (old(self).access_tree, inner.access_tree) {
                        (Some(before), Some(after)) => *final(before) == *final(after),
                        (None, None) => true,
                        _ => false,
                    }
                    &&& #[trigger] call_ensures(f, (inner,), r)
                    &&& final(self)@ == final(inner)@.offset_popped()
                    &&& *final(final(self).scene) == *final(final(inner).scene)
                    &&& match (final(inner).access_tree, final(self).access_tree) {
                        (Some(before), Some(after)) => *final(before) == *final(after),
                        (None, None) => true,
                        _ => false,
                    }
                },
    {
        self.push_offset(offset);
        let result = f(self);
        self.offset_stack.pop();
        result
    }

    /// Enters a scope clipped to `bounds`, which is given relative to the
    /// current offset.
    pub fn push_clip(&mut self, bounds: Rect<T>)
        requires
            old(self)@.can_push_clip(bounds),
        ensures
            final(self)@.clips.len() == old(self)@.clips.len() + 1,
            old(self)@.clip_pushed(bounds, final(self)@.clips.last(), final(self)@),
            *final(final(self).scene) == *final(old(self).scene),
            match (old(self).access_tree, final(self).access_tree) {
                (Some(before), Some(after)) => *final(before) == *final(after),
                (None, None) => true,
                _ => false,
            },
    {
        let offset = self.current_offset();
        let clipped = bounds.translate(offset);
        self.clip_stack.push(clipped);
    }

    /// Runs `f` clipped to `bounds`, then restores the clip stack: the clip
    /// is pushed, `f` runs on the context, the innermost clip is popped.
    pub fn with_clip<R, F: FnOnce(&mut Self) -> R>(&mut self, bounds: Rect<T>, f: F) -> (r: R)
        requires
            old(self)@.can_push_clip(bounds),
            forall|inner: &mut Self|
                old(self)@.clip_pushed(bounds, inner@.clips.last(), inner@)
                    && *final(inner.scene) == *final(old(self).scene) && (match (
                    old(self).access_tree,
                    inner.access_tree,
                ) {
                    (Some(before), Some(after)) => *final(before) == *final(after),
                    (None, None) => true,
                    _ => false,
                }) ==> #[trigger] call_requires(f, (inner,)),
        ensures
            exists|inner: &mut Self|
                {
                    &&& old(self)@.clip_pushed(bounds, inner@.clips.last(), inner@)
                    &&& *final(inner.scene) == *final(old(self).scene)
                    &&& match (old(self).access_tree, inner.access_tree) {
                        (Some(before), Some(after)) => *final(before) == *final(after),
                        (None, None) => true,
                        _ => false,
                    }
                    &&& #[trigger] call_ensures(f, (inner,), r)
                    &&& final(self)@ == final(inner)@.clip_popped()
                    &&& *final(final(self).scene) == *final(final(inner).scene)
                    &&& match (final(inner).access_tree, final(self).access_tree) {
                        (Some(before), Some(after)) => *final(before) == *final(after),
                        (None, None) => true,
                        _ => false,
                    }
                },
    {
        self.push_clip(bounds);
        let result = f(self);
        self.clip_stack.pop();
        result
    }

    /// Leaves the innermost clip scope.
    pub fn pop_clip(&mut self)
        ensures
            final(self)@ == old(self)@.clip_popped(),
            *final(final(self).scene) == *final(old(self).scene),
            match (old(self).access_tree, final(self).access_tree) {
                (Some(before), Some(after)) => *final(before) == *final(after),
                (None, None) => true,
                _ => false,
            },
    {
        self.clip_stack.pop();
    }

    /// Paints a quad whose bounds are already in device pixels. Under an
    /// active clip the quad's clip bounds are replaced by the innermost clip
    /// rectangle.
    pub fn paint(&mut self, quad: Quad<T>)
        requires
            old(self)@.can_clip(),
        ensures
            final(self)@.scene.quads.len() == old(self)@.scene.quads.len() + 1,
            old(self)@.stamps(quad, final(self)@.scene.quads.last()),
            final(self)@ == old(self)@.painted(final(self)@.scene.quads.last()),
            *final(final(self).scene) == *final(old(self).scene),
            match (old(self).access_tree, final(self).access_tree) {
                (Some(before), Some(after)) => *final(before) == *final(after),
                (None, None) => true,
                _ => false,
            },
    {
        let mut quad = quad;
        self.apply_clip(&mut quad);
        self.scene.push_quad(quad);
    }

    /// Paints a filled quad over `bounds`, given in logical pixels relative to
    /// the current offset.
    pub fn paint_quad(&mut self, bounds: Rect<T>, fill: Srgba<T>)
        requires
            old(self)@.can_project(bounds),
            old(self)@.can_clip(),
        ensures
            final(self)@.scene.quads.len() == old(self)@.scene.quads.len() + 1,
            exists|plain: Quad<T>| #[trigger]
                plain.is_plain(plain.bounds, fill) && old(self)@.projects(bounds, plain.bounds)
                    && old(self)@.stamps(plain, final(self)@.scene.quads.last()),
            final(self)@ == old(self)@.painted(final(self)@.scene.quads.last()),
            *final(final(self).scene) == *final(old(self).scene),
            match (old(self).access_tree, final(self).access_tree) {
                (Some(before), Some(after)) => *final(before) == *final(after),
                (None, None) => true,
                _ => false,
            },
    {
        let mut quad = Quad::new(self.to_device_rect(bounds), fill);
        self.apply_clip(&mut quad);
        self.scene.push_quad(quad);
    }

    /// Paints a shaped layout of `text` so that the baseline of its first line
    /// starts at `position`, given in logical pixels relative to the current
    /// offset: one text run for each shaped run that has a font. A layout
    /// without lines is not moved, and an empty text paints nothing. With an
    /// accessibility tree, a label node that describes the text is added
    /// to it.
    pub fn paint_layout(
        &mut self,
        text: &str,
        position: Point<T>,
        color: Srgba<T>,
        layout: &TextLayout<T>,
    )
        requires
            old(self)@.can_anchor(position, layout@.lines),
            old(self)@.access.is_some() ==> old(self)@.can_describe(position, layout@)
                && old(self)@.next_access_id < u64::MAX,
        ensures
            exists|origin: DevicePoint<T>, added: Seq<TextRun<T>>, node: Option<AccessNode<T>>|
                {
                    &&& #[trigger] old(self)@.anchors(position, layout@.lines, origin)
                    &&& #[trigger] are_text_runs(
                        origin,
                        color,
                        shaped_runs(text@, layout@.runs),
                        added,
                    )
                    &&& node.is_some() <==> old(self)@.access.is_some()
                    &&& node.is_some() ==> old(self)@.is_text_node(
                        text@,
                        position,
                        layout@,
                        node.unwrap(),
                    )
                    &&& final(self)@ == #[trigger] old(self)@.noted(node).text_painted(added)
                },
            *final(final(self).scene) == *final(old(self).scene),
            match (old(self).access_tree, final(self).access_tree) {
                (Some(before), Some(after)) => *final(before) == *final(after),
                (None, None) => true,
                _ => false,
            },
    {
        let device_position = self.to_device_point(position);
        let lines = layout.line_metrics();
        let baseline_offset = if lines.len() > 0 {
            lines[0].baseline
        } else {
            T::default()
        };
        assert(self@.projects_point(position, device_position) && is_baseline_offset(
            layout@.lines,
            baseline_offset,
        ));
        let device_origin = DevicePoint::new(
            device_position.x,
            device_position.y - baseline_offset,
        );
        let ghost start = self@;
        proof {
            assert(start.anchors(position, layout@.lines, device_origin));
        }

        let ghost mut node: Option<AccessNode<T>> = None;
        if self.access_tree.is_some() {
            let described = self.describe(text, position, layout);
            proof {
                node = Some(described);
            }
            self.next_access_id = self.next_access_id + 1;
            match &mut self.access_tree {
                Some(tree) => {
                    tree.push(described);
                },
                None => {},
            }
        }
        let ghost before = self@;

        if text.is_empty() {
            proof {
                let none = Seq::<TextRun<T>>::empty();
                assert(are_text_runs(
                    device_origin,
                    color,
                    shaped_runs(text@, layout@.runs),
                    none,
                ));
                assert(self@ == start.noted(node).text_painted(none));
            }
            return ;
        }
        let runs = layout.glyph_runs_with_font();
        let ghost mut added = Seq::<TextRun<T>>::empty();
        let mut i: usize = 0;
        while i < runs.len()
            invariant
                i <= runs.len(),
                runs@ == layout@.runs,
                are_text_runs(device_origin, color, runs@.take(i as int), added),
                self@ == before.text_painted(added),
                *final(self.scene) == *final(old(self).scene),
                match (old(self).access_tree, self.access_tree) {
                    (Some(before), Some(after)) => *final(before) == *final(after),
                    (None, None) => true,
                    _ => false,
                },
            decreases runs.len() - i,
        {
            let run = &runs[i];
            let ghost done = runs@.take(i as int);
            let ghost next = runs@.take(i + 1);
            proof {
                assert(next.drop_last() =~= done);
            }
            match &run.font_data {
                Some(font) => {
                    let text_run = TextRun {
                        origin: device_origin,
                        color,
                        font_size: run.font_size,
                        font: font.clone(),
                        normalized_coords: copy_coords(&run.normalized_coords),
                        glyphs: place_glyphs(&run.glyphs),
                    };
                    self.scene.push_text_run(text_run);
                    proof {
                        let grown = added.push(text_run);
                        assert(grown.drop_last() =~= added);
                        added = grown;
                    }
                },
                None => {},
            }
            i += 1;
        }
        proof {
            assert(runs@.take(runs@.len() as int) =~= runs@);
            assert(are_text_runs(device_origin, color, shaped_runs(text@, layout@.runs), added));
        }
    }

    /// The accessibility node of a text painted at `position`.
    fn describe(&self, text: &str, position: Point<T>, layout: &TextLayout<T>) -> (node:
        AccessNode<T>)
        requires
            self@.can_describe(position, layout@),
        ensures
            self@.is_text_node(text@, position, layout@, node),
    {
        let offset = self.current_offset();
        let lines = layout.line_metrics();
        let ascent = if lines.len() > 0 {
            lines[0].ascent
        } else {
            T::default()
        };
        let descent = if lines.len() > 0 {
            lines[0].descent
        } else {
            T::default()
        };
        assert(is_first_ascent(layout@.lines, ascent));
        assert(is_first_descent(layout@.lines, descent));

        // The layout's metrics are in device pixels; the bounds are logical.
        let scale = self.scale_factor.0;
        let logical_ascent = ascent / scale;
        let logical_descent = descent / scale;
        assert(quotient_of(ascent, scale, logical_ascent));
        assert(quotient_of(descent, scale, logical_descent));
        let x = position.x + offset.x;
        let top = position.y + offset.y;
        assert(sum_of(position.y, offset.y, top));
        let y = top - logical_ascent;
        let width = layout.width() / scale;
        let height = logical_ascent + logical_descent;
        let bounds = Rect::new(Point::new(x, y), Size::new(width, height));
        AccessNode::new(
            AccessId(self.next_access_id),
            AccessRole::Label,
            text.to_owned(),
        ).with_bounds(bounds)
    }

    /// Shapes `text` with `shape` at the font size in device pixels and
    /// paints the layout with its first baseline at `position`: see
    /// `paint_layout`.
    pub fn paint_text<F: FnOnce(&str, T) -> TextLayout<T>>(
        &mut self,
        text: &str,
        position: Point<T>,
        font_size: T,
        color: Srgba<T>,
        shape: F,
    )
        requires
            font_size.mul_req(old(self)@.scale_factor.0),
            forall|size: T|
                call_ensures(<T as Mul>::mul, (font_size, old(self)@.scale_factor.0), size)
                    ==> #[trigger] call_requires(shape, (text, size)),
            forall|size: T, layout: TextLayout<T>| #[trigger]
                call_ensures(shape, (text, size), layout) ==> old(self)@.can_anchor(
                    position,
                    layout@.lines,
                ) && (old(self)@.access.is_some() ==> old(self)@.can_describe(position, layout@)),
            old(self)@.access.is_some() ==> old(self)@.next_access_id < u64::MAX,
        ensures
            exists|
                size: T,
                layout: TextLayout<T>,
                origin: DevicePoint<T>,
                added: Seq<TextRun<T>>,
                node: Option<AccessNode<T>>,
            |
                {
                    &&& call_ensures(<T as Mul>::mul, (font_size, old(self)@.scale_factor.0), size)
                    &&& #[trigger] call_ensures(shape, (text, size), layout)
                    &&& #[trigger] old(self)@.anchors(position, layout@.lines, origin)
                    &&& #[trigger] are_text_runs(
                        origin,
                        color,
                        shaped_runs(text@, layout@.runs),
                        added,
                    )
                    &&& node.is_some() <==> old(self)@.access.is_some()
                    &&& node.is_some() ==> old(self)@.is_text_node(
                        text@,
                        position,
                        layout@,
                        node.unwrap(),
                    )
                    &&& final(self)@ == #[trigger] old(self)@.noted(node).text_painted(added)
                },
            *final(final(self).scene) == *final(old(self).scene),
            match (old(self).access_tree, final(self).access_tree) {
                (Some(before), Some(after)) => *final(before) == *final(after),
                (None, None) => true,
                _ => false,
            },
    {
        let size = font_size * self.scale_factor.0;
        let layout = shape(text, size);
        self.paint_layout(text, position, color, &layout);
    }

    /// The point `p` in device pixels under the current offset and scale.
    fn to_device_point(&self, p: Point<T>) -> (device: DevicePoint<T>)
        requires
            self@.can_project_point(p),
        ensures
            self@.projects_point(p, device),
    {
        let offset = self.current_offset();
        let moved = p.translate(offset);
        let device = self.scale_factor.scale_point(moved);
        device
    }

    /// Stamps the innermost clip rectangle, in device pixels, onto `quad`.
    fn apply_clip(&self, quad: &mut Quad<T>)
        requires
            self@.can_clip(),
        ensures
            self@.stamps(*old(quad), *final(quad)),
    {
        let n = self.clip_stack.len();
        if n > 0 {
            let clip = self.scale_factor.scale_rect(self.clip_stack[n - 1]);
            quad.clip_bounds = Some(clip);
        }
    }

    /// `rect` in device pixels under the current offset and scale.
    fn to_device_rect(&self, rect: Rect<T>) -> (device: DeviceRect<T>)
        requires
            self@.can_project(rect),
        ensures
            self@.projects(rect, device),
    {
        let offset = self.current_offset();
        let origin = rect.origin.translate(offset);
        let scaled_origin = self.scale_factor.scale_point(origin);
        let scaled_size = self.scale_factor.scale_size(rect.size);
        DeviceRect::new(scaled_origin, scaled_size)
    }
}

/// `states` are the states that a context goes through while the offsets
/// `deltas` are pushed one inside the other: `states[0]` is the state before
/// the first push, `states[i + 1]` the state inside the scope of `deltas[i]`.
pub open spec fn is_nesting<T: Scalar>(
    states: Seq<DrawContextView<T>>,
    deltas: Seq<Point<T>>,
) -> bool {
    &&& states.len() == deltas.len() + 1
    &&& forall|i: int|
        0 <= i < deltas.len() ==> (#[trigger] states[i]).offset_pushed(
            deltas[i],
            states[i + 1].offsets.last(),
            states[i + 1],
        )
}

/// `start` with all `deltas` added, one after another.
pub open spec fn accumulated<T: Scalar>(start: Point<T>, deltas: Seq<Point<T>>) -> Point<T>
    decreases deltas.len(),
{
    if deltas.len() == 0 {
        start
    } else {
        accumulated(start, deltas.drop_last()).translated(deltas.last())
    }
}

/// Inside `k` nested offset scopes the current offset is the offset at the
/// start with the first `k` offsets added.
proof fn lemma_nested_offsets_accumulate<T: Scalar>(
    states: Seq<DrawContextView<T>>,
    deltas: Seq<Point<T>>,
    k: int,
)
    requires
        adds::<T>(),
        is_nesting(states, deltas),
        states[0].offsets.len() > 0,
        0 <= k <= deltas.len(),
    ensures
        states[k].offsets.len() > 0,
        states[k].offsets.last() == accumulated(states[0].offsets.last(), deltas.take(k)),
        states[k].scale_factor == states[0].scale_factor,
    decreases k,
{
    if k == 0 {
        assert(deltas.take(0) =~= Seq::<Point<T>>::empty());
    } else {
        lemma_nested_offsets_accumulate(states, deltas, k - 1);
        let before = states[k - 1];
        assert(before.offset_pushed(deltas[k - 1], states[k].offsets.last(), states[k]));
        assert(deltas.take(k).drop_last() =~= deltas.take(k - 1));
        assert(deltas.take(k).last() == deltas[k - 1]);
    }
}

/// Offsets compose by addition, for every scalar whose addition and
/// multiplication are specified: a rectangle painted inside the nested offset
/// scopes `deltas`, as `with_offset` and `push_offset` enter them, lands at
/// the scale factor times the rectangle's origin moved by the sum of the
/// offset at the start and all `deltas`; its size is the rectangle's size
/// times the scale factor.
pub proof fn lemma_offsets_accumulate<T: Scalar>(
    states: Seq<DrawContextView<T>>,
    deltas: Seq<Point<T>>,
    rect: Rect<T>,
    device: DeviceRect<T>,
)
    requires
        adds::<T>(),
        multiplies::<T>(),
        is_nesting(states, deltas),
        states[0].offsets.len() > 0,
        states.last().projects(rect, device),
    ensures
        device == states[0].scale_factor.scaled_rect(
            rect.translated(accumulated(states[0].offsets.last(), deltas)),
        ),
{
    let n = deltas.len() as int;
    lemma_nested_offsets_accumulate(states, deltas, n);
    assert(deltas.take(n) =~= deltas);
}

/// The sum of the `x` coordinates of `deltas`.
pub open spec fn total_x(deltas: Seq<Point<i64>>) -> int
    decreases deltas.len(),
{
    if deltas.len() == 0 {
        0
    } else {
        total_x(deltas.drop_last()) + deltas.last().x
    }
}

/// The sum of the `y` coordinates of `deltas`.
pub open spec fn total_y(deltas: Seq<Point<i64>>) -> int
    decreases deltas.len(),
{
    if deltas.len() == 0 {
        0
    } else {
        total_y(deltas.drop_last()) + deltas.last().y
    }
}

/// The sums of every prefix of `deltas` are within the range of `i64`.
pub open spec fn sums_in_range(deltas: Seq<Point<i64>>) -> bool {
    forall|k: int|
        0 <= k <= deltas.len() ==> i64::MIN <= #[trigger] total_x(deltas.take(k)) <= i64::MAX
            && i64::MIN <= total_y(deltas.take(k)) <= i64::MAX
}

/// Inside `k` nested offset scopes the current offset is the sum of the
/// first `k` offsets, over `i64` and from a zero start.
proof fn lemma_nested_offset(
    states: Seq<DrawContextView<i64>>,
    deltas: Seq<Point<i64>>,
    k: int,
)
    requires
        is_nesting(states, deltas),
        states[0].offsets =~= seq![Point::<i64>::at(0, 0)],
        sums_in_range(deltas),
        0 <= k <= deltas.len(),
    ensures
        states[k].offsets.len() == k + 1,
        states[k].offsets.last() == Point::<i64>::at(
            total_x(deltas.take(k)) as i64,
            total_y(deltas.take(k)) as i64,
        ),
        states[k].scale_factor == states[0].scale_factor,
    decreases k,
{
    if k == 0 {
    } else {
        lemma_nested_offset(states, deltas, k - 1);
        let before = states[k - 1];
        assert(deltas.take(k).drop_last() =~= deltas.take(k - 1));
    }
}

/// Offsets compose by addition: a rectangle painted inside the nested offset
/// scopes `deltas` of a fresh context lands at the scale factor times the sum
/// of all offsets and the rectangle's own origin. Stated over `i64`
/// coordinates, for sums and products within the range of `i64`.
pub proof fn lemma_offset_composition(
    states: Seq<DrawContextView<i64>>,
    deltas: Seq<Point<i64>>,
    rect: Rect<i64>,
    device: DeviceRect<i64>,
)
    requires
        is_nesting(states, deltas),
        states[0].offsets =~= seq![Point::<i64>::at(0, 0)],
        sums_in_range(deltas),
        i64::MIN <= total_x(deltas) + rect.origin.x <= i64::MAX,
        i64::MIN <= total_y(deltas) + rect.origin.y <= i64::MAX,
        i64::MIN <= states[0].scale_factor.0 * (total_x(deltas) + rect.origin.x) <= i64::MAX,
        i64::MIN <= states[0].scale_factor.0 * (total_y(deltas) + rect.origin.y) <= i64::MAX,
        states.last().projects(rect, device),
    ensures
        device.origin.x == states[0].scale_factor.0 * (total_x(deltas) + rect.origin.x),
        device.origin.y == states[0].scale_factor.0 * (total_y(deltas) + rect.origin.y),
{
    let n = deltas.len() as int;
    lemma_nested_offset(states, deltas, n);
    assert(deltas.take(n) =~= deltas);
    let scale = states[0].scale_factor.0;
    let sx = total_x(deltas) + rect.origin.x;
    let sy = total_y(deltas) + rect.origin.y;
    assert(sx * scale == scale * sx) by (nonlinear_arith);
    assert(sy * scale == scale * sy) by (nonlinear_arith);
}

/// Clips are scoped: a quad without clip bounds of its own that is painted
/// outside any clip scope has none in the scene; painted anywhere inside the
/// scope of `bounds`, under whatever further offsets but no further clip, it
/// has the clip rectangle: `bounds` moved by the offset that was current when
/// the scope was entered, in device pixels; and once the scope, whose body
/// leaves the clip stack as it found it, has been left, it has none again.
pub proof fn lemma_clip_scoping<T: Scalar>(
    outer: DrawContextView<T>,
    bounds: Rect<T>,
    inner: DrawContextView<T>,
    painting: DrawContextView<T>,
    body_end: DrawContextView<T>,
    quad: Quad<T>,
    outside: Quad<T>,
    inside: Quad<T>,
    later: Quad<T>,
)
    requires
        outer.clips.len() == 0,
        quad.clip_bounds.is_none(),
        outer.stamps(quad, outside),
        outer.clip_pushed(bounds, inner.clips.last(), inner),
        painting.clips == inner.clips,
        painting.scale_factor == inner.scale_factor,
        painting.stamps(quad, inside),
        body_end.clips == inner.clips,
        body_end.scale_factor == inner.scale_factor,
        body_end.clip_popped().stamps(quad, later),
    ensures
        outside.clip_bounds.is_none(),
        inside.clip_bounds.is_some(),
        exists|o: Point<T>, clip: Rect<T>| #[trigger]
            outer.is_current_offset(o) && #[trigger] clip.is_translation_of(bounds, o)
                && outer.scale_factor.scales_rect(clip, inside.clip_bounds.unwrap()),
        adds::<T>() && multiplies::<T>() && outer.offsets.len() > 0 ==> inside.clip_bounds
            == Some(outer.scale_factor.scaled_rect(bounds.translated(outer.offsets.last()))),
        later.clip_bounds.is_none(),
{
    let clip = inner.clips.last();
    assert(inner.clips == outer.clips.push(clip));
    assert(body_end.clip_popped().clips =~= outer.clips);
    let o = choose|o: Point<T>| #[trigger]
        outer.is_current_offset(o) && clip.is_translation_of(bounds, o);
    assert(outer.is_current_offset(o) && clip.is_translation_of(bounds, o)
        && outer.scale_factor.scales_rect(clip, inside.clip_bounds.unwrap()));
}

/// The baseline lands on the position, for every scalar whose arithmetic is
/// specified: the origin that `paint_text` gives its runs is the position
/// moved by the current offset and scaled, then moved up by the baseline of
/// the layout's first line, or by a default (zero) for a layout without lines.
pub proof fn lemma_baseline_anchoring<T: Scalar>(
    state: DrawContextView<T>,
    position: Point<T>,
    lines: Seq<LineMetrics<T>>,
    origin: DevicePoint<T>,
)
    requires
        adds::<T>(),
        multiplies::<T>(),
        subtracts::<T>(),
        state.offsets.len() > 0,
        state.anchors(position, lines, origin),
    ensures
        origin.x == state.scale_factor.scaled_point(position.translated(state.offsets.last())).x,
        exists|b: T| #[trigger]
            is_baseline_offset(lines, b) && origin.y == state.scale_factor.scaled_point(
                position.translated(state.offsets.last()),
            ).y.sub_spec(b),
        lines.len() > 0 ==> origin.y == state.scale_factor.scaled_point(
            position.translated(state.offsets.last()),
        ).y.sub_spec(lines[0].baseline),
{
    let (device, b) = choose|device: DevicePoint<T>, b: T| #[trigger]
        state.projects_point(position, device) && #[trigger] is_baseline_offset(lines, b)
            && origin.x == device.x && call_ensures(<T as Sub>::sub, (device.y, b), origin.y);
    assert(is_baseline_offset(lines, b) && origin.y == state.scale_factor.scaled_point(
        position.translated(state.offsets.last()),
    ).y.sub_spec(b));
}

/// Every text run that `paint_text` appends starts at the anchored origin,
/// in the given color, and there is at most one for each shaped run: exactly
/// one where every shaped run has a font.
pub proof fn lemma_text_runs_anchored<T>(
    origin: DevicePoint<T>,
    color: Srgba<T>,
    runs: Seq<GlyphRunWithFont<T>>,
    text_runs: Seq<TextRun<T>>,
)
    requires
        are_text_runs(origin, color, runs, text_runs),
    ensures
        text_runs.len() <= runs.len(),
        forall|i: int|
            0 <= i < text_runs.len() ==> (#[trigger] text_runs[i]).origin == origin
                && text_runs[i].color == color,
        (forall|j: int| 0 <= j < runs.len() ==> (#[trigger] runs[j]).font_data.is_some())
            ==> text_runs.len() == runs.len(),
    decreases runs.len(),
{
    if runs.len() > 0 {
        let rest = runs.drop_last();
        assert forall|j: int| 0 <= j < rest.len() implies (#[trigger] rest[j]) == runs[j] by {}
        if runs.last().font_data.is_some() {
            let earlier = text_runs.drop_last();
            lemma_text_runs_anchored(origin, color, rest, earlier);
            assert forall|i: int| 0 <= i < text_runs.len() implies (#[trigger] text_runs[i]).origin
                == origin && text_runs[i].color == color by {
                if i < earlier.len() {
                    assert(earlier[i] == text_runs[i]);
                }
            }
        } else {
            lemma_text_runs_anchored(origin, color, rest, text_runs);
        }
    }
}

/// A copy of a list of variable-font coordinates.
fn copy_coords(coords: &Vec<i16>) -> (r: Vec<i16>)
    ensures
        r@ == coords@,
{
    let mut out: Vec<i16> = Vec::new();
    let mut i: usize = 0;
    while i < coords.len()
        invariant
            i <= coords.len(),
            out@ == coords@.take(i as int),
        decreases coords.len() - i,
    {
        out.push(coords[i]);
        i += 1;
    }
    out
}

/// The glyphs of a text run for the glyphs of a shaped run: same ids and
/// offsets, in order.
fn place_glyphs<T: Copy>(glyphs: &Vec<PositionedGlyph<T>>) -> (r: Vec<GlyphInstance<T>>)
    ensures
        r@ == glyphs@.map_values(|g: PositionedGlyph<T>| placed_glyph(g)),
{
    let mut out: Vec<GlyphInstance<T>> = Vec::new();
    let mut i: usize = 0;
    while i < glyphs.len()
        invariant
            i <= glyphs.len(),
            out@ == glyphs@.take(i as int).map_values(|g: PositionedGlyph<T>| placed_glyph(g)),
        decreases glyphs.len() - i,
    {
        let glyph = glyphs[i];
        out.push(GlyphInstance { glyph_id: glyph.id, x: glyph.x, y: glyph.y });
        i += 1;
    }
    out
}

} // verus!
