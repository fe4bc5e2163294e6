//! Introspection of a running scene: a plain-data snapshot of what a scene
//! holds, overlay quads injected by a debugging client, and the routing of
//! the debug protocol's commands.

use crate::geometry::is_default;
use crate::geometry::Scalar;
use crate::scene::Quad;
use crate::scene::Scene;
use crate::scene::TextRun;
use crate::shared_string::str_eq;
use vstd::prelude::*;
use vstd::string::StringExecFns;

verus! {

/// Error code: the request was not valid JSON.
pub const PARSE_ERROR: i32 = -32700;

/// Error code: the request names a command that does not exist.
pub const METHOD_NOT_FOUND: i32 = -32601;

/// Error code: the command's parameters are missing or malformed.
pub const INVALID_PARAMS: i32 = -32602;

/// Error code: the command failed on the server's side.
pub const SERVER_ERROR: i32 = -32000;

/// The error of a debug response.
#[derive(Debug, Clone, PartialEq)]
pub struct DebugError {
    pub code: i32,
    pub message: String,
}

impl DebugError {
    pub fn new(code: i32, message: String) -> (r: Self)
        ensures
            r.code == code,
            r.message == message,
    {
        DebugError { code, message }
    }
}

/// The commands of the debug protocol.
#[derive(Debug, Clone, Copy, PartialEq, Eq, Structural)]
pub enum Method {
    /// `scene.stats`: counts and viewport of the last frame.
    SceneStats,
    /// `scene.quads`: every quad of the last frame.
    SceneQuads,
    /// `scene.text_runs`: every text run of the last frame.
    SceneTextRuns,
    /// `screenshot`: capture the window to a file.
    Screenshot,
    /// `debug.draw_quad`: add an overlay quad.
    DrawQuad,
    /// `debug.clear`: remove all overlay quads.
    Clear,
    /// `debug.remove`: remove one overlay quad.
    Remove,
    /// `debug.list`: list the overlay quads.
    List,
    /// Anything else; answered with `METHOD_NOT_FOUND`.
    Unknown,
}

/// The command that a method name stands for.
pub open spec fn method_named(name: Seq<char>) -> Method {
    if name == "scene.stats"@ {
        Method::SceneStats
    } else if name == "scene.quads"@ {
        Method::SceneQuads
    } else if name == "scene.text_runs"@ {
        Method::SceneTextRuns
    } else if name == "screenshot"@ {
        Method::Screenshot
    } else if name == "debug.draw_quad"@ {
        Method::DrawQuad
    } else if name == "debug.clear"@ {
        Method::Clear
    } else if name == "debug.remove"@ {
        Method::Remove
    } else if name == "debug.list"@ {
        Method::List
    } else {
        Method::Unknown
    }
}

/// Routes a request by its method name.
pub fn route(method: &str) -> (r: Method)
    ensures
        r == method_named(method@),
{
    if str_eq(method, "scene.stats") {
        Method::SceneStats
    } else if str_eq(method, "scene.quads") {
        Method::SceneQuads
    } else if str_eq(method, "scene.text_runs") {
        Method::SceneTextRuns
    } else if str_eq(method, "screenshot") {
        Method::Screenshot
    } else if str_eq(method, "debug.draw_quad") {
        Method::DrawQuad
    } else if str_eq(method, "debug.clear") {
        Method::Clear
    } else if str_eq(method, "debug.remove") {
        Method::Remove
    } else if str_eq(method, "debug.list") {
        Method::List
    } else {
        Method::Unknown
    }
}

/// Bounds as x, y, width, height.
#[derive(Debug, Clone, Copy, PartialEq)]
pub struct BoundsInfo<T> {
    pub x: T,
    pub y: T,
    pub w: T,
    pub h: T,
}

/// An RGBA color.
#[derive(Debug, Clone, Copy, PartialEq)]
pub struct ColorInfo<T> {
    pub r: T,
    pub g: T,
    pub b: T,
    pub a: T,
}

/// Edge values: top, right, bottom, left.
#[derive(Debug, Clone, Copy, PartialEq)]
pub struct EdgesInfo<T> {
    pub top: T,
    pub right: T,
    pub bottom: T,
    pub left: T,
}

/// Corner values, clockwise from the top left.
#[derive(Debug, Clone, Copy, PartialEq)]
pub struct CornersInfo<T> {
    pub top_left: T,
    pub top_right: T,
    pub bottom_right: T,
    pub bottom_left: T,
}

/// What a snapshot records of a quad.
#[derive(Debug, Clone, Copy, PartialEq)]
pub struct QuadInfo<T> {
    pub bounds: BoundsInfo<T>,
    pub color: ColorInfo<T>,
    pub border_color: ColorInfo<T>,
    pub border_widths: EdgesInfo<T>,
    pub corner_radii: CornersInfo<T>,
    pub has_clip: bool,
    pub clip_bounds: Option<BoundsInfo<T>>,
}

/// What a snapshot records of a text run.
#[derive(Debug, Clone, Copy, PartialEq)]
pub struct TextRunInfo<T> {
    pub origin_x: T,
    pub origin_y: T,
    pub font_size: T,
    pub glyph_count: usize,
    pub color: ColorInfo<T>,
}

/// The record of a quad.
pub open spec fn quad_info<T>(quad: Quad<T>) -> QuadInfo<T> {
    QuadInfo {
        bounds: BoundsInfo {
            x: quad.bounds.origin.x,
            y: quad.bounds.origin.y,
            w: quad.bounds.size.width,
            h: quad.bounds.size.height,
        },
        color: ColorInfo {
            r: quad.background.red,
            g: quad.background.green,
            b: quad.background.blue,
            a: quad.background.alpha,
        },
        border_color: ColorInfo {
            r: quad.border_color.red,
            g: quad.border_color.green,
            b: quad.border_color.blue,
            a: quad.border_color.alpha,
        },
        border_widths: EdgesInfo {
            top: quad.border_widths.top,
            right: quad.border_widths.right,
            bottom: quad.border_widths.bottom,
            left: quad.border_widths.left,
        },
        corner_radii: CornersInfo {
            top_left: quad.corner_radii.top_left,
            top_right: quad.corner_radii.top_right,
            bottom_right: quad.corner_radii.bottom_right,
            bottom_left: quad.corner_radii.bottom_left,
        },
        has_clip: quad.clip_bounds.is_some(),
        clip_bounds: match quad.clip_bounds {
            Some(clip) => Some(
                BoundsInfo {
                    x: clip.origin.x,
                    y: clip.origin.y,
                    w: clip.size.width,
                    h: clip.size.height,
                },
            ),
            None => None,
        },
    }
}

/// The record of a text run.
pub open spec fn text_run_info<T>(run: TextRun<T>) -> TextRunInfo<T> {
    TextRunInfo {
        origin_x: run.origin.x,
        origin_y: run.origin.y,
        font_size: run.font_size,
        glyph_count: run.glyphs@.len() as usize,
        color: ColorInfo { r: run.color.red, g: run.color.green, b: run.color.blue, a: run.color.alpha },
    }
}

/// A plain-data capture of a scene with the viewport it was drawn for.
#[derive(Debug)]
pub struct SceneSnapshot<T> {
    pub quads: Vec<QuadInfo<T>>,
    pub text_runs: Vec<TextRunInfo<T>>,
    pub text_run_count: usize,
    pub quad_count: usize,
    pub viewport_size: (T, T),
    pub scale_factor: T,
}

impl<T: Copy> SceneSnapshot<T> {
    /// Captures `scene`: one record for each quad and each text run, in
    /// paint order, with their counts and the viewport metadata.
    pub fn from_scene(scene: &Scene<T>, viewport_size: (T, T), scale_factor: T) -> (r: Self)
        ensures
            r.quads@ == scene@.quads.map_values(|q: Quad<T>| quad_info(q)),
            r.text_runs@ == scene@.text_runs.map_values(|t: TextRun<T>| text_run_info(t)),
            r.quad_count == scene@.quads.len(),
            r.text_run_count == scene@.text_runs.len(),
            r.viewport_size == viewport_size,
            r.scale_factor == scale_factor,
    {
        let scene_quads = scene.quads();
        let mut quads: Vec<QuadInfo<T>> = Vec::new();
        let mut i: usize = 0;
        while i < scene_quads.len()
            invariant
                i <= scene_quads.len(),
                quads@ == scene_quads@.take(i as int).map_values(|q: Quad<T>| quad_info(q)),
            decreases scene_quads.len() - i,
        {
            let q = &scene_quads[i];
            let bg = q.background;
            let bc = q.border_color;
            let bw = &q.border_widths;
            let cr = &q.corner_radii;
            quads.push(
                QuadInfo {
                    bounds: BoundsInfo {
                        x: q.bounds.origin.x,
                        y: q.bounds.origin.y,
                        w: q.bounds.size.width,
                        h: q.bounds.size.height,
                    },
                    color: ColorInfo { r: bg.red, g: bg.green, b: bg.blue, a: bg.alpha },
                    border_color: ColorInfo { r: bc.red, g: bc.green, b: bc.blue, a: bc.alpha },
                    border_widths: EdgesInfo {
                        top: bw.top,
                        right: bw.right,
                        bottom: bw.bottom,
                        left: bw.left,
                    },
                    corner_radii: CornersInfo {
                        top_left: cr.top_left,
                        top_right: cr.top_right,
                        bottom_right: cr.bottom_right,
                        bottom_left: cr.bottom_left,
                    },
                    has_clip: q.clip_bounds.is_some(),
                    clip_bounds: match q.clip_bounds {
                        Some(cb) => Some(
                            BoundsInfo {
                                x: cb.origin.x,
                                y: cb.origin.y,
                                w: cb.size.width,
                                h: cb.size.height,
                            },
                        ),
                        None => None,
                    },
                },
            );
            i += 1;
        }

        let scene_runs = scene.text_runs();
        let mut text_runs: Vec<TextRunInfo<T>> = Vec::new();
        let mut j: usize = 0;
        while j < scene_runs.len()
            invariant
                j <= scene_runs.len(),
                text_runs@ == scene_runs@.take(j as int).map_values(
                    |t: TextRun<T>| text_run_info(t),
                ),
            decreases scene_runs.len() - j,
        {
            let tr = &scene_runs[j];
            let c = tr.color;
            text_runs.push(
                TextRunInfo {
                    origin_x: tr.origin.x,
                    origin_y: tr.origin.y,
                    font_size: tr.font_size,
                    glyph_count: tr.glyphs.len(),
                    color: ColorInfo { r: c.red, g: c.green, b: c.blue, a: c.alpha },
                },
            );
            j += 1;
        }

        SceneSnapshot {
            quad_count: quads.len(),
            quads,
            text_run_count: text_runs.len(),
            text_runs,
            viewport_size,
            scale_factor,
        }
    }
}

/// A quad that a debugging client draws over the scene.
#[derive(Debug, Clone, Copy, PartialEq)]
pub struct OverlayQuad<T> {
    pub id: u64,
    pub x: T,
    pub y: T,
    pub w: T,
    pub h: T,
    pub color: ColorInfo<T>,
    pub border_color: ColorInfo<T>,
    pub border_width: T,
    pub corner_radius: T,
}

/// What the overlays hold.
pub struct DebugOverlaysView<T> {
    /// The overlay quads, oldest first.
    pub quads: Seq<OverlayQuad<T>>,
    /// The id that the next overlay quad gets.
    pub next_id: u64,
}

impl<T> DebugOverlaysView<T> {
    /// The quads that stay when the overlay `id` is removed.
    pub open spec fn without(self, id: u64) -> Seq<OverlayQuad<T>> {
        self.quads.filter(|q: OverlayQuad<T>| q.id != id)
    }
}

/// Overlay quads injected by a debugging client. They persist across frames
/// until removed.
#[derive(Debug)]
pub struct DebugOverlays<T> {
    pub quads: Vec<OverlayQuad<T>>,
    next_id: u64,
}

impl<T> View for DebugOverlays<T> {
    type V = DebugOverlaysView<T>;

    closed spec fn view(&self) -> DebugOverlaysView<T> {
        DebugOverlaysView { quads: self.quads@, next_id: self.next_id }
    }
}

impl<T: Copy> DebugOverlays<T> {
    /// No overlays; ids start at 0.
    pub fn new() -> (r: Self)
        ensures
            r@.quads == Seq::<OverlayQuad<T>>::empty(),
            r@.next_id == 0,
    {
        DebugOverlays { quads: Vec::new(), next_id: 0 }
    }

    /// The id that the next overlay quad gets.
    pub fn next_id(&self) -> (id: u64)
        ensures
            id == self@.next_id,
    {
        self.next_id
    }

    /// A copy of the overlay quads, oldest first.
    pub fn list(&self) -> (r: Vec<OverlayQuad<T>>)
        ensures
            r@ == self@.quads,
    {
        let mut out: Vec<OverlayQuad<T>> = Vec::new();
        let mut i: usize = 0;
        while i < self.quads.len()
            invariant
                i <= self.quads.len(),
                out@ == self.quads@.take(i as int),
            decreases self.quads.len() - i,
        {
            out.push(self.quads[i]);
            i += 1;
        }
        out
    }

    /// Adds an overlay quad and returns the id it got: ids count up from 0
    /// and are never reused.
    pub fn add_quad(
        &mut self,
        x: T,
        y: T,
        w: T,
        h: T,
        color: ColorInfo<T>,
        border_color: ColorInfo<T>,
        border_width: T,
        corner_radius: T,
    ) -> (id: u64)
        requires
            old(self)@.next_id < u64::MAX,
        ensures
            id == old(self)@.next_id,
            final(self)@.next_id == id + 1,
            final(self)@.quads == old(self)@.quads.push(
                OverlayQuad { id, x, y, w, h, color, border_color, border_width, corner_radius },
            ),
    {
        let id = self.next_id;
        self.next_id = self.next_id + 1;
        self.quads.push(
            OverlayQuad { id, x, y, w, h, color, border_color, border_width, corner_radius },
        );
        id
    }

    /// Removes the overlay with the given id. Returns whether there was one.
    pub fn remove(&mut self, id: u64) -> (removed: bool)
        ensures
            final(self)@.quads == old(self)@.without(id),
            final(self)@.next_id == old(self)@.next_id,
            removed == (final(self)@.quads.len() < old(self)@.quads.len()),
            removed == (exists|i: int| 0 <= i < old(self)@.quads.len() && old(self)@.quads[i].id == id),
    {
        let len_before = self.quads.len();
        let mut kept: Vec<OverlayQuad<T>> = Vec::new();
        let mut i: usize = 0;
        let ghost keep = |q: OverlayQuad<T>| q.id != id;
        let ghost mut found = false;
        proof {
            broadcast use vstd::seq_lib::group_filter_ensures;
        }
        while i < self.quads.len()
            invariant
                i <= self.quads.len(),
                keep == (|q: OverlayQuad<T>| q.id != id),
                kept@ == self.quads@.take(i as int).filter(keep),
                kept@.len() <= i,
                found == (exists|k: int| 0 <= k < i && self.quads@[k].id == id),
                found == (kept@.len() < i),
            decreases self.quads.len() - i,
        {
            let quad = self.quads[i];
            let ghost done = self.quads@.take(i as int);
            proof {
                assert(done.push(quad) =~= self.quads@.take(i + 1));
                lemma_filter_push(done, quad, keep);
            }
            if quad.id != id {
                kept.push(quad);
            } else {
                proof {
                    found = true;
                }
            }
            i += 1;
        }
        proof {
            assert(self.quads@.take(self.quads@.len() as int) =~= self.quads@);
        }
        self.quads = kept;
        self.quads.len() < len_before
    }

    /// Removes every overlay. Returns how many there were.
    pub fn clear(&mut self) -> (count: usize)
        ensures
            count == old(self)@.quads.len(),
            final(self)@.quads == Seq::<OverlayQuad<T>>::empty(),
            final(self)@.next_id == old(self)@.next_id,
    {
        let count = self.quads.len();
        self.quads.clear();
        count
    }
}

impl<T: Copy> Default for DebugOverlays<T> {
    fn default() -> (r: Self)
        ensures
            r@.quads == Seq::<OverlayQuad<T>>::empty(),
            r@.next_id == 0,
    {
        DebugOverlays::new()
    }
}

/// `v` is a value that the scalar's conversion may give for the small
/// integer `n`.
pub open spec fn is_number<T: From<u8>>(n: u8, v: T) -> bool {
    call_ensures(<T as From<u8>>::from, (n,), v)
}

/// The parameters of `debug.draw_quad` as the client gave them. A color is
/// taken only from an array of at least four elements, of which the first
/// four are read.
#[derive(Debug, Clone, Copy, PartialEq)]
pub struct DrawQuadParams<T> {
    pub x: Option<T>,
    pub y: Option<T>,
    pub w: Option<T>,
    pub h: Option<T>,
    pub color: Option<[Option<T>; 4]>,
    pub border_color: Option<[Option<T>; 4]>,
    pub border_width: Option<T>,
    pub corner_radius: Option<T>,
}

/// `v` is the given value, or where none was given, a default (zero).
pub open spec fn or_zero<T: Default>(given: Option<T>, v: T) -> bool {
    match given {
        Some(g) => v == g,
        None => is_default(v),
    }
}

/// `v` is the given value, or where none was given, what the scalar's
/// conversion gives for `fallback`.
pub open spec fn or_number<T: From<u8>>(given: Option<T>, fallback: u8, v: T) -> bool {
    match given {
        Some(g) => v == g,
        None => is_number(fallback, v),
    }
}

/// `color` is the overlay's fill: the channels given, with opaque red for a
/// missing color and red 1, green 0, blue 0, alpha 1 for a missing channel.
pub open spec fn is_fill<T: Scalar>(given: Option<[Option<T>; 4]>, color: ColorInfo<T>) -> bool {
    match given {
        Some(channels) => {
            &&& or_number(channels@[0], 1, color.r)
            &&& or_zero(channels@[1], color.g)
            &&& or_zero(channels@[2], color.b)
            &&& or_number(channels@[3], 1, color.a)
        },
        None => {
            &&& is_number(1, color.r)
            &&& is_default(color.g)
            &&& is_default(color.b)
            &&& is_number(1, color.a)
        },
    }
}

/// `color` is the overlay's border color: the channels given, with zero for
/// a missing color or channel.
pub open spec fn is_border<T: Scalar>(given: Option<[Option<T>; 4]>, color: ColorInfo<T>) -> bool {
    match given {
        Some(channels) => {
            &&& or_zero(channels@[0], color.r)
            &&& or_zero(channels@[1], color.g)
            &&& or_zero(channels@[2], color.b)
            &&& or_zero(channels@[3], color.a)
        },
        None => {
            &&& is_default(color.r)
            &&& is_default(color.g)
            &&& is_default(color.b)
            &&& is_default(color.a)
        },
    }
}

/// `quad` is the overlay that `debug.draw_quad` adds for `params`: at (0, 0)
/// and 100 by 100 unless given otherwise, filled opaque red unless given
/// otherwise, without border or rounding unless given otherwise.
pub open spec fn is_overlay<T: Scalar>(params: DrawQuadParams<T>, quad: OverlayQuad<T>) -> bool {
    &&& or_zero(params.x, quad.x)
    &&& or_zero(params.y, quad.y)
    &&& or_number(params.w, 100, quad.w)
    &&& or_number(params.h, 100, quad.h)
    &&& is_fill(params.color, quad.color)
    &&& is_border(params.border_color, quad.border_color)
    &&& or_zero(params.border_width, quad.border_width)
    &&& or_zero(params.corner_radius, quad.corner_radius)
}

fn value_or_zero<T: Scalar>(given: Option<T>) -> (v: T)
    ensures
        or_zero(given, v),
{
    match given {
        Some(g) => g,
        None => T::default(),
    }
}

fn value_or_number<T: Scalar>(given: Option<T>, fallback: u8) -> (v: T)
    ensures
        or_number(given, fallback, v),
{
    match given {
        Some(g) => g,
        None => T::from(fallback),
    }
}

fn invalid_params(message: &str) -> (e: DebugError)
    ensures
        e.code == INVALID_PARAMS,
        e.message@ == message@,
{
    DebugError { code: INVALID_PARAMS, message: String::from_str(message) }
}

fn server_error(message: &str) -> (e: DebugError)
    ensures
        e.code == SERVER_ERROR,
        e.message@ == message@,
{
    DebugError { code: SERVER_ERROR, message: String::from_str(message) }
}

/// The answer to a request for an unknown method: `METHOD_NOT_FOUND`, naming
/// the method.
pub fn method_not_found(method: &str) -> (e: DebugError)
    ensures
        e.code == METHOD_NOT_FOUND,
        e.message@ == "Method not found: "@ + method@,
{
    DebugError {
        code: METHOD_NOT_FOUND,
        message: String::from_str("Method not found: ").concat(method),
    }
}

/// Whether a scene query can be answered: it cannot before the first frame
/// was captured.
pub fn require_snapshot(has_snapshot: bool) -> (r: Result<(), DebugError>)
    ensures
        r.is_ok() == has_snapshot,
        r matches Err(e) ==> e.code == SERVER_ERROR && e.message@
            == "No scene snapshot available yet"@,
{
    if has_snapshot {
        Ok(())
    } else {
        Err(server_error("No scene snapshot available yet"))
    }
}

/// Handles `debug.draw_quad`: adds the overlay that the parameters describe
/// and answers with its id. Without parameters nothing is added.
pub fn handle_draw_quad<T: Scalar>(
    overlays: &mut DebugOverlays<T>,
    params: Option<DrawQuadParams<T>>,
) -> (r: Result<u64, DebugError>)
    requires
        old(overlays)@.next_id < u64::MAX,
    ensures
        r.is_ok() == params.is_some(),
        match r {
            Ok(id) => {
                &&& id == old(overlays)@.next_id
                &&& final(overlays)@.next_id == id + 1
                &&& final(overlays)@.quads.len() == old(overlays)@.quads.len() + 1
                &&& final(overlays)@.quads.drop_last() == old(overlays)@.quads
                &&& final(overlays)@.quads.last().id == id
                &&& is_overlay(params.unwrap(), final(overlays)@.quads.last())
            },
            Err(e) => {
                &&& e.code == INVALID_PARAMS
                &&& e.message@ == "debug.draw_quad requires params: { x, y, w, h, color: [r,g,b,a] }"@
                &&& final(overlays)@ == old(overlays)@
            },
        },
{
    let params = match params {
        Some(p) => p,
        None => {
            return Err(
                invalid_params("debug.draw_quad requires params: { x, y, w, h, color: [r,g,b,a] }"),
            );
        },
    };
    let x = value_or_zero(params.x);
    let y = value_or_zero(params.y);
    let w = value_or_number(params.w, 100);
    let h = value_or_number(params.h, 100);

    let color = match params.color {
        Some(channels) => ColorInfo {
            r: value_or_number(channels[0], 1),
            g: value_or_zero(channels[1]),
            b: value_or_zero(channels[2]),
            a: value_or_number(channels[3], 1),
        },
        None => ColorInfo { r: T::from(1u8), g: T::default(), b: T::default(), a: T::from(1u8) },
    };

    let border_color = match params.border_color {
        Some(channels) => ColorInfo {
            r: value_or_zero(channels[0]),
            g: value_or_zero(channels[1]),
            b: value_or_zero(channels[2]),
            a: value_or_zero(channels[3]),
        },
        None => ColorInfo { r: T::default(), g: T::default(), b: T::default(), a: T::default() },
    };

    let border_width = value_or_zero(params.border_width);
    let corner_radius = value_or_zero(params.corner_radius);

    let id = overlays.add_quad(x, y, w, h, color, border_color, border_width, corner_radius);
    Ok(id)
}

/// Handles `debug.clear`: removes every overlay and answers with the number
/// removed.
pub fn handle_clear<T: Copy>(overlays: &mut DebugOverlays<T>) -> (cleared: usize)
    ensures
        cleared == old(overlays)@.quads.len(),
        final(overlays)@.quads == Seq::<OverlayQuad<T>>::empty(),
        final(overlays)@.next_id == old(overlays)@.next_id,
{
    overlays.clear()
}

/// Handles `debug.remove`: removes the overlay with the given id and answers
/// whether there was one. Without parameters, or without an id among them,
/// nothing is removed.
pub fn handle_remove<T: Copy>(
    overlays: &mut DebugOverlays<T>,
    has_params: bool,
    id: Option<u64>,
) -> (r: Result<bool, DebugError>)
    ensures
        r.is_ok() == (has_params && id.is_some()),
        match r {
            Ok(removed) => {
                &&& final(overlays)@.quads == old(overlays)@.without(id.unwrap())
                &&& final(overlays)@.next_id == old(overlays)@.next_id
                &&& removed == (final(overlays)@.quads.len() < old(overlays)@.quads.len())
            },
            Err(e) => {
                &&& e.code == INVALID_PARAMS
                &&& final(overlays)@ == old(overlays)@
                &&& e.message@ == if has_params {
                    "debug.remove requires an \"id\" parameter (u64)"@
                } else {
                    "debug.remove requires params: { id: <u64> }"@
                }
            },
        },
{
    if !has_params {
        return Err(invalid_params("debug.remove requires params: { id: <u64> }"));
    }
    let id = match id {
        Some(id) => id,
        None => {
            return Err(invalid_params("debug.remove requires an \"id\" parameter (u64)"));
        },
    };
    Ok(overlays.remove(id))
}

/// What a `screenshot` request asks for, once it is found complete.
#[derive(Debug, Clone, PartialEq, Eq)]
pub struct ScreenshotJob {
    pub window_id: u32,
    pub path: String,
}

/// Handles the checks of `screenshot`: the request needs parameters, a path
/// among them, and the server needs to know its window.
pub fn handle_screenshot(has_params: bool, path: Option<&str>, window_id: Option<u32>) -> (r:
    Result<ScreenshotJob, DebugError>)
    ensures
        r.is_ok() == (has_params && path.is_some() && window_id.is_some()),
        match r {
            Ok(job) => job.window_id == window_id.unwrap() && job.path@ == path.unwrap()@,
            Err(e) => {
                if !has_params {
                    e.code == INVALID_PARAMS && e.message@
                        == "screenshot requires params: { \"path\": \"/path/to/output.png\" }"@
                } else if path.is_none() {
                    e.code == INVALID_PARAMS && e.message@
                        == "screenshot requires a \"path\" parameter"@
                } else {
                    e.code == SERVER_ERROR && e.message@
                        == "No window ID set \u{2014} call set_window_id() on the debug server"@
                }
            },
        },
{
    if !has_params {
        return Err(
            invalid_params("screenshot requires params: { \"path\": \"/path/to/output.png\" }"),
        );
    }
    let path = match path {
        Some(p) => p,
        None => {
            return Err(invalid_params("screenshot requires a \"path\" parameter"));
        },
    };
    let window_id = match window_id {
        Some(id) => id,
        None => {
            return Err(
                server_error(
                    "No window ID set \u{2014} call set_window_id() on the debug server",
                ),
            );
        },
    };
    Ok(ScreenshotJob { window_id, path: String::from_str(path) })
}

/// Filtering a sequence with one more element: the element is appended to the
/// filtered sequence exactly when it passes.
proof fn lemma_filter_push<A>(s: Seq<A>, x: A, keep: spec_fn(A) -> bool)
    ensures
        s.push(x).filter(keep) == if keep(x) {
            s.filter(keep).push(x)
        } else {
            s.filter(keep)
        },
{
    reveal(Seq::filter);
    assert(s.push(x).drop_last() =~= s);
}

} // verus!
