//! What a renderer backend does with a scene: the per-primitive instance
//! records it uploads, the growth of its instance buffers, and the draw calls
//! of a frame.

use crate::atlas::AtlasRegion;
use crate::color::Srgba;
use crate::geometry::is_default;
use crate::geometry::DevicePoint;
use crate::geometry::Scalar;
use crate::scene::Quad;
use crate::scene::Scene;
use std::ops::Add;
use std::ops::Sub;
use vstd::prelude::*;
use vstd::std_specs::convert::FromSpec;
use vstd::std_specs::ops::AddSpec;
use vstd::std_specs::ops::SubSpec;

verus! {

/// Number of instances that an instance buffer holds when it is made.
pub const INITIAL_INSTANCE_CAPACITY: usize = 1024;

/// A backend that draws scenes onto surfaces of its own kind.
pub trait Renderer<T> {
    /// What the backend draws onto.
    type Surface;

    /// The backend can take another frame.
    spec fn ready(&self) -> bool;

    /// Draws the scene onto the surface. The scene is only read.
    fn render(&mut self, scene: &Scene<T>, surface: &mut Self::Surface)
        requires
            old(self).ready(),
    ;
}

/// A renderer that counts what it is given and draws nothing.
#[derive(Debug)]
pub struct DebugRenderer {
    pub frames_rendered: usize,
    pub last_quad_count: usize,
}

impl Default for DebugRenderer {
    fn default() -> (r: Self)
        ensures
            r.frames_rendered == 0,
            r.last_quad_count == 0,
    {
        DebugRenderer { frames_rendered: 0, last_quad_count: 0 }
    }
}

impl<T> Renderer<T> for DebugRenderer {
    type Surface = ();

    open spec fn ready(&self) -> bool {
        self.frames_rendered < usize::MAX
    }

    fn render(&mut self, scene: &Scene<T>, _surface: &mut ())
        ensures
            final(self).frames_rendered == old(self).frames_rendered + 1,
            final(self).last_quad_count == scene@.quads.len(),
    {
        self.frames_rendered += 1;
        self.last_quad_count = scene.quad_count();
    }
}

/// `v` is a value that the scalar's conversion may give for `1`. Where the
/// conversion is specified, this is `v == T::from_spec(1)`.
pub open spec fn is_one<T: From<u8>>(v: T) -> bool {
    call_ensures(<T as From<u8>>::from, (1u8,), v)
}

/// The per-quad record of the quad draw call. Device rectangles cannot encode
/// "absent", so the clip comes with a flag of its own.
#[derive(Clone, Copy, Debug, PartialEq)]
pub struct QuadInstance<T> {
    /// x, y, width, height in device pixels.
    pub bounds: [T; 4],
    /// Background: red, green, blue, alpha.
    pub color: [T; 4],
    /// Border: red, green, blue, alpha.
    pub border_color: [T; 4],
    /// Top, right, bottom, left.
    pub border_widths: [T; 4],
    /// Top left, top right, bottom right, bottom left.
    pub corner_radii: [T; 4],
    /// x, y, width, height of the clip rectangle; defaults without a clip.
    pub clip_bounds: [T; 4],
    /// One with a clip, the default (zero) without.
    pub has_clip: T,
}

impl<T: Scalar> QuadInstance<T> {
    /// `self` is the record of `quad`.
    pub open spec fn packs(self, quad: Quad<T>) -> bool {
        &&& self.bounds@ == seq![
            quad.bounds.origin.x,
            quad.bounds.origin.y,
            quad.bounds.size.width,
            quad.bounds.size.height,
        ]
        &&& self.color@ == seq![
            quad.background.red,
            quad.background.green,
            quad.background.blue,
            quad.background.alpha,
        ]
        &&& self.border_color@ == seq![
            quad.border_color.red,
            quad.border_color.green,
            quad.border_color.blue,
            quad.border_color.alpha,
        ]
        &&& self.border_widths@ == seq![
            quad.border_widths.top,
            quad.border_widths.right,
            quad.border_widths.bottom,
            quad.border_widths.left,
        ]
        &&& self.corner_radii@ == seq![
            quad.corner_radii.top_left,
            quad.corner_radii.top_right,
            quad.corner_radii.bottom_right,
            quad.corner_radii.bottom_left,
        ]
        &&& match quad.clip_bounds {
            Some(clip) => {
                &&& self.clip_bounds@ == seq![
                    clip.origin.x,
                    clip.origin.y,
                    clip.size.width,
                    clip.size.height,
                ]
                &&& is_one(self.has_clip)
            },
            None => {
                &&& self.clip_bounds@.len() == 4
                &&& forall|i: int| 0 <= i < 4 ==> is_default(#[trigger] self.clip_bounds@[i])
                &&& is_default(self.has_clip)
            },
        }
    }

    /// Packs a quad into its instance record.
    pub fn from_quad(quad: &Quad<T>) -> (r: Self)
        ensures
            r.packs(*quad),
            quad.clip_bounds.is_some() && <T as FromSpec<u8>>::obeys_from_spec() ==> r.has_clip
                == <T as FromSpec<u8>>::from_spec(1u8),
    {
        let clip_bounds = match quad.clip_bounds {
            Some(clip) => [clip.origin.x, clip.origin.y, clip.size.width, clip.size.height],
            None => [T::default(), T::default(), T::default(), T::default()],
        };
        let has_clip = if quad.clip_bounds.is_some() {
            T::from(1u8)
        } else {
            T::default()
        };
        QuadInstance {
            bounds: [
                quad.bounds.origin.x,
                quad.bounds.origin.y,
                quad.bounds.size.width,
                quad.bounds.size.height,
            ],
            color: [
                quad.background.red,
                quad.background.green,
                quad.background.blue,
                quad.background.alpha,
            ],
            border_color: [
                quad.border_color.red,
                quad.border_color.green,
                quad.border_color.blue,
                quad.border_color.alpha,
            ],
            border_widths: [
                quad.border_widths.top,
                quad.border_widths.right,
                quad.border_widths.bottom,
                quad.border_widths.left,
            ],
            corner_radii: [
                quad.corner_radii.top_left,
                quad.corner_radii.top_right,
                quad.corner_radii.bottom_right,
                quad.corner_radii.bottom_left,
            ],
            clip_bounds,
            has_clip,
        }
    }
}

/// The per-glyph record of the text draw call.
#[derive(Clone, Copy, Debug, PartialEq)]
pub struct GlyphInstance<T> {
    /// x, y, width, height in device pixels.
    pub bounds: [T; 4],
    /// Atlas coordinates: u_min, v_min, u_max, v_max.
    pub uv: [T; 4],
    /// Text color: red, green, blue, alpha.
    pub color: [T; 4],
}

/// A rasterized glyph's placement in scalars, as the backend converted it.
#[derive(Clone, Copy, Debug, PartialEq)]
pub struct GlyphMetrics<T> {
    /// Offset from the glyph origin to the bitmap's left edge.
    pub bearing_x: T,
    /// Offset from the baseline up to the bitmap's top edge.
    pub bearing_y: T,
    /// Width of the glyph's atlas region.
    pub width: T,
    /// Height of the glyph's atlas region.
    pub height: T,
}

/// `s` is a result that the scalar's arithmetic may give for `a + b + c`.
pub open spec fn is_sum3<T: Add<Output = T>>(a: T, b: T, c: T, s: T) -> bool {
    exists|ab: T| #[trigger]
        call_ensures(<T as Add>::add, (a, b), ab) && call_ensures(<T as Add>::add, (ab, c), s)
}

/// `s` is a result that the scalar's arithmetic may give for `a + b - c`.
pub open spec fn is_sum_less<T: Add<Output = T> + Sub<Output = T>>(a: T, b: T, c: T, s: T) -> bool {
    exists|ab: T| #[trigger]
        call_ensures(<T as Add>::add, (a, b), ab) && call_ensures(<T as Sub>::sub, (ab, c), s)
}

/// The scalar arithmetic of a glyph's on-screen position stays within the
/// scalar type's limits.
pub open spec fn can_position<T: Scalar>(
    origin: DevicePoint<T>,
    glyph: crate::scene::GlyphInstance<T>,
    metrics: GlyphMetrics<T>,
) -> bool {
    &&& origin.x.add_req(glyph.x)
    &&& origin.y.add_req(glyph.y)
    &&& forall|ab: T| #[trigger]
        call_ensures(<T as Add>::add, (origin.x, glyph.x), ab) ==> ab.add_req(metrics.bearing_x)
    &&& forall|ab: T| #[trigger]
        call_ensures(<T as Add>::add, (origin.y, glyph.y), ab) ==> ab.sub_req(metrics.bearing_y)
}

impl<T: Scalar> GlyphInstance<T> {
    /// `self` draws `glyph` of a run at `origin`: its box starts at the run
    /// origin plus the glyph's offset, moved right by the left bearing and up
    /// by the top bearing, and has the size of the glyph's atlas region.
    pub open spec fn draws(
        self,
        origin: DevicePoint<T>,
        color: Srgba<T>,
        glyph: crate::scene::GlyphInstance<T>,
        metrics: GlyphMetrics<T>,
        uv: [T; 4],
    ) -> bool {
        &&& self.bounds@.len() == 4
        &&& is_sum3(origin.x, glyph.x, metrics.bearing_x, self.bounds@[0])
        &&& is_sum_less(origin.y, glyph.y, metrics.bearing_y, self.bounds@[1])
        &&& self.bounds@[2] == metrics.width
        &&& self.bounds@[3] == metrics.height
        &&& self.uv == uv
        &&& self.color@ == seq![color.red, color.green, color.blue, color.alpha]
    }

    /// The record of one glyph of a text run, or nothing where the glyph is
    /// skipped: it has no atlas region (it could not be rasterized, or the
    /// atlas is full), its region has no area, or its bitmap is not cached.
    pub fn for_glyph(
        origin: DevicePoint<T>,
        color: Srgba<T>,
        glyph: &crate::scene::GlyphInstance<T>,
        region: Option<AtlasRegion>,
        metrics: Option<GlyphMetrics<T>>,
        uv: [T; 4],
    ) -> (r: Option<Self>)
        requires
            metrics.is_some() ==> can_position(origin, *glyph, metrics.unwrap()),
        ensures
            r.is_some() <==> (region.is_some() && !region.unwrap().has_no_area()
                && metrics.is_some()),
            r.is_some() ==> r.unwrap().draws(origin, color, *glyph, metrics.unwrap(), uv),
            r.is_some() && crate::geometry::adds::<T>() ==> r.unwrap().bounds@[0]
                == origin.x.add_spec(glyph.x).add_spec(metrics.unwrap().bearing_x),
            r.is_some() && crate::geometry::adds::<T>() && crate::geometry::subtracts::<T>()
                ==> r.unwrap().bounds@[1] == origin.y.add_spec(glyph.y).sub_spec(
                metrics.unwrap().bearing_y,
            ),
    {
        let region = match region {
            Some(region) => region,
            None => {
                return None;
            },
        };
        if region.is_empty() {
            return None;
        }
        let metrics = match metrics {
            Some(metrics) => metrics,
            None => {
                return None;
            },
        };
        let at_x = origin.x + glyph.x;
        let at_y = origin.y + glyph.y;
        let x = at_x + metrics.bearing_x;
        let y = at_y - metrics.bearing_y;
        let instance = GlyphInstance {
            bounds: [x, y, metrics.width, metrics.height],
            uv,
            color: [color.red, color.green, color.blue, color.alpha],
        };
        Some(instance)
    }
}

/// `n` is a power of two.
pub open spec fn is_power_of_two(n: nat) -> bool
    decreases n,
{
    n == 1 || (n > 1 && n % 2 == 0 && is_power_of_two(n / 2))
}

/// `p` is the smallest power of two that is at least `n`.
pub open spec fn is_next_power_of_two(n: nat, p: nat) -> bool {
    &&& is_power_of_two(p)
    &&& p >= n
    &&& forall|q: nat| is_power_of_two(q) && q >= n ==> p <= q
}

/// Of two different powers of two, the larger is at least twice the smaller.
proof fn lemma_powers_of_two_apart(p: nat, q: nat)
    requires
        is_power_of_two(p),
        is_power_of_two(q),
        q < p,
    ensures
        2 * q <= p,
    decreases p,
{
    if q > 1 {
        lemma_powers_of_two_apart(p / 2, q / 2);
    }
}

/// The smallest power of two that is at least `n`.
pub fn next_power_of_two(n: usize) -> (p: usize)
    requires
        n <= usize::MAX / 2 + 1,
    ensures
        is_next_power_of_two(n as nat, p as nat),
{
    let mut p: usize = 1;
    while p < n
        invariant
            n <= usize::MAX / 2 + 1,
            p >= 1,
            is_power_of_two(p as nat),
            p == 1 || p / 2 < n,
        decreases usize::MAX - p,
    {
        p = p * 2;
    }
    proof {
        assert forall|q: nat| is_power_of_two(q) && q >= n implies p <= q by {
            if q < p {
                lemma_powers_of_two_apart(p as nat, q);
            }
        }
    }
    p
}

/// The capacity of an instance buffer that held `capacity` instances and is
/// asked for `required`: unchanged while the frame fits, else the required
/// count rounded up to a power of two.
pub open spec fn is_grown(capacity: nat, required: nat, grown: nat) -> bool {
    if required > capacity {
        is_next_power_of_two(required, grown)
    } else {
        grown == capacity
    }
}

/// The number of instances that a GPU instance buffer holds. It grows to fit
/// the largest frame seen and never shrinks.
#[derive(Clone, Copy, Debug, PartialEq, Eq, Structural)]
pub struct InstanceBuffer {
    capacity: usize,
}

impl View for InstanceBuffer {
    type V = nat;

    /// The buffer's capacity in instances.
    closed spec fn view(&self) -> nat {
        self.capacity as nat
    }
}

impl InstanceBuffer {
    /// A buffer of the initial capacity.
    pub fn new() -> (r: Self)
        ensures
            r@ == INITIAL_INSTANCE_CAPACITY,
    {
        InstanceBuffer { capacity: INITIAL_INSTANCE_CAPACITY }
    }

    /// Number of instances that the buffer holds.
    pub fn capacity(&self) -> (n: usize)
        ensures
            n == self@,
    {
        self.capacity
    }

    /// Makes room for a frame of `required` instances. Returns whether the
    /// capacity changed, in which case the backend replaces its GPU buffer by
    /// a new one of the new capacity.
    pub fn reserve(&mut self, required: usize) -> (replaced: bool)
        requires
            required <= usize::MAX / 2 + 1,
        ensures
            is_grown(old(self)@, required as nat, final(self)@),
            replaced == (required > old(self)@),
            final(self)@ >= old(self)@,
            final(self)@ >= required,
    {
        if required > self.capacity {
            self.capacity = next_power_of_two(required);
            true
        } else {
            false
        }
    }
}

/// One instanced draw call of a frame.
#[derive(Clone, Copy, Debug, PartialEq, Eq, Structural)]
pub enum DrawCall {
    /// The quad pass: opaque composition of all quads.
    Quads { instances: usize },
    /// The glyph pass, alpha-blended over the quad pass.
    Glyphs { instances: usize },
}

/// The draw calls of a frame with the given instance counts: quads first,
/// glyphs second, each only if it has instances.
pub open spec fn draw_calls(quads: usize, glyphs: usize) -> Seq<DrawCall> {
    let quad_pass = if quads > 0 {
        seq![DrawCall::Quads { instances: quads }]
    } else {
        Seq::<DrawCall>::empty()
    };
    let glyph_pass = if glyphs > 0 {
        seq![DrawCall::Glyphs { instances: glyphs }]
    } else {
        Seq::<DrawCall>::empty()
    };
    quad_pass + glyph_pass
}

/// What a backend submits for one frame.
#[derive(Debug, PartialEq, Eq)]
pub struct FramePlan {
    /// Whether anything is submitted at all: a render pass is encoded and
    /// the frame presented.
    pub submit: bool,
    /// The draw calls of the render pass, in submission order.
    pub draws: Vec<DrawCall>,
}

/// Plans the frame of `scene`, whose text runs resolved to `glyph_instances`
/// drawable glyphs. An empty scene submits nothing at all.
pub fn plan_frame<T>(scene: &Scene<T>, glyph_instances: usize) -> (plan: FramePlan)
    ensures
        plan.submit == !(scene@.quads.len() == 0 && scene@.text_runs.len() == 0),
        plan.submit ==> plan.draws@ == draw_calls(scene@.quads.len() as usize, glyph_instances),
        !plan.submit ==> plan.draws@ == Seq::<DrawCall>::empty(),
{
    let mut draws: Vec<DrawCall> = Vec::new();
    if scene.is_empty() {
        return FramePlan { submit: false, draws };
    }
    let quads = scene.quad_count();
    if quads > 0 {
        draws.push(DrawCall::Quads { instances: quads });
    }
    if glyph_instances > 0 {
        draws.push(DrawCall::Glyphs { instances: glyph_instances });
    }
    FramePlan { submit: true, draws }
}

} // verus!
