//! What the built-in elements contribute to a scene.

use crate::color::Srgba;
use crate::geometry::Corners;
use crate::geometry::DeviceRect;
use crate::geometry::Edges;
use crate::geometry::Rect;
use crate::geometry::Scalar;
use crate::geometry::ScaleFactor;
use crate::scene::Quad;
use vstd::prelude::*;

verus! {

/// `quad` is the quad of a container with these properties: its bounds in
/// device pixels, its background (transparent without one), its border color
/// and widths (none without a border color) and its corner radii.
pub open spec fn is_container_quad<T: Scalar>(
    scale_factor: ScaleFactor<T>,
    bounds: Rect<T>,
    background: Option<Srgba<T>>,
    border_color: Option<Srgba<T>>,
    border_widths: Edges<T>,
    corner_radii: Corners<T>,
    quad: Quad<T>,
) -> bool {
    &&& scale_factor.scales_rect(bounds, quad.bounds)
    &&& match background {
        Some(color) => quad.background == color,
        None => quad.background.is_transparent(),
    }
    &&& match border_color {
        Some(color) => quad.border_color == color && quad.border_widths == border_widths,
        None => quad.border_color.is_transparent() && quad.border_widths.is_default(),
    }
    &&& quad.corner_radii == corner_radii
    &&& quad.clip_bounds.is_none()
}

/// The quad that a container paints for itself, before its children: one
/// quad if it has a background or a border color, nothing if it has neither.
/// The bounds are scaled and not moved.
pub fn container_quad<T: Scalar>(
    scale_factor: ScaleFactor<T>,
    bounds: Rect<T>,
    background: Option<Srgba<T>>,
    border_color: Option<Srgba<T>>,
    border_widths: Edges<T>,
    corner_radii: Corners<T>,
) -> (r: Option<Quad<T>>)
    requires
        background.is_some() || border_color.is_some() ==> scale_factor.can_scale_rect(bounds),
    ensures
        r.is_some() <==> (background.is_some() || border_color.is_some()),
        r.is_some() ==> is_container_quad(
            scale_factor,
            bounds,
            background,
            border_color,
            border_widths,
            corner_radii,
            r.unwrap(),
        ),
{
    if background.is_some() || border_color.is_some() {
        let device_bounds = DeviceRect::new(
            scale_factor.scale_point(bounds.origin),
            scale_factor.scale_size(bounds.size),
        );
        let fill = match background {
            Some(color) => color,
            None => Srgba::transparent(),
        };
        let mut quad = Quad::new(device_bounds, fill);
        match border_color {
            Some(color) => {
                quad.border_color = color;
                quad.border_widths = border_widths;
            },
            None => {},
        }
        quad.corner_radii = corner_radii;
        Some(quad)
    } else {
        None
    }
}

} // verus!
