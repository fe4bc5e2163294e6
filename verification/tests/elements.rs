use motif::color::Srgba;
use motif::elements::container_quad;
use motif::geometry::{Corners, DevicePoint, DeviceRect, DeviceSize, Edges, Point, Rect, ScaleFactor, Size};

fn bounds() -> Rect<f32> {
    Rect::new(Point::new(10.0, 20.0), Size::new(100.0, 50.0))
}

#[test]
fn container_without_background_or_border_paints_nothing() {
    let quad = container_quad(
        ScaleFactor(1.0),
        bounds(),
        None,
        None,
        Edges::all(2.0),
        Corners::all(8.0),
    );
    assert_eq!(quad, None);
}

#[test]
fn container_with_background_paints_one_scaled_quad() {
    let red = Srgba::new(1.0, 0.0, 0.0, 1.0);
    let quad = container_quad(
        ScaleFactor(2.0),
        bounds(),
        Some(red),
        None,
        Edges::all(2.0),
        Corners::top_bottom(8.0, 4.0),
    )
    .expect("a quad");
    assert_eq!(
        quad.bounds,
        DeviceRect::new(DevicePoint::new(20.0, 40.0), DeviceSize::new(200.0, 100.0))
    );
    assert_eq!(quad.background, red);
    // Without a border color the border widths are not taken over.
    assert_eq!(quad.border_color, Srgba::new(0.0, 0.0, 0.0, 0.0));
    assert_eq!(quad.border_widths, Edges::all(0.0));
    assert_eq!(quad.corner_radii, Corners::top_bottom(8.0, 4.0));
    assert_eq!(quad.clip_bounds, None);
}

#[test]
fn container_with_border_alone_has_a_transparent_background() {
    let blue = Srgba::new(0.0, 0.0, 1.0, 1.0);
    let quad = container_quad(
        ScaleFactor(1.0),
        bounds(),
        None,
        Some(blue),
        Edges::symmetric(1.0, 3.0),
        Corners::all(0.0),
    )
    .expect("a quad");
    assert_eq!(quad.background, Srgba::new(0.0, 0.0, 0.0, 0.0));
    assert_eq!(quad.border_color, blue);
    assert_eq!(quad.border_widths, Edges::symmetric(1.0, 3.0));
    assert_eq!(quad.bounds.origin, DevicePoint::new(10.0, 20.0));
}
