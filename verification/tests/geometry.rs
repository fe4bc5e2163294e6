use motif::geometry::{
    Axis, Corners, DevicePoint, DeviceRect, DeviceSize, Edges, Point, Rect, ScaleFactor, Size,
    Vector,
};

#[test]
fn scale_factor_roundtrip() {
    let scale = ScaleFactor(2.0);
    let original = Point::new(10.0, 20.0);
    let scaled = scale.scale_point(original);
    let back = scale.unscale_point(scaled);
    assert_eq!(original.x, back.x);
    assert_eq!(original.y, back.y);
}

#[test]
fn scale_factor_rect_roundtrip() {
    let scale = ScaleFactor(1.5);
    let original = Rect::new(Point::new(5.0, 10.0), Size::new(100.0, 200.0));
    let scaled = scale.scale_rect(original);
    let back = scale.unscale_rect(scaled);
    assert_eq!(original.origin.x, back.origin.x);
    assert_eq!(original.origin.y, back.origin.y);
    assert_eq!(original.size.width, back.size.width);
    assert_eq!(original.size.height, back.size.height);
}

#[test]
fn edges_sums() {
    let edges = Edges {
        top: 1.0,
        right: 2.0,
        bottom: 3.0,
        left: 4.0,
    };
    assert_eq!(edges.horizontal(), 6.0); // 4 + 2
    assert_eq!(edges.vertical(), 4.0); // 1 + 3
}

fn close(a: f32, b: f32) -> bool {
    (a - b).abs() <= 1e-4 * (1.0 + a.abs().max(b.abs()))
}

#[test]
fn scale_roundtrip_holds_for_common_scale_factors() {
    for factor in [1.0f32, 1.5, 2.0, 3.0] {
        let scale = ScaleFactor(factor);
        for (x, y) in [(0.0f32, 0.0f32), (10.0, 20.0), (-7.25, 0.1), (1234.5, -99.75)] {
            let p = Point::new(x, y);
            let back = scale.unscale_point(scale.scale_point(p));
            assert!(close(back.x, x) && close(back.y, y), "point at scale {factor}");

            let s = Size::new(x.abs(), y.abs());
            let back = scale.unscale_size(scale.scale_size(s));
            assert!(close(back.width, x.abs()) && close(back.height, y.abs()));

            let r = Rect::new(p, s);
            let back = scale.unscale_rect(scale.scale_rect(r));
            assert!(close(back.origin.x, x) && close(back.origin.y, y));
            assert!(close(back.size.width, x.abs()) && close(back.size.height, y.abs()));
        }
    }
}

#[test]
fn scale_roundtrip_is_exact_for_integers() {
    let scale = ScaleFactor(3i64);
    let r = Rect::new(Point::new(-5i64, 7), Size::new(100, 0));
    let scaled = scale.scale_rect(r);
    assert_eq!(scaled, DeviceRect::new(DevicePoint::new(-15, 21), DeviceSize::new(300, 0)));
    assert_eq!(scale.unscale_rect(scaled), r);
}

#[test]
fn scale_point_multiplies_each_coordinate() {
    let scaled = ScaleFactor(1.5f32).scale_point(Point::new(10.0, -4.0));
    assert_eq!(scaled.x, 15.0);
    assert_eq!(scaled.y, -6.0);
    let size = ScaleFactor(2.0f32).scale_size(Size::new(3.0, 0.5));
    assert_eq!((size.width, size.height), (6.0, 1.0));
    let back = ScaleFactor(4.0f32).unscale_size(DeviceSize::new(10.0, 2.0));
    assert_eq!((back.width, back.height), (2.5, 0.5));
}

#[test]
fn translate_adds_coordinates() {
    let p = Point::new(1.5f32, 2.0).translate(Point::new(10.0, -2.0));
    assert_eq!((p.x, p.y), (11.5, 0.0));
    let r = Rect::new(Point::new(1i32, 2), Size::new(3, 4)).translate(Point::new(10, 20));
    assert_eq!(r, Rect::new(Point::new(11, 22), Size::new(3, 4)));
    let v = Vector::new(1u8, 2u8);
    assert_eq!((v.x, v.y), (1, 2));
}

#[test]
fn edges_constructors() {
    assert_eq!(Edges::all(2.0), Edges { top: 2.0, right: 2.0, bottom: 2.0, left: 2.0 });
    assert_eq!(
        Edges::symmetric(1, 5),
        Edges { top: 1, right: 5, bottom: 1, left: 5 }
    );
    assert_eq!(Edges::<f32>::default(), Edges::all(0.0));
    assert_eq!(Edges::symmetric(1, 5).horizontal(), 10);
    assert_eq!(Edges::symmetric(1, 5).vertical(), 2);
}

#[test]
fn corners_constructors() {
    assert_eq!(
        Corners::all(8.0),
        Corners { top_left: 8.0, top_right: 8.0, bottom_right: 8.0, bottom_left: 8.0 }
    );
    assert_eq!(
        Corners::top_bottom(1, 2),
        Corners { top_left: 1, top_right: 1, bottom_right: 2, bottom_left: 2 }
    );
    assert_eq!(Corners::<f64>::default(), Corners::all(0.0));
}

#[test]
fn axis_invert_swaps_and_is_an_involution() {
    assert_eq!(Axis::Horizontal.invert(), Axis::Vertical);
    assert_eq!(Axis::Vertical.invert(), Axis::Horizontal);
    assert_eq!(Axis::Horizontal.invert().invert(), Axis::Horizontal);
}
