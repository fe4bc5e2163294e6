use motif::atlas::AtlasRegion;
use motif::color::Srgba;
use motif::geometry::{Corners, DevicePoint, DeviceRect, DeviceSize, Edges};
use motif::renderer::{
    next_power_of_two, plan_frame, DebugRenderer, DrawCall, GlyphInstance, GlyphMetrics,
    InstanceBuffer, QuadInstance, Renderer, INITIAL_INSTANCE_CAPACITY,
};
use motif::scene::{Quad, Scene, TextRun};
use motif::FontData;

fn dummy_font() -> FontData {
    FontData::new(linebender_resource_handle::Blob::from(vec![0u8; 4]), 0)
}

#[test]
fn quad_instance_captures_border_data() {
    let mut quad = Quad::new(
        DeviceRect::new(DevicePoint::new(10.0, 20.0), DeviceSize::new(100.0, 50.0)),
        Srgba::new(1.0, 0.0, 0.0, 1.0),
    );
    quad.border_color = Srgba::new(0.0, 0.0, 1.0, 1.0);
    quad.border_widths = Edges::all(2.0);

    let instance = QuadInstance::from_quad(&quad);

    // Border color should be captured
    assert_eq!(instance.border_color, [0.0, 0.0, 1.0, 1.0]);
    // Border widths should be captured (top, right, bottom, left)
    assert_eq!(instance.border_widths, [2.0, 2.0, 2.0, 2.0]);
}

#[test]
fn quad_instance_captures_corner_radii() {
    let mut quad = Quad::new(
        DeviceRect::new(DevicePoint::new(10.0, 20.0), DeviceSize::new(100.0, 50.0)),
        Srgba::new(1.0, 0.0, 0.0, 1.0),
    );
    quad.corner_radii = Corners::all(8.0);

    let instance = QuadInstance::from_quad(&quad);

    // Corner radii should be captured (top_left, top_right, bottom_right, bottom_left)
    assert_eq!(instance.corner_radii, [8.0, 8.0, 8.0, 8.0]);
}

#[test]
fn quad_instance_captures_clip_bounds() {
    let mut quad = Quad::new(
        DeviceRect::new(DevicePoint::new(0.0, 0.0), DeviceSize::new(100.0, 100.0)),
        Srgba::new(1.0, 0.0, 0.0, 1.0),
    );
    quad.clip_bounds = Some(DeviceRect::new(
        DevicePoint::new(10.0, 20.0),
        DeviceSize::new(50.0, 60.0),
    ));

    let instance = QuadInstance::from_quad(&quad);

    // Clip bounds: x, y, width, height
    assert_eq!(instance.clip_bounds, [10.0, 20.0, 50.0, 60.0]);
    assert_eq!(instance.has_clip, 1.0); // Flag indicating clip is active
}

#[test]
fn quad_instance_no_clip() {
    let quad = Quad::new(
        DeviceRect::new(DevicePoint::new(0.0, 0.0), DeviceSize::new(100.0, 100.0)),
        Srgba::new(1.0, 0.0, 0.0, 1.0),
    );

    let instance = QuadInstance::from_quad(&quad);

    assert_eq!(instance.has_clip, 0.0); // No clip
}

#[test]
fn quad_instance_packs_every_field_in_order() {
    let quad = Quad {
        bounds: DeviceRect::new(DevicePoint::new(1.0, 2.0), DeviceSize::new(3.0, 4.0)),
        background: Srgba::new(0.1, 0.2, 0.3, 0.4),
        border_color: Srgba::new(0.5, 0.6, 0.7, 0.8),
        border_widths: Edges { top: 1.0, right: 2.0, bottom: 3.0, left: 4.0 },
        corner_radii: Corners { top_left: 5.0, top_right: 6.0, bottom_right: 7.0, bottom_left: 8.0 },
        clip_bounds: None,
    };
    let instance = QuadInstance::from_quad(&quad);
    assert_eq!(instance.bounds, [1.0, 2.0, 3.0, 4.0]);
    assert_eq!(instance.color, [0.1, 0.2, 0.3, 0.4]);
    assert_eq!(instance.border_color, [0.5, 0.6, 0.7, 0.8]);
    assert_eq!(instance.border_widths, [1.0, 2.0, 3.0, 4.0]);
    assert_eq!(instance.corner_radii, [5.0, 6.0, 7.0, 8.0]);
    assert_eq!(instance.clip_bounds, [0.0, 0.0, 0.0, 0.0]);
    assert_eq!(instance.has_clip, 0.0);
}

#[test]
fn glyph_instance_position_uses_origin_offset_and_bearing() {
    let glyph = motif::scene::GlyphInstance { glyph_id: 5, x: 10.0, y: 2.0 };
    let metrics = GlyphMetrics { bearing_x: 1.0, bearing_y: 12.0, width: 8.0, height: 14.0 };
    let uv = [0.25, 0.5, 0.375, 0.5625];
    let color = Srgba::new(0.1, 0.2, 0.3, 1.0);
    let region = AtlasRegion { x: 256, y: 512, width: 8, height: 14 };

    let instance = GlyphInstance::for_glyph(
        DevicePoint::new(100.0, 200.0),
        color,
        &glyph,
        Some(region),
        Some(metrics),
        uv,
    )
    .expect("drawn");
    // x = 100 + 10 + 1, y = 200 + 2 - 12
    assert_eq!(instance.bounds, [111.0, 190.0, 8.0, 14.0]);
    assert_eq!(instance.uv, uv);
    assert_eq!(instance.color, [0.1, 0.2, 0.3, 1.0]);
}

#[test]
fn glyphs_without_region_area_or_bitmap_are_skipped() {
    let glyph = motif::scene::GlyphInstance { glyph_id: 5, x: 10.0, y: 2.0 };
    let metrics = GlyphMetrics { bearing_x: 1.0, bearing_y: 12.0, width: 8.0, height: 14.0 };
    let origin = DevicePoint::new(0.0, 0.0);
    let color = Srgba::new(0.0, 0.0, 0.0, 1.0);
    let uv = [0.0; 4];
    let region = AtlasRegion { x: 0, y: 0, width: 8, height: 14 };
    let empty = AtlasRegion { x: 0, y: 0, width: 0, height: 0 };
    let flat = AtlasRegion { x: 4, y: 4, width: 8, height: 0 };

    assert!(GlyphInstance::for_glyph(origin, color, &glyph, None, Some(metrics), uv).is_none());
    assert!(GlyphInstance::for_glyph(origin, color, &glyph, Some(empty), Some(metrics), uv).is_none());
    assert!(GlyphInstance::for_glyph(origin, color, &glyph, Some(flat), Some(metrics), uv).is_none());
    assert!(GlyphInstance::for_glyph(origin, color, &glyph, Some(region), None, uv).is_none());
    assert!(GlyphInstance::for_glyph(origin, color, &glyph, Some(region), Some(metrics), uv).is_some());
}

#[test]
fn next_power_of_two_rounds_up() {
    let cases = [
        (0usize, 1usize),
        (1, 1),
        (2, 2),
        (3, 4),
        (4, 4),
        (5, 8),
        (1023, 1024),
        (1024, 1024),
        (1025, 2048),
        (100_000, 131_072),
    ];
    for (n, expected) in cases {
        assert_eq!(next_power_of_two(n), expected, "{n}");
        assert_eq!(next_power_of_two(n), n.next_power_of_two());
    }
    let top = usize::MAX / 2 + 1;
    assert_eq!(next_power_of_two(top), top);
    assert_eq!(next_power_of_two(top - 1), top);
}

#[test]
fn instance_buffer_grows_to_the_next_power_of_two_and_never_shrinks() {
    let mut buffer = InstanceBuffer::new();
    assert_eq!(INITIAL_INSTANCE_CAPACITY, 1024);
    assert_eq!(buffer.capacity(), 1024);

    assert!(!buffer.reserve(0));
    assert!(!buffer.reserve(1024));
    assert_eq!(buffer.capacity(), 1024);

    assert!(buffer.reserve(1025));
    assert_eq!(buffer.capacity(), 2048);

    assert!(buffer.reserve(5000));
    assert_eq!(buffer.capacity(), 8192);

    assert!(!buffer.reserve(10));
    assert_eq!(buffer.capacity(), 8192);

    assert!(buffer.reserve(8193));
    assert_eq!(buffer.capacity(), 16384);
}

#[test]
fn empty_scene_submits_nothing() {
    let scene: Scene<f32> = Scene::new();
    let plan = plan_frame(&scene, 0);
    assert!(!plan.submit);
    assert!(plan.draws.is_empty());
    // Even a stale glyph count does not make an empty scene draw.
    let plan = plan_frame(&scene, 12);
    assert!(!plan.submit);
    assert!(plan.draws.is_empty());
}

#[test]
fn quads_are_drawn_before_glyphs() {
    let mut scene = Scene::new();
    for _ in 0..3 {
        scene.push_quad(Quad::new(
            DeviceRect::new(DevicePoint::new(0.0, 0.0), DeviceSize::new(1.0, 1.0)),
            Srgba::new(1.0, 1.0, 1.0, 1.0),
        ));
    }
    scene.push_text_run(TextRun::new(
        DevicePoint::new(0.0, 0.0),
        Srgba::new(0.0, 0.0, 0.0, 1.0),
        16.0,
        dummy_font(),
    ));

    let plan = plan_frame(&scene, 7);
    assert!(plan.submit);
    assert_eq!(
        plan.draws,
        vec![DrawCall::Quads { instances: 3 }, DrawCall::Glyphs { instances: 7 }]
    );

    // No drawable glyph: the quad pass alone.
    let plan = plan_frame(&scene, 0);
    assert!(plan.submit);
    assert_eq!(plan.draws, vec![DrawCall::Quads { instances: 3 }]);
}

#[test]
fn a_scene_of_text_alone_has_only_the_glyph_pass() {
    let mut scene: Scene<f32> = Scene::new();
    scene.push_text_run(TextRun::new(
        DevicePoint::new(0.0, 0.0),
        Srgba::new(0.0, 0.0, 0.0, 1.0),
        16.0,
        dummy_font(),
    ));
    let plan = plan_frame(&scene, 2);
    assert!(plan.submit);
    assert_eq!(plan.draws, vec![DrawCall::Glyphs { instances: 2 }]);
    // Every glyph was skipped: the frame is still submitted, without draws.
    let plan = plan_frame(&scene, 0);
    assert!(plan.submit);
    assert!(plan.draws.is_empty());
}

#[test]
fn debug_renderer_counts_frames_and_quads() {
    let mut scene = Scene::new();
    let mut renderer = DebugRenderer::default();
    assert_eq!((renderer.frames_rendered, renderer.last_quad_count), (0, 0));

    renderer.render(&scene, &mut ());
    assert_eq!((renderer.frames_rendered, renderer.last_quad_count), (1, 0));

    for _ in 0..4 {
        scene.push_quad(Quad::new(
            DeviceRect::new(DevicePoint::new(0.0, 0.0), DeviceSize::new(1.0, 1.0)),
            Srgba::new(1.0, 1.0, 1.0, 1.0),
        ));
    }
    renderer.render(&scene, &mut ());
    assert_eq!((renderer.frames_rendered, renderer.last_quad_count), (2, 4));
    // The renderer only reads the scene.
    assert_eq!(scene.quad_count(), 4);
}
