use motif::cache::{source_preference, GlyphCache, GlyphSource, RasterizedGlyph};
use motif::glyph::{hash_coords, GlyphKey, GlyphTable};
use motif::text::{GlyphRunWithFont, PositionedGlyph};
use motif::FontData;
use parley::{
    Alignment, AlignmentOptions, FontContext, Layout, LayoutContext, PositionedLayoutItem,
    StyleProperty,
};
use swash::scale::{Render, ScaleContext, Source, StrikeWith};
use swash::zeno::Format;
use swash::FontRef;

/// Shapes `text` with the system's default font.
fn shape(text: &str, font_size: f32) -> Vec<GlyphRunWithFont<f32>> {
    let mut font_cx = FontContext::new();
    let mut layout_cx: LayoutContext<()> = LayoutContext::new();
    let mut builder = layout_cx.ranged_builder(&mut font_cx, text, 1.0, false);
    builder.push_default(StyleProperty::FontSize(font_size));
    let mut layout: Layout<()> = builder.build(text);
    layout.break_all_lines(None);
    layout.align(Alignment::Start, AlignmentOptions::default());

    let mut runs = Vec::new();
    for line in layout.lines() {
        for item in line.items() {
            if let PositionedLayoutItem::GlyphRun(run) = item {
                let glyphs: Vec<PositionedGlyph<f32>> = run
                    .glyphs()
                    .map(|g| PositionedGlyph { id: g.id as u32, x: g.x, y: g.y, advance: g.advance })
                    .collect();
                let inner = run.run();
                runs.push(GlyphRunWithFont {
                    glyphs,
                    font_size: inner.font_size(),
                    font_data: Some(inner.font().clone()),
                    normalized_coords: inner.normalized_coords().iter().map(|c| c.to_bits()).collect(),
                });
            }
        }
    }
    runs
}

/// Rasterizes a glyph with swash, in the library's source preference order.
fn rasterize(
    context: &mut ScaleContext,
    font: &FontData,
    normalized_coords: &[i16],
    glyph_id: u32,
    font_size: f32,
) -> Option<RasterizedGlyph> {
    let font_ref = FontRef::from_index(font.data.as_ref(), font.index as usize)?;
    let mut scaler = context
        .builder(font_ref)
        .size(font_size)
        .hint(true)
        .normalized_coords(normalized_coords)
        .build();
    let sources: Vec<Source> = source_preference()
        .iter()
        .map(|s| match s {
            GlyphSource::ColorOutline => Source::ColorOutline(0),
            GlyphSource::ColorBitmap => Source::ColorBitmap(StrikeWith::BestFit),
            GlyphSource::Outline => Source::Outline,
        })
        .collect();
    let image = Render::new(&sources).format(Format::Alpha).render(&mut scaler, glyph_id as u16)?;
    Some(RasterizedGlyph {
        width: image.placement.width,
        height: image.placement.height,
        bearing_x: image.placement.left,
        bearing_y: image.placement.top,
        data: image.data,
    })
}

fn dummy_font(index: u32) -> FontData {
    FontData::new(linebender_resource_handle::Blob::from(vec![0u8; 4]), index)
}

fn key(glyph_id: u32) -> GlyphKey {
    GlyphKey { font_id: 9, font_index: 0, glyph_id, font_size_bits: 12.0f32.to_bits(), coords_hash: 0 }
}

fn glyph(width: u32) -> RasterizedGlyph {
    RasterizedGlyph { width, height: 2, bearing_x: 0, bearing_y: 0, data: vec![7; (width * 2) as usize] }
}

#[test]
fn glyph_cache_can_rasterize_glyph() {
    let runs = shape("A", 32.0);
    let mut context = ScaleContext::new();
    let mut cache = GlyphCache::new();

    assert!(!runs.is_empty());
    for run in &runs {
        let font_data = run.font_data.as_ref().unwrap();
        for glyph in &run.glyphs {
            let key = GlyphKey::new(
                font_data,
                glyph.id,
                run.font_size.to_bits(),
                &run.normalized_coords,
            );
            let rasterized = cache.rasterize(key, || {
                rasterize(&mut context, font_data, &run.normalized_coords, glyph.id, run.font_size)
            });

            assert!(rasterized.is_some(), "should rasterize glyph");
            let rast = rasterized.unwrap();
            assert!(rast.width > 0, "rasterized glyph should have width");
            assert!(rast.height > 0, "rasterized glyph should have height");
            assert!(!rast.data.is_empty(), "should have pixel data");
        }
    }
}

#[test]
fn glyph_cache_caches_rasterized_glyphs() {
    let runs = shape("A", 32.0);
    let mut context = ScaleContext::new();
    let mut cache = GlyphCache::new();

    let run = runs.into_iter().next().unwrap();
    let font_data = run.font_data.as_ref().unwrap();
    let glyph = &run.glyphs[0];

    // First call rasterizes
    let key = GlyphKey::new(font_data, glyph.id, run.font_size.to_bits(), &run.normalized_coords);
    let _ = cache.rasterize(key, || {
        rasterize(&mut context, font_data, &run.normalized_coords, glyph.id, run.font_size)
    });

    // Cache should now have one entry
    assert_eq!(cache.len(), 1);

    // Second call should hit cache (same result, no additional entry)
    let key = GlyphKey::new(font_data, glyph.id, run.font_size.to_bits(), &run.normalized_coords);
    let _ = cache.rasterize(key, || {
        rasterize(&mut context, font_data, &run.normalized_coords, glyph.id, run.font_size)
    });
    assert_eq!(cache.len(), 1);
}

#[test]
fn rasterizing_twice_returns_the_cached_glyph_without_asking_again() {
    let mut cache = GlyphCache::new();
    assert!(cache.is_empty());
    let mut calls = 0;

    let first = cache
        .rasterize(key(1), || {
            calls += 1;
            Some(glyph(3))
        })
        .cloned();
    assert_eq!(first.as_ref().map(|g| g.width), Some(3));
    assert_eq!(cache.len(), 1);

    let second = cache
        .rasterize(key(1), || {
            calls += 1;
            Some(glyph(99))
        })
        .cloned();
    assert_eq!(calls, 1);
    assert_eq!(cache.len(), 1);
    assert_eq!(second.as_ref().map(|g| (g.width, g.data.len())), Some((3, 6)));
    assert_eq!(cache.get(&key(1)).map(|g| g.width), Some(3));
}

#[test]
fn a_failed_rasterization_is_not_cached() {
    let mut cache = GlyphCache::new();
    assert!(cache.rasterize(key(1), || None).is_none());
    assert_eq!(cache.len(), 0);
    assert!(cache.get(&key(1)).is_none());
    // The next lookup asks the rasterizer again.
    assert_eq!(cache.rasterize(key(1), || Some(glyph(5))).map(|g| g.width), Some(5));
    assert_eq!(cache.len(), 1);
    assert!(!cache.is_empty());
}

#[test]
fn store_keeps_an_existing_entry() {
    let mut cache = GlyphCache::default();
    assert_eq!(cache.store(key(1), Some(glyph(1))).map(|g| g.width), Some(1));
    assert_eq!(cache.store(key(1), Some(glyph(2))).map(|g| g.width), Some(1));
    assert_eq!(cache.store(key(1), None).map(|g| g.width), Some(1));
    assert!(cache.store(key(2), None).is_none());
    assert_eq!(cache.store(key(2), Some(glyph(4))).map(|g| g.width), Some(4));
    assert_eq!(cache.len(), 2);
}

#[test]
fn sizes_one_ulp_apart_are_different_entries() {
    let mut cache = GlyphCache::new();
    let size = 16.0f32;
    let next = f32::from_bits(size.to_bits() + 1);
    let a = GlyphKey { font_size_bits: size.to_bits(), ..key(1) };
    let b = GlyphKey { font_size_bits: next.to_bits(), ..key(1) };
    assert_ne!(a, b);
    cache.store(a, Some(glyph(1)));
    cache.store(b, Some(glyph(2)));
    assert_eq!(cache.len(), 2);
    assert_eq!(cache.get(&a).map(|g| g.width), Some(1));
    assert_eq!(cache.get(&b).map(|g| g.width), Some(2));
}

#[test]
fn glyph_key_takes_identity_from_the_font() {
    let font = dummy_font(2);
    let other = dummy_font(2);
    let coords = [1i16, -2, 300];
    let key = GlyphKey::new(&font, 42, 24.0f32.to_bits(), &coords);
    assert_eq!(key.font_id, font.data.id());
    assert_eq!(key.font_index, 2);
    assert_eq!(key.glyph_id, 42);
    assert_eq!(key.font_size_bits, 24.0f32.to_bits());
    assert_eq!(key.coords_hash, hash_coords(&coords));

    // The same inputs give the same key; another blob gives another key.
    assert_eq!(key, GlyphKey::new(&font.clone(), 42, 24.0f32.to_bits(), &coords));
    assert_ne!(font.data.id(), other.data.id());
    assert_ne!(key, GlyphKey::new(&other, 42, 24.0f32.to_bits(), &coords));
    assert_ne!(key, GlyphKey::new(&dummy_font(3), 42, 24.0f32.to_bits(), &coords));
    assert_ne!(key, GlyphKey::new(&font, 42, 24.0f32.to_bits(), &[1, -2]));
    assert_ne!(key, GlyphKey::new(&font, 42, 24.5f32.to_bits(), &coords));
}

#[test]
fn coordinate_hash_depends_on_every_coordinate() {
    let base = hash_coords(&[0, 0, 0]);
    assert_eq!(base, hash_coords(&[0, 0, 0]));
    assert_ne!(base, hash_coords(&[0, 0]));
    assert_ne!(base, hash_coords(&[0, 0, 1]));
    assert_ne!(base, hash_coords(&[1, 0, 0]));
    assert_ne!(hash_coords(&[i16::MIN]), hash_coords(&[i16::MAX]));
    assert_ne!(hash_coords(&[-1]), hash_coords(&[255]));
    assert_ne!(hash_coords(&[]), hash_coords(&[0]));
}

#[test]
fn source_preference_order() {
    assert_eq!(
        source_preference(),
        [GlyphSource::ColorOutline, GlyphSource::ColorBitmap, GlyphSource::Outline]
    );
}

#[test]
fn glyph_table_never_replaces_an_entry() {
    let mut table: GlyphTable<u32> = GlyphTable::new();
    assert_eq!(table.len(), 0);
    assert_eq!(*table.get_or_insert(key(1), 10), 10);
    assert_eq!(*table.get_or_insert(key(2), 20), 20);
    assert_eq!(*table.get_or_insert(key(1), 30), 10);
    assert_eq!(table.len(), 2);
    assert!(table.contains_key(&key(2)));
    assert!(!table.contains_key(&key(3)));
    assert_eq!(table.get(&key(2)), Some(&20));
    assert_eq!(table.get(&key(3)), None);
    table.clear();
    assert_eq!(table.len(), 0);
    assert_eq!(table.get(&key(1)), None);
}

#[test]
fn glyph_table_finds_keys_that_share_a_digest() {
    // The two keys differ only in fields whose bits cancel in a digest.
    let a = GlyphKey { font_id: 1, font_index: 0, glyph_id: 0, font_size_bits: 0, coords_hash: 0 };
    let b = GlyphKey { font_id: 0, font_index: 1, glyph_id: 0, font_size_bits: 0, coords_hash: 0 };
    let c = GlyphKey { font_id: 0, font_index: 0, glyph_id: 0, font_size_bits: 1, coords_hash: 0 };
    let d = GlyphKey { font_id: 0, font_index: 0, glyph_id: 0, font_size_bits: 0, coords_hash: 1 };
    let mut table: GlyphTable<u32> = GlyphTable::new();
    for (i, k) in [a, b, c, d].iter().enumerate() {
        assert_eq!(*table.get_or_insert(*k, i as u32), i as u32);
    }
    assert_eq!(table.len(), 4);
    for (i, k) in [a, b, c, d].iter().enumerate() {
        assert_eq!(table.get(k), Some(&(i as u32)));
        assert_eq!(*table.get_or_insert(*k, 99), i as u32);
    }
    assert_eq!(table.len(), 4);
}

#[test]
fn glyph_table_holds_many_keys() {
    let mut table: GlyphTable<u32> = GlyphTable::new();
    for i in 0..5000u32 {
        let k = GlyphKey {
            font_id: (i % 7) as u64,
            font_index: i % 3,
            glyph_id: i,
            font_size_bits: (12.0f32 + (i % 5) as f32).to_bits(),
            coords_hash: (i % 11) as u64,
        };
        table.get_or_insert(k, i);
    }
    assert_eq!(table.len(), 5000);
    for i in (0..5000u32).step_by(17) {
        let k = GlyphKey {
            font_id: (i % 7) as u64,
            font_index: i % 3,
            glyph_id: i,
            font_size_bits: (12.0f32 + (i % 5) as f32).to_bits(),
            coords_hash: (i % 11) as u64,
        };
        assert_eq!(table.get(&k), Some(&i));
    }
    table.clear();
    assert_eq!(table.len(), 0);
    assert!(!table.contains_key(&GlyphKey {
        font_id: 0,
        font_index: 0,
        glyph_id: 0,
        font_size_bits: 12.0f32.to_bits(),
        coords_hash: 0
    }));
}
