//! The glyph cache: rasterized glyph bitmaps remembered by glyph key.
//!
//! The cache never evicts. It grows by one entry for each distinct key whose
//! rasterization succeeds, and stays as it is on a hit or a failure.

use crate::glyph::GlyphKey;
use crate::glyph::GlyphTable;
use vstd::prelude::*;

verus! {

/// A rasterized glyph: an alpha-coverage bitmap with its placement relative
/// to the glyph origin.
#[derive(Debug, Clone)]
pub struct RasterizedGlyph {
    /// Width in pixels.
    pub width: u32,
    /// Height in pixels.
    pub height: u32,
    /// Horizontal offset from the glyph origin to the bitmap's left edge.
    pub bearing_x: i32,
    /// Vertical offset from the baseline to the bitmap's top edge.
    pub bearing_y: i32,
    /// Alpha coverage, row-major, top to bottom.
    pub data: Vec<u8>,
}

/// Where a rasterizer takes a glyph's image from.
#[derive(Debug, Clone, Copy, PartialEq, Eq, Structural)]
pub enum GlyphSource {
    /// Layered color vector outlines.
    ColorOutline,
    /// An embedded color bitmap, in the strike that fits the size best.
    ColorBitmap,
    /// The monochrome outline.
    Outline,
}

/// The sources a rasterizer tries, in this order; the first that yields an
/// image wins.
pub fn source_preference() -> (order: [GlyphSource; 3])
    ensures
        order@ == seq![GlyphSource::ColorOutline, GlyphSource::ColorBitmap, GlyphSource::Outline],
{
    [GlyphSource::ColorOutline, GlyphSource::ColorBitmap, GlyphSource::Outline]
}

/// What the cache holds after a lookup of `key` whose rasterization, had the
/// key been missing, gave `outcome`: an entry that exists is kept, a success
/// on a miss is stored, a failure stores nothing.
pub open spec fn resolved(
    cache: Map<GlyphKey, RasterizedGlyph>,
    key: GlyphKey,
    outcome: Option<RasterizedGlyph>,
) -> Map<GlyphKey, RasterizedGlyph> {
    if cache.contains_key(key) {
        cache
    } else {
        match outcome {
            Some(glyph) => cache.insert(key, glyph),
            None => cache,
        }
    }
}

/// What a lookup of `key` answers: the cached glyph on a hit, the outcome of
/// the rasterization on a miss.
pub open spec fn answer(
    cache: Map<GlyphKey, RasterizedGlyph>,
    key: GlyphKey,
    outcome: Option<RasterizedGlyph>,
) -> Option<RasterizedGlyph> {
    if cache.contains_key(key) {
        Some(cache[key])
    } else {
        outcome
    }
}

/// Rasterizing the same key twice yields the same glyph and does not grow the
/// cache the second time, whatever the second rasterization would have given.
pub proof fn lemma_cache_idempotent(
    cache: Map<GlyphKey, RasterizedGlyph>,
    key: GlyphKey,
    first: Option<RasterizedGlyph>,
    second: Option<RasterizedGlyph>,
)
    requires
        answer(cache, key, first).is_some(),
    ensures
        answer(resolved(cache, key, first), key, second) == answer(cache, key, first),
        resolved(resolved(cache, key, first), key, second) == resolved(cache, key, first),
{
}

/// Cache of rasterized glyphs.
pub struct GlyphCache {
    table: GlyphTable<RasterizedGlyph>,
}

impl View for GlyphCache {
    type V = Map<GlyphKey, RasterizedGlyph>;

    closed spec fn view(&self) -> Map<GlyphKey, RasterizedGlyph> {
        self.table@
    }
}

impl GlyphCache {
    /// The cache is well formed: no key is stored twice.
    pub closed spec fn wf(&self) -> bool {
        self.table.wf()
    }

    /// The empty cache.
    pub fn new() -> (r: Self)
        ensures
            r.wf(),
            r@ == Map::<GlyphKey, RasterizedGlyph>::empty(),
    {
        GlyphCache { table: GlyphTable::new() }
    }

    /// Number of cached glyphs.
    pub fn len(&self) -> (n: usize)
        requires
            self.wf(),
        ensures
            self@.dom().finite(),
            n == self@.len(),
    {
        self.table.len()
    }

    /// Whether nothing is cached.
    pub fn is_empty(&self) -> (b: bool)
        requires
            self.wf(),
        ensures
            self@.dom().finite(),
            b == (self@.len() == 0),
    {
        self.table.len() == 0
    }

    /// The cached glyph of `key`.
    pub fn get(&self, key: &GlyphKey) -> (r: Option<&RasterizedGlyph>)
        requires
            self.wf(),
        ensures
            match r {
                Some(glyph) => self@.contains_key(*key) && *glyph == self@[*key],
                None => !self@.contains_key(*key),
            },
    {
        self.table.get(key)
    }

    /// Completes a lookup of `key` with the outcome of its rasterization: a
    /// glyph that is cached already is returned and `outcome` dropped, a
    /// success on a miss is stored and returned, a failure on a miss returns
    /// nothing.
    pub fn store(&mut self, key: GlyphKey, outcome: Option<RasterizedGlyph>) -> (r: Option<
        &RasterizedGlyph,
    >)
        requires
            old(self).wf(),
        ensures
            final(self).wf(),
            final(self)@ == resolved(old(self)@, key, outcome),
            match r {
                Some(glyph) => answer(old(self)@, key, outcome) == Some(*glyph),
                None => answer(old(self)@, key, outcome).is_none(),
            },
    {
        match outcome {
            Some(glyph) => Some(self.table.get_or_insert(key, glyph)),
            None => self.table.get(&key),
        }
    }

    /// The glyph of `key`, from the cache if it is there, else from
    /// `rasterizer`, whose success is cached. `None` means the glyph cannot
    /// be drawn and is to be skipped.
    pub fn rasterize<F: FnOnce() -> Option<RasterizedGlyph>>(
        &mut self,
        key: GlyphKey,
        rasterizer: F,
    ) -> (r: Option<&RasterizedGlyph>)
        requires
            old(self).wf(),
            !old(self)@.contains_key(key) ==> call_requires(rasterizer, ()),
        ensures
            final(self).wf(),
            exists|outcome: Option<RasterizedGlyph>|
                {
                    &&& old(self)@.contains_key(key) || call_ensures(rasterizer, (), outcome)
                    &&& final(self)@ == resolved(old(self)@, key, outcome)
                    &&& match r {
                        Some(glyph) => answer(old(self)@, key, outcome) == Some(*glyph),
                        None => answer(old(self)@, key, outcome).is_none(),
                    }
                },
    {
        if self.table.contains_key(&key) {
            let r = self.table.get(&key);
            proof {
                let outcome: Option<RasterizedGlyph> = None;
                assert(final(self)@ == resolved(old(self)@, key, outcome));
            }
            return r;
        }
        let outcome = rasterizer();
        let r = self.store(key, outcome);
        r
    }
}

impl Default for GlyphCache {
    fn default() -> (r: Self)
        ensures
            r.wf(),
            r@ == Map::<GlyphKey, RasterizedGlyph>::empty(),
    {
        GlyphCache::new()
    }
}

} // verus!
