//! The glyph atlas: a row-based bump allocator over a fixed-size texture, and
//! the table that remembers where each glyph was placed.
//!
//! The allocator only ever advances its cursors, and only to place a glyph.
//! Every region it hands out lies inside the texture. There is no growth and
//! no eviction: a glyph that does not fit is refused, and is refused again
//! until `clear`.

use crate::cache::answer;
use crate::cache::resolved;
use crate::cache::GlyphCache;
use crate::cache::RasterizedGlyph;
use crate::glyph::GlyphKey;
use crate::glyph::GlyphTable;
use vstd::prelude::*;

verus! {

/// Width and height of the atlas that `GlyphAtlas::new` makes, in pixels.
pub const ATLAS_SIZE: u32 = 1024;

/// Free pixels kept to the right of and below every placed glyph, so that
/// bilinear sampling does not bleed between neighbours.
pub const PADDING: u32 = 1;

/// A rectangle of the atlas texture, in texture pixels.
#[derive(Clone, Copy, Debug, PartialEq, Eq, Structural)]
pub struct AtlasRegion {
    pub x: u32,
    pub y: u32,
    pub width: u32,
    pub height: u32,
}

impl AtlasRegion {
    /// The two rectangles share no pixel: one lies entirely to the left of,
    /// to the right of, above or below the other.
    pub open spec fn disjoint(self, other: AtlasRegion) -> bool {
        ||| self.x + self.width <= other.x
        ||| other.x + other.width <= self.x
        ||| self.y + self.height <= other.y
        ||| other.y + other.height <= self.y
    }

    /// The region that stands for a glyph with nothing to draw.
    pub open spec fn nothing() -> AtlasRegion {
        AtlasRegion { x: 0, y: 0, width: 0, height: 0 }
    }

    /// The region covers no pixel.
    pub open spec fn has_no_area(self) -> bool {
        self.width == 0 || self.height == 0
    }

    /// Whether the region covers no pixel: a glyph with such a region is not
    /// drawn.
    pub fn is_empty(&self) -> (b: bool)
        ensures
            b == self.has_no_area(),
    {
        self.width == 0 || self.height == 0
    }
}

/// No two regions of the sequence share a pixel.
pub open spec fn pairwise_disjoint(regions: Seq<AtlasRegion>) -> bool {
    forall|i: int, j: int| 0 <= i < j < regions.len() ==> regions[i].disjoint(regions[j])
}

/// A region's corners as fractions of the atlas extent: `u_min / width`,
/// `v_min / height`, `u_max / width`, `v_max / height`.
#[derive(Clone, Copy, Debug, PartialEq, Eq, Structural)]
pub struct UvRect {
    pub u_min: u64,
    pub v_min: u64,
    pub u_max: u64,
    pub v_max: u64,
    /// Denominator of `u_min` and `u_max`.
    pub width: u64,
    /// Denominator of `v_min` and `v_max`.
    pub height: u64,
}

/// What `place` did with a glyph.
#[derive(Clone, Copy, Debug, PartialEq, Eq, Structural)]
pub enum Placement {
    /// The key already had a region; nothing changed.
    Present(AtlasRegion),
    /// The key got this region now. A region with area has to be uploaded.
    Placed(AtlasRegion),
    /// The glyph does not fit; it cannot be drawn until the atlas is cleared.
    Full,
}

/// The state of an atlas.
pub struct AtlasView {
    pub width: u32,
    pub height: u32,
    /// Where the next glyph of the current row goes.
    pub row_x: int,
    /// Top of the current row.
    pub row_y: int,
    /// Height of the current row: the tallest glyph in it, padding included.
    pub row_height: int,
    /// The region of every glyph placed since the atlas was last cleared.
    pub regions: Map<GlyphKey, AtlasRegion>,
    /// Every region handed out by the allocator since the atlas was last
    /// cleared, in order.
    pub allocated: Seq<AtlasRegion>,
}

impl AtlasView {
    /// `region` lies inside the texture.
    pub open spec fn holds(self, region: AtlasRegion) -> bool {
        region.x + region.width <= self.width && region.y + region.height <= self.height
    }

    /// A glyph of `w` by `h` pixels, with its padding, goes into the current
    /// row: right of the cursor by width, and inside the texture by height.
    pub open spec fn fits_current_row(self, w: u32, h: u32) -> bool {
        self.row_x + w + PADDING <= self.width && self.row_y + h + PADDING <= self.height
    }

    /// Top of the row that follows the current one.
    pub open spec fn next_row_y(self) -> int {
        self.row_y + self.row_height
    }

    /// A glyph of `w` by `h` pixels, with its padding, goes to the start of a
    /// new row below the current one.
    pub open spec fn fits_new_row(self, w: u32, h: u32) -> bool {
        w + PADDING <= self.width && self.next_row_y() + h + PADDING <= self.height
    }

    /// Where a glyph of `w` by `h` pixels is placed: in the current row if it
    /// fits there, else at the start of a new row if it fits there, else
    /// nowhere.
    pub open spec fn allocation(self, w: u32, h: u32) -> Option<AtlasRegion> {
        if self.fits_current_row(w, h) {
            Some(AtlasRegion { x: self.row_x as u32, y: self.row_y as u32, width: w, height: h })
        } else if self.fits_new_row(w, h) {
            Some(AtlasRegion { x: 0, y: self.next_row_y() as u32, width: w, height: h })
        } else {
            None
        }
    }

    /// The state after an allocation of `w` by `h` pixels. A refused
    /// allocation changes nothing: an atlas that is full for a size stays
    /// full for it.
    pub open spec fn after_allocation(self, w: u32, h: u32) -> AtlasView {
        if self.fits_current_row(w, h) {
            AtlasView {
                row_x: self.row_x + w + PADDING,
                row_height: if self.row_height >= h + PADDING {
                    self.row_height
                } else {
                    h + PADDING
                },
                allocated: self.allocated.push(self.allocation(w, h).unwrap()),
                ..self
            }
        } else if self.fits_new_row(w, h) {
            AtlasView {
                row_x: w + PADDING,
                row_y: self.next_row_y(),
                row_height: h + PADDING,
                allocated: self.allocated.push(self.allocation(w, h).unwrap()),
                ..self
            }
        } else {
            self
        }
    }

    /// What `place` answers for a glyph of `w` by `h` pixels under `key`.
    pub open spec fn placement(self, key: GlyphKey, w: u32, h: u32) -> Placement {
        if self.regions.contains_key(key) {
            Placement::Present(self.regions[key])
        } else if w == 0 || h == 0 {
            Placement::Placed(AtlasRegion::nothing())
        } else {
            match self.allocation(w, h) {
                Some(region) => Placement::Placed(region),
                None => Placement::Full,
            }
        }
    }

    /// The state after `place`. A glyph without area takes no atlas space.
    pub open spec fn after_placement(self, key: GlyphKey, w: u32, h: u32) -> AtlasView {
        if self.regions.contains_key(key) {
            self
        } else if w == 0 || h == 0 {
            AtlasView { regions: self.regions.insert(key, AtlasRegion::nothing()), ..self }
        } else {
            match self.allocation(w, h) {
                Some(region) => AtlasView {
                    regions: self.regions.insert(key, region),
                    ..self.after_allocation(w, h)
                },
                None => self.after_allocation(w, h),
            }
        }
    }

    /// The state after `clear`: cursors at the origin, no region remembered.
    pub open spec fn cleared(self) -> AtlasView {
        AtlasView {
            row_x: 0,
            row_y: 0,
            row_height: 0,
            regions: Map::empty(),
            allocated: Seq::empty(),
            ..self
        }
    }

    /// `region` lies in the rows that the cursors have passed: in a finished
    /// row above the current one, or in the current row left of the cursor.
    pub open spec fn covers(self, region: AtlasRegion) -> bool {
        ||| region.y + region.height + PADDING <= self.row_y
        ||| {
            &&& region.y == self.row_y
            &&& region.x + region.width + PADDING <= self.row_x
            &&& region.height + PADDING <= self.row_height
        }
    }
}

/// Row-based texture atlas for rasterized glyphs.
pub struct GlyphAtlas {
    width: u32,
    height: u32,
    /// Where the next glyph of the current row goes.
    row_x: u32,
    /// Top of the current row.
    row_y: u32,
    /// Height of the current row: the tallest glyph in it, padding included.
    row_height: u32,
    table: GlyphTable<AtlasRegion>,
    allocated: Ghost<Seq<AtlasRegion>>,
}

impl View for GlyphAtlas {
    type V = AtlasView;

    closed spec fn view(&self) -> AtlasView {
        AtlasView {
            width: self.width,
            height: self.height,
            row_x: self.row_x as int,
            row_y: self.row_y as int,
            row_height: self.row_height as int,
            regions: self.table@,
            allocated: self.allocated@,
        }
    }
}

impl GlyphAtlas {
    /// The atlas is well formed: the current row lies inside the texture,
    /// every allocated region lies inside the texture and in the rows that
    /// the cursors have passed, allocated regions are pairwise disjoint, and
    /// every remembered region is an allocated one or the region of a glyph
    /// with nothing to draw.
    pub closed spec fn wf(&self) -> bool {
        &&& self.table.wf()
        &&& self.row_x <= self.width
        &&& self.row_y + self.row_height <= self.height
        &&& forall|i: int| 0 <= i < self.allocated@.len() ==> self@.covers(#[trigger] self.allocated@[i])
        &&& forall|i: int| 0 <= i < self.allocated@.len() ==> self@.holds(#[trigger] self.allocated@[i])
        &&& pairwise_disjoint(self.allocated@)
        &&& forall|k: GlyphKey| #[trigger]
            self.table@.contains_key(k) ==> self.table@[k] == AtlasRegion::nothing()
                || self.allocated@.contains(self.table@[k])
        &&& forall|k1: GlyphKey, k2: GlyphKey|
            k1 != k2 && #[trigger] self.table@.contains_key(k1) && #[trigger] self.table@.contains_key(
                k2,
            ) ==> self.table@[k1].disjoint(self.table@[k2])
    }

    /// An empty atlas of `ATLAS_SIZE` by `ATLAS_SIZE` pixels.
    pub fn new() -> (r: Self)
        ensures
            r.wf(),
            r@ == (AtlasView {
                width: ATLAS_SIZE,
                height: ATLAS_SIZE,
                row_x: 0,
                row_y: 0,
                row_height: 0,
                regions: Map::empty(),
                allocated: Seq::empty(),
            }),
    {
        GlyphAtlas::with_size(ATLAS_SIZE, ATLAS_SIZE)
    }

    /// An empty atlas of `width` by `height` pixels.
    pub fn with_size(width: u32, height: u32) -> (r: Self)
        ensures
            r.wf(),
            r@ == (AtlasView {
                width,
                height,
                row_x: 0,
                row_y: 0,
                row_height: 0,
                regions: Map::empty(),
                allocated: Seq::empty(),
            }),
    {
        GlyphAtlas {
            width,
            height,
            row_x: 0,
            row_y: 0,
            row_height: 0,
            table: GlyphTable::new(),
            allocated: Ghost(Seq::empty()),
        }
    }

    pub fn width(&self) -> (w: u32)
        ensures
            w == self@.width,
    {
        self.width
    }

    pub fn height(&self) -> (h: u32)
        ensures
            h == self@.height,
    {
        self.height
    }

    /// The region remembered for `key`.
    pub fn get(&self, key: &GlyphKey) -> (r: Option<AtlasRegion>)
        requires
            self.wf(),
        ensures
            match r {
                Some(region) => self@.regions.contains_key(*key) && region == self@.regions[*key],
                None => !self@.regions.contains_key(*key),
            },
    {
        match self.table.get(key) {
            Some(region) => Some(*region),
            None => None,
        }
    }

    /// Reserves space for a glyph of `width` by `height` pixels plus padding:
    /// in the current row if the glyph fits there, else at the start of a new
    /// row. A glyph that fits in neither is refused, and the atlas stays as it
    /// is. The region handed out lies inside the texture and shares no pixel
    /// with any region handed out since the atlas was last cleared.
    pub fn allocate(&mut self, width: u32, height: u32) -> (r: Option<AtlasRegion>)
        requires
            old(self).wf(),
        ensures
            final(self).wf(),
            r == old(self)@.allocation(width, height),
            final(self)@ == old(self)@.after_allocation(width, height),
            match r {
                Some(region) => {
                    &&& region.width == width
                    &&& region.height == height
                    &&& old(self)@.holds(region)
                    &&& forall|i: int|
                        0 <= i < old(self)@.allocated.len() ==> (#[trigger] old(
                            self,
                        )@.allocated[i]).disjoint(region)
                },
                None => final(self)@ == old(self)@,
            },
    {
        let padded_width: u64 = width as u64 + PADDING as u64;
        let padded_height: u64 = height as u64 + PADDING as u64;
        let atlas_width: u64 = self.width as u64;
        let atlas_height: u64 = self.height as u64;

        // Fits in the current row.
        if self.row_x as u64 + padded_width <= atlas_width && self.row_y as u64 + padded_height
            <= atlas_height {
            let region = AtlasRegion { x: self.row_x, y: self.row_y, width, height };
            self.row_x = (self.row_x as u64 + padded_width) as u32;
            if padded_height > self.row_height as u64 {
                self.row_height = padded_height as u32;
            }
            proof {
                self.allocated@ = self.allocated@.push(region);
                lemma_push_keeps_disjoint(old(self)@, self@, region, true);
                self.lemma_table_after_push(old(self), region);
            }
            return Some(region);
        }
        // A new row is started only for a glyph that fits in it.
        let next_row_y: u64 = self.row_y as u64 + self.row_height as u64;
        if padded_width > atlas_width || next_row_y + padded_height > atlas_height {
            // The atlas is full for this glyph.
            return None;
        }
        let region = AtlasRegion { x: 0, y: next_row_y as u32, width, height };
        self.row_y = next_row_y as u32;
        self.row_x = padded_width as u32;
        self.row_height = padded_height as u32;
        proof {
            self.allocated@ = self.allocated@.push(region);
            lemma_push_keeps_disjoint(old(self)@, self@, region, false);
            self.lemma_table_after_push(old(self), region);
        }
        Some(region)
    }

    /// After one more region was allocated, every remembered region is still
    /// an allocated one or the region of a glyph with nothing to draw.
    proof fn lemma_table_after_push(&self, before: &GlyphAtlas, region: AtlasRegion)
        requires
            self.table == before.table,
            self.allocated@ == before.allocated@.push(region),
            forall|k: GlyphKey| #[trigger]
                before.table@.contains_key(k) ==> before.table@[k] == AtlasRegion::nothing()
                    || before.allocated@.contains(before.table@[k]),
        ensures
            forall|k: GlyphKey| #[trigger]
                self.table@.contains_key(k) ==> self.table@[k] == AtlasRegion::nothing()
                    || self.allocated@.contains(self.table@[k]),
    {
        assert forall|k: GlyphKey| #[trigger] self.table@.contains_key(k) implies self.table@[k]
            == AtlasRegion::nothing() || self.allocated@.contains(self.table@[k]) by {
            if self.table@[k] != AtlasRegion::nothing() {
                lemma_push_contains(before.allocated@, region, self.table@[k]);
            }
        }
    }

    /// Finds or makes the region of the glyph under `key`, whose bitmap is
    /// `width` by `height` pixels. A key that has a region keeps it. A glyph
    /// without area gets the empty region and takes no space.
    pub fn place(&mut self, key: GlyphKey, width: u32, height: u32) -> (r: Placement)
        requires
            old(self).wf(),
        ensures
            final(self).wf(),
            r == old(self)@.placement(key, width, height),
            final(self)@ == old(self)@.after_placement(key, width, height),
    {
        match self.table.get(&key) {
            Some(region) => {
                return Placement::Present(*region);
            },
            None => {},
        }
        if width == 0 || height == 0 {
            let region = AtlasRegion { x: 0, y: 0, width: 0, height: 0 };
            self.table.get_or_insert(key, region);
            return Placement::Placed(region);
        }
        match self.allocate(width, height) {
            Some(region) => {
                self.table.get_or_insert(key, region);
                proof {
                    assert(self.allocated@.last() == region);
                    assert forall|k1: GlyphKey, k2: GlyphKey|
                        k1 != k2 && #[trigger] self.table@.contains_key(k1)
                            && #[trigger] self.table@.contains_key(k2) implies self.table@[k1].disjoint(
                        self.table@[k2],
                    ) by {
                        if k1 == key {
                            lemma_fresh_region_disjoint(old(self), region, self.table@[k2], k2);
                        } else if k2 == key {
                            lemma_fresh_region_disjoint(old(self), region, self.table@[k1], k1);
                        }
                    }
                }
                Placement::Placed(region)
            },
            None => Placement::Full,
        }
    }

    /// The region of the glyph under `key`, placing the glyph on first sight:
    /// a key that has a region keeps it, without rasterizing or uploading;
    /// otherwise the glyph comes from `glyph_cache` (which asks `rasterize` on
    /// a miss), is placed, and is handed to `upload` if it got a region with
    /// area. `None` means the glyph cannot be rasterized or does not fit, and
    /// is to be skipped.
    pub fn get_or_insert<R, U>(
        &mut self,
        key: GlyphKey,
        glyph_cache: &mut GlyphCache,
        rasterize: R,
        upload: U,
    ) -> (r: Option<AtlasRegion>) where
        R: FnOnce() -> Option<RasterizedGlyph>,
        U: FnOnce(AtlasRegion, &RasterizedGlyph),

        requires
            old(self).wf(),
            old(glyph_cache).wf(),
            !old(self)@.regions.contains_key(key) && !old(glyph_cache)@.contains_key(key)
                ==> call_requires(rasterize, ()),
            forall|region: AtlasRegion, glyph: &RasterizedGlyph|
                !region.has_no_area() && region.width == glyph.width && region.height
                    == glyph.height ==> #[trigger] call_requires(upload, (region, glyph)),
        ensures
            final(self).wf(),
            final(glyph_cache).wf(),
            old(self)@.regions.contains_key(key) ==> {
                &&& r == Some(old(self)@.regions[key])
                &&& final(self)@ == old(self)@
                &&& final(glyph_cache)@ == old(glyph_cache)@
            },
            !old(self)@.regions.contains_key(key) ==> exists|outcome: Option<RasterizedGlyph>|
                {
                    &&& old(glyph_cache)@.contains_key(key) || call_ensures(rasterize, (), outcome)
                    &&& final(glyph_cache)@ == resolved(old(glyph_cache)@, key, outcome)
                    &&& match answer(old(glyph_cache)@, key, outcome) {
                        Some(glyph) => {
                            &&& final(self)@ == old(self)@.after_placement(
                                key,
                                glyph.width,
                                glyph.height,
                            )
                            &&& match old(self)@.placement(key, glyph.width, glyph.height) {
                                Placement::Placed(region) => {
                                    &&& r == Some(region)
                                    &&& !region.has_no_area() ==> call_ensures(
                                        upload,
                                        (region, &glyph),
                                        (),
                                    )
                                },
                                Placement::Present(region) => r == Some(region),
                                Placement::Full => r.is_none(),
                            }
                        },
                        None => r.is_none() && final(self)@ == old(self)@,
                    }
                },
    {
        match self.table.get(&key) {
            Some(region) => {
                return Some(*region);
            },
            None => {},
        }
        let rasterized = match glyph_cache.rasterize(key, rasterize) {
            Some(glyph) => glyph,
            None => {
                return None;
            },
        };
        match self.place(key, rasterized.width, rasterized.height) {
            Placement::Placed(region) => {
                if !region.is_empty() {
                    upload(region, rasterized);
                }
                Some(region)
            },
            Placement::Present(region) => Some(region),
            Placement::Full => None,
        }
    }

    /// Forgets every region and moves the cursors back to the origin. The
    /// texture's pixels are left as they are.
    pub fn clear(&mut self)
        ensures
            final(self).wf(),
            final(self)@ == old(self)@.cleared(),
    {
        self.row_y = 0;
        self.row_x = 0;
        self.row_height = 0;
        self.table.clear();
        proof {
            self.allocated@ = Seq::empty();
        }
    }

    /// The corners of `region` as fractions of the atlas extent.
    pub fn uv_for_region(&self, region: &AtlasRegion) -> (uv: UvRect)
        ensures
            uv == (UvRect {
                u_min: region.x as u64,
                v_min: region.y as u64,
                u_max: (region.x + region.width) as u64,
                v_max: (region.y + region.height) as u64,
                width: self@.width as u64,
                height: self@.height as u64,
            }),
            uv.u_min <= uv.u_max,
            uv.v_min <= uv.v_max,
            self@.holds(*region) ==> uv.u_max <= uv.width && uv.v_max <= uv.height,
    {
        UvRect {
            u_min: region.x as u64,
            v_min: region.y as u64,
            u_max: region.x as u64 + region.width as u64,
            v_max: region.y as u64 + region.height as u64,
            width: self.width as u64,
            height: self.height as u64,
        }
    }

    /// Regions handed out by the allocator never overlap.
    pub proof fn lemma_allocated_disjoint(&self)
        requires
            self.wf(),
        ensures
            pairwise_disjoint(self@.allocated),
    {
    }

    /// Every region handed out by the allocator lies inside the texture.
    pub proof fn lemma_allocated_inside(&self, i: int)
        requires
            self.wf(),
            0 <= i < self@.allocated.len(),
        ensures
            self@.holds(self@.allocated[i]),
    {
    }

    /// The region of every placed glyph lies inside the texture, so that its
    /// corners, as fractions of the atlas extent, lie between 0 and 1.
    pub proof fn lemma_regions_inside(&self, key: GlyphKey)
        requires
            self.wf(),
            self@.regions.contains_key(key),
        ensures
            self@.holds(self@.regions[key]),
    {
        let region = self@.regions[key];
        if region != AtlasRegion::nothing() {
            let i = choose|i: int| 0 <= i < self.allocated@.len() && self.allocated@[i] == region;
            assert(self@.holds(self.allocated@[i]));
        }
    }

    /// An atlas that refuses a size refuses it again: a refusal changes
    /// nothing, so the atlas stays full for that size until it is cleared.
    pub proof fn lemma_full_stays_full(view: AtlasView, w: u32, h: u32)
        requires
            view.allocation(w, h).is_none(),
        ensures
            view.after_allocation(w, h) == view,
            view.after_allocation(w, h).allocation(w, h).is_none(),
    {
    }

    /// The regions of two different glyphs never overlap.
    pub proof fn lemma_regions_disjoint(&self, k1: GlyphKey, k2: GlyphKey)
        requires
            self.wf(),
            k1 != k2,
            self@.regions.contains_key(k1),
            self@.regions.contains_key(k2),
        ensures
            self@.regions[k1].disjoint(self@.regions[k2]),
    {
    }
}

/// A region placed at the cursors is disjoint from every region that the
/// cursors had passed, and the advanced cursors have passed all of them.
proof fn lemma_push_keeps_disjoint(
    before: AtlasView,
    after: AtlasView,
    region: AtlasRegion,
    same_row: bool,
)
    requires
        forall|i: int| 0 <= i < before.allocated.len() ==> before.covers(#[trigger] before.allocated[i]),
        forall|i: int| 0 <= i < before.allocated.len() ==> before.holds(#[trigger] before.allocated[i]),
        pairwise_disjoint(before.allocated),
        after.allocated == before.allocated.push(region),
        after.width == before.width,
        after.height == before.height,
        after.covers(region),
        after.holds(region),
        region.y == after.row_y,
        before.row_height >= 0,
        if same_row {
            &&& after.row_y == before.row_y
            &&& region.x >= before.row_x
            &&& after.row_x >= before.row_x
            &&& after.row_height >= before.row_height
        } else {
            after.row_y >= before.row_y + before.row_height
        },
    ensures
        forall|i: int| 0 <= i < after.allocated.len() ==> after.covers(#[trigger] after.allocated[i]),
        forall|i: int| 0 <= i < after.allocated.len() ==> after.holds(#[trigger] after.allocated[i]),
        pairwise_disjoint(after.allocated),
        forall|i: int| 0 <= i < before.allocated.len() ==> (#[trigger] before.allocated[i]).disjoint(region),
{
    assert forall|i: int| 0 <= i < before.allocated.len() implies (#[trigger] before.allocated[i]).disjoint(
        region,
    ) && after.covers(before.allocated[i]) by {
        assert(before.covers(before.allocated[i]));
    }
    assert forall|i: int| 0 <= i < after.allocated.len() implies after.covers(
        #[trigger] after.allocated[i],
    ) && after.holds(after.allocated[i]) by {
        if i < before.allocated.len() {
            assert(after.allocated[i] == before.allocated[i]);
            assert(before.holds(before.allocated[i]));
        }
    }
    assert forall|i: int, j: int| 0 <= i < j < after.allocated.len() implies after.allocated[i].disjoint(
        after.allocated[j],
    ) by {
        if j < before.allocated.len() {
            assert(before.allocated[i].disjoint(before.allocated[j]));
        } else {
            assert(after.allocated[i] == before.allocated[i]);
        }
    }
}

/// What a sequence contained, it contains after a push.
proof fn lemma_push_contains(regions: Seq<AtlasRegion>, pushed: AtlasRegion, r: AtlasRegion)
    requires
        regions.contains(r),
    ensures
        regions.push(pushed).contains(r),
{
    let i = choose|i: int| 0 <= i < regions.len() && regions[i] == r;
    assert(regions.push(pushed)[i] == r);
}

/// A freshly allocated region is disjoint from the region of every glyph
/// placed before.
proof fn lemma_fresh_region_disjoint(
    before: &GlyphAtlas,
    region: AtlasRegion,
    other: AtlasRegion,
    k: GlyphKey,
)
    requires
        before.wf(),
        before@.regions.contains_key(k),
        other == before@.regions[k],
        forall|i: int| 0 <= i < before@.allocated.len() ==> (#[trigger] before@.allocated[i]).disjoint(
            region,
        ),
    ensures
        region.disjoint(other),
        other.disjoint(region),
{
    if other != AtlasRegion::nothing() {
        let i = choose|i: int| 0 <= i < before@.allocated.len() && before@.allocated[i] == other;
        assert(before@.allocated[i].disjoint(region));
    }
}

} // verus!
