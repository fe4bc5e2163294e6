//! Glyph identity: the cache key of a glyph at a size, and the table that the
//! glyph cache and the atlas keep their entries in.

use linebender_resource_handle::Blob;
use linebender_resource_handle::FontData;
use std::collections::hash_map::DefaultHasher;
use std::collections::HashMap;
use std::hash::Hasher;
use vstd::prelude::*;
use vstd::std_specs::hash::DefaultHasherAdditionalSpecFns;

verus! {

broadcast use vstd::std_specs::hash::group_hash_axioms;

/// Shared, reference-counted data with a unique identifier. The library
/// never looks at the bytes.
#[verifier::external_type_specification]
#[verifier::external_body]
#[verifier::reject_recursive_types(T)]
pub struct ExBlob<T>(Blob<T>);

/// A font: a blob that holds a font file, and the index of a face in it.
#[verifier::external_type_specification]
pub struct ExFontData(FontData);

/// The identifier that a blob carries. Clones of a blob share it.
pub uninterp spec fn blob_id(blob: Blob<u8>) -> u64;

/// Identifies one rasterization: two keys are equal exactly when font blob,
/// face index, glyph, size bit pattern and coordinate hash are equal.
#[derive(Debug, Clone, Copy, PartialEq, Eq, Hash, Structural)]
pub struct GlyphKey {
    /// Unique id of the font blob.
    pub font_id: u64,
    /// Index of the face in a font collection.
    pub font_index: u32,
    pub glyph_id: u32,
    /// Bit pattern of the font size in device pixels: sizes are compared
    /// exactly, never approximately.
    pub font_size_bits: u32,
    /// Hash of the variable-font coordinates.
    pub coords_hash: u64,
}

/// The two bytes that stand for one coordinate: its value shifted into
/// `0..=65535`, high byte first.
pub open spec fn coord_bytes(c: i16) -> Seq<u8> {
    seq![((c + 32768) / 256) as u8, ((c + 32768) % 256) as u8]
}

/// The bytes that stand for a coordinate list: two per coordinate, in order.
pub open spec fn coords_bytes(coords: Seq<i16>) -> Seq<u8>
    decreases coords.len(),
{
    if coords.len() == 0 {
        Seq::empty()
    } else {
        coords_bytes(coords.drop_last()) + coord_bytes(coords.last())
    }
}

/// The hash of a coordinate list: what the default hasher gives for the
/// list's bytes, written at once.
pub open spec fn coords_hash(coords: Seq<i16>) -> u64 {
    DefaultHasher::spec_finish(seq![coords_bytes(coords)])
}

/// `Blob::id` returns the identifier stored in the blob.
#[verifier::external_body]
fn id_of_blob(blob: &Blob<u8>) -> (id: u64)
    ensures
        id == blob_id(*blob),
{
    blob.id()
}

/// Hashes a coordinate list with the default hasher.
pub fn hash_coords(coords: &[i16]) -> (h: u64)
    ensures
        h == coords_hash(coords@),
{
    let mut bytes: Vec<u8> = Vec::new();
    let mut i: usize = 0;
    while i < coords.len()
        invariant
            i <= coords.len(),
            bytes@ == coords_bytes(coords@.take(i as int)),
        decreases coords.len() - i,
    {
        let shifted: i32 = coords[i] as i32 + 32768;
        bytes.push((shifted / 256) as u8);
        bytes.push((shifted % 256) as u8);
        proof {
            let done = coords@.take(i as int);
            let next = coords@.take(i + 1);
            assert(next.drop_last() =~= done);
        }
        i += 1;
    }
    proof {
        assert(coords@.take(coords@.len() as int) =~= coords@);
    }
    let mut hasher = DefaultHasher::new();
    hasher.write(bytes.as_slice());
    hasher.finish()
}

impl GlyphKey {
    /// The key of a glyph at a size: the font's blob identifier and face
    /// index, the glyph, the size's bit pattern, and the hash of the
    /// coordinates.
    pub open spec fn of(
        font: FontData,
        glyph_id: u32,
        font_size_bits: u32,
        normalized_coords: Seq<i16>,
    ) -> GlyphKey {
        GlyphKey {
            font_id: blob_id(font.data),
            font_index: font.index,
            glyph_id,
            font_size_bits,
            coords_hash: coords_hash(normalized_coords),
        }
    }

    /// The key of `glyph_id` of `font` at the size with bit pattern
    /// `font_size_bits` under the given variable-font coordinates.
    pub fn new(font: &FontData, glyph_id: u32, font_size_bits: u32, normalized_coords: &[i16]) -> (key:
        Self)
        ensures
            key == Self::of(*font, glyph_id, font_size_bits, normalized_coords@),
    {
        GlyphKey {
            font_id: id_of_blob(&font.data),
            font_index: font.index,
            glyph_id,
            font_size_bits,
            coords_hash: hash_coords(normalized_coords),
        }
    }
}

/// One entry of a glyph table.
struct TableEntry<V> {
    key: GlyphKey,
    value: V,
}

/// A table from glyph keys to values in which no key occurs twice. Entries
/// are never evicted. The entries stand in the order they were added; an
/// index from a digest of the key to the places with that digest finds them.
pub struct GlyphTable<V> {
    entries: Vec<TableEntry<V>>,
    index: HashMap<u64, Vec<usize>>,
}

/// The digest under which the index files a key.
spec fn digest(key: GlyphKey) -> u64 {
    key.font_id ^ key.coords_hash ^ (((key.glyph_id as u64) << 32) | (key.font_size_bits as u64))
        ^ (key.font_index as u64)
}

/// The key stands at `i` in `entries`.
spec fn key_at<V>(entries: Seq<TableEntry<V>>, key: GlyphKey, i: int) -> bool {
    0 <= i < entries.len() && entries[i].key == key
}

/// No key stands at two places of `entries`.
spec fn distinct_keys<V>(entries: Seq<TableEntry<V>>) -> bool {
    forall|i: int, j: int| 0 <= i < j < entries.len() ==> entries[i].key != entries[j].key
}

/// The keys of `entries`, in order.
spec fn keys_of<V>(entries: Seq<TableEntry<V>>) -> Seq<GlyphKey> {
    entries.map_values(|e: TableEntry<V>| e.key)
}

/// The index files `place` under `d`.
spec fn files(index: Map<u64, Vec<usize>>, d: u64, place: int) -> bool {
    index.contains_key(d) && exists|j: int| 0 <= j < index[d]@.len() && index[d]@[j] == place
}

/// The index files every place of `entries` under the digest of its key, and
/// files no place that `entries` does not have.
spec fn indexes<V>(index: Map<u64, Vec<usize>>, entries: Seq<TableEntry<V>>) -> bool {
    &&& forall|i: int| 0 <= i < entries.len() ==> files(index, digest(#[trigger] entries[i].key), i)
    &&& forall|d: u64, j: int|
        index.contains_key(d) && 0 <= j < index[d]@.len() ==> (#[trigger] index[d]@[j])
            < entries.len()
}

/// The digest of a key.
fn digest_of(key: &GlyphKey) -> (d: u64)
    ensures
        d == digest(*key),
{
    key.font_id ^ key.coords_hash ^ (((key.glyph_id as u64) << 32) | (key.font_size_bits as u64))
        ^ (key.font_index as u64)
}

impl<V> View for GlyphTable<V> {
    type V = Map<GlyphKey, V>;

    closed spec fn view(&self) -> Map<GlyphKey, V> {
        Map::new(
            |key: GlyphKey| exists|i: int| key_at(self.entries@, key, i),
            |key: GlyphKey| self.entries@[choose|i: int| key_at(self.entries@, key, i)].value,
        )
    }
}

impl<V> GlyphTable<V> {
    /// The table is well formed: no key stands at two places, and the index
    /// finds every entry.
    pub closed spec fn wf(&self) -> bool {
        distinct_keys(self.entries@) && indexes(self.index@, self.entries@)
    }

    /// The empty table.
    pub fn new() -> (r: Self)
        ensures
            r.wf(),
            r@ == Map::<GlyphKey, V>::empty(),
    {
        let table = GlyphTable { entries: Vec::new(), index: HashMap::new() };
        table
    }

    /// Number of entries.
    pub fn len(&self) -> (n: usize)
        requires
            self.wf(),
        ensures
            self@.dom().finite(),
            n == self@.len(),
    {
        proof {
            self.lemma_len();
        }
        self.entries.len()
    }

    /// Whether `key` has an entry.
    pub fn contains_key(&self, key: &GlyphKey) -> (b: bool)
        requires
            self.wf(),
        ensures
            b == self@.contains_key(*key),
    {
        self.position(key).is_some()
    }

    /// The value stored under `key`.
    pub fn get(&self, key: &GlyphKey) -> (r: Option<&V>)
        requires
            self.wf(),
        ensures
            match r {
                Some(v) => self@.contains_key(*key) && *v == self@[*key],
                None => !self@.contains_key(*key),
            },
    {
        match self.position(key) {
            Some(i) => {
                proof {
                    self.lemma_value_at(*key, i as int);
                }
                Some(&self.entries[i].value)
            },
            None => None,
        }
    }

    /// Stores `value` under `key` if the key has no entry yet, and returns the
    /// value that the key maps to afterwards: an existing entry is kept, never
    /// replaced.
    pub fn get_or_insert(&mut self, key: GlyphKey, value: V) -> (r: &V)
        requires
            old(self).wf(),
        ensures
            final(self).wf(),
            old(self)@.contains_key(key) ==> final(self)@ == old(self)@,
            !old(self)@.contains_key(key) ==> final(self)@ == old(self)@.insert(key, value),
            final(self)@.contains_key(key),
            *r == final(self)@[key],
    {
        match self.position(&key) {
            Some(i) => {
                proof {
                    self.lemma_value_at(key, i as int);
                }
                &self.entries[i].value
            },
            None => {
                let ghost before = self.entries@;
                let n = self.entries.len();
                self.entries.push(TableEntry { key, value });
                self.file(key, n);
                proof {
                    assert forall|i: int, j: int| 0 <= i < j < self.entries@.len() implies self.entries@[i].key
                        != self.entries@[j].key by {
                        if j == n {
                            assert(!key_at(before, key, i));
                        }
                    }
                    self.lemma_value_at(key, n as int);
                    assert(self@ =~= old(self)@.insert(key, value)) by {
                        assert forall|k: GlyphKey|
                            self@.contains_key(k) <==> old(self)@.insert(key, value).contains_key(
                                k,
                            ) by {
                            if k != key {
                                if self@.contains_key(k) {
                                    let i = choose|i: int| key_at(self.entries@, k, i);
                                    assert(key_at(before, k, i));
                                }
                                if old(self)@.contains_key(k) {
                                    let i = choose|i: int| key_at(before, k, i);
                                    assert(key_at(self.entries@, k, i));
                                }
                            }
                        }
                        assert forall|k: GlyphKey| self@.contains_key(k) implies self@[k] == old(
                            self,
                        )@.insert(key, value)[k] by {
                            if k != key {
                                let i = choose|i: int| key_at(before, k, i);
                                self.lemma_value_at(k, i);
                                old(self).lemma_value_at(k, i);
                            }
                        }
                    }
                }
                &self.entries[n].value
            },
        }
    }

    /// Files the place `n`, which the last entry stands at, under the digest
    /// of its key.
    fn file(&mut self, key: GlyphKey, n: usize)
        requires
            old(self).entries@.len() == n + 1,
            old(self).entries@[n as int].key == key,
            indexes(old(self).index@, old(self).entries@.drop_last()),
        ensures
            final(self).entries == old(self).entries,
            indexes(final(self).index@, final(self).entries@),
    {
        let d = digest_of(&key);
        let mut places = match self.index.remove(&d) {
            Some(places) => places,
            None => Vec::new(),
        };
        let ghost before = old(self).index@;
        let ghost filed = places@;
        places.push(n);
        self.index.insert(d, places);
        proof {
            let entries = self.entries@;
            let earlier = entries.drop_last();
            assert forall|i: int| 0 <= i < entries.len() implies files(
                self.index@,
                digest(#[trigger] entries[i].key),
                i,
            ) by {
                let di = digest(entries[i].key);
                if i == n {
                    assert(self.index@[d]@[filed.len() as int] == n);
                } else {
                    assert(earlier[i] == entries[i]);
                    let j = choose|j: int| 0 <= j < before[di]@.len() && before[di]@[j] == i;
                    if di == d {
                        assert(self.index@[d]@[j] == i);
                    } else {
                        assert(self.index@[di]@[j] == i);
                    }
                }
            }
        }
    }

    /// Removes every entry.
    pub fn clear(&mut self)
        ensures
            final(self).wf(),
            final(self)@ == Map::<GlyphKey, V>::empty(),
    {
        self.entries.clear();
        self.index.clear();
    }

    /// The place of `key` among the entries.
    fn position(&self, key: &GlyphKey) -> (r: Option<usize>)
        requires
            indexes(self.index@, self.entries@),
        ensures
            match r {
                Some(i) => key_at(self.entries@, *key, i as int),
                None => !self@.contains_key(*key),
            },
    {
        let d = digest_of(key);
        let places = match self.index.get(&d) {
            Some(places) => places,
            None => {
                return None;
            },
        };
        let mut j: usize = 0;
        while j < places.len()
            invariant
                j <= places.len(),
                indexes(self.index@, self.entries@),
                self.index@.contains_key(d),
                *places == self.index@[d],
                forall|m: int| 0 <= m < j ==> self.entries@[places@[m] as int].key != *key,
            decreases places.len() - j,
        {
            let place = places[j];
            if self.entries[place].key == *key {
                return Some(place);
            }
            j += 1;
        }
        proof {
            assert forall|k: int| !key_at(self.entries@, *key, k) by {
                if key_at(self.entries@, *key, k) {
                    let m = choose|m: int| 0 <= m < places@.len() && places@[m] == k;
                }
            }
        }
        None
    }

    /// With distinct keys, the view maps a key to the value at the key's place.
    proof fn lemma_value_at(&self, key: GlyphKey, i: int)
        requires
            distinct_keys(self.entries@),
            key_at(self.entries@, key, i),
        ensures
            self@.contains_key(key),
            self@[key] == self.entries@[i].value,
    {
        let j = choose|j: int| key_at(self.entries@, key, j);
        if i < j {
        } else if j < i {
        }
    }

    /// With distinct keys, the view has as many entries as the table.
    proof fn lemma_len(&self)
        requires
            distinct_keys(self.entries@),
        ensures
            self@.dom().finite(),
            self@.len() == self.entries@.len(),
    {
        let keys = keys_of(self.entries@);
        assert(keys.to_set() =~= self@.dom()) by {
            assert forall|k: GlyphKey| keys.to_set().contains(k) <==> self@.dom().contains(k) by {
                if keys.to_set().contains(k) {
                    let i = choose|i: int| 0 <= i < keys.len() && keys[i] == k;
                    assert(key_at(self.entries@, k, i));
                }
                if self@.dom().contains(k) {
                    let i = choose|i: int| key_at(self.entries@, k, i);
                    assert(keys[i] == k);
                }
            }
        }
        keys.unique_seq_to_set();
    }
}

} // verus!
