//! The texture cache.
//!
//! The cache owns every managed texture: for each live handle it holds the
//! tokens of the GPU image, image view, memory allocation and descriptor
//! binding, together with the creation extent.  It is driven by incremental
//! deltas: a "set" delta with no placement offset creates (or replaces) the
//! record for its handle; one with an offset patches an existing record in
//! place and is a no-op when no record exists; a "free" delta removes and
//! returns the record so the host can destroy its objects.  The cache never
//! touches the GPU itself: each mutation returns an upload action that tells
//! the host exactly what to perform.
use vstd::prelude::*;

use crate::errors::BackendError;
use crate::handle::TextureHandle;
use crate::pixels::PixelImage;

verus! {

/// The GPU-side objects backing one managed texture, as opaque tokens, plus
/// the extent the texture was created with.
#[derive(Clone, Copy, Debug, PartialEq, Eq, Structural)]
pub struct TextureRecord {
    /// Token of the GPU image.
    pub image: u64,
    /// Token of the image view.
    pub view: u64,
    /// Token of the memory allocation.
    pub allocation: u64,
    /// Token of the descriptor binding.
    pub desc_set: u64,
    /// Width the texture was created with, in texels.
    pub width: u32,
    /// Height the texture was created with, in texels.
    pub height: u32,
}

/// One incremental instruction for a texture: new pixel data, with an
/// optional placement offset that turns the instruction into a partial
/// patch of an existing texture.
#[derive(Debug)]
pub struct TextureDelta {
    /// Placement offset of the patch, or `None` to set the whole texture.
    pub pos: Option<(u32, u32)>,
    /// The pixel data.
    pub image: PixelImage,
}

/// The GPU work that applying one "set" delta asks of the host.
#[derive(Debug)]
pub enum TextureUpload {
    /// Create the image, view, allocation and descriptor binding under the
    /// record's tokens, upload the pixels, and keep the objects until a
    /// matching destroy action.
    Create {
        /// The handle the new record was stored under.
        handle: TextureHandle,
        /// The record, with fresh tokens for the four owned objects.
        record: TextureRecord,
        /// The pixels to upload.
        pixels: PixelImage,
    },
    /// Upload the pixels to a temporary image and blit it into the existing
    /// image at the given offset; the temporary objects are the host's own
    /// and are destroyed before returning.
    Patch {
        /// Token of the existing GPU image to patch.
        image: u64,
        /// Horizontal placement offset, in texels.
        x: u32,
        /// Vertical placement offset, in texels.
        y: u32,
        /// The pixels of the patch.
        pixels: PixelImage,
    },
    /// Nothing to do: a patch was addressed to a handle with no record.
    Noop,
}

/// The ghost model of a cache: the map from handles to records, and the
/// next unused token.
#[verifier::ext_equal]
pub struct CacheModel {
    /// Live records by handle.
    pub map: Map<TextureHandle, TextureRecord>,
    /// The next unused GPU object token.
    pub next: int,
}

/// The record a full "set" creates when the next unused token is `next`:
/// four consecutive fresh tokens and the image's extent.
pub open spec fn fresh_record(next: int, width: u32, height: u32) -> TextureRecord {
    TextureRecord {
        image: next as u64,
        view: (next + 1) as u64,
        allocation: (next + 2) as u64,
        desc_set: (next + 3) as u64,
        width,
        height,
    }
}

/// How one "set" delta transforms the cache model: a full set inserts a
/// fresh record and consumes four tokens; a patch (offset present) never
/// changes the model, whether or not a record exists.
pub open spec fn spec_apply_set(m: CacheModel, handle: TextureHandle, delta: TextureDelta) -> CacheModel {
    if delta.pos is Some {
        m
    } else {
        CacheModel {
            map: m.map.insert(
                handle,
                fresh_record(m.next, delta.image.spec_width(), delta.image.spec_height()),
            ),
            next: m.next + 4,
        }
    }
}

/// How a "free" delta transforms the cache model: the handle's record is
/// removed; freeing a handle with no record changes nothing.
pub open spec fn spec_apply_free(m: CacheModel, handle: TextureHandle) -> CacheModel {
    CacheModel { map: m.map.remove(handle), next: m.next }
}

/// The map described by an association list: later entries win, though the
/// cache keeps its keys distinct.
pub open spec fn entries_map(s: Seq<(TextureHandle, TextureRecord)>) -> Map<
    TextureHandle,
    TextureRecord,
>
    decreases s.len(),
{
    if s.len() == 0 {
        Map::empty()
    } else {
        entries_map(s.drop_last()).insert(s.last().0, s.last().1)
    }
}

/// No two entries share a handle.
pub open spec fn distinct_keys(s: Seq<(TextureHandle, TextureRecord)>) -> bool {
    forall|i: int, j: int| 0 <= i < j < s.len() ==> s[i].0 != s[j].0
}

/// The cache of managed textures.
pub struct TextureCache {
    entries: Vec<(TextureHandle, TextureRecord)>,
    next_token: u64,
}

proof fn lemma_entries_map_finite(s: Seq<(TextureHandle, TextureRecord)>)
    ensures
        entries_map(s).dom().finite(),
    decreases s.len(),
{
    if s.len() > 0 {
        lemma_entries_map_finite(s.drop_last());
    }
}

proof fn lemma_entries_map_contains(s: Seq<(TextureHandle, TextureRecord)>, k: TextureHandle)
    ensures
        entries_map(s).contains_key(k) <==> exists|i: int| 0 <= i < s.len() && s[i].0 == k,
    decreases s.len(),
{
    if s.len() > 0 {
        lemma_entries_map_contains(s.drop_last(), k);
        if s.last().0 == k {
            assert(s[s.len() - 1].0 == k);
        } else if entries_map(s).contains_key(k) {
            let i = choose|i: int| 0 <= i < s.drop_last().len() && s.drop_last()[i].0 == k;
            assert(s[i].0 == k);
        } else {
            assert(forall|i: int|
                0 <= i < s.len() - 1 ==> s.drop_last()[i] == s[i]);
        }
    }
}

proof fn lemma_entries_map_index(s: Seq<(TextureHandle, TextureRecord)>, i: int)
    requires
        distinct_keys(s),
        0 <= i < s.len(),
    ensures
        entries_map(s).contains_key(s[i].0),
        entries_map(s)[s[i].0] == s[i].1,
    decreases s.len(),
{
    if i == s.len() - 1 {
        assert(s.last() == s[i]);
    } else {
        assert(distinct_keys(s.drop_last())) by {
            assert(forall|x: int, y: int|
                0 <= x < y < s.len() - 1 ==> s.drop_last()[x] == s[x] && s.drop_last()[y] == s[y]);
        }
        lemma_entries_map_index(s.drop_last(), i);
        assert(s.drop_last()[i] == s[i]);
        assert(s.last().0 != s[i].0);
    }
}

proof fn lemma_entries_map_len(s: Seq<(TextureHandle, TextureRecord)>)
    requires
        distinct_keys(s),
    ensures
        entries_map(s).dom().finite(),
        entries_map(s).dom().len() == s.len(),
    decreases s.len(),
{
    lemma_entries_map_finite(s);
    if s.len() > 0 {
        let prefix = s.drop_last();
        assert(distinct_keys(prefix)) by {
            assert(forall|x: int, y: int|
                0 <= x < y < prefix.len() ==> prefix[x] == s[x] && prefix[y] == s[y]);
        }
        lemma_entries_map_len(prefix);
        lemma_entries_map_contains(prefix, s.last().0);
        assert(forall|i: int| 0 <= i < prefix.len() ==> prefix[i] == s[i]);
        assert(!entries_map(prefix).contains_key(s.last().0));
        vstd::set::axiom_set_insert_len::<TextureHandle>(entries_map(prefix).dom(), s.last().0);
        assert(entries_map(s).dom() =~= entries_map(prefix).dom().insert(s.last().0));
    }
}

proof fn lemma_entries_map_update(
    s: Seq<(TextureHandle, TextureRecord)>,
    i: int,
    v: TextureRecord,
)
    requires
        distinct_keys(s),
        0 <= i < s.len(),
    ensures
        entries_map(s.update(i, (s[i].0, v))) =~= entries_map(s).insert(s[i].0, v),
    decreases s.len(),
{
    let k = s[i].0;
    let t = s.update(i, (k, v));
    if i == s.len() - 1 {
        assert(t.drop_last() =~= s.drop_last());
        assert(t.last() == (k, v));
    } else {
        let prefix = s.drop_last();
        assert(distinct_keys(prefix)) by {
            assert(forall|x: int, y: int|
                0 <= x < y < prefix.len() ==> prefix[x] == s[x] && prefix[y] == s[y]);
        }
        assert(t.drop_last() =~= prefix.update(i, (k, v)));
        assert(prefix[i] == s[i]);
        lemma_entries_map_update(prefix, i, v);
        assert(t.last() == s.last());
        assert(s.last().0 != k);
    }
}

proof fn lemma_entries_map_remove(s: Seq<(TextureHandle, TextureRecord)>, i: int)
    requires
        distinct_keys(s),
        0 <= i < s.len(),
    ensures
        entries_map(s.remove(i)) =~= entries_map(s).remove(s[i].0),
    decreases s.len(),
{
    let k = s[i].0;
    if i == s.len() - 1 {
        assert(s.remove(i) =~= s.drop_last());
        lemma_entries_map_contains(s.drop_last(), k);
        assert(forall|j: int| 0 <= j < s.len() - 1 ==> s.drop_last()[j] == s[j]);
        assert(!entries_map(s.drop_last()).contains_key(k));
    } else {
        let prefix = s.drop_last();
        assert(distinct_keys(prefix)) by {
            assert(forall|x: int, y: int|
                0 <= x < y < prefix.len() ==> prefix[x] == s[x] && prefix[y] == s[y]);
        }
        assert(prefix[i] == s[i]);
        lemma_entries_map_remove(prefix, i);
        assert(s.remove(i).drop_last() =~= prefix.remove(i));
        assert(s.remove(i).last() == s.last());
        assert(s.last().0 != k);
    }
}

impl TextureCache {
    /// Handles are distinct and every stored token is below the next unused
    /// token.
    pub closed spec fn wf(self) -> bool {
        &&& distinct_keys(self.entries@)
        &&& forall|i: int|
            0 <= i < self.entries@.len() ==> #[trigger] self.entries@[i].1.image
                < self.next_token && self.entries@[i].1.view < self.next_token
                && self.entries@[i].1.allocation < self.next_token
                && self.entries@[i].1.desc_set < self.next_token
    }

    /// The live records, by handle.
    pub closed spec fn as_map(self) -> Map<TextureHandle, TextureRecord> {
        entries_map(self.entries@)
    }

    /// The next unused GPU object token.
    pub closed spec fn spec_next_token(self) -> int {
        self.next_token as int
    }

    /// The ghost model: record map plus token counter.
    pub open spec fn model(self) -> CacheModel {
        CacheModel { map: self.as_map(), next: self.spec_next_token() }
    }

    /// An empty cache.
    pub fn new() -> (r: Self)
        ensures
            r.wf(),
            r.as_map() == Map::<TextureHandle, TextureRecord>::empty(),
            r.spec_next_token() == 0,
    {
        TextureCache { entries: Vec::new(), next_token: 0 }
    }

    fn position_of(&self, handle: TextureHandle) -> (r: Option<usize>)
        ensures
            r matches Some(i) ==> i < self.entries@.len() && self.entries@[i as int].0 == handle,
            r is None ==> forall|i: int| 0 <= i < self.entries@.len() ==> self.entries@[i].0 != handle,
    {
        let mut i: usize = 0;
        while i < self.entries.len()
            invariant
                i <= self.entries@.len(),
                forall|j: int| 0 <= j < i ==> self.entries@[j].0 != handle,
            decreases self.entries@.len() - i,
        {
            if self.entries[i].0 == handle {
                return Some(i);
            }
            i = i + 1;
        }
        None
    }

    /// Whether the cache holds a record for the handle.
    pub fn contains(&self, handle: TextureHandle) -> (r: bool)
        requires
            self.wf(),
        ensures
            r == self.as_map().contains_key(handle),
    {
        let found = self.position_of(handle);
        proof {
            lemma_entries_map_contains(self.entries@, handle);
            match found {
                Some(i) => {
                    assert(self.entries@[i as int].0 == handle);
                },
                None => {},
            }
        }
        found.is_some()
    }

    /// The record for the handle, if any.
    pub fn lookup(&self, handle: TextureHandle) -> (r: Option<TextureRecord>)
        requires
            self.wf(),
        ensures
            r matches Some(rec) ==> self.as_map().contains_key(handle) && rec == self.as_map()[handle],
            r is None <==> !self.as_map().contains_key(handle),
    {
        proof {
            lemma_entries_map_contains(self.entries@, handle);
        }
        match self.position_of(handle) {
            Some(i) => {
                proof {
                    lemma_entries_map_index(self.entries@, i as int);
                }
                Some(self.entries[i].1)
            },
            None => None,
        }
    }

    /// Number of live records.
    pub fn count(&self) -> (r: usize)
        requires
            self.wf(),
        ensures
            r == self.as_map().dom().len(),
    {
        proof {
            lemma_entries_map_len(self.entries@);
        }
        self.entries.len()
    }

    /// Apply one "set" delta and say what the host must upload.
    ///
    /// A delta with a placement offset patches the existing record's image
    /// in place (the record itself does not change) and is a no-op when the
    /// handle has no record.  A delta without an offset creates a record
    /// with four fresh tokens, replacing any previous record for the
    /// handle; it fails only when the token space is exhausted.
    pub fn apply_set(&mut self, handle: TextureHandle, delta: TextureDelta) -> (r: Result<
        TextureUpload,
        BackendError,
    >)
        requires
            old(self).wf(),
        ensures
            final(self).wf(),
            r is Ok ==> final(self).model() == spec_apply_set(old(self).model(), handle, delta),
            r is Err ==> *final(self) == *old(self),
            r is Err <==> delta.pos is None && old(self).spec_next_token() + 4 > u64::MAX,
            r is Err ==> r == Err::<TextureUpload, BackendError>(BackendError::TokenSpaceExhausted),
            delta.pos matches Some(p) ==> (r matches Ok(u) && (if old(self).as_map().contains_key(
                handle,
            ) {
                u == TextureUpload::Patch {
                    image: old(self).as_map()[handle].image,
                    x: p.0,
                    y: p.1,
                    pixels: delta.image,
                }
            } else {
                u == TextureUpload::Noop
            })),
            delta.pos is None && r is Ok ==> r == Ok::<TextureUpload, BackendError>(
                TextureUpload::Create {
                    handle,
                    record: fresh_record(
                        old(self).spec_next_token(),
                        delta.image.spec_width(),
                        delta.image.spec_height(),
                    ),
                    pixels: delta.image,
                },
            ),
    {
        match delta.pos {
            Some(p) => {
                proof {
                    lemma_entries_map_contains(self.entries@, handle);
                }
                match self.position_of(handle) {
                    Some(i) => {
                        proof {
                            lemma_entries_map_index(self.entries@, i as int);
                        }
                        let rec = self.entries[i].1;
                        Ok(TextureUpload::Patch { image: rec.image, x: p.0, y: p.1, pixels: delta.image })
                    },
                    None => Ok(TextureUpload::Noop),
                }
            },
            None => {
                if self.next_token <= u64::MAX - 4 {
                    let record = TextureRecord {
                        image: self.next_token,
                        view: self.next_token + 1,
                        allocation: self.next_token + 2,
                        desc_set: self.next_token + 3,
                        width: delta.image.width(),
                        height: delta.image.height(),
                    };
                    match self.position_of(handle) {
                        Some(i) => {
                            proof {
                                lemma_entries_map_update(self.entries@, i as int, record);
                            }
                            self.entries.set(i, (handle, record));
                            proof {
                                assert(forall|x: int|
                                    0 <= x < self.entries@.len() ==> #[trigger] self.entries@[x].0
                                        == old(self).entries@[x].0);
                            }
                        },
                        None => {
                            self.entries.push((handle, record));
                            proof {
                                assert(self.entries@.drop_last() =~= old(self).entries@);
                                assert(forall|x: int|
                                    0 <= x < old(self).entries@.len() ==> #[trigger] self.entries@[x]
                                        == old(self).entries@[x]);
                            }
                        },
                    }
                    self.next_token = self.next_token + 4;
                    proof {
                        assert forall|j: int| 0 <= j < self.entries@.len() implies #[trigger] self.entries@[j].1.image
                            < self.next_token && self.entries@[j].1.view < self.next_token
                            && self.entries@[j].1.allocation < self.next_token
                            && self.entries@[j].1.desc_set < self.next_token by {
                            if j < old(self).entries@.len() && self.entries@[j] == old(
                                self,
                            ).entries@[j] {
                                assert(old(self).entries@[j].1.image < old(self).next_token);
                            }
                        }
                    }
                    Ok(TextureUpload::Create { handle, record, pixels: delta.image })
                } else {
                    Err(BackendError::TokenSpaceExhausted)
                }
            },
        }
    }

    /// Apply one "free" delta: remove the handle's record and hand it back
    /// so the host can destroy its objects (descriptor binding, then view,
    /// then image, then allocation).  Freeing a handle with no record is a
    /// no-op and returns nothing.
    pub fn apply_free(&mut self, handle: TextureHandle) -> (r: Option<TextureRecord>)
        requires
            old(self).wf(),
        ensures
            final(self).wf(),
            final(self).model() == spec_apply_free(old(self).model(), handle),
            r matches Some(rec) ==> old(self).as_map().contains_key(handle) && rec == old(
                self,
            ).as_map()[handle],
            r is None <==> !old(self).as_map().contains_key(handle),
    {
        proof {
            lemma_entries_map_contains(self.entries@, handle);
        }
        match self.position_of(handle) {
            Some(i) => {
                proof {
                    lemma_entries_map_index(self.entries@, i as int);
                    lemma_entries_map_remove(self.entries@, i as int);
                }
                let entry = self.entries.remove(i);
                Some(entry.1)
            },
            None => {
                proof {
                    assert(entries_map(self.entries@) =~= entries_map(self.entries@).remove(
                        handle,
                    ));
                }
                None
            },
        }
    }

    /// Remove and return every record, emptying the cache: the teardown
    /// path.  The result lists each live record exactly once.
    pub fn take_records(&mut self) -> (r: Vec<(TextureHandle, TextureRecord)>)
        requires
            old(self).wf(),
        ensures
            final(self).wf(),
            final(self).as_map() == Map::<TextureHandle, TextureRecord>::empty(),
            final(self).spec_next_token() == old(self).spec_next_token(),
            r@.len() == old(self).as_map().dom().len(),
            forall|i: int|
                0 <= i < r@.len() ==> #[trigger] old(self).as_map().contains_key(r@[i].0) && old(
                    self,
                ).as_map()[r@[i].0] == r@[i].1,
            forall|i: int, j: int| 0 <= i < j < r@.len() ==> r@[i].0 != r@[j].0,
    {
        proof {
            lemma_entries_map_len(self.entries@);
        }
        let ghost orig = self.entries@;
        let mut out: Vec<(TextureHandle, TextureRecord)> = Vec::new();
        loop
            invariant
                self.next_token == old(self).next_token,
                distinct_keys(orig),
                out@.len() + self.entries@.len() == orig.len(),
                forall|j: int| 0 <= j < self.entries@.len() ==> self.entries@[j] == orig[j],
                forall|k: int|
                    0 <= k < out@.len() ==> out@[k] == orig[orig.len() - 1 - k],
            ensures
                self.entries@.len() == 0,
                self.next_token == old(self).next_token,
                out@.len() == orig.len(),
                forall|k: int|
                    0 <= k < out@.len() ==> out@[k] == orig[orig.len() - 1 - k],
            decreases self.entries@.len(),
        {
            match self.entries.pop() {
                Some(entry) => {
                    out.push(entry);
                },
                None => {
                    break ;
                },
            }
        }
        proof {
            assert forall|i: int| 0 <= i < out@.len() implies #[trigger] old(
                self,
            ).as_map().contains_key(out@[i].0) && old(self).as_map()[out@[i].0] == out@[i].1 by {
                lemma_entries_map_index(orig, orig.len() - 1 - i);
            }
            assert forall|i: int, j: int| 0 <= i < j < out@.len() implies out@[i].0 != out@[j].0 by {
                assert(orig[orig.len() - 1 - i].0 == out@[i].0);
                assert(orig[orig.len() - 1 - j].0 == out@[j].0);
            }
        }
        out
    }
}

} // verus!
