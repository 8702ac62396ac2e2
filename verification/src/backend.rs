//! The backend instance.
//!
//! One `Backend` owns the bookkeeping of everything the renderer creates on
//! the GPU: the texture cache, the user-texture registry, the per-slot
//! geometry buffers, and the surface state.  Its methods are the per-frame
//! entry points; each returns the exact GPU work the host must perform,
//! while the decisions themselves are verified here.  All methods are
//! called from one thread in frame order; nothing blocks except the
//! texture uploads the host performs for the returned actions.
use vstd::prelude::*;

use crate::actions::GpuObject;
use crate::buffers::ByteBuffer;
use crate::buffers::IndexBuffer;
use crate::errors::BackendError;
use crate::handle::TextureHandle;
use crate::recorder::frame_commands;
use crate::recorder::kept_indices;
use crate::recorder::kept_vertex_bytes;
use crate::recorder::record_frame;
use crate::recorder::stale_handles;
use crate::recorder::DrawCommand;
use crate::recorder::FrameSlot;
use crate::recorder::Primitive;
use crate::surface::spec_teardown;
use crate::surface::spec_update_surface;
use crate::surface::SurfaceState;
use crate::texture_cache::fresh_record;
use crate::texture_cache::spec_apply_free;
use crate::texture_cache::spec_apply_set;
use crate::texture_cache::CacheModel;
use crate::texture_cache::TextureCache;
use crate::texture_cache::TextureDelta;
use crate::texture_cache::TextureRecord;
use crate::texture_cache::TextureUpload;
use crate::user_textures::spec_lookup;
use crate::user_textures::spec_lowest_free;
use crate::user_textures::spec_register;
use crate::user_textures::spec_unregister;
use crate::user_textures::UserTextureRegistry;

verus! {

/// The texture work of one frame: set entries to apply before recording,
/// free entries to apply after it.
pub struct TextureDeltas {
    /// Create or patch instructions, applied in order before the frame's
    /// draws are recorded.
    pub set: Vec<(TextureHandle, TextureDelta)>,
    /// Handles to free, applied in order after recording, so that this
    /// frame's draws could still reference them.
    pub free: Vec<TextureHandle>,
}

/// Everything the host must perform for one painted frame, in order:
/// uploads first, then the command replay, then the frees.
pub struct PaintOutput {
    /// The upload action of each set entry, in the set list's order.
    pub uploads: Vec<TextureUpload>,
    /// The frame's draw commands, to replay in order.
    pub commands: Vec<DrawCommand>,
    /// The stale handles of skipped primitives, for diagnostics.
    pub stale: Vec<TextureHandle>,
    /// The objects of freed textures, to destroy in list order after the
    /// frame's work is submitted.
    pub frees: Vec<GpuObject>,
}

/// The outcome of unregistering a user texture.
#[derive(Clone, Copy, Debug, PartialEq, Eq, Structural)]
pub enum UnregisterOutcome {
    /// The slot was occupied: it is now free and the host must release
    /// this descriptor binding.
    Released(u64),
    /// The slot was already free or never existed: a no-op, worth a
    /// warning.
    AlreadyFree,
    /// The handle names a managed texture, which the registry does not
    /// own: a reported misuse, and a no-op.
    NotUserTexture,
}

/// The cache after a list of set entries, applied left to right.
pub open spec fn spec_apply_set_list(
    m: CacheModel,
    ds: Seq<(TextureHandle, TextureDelta)>,
) -> CacheModel
    decreases ds.len(),
{
    if ds.len() == 0 {
        m
    } else {
        spec_apply_set(spec_apply_set_list(m, ds.drop_last()), ds.last().0, ds.last().1)
    }
}

/// The cache after a list of free entries, applied left to right.
pub open spec fn spec_free_list(m: CacheModel, hs: Seq<TextureHandle>) -> CacheModel
    decreases hs.len(),
{
    if hs.len() == 0 {
        m
    } else {
        spec_apply_free(spec_free_list(m, hs.drop_last()), hs.last())
    }
}

/// No set entry in the list runs out of tokens when applied in order.
pub open spec fn spec_sets_ok(m: CacheModel, ds: Seq<(TextureHandle, TextureDelta)>) -> bool
    decreases ds.len(),
{
    if ds.len() == 0 {
        true
    } else {
        spec_sets_ok(m, ds.drop_last()) && (ds.last().1.pos is None ==> spec_apply_set_list(
            m,
            ds.drop_last(),
        ).next + 4 <= u64::MAX)
    }
}

/// The upload action one set entry produces against a given cache state.
pub open spec fn spec_set_action(m: CacheModel, h: TextureHandle, d: TextureDelta) -> TextureUpload {
    match d.pos {
        Some(p) => if m.map.contains_key(h) {
            TextureUpload::Patch { image: m.map[h].image, x: p.0, y: p.1, pixels: d.image }
        } else {
            TextureUpload::Noop
        },
        None => TextureUpload::Create {
            handle: h,
            record: fresh_record(m.next, d.image.spec_width(), d.image.spec_height()),
            pixels: d.image,
        },
    }
}

/// The objects a freed record gives back, in destruction order: descriptor
/// binding, then view, then image, then allocation.
pub open spec fn free_record_actions(rec: TextureRecord) -> Seq<GpuObject> {
    seq![
        GpuObject::DescriptorSet(rec.desc_set),
        GpuObject::ImageView(rec.view),
        GpuObject::Image(rec.image),
        GpuObject::Allocation(rec.allocation),
    ]
}

/// The destroy actions of a list of free entries, applied in order: for
/// each entry that still has a record, that record's objects.
pub open spec fn spec_free_actions(m: CacheModel, hs: Seq<TextureHandle>) -> Seq<GpuObject>
    decreases hs.len(),
{
    if hs.len() == 0 {
        Seq::empty()
    } else {
        let before = spec_free_list(m, hs.drop_last());
        spec_free_actions(m, hs.drop_last()) + if before.map.contains_key(hs.last()) {
            free_record_actions(before.map[hs.last()])
        } else {
            Seq::empty()
        }
    }
}

/// The backend instance.
pub struct Backend {
    cache: TextureCache,
    users: UserTextureRegistry,
    surface: SurfaceState,
    slots: Vec<FrameSlot>,
    vertex_capacity: usize,
    index_capacity: usize,
}

impl Backend {
    /// The texture cache.
    pub closed spec fn spec_cache(self) -> TextureCache {
        self.cache
    }

    /// The user-texture registry.
    pub closed spec fn spec_users(self) -> UserTextureRegistry {
        self.users
    }

    /// The surface state.
    pub closed spec fn spec_surface(self) -> SurfaceState {
        self.surface
    }

    /// The per-slot geometry buffers.
    pub closed spec fn spec_slots(self) -> Seq<FrameSlot> {
        self.slots@
    }

    /// The fixed byte capacity of each slot's vertex buffer.
    pub closed spec fn spec_vertex_capacity(self) -> int {
        self.vertex_capacity as int
    }

    /// The fixed byte capacity of each slot's index buffer.
    pub closed spec fn spec_index_capacity(self) -> int {
        self.index_capacity as int
    }

    /// Internal consistency: cache and surface well-formed, and every slot
    /// within its capacity, all slots sharing the configured capacities,
    /// which fit the command encoding.
    pub open spec fn wf(self) -> bool {
        &&& self.spec_cache().wf()
        &&& self.spec_surface().wf()
        &&& 0 < self.spec_vertex_capacity() <= i32::MAX
        &&& 0 < self.spec_index_capacity() <= i32::MAX
        &&& forall|i: int|
            0 <= i < self.spec_slots().len() ==> (#[trigger] self.spec_slots()[i]).wf()
                && self.spec_slots()[i].vertices.spec_capacity() == self.spec_vertex_capacity()
                && self.spec_slots()[i].indices.spec_capacity() == self.spec_index_capacity()
    }

    /// Build a backend for a surface of the given size, format and
    /// presentation image count, with one vertex and one index buffer of
    /// the given fixed capacities per presentation image.  Fails only when
    /// the token space cannot hold the surface objects.
    #[verifier::loop_isolation(false)]
    pub fn new(
        width: u32,
        height: u32,
        format: u32,
        image_count: usize,
        vertex_capacity: usize,
        index_capacity: usize,
    ) -> (r: Result<Self, BackendError>)
        requires
            0 < vertex_capacity <= i32::MAX,
            0 < index_capacity <= i32::MAX,
        ensures
            r matches Ok(b) ==> {
                &&& b.wf()
                &&& b.spec_cache().model() == (CacheModel {
                    map: Map::<TextureHandle, TextureRecord>::empty(),
                    next: 0,
                })
                &&& b.spec_users().slots_seq() == Seq::<Option<u64>>::empty()
                &&& b.spec_surface().model() == crate::surface::spec_rebuilt(
                    0,
                    width,
                    height,
                    format,
                    image_count,
                )
                &&& b.spec_slots().len() == image_count
                &&& forall|i: int|
                    0 <= i < image_count ==> (#[trigger] b.spec_slots()[i]).vertices.contents()
                        == Seq::<u8>::empty() && b.spec_slots()[i].indices.contents() == Seq::<
                        u32,
                    >::empty()
                &&& b.spec_vertex_capacity() == vertex_capacity
                &&& b.spec_index_capacity() == index_capacity
            },
            r is Err <==> 2 + 2 * (image_count as int) > u64::MAX,
            r is Err ==> r == Err::<Self, BackendError>(BackendError::TokenSpaceExhausted),
    {
        let surface = match SurfaceState::new(width, height, format, image_count) {
            Ok(s) => s,
            Err(e) => {
                return Err(e);
            },
        };
        let mut slots: Vec<FrameSlot> = Vec::new();
        let mut i: usize = 0;
        while i < image_count
            invariant
                i <= image_count,
                slots@.len() == i,
                forall|j: int|
                    0 <= j < i ==> (#[trigger] slots@[j]).wf() && slots@[j].vertices.spec_capacity()
                        == vertex_capacity && slots@[j].indices.spec_capacity() == index_capacity
                        && slots@[j].vertices.contents() == Seq::<u8>::empty()
                        && slots@[j].indices.contents() == Seq::<u32>::empty(),
            decreases image_count - i,
        {
            slots.push(
                FrameSlot {
                    vertices: ByteBuffer::new(vertex_capacity),
                    indices: IndexBuffer::new(index_capacity),
                },
            );
            i = i + 1;
        }
        Ok(
            Backend {
                cache: TextureCache::new(),
                users: UserTextureRegistry::new(),
                surface,
                slots,
                vertex_capacity,
                index_capacity,
            },
        )
    }

    /// Paint one frame against a presentation image slot.
    ///
    /// In order: the set entries are applied to the texture cache, each
    /// yielding its upload action; the primitives are recorded against the
    /// slot's buffers and the frame's command list; the free entries are
    /// applied last, so the frame's draws may still reference a texture
    /// freed this frame.  Fails with a fatal error when a set entry
    /// exhausts the token space, or when the kept geometry exceeds a
    /// buffer's fixed capacity (an exact fit is allowed); on the latter the
    /// set entries have already been applied and no free entry has.
    #[verifier::loop_isolation(false)]
    pub fn paint(
        &mut self,
        slot_index: usize,
        prims: &Vec<Primitive>,
        deltas: TextureDeltas,
    ) -> (r: Result<PaintOutput, BackendError>)
        requires
            old(self).wf(),
            slot_index < old(self).spec_slots().len(),
            forall|i: int| 0 <= i < prims@.len() ==> (#[trigger] prims@[i]).wf(),
        ensures
            final(self).wf(),
            final(self).spec_users() == old(self).spec_users(),
            final(self).spec_surface() == old(self).spec_surface(),
            final(self).spec_vertex_capacity() == old(self).spec_vertex_capacity(),
            final(self).spec_index_capacity() == old(self).spec_index_capacity(),
            final(self).spec_slots().len() == old(self).spec_slots().len(),
            forall|j: int|
                0 <= j < old(self).spec_slots().len() && j != slot_index ==> #[trigger] final(self).spec_slots()[j]
                    == old(self).spec_slots()[j],
            ({
                let m0 = old(self).spec_cache().model();
                let m1 = spec_apply_set_list(m0, deltas.set@);
                let uslots = old(self).spec_users().slots_seq();
                let width = old(self).spec_surface().model().desc.width;
                let height = old(self).spec_surface().model().desc.height;
                &&& (r matches Ok(out) ==> {
                    &&& final(self).spec_cache().model() == spec_free_list(m1, deltas.free@)
                    &&& out.uploads@.len() == deltas.set@.len()
                    &&& (forall|k: int|
                        0 <= k < deltas.set@.len() ==> out.uploads@[k] == spec_set_action(
                            spec_apply_set_list(m0, deltas.set@.take(k)),
                            (#[trigger] deltas.set@[k]).0,
                            deltas.set@[k].1,
                        ))
                    &&& out.commands@ == frame_commands(
                        slot_index,
                        prims@,
                        m1.map,
                        uslots,
                        width,
                        height,
                    )
                    &&& out.stale@ == stale_handles(prims@, m1.map, uslots)
                    &&& out.frees@ == spec_free_actions(m1, deltas.free@)
                    &&& final(self).spec_slots()[slot_index as int].vertices.contents()
                        == kept_vertex_bytes(prims@, m1.map, uslots)
                    &&& final(self).spec_slots()[slot_index as int].indices.contents()
                        == kept_indices(prims@, m1.map, uslots)
                })
                &&& (r is Ok <==> spec_sets_ok(m0, deltas.set@) && kept_vertex_bytes(
                    prims@,
                    m1.map,
                    uslots,
                ).len() <= old(self).spec_vertex_capacity() && 4 * kept_indices(
                    prims@,
                    m1.map,
                    uslots,
                ).len() <= old(self).spec_index_capacity())
                &&& (!spec_sets_ok(m0, deltas.set@) ==> r == Err::<PaintOutput, BackendError>(
                    BackendError::TokenSpaceExhausted,
                ))
                &&& (r == Err::<PaintOutput, BackendError>(BackendError::GeometryOverflow)
                    ==> final(self).spec_cache().model() == m1)
            }),
    {
        let ghost m0 = self.cache.model();
        let ghost dset = deltas.set@;
        let ghost dfree = deltas.free@;
        let TextureDeltas { set, free } = deltas;
        let mut set_vec = set;
        let free_vec = free;

        // Apply the set entries in order, collecting their upload actions.
        let mut uploads: Vec<TextureUpload> = Vec::new();
        let ghost mut done: int = 0;
        while set_vec.len() > 0
            invariant
                0 <= done <= dset.len(),
                set_vec@ == dset.skip(done),
                self.cache.wf(),
                self.cache.model() == spec_apply_set_list(m0, dset.take(done)),
                spec_sets_ok(m0, dset.take(done)),
                uploads@.len() == done,
                forall|k: int|
                    0 <= k < done ==> uploads@[k] == spec_set_action(
                        spec_apply_set_list(m0, dset.take(k)),
                        (#[trigger] dset[k]).0,
                        dset[k].1,
                    ),
                self.users == old(self).users,
                self.surface == old(self).surface,
                self.slots == old(self).slots,
                self.vertex_capacity == old(self).vertex_capacity,
                self.index_capacity == old(self).index_capacity,
            decreases set_vec@.len(),
        {
            proof {
                assert(dset.take(done + 1).drop_last() =~= dset.take(done));
                assert(dset.take(done + 1).last() == dset[done]);
                assert(set_vec@[0] == dset[done]);
            }
            let (h, d) = set_vec.remove(0);
            match self.cache.apply_set(h, d) {
                Ok(upload) => {
                    uploads.push(upload);
                },
                Err(e) => {
                    proof {
                        assert(!spec_sets_ok(m0, dset.take(done + 1)));
                        lemma_sets_ok_prefix(m0, dset, done + 1);
                    }
                    return Err(e);
                },
            }
            proof {
                assert(set_vec@ =~= dset.skip(done + 1));
                done = done + 1;
            }
        }
        proof {
            assert(dset.take(done) =~= dset);
        }
        let ghost m1 = self.cache.model();

        // Record the frame against the slot's buffers.
        let desc = self.surface.desc();
        let mut slot = self.slots.remove(slot_index);
        let recorded = record_frame(
            &mut slot,
            slot_index,
            &self.cache,
            &self.users,
            prims,
            desc.width,
            desc.height,
        );
        self.slots.insert(slot_index, slot);
        proof {
            assert(self.slots@ =~= old(self).slots@.update(slot_index as int, self.slots@[slot_index as int]));
        }
        let (commands, stale) = match recorded {
            Ok(out) => out,
            Err(e) => {
                return Err(e);
            },
        };

        // Apply the free entries last, collecting the objects to destroy.
        let ghost slots_recorded = self.slots@;
        let mut frees: Vec<GpuObject> = Vec::new();
        let mut fi: usize = 0;
        while fi < free_vec.len()
            invariant
                fi <= free_vec@.len(),
                free_vec@ == dfree,
                self.cache.wf(),
                self.cache.model() == spec_free_list(m1, dfree.take(fi as int)),
                frees@ == spec_free_actions(m1, dfree.take(fi as int)),
                self.users == old(self).users,
                self.surface == old(self).surface,
                self.slots@ == slots_recorded,
                self.vertex_capacity == old(self).vertex_capacity,
                self.index_capacity == old(self).index_capacity,
            decreases free_vec@.len() - fi,
        {
            proof {
                assert(dfree.take(fi as int + 1).drop_last() =~= dfree.take(fi as int));
                assert(dfree.take(fi as int + 1).last() == dfree[fi as int]);
            }
            let h = free_vec[fi];
            match self.cache.apply_free(h) {
                Some(rec) => {
                    frees.push(GpuObject::DescriptorSet(rec.desc_set));
                    frees.push(GpuObject::ImageView(rec.view));
                    frees.push(GpuObject::Image(rec.image));
                    frees.push(GpuObject::Allocation(rec.allocation));
                },
                None => {},
            }
            fi = fi + 1;
        }
        proof {
            assert(dfree.take(fi as int) =~= dfree);
        }
        Ok(PaintOutput { uploads, commands, stale, frees })
    }

    /// Tear down and rebuild the surface-dependent objects for a new size,
    /// format and presentation image set: see `SurfaceState`.  The texture
    /// cache, the registry and the geometry buffers are untouched; the
    /// returned destroy actions cover the old surface objects, in order.
    pub fn update_surface(
        &mut self,
        width: u32,
        height: u32,
        format: u32,
        image_count: usize,
    ) -> (r: Result<Vec<GpuObject>, BackendError>)
        requires
            old(self).wf(),
        ensures
            final(self).wf(),
            final(self).spec_cache() == old(self).spec_cache(),
            final(self).spec_users() == old(self).spec_users(),
            final(self).spec_slots() == old(self).spec_slots(),
            final(self).spec_vertex_capacity() == old(self).spec_vertex_capacity(),
            final(self).spec_index_capacity() == old(self).spec_index_capacity(),
            r matches Ok(destroys) ==> final(self).spec_surface().model() == spec_update_surface(
                old(self).spec_surface().model(),
                width,
                height,
                format,
                image_count,
            ) && destroys@ == spec_teardown(old(self).spec_surface().model()),
            r is Err ==> *final(self) == *old(self) && r == Err::<Vec<GpuObject>, BackendError>(
                BackendError::TokenSpaceExhausted,
            ),
            r is Err <==> old(self).spec_surface().model().next + 2 + 2 * (image_count as int)
                > u64::MAX,
    {
        let r = self.surface.update_surface(width, height, format, image_count);
        proof {
            lemma_slots_wf_preserved(*old(self), *self);
        }
        r
    }

    /// Register an externally owned texture: the host has already created
    /// the descriptor binding for the caller's view and sampler.  The
    /// binding lands in the lowest-index free slot and the slot's index
    /// becomes the texture's User handle.
    pub fn register_user_texture(&mut self, binding: u64) -> (h: TextureHandle)
        requires
            old(self).wf(),
        ensures
            final(self).wf(),
            h == TextureHandle::User(spec_lowest_free(old(self).spec_users().slots_seq()) as u64),
            final(self).spec_users().slots_seq() == spec_register(
                old(self).spec_users().slots_seq(),
                binding,
            ),
            final(self).spec_cache() == old(self).spec_cache(),
            final(self).spec_surface() == old(self).spec_surface(),
            final(self).spec_slots() == old(self).spec_slots(),
            final(self).spec_vertex_capacity() == old(self).spec_vertex_capacity(),
            final(self).spec_index_capacity() == old(self).spec_index_capacity(),
    {
        let id = self.users.register(binding);
        proof {
            lemma_slots_wf_preserved(*old(self), *self);
        }
        TextureHandle::User(id)
    }

    /// Unregister a user texture.  Managed handles are owned by the cache
    /// and cannot be unregistered here: a reported misuse, and a no-op.
    /// An already-free slot is a no-op worth a warning.  Otherwise the
    /// slot is freed and the host must release the returned binding.
    pub fn unregister_user_texture(&mut self, handle: TextureHandle) -> (r: UnregisterOutcome)
        requires
            old(self).wf(),
        ensures
            final(self).wf(),
            handle matches TextureHandle::User(id) ==> {
                &&& final(self).spec_users().slots_seq() == spec_unregister(
                    old(self).spec_users().slots_seq(),
                    id as int,
                )
                &&& (match spec_lookup(old(self).spec_users().slots_seq(), id as int) {
                    Some(b) => r == UnregisterOutcome::Released(b),
                    None => r == UnregisterOutcome::AlreadyFree,
                })
            },
            handle is Managed ==> *final(self) == *old(self) && r
                == UnregisterOutcome::NotUserTexture,
            final(self).spec_cache() == old(self).spec_cache(),
            final(self).spec_surface() == old(self).spec_surface(),
            final(self).spec_slots() == old(self).spec_slots(),
            final(self).spec_vertex_capacity() == old(self).spec_vertex_capacity(),
            final(self).spec_index_capacity() == old(self).spec_index_capacity(),
    {
        let r = match handle {
            TextureHandle::User(id) => {
                match self.users.unregister(id) {
                    Some(binding) => UnregisterOutcome::Released(binding),
                    None => UnregisterOutcome::AlreadyFree,
                }
            },
            TextureHandle::Managed(_) => UnregisterOutcome::NotUserTexture,
        };
        proof {
            lemma_slots_wf_preserved(*old(self), *self);
        }
        r
    }

    /// Number of live managed texture records.
    pub fn texture_count(&self) -> (r: usize)
        requires
            self.wf(),
        ensures
            r == self.spec_cache().as_map().dom().len(),
    {
        self.cache.count()
    }

    /// The record of a managed texture, if the handle is live.
    pub fn texture_record(&self, handle: TextureHandle) -> (r: Option<TextureRecord>)
        requires
            self.wf(),
        ensures
            r matches Some(rec) ==> self.spec_cache().as_map().contains_key(handle) && rec
                == self.spec_cache().as_map()[handle],
            r is None <==> !self.spec_cache().as_map().contains_key(handle),
    {
        self.cache.lookup(handle)
    }

    /// The descriptor binding of a user texture slot, if occupied.
    pub fn user_texture_binding(&self, slot: u64) -> (r: Option<u64>)
        ensures
            r == spec_lookup(self.spec_users().slots_seq(), slot as int),
    {
        self.users.lookup(slot)
    }

    /// The surface state, for the host to read the current tokens and the
    /// value part.
    pub fn surface_state(&self) -> (r: &SurfaceState)
        ensures
            r == self.spec_surface(),
    {
        &self.surface
    }

    /// The geometry written to a slot this frame, for the host to copy
    /// into the slot's mapped buffers: the vertex bytes and the indices.
    pub fn slot_geometry(&self, slot_index: usize) -> (r: (&Vec<u8>, &Vec<u32>))
        requires
            slot_index < self.spec_slots().len(),
        ensures
            r.0@ == self.spec_slots()[slot_index as int].vertices.contents(),
            r.1@ == self.spec_slots()[slot_index as int].indices.contents(),
    {
        (self.slots[slot_index].vertices.written(), self.slots[slot_index].indices.written())
    }

    /// Tear down the whole backend: the fixed objects in documented order,
    /// and every managed texture's record.  For each returned record the
    /// host destroys the view, the image and the allocation; the records'
    /// descriptor bindings die with the descriptor pool.  The cache is
    /// empty afterwards; the caller must guarantee no in-flight GPU work
    /// references any of it.
    #[verifier::loop_isolation(false)]
    pub fn destroy(&mut self) -> (r: (Vec<GpuObject>, Vec<(TextureHandle, TextureRecord)>))
        requires
            old(self).wf(),
        ensures
            final(self).wf(),
            r.0@ == spec_destroy_fixed(
                old(self).spec_slots().len() as int,
                old(self).spec_surface().model(),
            ),
            r.1@.len() == old(self).spec_cache().as_map().dom().len(),
            forall|i: int|
                0 <= i < r.1@.len() ==> #[trigger] old(self).spec_cache().as_map().contains_key(
                    r.1@[i].0,
                ) && old(self).spec_cache().as_map()[r.1@[i].0] == r.1@[i].1,
            forall|i: int, j: int| 0 <= i < j < r.1@.len() ==> r.1@[i].0 != r.1@[j].0,
            final(self).spec_cache().as_map() == Map::<TextureHandle, TextureRecord>::empty(),
    {
        let n = self.slots.len();
        let mut fixed: Vec<GpuObject> = Vec::new();
        fixed.push(GpuObject::UserTextureLayout);
        let ghost head = seq![GpuObject::UserTextureLayout];

        let mut i: usize = 0;
        while i < n
            invariant
                i <= n,
                fixed@ == head + index_buffer_actions(i as int),
            decreases n - i,
        {
            fixed.push(GpuObject::IndexBuffer(i));
            fixed.push(GpuObject::IndexBufferMemory(i));
            proof {
                assert(fixed@ =~= head + index_buffer_actions(i as int + 1));
            }
            i = i + 1;
        }
        let ghost head = head + index_buffer_actions(n as int);

        let mut i: usize = 0;
        while i < n
            invariant
                i <= n,
                fixed@ == head + vertex_buffer_actions(i as int),
            decreases n - i,
        {
            fixed.push(GpuObject::VertexBuffer(i));
            fixed.push(GpuObject::VertexBufferMemory(i));
            proof {
                assert(fixed@ =~= head + vertex_buffer_actions(i as int + 1));
            }
            i = i + 1;
        }
        let ghost head = head + vertex_buffer_actions(n as int);

        let mut surface_part = self.surface.teardown_actions();
        fixed.append(&mut surface_part);
        fixed.push(GpuObject::Sampler);
        fixed.push(GpuObject::PipelineLayout);
        let ghost head = head + spec_teardown(self.surface.model()) + seq![
            GpuObject::Sampler,
            GpuObject::PipelineLayout,
        ];
        proof {
            assert(fixed@ =~= head);
        }

        let mut i: usize = 0;
        while i < n
            invariant
                i <= n,
                fixed@ == head + layout_actions(i as int),
            decreases n - i,
        {
            fixed.push(GpuObject::DescriptorSetLayout(i));
            proof {
                assert(fixed@ =~= head + layout_actions(i as int + 1));
            }
            i = i + 1;
        }
        fixed.push(GpuObject::DescriptorPool);
        proof {
            assert(fixed@ =~= spec_destroy_fixed(n as int, old(self).spec_surface().model()));
        }

        let records = self.cache.take_records();
        proof {
            lemma_slots_wf_preserved(*old(self), *self);
        }
        (fixed, records)
    }
}

/// The destroy actions of one texture record on teardown, in order: the
/// view, the image, the allocation.  The record's descriptor binding is
/// not listed: it dies with the descriptor pool.
pub fn record_teardown_actions(rec: &TextureRecord) -> (r: Vec<GpuObject>)
    ensures
        r@ == seq![
            GpuObject::ImageView(rec.view),
            GpuObject::Image(rec.image),
            GpuObject::Allocation(rec.allocation),
        ],
{
    let mut out: Vec<GpuObject> = Vec::new();
    out.push(GpuObject::ImageView(rec.view));
    out.push(GpuObject::Image(rec.image));
    out.push(GpuObject::Allocation(rec.allocation));
    proof {
        assert(out@ =~= seq![
            GpuObject::ImageView(rec.view),
            GpuObject::Image(rec.image),
            GpuObject::Allocation(rec.allocation),
        ]);
    }
    out
}

/// The per-slot index buffer destroy actions: for each slot, the buffer,
/// then its memory allocation.
pub open spec fn index_buffer_actions(n: int) -> Seq<GpuObject>
    decreases n,
{
    if n <= 0 {
        Seq::empty()
    } else {
        index_buffer_actions(n - 1) + seq![
            GpuObject::IndexBuffer((n - 1) as usize),
            GpuObject::IndexBufferMemory((n - 1) as usize),
        ]
    }
}

/// The per-slot vertex buffer destroy actions: for each slot, the buffer,
/// then its memory allocation.
pub open spec fn vertex_buffer_actions(n: int) -> Seq<GpuObject>
    decreases n,
{
    if n <= 0 {
        Seq::empty()
    } else {
        vertex_buffer_actions(n - 1) + seq![
            GpuObject::VertexBuffer((n - 1) as usize),
            GpuObject::VertexBufferMemory((n - 1) as usize),
        ]
    }
}

/// The per-image descriptor set layout destroy actions.
pub open spec fn layout_actions(n: int) -> Seq<GpuObject>
    decreases n,
{
    if n <= 0 {
        Seq::empty()
    } else {
        layout_actions(n - 1) + seq![GpuObject::DescriptorSetLayout((n - 1) as usize)]
    }
}

/// The fixed teardown list: the user-texture layout, the per-slot buffers
/// with their memory, the surface objects (render pass, pipeline,
/// framebuffers, then views), the sampler, the pipeline layout, the
/// per-image descriptor set layouts, and the descriptor pool last.  The
/// managed textures' objects follow separately; their descriptor bindings
/// die with the pool.
pub open spec fn spec_destroy_fixed(n: int, m: crate::surface::SurfaceModel) -> Seq<GpuObject> {
    seq![GpuObject::UserTextureLayout] + index_buffer_actions(n) + vertex_buffer_actions(n)
        + spec_teardown(m) + seq![GpuObject::Sampler, GpuObject::PipelineLayout] + layout_actions(n)
        + seq![GpuObject::DescriptorPool]
}

/// Well-formedness is preserved by any mutation that leaves the slots and
/// their configured capacities alone, as long as the cache and surface stay
/// well-formed.
proof fn lemma_slots_wf_preserved(a: Backend, b: Backend)
    requires
        a.wf(),
        b.spec_cache().wf(),
        b.spec_surface().wf(),
        b.spec_slots() == a.spec_slots(),
        b.spec_vertex_capacity() == a.spec_vertex_capacity(),
        b.spec_index_capacity() == a.spec_index_capacity(),
    ensures
        b.wf(),
{
    assert forall|i: int| 0 <= i < b.spec_slots().len() implies (#[trigger] b.spec_slots()[i]).wf()
        && b.spec_slots()[i].vertices.spec_capacity() == b.spec_vertex_capacity()
        && b.spec_slots()[i].indices.spec_capacity() == b.spec_index_capacity() by {
        assert((#[trigger] a.spec_slots()[i]).wf() && a.spec_slots()[i].vertices.spec_capacity()
            == a.spec_vertex_capacity() && a.spec_slots()[i].indices.spec_capacity()
            == a.spec_index_capacity());
        assert(b.spec_slots()[i] == a.spec_slots()[i]);
    }
}

/// A set list that fails at or before `n` entries fails as a whole:
/// exhaustion is never cured by later entries.
proof fn lemma_sets_ok_prefix(m: CacheModel, ds: Seq<(TextureHandle, TextureDelta)>, n: int)
    requires
        0 <= n <= ds.len(),
        !spec_sets_ok(m, ds.take(n)),
    ensures
        !spec_sets_ok(m, ds),
    decreases ds.len() - n,
{
    if n == ds.len() {
        assert(ds.take(n) =~= ds);
    } else {
        assert(ds.take(n + 1).drop_last() =~= ds.take(n));
        lemma_sets_ok_prefix(m, ds, n + 1);
    }
}

} // verus!
