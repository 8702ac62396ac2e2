//! The frame recorder.
//!
//! The recorder consumes the frame's primitive list in order, writes each
//! kept primitive's geometry into the slot's fixed-capacity buffers through
//! the write cursor, and emits the draw command sequence for the host to
//! replay: draw order is exactly input order (the UI encodes z-ordering by
//! submission order), every scissor rectangle is clamped to the surface,
//! and geometry that would overflow the slot's capacity aborts the frame
//! with a fatal error instead of writing past the region.
//!
//! A primitive with no vertices or no indices is skipped silently; one
//! whose texture handle resolves to no binding is skipped and reported as
//! stale.
use vstd::prelude::*;

use crate::buffers::ByteBuffer;
use crate::buffers::IndexBuffer;
use crate::errors::BackendError;
use crate::handle::TextureHandle;
use crate::scissor::clamp_scissor;
use crate::scissor::spec_clamp_scissor;
use crate::scissor::ScissorRect;
use crate::texture_cache::TextureCache;
use crate::texture_cache::TextureRecord;
use crate::user_textures::spec_lookup;
use crate::user_textures::UserTextureRegistry;

verus! {

/// Bytes of one vertex: two position floats, two texture coordinate
/// floats, four color bytes.
pub const VERTEX_STRIDE: usize = 20;

/// One drawable unit: a clip rectangle in physical pixels (the host has
/// already applied the UI scale factor), a texture handle, and a triangle
/// mesh as raw vertex bytes plus indices.
pub struct Primitive {
    /// Left edge of the clip rectangle, in physical pixels.
    pub clip_min_x: i64,
    /// Top edge of the clip rectangle, in physical pixels.
    pub clip_min_y: i64,
    /// Right edge of the clip rectangle, in physical pixels.
    pub clip_max_x: i64,
    /// Bottom edge of the clip rectangle, in physical pixels.
    pub clip_max_y: i64,
    /// The texture the mesh is bound to.
    pub texture: TextureHandle,
    /// Number of vertices in the mesh.
    pub vertex_count: u32,
    /// The vertices' bytes, `VERTEX_STRIDE` per vertex.
    pub vertex_bytes: Vec<u8>,
    /// The mesh's indices into its vertices.
    pub indices: Vec<u32>,
}

impl Primitive {
    /// The vertex bytes match the vertex count.
    pub open spec fn wf(self) -> bool {
        self.vertex_bytes@.len() == (self.vertex_count as int) * (VERTEX_STRIDE as int)
    }
}

/// One recorded command, replayed in order by the host against its command
/// recording context.
#[derive(Clone, Copy, Debug, PartialEq, Eq, Structural)]
pub enum DrawCommand {
    /// Begin the render pass on the slot's framebuffer, over the whole
    /// surface.
    BeginRenderPass {
        /// The presentation image slot.
        slot: usize,
        /// Physical width of the surface.
        width: u32,
        /// Physical height of the surface.
        height: u32,
    },
    /// Bind the shared graphics pipeline.
    BindPipeline,
    /// Bind the slot's vertex and index buffers at offset zero.
    BindBuffers {
        /// The presentation image slot.
        slot: usize,
    },
    /// Set the viewport to the full surface.
    SetViewport {
        /// Physical width of the surface.
        width: u32,
        /// Physical height of the surface.
        height: u32,
    },
    /// Push the surface size in UI points (physical size divided by the
    /// scale factor, a conversion the host performs) as shader constants.
    PushScreenSize {
        /// Physical width of the surface.
        width: u32,
        /// Physical height of the surface.
        height: u32,
    },
    /// Bind the descriptor binding of the next draw's texture.
    BindTexture {
        /// The descriptor binding.
        desc_set: u64,
    },
    /// Set the scissor rectangle, already clamped to the surface.
    SetScissor {
        /// The scissor rectangle.
        rect: ScissorRect,
    },
    /// Draw the mesh just written to the buffers, at the cumulative offsets.
    DrawIndexed {
        /// Number of indices of this mesh.
        index_count: u32,
        /// Index offset: indices of earlier kept primitives this frame.
        first_index: u32,
        /// Vertex offset: vertices of earlier kept primitives this frame.
        vertex_offset: i32,
    },
    /// End the render pass.
    EndRenderPass,
}

/// The geometry buffers of one presentation image slot.
pub struct FrameSlot {
    /// The slot's vertex bytes.
    pub vertices: ByteBuffer,
    /// The slot's indices.
    pub indices: IndexBuffer,
}

impl FrameSlot {
    /// Both write cursors are within capacity.
    pub open spec fn wf(self) -> bool {
        self.vertices.wf() && self.indices.wf()
    }
}

/// The descriptor binding a handle resolves to: a User handle through the
/// registry's slot table, a Managed handle through the texture cache.
pub open spec fn resolve_binding(
    h: TextureHandle,
    textures: Map<TextureHandle, TextureRecord>,
    users: Seq<Option<u64>>,
) -> Option<u64> {
    match h {
        TextureHandle::User(id) => spec_lookup(users, id as int),
        TextureHandle::Managed(_) => if textures.contains_key(h) {
            Some(textures[h].desc_set)
        } else {
            None
        },
    }
}

/// A primitive with an empty vertex or index list is skipped silently.
pub open spec fn prim_nonempty(p: Primitive) -> bool {
    p.vertex_count > 0 && p.indices@.len() > 0
}

/// A primitive is drawn when it has geometry and its handle resolves.
pub open spec fn prim_kept(
    p: Primitive,
    textures: Map<TextureHandle, TextureRecord>,
    users: Seq<Option<u64>>,
) -> bool {
    prim_nonempty(p) && resolve_binding(p.texture, textures, users) is Some
}

/// A nonempty primitive whose handle resolves to nothing is skipped and
/// reported: a stale reference.
pub open spec fn prim_stale(
    p: Primitive,
    textures: Map<TextureHandle, TextureRecord>,
    users: Seq<Option<u64>>,
) -> bool {
    prim_nonempty(p) && resolve_binding(p.texture, textures, users) is None
}

/// The vertex bytes of the kept primitives, concatenated in order.
pub open spec fn kept_vertex_bytes(
    prims: Seq<Primitive>,
    textures: Map<TextureHandle, TextureRecord>,
    users: Seq<Option<u64>>,
) -> Seq<u8>
    decreases prims.len(),
{
    if prims.len() == 0 {
        Seq::empty()
    } else {
        kept_vertex_bytes(prims.drop_last(), textures, users) + if prim_kept(
            prims.last(),
            textures,
            users,
        ) {
            prims.last().vertex_bytes@
        } else {
            Seq::empty()
        }
    }
}

/// The indices of the kept primitives, concatenated in order.
pub open spec fn kept_indices(
    prims: Seq<Primitive>,
    textures: Map<TextureHandle, TextureRecord>,
    users: Seq<Option<u64>>,
) -> Seq<u32>
    decreases prims.len(),
{
    if prims.len() == 0 {
        Seq::empty()
    } else {
        kept_indices(prims.drop_last(), textures, users) + if prim_kept(
            prims.last(),
            textures,
            users,
        ) {
            prims.last().indices@
        } else {
            Seq::empty()
        }
    }
}

/// Total vertices of the kept primitives.
pub open spec fn kept_vertex_total(
    prims: Seq<Primitive>,
    textures: Map<TextureHandle, TextureRecord>,
    users: Seq<Option<u64>>,
) -> int
    decreases prims.len(),
{
    if prims.len() == 0 {
        0
    } else {
        kept_vertex_total(prims.drop_last(), textures, users) + if prim_kept(
            prims.last(),
            textures,
            users,
        ) {
            prims.last().vertex_count as int
        } else {
            0
        }
    }
}

/// The stale handles of the frame, one per skipped nonempty primitive, in
/// order.
pub open spec fn stale_handles(
    prims: Seq<Primitive>,
    textures: Map<TextureHandle, TextureRecord>,
    users: Seq<Option<u64>>,
) -> Seq<TextureHandle>
    decreases prims.len(),
{
    if prims.len() == 0 {
        Seq::empty()
    } else {
        stale_handles(prims.drop_last(), textures, users) + if prim_stale(
            prims.last(),
            textures,
            users,
        ) {
            seq![prims.last().texture]
        } else {
            Seq::empty()
        }
    }
}

/// The per-mesh commands of the frame: for each kept primitive, in input
/// order, bind its texture, set its clamped scissor, and draw it at the
/// cumulative offsets.
pub open spec fn mesh_commands(
    prims: Seq<Primitive>,
    textures: Map<TextureHandle, TextureRecord>,
    users: Seq<Option<u64>>,
    width: u32,
    height: u32,
) -> Seq<DrawCommand>
    decreases prims.len(),
{
    if prims.len() == 0 {
        Seq::empty()
    } else {
        let earlier = prims.drop_last();
        let p = prims.last();
        mesh_commands(earlier, textures, users, width, height) + if prim_kept(
            p,
            textures,
            users,
        ) {
            seq![
                DrawCommand::BindTexture {
                    desc_set: resolve_binding(p.texture, textures, users)->0,
                },
                DrawCommand::SetScissor {
                    rect: spec_clamp_scissor(
                        p.clip_min_x as int,
                        p.clip_min_y as int,
                        p.clip_max_x as int,
                        p.clip_max_y as int,
                        width as int,
                        height as int,
                    ),
                },
                DrawCommand::DrawIndexed {
                    index_count: p.indices@.len() as u32,
                    first_index: kept_indices(earlier, textures, users).len() as u32,
                    vertex_offset: kept_vertex_total(earlier, textures, users) as i32,
                },
            ]
        } else {
            Seq::empty()
        }
    }
}

/// The frame's full command sequence: begin the pass, bind the shared
/// state, then the per-mesh commands, then end the pass.
pub open spec fn frame_commands(
    slot_index: usize,
    prims: Seq<Primitive>,
    textures: Map<TextureHandle, TextureRecord>,
    users: Seq<Option<u64>>,
    width: u32,
    height: u32,
) -> Seq<DrawCommand> {
    seq![
        DrawCommand::BeginRenderPass { slot: slot_index, width, height },
        DrawCommand::BindPipeline,
        DrawCommand::BindBuffers { slot: slot_index },
        DrawCommand::SetViewport { width, height },
        DrawCommand::PushScreenSize { width, height },
    ] + mesh_commands(prims, textures, users, width, height) + seq![DrawCommand::EndRenderPass]
}

/// Prefix totals never shrink: the kept geometry of a prefix is bounded by
/// the kept geometry of the whole list.
proof fn lemma_kept_prefix_bounds(
    prims: Seq<Primitive>,
    textures: Map<TextureHandle, TextureRecord>,
    users: Seq<Option<u64>>,
    i: int,
)
    requires
        0 <= i <= prims.len(),
    ensures
        kept_vertex_bytes(prims.take(i), textures, users).len() <= kept_vertex_bytes(
            prims,
            textures,
            users,
        ).len(),
        kept_indices(prims.take(i), textures, users).len() <= kept_indices(
            prims,
            textures,
            users,
        ).len(),
    decreases prims.len() - i,
{
    if i == prims.len() {
        assert(prims.take(i) =~= prims);
    } else {
        lemma_kept_prefix_bounds(prims, textures, users, i + 1);
        assert(prims.take(i + 1).drop_last() =~= prims.take(i));
        assert(prims.take(i + 1).last() == prims[i]);
    }
}

/// Record one frame against a slot's buffers.
///
/// On success the buffers hold exactly the kept primitives' geometry, the
/// command list is exactly `frame_commands`, and the stale handles are
/// reported in order.  The frame fails exactly when the kept geometry
/// exceeds a buffer's fixed capacity; the buffers' capacities are never
/// changed either way.
#[verifier::loop_isolation(false)]
pub fn record_frame(
    slot: &mut FrameSlot,
    slot_index: usize,
    textures: &TextureCache,
    users: &UserTextureRegistry,
    prims: &Vec<Primitive>,
    width: u32,
    height: u32,
) -> (r: Result<(Vec<DrawCommand>, Vec<TextureHandle>), BackendError>)
    requires
        textures.wf(),
        old(slot).wf(),
        old(slot).vertices.spec_capacity() <= i32::MAX,
        old(slot).indices.spec_capacity() <= i32::MAX,
        forall|i: int| 0 <= i < prims@.len() ==> #[trigger] prims@[i].wf(),
    ensures
        final(slot).wf(),
        final(slot).vertices.spec_capacity() == old(slot).vertices.spec_capacity(),
        final(slot).indices.spec_capacity() == old(slot).indices.spec_capacity(),
        r matches Ok(out) ==> {
            &&& out.0@ == frame_commands(
                slot_index,
                prims@,
                textures.as_map(),
                users.slots_seq(),
                width,
                height,
            )
            &&& out.1@ == stale_handles(prims@, textures.as_map(), users.slots_seq())
            &&& final(slot).vertices.contents() == kept_vertex_bytes(
                prims@,
                textures.as_map(),
                users.slots_seq(),
            )
            &&& final(slot).indices.contents() == kept_indices(
                prims@,
                textures.as_map(),
                users.slots_seq(),
            )
        },
        r is Ok <==> kept_vertex_bytes(prims@, textures.as_map(), users.slots_seq()).len() <= old(
            slot,
        ).vertices.spec_capacity() && 4 * kept_indices(
            prims@,
            textures.as_map(),
            users.slots_seq(),
        ).len() <= old(slot).indices.spec_capacity(),
        r is Err ==> r == Err::<(Vec<DrawCommand>, Vec<TextureHandle>), BackendError>(
            BackendError::GeometryOverflow,
        ),
{
    let ghost tmap = textures.as_map();
    let ghost uslots = users.slots_seq();

    slot.vertices.reset();
    slot.indices.reset();

    let mut cmds: Vec<DrawCommand> = Vec::new();
    cmds.push(DrawCommand::BeginRenderPass { slot: slot_index, width, height });
    cmds.push(DrawCommand::BindPipeline);
    cmds.push(DrawCommand::BindBuffers { slot: slot_index });
    cmds.push(DrawCommand::SetViewport { width, height });
    cmds.push(DrawCommand::PushScreenSize { width, height });
    let ghost prologue = cmds@;

    let mut stale: Vec<TextureHandle> = Vec::new();
    let mut vertex_base: u32 = 0;
    let mut index_base: u32 = 0;

    let mut i: usize = 0;
    while i < prims.len()
        invariant
            i <= prims@.len(),
            slot.wf(),
            slot.vertices.spec_capacity() == old(slot).vertices.spec_capacity(),
            slot.indices.spec_capacity() == old(slot).indices.spec_capacity(),
            slot.vertices.contents() == kept_vertex_bytes(prims@.take(i as int), tmap, uslots),
            slot.indices.contents() == kept_indices(prims@.take(i as int), tmap, uslots),
            vertex_base == kept_vertex_total(prims@.take(i as int), tmap, uslots),
            index_base == kept_indices(prims@.take(i as int), tmap, uslots).len(),
            (VERTEX_STRIDE as int) * (vertex_base as int) == slot.vertices.contents().len(),
            cmds@ == prologue + mesh_commands(prims@.take(i as int), tmap, uslots, width, height),
            stale@ == stale_handles(prims@.take(i as int), tmap, uslots),
        decreases prims@.len() - i,
    {
        let ghost prefix = prims@.take(i as int);
        let ghost next_prefix = prims@.take(i as int + 1);
        proof {
            assert(next_prefix.drop_last() =~= prefix);
            assert(next_prefix.last() == prims@[i as int]);
        }
        let p = &prims[i];
        if p.vertex_count == 0 || p.indices.len() == 0 {
            i = i + 1;
            continue ;
        }
        let binding: Option<u64> = match p.texture {
            TextureHandle::User(id) => users.lookup(id),
            TextureHandle::Managed(_) => {
                match textures.lookup(p.texture) {
                    Some(rec) => Some(rec.desc_set),
                    None => None,
                }
            },
        };
        proof {
            assert(binding == resolve_binding(prims@[i as int].texture, tmap, uslots));
        }
        match binding {
            None => {
                stale.push(p.texture);
                i = i + 1;
                continue ;
            },
            Some(desc_set) => {
                if slot.vertices.append(&p.vertex_bytes).is_err() {
                    proof {
                        lemma_kept_prefix_bounds(prims@, tmap, uslots, i as int + 1);
                    }
                    return Err(BackendError::GeometryOverflow);
                }
                if slot.indices.append(&p.indices).is_err() {
                    proof {
                        lemma_kept_prefix_bounds(prims@, tmap, uslots, i as int + 1);
                    }
                    return Err(BackendError::GeometryOverflow);
                }
                cmds.push(DrawCommand::BindTexture { desc_set });
                let rect = clamp_scissor(
                    p.clip_min_x,
                    p.clip_min_y,
                    p.clip_max_x,
                    p.clip_max_y,
                    width,
                    height,
                );
                cmds.push(DrawCommand::SetScissor { rect });
                cmds.push(
                    DrawCommand::DrawIndexed {
                        index_count: p.indices.len() as u32,
                        first_index: index_base,
                        vertex_offset: vertex_base as i32,
                    },
                );
                proof {
                    assert(prims@[i as int].wf());
                    assert((VERTEX_STRIDE as int) * ((vertex_base + p.vertex_count) as int)
                        == slot.vertices.contents().len()) by (nonlinear_arith)
                        requires
                            slot.vertices.contents().len() == (VERTEX_STRIDE as int) * (
                            vertex_base as int) + prims@[i as int].vertex_bytes@.len(),
                            prims@[i as int].vertex_bytes@.len() == (prims@[i as int].vertex_count
                                as int) * (VERTEX_STRIDE as int),
                            prims@[i as int].vertex_count == p.vertex_count,
                    ;
                }
                vertex_base = vertex_base + p.vertex_count;
                index_base = index_base + (p.indices.len() as u32);
            },
        }
        i = i + 1;
    }
    proof {
        assert(prims@.take(prims@.len() as int) =~= prims@);
    }
    cmds.push(DrawCommand::EndRenderPass);
    proof {
        assert(cmds@ =~= frame_commands(slot_index, prims@, tmap, uslots, width, height));
    }
    Ok((cmds, stale))
}

} // verus!
