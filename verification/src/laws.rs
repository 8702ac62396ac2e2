//! Laws of the backend, stated over the ghost models and proved once for
//! all inputs.
use vstd::prelude::*;

use crate::backend::spec_set_action;
use crate::recorder::kept_vertex_total;
use crate::recorder::mesh_commands;
use crate::recorder::prim_kept;
use crate::recorder::Primitive;
use crate::recorder::DrawCommand;
use crate::scissor::spec_clamp_scissor;
use crate::surface::spec_update_surface;
use crate::surface::SurfaceDesc;
use crate::surface::SurfaceModel;
use crate::texture_cache::fresh_record;
use crate::texture_cache::spec_apply_free;
use crate::texture_cache::spec_apply_set;
use crate::texture_cache::CacheModel;
use crate::texture_cache::TextureDelta;
use crate::texture_cache::TextureRecord;
use crate::texture_cache::TextureUpload;
use crate::handle::TextureHandle;
use crate::user_textures::lemma_lowest_free_bounds;
use crate::user_textures::spec_lowest_free;
use crate::user_textures::spec_register;
use crate::user_textures::spec_unregister;

verus! {

/// The cache after a sequence of set deltas, all addressed to one handle,
/// applied left to right.
pub open spec fn spec_apply_sets_on(
    m: CacheModel,
    h: TextureHandle,
    ds: Seq<TextureDelta>,
) -> CacheModel
    decreases ds.len(),
{
    if ds.len() == 0 {
        m
    } else {
        spec_apply_set(spec_apply_sets_on(m, h, ds.drop_last()), h, ds.last())
    }
}

/// After any sequence of set deltas on a handle followed by a free of that
/// handle, the cache holds no record for it; and a subsequent full set on
/// the same handle behaves as a fresh creation: it inserts a record built
/// from the then-fresh tokens and the new image's extent, exactly as it
/// would into a cache that never saw the handle.
pub proof fn lemma_set_free_round_trip(
    m: CacheModel,
    h: TextureHandle,
    ds: Seq<TextureDelta>,
    d: TextureDelta,
)
    requires
        d.pos is None,
    ensures
        ({
            let freed = spec_apply_free(spec_apply_sets_on(m, h, ds), h);
            let reborn = spec_apply_set(freed, h, d);
            &&& !freed.map.contains_key(h)
            &&& reborn.map.contains_key(h)
            &&& reborn.map[h] == fresh_record(
                freed.next,
                d.image.spec_width(),
                d.image.spec_height(),
            )
            &&& reborn.map == freed.map.insert(h, reborn.map[h])
        }),
{
}

/// A set delta carrying a placement offset never changes the cache model;
/// against a handle with no record it is a complete no-op, its upload
/// action included.
pub proof fn lemma_patch_without_record_is_noop(m: CacheModel, h: TextureHandle, d: TextureDelta)
    requires
        d.pos is Some,
    ensures
        spec_apply_set(m, h, d) == m,
        !m.map.contains_key(h) ==> spec_set_action(m, h, d) == TextureUpload::Noop,
{
}

/// The kept primitives of a list: those that are drawn, in input order.
pub open spec fn kept_prims(
    prims: Seq<Primitive>,
    textures: Map<TextureHandle, TextureRecord>,
    users: Seq<Option<u64>>,
) -> Seq<Primitive>
    decreases prims.len(),
{
    if prims.len() == 0 {
        Seq::empty()
    } else {
        kept_prims(prims.drop_last(), textures, users) + if prim_kept(
            prims.last(),
            textures,
            users,
        ) {
            seq![prims.last()]
        } else {
            Seq::empty()
        }
    }
}

/// The draw calls of a command sequence, in order.
pub open spec fn draw_calls(cmds: Seq<DrawCommand>) -> Seq<DrawCommand>
    decreases cmds.len(),
{
    if cmds.len() == 0 {
        Seq::empty()
    } else {
        draw_calls(cmds.drop_last()) + if cmds.last() is DrawIndexed {
            seq![cmds.last()]
        } else {
            Seq::empty()
        }
    }
}

/// Draw order is input order, and every scissor lies within the surface.
///
/// For any primitive list, the emitted draw calls are one per kept
/// primitive, in the same order: the k-th draw call draws the k-th kept
/// primitive's index count.  And every scissor command's rectangle is
/// clamped within `[0, surface]`, its extent reaching no further than the
/// surface on either axis (so its max corner is at least its min corner).
pub proof fn lemma_draw_order_and_scissor_bounds(
    prims: Seq<Primitive>,
    textures: Map<TextureHandle, TextureRecord>,
    users: Seq<Option<u64>>,
    width: u32,
    height: u32,
)
    ensures
        ({
            let cmds = mesh_commands(prims, textures, users, width, height);
            let kept = kept_prims(prims, textures, users);
            let draws = draw_calls(cmds);
            &&& draws.len() == kept.len()
            &&& (forall|k: int|
                0 <= k < kept.len() ==> (#[trigger] draws[k])->index_count == kept[k].indices@.len()
                    as u32)
            &&& (forall|k: int|
                0 <= k < cmds.len() && (#[trigger] cmds[k]) is SetScissor ==> cmds[k]->rect.x
                    + cmds[k]->rect.width <= width && cmds[k]->rect.y + cmds[k]->rect.height
                    <= height)
        }),
    decreases prims.len(),
{
    if prims.len() > 0 {
        let earlier = prims.drop_last();
        let p = prims.last();
        lemma_draw_order_and_scissor_bounds(earlier, textures, users, width, height);
        let head = mesh_commands(earlier, textures, users, width, height);
        let cmds = mesh_commands(prims, textures, users, width, height);
        if prim_kept(p, textures, users) {
            let bind = DrawCommand::BindTexture {
                desc_set: crate::recorder::resolve_binding(p.texture, textures, users)->0,
            };
            let rect = spec_clamp_scissor(
                p.clip_min_x as int,
                p.clip_min_y as int,
                p.clip_max_x as int,
                p.clip_max_y as int,
                width as int,
                height as int,
            );
            let scis = DrawCommand::SetScissor { rect };
            let draw = DrawCommand::DrawIndexed {
                index_count: p.indices@.len() as u32,
                first_index: crate::recorder::kept_indices(earlier, textures, users).len() as u32,
                vertex_offset: kept_vertex_total(earlier, textures, users) as i32,
            };
            assert(cmds =~= head + seq![bind, scis, draw]);
            assert(cmds.drop_last() =~= head + seq![bind, scis]);
            assert(cmds.drop_last().drop_last() =~= head + seq![bind]);
            assert(cmds.drop_last().drop_last().drop_last() =~= head);
            assert(draw_calls(cmds.drop_last()) =~= draw_calls(cmds.drop_last().drop_last()));
            assert(draw_calls(cmds.drop_last().drop_last()) =~= draw_calls(head));
            assert(draw_calls(cmds) =~= draw_calls(head) + seq![draw]);
            crate::scissor::lemma_scissor_in_bounds(
                p.clip_min_x as int,
                p.clip_min_y as int,
                p.clip_max_x as int,
                p.clip_max_y as int,
                width as int,
                height as int,
            );
        } else {
            assert(cmds =~= head);
            assert(kept_prims(prims, textures, users) =~= kept_prims(earlier, textures, users));
        }
    }
}

/// Slot reuse: registering into a table, unregistering that same slot, and
/// registering again lands in the same slot.  The second registration
/// receives the first one's former index.
pub proof fn lemma_slot_reuse(s: Seq<Option<u64>>, a: u64, b: u64)
    ensures
        ({
            let i = spec_lowest_free(s);
            let s1 = spec_register(s, a);
            let s2 = spec_unregister(s1, i);
            spec_lowest_free(s2) == i
        }),
{
    let i = spec_lowest_free(s);
    let s1 = spec_register(s, a);
    let s2 = spec_unregister(s1, i);
    lemma_lowest_free_bounds(s);
    assert(0 <= i < s2.len());
    assert(forall|j: int| 0 <= j < i ==> s2[j] == s[j]);
    assert(s2[i] is None);
    crate::user_textures::lemma_lowest_free_characterization(s2, i);
}

/// Resize idempotence: two rebuilds with the same parameters produce the
/// same surface value (size, format, image count) as one; only the
/// backing tokens differ, of which nothing is claimed.
pub proof fn lemma_resize_idempotent(
    m: SurfaceModel,
    width: u32,
    height: u32,
    format: u32,
    image_count: usize,
)
    ensures
        spec_update_surface(
            spec_update_surface(m, width, height, format, image_count),
            width,
            height,
            format,
            image_count,
        ).desc == spec_update_surface(m, width, height, format, image_count).desc,
        spec_update_surface(m, width, height, format, image_count).desc == (SurfaceDesc {
            width,
            height,
            format,
            image_count,
        }),
{
}

} // verus!
