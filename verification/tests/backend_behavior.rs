//! Behavior tests of the verified backend core on concrete values.

use egui_winit_ash_integration::{
    clamp_scissor, record_teardown_actions, Backend, BackendError, ByteBuffer, DrawCommand,
    GpuObject, IndexBuffer, PixelImage, Primitive, ScissorRect, TextureCache, TextureDelta,
    TextureDeltas, TextureHandle, UnregisterOutcome, UserTextureRegistry,
};

fn rgba_image(width: u32, height: u32, texel: [u8; 4]) -> PixelImage {
    let mut bytes = Vec::new();
    for _ in 0..(width * height) {
        bytes.extend_from_slice(&texel);
    }
    PixelImage::try_new(width, height, bytes).expect("texel count matches dimensions")
}

fn quad_primitive(texture: TextureHandle) -> Primitive {
    Primitive {
        clip_min_x: 0,
        clip_min_y: 0,
        clip_max_x: 800,
        clip_max_y: 600,
        texture,
        vertex_count: 4,
        vertex_bytes: vec![0u8; 80],
        indices: vec![0, 1, 2, 2, 1, 3],
    }
}

fn new_backend() -> Backend {
    Backend::new(800, 600, 44, 2, 4 * 1024 * 1024, 2 * 1024 * 1024).expect("token space suffices")
}

#[test]
fn scissor_clamps_to_surface() {
    // Negative corners clamp to zero, oversized corners clamp to the surface.
    let r = clamp_scissor(-20, -5, 900, 700, 800, 600);
    assert_eq!(r, ScissorRect { x: 0, y: 0, width: 800, height: 600 });
    // A clip rectangle inside the surface is unchanged.
    let r = clamp_scissor(10, 20, 30, 50, 800, 600);
    assert_eq!(r, ScissorRect { x: 10, y: 20, width: 20, height: 30 });
    // An inverted rectangle collapses: the max corner is raised to the min.
    let r = clamp_scissor(100, 100, 40, 40, 800, 600);
    assert_eq!(r, ScissorRect { x: 100, y: 100, width: 0, height: 0 });
    // Everything left of the surface collapses at zero.
    let r = clamp_scissor(-50, -50, -10, -10, 800, 600);
    assert_eq!(r, ScissorRect { x: 0, y: 0, width: 0, height: 0 });
}

#[test]
fn byte_buffer_allows_exact_fit_and_rejects_overflow() {
    let mut buf = ByteBuffer::new(8);
    assert!(buf.append(&vec![1, 2, 3, 4]).is_ok());
    // An exact fit is allowed: the budget is a ceiling, not a strict bound.
    assert!(buf.append(&vec![5, 6, 7, 8]).is_ok());
    assert_eq!(buf.len(), 8);
    // One more byte is a strict overflow and leaves the buffer unchanged.
    assert_eq!(buf.append(&vec![9]), Err(BackendError::GeometryOverflow));
    assert_eq!(buf.written().as_slice(), &[1, 2, 3, 4, 5, 6, 7, 8]);
    buf.reset();
    assert_eq!(buf.len(), 0);
    assert_eq!(buf.capacity(), 8);
}

#[test]
fn index_buffer_counts_bytes() {
    let mut buf = IndexBuffer::new(16);
    assert!(buf.append(&vec![0, 1, 2, 3]).is_ok());
    assert_eq!(buf.append(&vec![4]), Err(BackendError::GeometryOverflow));
    assert_eq!(buf.written().as_slice(), &[0, 1, 2, 3]);
}

#[test]
fn set_then_free_clears_record_and_set_recreates() {
    let mut cache = TextureCache::new();
    let handle = TextureHandle::Managed(7);
    cache
        .apply_set(handle, TextureDelta { pos: None, image: rgba_image(2, 2, [1, 2, 3, 4]) })
        .expect("tokens available");
    cache
        .apply_set(handle, TextureDelta { pos: None, image: rgba_image(4, 4, [1, 2, 3, 4]) })
        .expect("tokens available");
    assert_eq!(cache.count(), 1);
    let freed = cache.apply_free(handle);
    assert!(freed.is_some());
    assert_eq!(cache.count(), 0);
    assert!(cache.lookup(handle).is_none());
    // A subsequent set behaves as a fresh creation.
    cache
        .apply_set(handle, TextureDelta { pos: None, image: rgba_image(2, 2, [9, 9, 9, 9]) })
        .expect("tokens available");
    assert_eq!(cache.count(), 1);
    let rec = cache.lookup(handle).expect("record exists after set");
    assert_eq!((rec.width, rec.height), (2, 2));
}

#[test]
fn patch_without_record_is_noop() {
    let mut cache = TextureCache::new();
    let handle = TextureHandle::Managed(3);
    let before = cache.count();
    let upload = cache
        .apply_set(handle, TextureDelta { pos: Some((1, 1)), image: rgba_image(1, 1, [5, 5, 5, 5]) })
        .expect("a patch allocates nothing");
    assert!(matches!(upload, egui_winit_ash_integration::TextureUpload::Noop));
    assert_eq!(cache.count(), before);
}

#[test]
fn patch_against_existing_record_keeps_it() {
    let mut cache = TextureCache::new();
    let handle = TextureHandle::Managed(0);
    cache
        .apply_set(handle, TextureDelta { pos: None, image: rgba_image(4, 4, [0, 0, 0, 0]) })
        .expect("tokens available");
    let rec = cache.lookup(handle).expect("record exists");
    let upload = cache
        .apply_set(handle, TextureDelta { pos: Some((1, 2)), image: rgba_image(2, 2, [8, 8, 8, 8]) })
        .expect("a patch allocates nothing");
    match upload {
        egui_winit_ash_integration::TextureUpload::Patch { image, x, y, pixels } => {
            assert_eq!(image, rec.image);
            assert_eq!((x, y), (1, 2));
            assert_eq!((pixels.width(), pixels.height()), (2, 2));
        }
        other => panic!("expected a patch action, got {:?}", other),
    }
    assert_eq!(cache.count(), 1);
    assert_eq!(cache.lookup(handle).expect("record kept"), rec);
}

#[test]
fn registry_reuses_lowest_free_slot() {
    let mut registry = UserTextureRegistry::new();
    let a = registry.register(100);
    let c = registry.register(101);
    assert_eq!((a, c), (0, 1));
    assert_eq!(registry.unregister(a), Some(100));
    // B receives A's former slot index.
    let b = registry.register(102);
    assert_eq!(b, a);
    assert_eq!(registry.lookup(b), Some(102));
    assert_eq!(registry.lookup(c), Some(101));
    // Unregistering a free or unknown slot is a no-op.
    assert_eq!(registry.unregister(5), None);
    assert_eq!(registry.slot_count(), 2);
}

#[test]
fn unregister_outcomes() {
    let mut backend = new_backend();
    let handle = backend.register_user_texture(42);
    assert_eq!(handle, TextureHandle::User(0));
    assert_eq!(
        backend.unregister_user_texture(handle),
        UnregisterOutcome::Released(42)
    );
    assert_eq!(
        backend.unregister_user_texture(handle),
        UnregisterOutcome::AlreadyFree
    );
    assert_eq!(
        backend.unregister_user_texture(TextureHandle::Managed(0)),
        UnregisterOutcome::NotUserTexture
    );
}

#[test]
fn managed_texture_end_to_end() {
    let mut backend = new_backend();
    let handle = TextureHandle::Managed(0);

    // Register a 2x2 RGBA managed texture through a set delta with no offset.
    let deltas = TextureDeltas {
        set: vec![(handle, TextureDelta { pos: None, image: rgba_image(2, 2, [1, 2, 3, 4]) })],
        free: vec![],
    };
    let prims = vec![quad_primitive(handle)];
    let out = backend.paint(0, &prims, deltas).expect("frame fits");
    assert_eq!(backend.texture_count(), 1);
    assert_eq!(out.uploads.len(), 1);
    assert!(matches!(
        out.uploads[0],
        egui_winit_ash_integration::TextureUpload::Create { .. }
    ));

    // Exactly one draw call, with index count 6 and zero base offsets.
    let draws: Vec<&DrawCommand> = out
        .commands
        .iter()
        .filter(|c| matches!(c, DrawCommand::DrawIndexed { .. }))
        .collect();
    assert_eq!(draws.len(), 1);
    assert_eq!(
        *draws[0],
        DrawCommand::DrawIndexed { index_count: 6, first_index: 0, vertex_offset: 0 }
    );

    // The scissor is clamped to (0,0)-(800,600).
    let scissors: Vec<&DrawCommand> = out
        .commands
        .iter()
        .filter(|c| matches!(c, DrawCommand::SetScissor { .. }))
        .collect();
    assert_eq!(
        *scissors[0],
        DrawCommand::SetScissor { rect: ScissorRect { x: 0, y: 0, width: 800, height: 600 } }
    );

    // The geometry landed in slot 0's buffers.
    let (vertex_bytes, indices) = backend.slot_geometry(0);
    assert_eq!(vertex_bytes.len(), 80);
    assert_eq!(indices.as_slice(), &[0, 1, 2, 2, 1, 3]);

    // Free the handle: the record count returns to zero and the freed
    // objects come back in destruction order.
    let rec = backend.texture_record(handle).expect("record exists");
    let deltas = TextureDeltas { set: vec![], free: vec![handle] };
    let out = backend.paint(0, &vec![], deltas).expect("empty frame fits");
    assert_eq!(backend.texture_count(), 0);
    assert_eq!(
        out.frees,
        vec![
            GpuObject::DescriptorSet(rec.desc_set),
            GpuObject::ImageView(rec.view),
            GpuObject::Image(rec.image),
            GpuObject::Allocation(rec.allocation),
        ]
    );
}

#[test]
fn command_stream_shape() {
    let mut backend = new_backend();
    let out = backend
        .paint(1, &vec![], TextureDeltas { set: vec![], free: vec![] })
        .expect("empty frame fits");
    assert_eq!(
        out.commands,
        vec![
            DrawCommand::BeginRenderPass { slot: 1, width: 800, height: 600 },
            DrawCommand::BindPipeline,
            DrawCommand::BindBuffers { slot: 1 },
            DrawCommand::SetViewport { width: 800, height: 600 },
            DrawCommand::PushScreenSize { width: 800, height: 600 },
            DrawCommand::EndRenderPass,
        ]
    );
}

#[test]
fn draw_order_follows_input_order() {
    let mut backend = new_backend();
    let handle = TextureHandle::Managed(0);
    let deltas = TextureDeltas {
        set: vec![(handle, TextureDelta { pos: None, image: rgba_image(1, 1, [0, 0, 0, 0]) })],
        free: vec![],
    };
    let mut second = quad_primitive(handle);
    second.vertex_count = 3;
    second.vertex_bytes = vec![0u8; 60];
    second.indices = vec![0, 1, 2];
    let prims = vec![quad_primitive(handle), second];
    let out = backend.paint(0, &prims, deltas).expect("frame fits");
    let draws: Vec<&DrawCommand> = out
        .commands
        .iter()
        .filter(|c| matches!(c, DrawCommand::DrawIndexed { .. }))
        .collect();
    assert_eq!(draws.len(), 2);
    assert_eq!(
        *draws[0],
        DrawCommand::DrawIndexed { index_count: 6, first_index: 0, vertex_offset: 0 }
    );
    // The second draw starts where the first one's geometry ended.
    assert_eq!(
        *draws[1],
        DrawCommand::DrawIndexed { index_count: 3, first_index: 6, vertex_offset: 4 }
    );
}

#[test]
fn stale_handles_are_skipped_not_fatal() {
    let mut backend = new_backend();
    let stale_managed = TextureHandle::Managed(9);
    let stale_user = TextureHandle::User(5);
    let prims = vec![quad_primitive(stale_managed), quad_primitive(stale_user)];
    let out = backend
        .paint(0, &prims, TextureDeltas { set: vec![], free: vec![] })
        .expect("skipping is not fatal");
    assert!(!out.commands.iter().any(|c| matches!(c, DrawCommand::DrawIndexed { .. })));
    assert_eq!(out.stale, vec![stale_managed, stale_user]);
    // Empty primitives are skipped silently, without a stale report.
    let mut empty = quad_primitive(stale_managed);
    empty.vertex_count = 0;
    empty.vertex_bytes = vec![];
    let out = backend
        .paint(0, &vec![empty], TextureDeltas { set: vec![], free: vec![] })
        .expect("skipping is not fatal");
    assert!(out.stale.is_empty());
}

#[test]
fn geometry_overflow_is_fatal() {
    let mut backend =
        Backend::new(800, 600, 44, 1, 100, 100).expect("token space suffices");
    let handle = TextureHandle::Managed(0);
    let deltas = TextureDeltas {
        set: vec![(handle, TextureDelta { pos: None, image: rgba_image(1, 1, [0, 0, 0, 0]) })],
        free: vec![],
    };
    // 6 vertices of 20 bytes each exceed the 100-byte vertex budget.
    let mut big = quad_primitive(handle);
    big.vertex_count = 6;
    big.vertex_bytes = vec![0u8; 120];
    let r = backend.paint(0, &vec![big], deltas);
    assert_eq!(r.err(), Some(BackendError::GeometryOverflow));
    // The set deltas were applied before the overflow was found.
    assert_eq!(backend.texture_count(), 1);

    // An exact fit is allowed: 5 vertices fill the budget to the byte.
    let mut exact = quad_primitive(handle);
    exact.vertex_count = 5;
    exact.vertex_bytes = vec![0u8; 100];
    let r = backend.paint(0, &vec![exact], TextureDeltas { set: vec![], free: vec![] });
    assert!(r.is_ok());
}

#[test]
fn resize_is_idempotent_on_the_value_part() {
    let mut backend = new_backend();
    backend.update_surface(1024, 768, 50, 3).expect("token space suffices");
    let once = backend.surface_state().desc();
    let destroys = backend.update_surface(1024, 768, 50, 3).expect("token space suffices");
    let twice = backend.surface_state().desc();
    // Same width, height, format and image count; the destroy list proves
    // the backing objects were torn down and recreated.
    assert_eq!(once, twice);
    assert!(matches!(destroys[0], GpuObject::RenderPass(_)));
    // The second rebuild tears down 2 objects plus a view and a framebuffer
    // per presentation image.
    assert_eq!(destroys.len(), 2 + 3 + 3);
}

#[test]
fn resize_destroys_framebuffers_before_views() {
    let mut backend = new_backend();
    let destroys = backend.update_surface(640, 480, 44, 2).expect("token space suffices");
    // Render pass, pipeline, then the framebuffers, then the views they
    // reference.
    assert!(matches!(destroys[0], GpuObject::RenderPass(_)));
    assert!(matches!(destroys[1], GpuObject::Pipeline(_)));
    assert!(matches!(destroys[2], GpuObject::Framebuffer(_)));
    assert!(matches!(destroys[3], GpuObject::Framebuffer(_)));
    assert!(matches!(destroys[4], GpuObject::ImageView(_)));
    assert!(matches!(destroys[5], GpuObject::ImageView(_)));
    assert_eq!(destroys.len(), 6);
}

#[test]
fn destroy_lists_everything_in_order() {
    let mut backend = new_backend();
    let handle = TextureHandle::Managed(1);
    let deltas = TextureDeltas {
        set: vec![(handle, TextureDelta { pos: None, image: rgba_image(1, 1, [0, 0, 0, 0]) })],
        free: vec![],
    };
    backend.paint(0, &vec![], deltas).expect("frame fits");
    let (fixed, records) = backend.destroy();
    assert_eq!(fixed[0], GpuObject::UserTextureLayout);
    assert_eq!(fixed[1], GpuObject::IndexBuffer(0));
    assert_eq!(fixed[2], GpuObject::IndexBufferMemory(0));
    assert_eq!(*fixed.last().unwrap(), GpuObject::DescriptorPool);
    assert_eq!(records.len(), 1);
    assert_eq!(records[0].0, handle);
    let rec = records[0].1;
    assert_eq!(
        record_teardown_actions(&rec),
        vec![
            GpuObject::ImageView(rec.view),
            GpuObject::Image(rec.image),
            GpuObject::Allocation(rec.allocation),
        ]
    );
    assert_eq!(backend.texture_count(), 0);
}

#[test]
fn pixel_image_rejects_mismatched_bytes() {
    assert_eq!(
        PixelImage::try_new(2, 2, vec![0u8; 15]).err(),
        Some(BackendError::ImageSizeMismatch)
    );
    assert!(PixelImage::try_new(2, 2, vec![0u8; 16]).is_ok());
    assert!(PixelImage::try_new(0, 0, vec![]).is_ok());
}

#[test]
fn token_space_exhaustion_is_reported() {
    // A presentation image count that cannot fit in the token space fails
    // construction outright.
    let r = Backend::new(1, 1, 0, usize::MAX, 100, 100);
    assert_eq!(r.err(), Some(BackendError::TokenSpaceExhausted));
    assert!(
        BackendError::TokenSpaceExhausted.describe().len() > 0
            && BackendError::GeometryOverflow.describe().len() > 0
    );
}
