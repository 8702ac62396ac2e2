//! Verified core of an egui-to-Vulkan rendering backend.
//!
//! The crate owns the bookkeeping that bridges an immediate-mode UI layer to a
//! graphics-API command stream: a texture cache driven by incremental deltas,
//! a registry of externally owned user textures, fixed-capacity per-slot
//! geometry buffers with a bounds-checked write cursor, a draw-command
//! recorder, and a surface-resize state machine.  Every GPU object is
//! represented by an opaque integer token; the unverified host performs the
//! actual graphics calls that the recorded actions describe.
mod actions;
mod backend;
mod buffers;
mod egui_api;
mod errors;
mod handle;
mod laws;
mod pixels;
mod recorder;
mod scissor;
mod surface;
mod texture_cache;
mod user_textures;

pub use actions::GpuObject;
pub use backend::free_record_actions;
pub use backend::index_buffer_actions;
pub use backend::layout_actions;
pub use backend::record_teardown_actions;
pub use backend::spec_destroy_fixed;
pub use backend::vertex_buffer_actions;
pub use backend::spec_apply_set_list;
pub use backend::spec_free_actions;
pub use backend::spec_free_list;
pub use backend::spec_set_action;
pub use backend::spec_sets_ok;
pub use backend::Backend;
pub use backend::PaintOutput;
pub use backend::TextureDeltas;
pub use backend::UnregisterOutcome;
pub use buffers::ByteBuffer;
pub use buffers::IndexBuffer;
pub use egui_api::convert_free_entries;
pub use egui_api::convert_set_entries;
pub use egui_api::delta_pos_matches;
pub use egui_api::spec_texture_handle;
pub use egui_api::texture_delta_of;
pub use egui_api::texture_handle_of;
pub use errors::BackendError;
pub use handle::TextureHandle;
pub use laws::draw_calls;
pub use laws::kept_prims;
pub use laws::lemma_draw_order_and_scissor_bounds;
pub use laws::lemma_patch_without_record_is_noop;
pub use laws::lemma_resize_idempotent;
pub use laws::lemma_set_free_round_trip;
pub use laws::lemma_slot_reuse;
pub use laws::spec_apply_sets_on;
pub use pixels::PixelImage;
pub use recorder::frame_commands;
pub use recorder::kept_indices;
pub use recorder::kept_vertex_bytes;
pub use recorder::kept_vertex_total;
pub use recorder::mesh_commands;
pub use recorder::prim_kept;
pub use recorder::prim_nonempty;
pub use recorder::prim_stale;
pub use recorder::record_frame;
pub use recorder::resolve_binding;
pub use recorder::stale_handles;
pub use recorder::DrawCommand;
pub use recorder::FrameSlot;
pub use recorder::Primitive;
pub use recorder::VERTEX_STRIDE;
pub use scissor::clamp_scissor;
pub use scissor::spec_clamp;
pub use scissor::spec_clamp_scissor;
pub use scissor::ScissorRect;
pub use surface::spec_rebuilt;
pub use surface::spec_teardown;
pub use surface::spec_update_surface;
pub use surface::SurfaceDesc;
pub use surface::SurfaceModel;
pub use surface::SurfaceState;
pub use texture_cache::entries_map;
pub use texture_cache::fresh_record;
pub use texture_cache::spec_apply_free;
pub use texture_cache::spec_apply_set;
pub use texture_cache::CacheModel;
pub use texture_cache::TextureCache;
pub use texture_cache::TextureDelta;
pub use texture_cache::TextureRecord;
pub use texture_cache::TextureUpload;
pub use user_textures::spec_lookup;
pub use user_textures::spec_lowest_free;
pub use user_textures::spec_register;
pub use user_textures::spec_unregister;
pub use user_textures::UserTextureRegistry;
