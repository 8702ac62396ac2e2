//! Destroy actions handed to the host.
//!
//! The backend owns its GPU objects only as opaque tokens; when objects must
//! die (a surface rebuild, a freed texture, teardown) it emits an ordered
//! list of destroy actions and the host performs the actual calls, in list
//! order.
use vstd::prelude::*;

verus! {

/// One GPU object to destroy.  Objects that exist once per presentation
/// image slot and are never recreated are named by their slot index; all
/// others by their token.
#[derive(Clone, Copy, Debug, PartialEq, Eq, Structural)]
pub enum GpuObject {
    /// The render pass.
    RenderPass(u64),
    /// The graphics pipeline.
    Pipeline(u64),
    /// An image view.
    ImageView(u64),
    /// A framebuffer.
    Framebuffer(u64),
    /// A texture image.
    Image(u64),
    /// A texture memory allocation.
    Allocation(u64),
    /// A descriptor set.
    DescriptorSet(u64),
    /// The sampler, created once at construction.
    Sampler,
    /// The pipeline layout, created once at construction.
    PipelineLayout,
    /// The descriptor pool, created once at construction.
    DescriptorPool,
    /// The user-texture descriptor set layout, created once at construction.
    UserTextureLayout,
    /// A per-image descriptor set layout, created once at construction.
    DescriptorSetLayout(usize),
    /// The vertex buffer of a presentation image slot.
    VertexBuffer(usize),
    /// The memory allocation of a slot's vertex buffer.
    VertexBufferMemory(usize),
    /// The index buffer of a presentation image slot.
    IndexBuffer(usize),
    /// The memory allocation of a slot's index buffer.
    IndexBufferMemory(usize),
}

} // verus!
