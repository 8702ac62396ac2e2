//! Texture handles.
//!
//! A handle identifies at most one live GPU texture at a time.  Managed
//! handles name textures that the backend creates and owns from UI-supplied
//! pixel data; User handles name externally owned textures registered by the
//! host through the user-texture registry.
use vstd::prelude::*;

verus! {

/// Identifier of a texture as seen by the UI layer.
#[derive(Clone, Copy, Debug, PartialEq, Eq, Structural)]
pub enum TextureHandle {
    /// A texture owned by the backend, created from a "set" delta.
    Managed(u64),
    /// An externally owned texture, referenced by its registry slot index.
    User(u64),
}

} // verus!
