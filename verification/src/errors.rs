//! Errors of the backend.
//!
//! Fatal conditions surface as explicit results and are never swallowed:
//! a caller that receives one must discard the frame or the instance.
//! Recoverable conditions (stale texture handles, misuse of the registry)
//! are not errors of this type; they are reported in the affected
//! operation's result and the operation degrades to a skip or a no-op.
use vstd::prelude::*;

verus! {

/// A fatal condition raised by the backend.
#[derive(Clone, Copy, Debug, PartialEq, Eq, Structural)]
pub enum BackendError {
    /// A pixel image's byte count does not match its dimensions.
    ImageSizeMismatch,
    /// A dimension or placement offset does not fit the command encoding.
    DimensionOutOfRange,
    /// A frame's geometry exceeds a frame buffer slot's fixed capacity.
    GeometryOverflow,
    /// The space of GPU object tokens is exhausted.
    TokenSpaceExhausted,
}

impl BackendError {
    /// A short human-readable description of the condition.
    pub fn describe(&self) -> (r: &'static str)
        ensures
            r@.len() > 0,
    {
        let s: &'static str = match self {
            BackendError::ImageSizeMismatch => "pixel image byte count does not match its dimensions",
            BackendError::DimensionOutOfRange => "dimension or offset does not fit the command encoding",
            BackendError::GeometryOverflow => "frame geometry exceeds the slot's fixed capacity",
            BackendError::TokenSpaceExhausted => "GPU object token space exhausted",
        };
        proof {
            reveal_strlit("pixel image byte count does not match its dimensions");
            reveal_strlit("dimension or offset does not fit the command encoding");
            reveal_strlit("frame geometry exceeds the slot's fixed capacity");
            reveal_strlit("GPU object token space exhausted");
        }
        s
    }
}

} // verus!
