//! Normalized pixel images.
//!
//! Whatever representation the UI layer uses for its textures, the backend
//! uploads a single linear format: four bytes (sRGBA, premultiplied alpha)
//! per texel, row by row from the top.  `PixelImage` couples the byte vector
//! with its dimensions; the type invariant guarantees that the byte count
//! matches the dimensions exactly.
use vstd::prelude::*;

use crate::errors::BackendError;

verus! {

/// A rectangular image in the backend's single upload format: exactly four
/// bytes per texel.
#[derive(Debug)]
pub struct PixelImage {
    width: u32,
    height: u32,
    bytes: Vec<u8>,
}

impl PixelImage {
    /// The byte count always matches the dimensions.
    #[verifier::type_invariant]
    pub closed spec fn inv(self) -> bool {
        self.bytes@.len() == 4 * (self.width as int) * (self.height as int)
    }

    /// Width in texels.
    pub closed spec fn spec_width(self) -> u32 {
        self.width
    }

    /// Height in texels.
    pub closed spec fn spec_height(self) -> u32 {
        self.height
    }

    /// The pixel bytes, four per texel.
    pub closed spec fn spec_bytes(self) -> Seq<u8> {
        self.bytes@
    }

    /// Build an image from dimensions and bytes; fails unless the byte count
    /// is exactly four per texel.
    pub fn try_new(width: u32, height: u32, bytes: Vec<u8>) -> (r: Result<Self, BackendError>)
        ensures
            r matches Ok(img) ==> {
                &&& img.spec_width() == width
                &&& img.spec_height() == height
                &&& img.spec_bytes() == bytes@
            },
            r is Ok <==> bytes@.len() == 4 * (width as int) * (height as int),
            r is Err ==> r == Err::<Self, BackendError>(BackendError::ImageSizeMismatch),
    {
        let w128: u128 = width as u128;
        let h128: u128 = height as u128;
        proof {
            assert(w128 * h128 <= 0xffff_ffff * 0xffff_ffff && 4 * (w128 * h128) == 4 * (width
                as int) * (height as int)) by (nonlinear_arith)
                requires
                    0 <= w128 <= 0xffff_ffff,
                    0 <= h128 <= 0xffff_ffff,
                    w128 == width as int,
                    h128 == height as int,
            ;
        }
        let expected: u128 = 4 * (w128 * h128);
        if (bytes.len() as u128) == expected {
            Ok(PixelImage { width, height, bytes })
        } else {
            Err(BackendError::ImageSizeMismatch)
        }
    }

    /// Width in texels.
    pub fn width(&self) -> (r: u32)
        ensures
            r == self.spec_width(),
    {
        self.width
    }

    /// Height in texels.
    pub fn height(&self) -> (r: u32)
        ensures
            r == self.spec_height(),
    {
        self.height
    }

    /// The pixel bytes, four per texel.
    pub fn bytes(&self) -> (r: &Vec<u8>)
        ensures
            r@ == self.spec_bytes(),
            r@.len() == 4 * (self.spec_width() as int) * (self.spec_height() as int),
    {
        proof {
            use_type_invariant(self);
        }
        &self.bytes
    }
}

} // verus!
