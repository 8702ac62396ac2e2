//! The boundary to the UI toolkit's types.
//!
//! The UI layer hands the backend its own texture identifiers and image
//! deltas.  This module declares those types to the verifier, converts the
//! identifiers in verified code, and normalizes the two source pixel
//! representations (premultiplied-alpha color images and grayscale font
//! coverage masks) to the backend's single four-bytes-per-texel upload
//! format through one trusted call; what comes back is then checked against
//! the claimed dimensions in verified code, never believed outright.
use vstd::prelude::*;

use crate::errors::BackendError;
use crate::handle::TextureHandle;
use crate::pixels::PixelImage;
use crate::texture_cache::TextureDelta;

verus! {

/// The UI toolkit's texture identifier: a managed or a user id.
#[verifier::external_type_specification]
pub struct ExTextureId(egui::TextureId);

/// The UI toolkit's image payload, opaque here: only the trusted
/// conversion below looks inside.
#[verifier::external_type_specification]
#[verifier::external_body]
pub struct ExImageData(egui::ImageData);

/// The UI toolkit's sampling options, opaque and unused: the backend
/// samples every texture the same way.
#[verifier::external_type_specification]
#[verifier::external_body]
pub struct ExTextureOptions(egui::TextureOptions);

/// The UI toolkit's incremental texture instruction.
#[verifier::external_type_specification]
pub struct ExImageDelta(egui::epaint::ImageDelta);

/// The backend handle a UI texture identifier maps to.
pub open spec fn spec_texture_handle(id: egui::TextureId) -> TextureHandle {
    match id {
        egui::TextureId::Managed(m) => TextureHandle::Managed(m),
        egui::TextureId::User(u) => TextureHandle::User(u),
    }
}

/// Convert a UI texture identifier to the backend's handle.
pub fn texture_handle_of(id: egui::TextureId) -> (h: TextureHandle)
    ensures
        h == spec_texture_handle(id),
{
    match id {
        egui::TextureId::Managed(m) => TextureHandle::Managed(m),
        egui::TextureId::User(u) => TextureHandle::User(u),
    }
}

/// Relies on epaint's pixel conversions: a color image holds one `Color32`
/// per texel and `Color32::to_array` yields its four sRGBA bytes; a font
/// image's `srgba_pixels` yields one premultiplied sRGBA `Color32` per
/// coverage value.  Either way the result is four bytes per pixel, with
/// the image's width and height as the toolkit reports them.
#[verifier::external_body]
fn image_data_rgba(image: &egui::ImageData) -> (r: (usize, usize, Vec<u8>))
    ensures
        r.2@.len() % 4 == 0,
{
    let bytes: Vec<u8> = match image {
        egui::ImageData::Color(color) => {
            color.pixels.iter().flat_map(|c| c.to_array()).collect()
        },
        egui::ImageData::Font(font) => {
            font.srgba_pixels(None).flat_map(|c| c.to_array()).collect()
        },
    };
    (image.width(), image.height(), bytes)
}

/// The placement offsets agree, after the narrowing the conversion
/// performs.
pub open spec fn delta_pos_matches(d: egui::epaint::ImageDelta, td: TextureDelta) -> bool {
    match d.pos {
        Some(p) => p[0] <= u32::MAX && p[1] <= u32::MAX && td.pos == Some(
            ((p[0] as u32), (p[1] as u32)),
        ),
        None => td.pos is None,
    }
}

/// Build the backend's texture delta from a UI image delta: the pixels are
/// normalized to the upload format and checked against the claimed
/// dimensions, and the placement offset is carried over.  Fails when the
/// normalized bytes do not match the dimensions, or when a dimension or
/// offset does not fit the command encoding.
pub fn texture_delta_of(delta: &egui::epaint::ImageDelta) -> (r: Result<TextureDelta, BackendError>)
    ensures
        r matches Ok(td) ==> delta_pos_matches(*delta, td),
{
    let (w, h, bytes) = image_data_rgba(&delta.image);
    if w > u32::MAX as usize || h > u32::MAX as usize {
        return Err(BackendError::DimensionOutOfRange);
    }
    let image = match PixelImage::try_new(w as u32, h as u32, bytes) {
        Ok(img) => img,
        Err(e) => {
            return Err(e);
        },
    };
    let pos: Option<(u32, u32)> = match delta.pos {
        Some(p) => {
            if p[0] > u32::MAX as usize || p[1] > u32::MAX as usize {
                return Err(BackendError::DimensionOutOfRange);
            }
            Some((p[0] as u32, p[1] as u32))
        },
        None => None,
    };
    Ok(TextureDelta { pos, image })
}

/// Convert a list of UI set entries to the backend's, in order.  Fails
/// when any entry's image fails to convert.
pub fn convert_set_entries(set: &Vec<(egui::TextureId, egui::epaint::ImageDelta)>) -> (r: Result<
    Vec<(TextureHandle, TextureDelta)>,
    BackendError,
>)
    ensures
        r matches Ok(out) ==> {
            &&& out@.len() == set@.len()
            &&& forall|i: int|
                0 <= i < set@.len() ==> (#[trigger] out@[i]).0 == spec_texture_handle(set@[i].0)
                    && delta_pos_matches(set@[i].1, out@[i].1)
        },
{
    let mut out: Vec<(TextureHandle, TextureDelta)> = Vec::new();
    let mut i: usize = 0;
    while i < set.len()
        invariant
            i <= set@.len(),
            out@.len() == i,
            forall|k: int|
                0 <= k < i ==> (#[trigger] out@[k]).0 == spec_texture_handle(set@[k].0)
                    && delta_pos_matches(set@[k].1, out@[k].1),
        decreases set@.len() - i,
    {
        let handle = texture_handle_of(set[i].0);
        let td = match texture_delta_of(&set[i].1) {
            Ok(td) => td,
            Err(e) => {
                return Err(e);
            },
        };
        out.push((handle, td));
        i = i + 1;
    }
    Ok(out)
}

/// Convert a list of UI free entries to the backend's handles, in order.
pub fn convert_free_entries(free: &Vec<egui::TextureId>) -> (r: Vec<TextureHandle>)
    ensures
        r@.len() == free@.len(),
        forall|i: int| 0 <= i < free@.len() ==> r@[i] == spec_texture_handle(#[trigger] free@[i]),
{
    let mut out: Vec<TextureHandle> = Vec::new();
    let mut i: usize = 0;
    while i < free.len()
        invariant
            i <= free@.len(),
            out@.len() == i,
            forall|k: int| 0 <= k < i ==> out@[k] == spec_texture_handle(#[trigger] free@[k]),
        decreases free@.len() - i,
    {
        out.push(texture_handle_of(free[i]));
        i = i + 1;
    }
    out
}

} // verus!
