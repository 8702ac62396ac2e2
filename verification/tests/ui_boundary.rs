//! Tests of the boundary to the UI toolkit's types: identifier conversion
//! and pixel normalization.

use std::sync::Arc;

use egui_winit_ash_integration::{
    convert_free_entries, convert_set_entries, texture_delta_of, texture_handle_of, BackendError,
    TextureHandle,
};

use egui::epaint::ImageDelta;
use egui::{Color32, ColorImage, FontImage, ImageData, TextureId, TextureOptions};

#[test]
fn texture_ids_map_to_handles() {
    assert_eq!(texture_handle_of(TextureId::Managed(0)), TextureHandle::Managed(0));
    assert_eq!(texture_handle_of(TextureId::User(9)), TextureHandle::User(9));
    let frees = convert_free_entries(&vec![TextureId::Managed(3), TextureId::User(1)]);
    assert_eq!(frees, vec![TextureHandle::Managed(3), TextureHandle::User(1)]);
}

#[test]
fn color_image_normalizes_to_four_bytes_per_texel() {
    let image = ColorImage::new([2, 2], Color32::from_rgba_premultiplied(10, 20, 30, 40));
    let delta = ImageDelta::full(ImageData::Color(Arc::new(image)), TextureOptions::default());
    let td = texture_delta_of(&delta).expect("a well-formed color image converts");
    assert!(td.pos.is_none());
    assert_eq!((td.image.width(), td.image.height()), (2, 2));
    assert_eq!(td.image.bytes().as_slice(), &[10, 20, 30, 40].repeat(4)[..]);
}

#[test]
fn font_image_normalizes_coverage_to_premultiplied_pixels() {
    let mut image = FontImage::new([2, 1]);
    image.pixels[0] = 1.0;
    image.pixels[1] = 0.0;
    let delta = ImageDelta::partial(
        [3, 5],
        ImageData::Font(image),
        TextureOptions::default(),
    );
    let td = texture_delta_of(&delta).expect("a font image converts");
    assert_eq!(td.pos, Some((3, 5)));
    // Full coverage becomes an opaque white premultiplied pixel; zero
    // coverage becomes a fully transparent one.
    assert_eq!(td.image.bytes().as_slice(), &[255, 255, 255, 255, 0, 0, 0, 0]);
}

#[test]
fn forged_color_image_is_rejected_not_trusted() {
    // The pixel vector disagrees with the claimed size: the conversion must
    // catch it rather than believe the toolkit.
    let image = ColorImage { size: [2, 2], pixels: vec![Color32::from_gray(0); 3] };
    let delta = ImageDelta::full(ImageData::Color(Arc::new(image)), TextureOptions::default());
    assert_eq!(texture_delta_of(&delta).err(), Some(BackendError::ImageSizeMismatch));
}

#[test]
fn oversized_placement_offset_is_rejected() {
    let image = ColorImage::new([1, 1], Color32::from_gray(7));
    let delta = ImageDelta::partial(
        [(u32::MAX as usize) + 1, 0],
        ImageData::Color(Arc::new(image)),
        TextureOptions::default(),
    );
    assert_eq!(texture_delta_of(&delta).err(), Some(BackendError::DimensionOutOfRange));
}

#[test]
fn set_entries_convert_in_order() {
    let a = ImageDelta::full(
        ImageData::Color(Arc::new(ColorImage::new([1, 1], Color32::from_gray(1)))),
        TextureOptions::default(),
    );
    let b = ImageDelta::partial(
        [4, 4],
        ImageData::Color(Arc::new(ColorImage::new([1, 1], Color32::from_gray(2)))),
        TextureOptions::default(),
    );
    let out = convert_set_entries(&vec![(TextureId::Managed(0), a), (TextureId::Managed(1), b)])
        .expect("both entries convert");
    assert_eq!(out.len(), 2);
    assert_eq!(out[0].0, TextureHandle::Managed(0));
    assert!(out[0].1.pos.is_none());
    assert_eq!(out[1].0, TextureHandle::Managed(1));
    assert_eq!(out[1].1.pos, Some((4, 4)));
}
