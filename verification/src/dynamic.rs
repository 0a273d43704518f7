//! `image::DynamicImage` as the compositor sees it: a size, and for every
//! coordinate inside it the pixel read as 8-bit RGBA.
//!
//! Nothing in this file is proved. The contracts restate what the `image`
//! crate does and are taken on trust by the verified code around them.

use crate::raster::{Raster, Rgba8};
use image::DynamicImage;
use vstd::prelude::*;

verus! {

/// `image::DynamicImage`, opaque to the verifier. What the library knows of
/// a value is what `dynamic_size`, `dynamic_pixels` and `dynamic_format`
/// say of it.
#[verifier::external_type_specification]
#[verifier::external_body]
pub struct ExDynamicImage(DynamicImage);

/// The `(width, height)` of an image, as `GenericImageView::dimensions`
/// reports it.
pub uninterp spec fn dynamic_size(img: DynamicImage) -> (u32, u32);

/// The pixels of an image read as 8-bit RGBA: at each `(x, y)` inside the
/// image, the channels of what `GenericImageView::get_pixel` returns there.
pub uninterp spec fn dynamic_pixels(img: DynamicImage) -> Map<(int, int), Rgba8>;

/// The `(channel count, bits per pixel)` of the colour type that
/// `DynamicImage::color` reports.
pub uninterp spec fn dynamic_format(img: DynamicImage) -> (u8, u16);

/// The format of an image with four channels of eight bits each.
pub open spec fn rgba8_format() -> (u8, u16) {
    (4u8, 32u16)
}

/// The raster that a dynamic image stands for.
pub open spec fn dynamic_raster(img: DynamicImage) -> Raster<Rgba8> {
    Raster {
        width: dynamic_size(img).0 as nat,
        height: dynamic_size(img).1 as nat,
        pixels: dynamic_pixels(img),
    }
}

/// Calls `GenericImageView::dimensions` on a `DynamicImage`, which hands
/// out the width and height of the buffer inside. The contract says only
/// that this pair is the image's size.
#[verifier::external_body]
pub(crate) fn dynamic_dimensions(img: &DynamicImage) -> (size: (u32, u32))
    ensures
        size == dynamic_size(*img),
{
    image::GenericImageView::dimensions(img)
}

/// Calls `GenericImageView::get_pixel` on a `DynamicImage`, which converts
/// the stored pixel to `Rgba<u8>` and panics outside the image. The
/// contract asks for a coordinate inside the image and says that the four
/// channels returned are the image's pixel there.
#[verifier::external_body]
pub(crate) fn dynamic_get_pixel(img: &DynamicImage, x: u32, y: u32) -> (pixel: Rgba8)
    requires
        x < dynamic_size(*img).0,
        y < dynamic_size(*img).1,
    ensures
        pixel == dynamic_pixels(*img)[(x as int, y as int)],
{
    let image::Rgba([r, g, b, a]) = image::GenericImageView::get_pixel(img, x, y);
    (r, g, b, a)
}

} // verus!
