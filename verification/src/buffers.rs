//! The typed pixel buffers of the `image` crate that the library fills:
//! 8-bit RGBA for the compositor's canvas, 8-bit grey and 16-bit RGBA for
//! the test patterns.
//!
//! The verifier cannot take `image::ImageBuffer` in a signature, so each
//! buffer sits in a struct of this library whose body the verifier does not
//! read. What it knows of a buffer is a size and a pixel map; the functions
//! marked `external_body` below say, without proof, what each call into
//! `image` does to the two.

use crate::dynamic::{dynamic_format, dynamic_pixels, dynamic_size, rgba8_format};
use crate::raster::{uniform_pixels, Raster, Rgba16, Rgba8, TRANSPARENT};
use image::DynamicImage;
use vstd::prelude::*;

verus! {

/// An `image::RgbaImage`: four 8-bit channels per pixel.
#[verifier::external_body]
pub struct RgbaBuffer {
    inner: image::RgbaImage,
}

/// The `(width, height)` that the buffer was made with.
pub uninterp spec fn rgba_size(buf: RgbaBuffer) -> (u32, u32);

/// The pixel stored at each `(x, y)` inside the buffer.
pub uninterp spec fn rgba_pixels(buf: RgbaBuffer) -> Map<(int, int), Rgba8>;

impl View for RgbaBuffer {
    type V = Raster<Rgba8>;

    open spec fn view(&self) -> Raster<Rgba8> {
        Raster {
            width: rgba_size(*self).0 as nat,
            height: rgba_size(*self).1 as nat,
            pixels: rgba_pixels(*self),
        }
    }
}

/// Whether a buffer of `width` by `height` pixels, each of `pixel_bytes`
/// bytes, stays within the largest allocation a `Vec` can hold.
pub open spec fn buffer_fits(width: u32, height: u32, pixel_bytes: int) -> bool {
    pixel_bytes * width * height <= isize::MAX
}

/// Calls `DynamicImage::new_rgba8` and takes the buffer out with
/// `to_rgba8`. `ImageBuffer::new` sets every channel to zero and panics
/// when the buffer would exceed what a `Vec` can hold, which the contract
/// rules out; `to_rgba8` on an image that already is 8-bit RGBA returns a
/// copy of its buffer.
#[verifier::external_body]
pub(crate) fn rgba_blank(width: u32, height: u32) -> (buf: RgbaBuffer)
    requires
        buffer_fits(width, height, 4),
    ensures
        rgba_size(buf) == (width, height),
        rgba_pixels(buf) == uniform_pixels(width as nat, height as nat, TRANSPARENT),
{
    RgbaBuffer { inner: DynamicImage::new_rgba8(width, height).to_rgba8() }
}

/// Writes through `ImageBuffer::get_pixel_mut`, which hands out the pixel
/// at `(x, y)` and panics outside the buffer. The contract asks for a
/// coordinate inside the buffer and says that this one pixel changes and
/// nothing else does.
#[verifier::external_body]
pub(crate) fn rgba_set_pixel(buf: &mut RgbaBuffer, x: u32, y: u32, pixel: Rgba8)
    requires
        x < rgba_size(*old(buf)).0,
        y < rgba_size(*old(buf)).1,
    ensures
        rgba_size(*final(buf)) == rgba_size(*old(buf)),
        rgba_pixels(*final(buf)) == rgba_pixels(*old(buf)).insert((x as int, y as int), pixel),
{
    *buf.inner.get_pixel_mut(x, y) = image::Rgba([pixel.0, pixel.1, pixel.2, pixel.3]);
}

/// Calls `DynamicImage::from` on the buffer, which wraps it unchanged in
/// the 8-bit RGBA variant. Reading an 8-bit RGBA pixel as 8-bit RGBA
/// leaves it as it is, so the image has the buffer's size and pixels.
#[verifier::external_body]
pub(crate) fn rgba_into_dynamic(buf: RgbaBuffer) -> (img: DynamicImage)
    ensures
        dynamic_size(img) == rgba_size(buf),
        dynamic_pixels(img) == rgba_pixels(buf),
        dynamic_format(img) == rgba8_format(),
{
    DynamicImage::from(buf.inner)
}

/// An `image::GrayImage`: one 8-bit channel per pixel.
#[verifier::external_body]
pub struct GrayBuffer {
    inner: image::GrayImage,
}

/// The `(width, height)` that the buffer was made with.
pub uninterp spec fn gray_size(buf: GrayBuffer) -> (u32, u32);

/// The grey level stored at each `(x, y)` inside the buffer.
pub uninterp spec fn gray_pixels(buf: GrayBuffer) -> Map<(int, int), u8>;

impl View for GrayBuffer {
    type V = Raster<u8>;

    open spec fn view(&self) -> Raster<u8> {
        Raster {
            width: gray_size(*self).0 as nat,
            height: gray_size(*self).1 as nat,
            pixels: gray_pixels(*self),
        }
    }
}

/// Calls `DynamicImage::new_luma8` and takes the buffer out with
/// `to_luma8`. `ImageBuffer::new` sets every channel to zero and panics
/// when the buffer would exceed what a `Vec` can hold, which the contract
/// rules out; `to_luma8` on an image that already is 8-bit grey returns a
/// copy of its buffer.
#[verifier::external_body]
pub(crate) fn gray_blank(width: u32, height: u32) -> (buf: GrayBuffer)
    requires
        buffer_fits(width, height, 1),
    ensures
        gray_size(buf) == (width, height),
        gray_pixels(buf) == uniform_pixels(width as nat, height as nat, 0u8),
{
    GrayBuffer { inner: DynamicImage::new_luma8(width, height).to_luma8() }
}

/// Calls `ImageBuffer::put_pixel`, which stores the pixel at `(x, y)` and
/// panics outside the buffer. The contract asks for a coordinate inside
/// the buffer and says that this one pixel changes and nothing else does.
#[verifier::external_body]
pub(crate) fn gray_put_pixel(buf: &mut GrayBuffer, x: u32, y: u32, level: u8)
    requires
        x < gray_size(*old(buf)).0,
        y < gray_size(*old(buf)).1,
    ensures
        gray_size(*final(buf)) == gray_size(*old(buf)),
        gray_pixels(*final(buf)) == gray_pixels(*old(buf)).insert((x as int, y as int), level),
{
    buf.inner.put_pixel(x, y, image::Luma([level]));
}

/// Calls `ImageBuffer::dimensions`, which returns the width and height
/// that the buffer holds.
#[verifier::external_body]
pub(crate) fn gray_dimensions(buf: &GrayBuffer) -> (size: (u32, u32))
    ensures
        size == gray_size(*buf),
{
    buf.inner.dimensions()
}

/// Calls `ImageBuffer::get_pixel`, which hands out the pixel at `(x, y)`
/// and panics outside the buffer. The contract asks for a coordinate
/// inside the buffer and says that the level returned is the one stored
/// there.
#[verifier::external_body]
pub(crate) fn gray_get_pixel(buf: &GrayBuffer, x: u32, y: u32) -> (level: u8)
    requires
        x < gray_size(*buf).0,
        y < gray_size(*buf).1,
    ensures
        level == gray_pixels(*buf)[(x as int, y as int)],
{
    let image::Luma([level]) = *buf.inner.get_pixel(x, y);
    level
}

impl GrayBuffer {
    /// The grey level at `(x, y)`, or `None` outside the buffer.
    pub fn get_pixel(&self, x: u32, y: u32) -> (level: Option<u8>)
        ensures
            self@.covers(x as int, y as int) ==> level == Some(self@.at(x as int, y as int)),
            !self@.covers(x as int, y as int) ==> level.is_none(),
    {
        let size = gray_dimensions(self);
        if x < size.0 && y < size.1 {
            Some(gray_get_pixel(self, x, y))
        } else {
            None
        }
    }
}

/// An `image::ImageBuffer` of `Rgba<u16>`: four 16-bit channels per pixel.
#[verifier::external_body]
pub struct Rgba16Buffer {
    inner: image::ImageBuffer<image::Rgba<u16>, Vec<u16>>,
}

/// The `(width, height)` that the buffer was made with.
pub uninterp spec fn rgba16_size(buf: Rgba16Buffer) -> (u32, u32);

/// The pixel stored at each `(x, y)` inside the buffer.
pub uninterp spec fn rgba16_pixels(buf: Rgba16Buffer) -> Map<(int, int), Rgba16>;

impl View for Rgba16Buffer {
    type V = Raster<Rgba16>;

    open spec fn view(&self) -> Raster<Rgba16> {
        Raster {
            width: rgba16_size(*self).0 as nat,
            height: rgba16_size(*self).1 as nat,
            pixels: rgba16_pixels(*self),
        }
    }
}

/// Calls `DynamicImage::new_rgba16` and takes the buffer out with
/// `to_rgba16`. `ImageBuffer::new` sets every channel to zero and panics
/// when the buffer would exceed what a `Vec` can hold, which the contract
/// rules out; `to_rgba16` on an image that already is 16-bit RGBA returns
/// a copy of its buffer.
#[verifier::external_body]
pub(crate) fn rgba16_blank(width: u32, height: u32) -> (buf: Rgba16Buffer)
    requires
        buffer_fits(width, height, 8),
    ensures
        rgba16_size(buf) == (width, height),
        rgba16_pixels(buf) == uniform_pixels(
            width as nat,
            height as nat,
            (0u16, 0u16, 0u16, 0u16),
        ),
{
    Rgba16Buffer { inner: DynamicImage::new_rgba16(width, height).to_rgba16() }
}

/// Calls `ImageBuffer::put_pixel`, which stores the pixel at `(x, y)` and
/// panics outside the buffer. The contract asks for a coordinate inside
/// the buffer and says that this one pixel changes and nothing else does.
#[verifier::external_body]
pub(crate) fn rgba16_put_pixel(buf: &mut Rgba16Buffer, x: u32, y: u32, pixel: Rgba16)
    requires
        x < rgba16_size(*old(buf)).0,
        y < rgba16_size(*old(buf)).1,
    ensures
        rgba16_size(*final(buf)) == rgba16_size(*old(buf)),
        rgba16_pixels(*final(buf)) == rgba16_pixels(*old(buf)).insert(
            (x as int, y as int),
            pixel,
        ),
{
    buf.inner.put_pixel(x, y, image::Rgba([pixel.0, pixel.1, pixel.2, pixel.3]));
}

/// Calls `ImageBuffer::dimensions`, which returns the width and height
/// that the buffer holds.
#[verifier::external_body]
pub(crate) fn rgba16_dimensions(buf: &Rgba16Buffer) -> (size: (u32, u32))
    ensures
        size == rgba16_size(*buf),
{
    buf.inner.dimensions()
}

/// Calls `ImageBuffer::get_pixel`, which hands out the pixel at `(x, y)`
/// and panics outside the buffer. The contract asks for a coordinate
/// inside the buffer and says that the channels returned are the ones
/// stored there.
#[verifier::external_body]
pub(crate) fn rgba16_get_pixel(buf: &Rgba16Buffer, x: u32, y: u32) -> (pixel: Rgba16)
    requires
        x < rgba16_size(*buf).0,
        y < rgba16_size(*buf).1,
    ensures
        pixel == rgba16_pixels(*buf)[(x as int, y as int)],
{
    let image::Rgba([r, g, b, a]) = *buf.inner.get_pixel(x, y);
    (r, g, b, a)
}

impl Rgba16Buffer {
    /// The pixel at `(x, y)`, or `None` outside the buffer.
    pub fn get_pixel(&self, x: u32, y: u32) -> (pixel: Option<Rgba16>)
        ensures
            self@.covers(x as int, y as int) ==> pixel == Some(self@.at(x as int, y as int)),
            !self@.covers(x as int, y as int) ==> pixel.is_none(),
    {
        let size = rgba16_dimensions(self);
        if x < size.0 && y < size.1 {
            Some(rgba16_get_pixel(self, x, y))
        } else {
            None
        }
    }
}

} // verus!
