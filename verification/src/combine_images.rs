//! Placing two images side by side on one canvas.

use crate::buffers::{rgba_blank, rgba_into_dynamic, rgba_set_pixel};
use crate::dynamic::{
    dynamic_dimensions, dynamic_format, dynamic_get_pixel, dynamic_pixels, dynamic_raster,
    dynamic_size, rgba8_format,
};
use crate::raster::{lemma_raster_ext, Raster, Rgba8, TRANSPARENT};
use image::DynamicImage;
use vstd::prelude::*;

verus! {

/// The larger of two heights.
pub open spec fn taller(a: nat, b: nat) -> nat {
    if a >= b {
        a
    } else {
        b
    }
}

/// The pixel at `(x, y)` of the composite of `left` and `right`: inside
/// `left`, its pixel; inside `right` once that is moved `left.width`
/// columns over, the pixel of `right`; anywhere else, transparent.
pub open spec fn side_by_side_pixel(left: Raster<Rgba8>, right: Raster<Rgba8>, x: int, y: int)
    -> Rgba8 {
    if left.covers(x, y) {
        left.at(x, y)
    } else if right.covers(x - left.width, y) {
        right.at(x - left.width, y)
    } else {
        TRANSPARENT
    }
}

/// The composite of two rasters: as wide as both together, as high as the
/// higher one, `left` at the origin and `right` directly beside it.
pub open spec fn side_by_side(left: Raster<Rgba8>, right: Raster<Rgba8>) -> Raster<Rgba8> {
    Raster {
        width: left.width + right.width,
        height: taller(left.height, right.height),
        pixels: Map::new(
            |c: (int, int)|
                0 <= c.0 < left.width + right.width && 0 <= c.1 < taller(
                    left.height,
                    right.height,
                ),
            |c: (int, int)| side_by_side_pixel(left, right, c.0, c.1),
        ),
    }
}

/// Whether the canvas for images of these two sizes can be made: its width
/// must fit in `u32`, and its bytes in one allocation.
pub open spec fn canvas_fits(left: (u32, u32), right: (u32, u32)) -> bool {
    &&& left.0 + right.0 <= u32::MAX
    &&& 4 * (left.0 + right.0) * taller(left.1 as nat, right.1 as nat) <= isize::MAX
}

/// The canvas while it is being painted: every row above `rows` is done,
/// and in row `rows` the first `left_done` columns of the left image and
/// the first `right_done` columns of the right image are. Everything else is
/// still transparent.
spec fn painted(
    left: Raster<Rgba8>,
    right: Raster<Rgba8>,
    rows: int,
    left_done: int,
    right_done: int,
) -> Map<(int, int), Rgba8> {
    Map::new(
        |c: (int, int)|
            0 <= c.0 < left.width + right.width && 0 <= c.1 < taller(left.height, right.height),
        |c: (int, int)|
            if c.1 < rows || (c.1 == rows && (c.0 < left_done || left.width <= c.0 < left.width
                + right_done)) {
                side_by_side_pixel(left, right, c.0, c.1)
            } else {
                TRANSPARENT
            },
    )
}

/// Combines two images into one, the first on the left and the second on
/// its right, both starting at the top row.
///
/// The result is an 8-bit RGBA image whatever the inputs were: each input
/// pixel is read as 8-bit RGBA and copied; what neither input covers stays
/// transparent. The inputs may be empty.
pub fn combine_side_by_side(img1: DynamicImage, img2: DynamicImage) -> (out: DynamicImage)
    requires
        canvas_fits(dynamic_size(img1), dynamic_size(img2)),
    ensures
        dynamic_raster(out) == side_by_side(dynamic_raster(img1), dynamic_raster(img2)),
        dynamic_format(out) == rgba8_format(),
        dynamic_size(out).0 == dynamic_size(img1).0 + dynamic_size(img2).0,
        dynamic_size(out).1 == taller(dynamic_size(img1).1 as nat, dynamic_size(img2).1 as nat),
        forall|x: int, y: int|
            0 <= x < dynamic_size(img1).0 && 0 <= y < dynamic_size(img1).1
                ==> dynamic_pixels(out)[(x, y)] == #[trigger] dynamic_pixels(img1)[(x, y)],
        forall|x: int, y: int|
            0 <= x < dynamic_size(img2).0 && 0 <= y < dynamic_size(img2).1 ==> dynamic_pixels(
                out,
            )[(dynamic_size(img1).0 + x, y)] == #[trigger] dynamic_pixels(img2)[(x, y)],
        forall|x: int, y: int|
            0 <= x < dynamic_size(out).0 && 0 <= y < dynamic_size(out).1 && !(x < dynamic_size(
                img1,
            ).0 && y < dynamic_size(img1).1) && !(dynamic_size(img1).0 <= x && y < dynamic_size(
                img2,
            ).1) ==> #[trigger] dynamic_pixels(out)[(x, y)] == TRANSPARENT,
{
    let d1 = dynamic_dimensions(&img1);
    let d2 = dynamic_dimensions(&img2);
    let ghost left = dynamic_raster(img1);
    let ghost right = dynamic_raster(img2);

    let new_width: u32 = d1.0 + d2.0;
    let new_height: u32 = if d1.1 >= d2.1 {
        d1.1
    } else {
        d2.1
    };

    let mut new_image = rgba_blank(new_width, new_height);
    assert(new_image@.pixels =~= painted(left, right, 0, 0, 0));

    let mut y: u32 = 0;
    while y < new_height
        invariant
            y <= new_height,
            left == dynamic_raster(img1),
            right == dynamic_raster(img2),
            d1 == dynamic_size(img1),
            d2 == dynamic_size(img2),
            new_width == d1.0 + d2.0,
            new_height == taller(d1.1 as nat, d2.1 as nat),
            new_image@.width == new_width,
            new_image@.height == new_height,
            new_image@.pixels == painted(left, right, y as int, 0, 0),
        decreases new_height - y,
    {
        if d1.1 > y {
            let mut x1: u32 = 0;
            while x1 < d1.0
                invariant
                    x1 <= d1.0,
                    y < d1.1,
                    y < new_height,
                    left == dynamic_raster(img1),
                    right == dynamic_raster(img2),
                    d1 == dynamic_size(img1),
                    d2 == dynamic_size(img2),
                    new_width == d1.0 + d2.0,
                    new_height == taller(d1.1 as nat, d2.1 as nat),
                    new_image@.width == new_width,
                    new_image@.height == new_height,
                    new_image@.pixels == painted(left, right, y as int, x1 as int, 0),
                decreases d1.0 - x1,
            {
                let pixel = dynamic_get_pixel(&img1, x1, y);
                rgba_set_pixel(&mut new_image, x1, y, pixel);
                assert(new_image@.pixels =~= painted(left, right, y as int, x1 + 1, 0));
                x1 += 1;
            }
        }
        assert(new_image@.pixels =~= painted(left, right, y as int, d1.0 as int, 0));

        if d2.1 > y {
            let mut x2: u32 = 0;
            while x2 < d2.0
                invariant
                    x2 <= d2.0,
                    y < d2.1,
                    y < new_height,
                    left == dynamic_raster(img1),
                    right == dynamic_raster(img2),
                    d1 == dynamic_size(img1),
                    d2 == dynamic_size(img2),
                    new_width == d1.0 + d2.0,
                    new_height == taller(d1.1 as nat, d2.1 as nat),
                    new_image@.width == new_width,
                    new_image@.height == new_height,
                    new_image@.pixels == painted(left, right, y as int, d1.0 as int, x2 as int),
                decreases d2.0 - x2,
            {
                let pixel = dynamic_get_pixel(&img2, x2, y);
                rgba_set_pixel(&mut new_image, d1.0 + x2, y, pixel);
                assert(new_image@.pixels =~= painted(
                    left,
                    right,
                    y as int,
                    d1.0 as int,
                    x2 + 1,
                ));
                x2 += 1;
            }
        }
        assert(new_image@.pixels =~= painted(left, right, y + 1, 0, 0));
        y += 1;
    }
    assert(new_image@.pixels =~= side_by_side(left, right).pixels);

    rgba_into_dynamic(new_image)
}

/// Decides `canvas_fits` for two sizes.
fn sizes_fit(left: (u32, u32), right: (u32, u32)) -> (fits: bool)
    ensures
        fits == canvas_fits(left, right),
{
    let width: u64 = left.0 as u64 + right.0 as u64;
    if width > u32::MAX as u64 {
        return false;
    }
    let height: u64 = if left.1 >= right.1 {
        left.1 as u64
    } else {
        right.1 as u64
    };
    assert(width * height <= 0xffff_ffff * 0xffff_ffff) by (nonlinear_arith)
        requires
            0 <= width <= 0xffff_ffff,
            0 <= height <= 0xffff_ffff,
    ;
    let pixels: u128 = width as u128 * height as u128;
    assert(4 * (left.0 + right.0) * taller(left.1 as nat, right.1 as nat) == 4 * pixels)
        by (nonlinear_arith)
        requires
            pixels == width * height,
            width == left.0 + right.0,
            height == taller(left.1 as nat, right.1 as nat),
    ;
    4 * pixels <= isize::MAX as u128
}

/// Combines two images as `combine_side_by_side` does wherever the canvas
/// can be made, and returns `None` where it cannot.
pub fn try_combine_side_by_side(img1: DynamicImage, img2: DynamicImage) -> (out: Option<
    DynamicImage,
>)
    ensures
        out.is_some() == canvas_fits(dynamic_size(img1), dynamic_size(img2)),
        out matches Some(combined) ==> {
            &&& dynamic_raster(combined) == side_by_side(
                dynamic_raster(img1),
                dynamic_raster(img2),
            )
            &&& dynamic_format(combined) == rgba8_format()
        },
{
    let d1 = dynamic_dimensions(&img1);
    let d2 = dynamic_dimensions(&img2);
    if sizes_fit(d1, d2) {
        Some(combine_side_by_side(img1, img2))
    } else {
        None
    }
}

/// The composite is as wide as both inputs together and as high as the
/// higher of the two.
pub proof fn lemma_side_by_side_size(left: Raster<Rgba8>, right: Raster<Rgba8>)
    ensures
        side_by_side(left, right).width == left.width + right.width,
        side_by_side(left, right).height == taller(left.height, right.height),
        side_by_side(left, right).height >= left.height,
        side_by_side(left, right).height >= right.height,
        side_by_side(left, right).height == left.height || side_by_side(left, right).height
            == right.height,
        side_by_side(left, right).well_formed(),
{
}

/// Wherever the left input has a pixel, the composite has the same pixel
/// at the same place.
pub proof fn lemma_left_region(left: Raster<Rgba8>, right: Raster<Rgba8>, x: int, y: int)
    requires
        left.covers(x, y),
    ensures
        side_by_side(left, right).covers(x, y),
        side_by_side(left, right).at(x, y) == left.at(x, y),
{
}

/// Wherever the right input has a pixel, the composite has the same pixel
/// as many columns further right as the left input is wide.
pub proof fn lemma_right_region(left: Raster<Rgba8>, right: Raster<Rgba8>, x: int, y: int)
    requires
        right.covers(x, y),
    ensures
        side_by_side(left, right).covers(left.width + x, y),
        side_by_side(left, right).at(left.width + x, y) == right.at(x, y),
{
}

/// Every pixel of the composite that neither input reaches is transparent.
/// Such pixels lie below the shorter input.
pub proof fn lemma_uncovered_region(left: Raster<Rgba8>, right: Raster<Rgba8>, x: int, y: int)
    requires
        side_by_side(left, right).covers(x, y),
        !left.covers(x, y),
        !right.covers(x - left.width, y),
    ensures
        side_by_side(left, right).at(x, y) == TRANSPARENT,
        x < left.width ==> left.height <= y < right.height,
        x >= left.width ==> right.height <= y < left.height,
{
}

/// With nothing on the left, the composite is as large as the size rule
/// says, holds the right input from column `left.width` on, and is
/// transparent everywhere else.
pub proof fn lemma_empty_left(left: Raster<Rgba8>, right: Raster<Rgba8>)
    requires
        left.is_empty(),
    ensures
        side_by_side(left, right).width == left.width + right.width,
        side_by_side(left, right).height == taller(left.height, right.height),
        forall|x: int, y: int| #[trigger]
            right.covers(x, y) ==> side_by_side(left, right).at(left.width + x, y) == right.at(
                x,
                y,
            ),
        forall|x: int, y: int|
            side_by_side(left, right).covers(x, y) && !right.covers(x - left.width, y)
                ==> #[trigger] side_by_side(left, right).at(x, y) == TRANSPARENT,
{
}

/// With nothing on the right, the composite is as large as the size rule
/// says, holds the left input at the origin, and is transparent everywhere
/// else.
pub proof fn lemma_empty_right(left: Raster<Rgba8>, right: Raster<Rgba8>)
    requires
        right.is_empty(),
    ensures
        side_by_side(left, right).width == left.width + right.width,
        side_by_side(left, right).height == taller(left.height, right.height),
        forall|x: int, y: int| #[trigger]
            left.covers(x, y) ==> side_by_side(left, right).at(x, y) == left.at(x, y),
        forall|x: int, y: int|
            side_by_side(left, right).covers(x, y) && !left.covers(x, y)
                ==> #[trigger] side_by_side(left, right).at(x, y) == TRANSPARENT,
{
}

/// An image with a zero-width image of no greater height on its left comes
/// out unchanged.
pub proof fn lemma_zero_width_left(left: Raster<Rgba8>, right: Raster<Rgba8>)
    requires
        right.well_formed(),
        left.width == 0,
        left.height <= right.height,
    ensures
        side_by_side(left, right) == right,
{
    assert(side_by_side(left, right).pixels =~= right.pixels) by {
        assert forall|c: (int, int)| #[trigger]
            right.pixels.dom().contains(c) implies side_by_side(left, right).pixels[c]
            == right.pixels[c] by {
            assert(right.covers(c.0, c.1));
            assert(c == (c.0, c.1));
        }
    }
}

/// An image with a zero-width image of no greater height on its right comes
/// out unchanged.
pub proof fn lemma_zero_width_right(left: Raster<Rgba8>, right: Raster<Rgba8>)
    requires
        left.well_formed(),
        right.width == 0,
        right.height <= left.height,
    ensures
        side_by_side(left, right) == left,
{
    assert(side_by_side(left, right).pixels =~= left.pixels) by {
        assert forall|c: (int, int)| #[trigger]
            left.pixels.dom().contains(c) implies side_by_side(left, right).pixels[c]
            == left.pixels[c] by {
            assert(left.covers(c.0, c.1));
            assert(c == (c.0, c.1));
        }
    }
}

/// The order of the inputs matters: where both hold a pixel at one
/// coordinate and the two pixels differ, swapping the inputs gives a
/// different composite.
pub proof fn lemma_order_matters(a: Raster<Rgba8>, b: Raster<Rgba8>, x: int, y: int)
    requires
        a.covers(x, y),
        b.covers(x, y),
        a.at(x, y) != b.at(x, y),
    ensures
        side_by_side(a, b) != side_by_side(b, a),
        side_by_side(a, b).at(x, y) != side_by_side(b, a).at(x, y),
{
    lemma_left_region(a, b, x, y);
    lemma_left_region(b, a, x, y);
}

/// Two different images of one size never give the same composite in both
/// orders.
pub proof fn lemma_swap_differs(a: Raster<Rgba8>, b: Raster<Rgba8>)
    requires
        a.well_formed(),
        b.well_formed(),
        a.width == b.width,
        a.height == b.height,
        a != b,
    ensures
        side_by_side(a, b) != side_by_side(b, a),
{
    if forall|x: int, y: int| a.covers(x, y) ==> a.at(x, y) == b.at(x, y) {
        lemma_raster_ext(a, b);
    } else {
        let (x, y) = choose|x: int, y: int| a.covers(x, y) && a.at(x, y) != b.at(x, y);
        lemma_order_matters(a, b, x, y);
    }
}

} // verus!
