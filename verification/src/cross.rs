//! The plus-sign test patterns: a square of 25 by 25 pixels whose three
//! middle columns and three middle rows are inked.

use crate::buffers::{
    gray_blank, gray_put_pixel, rgba16_blank, rgba16_put_pixel, GrayBuffer, Rgba16Buffer,
};
use crate::raster::{Raster, Rgba16};
use vstd::prelude::*;

verus! {

/// Width and height of the pattern.
pub const CROSS_SIZE: u32 = 25;

/// First column, and first row, of the cross.
pub const CROSS_FIRST: u32 = 11;

/// Last column, and last row, of the cross.
pub const CROSS_LAST: u32 = 13;

/// The grey level of the cross on the 8-bit pattern.
pub const GRAY_INK: u8 = 255;

/// The colour of the cross on the 16-bit pattern.
pub const RGBA16_INK: Rgba16 = (65535, 65534, 65533, 65532);

/// Whether `(x, y)` lies on the cross: in one of its columns or in one of
/// its rows.
pub open spec fn on_cross(x: int, y: int) -> bool {
    CROSS_FIRST <= x <= CROSS_LAST || CROSS_FIRST <= y <= CROSS_LAST
}

/// The pattern itself: `ink` on the cross, `ground` everywhere else.
pub open spec fn cross_pattern<P>(ink: P, ground: P) -> Raster<P> {
    Raster {
        width: CROSS_SIZE as nat,
        height: CROSS_SIZE as nat,
        pixels: Map::new(
            |c: (int, int)| 0 <= c.0 < CROSS_SIZE && 0 <= c.1 < CROSS_SIZE,
            |c: (int, int)|
                if on_cross(c.0, c.1) {
                    ink
                } else {
                    ground
                },
        ),
    }
}

/// The pattern while it is being drawn: the bars before `bar` are inked in
/// full, column and row alike, and of bar `bar` the first `along` pixels
/// are.
spec fn cross_drawn<P>(ink: P, ground: P, bar: int, along: int) -> Map<(int, int), P> {
    Map::new(
        |c: (int, int)| 0 <= c.0 < CROSS_SIZE && 0 <= c.1 < CROSS_SIZE,
        |c: (int, int)|
            if CROSS_FIRST <= c.0 < bar || CROSS_FIRST <= c.1 < bar || (c.0 == bar && c.1 < along)
                || (c.1 == bar && c.0 < along) {
                ink
            } else {
                ground
            },
    )
}

/// Draws the pattern in 8-bit grey: white on black.
pub fn make_gray_cross() -> (img: GrayBuffer)
    ensures
        img@ == cross_pattern(GRAY_INK, 0u8),
        img@.width == CROSS_SIZE && img@.height == CROSS_SIZE,
        forall|x: int, y: int|
            0 <= x < CROSS_SIZE && 0 <= y < CROSS_SIZE ==> #[trigger] img@.at(x, y) == if on_cross(
                x,
                y,
            ) {
                GRAY_INK
            } else {
                0u8
            },
{
    let mut img = gray_blank(CROSS_SIZE, CROSS_SIZE);
    assert(img@.pixels =~= cross_drawn(GRAY_INK, 0u8, CROSS_FIRST as int, 0));

    let mut x: u32 = CROSS_FIRST;
    while x <= CROSS_LAST
        invariant
            CROSS_FIRST <= x <= CROSS_LAST + 1,
            img@.width == CROSS_SIZE,
            img@.height == CROSS_SIZE,
            img@.pixels == cross_drawn(GRAY_INK, 0u8, x as int, 0),
        decreases CROSS_LAST + 1 - x,
    {
        let mut y: u32 = 0;
        while y < CROSS_SIZE
            invariant
                CROSS_FIRST <= x <= CROSS_LAST,
                y <= CROSS_SIZE,
                img@.width == CROSS_SIZE,
                img@.height == CROSS_SIZE,
                img@.pixels == cross_drawn(GRAY_INK, 0u8, x as int, y as int),
            decreases CROSS_SIZE - y,
        {
            gray_put_pixel(&mut img, x, y, GRAY_INK);
            gray_put_pixel(&mut img, y, x, GRAY_INK);
            assert(img@.pixels =~= cross_drawn(GRAY_INK, 0u8, x as int, y + 1));
            y += 1;
        }
        assert(img@.pixels =~= cross_drawn(GRAY_INK, 0u8, x + 1, 0));
        x += 1;
    }
    assert(img@.pixels =~= cross_pattern(GRAY_INK, 0u8).pixels);
    img
}

/// Draws the pattern in 16-bit RGBA: near-white and near-opaque on
/// transparent black, with a different value in each channel.
pub fn make_rgba16_cross() -> (img: Rgba16Buffer)
    ensures
        img@ == cross_pattern(RGBA16_INK, (0u16, 0u16, 0u16, 0u16)),
        img@.width == CROSS_SIZE && img@.height == CROSS_SIZE,
        forall|x: int, y: int|
            0 <= x < CROSS_SIZE && 0 <= y < CROSS_SIZE ==> #[trigger] img@.at(x, y) == if on_cross(
                x,
                y,
            ) {
                RGBA16_INK
            } else {
                (0u16, 0u16, 0u16, 0u16)
            },
{
    let ghost ground = (0u16, 0u16, 0u16, 0u16);
    let mut img = rgba16_blank(CROSS_SIZE, CROSS_SIZE);
    assert(img@.pixels =~= cross_drawn(RGBA16_INK, ground, CROSS_FIRST as int, 0));

    let mut x: u32 = CROSS_FIRST;
    while x <= CROSS_LAST
        invariant
            CROSS_FIRST <= x <= CROSS_LAST + 1,
            ground == (0u16, 0u16, 0u16, 0u16),
            img@.width == CROSS_SIZE,
            img@.height == CROSS_SIZE,
            img@.pixels == cross_drawn(RGBA16_INK, ground, x as int, 0),
        decreases CROSS_LAST + 1 - x,
    {
        let mut y: u32 = 0;
        while y < CROSS_SIZE
            invariant
                CROSS_FIRST <= x <= CROSS_LAST,
                y <= CROSS_SIZE,
                ground == (0u16, 0u16, 0u16, 0u16),
                img@.width == CROSS_SIZE,
                img@.height == CROSS_SIZE,
                img@.pixels == cross_drawn(RGBA16_INK, ground, x as int, y as int),
            decreases CROSS_SIZE - y,
        {
            rgba16_put_pixel(&mut img, x, y, RGBA16_INK);
            rgba16_put_pixel(&mut img, y, x, RGBA16_INK);
            assert(img@.pixels =~= cross_drawn(RGBA16_INK, ground, x as int, y + 1));
            y += 1;
        }
        assert(img@.pixels =~= cross_drawn(RGBA16_INK, ground, x + 1, 0));
        x += 1;
    }
    assert(img@.pixels =~= cross_pattern(RGBA16_INK, ground).pixels);
    img
}

} // verus!
