//! The mathematical model of a raster image: a width, a height, and one
//! pixel value for every coordinate inside them.

use vstd::prelude::*;

verus! {

/// An 8-bit pixel as (red, green, blue, alpha).
pub type Rgba8 = (u8, u8, u8, u8);

/// A 16-bit pixel as (red, green, blue, alpha).
pub type Rgba16 = (u16, u16, u16, u16);

/// The pixel of a freshly made 8-bit RGBA image: black and fully transparent.
pub const TRANSPARENT: Rgba8 = (0, 0, 0, 0);

/// A grid of `width` columns and `height` rows. `pixels` is keyed by
/// `(x, y)`, with `x` counting columns from the left and `y` counting rows
/// from the top.
pub struct Raster<P> {
    pub width: nat,
    pub height: nat,
    pub pixels: Map<(int, int), P>,
}

/// The pixel map that holds `pixel` at every coordinate of a `width` by
/// `height` grid and nothing anywhere else.
pub open spec fn uniform_pixels<P>(width: nat, height: nat, pixel: P) -> Map<(int, int), P> {
    Map::new(
        |c: (int, int)| 0 <= c.0 < width && 0 <= c.1 < height,
        |c: (int, int)| pixel,
    )
}

impl<P> Raster<P> {
    /// Whether `(x, y)` lies inside the grid.
    pub open spec fn covers(self, x: int, y: int) -> bool {
        0 <= x < self.width && 0 <= y < self.height
    }

    /// The pixel at `(x, y)`; meaningful where `covers(x, y)`.
    pub open spec fn at(self, x: int, y: int) -> P
        recommends
            self.covers(x, y),
    {
        self.pixels[(x, y)]
    }

    /// A raster holds a pixel exactly at the coordinates it covers.
    pub open spec fn well_formed(self) -> bool {
        forall|c: (int, int)| #[trigger] self.pixels.dom().contains(c) <==> self.covers(c.0, c.1)
    }

    /// The raster of the given size with the same pixel everywhere.
    pub open spec fn filled(width: nat, height: nat, pixel: P) -> Raster<P> {
        Raster { width, height, pixels: uniform_pixels(width, height, pixel) }
    }

    /// The raster with no area at all.
    pub open spec fn is_empty(self) -> bool {
        self.width == 0 || self.height == 0
    }
}

/// Two well-formed rasters of one size are equal as soon as they agree on
/// every pixel they cover.
pub proof fn lemma_raster_ext<P>(a: Raster<P>, b: Raster<P>)
    requires
        a.well_formed(),
        b.well_formed(),
        a.width == b.width,
        a.height == b.height,
        forall|x: int, y: int| a.covers(x, y) ==> a.at(x, y) == b.at(x, y),
    ensures
        a == b,
{
    assert(a.pixels =~= b.pixels) by {
        assert forall|c: (int, int)| a.pixels.dom().contains(c) implies #[trigger] a.pixels[c]
            == b.pixels[c] by {
            assert(a.covers(c.0, c.1));
            assert(a.at(c.0, c.1) == b.at(c.0, c.1));
            assert(c == (c.0, c.1));
        }
    }
}

} // verus!
