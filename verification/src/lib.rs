//! Side-by-side compositing of raster images, with the pixel grids of the
//! `image` crate as the data structure underneath.

pub mod buffers;
pub mod combine_images;
pub mod cross;
pub mod dynamic;
pub mod raster;
