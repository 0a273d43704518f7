use image::{DynamicImage, GenericImageView, GrayImage, ImageBuffer, Luma, Rgb, Rgba, RgbaImage};
use side_by_side::combine_images::{combine_side_by_side, try_combine_side_by_side};

fn rgba(width: u32, height: u32, seed: u8) -> DynamicImage {
    let mut img = RgbaImage::new(width, height);
    for y in 0..height {
        for x in 0..width {
            let v = seed.wrapping_add((y * width + x) as u8);
            img.put_pixel(x, y, Rgba([v, v.wrapping_add(1), v.wrapping_add(2), 200]));
        }
    }
    DynamicImage::ImageRgba8(img)
}

fn check_composite(a: &DynamicImage, b: &DynamicImage, out: &DynamicImage) {
    let (wa, ha) = a.dimensions();
    let (wb, hb) = b.dimensions();
    assert_eq!(out.dimensions(), (wa + wb, ha.max(hb)));
    assert_eq!(out.color(), image::ColorType::Rgba8);
    for y in 0..ha.max(hb) {
        for x in 0..wa + wb {
            let expected = if x < wa && y < ha {
                a.get_pixel(x, y)
            } else if x >= wa && y < hb {
                b.get_pixel(x - wa, y)
            } else {
                Rgba([0, 0, 0, 0])
            };
            assert_eq!(out.get_pixel(x, y), expected, "at ({}, {})", x, y);
        }
    }
}

#[test]
fn size_is_sum_of_widths_and_larger_height() {
    let out = combine_side_by_side(rgba(3, 2, 10), rgba(4, 5, 90));
    assert_eq!(out.dimensions(), (7, 5));
    let out = combine_side_by_side(rgba(4, 5, 10), rgba(3, 2, 90));
    assert_eq!(out.dimensions(), (7, 5));
    let out = combine_side_by_side(rgba(1, 1, 0), rgba(1, 1, 0));
    assert_eq!(out.dimensions(), (2, 1));
}

#[test]
fn left_image_is_copied_at_the_origin() {
    let a = rgba(3, 4, 10);
    let b = rgba(2, 2, 90);
    let out = combine_side_by_side(a.clone(), b);
    for y in 0..4 {
        for x in 0..3 {
            assert_eq!(out.get_pixel(x, y), a.get_pixel(x, y));
        }
    }
    assert_eq!(out.get_pixel(0, 0), Rgba([10, 11, 12, 200]));
    assert_eq!(out.get_pixel(2, 3), Rgba([21, 22, 23, 200]));
}

#[test]
fn right_image_is_copied_beside_the_left() {
    let a = rgba(3, 4, 10);
    let b = rgba(2, 2, 90);
    let out = combine_side_by_side(a, b.clone());
    for y in 0..2 {
        for x in 0..2 {
            assert_eq!(out.get_pixel(3 + x, y), b.get_pixel(x, y));
        }
    }
    assert_eq!(out.get_pixel(3, 0), Rgba([90, 91, 92, 200]));
    assert_eq!(out.get_pixel(4, 1), Rgba([93, 94, 95, 200]));
}

#[test]
fn below_the_shorter_image_the_canvas_stays_transparent() {
    let out = combine_side_by_side(rgba(3, 4, 10), rgba(2, 2, 90));
    for y in 2..4 {
        for x in 3..5 {
            assert_eq!(out.get_pixel(x, y), Rgba([0, 0, 0, 0]));
        }
    }
    let out = combine_side_by_side(rgba(2, 1, 10), rgba(2, 3, 90));
    for y in 1..3 {
        for x in 0..2 {
            assert_eq!(out.get_pixel(x, y), Rgba([0, 0, 0, 0]));
        }
    }
    assert_eq!(out.get_pixel(2, 2), Rgba([94, 95, 96, 200]));
}

#[test]
fn every_pixel_of_the_composite_is_accounted_for() {
    let cases = [(3, 4, 2, 2), (2, 2, 3, 4), (1, 7, 5, 7), (6, 1, 1, 6)];
    for (wa, ha, wb, hb) in cases {
        let a = rgba(wa, ha, 7);
        let b = rgba(wb, hb, 130);
        let out = combine_side_by_side(a.clone(), b.clone());
        check_composite(&a, &b, &out);
    }
}

#[test]
fn empty_left_image() {
    let b = rgba(3, 2, 50);
    let out = combine_side_by_side(rgba(0, 0, 0), b.clone());
    assert_eq!(out.dimensions(), (3, 2));
    assert_eq!(out, b);

    let out = combine_side_by_side(rgba(0, 5, 0), b.clone());
    assert_eq!(out.dimensions(), (3, 5));
    check_composite(&rgba(0, 5, 0), &b, &out);
    assert_eq!(out.get_pixel(2, 1), b.get_pixel(2, 1));
    assert_eq!(out.get_pixel(2, 4), Rgba([0, 0, 0, 0]));

    let out = combine_side_by_side(rgba(4, 0, 0), b.clone());
    assert_eq!(out.dimensions(), (7, 2));
    check_composite(&rgba(4, 0, 0), &b, &out);
    assert_eq!(out.get_pixel(0, 0), Rgba([0, 0, 0, 0]));
    assert_eq!(out.get_pixel(4, 0), b.get_pixel(0, 0));
}

#[test]
fn empty_right_image() {
    let a = rgba(3, 2, 50);
    let out = combine_side_by_side(a.clone(), rgba(0, 0, 0));
    assert_eq!(out.dimensions(), (3, 2));
    assert_eq!(out, a);

    let out = combine_side_by_side(a.clone(), rgba(0, 5, 0));
    assert_eq!(out.dimensions(), (3, 5));
    check_composite(&a, &rgba(0, 5, 0), &out);
    assert_eq!(out.get_pixel(1, 1), a.get_pixel(1, 1));
    assert_eq!(out.get_pixel(1, 3), Rgba([0, 0, 0, 0]));

    let out = combine_side_by_side(a.clone(), rgba(4, 0, 0));
    assert_eq!(out.dimensions(), (7, 2));
    check_composite(&a, &rgba(4, 0, 0), &out);
    assert_eq!(out.get_pixel(6, 1), Rgba([0, 0, 0, 0]));
}

#[test]
fn two_empty_images() {
    let out = combine_side_by_side(rgba(0, 0, 0), rgba(0, 0, 0));
    assert_eq!(out.dimensions(), (0, 0));
    let out = combine_side_by_side(rgba(2, 0, 0), rgba(3, 0, 0));
    assert_eq!(out.dimensions(), (5, 0));
    let out = combine_side_by_side(rgba(0, 2, 0), rgba(0, 3, 0));
    assert_eq!(out.dimensions(), (0, 3));
}

#[test]
fn the_order_of_the_inputs_matters() {
    let a = rgba(2, 2, 10);
    let b = rgba(2, 2, 90);
    assert_ne!(a, b);
    let ab = combine_side_by_side(a.clone(), b.clone());
    let ba = combine_side_by_side(b.clone(), a.clone());
    assert_ne!(ab, ba);
    assert_eq!(ab.get_pixel(0, 0), a.get_pixel(0, 0));
    assert_eq!(ba.get_pixel(0, 0), b.get_pixel(0, 0));

    let c = rgba(3, 1, 10);
    let d = rgba(1, 4, 11);
    let cd = combine_side_by_side(c.clone(), d.clone());
    let dc = combine_side_by_side(d, c);
    assert_eq!(cd.dimensions(), dc.dimensions());
    assert_ne!(cd, dc);
}

#[test]
fn a_repeated_tile_combines_the_same_in_both_orders() {
    let mut one = RgbaImage::new(1, 1);
    one.put_pixel(0, 0, Rgba([9, 8, 7, 6]));
    let mut two = RgbaImage::new(2, 1);
    two.put_pixel(0, 0, Rgba([9, 8, 7, 6]));
    two.put_pixel(1, 0, Rgba([9, 8, 7, 6]));
    let a = DynamicImage::ImageRgba8(one);
    let b = DynamicImage::ImageRgba8(two);
    assert_ne!(a, b);
    let ab = combine_side_by_side(a.clone(), b.clone());
    let ba = combine_side_by_side(b, a);
    assert_eq!(ab, ba);
}

#[test]
fn the_result_is_eight_bit_rgba_whatever_the_inputs() {
    let mut gray = GrayImage::new(2, 2);
    gray.put_pixel(0, 0, Luma([255]));
    gray.put_pixel(1, 1, Luma([40]));
    let mut deep: ImageBuffer<Rgba<u16>, Vec<u16>> = ImageBuffer::new(1, 3);
    deep.put_pixel(0, 0, Rgba([65535, 0, 257, 65535]));
    deep.put_pixel(0, 2, Rgba([514, 771, 1028, 1285]));
    let a = DynamicImage::ImageLuma8(gray);
    let b = DynamicImage::ImageRgba16(deep);

    let out = combine_side_by_side(a.clone(), b.clone());
    assert_eq!(out.color(), image::ColorType::Rgba8);
    assert_eq!(out.dimensions(), (3, 3));
    assert_eq!(out.get_pixel(0, 0), Rgba([255, 255, 255, 255]));
    assert_eq!(out.get_pixel(1, 0), Rgba([0, 0, 0, 255]));
    assert_eq!(out.get_pixel(1, 1), Rgba([40, 40, 40, 255]));
    assert_eq!(out.get_pixel(0, 2), Rgba([0, 0, 0, 0]));
    assert_eq!(out.get_pixel(2, 0), Rgba([255, 0, 1, 255]));
    assert_eq!(out.get_pixel(2, 1), Rgba([0, 0, 0, 0]));
    assert_eq!(out.get_pixel(2, 2), Rgba([2, 3, 4, 5]));
    check_composite(&a, &b, &out);
}

#[test]
fn an_rgb_input_gains_an_opaque_alpha_channel() {
    let mut rgb = image::RgbImage::new(1, 1);
    rgb.put_pixel(0, 0, Rgb([1, 2, 3]));
    let out = combine_side_by_side(DynamicImage::ImageRgb8(rgb), rgba(1, 1, 77));
    assert_eq!(out.get_pixel(0, 0), Rgba([1, 2, 3, 255]));
    assert_eq!(out.get_pixel(1, 0), Rgba([77, 78, 79, 200]));
}

#[test]
fn the_inputs_are_left_as_they_were() {
    let a = rgba(2, 3, 5);
    let b = rgba(3, 2, 60);
    let a_before = a.clone();
    let b_before = b.clone();
    let _ = combine_side_by_side(a.clone(), b.clone());
    assert_eq!(a, a_before);
    assert_eq!(b, b_before);
}

#[test]
fn try_combine_gives_the_same_composite() {
    let a = rgba(3, 4, 10);
    let b = rgba(2, 2, 90);
    let direct = combine_side_by_side(a.clone(), b.clone());
    let tried = try_combine_side_by_side(a.clone(), b.clone());
    assert_eq!(tried, Some(direct));
    let tried = try_combine_side_by_side(rgba(0, 0, 0), rgba(0, 0, 0)).unwrap();
    assert_eq!(tried.dimensions(), (0, 0));
}

#[test]
fn try_combine_refuses_a_width_beyond_u32() {
    let wide = DynamicImage::new_rgba8(u32::MAX, 0);
    let one = DynamicImage::new_rgba8(1, 0);
    assert!(try_combine_side_by_side(wide.clone(), one.clone()).is_none());
    assert!(try_combine_side_by_side(one.clone(), wide.clone()).is_none());
    let widest = DynamicImage::new_rgba8(u32::MAX - 1, 0);
    let out = try_combine_side_by_side(widest, one).unwrap();
    assert_eq!(out.dimensions(), (u32::MAX, 0));
}

#[test]
fn try_combine_refuses_a_canvas_beyond_one_allocation() {
    let wide = DynamicImage::new_rgba8(u32::MAX, 0);
    let high = DynamicImage::new_rgba8(0, u32::MAX);
    if (isize::MAX as u128) < 4 * (u32::MAX as u128) * (u32::MAX as u128) {
        assert!(try_combine_side_by_side(wide, high).is_none());
    }
}
