use imgzap::icon::select_largest;
use imgzap::pixels::{flatten_alpha, to_rgba, Bitmap, PixelLayout};
use imgzap::vector::{demultiply_u8, sample_rendered};

#[test]
fn flatten_drops_alpha() {
    let b = Bitmap { width: 2, height: 1, layout: PixelLayout::Rgba8, data: vec![10, 20, 30, 0, 40, 50, 60, 255] };
    let r = flatten_alpha(&b);
    assert_eq!(r.layout, PixelLayout::Rgb8);
    assert_eq!((r.width, r.height), (2, 1));
    assert_eq!(r.data, vec![10, 20, 30, 40, 50, 60]);
}

#[test]
fn flatten_copies_grey() {
    let b = Bitmap { width: 1, height: 2, layout: PixelLayout::LumaA8, data: vec![7, 100, 9, 0] };
    assert_eq!(flatten_alpha(&b).data, vec![7, 7, 7, 9, 9, 9]);
    let rgb = Bitmap { width: 1, height: 1, layout: PixelLayout::Rgb8, data: vec![1, 2, 3] };
    assert_eq!(flatten_alpha(&rgb).data, vec![1, 2, 3]);
}

#[test]
fn rgba_adds_opaque_alpha() {
    let b = Bitmap { width: 2, height: 1, layout: PixelLayout::Luma8, data: vec![5, 6] };
    let r = to_rgba(&b);
    assert_eq!(r.layout, PixelLayout::Rgba8);
    assert_eq!(r.data, vec![5, 5, 5, 255, 6, 6, 6, 255]);
    let rgb = Bitmap { width: 1, height: 1, layout: PixelLayout::Rgb8, data: vec![1, 2, 3] };
    assert_eq!(to_rgba(&rgb).data, vec![1, 2, 3, 255]);
}

#[test]
fn demultiply_values() {
    assert_eq!(demultiply_u8(2, 40), 13);
    assert_eq!(demultiply_u8(3, 40), 19);
    assert_eq!(demultiply_u8(5, 40), 32);
    assert_eq!(demultiply_u8(77, 255), 77);
    assert_eq!(demultiply_u8(0, 0), 0);
    assert_eq!(demultiply_u8(128, 128), 255);
    assert_eq!(demultiply_u8(200, 100), 255);
}

#[test]
fn sampling_has_the_requested_size() {
    let surface = vec![0u8; 128 * 128 * 4];
    let r = sample_rendered(&surface, 128, 128, 128);
    assert_eq!((r.width, r.height), (128, 128));
    assert_eq!(r.data.len(), 128 * 128 * 4);
    assert_eq!(r.layout, PixelLayout::Rgba8);
}

#[test]
fn sampling_outside_the_surface_is_transparent() {
    // one premultiplied pixel, half-transparent red
    let surface = vec![64, 0, 0, 128];
    let r = sample_rendered(&surface, 1, 1, 2);
    assert_eq!(r.data, vec![128, 0, 0, 128, 0, 0, 0, 0, 0, 0, 0, 0, 0, 0, 0, 0]);
}

#[test]
fn largest_entry_is_the_first_of_maximal_area() {
    assert_eq!(select_largest(&vec![(16, 16), (32, 32), (64, 64)]), Some(2));
    assert_eq!(select_largest(&vec![(64, 64), (32, 32), (16, 16)]), Some(0));
    assert_eq!(select_largest(&vec![(32, 8), (16, 16), (8, 32)]), Some(0));
    assert_eq!(select_largest(&vec![(16, 16), (256, 1), (4, 4)]), Some(0));
    assert_eq!(select_largest(&vec![]), None);
}
