use imgzap::codec::{convert_bytes, convert_rendered, decode_source, encode_bitmap};
use imgzap::error::ConvertError;
use imgzap::icon::{decode_largest, default_sizes, encode_icon, icon_frames};
use imgzap::pixels::{Bitmap, PixelLayout};
use imgzap::ImageFormatExt;

const SVG_DOC: &str = r##"<svg xmlns="http://www.w3.org/2000/svg" width="40" height="20" viewBox="0 0 40 20"><rect x="0" y="0" width="20" height="20" fill="#ff0000"/><rect x="20" y="0" width="20" height="20" fill="#0000ff" fill-opacity="0.5"/></svg>"##;

fn rgba_bitmap(w: u32, h: u32) -> Bitmap {
    let mut data = Vec::new();
    for y in 0..h {
        for x in 0..w {
            data.extend_from_slice(&[(x * 7) as u8, (y * 5) as u8, 90, if x % 2 == 0 { 255 } else { 60 }]);
        }
    }
    Bitmap { width: w, height: h, layout: PixelLayout::Rgba8, data }
}

fn png_bytes(w: u32, h: u32) -> Vec<u8> {
    encode_bitmap(&rgba_bitmap(w, h), ImageFormatExt::Png).unwrap()
}

fn icon_with_sizes(sizes: &[u32]) -> Vec<u8> {
    encode_icon(&rgba_bitmap(64, 64), &sizes.to_vec()).unwrap()
}

fn render_svg(size: u32) -> (Vec<u8>, u32, u32) {
    let opt = resvg::usvg::Options::default();
    let tree = resvg::usvg::Tree::from_data(SVG_DOC.as_bytes(), &opt).unwrap();
    let mut pixmap = resvg::tiny_skia::Pixmap::new(size, size).unwrap();
    let doc = tree.size();
    let transform = resvg::tiny_skia::Transform::from_scale(size as f32 / doc.width(), size as f32 / doc.height());
    resvg::render(&tree, transform, &mut pixmap.as_mut());
    (pixmap.data().to_vec(), pixmap.width(), pixmap.height())
}

fn fixture(format: ImageFormatExt) -> Vec<u8> {
    match format {
        ImageFormatExt::Png => png_bytes(8, 8),
        ImageFormatExt::Ico => icon_with_sizes(&[16, 32]),
        ImageFormatExt::Svg => SVG_DOC.as_bytes().to_vec(),
        other => encode_bitmap(&rgba_bitmap(8, 8), other).unwrap(),
    }
}

fn convert_any(bytes: &[u8], source: ImageFormatExt, target: ImageFormatExt) -> Result<Vec<u8>, ConvertError> {
    if source == ImageFormatExt::Svg {
        let (surface, w, h) = render_svg(64);
        convert_rendered(&surface, w, h, 64, target)
    } else {
        convert_bytes(bytes, source, target)
    }
}

fn decodes_as(bytes: &[u8], format: ImageFormatExt) -> bool {
    match format {
        ImageFormatExt::Svg => {
            let text = String::from_utf8(bytes.to_vec()).unwrap();
            resvg::usvg::Tree::from_str(&text, &resvg::usvg::Options::default()).is_ok()
        }
        ImageFormatExt::Ico => ico::IconDir::read(std::io::Cursor::new(bytes)).is_ok(),
        // no AVIF decoder is built in: the container signature is checked instead
        ImageFormatExt::Avif => image::guess_format(bytes).ok() == Some(image::ImageFormat::Avif),
        other => {
            let expected = match other {
                ImageFormatExt::Png => image::ImageFormat::Png,
                ImageFormatExt::Jpeg => image::ImageFormat::Jpeg,
                ImageFormatExt::WebP => image::ImageFormat::WebP,
                ImageFormatExt::Tiff => image::ImageFormat::Tiff,
                _ => image::ImageFormat::Bmp,
            };
            image::load_from_memory_with_format(bytes, expected).is_ok()
        }
    }
}

#[test]
fn every_pair_of_formats_converts() {
    let all = ImageFormatExt::get_all();
    for (a, _) in all.iter() {
        // AVIF sources need a decoder that is not built in
        if *a == ImageFormatExt::Avif {
            continue;
        }
        let src = fixture(*a);
        for (b, _) in all.iter() {
            if a == b {
                continue;
            }
            let out = convert_any(&src, *a, *b).unwrap_or_else(|e| panic!("{:?} -> {:?}: {}", a, b, e.describe()));
            assert!(decodes_as(&out, *b), "{:?} -> {:?} does not decode", a, b);
        }
    }
}

#[test]
fn icon_entries_follow_the_requested_order() {
    let sizes = default_sizes();
    assert_eq!(sizes, vec![16, 32, 48, 64, 128, 256]);
    let frames = icon_frames(&rgba_bitmap(20, 20), &sizes).unwrap();
    let made: Vec<u32> = frames.iter().map(|f| f.width()).collect();
    assert_eq!(made, sizes);
    let bytes = encode_icon(&rgba_bitmap(20, 20), &sizes).unwrap();
    let dir = ico::IconDir::read(std::io::Cursor::new(bytes)).unwrap();
    let found: Vec<u32> = dir.entries().iter().map(|e| e.width()).collect();
    assert_eq!(found, sizes);
    for e in dir.entries() {
        assert_eq!(e.width(), e.height());
        assert!(e.is_png());
    }
}

#[test]
fn icon_order_is_kept_when_unsorted() {
    let bytes = icon_with_sizes(&[48, 16, 256, 32]);
    let dir = ico::IconDir::read(std::io::Cursor::new(bytes)).unwrap();
    let found: Vec<u32> = dir.entries().iter().map(|e| e.width()).collect();
    assert_eq!(found, vec![48, 16, 256, 32]);
}

#[test]
fn icon_decode_picks_the_largest_frame() {
    let bytes = icon_with_sizes(&[16, 32, 64]);
    let b = decode_source(&bytes, ImageFormatExt::Ico).unwrap();
    assert_eq!((b.width, b.height), (64, 64));
    assert_eq!(b.layout, PixelLayout::Rgba8);
    assert_eq!(b.data.len(), 64 * 64 * 4);
    let dir = ico::IconDir::read(std::io::Cursor::new(icon_with_sizes(&[64, 16, 32]))).unwrap();
    let b = decode_largest(&dir).unwrap();
    assert_eq!((b.width, b.height), (64, 64));
}

#[test]
fn empty_icon_container_is_refused() {
    let bytes = vec![0u8, 0, 1, 0, 0, 0];
    assert!(matches!(decode_source(&bytes, ImageFormatExt::Ico), Err(ConvertError::EmptyContainer)));
    assert!(matches!(convert_bytes(&bytes, ImageFormatExt::Ico, ImageFormatExt::Png), Err(ConvertError::EmptyContainer)));
}

#[test]
fn icon_sizes_out_of_range_are_refused() {
    let b = rgba_bitmap(4, 4);
    assert!(matches!(encode_icon(&b, &vec![16, 300]), Err(ConvertError::Encode(_))));
    assert!(matches!(encode_icon(&b, &vec![0]), Err(ConvertError::Encode(_))));
    assert!(matches!(encode_icon(&b, &vec![]), Err(ConvertError::Encode(_))));
}

#[test]
fn jpeg_from_transparent_source_is_rgb() {
    let png = png_bytes(16, 16);
    let jpeg = convert_bytes(&png, ImageFormatExt::Png, ImageFormatExt::Jpeg).unwrap();
    let back = image::load_from_memory_with_format(&jpeg, image::ImageFormat::Jpeg).unwrap();
    assert_eq!(back.color(), image::ColorType::Rgb8);
    assert_eq!((back.width(), back.height()), (16, 16));
}

#[test]
fn png_to_icon_and_back_is_the_largest_size() {
    let png = png_bytes(64, 64);
    let icon = convert_bytes(&png, ImageFormatExt::Png, ImageFormatExt::Ico).unwrap();
    let back = convert_bytes(&icon, ImageFormatExt::Ico, ImageFormatExt::Png).unwrap();
    let img = image::load_from_memory_with_format(&back, image::ImageFormat::Png).unwrap();
    assert_eq!((img.width(), img.height()), (256, 256));
}

#[test]
fn batch_with_a_corrupt_file_converts_the_others() {
    let inputs: Vec<(Vec<u8>, ImageFormatExt)> = vec![
        (encode_bitmap(&rgba_bitmap(8, 8), ImageFormatExt::Bmp).unwrap(), ImageFormatExt::Bmp),
        (b"this is not an image".to_vec(), ImageFormatExt::Jpeg),
        (icon_with_sizes(&[16]), ImageFormatExt::Ico),
    ];
    let results: Vec<Result<Vec<u8>, ConvertError>> =
        inputs.iter().map(|(b, f)| convert_bytes(b, *f, ImageFormatExt::Png)).collect();
    assert!(decodes_as(results[0].as_ref().unwrap(), ImageFormatExt::Png));
    assert!(matches!(results[1], Err(ConvertError::Decode(_))));
    assert!(decodes_as(results[2].as_ref().unwrap(), ImageFormatExt::Png));
}

#[test]
fn rasterized_vector_has_the_requested_size() {
    let (surface, w, h) = render_svg(128);
    let png = convert_rendered(&surface, w, h, 128, ImageFormatExt::Png).unwrap();
    let img = image::load_from_memory_with_format(&png, image::ImageFormat::Png).unwrap();
    assert_eq!((img.width(), img.height()), (128, 128));
    // left half opaque red, right half half-transparent blue, straight alpha
    let rgba = img.to_rgba8();
    assert_eq!(rgba.get_pixel(10, 64).0, [255, 0, 0, 255]);
    let p = rgba.get_pixel(100, 64).0;
    assert_eq!((p[0], p[1], p[3]), (0, 0, 128));
    assert!(p[2] >= 254);
}

#[test]
fn same_format_and_vector_sources_are_refused() {
    let png = png_bytes(4, 4);
    assert!(matches!(convert_bytes(&png, ImageFormatExt::Png, ImageFormatExt::Png), Err(ConvertError::Unsupported)));
    assert!(matches!(convert_bytes(SVG_DOC.as_bytes(), ImageFormatExt::Svg, ImageFormatExt::Png), Err(ConvertError::Unsupported)));
    assert!(matches!(convert_rendered(&vec![0; 4], 1, 1, 1, ImageFormatExt::Svg), Err(ConvertError::Unsupported)));
}

#[test]
fn tracing_an_empty_image_fails() {
    let empty = Bitmap { width: 0, height: 0, layout: PixelLayout::Rgba8, data: vec![] };
    assert!(matches!(encode_bitmap(&empty, ImageFormatExt::Svg), Err(ConvertError::EmptyImage)));
}

#[test]
fn traced_document_is_svg_text() {
    let svg = encode_bitmap(&rgba_bitmap(12, 12), ImageFormatExt::Svg).unwrap();
    let text = String::from_utf8(svg).unwrap();
    assert!(text.contains("<svg"));
}

#[test]
fn grey_source_keeps_its_layout_in_png() {
    let grey = Bitmap { width: 3, height: 2, layout: PixelLayout::Luma8, data: vec![0, 50, 100, 150, 200, 250] };
    let png = encode_bitmap(&grey, ImageFormatExt::Png).unwrap();
    let back = decode_source(&png, ImageFormatExt::Png).unwrap();
    assert_eq!(back.layout, PixelLayout::Luma8);
    assert_eq!(back.data, vec![0, 50, 100, 150, 200, 250]);
}

#[test]
fn unreadable_bytes_are_a_decode_error() {
    assert!(matches!(decode_source(b"xx", ImageFormatExt::Png), Err(ConvertError::Decode(_))));
    assert!(matches!(decode_source(b"xx", ImageFormatExt::Ico), Err(ConvertError::Decode(_))));
}

#[test]
fn traced_document_is_framed() {
    let svg = encode_bitmap(&rgba_bitmap(10, 6), ImageFormatExt::Svg).unwrap();
    let text = String::from_utf8(svg).unwrap();
    assert!(text.starts_with("<?xml "));
    assert!(text.ends_with("</svg>\n"));
}

#[test]
fn equal_icon_calls_give_equal_bytes() {
    let a = encode_icon(&rgba_bitmap(30, 20), &default_sizes()).unwrap();
    let b = encode_icon(&rgba_bitmap(30, 20), &default_sizes()).unwrap();
    assert_eq!(a, b);
}

#[test]
fn icon_frames_keep_the_grey_layout() {
    let grey = Bitmap { width: 2, height: 2, layout: PixelLayout::Luma8, data: vec![0, 80, 160, 240] };
    let bytes = encode_icon(&grey, &vec![16, 32]).unwrap();
    let dir = ico::IconDir::read(std::io::Cursor::new(bytes)).unwrap();
    for e in dir.entries() {
        let frame = image::load_from_memory_with_format(e.data(), image::ImageFormat::Png).unwrap();
        assert_eq!(frame.color(), image::ColorType::L8);
    }
}

#[test]
fn empty_bitmap_to_avif_is_refused() {
    let empty = Bitmap { width: 0, height: 3, layout: PixelLayout::Luma8, data: vec![] };
    assert!(matches!(encode_bitmap(&empty, ImageFormatExt::Avif), Err(ConvertError::Encode(_))));
}
