//! The calls into the image, icon and tracing crates, each with what this
//! library relies on.
use vstd::prelude::*;
use crate::format::RasterFormat;
use crate::pixels::{model_rgba, Bitmap, PixelLayout, PixelModel};
use image::codecs::ico::IcoFrame;
use image::imageops::FilterType::Lanczos3;
use image::codecs::avif::AvifEncoder;
use image::{DynamicImage, ImageEncoder, ExtendedColorType, GrayAlphaImage, GrayImage, ImageError, ImageFormat, RgbImage, RgbaImage};

verus! {

#[verifier::external_type_specification]
#[verifier::external_body]
pub struct ExImageError(image::ImageError);

#[verifier::external_type_specification]
#[verifier::external_body]
pub struct ExIoError(std::io::Error);

#[verifier::external_type_specification]
#[verifier::external_body]
pub struct ExIconDir(ico::IconDir);

#[verifier::external_type_specification]
#[verifier::external_body]
pub struct ExIcoFrame<'a>(image::codecs::ico::IcoFrame<'a>);

/// The bitmap that the generic decoder reads from a file's bytes, if any.
pub uninterp spec fn raster_decoded(bytes: Seq<u8>) -> Option<PixelModel>;

/// The file that the generic encoder writes for a bitmap, if it can; AVIF
/// has an encoder of its own.
pub uninterp spec fn raster_encoding(
    data: Seq<u8>,
    width: u32,
    height: u32,
    layout: PixelLayout,
    format: RasterFormat,
) -> Option<Seq<u8>>;

/// The AVIF file that the single-threaded AVIF encoder writes, if it can.
pub uninterp spec fn avif_encoding(data: Seq<u8>, width: u32, height: u32, layout: PixelLayout) -> Option<Seq<u8>>;

/// The width and height of each entry of an icon directory, in directory order.
pub uninterp spec fn icon_entries(d: ico::IconDir) -> Seq<(u32, u32)>;

/// The RGBA bytes that each entry of an icon directory decodes to, if it does.
pub uninterp spec fn icon_entry_pixels(d: ico::IconDir) -> Seq<Option<Seq<u8>>>;

/// The entry sizes and entry pixels of the icon directory that a file's
/// bytes hold, if they hold one.
pub uninterp spec fn icon_dir_in(bytes: Seq<u8>) -> Option<(Seq<(u32, u32)>, Seq<Option<Seq<u8>>>)>;

/// An entry that ico's bitmap reader can size without overflowing 32-bit
/// arithmetic (row length at 32 bits a pixel, RGBA offsets).
pub open spec fn icon_entry_fits(d: (u32, u32)) -> bool {
    32 * d.0 + 7 <= u32::MAX && 4 * d.0 * d.1 <= u32::MAX
}

/// The samples of a bitmap resized to `w` by `h` with the Lanczos3 filter.
pub uninterp spec fn resized(m: PixelModel, w: u32, h: u32) -> Seq<u8>;

/// The icon file that the container encoder writes for frames given as
/// width, height, layout and PNG bytes.
pub uninterp spec fn icon_container(frames: Seq<(u32, u32, PixelLayout, Seq<u8>)>) -> Seq<u8>;

/// One PNG-compressed frame of an icon container: the bitmap it was made
/// from and its PNG bytes.
pub struct IconFrame {
    bitmap: Bitmap,
    png: Vec<u8>,
    frame: IcoFrame<'static>,
}

impl IconFrame {
    pub closed spec fn spec_model(&self) -> PixelModel {
        self.bitmap.model()
    }

    pub closed spec fn spec_png(&self) -> Seq<u8> {
        self.png@
    }

    pub open spec fn spec_width(&self) -> u32 {
        self.spec_model().0
    }

    pub open spec fn spec_height(&self) -> u32 {
        self.spec_model().1
    }

    /// Width, height, layout and PNG bytes, as the container encoder reads them.
    pub open spec fn entry(&self) -> (u32, u32, PixelLayout, Seq<u8>) {
        (self.spec_model().0, self.spec_model().1, self.spec_model().2, self.spec_png())
    }

    pub fn width(&self) -> (r: u32)
        ensures
            r == self.spec_width(),
    {
        self.bitmap.width
    }

    pub fn height(&self) -> (r: u32)
        ensures
            r == self.spec_height(),
    {
        self.bitmap.height
    }
}

/// Total PNG bytes of the frames.
pub open spec fn frames_png_total(frames: Seq<IconFrame>) -> int
    decreases frames.len(),
{
    if frames.len() == 0 {
        0
    } else {
        frames_png_total(frames.drop_last()) + frames.last().spec_png().len()
    }
}

/// The container's offsets, kept in `u32`, reach past every frame.
pub open spec fn frames_fit(frames: Seq<IconFrame>) -> bool {
    6 + 16 * frames.len() + frames_png_total(frames) <= u32::MAX
}

/// Relies on image::load_from_memory: the format is sniffed from the bytes,
/// the outcome depends on them alone, and the decoded buffer holds exactly
/// `width * height` pixels. Layouts other than 8-bit grey, grey-alpha and RGB
/// are converted with `to_rgba8`.
#[verifier::external_body]
pub(crate) fn decode_raster(bytes: &[u8]) -> (r: Result<Bitmap, ImageError>)
    ensures
        r is Ok <==> raster_decoded(bytes@) is Some,
        r matches Ok(b) ==> b.wf() && raster_decoded(bytes@) == Some(b.model()),
{
    let img = image::load_from_memory(bytes)?;
    let (width, height) = (img.width(), img.height());
    let (layout, data) = match img {
        image::DynamicImage::ImageLuma8(p) => (PixelLayout::Luma8, p.into_raw()),
        image::DynamicImage::ImageLumaA8(p) => (PixelLayout::LumaA8, p.into_raw()),
        image::DynamicImage::ImageRgb8(p) => (PixelLayout::Rgb8, p.into_raw()),
        other => (PixelLayout::Rgba8, other.to_rgba8().into_raw()),
    };
    Ok(Bitmap { width, height, layout, data })
}

/// Relies on image::write_buffer_with_format, which panics on a buffer of the
/// wrong length; writing to memory, its outcome depends on its arguments alone.
/// PNG takes the four 8-bit layouts, JPEG grey or RGB up to 65535 a side, and
/// lossless WebP the four layouts up to 16384 a side.
#[verifier::external_body]
pub(crate) fn encode_raster(b: &Bitmap, format: RasterFormat) -> (r: Result<Vec<u8>, ImageError>)
    requires
        b.wf(),
        format != RasterFormat::Avif,
    ensures
        r is Ok <==> raster_encoding(b.data@, b.width, b.height, b.layout, format) is Some,
        r matches Ok(v) ==> raster_encoding(b.data@, b.width, b.height, b.layout, format) == Some(v@),
        format == RasterFormat::Png && 1 <= b.width <= 65535 && 1 <= b.height <= 65535 ==> r is Ok,
        format == RasterFormat::Jpeg && 1 <= b.width <= 65535 && 1 <= b.height <= 65535
            && (b.layout == PixelLayout::Luma8 || b.layout == PixelLayout::Rgb8) ==> r is Ok,
        format == RasterFormat::WebP && 1 <= b.width <= 16384 && 1 <= b.height <= 16384 ==> r is Ok,
{
    let color = match b.layout {
        PixelLayout::Luma8 => ExtendedColorType::L8, PixelLayout::LumaA8 => ExtendedColorType::La8,
        PixelLayout::Rgb8 => ExtendedColorType::Rgb8, PixelLayout::Rgba8 => ExtendedColorType::Rgba8,
    };
    let f = match format {
        RasterFormat::Png => ImageFormat::Png, RasterFormat::Jpeg => ImageFormat::Jpeg,
        RasterFormat::WebP => ImageFormat::WebP, RasterFormat::Tiff => ImageFormat::Tiff,
        RasterFormat::Bmp => ImageFormat::Bmp, RasterFormat::Avif => ImageFormat::Avif,
    };
    let mut out = std::io::Cursor::new(Vec::new());
    image::write_buffer_with_format(&mut out, &b.data, b.width, b.height, color, f)?;
    Ok(out.into_inner())
}

/// Relies on image's AvifEncoder with one thread: ravif splits the picture
/// into as many tiles as it has threads, so with the count fixed the file
/// depends on the arguments alone.
#[verifier::external_body]
pub(crate) fn encode_avif(b: &Bitmap) -> (r: Result<Vec<u8>, ImageError>)
    requires
        b.wf(),
        b.width > 0,
        b.height > 0,
    ensures
        r is Ok <==> avif_encoding(b.data@, b.width, b.height, b.layout) is Some,
        r matches Ok(v) ==> avif_encoding(b.data@, b.width, b.height, b.layout) == Some(v@),
{
    let color = match b.layout {
        PixelLayout::Luma8 => ExtendedColorType::L8, PixelLayout::LumaA8 => ExtendedColorType::La8,
        PixelLayout::Rgb8 => ExtendedColorType::Rgb8, PixelLayout::Rgba8 => ExtendedColorType::Rgba8,
    };
    let mut out: Vec<u8> = Vec::new();
    AvifEncoder::new(&mut out).with_num_threads(Some(1)).write_image(&b.data, b.width, b.height, color)?;
    Ok(out)
}

/// Relies on DynamicImage::resize_exact with the Lanczos3 filter: the result is
/// exactly `w` by `h` pixels in the source's layout, computed from the source
/// samples alone. `from_raw` accepts any
/// buffer of the right length.
#[verifier::external_body]
pub(crate) fn resize_exact(b: &Bitmap, w: u32, h: u32) -> (r: Option<Bitmap>)
    requires
        b.wf(),
        w > 0,
        h > 0,
    ensures
        r is Some,
        r matches Some(o) ==> o.wf() && o.width == w && o.height == h && o.layout == b.layout
            && o.data@ == resized(b.model(), w, h),
{
    let (bw, bh, d) = (b.width, b.height, b.data.clone());
    let img: Option<DynamicImage> = match b.layout {
        PixelLayout::Luma8 => GrayImage::from_raw(bw, bh, d).map(Into::into),
        PixelLayout::LumaA8 => GrayAlphaImage::from_raw(bw, bh, d).map(Into::into),
        PixelLayout::Rgb8 => RgbImage::from_raw(bw, bh, d).map(Into::into),
        PixelLayout::Rgba8 => RgbaImage::from_raw(bw, bh, d).map(Into::into),
    };
    img.map(|i| Bitmap { width: w, height: h, layout: b.layout, data: i.resize_exact(w, h, Lanczos3).into_bytes() })
}

/// Relies on image's IcoFrame::with_encoded, which keeps the PNG bytes as
/// they are and refuses a side outside `1..=256`.
#[verifier::external_body]
pub(crate) fn ico_frame(b: Bitmap, png: Vec<u8>) -> (r: Result<IconFrame, ImageError>)
    ensures
        r is Ok <==> (1 <= b.width <= 256 && 1 <= b.height <= 256),
        r matches Ok(f) ==> f.spec_model() == b.model() && f.spec_png() == png@,
{
    let color = match b.layout {
        PixelLayout::Luma8 => ExtendedColorType::L8, PixelLayout::LumaA8 => ExtendedColorType::La8,
        PixelLayout::Rgb8 => ExtendedColorType::Rgb8, PixelLayout::Rgba8 => ExtendedColorType::Rgba8,
    };
    let frame = IcoFrame::with_encoded(png.clone(), b.width, b.height, color)?;
    Ok(IconFrame { bitmap: b, png, frame })
}

/// Relies on image's IcoEncoder::encode_images: one directory entry per frame,
/// in the order given, offsets summed in `u32`, refused only for a count
/// outside `1..=65535`. ico's reader reads such a file back with the frames'
/// sizes, in order, and decodes each 8-bit PNG frame to its RGBA pixels.
#[verifier::external_body]
pub(crate) fn write_icon(frames: Vec<IconFrame>) -> (r: Result<Vec<u8>, ImageError>)
    requires
        frames_fit(frames@),
        forall|i: int| 0 <= i < frames@.len() ==> (#[trigger] frames@[i]).spec_png()
            == raster_encoding(frames@[i].spec_model().3, frames@[i].spec_width(), frames@[i].spec_height(),
                frames@[i].spec_model().2, RasterFormat::Png)->0,
    ensures
        r is Ok <==> 1 <= frames@.len() <= 65535,
        r matches Ok(v) ==> v@ == icon_container(frames@.map_values(|f: IconFrame| f.entry())),
        r matches Ok(v) ==> icon_dir_in(v@) matches Some(d)
            && d.0 == frames@.map_values(|f: IconFrame| (f.spec_width(), f.spec_height()))
            && d.1 == frames@.map_values(|f: IconFrame| Some(model_rgba(f.spec_model()))),
{
    let frames: Vec<IcoFrame<'static>> = frames.into_iter().map(|f| f.frame).collect();
    let mut out: Vec<u8> = Vec::new();
    image::codecs::ico::IcoEncoder::new(&mut out).encode_images(&frames)?;
    Ok(out)
}

/// Relies on ico::IconDir::read, which reads every entry's size from its
/// image data; the outcome depends on the bytes alone.
#[verifier::external_body]
pub(crate) fn read_icon_dir(bytes: &[u8]) -> (r: Result<ico::IconDir, std::io::Error>)
    ensures
        r is Ok <==> icon_dir_in(bytes@) is Some,
        r matches Ok(d) ==> icon_dir_in(bytes@) == Some((icon_entries(d), icon_entry_pixels(d))),
{
    ico::IconDir::read(std::io::Cursor::new(bytes))
}

/// Relies on ico::IconDir::entries: the number of entries.
#[verifier::external_body]
pub(crate) fn icon_entry_count(d: &ico::IconDir) -> (r: usize)
    ensures
        r == icon_entries(*d).len(),
        r == icon_entry_pixels(*d).len(),
{
    d.entries().len()
}

/// Relies on ico's IconDirEntry::width and IconDirEntry::height.
#[verifier::external_body]
pub(crate) fn icon_entry_size(d: &ico::IconDir, i: usize) -> (r: (u32, u32))
    requires
        i < icon_entries(*d).len(),
    ensures
        r == icon_entries(*d)[i as int],
{
    (d.entries()[i].width(), d.entries()[i].height())
}

/// Relies on ico's IconDirEntry::decode, which refuses an image whose size
/// differs from its entry's, and on IconImage::rgba_data, four bytes a pixel.
/// Its bitmap reader computes row lengths and offsets in `u32`.
#[verifier::external_body]
pub(crate) fn decode_icon_entry(d: &ico::IconDir, i: usize) -> (r: Result<Bitmap, std::io::Error>)
    requires
        i < icon_entries(*d).len(),
        i < icon_entry_pixels(*d).len(),
        icon_entry_fits(icon_entries(*d)[i as int]),
    ensures
        r is Ok <==> icon_entry_pixels(*d)[i as int] is Some,
        r matches Ok(b) ==> b.wf() && b.layout == PixelLayout::Rgba8
            && (b.width, b.height) == icon_entries(*d)[i as int]
            && icon_entry_pixels(*d)[i as int] == Some(b.data@),
{
    let img = d.entries()[i].decode()?;
    let (width, height) = (img.width(), img.height());
    Ok(Bitmap { width, height, layout: PixelLayout::Rgba8, data: img.rgba_data().to_vec() })
}

/// The bytes open with an XML declaration and close with the `</svg>` line.
pub open spec fn svg_framed(v: Seq<u8>) -> bool {
    let head = seq![60u8, 63, 120, 109, 108, 32];
    let tail = seq![60u8, 47, 115, 118, 103, 62, 10];
    &&& v.len() >= head.len() + tail.len()
    &&& v.subrange(0, head.len() as int) == head
    &&& v.subrange(v.len() - tail.len(), v.len() as int) == tail
}

/// Relies on vtracer::convert with its default settings, which reads four
/// bytes a pixel; SvgFile's Display writes `<?xml ` first and `</svg>` with a
/// newline last. The text is handed back as UTF-8.
#[verifier::external_body]
pub(crate) fn trace_svg(b: &Bitmap) -> (r: Result<Vec<u8>, String>)
    requires
        b.wf(),
        b.layout == PixelLayout::Rgba8,
        b.width > 0,
        b.height > 0,
    ensures
        r matches Ok(v) ==> svg_framed(v@),
{
    let img = vtracer::ColorImage { pixels: b.data.clone(), width: b.width as usize, height: b.height as usize };
    vtracer::convert(img, vtracer::Config::default()).map(|svg| svg.to_string().into_bytes())
}

/// Relies on ImageError's Display, for the diagnostic text.
#[verifier::external_body]
pub(crate) fn image_error_text(e: &ImageError) -> (r: String)
{
    e.to_string()
}

/// Relies on io::Error's Display, for the diagnostic text.
#[verifier::external_body]
pub(crate) fn io_error_text(e: &std::io::Error) -> (r: String)
{
    e.to_string()
}

} // verus!
