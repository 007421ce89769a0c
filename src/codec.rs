//! Routing one conversion through its codecs: decode the source, then encode
//! the bitmap in the target format.
use vstd::prelude::*;
use crate::backend::{
    avif_encoding, decode_raster, encode_avif, encode_raster, icon_dir_in, image_error_text, io_error_text,
    raster_decoded, raster_encoding, read_icon_dir, svg_framed, trace_svg,
};
use crate::error::ConvertError;
use crate::format::{ImageFormatExt, RasterFormat};
use crate::icon::{
    entry_area, is_first_largest, largest_index, lemma_first_largest_unique,
    decode_largest, default_ladder, default_sizes, encode_icon, icon_fits, icon_holds, largest_decoded,
    lemma_default_ladder_encodable,
};
use crate::pixels::{area, flatten_alpha, model_rgb, rgba_fits, to_rgba, Bitmap, PixelLayout, PixelModel};
use crate::vector::{rendered_pixels, sample_rendered};

verus! {

/// How the pixels of a source file are obtained.
#[derive(Debug, Clone, Copy, PartialEq, Eq, Structural)]
pub enum SourcePath {
    /// Render the vector document onto a square canvas.
    Rasterize,
    /// Decode the largest frame of the icon container.
    IconDecode,
    /// Decode with the generic bitmap codec.
    RasterDecode,
}

/// How a bitmap is written in the target format.
#[derive(Debug, Clone, Copy, PartialEq, Eq, Structural)]
pub enum TargetPath {
    /// The generic bitmap encoder; `flatten` drops alpha first.
    RasterEncode { format: RasterFormat, flatten: bool },
    /// An icon container over the default ladder of sizes.
    IconEncode,
    /// Trace the pixels into a vector document.
    Trace,
}

pub open spec fn spec_source_path(f: ImageFormatExt) -> SourcePath {
    if f.is_vector() {
        SourcePath::Rasterize
    } else if f.is_container() {
        SourcePath::IconDecode
    } else {
        SourcePath::RasterDecode
    }
}

pub open spec fn spec_target_path(f: ImageFormatExt) -> TargetPath {
    match f.spec_raster() {
        Some(format) => TargetPath::RasterEncode { format, flatten: f.needs_opaque() },
        None => if f.is_container() { TargetPath::IconEncode } else { TargetPath::Trace },
    }
}

/// The codec that reads a source of format `f`.
pub fn source_path(f: ImageFormatExt) -> (r: SourcePath)
    ensures
        r == spec_source_path(f),
{
    match f {
        ImageFormatExt::Svg => SourcePath::Rasterize,
        ImageFormatExt::Ico => SourcePath::IconDecode,
        _ => SourcePath::RasterDecode,
    }
}

/// The codec that writes a target of format `f`.
pub fn target_path(f: ImageFormatExt) -> (r: TargetPath)
    ensures
        r == spec_target_path(f),
{
    match f.get_format() {
        Some(format) => TargetPath::RasterEncode { format, flatten: matches!(f, ImageFormatExt::Jpeg) },
        None => if matches!(f, ImageFormatExt::Ico) { TargetPath::IconEncode } else { TargetPath::Trace },
    }
}

/// The file that a raster format gets for a bitmap, if its encoder writes
/// one: with `flatten`, the RGB pixels are encoded instead.
pub open spec fn raster_target_bytes(m: PixelModel, format: RasterFormat, flatten: bool) -> Option<Seq<u8>> {
    let data = if flatten { model_rgb(m) } else { m.3 };
    let layout = if flatten { PixelLayout::Rgb8 } else { m.2 };
    if format == RasterFormat::Avif {
        if m.0 == 0 || m.1 == 0 { None } else { avif_encoding(data, m.0, m.1, layout) }
    } else {
        raster_encoding(data, m.0, m.1, layout, format)
    }
}

/// The file that a bitmap target format gets, if any: none when the pixels
/// must be flattened and do not fit in memory, or the encoder refuses them.
pub open spec fn encoded_target(m: PixelModel, target: ImageFormatExt) -> Option<Seq<u8>> {
    match spec_target_path(target) {
        TargetPath::RasterEncode { format, flatten } => if flatten && !rgba_fits(m) {
            None
        } else {
            raster_target_bytes(m, format, flatten)
        },
        _ => None,
    }
}

/// Targets whose encoder is known to accept the bitmap: PNG and JPEG up to
/// 65535 pixels a side (JPEG after flattening, which must fit in memory),
/// lossless WebP up to 16384.
pub open spec fn surely_encodes(m: PixelModel, target: ImageFormatExt) -> bool {
    match target {
        ImageFormatExt::Png => 1 <= m.0 <= 65535 && 1 <= m.1 <= 65535,
        ImageFormatExt::Jpeg => 1 <= m.0 <= 65535 && 1 <= m.1 <= 65535 && rgba_fits(m),
        ImageFormatExt::WebP => 1 <= m.0 <= 16384 && 1 <= m.1 <= 16384,
        _ => false,
    }
}

/// The bitmap that a source file's bytes decode to, if any: the largest
/// entry of an icon container, or what the generic decoder reads.
pub open spec fn decoded_source(bytes: Seq<u8>, source: ImageFormatExt) -> Option<PixelModel> {
    if source.is_container() {
        match icon_dir_in(bytes) {
            Some(d) => largest_decoded(d.0, d.1),
            None => None,
        }
    } else {
        raster_decoded(bytes)
    }
}

/// A JPEG destination never sees an alpha channel: whatever the layout of the
/// bitmap, the encoder is handed three-channel RGB pixels, three bytes for
/// each pixel.
pub proof fn lemma_jpeg_gets_opaque_pixels(m: PixelModel)
    requires
        rgba_fits(m),
    ensures
        spec_target_path(ImageFormatExt::Jpeg) == (TargetPath::RasterEncode { format: RasterFormat::Jpeg, flatten: true }),
        encoded_target(m, ImageFormatExt::Jpeg) == raster_encoding(model_rgb(m), m.0, m.1, PixelLayout::Rgb8, RasterFormat::Jpeg),
        model_rgb(m).len() == area(m.0, m.1) * 3,
{
}

/// An icon written over the default ladder decodes back to its largest
/// frame, 256 by 256 pixels: converting it on to a bitmap format encodes a
/// bitmap of exactly that size.
pub proof fn lemma_icon_round_trip_size(v: Seq<u8>, m0: PixelModel)
    requires
        icon_holds(v, m0, default_ladder()),
    ensures
        decoded_source(v, ImageFormatExt::Ico) matches Some(m) && m.0 == 256 && m.1 == 256,
{
    let d = icon_dir_in(v)->0;
    let dims = d.0;
    assert(dims.len() == 6);
    assert(dims[5] == (256u32, 256u32));
    assert forall|j: int| 0 <= j < dims.len() implies entry_area(#[trigger] dims[j]) <= entry_area(dims[5]) by {
        assert(dims[j] == (default_ladder()[j], default_ladder()[j]));
        assert(default_ladder()[j] <= 256) by { lemma_default_ladder_encodable(); }
        let s = default_ladder()[j] as nat;
        assert(s * s <= 256 * 256) by (nonlinear_arith) requires s <= 256;
    }
    assert forall|j: int| 0 <= j < 5 implies entry_area(#[trigger] dims[j]) < entry_area(dims[5]) by {
        assert(dims[j] == (default_ladder()[j], default_ladder()[j]));
        assert(default_ladder()[j] <= 128) by {
            if j == 0 {} else if j == 1 {} else if j == 2 {} else if j == 3 {} else {}
        }
        let s = default_ladder()[j] as nat;
        assert(s * s <= 128 * 128) by (nonlinear_arith) requires s <= 128;
    }
    assert(is_first_largest(dims, 5));
    lemma_first_largest_unique(dims, 5, largest_index(dims));
    assert(d.1[5] is Some);
}

/// Whether the bitmap's pixels, at four bytes each, fit in memory.
fn fits_as_rgba(b: &Bitmap) -> (r: bool)
    ensures
        r == rgba_fits(b.model()),
{
    assert(b.width as nat * b.height as nat <= 0xffff_ffff * 0xffff_ffff) by (nonlinear_arith)
        requires b.width <= 0xffff_ffff, b.height <= 0xffff_ffff;
    let n: u64 = (b.width as u64) * (b.height as u64);
    n <= (usize::MAX as u64) / 4
}

/// Writes a bitmap in the target format: the generic encoder (alpha dropped
/// first for JPEG), an icon container over the default ladder, or a traced
/// vector document.
pub fn encode_bitmap(b: &Bitmap, target: ImageFormatExt) -> (r: Result<Vec<u8>, ConvertError>)
    requires
        b.wf(),
    ensures
        target.generic_encodable() ==> (r is Ok <==> encoded_target(b.model(), target) is Some),
        target.generic_encodable() ==> (r matches Ok(v) ==> encoded_target(b.model(), target) == Some(v@)),
        target.generic_encodable() ==> (r matches Err(ConvertError::Allocation)
            <==> target.needs_opaque() && !rgba_fits(b.model())),
        surely_encodes(b.model(), target) ==> r is Ok,
        target.is_container() ==> (r is Ok <==> icon_fits(b.model(), default_ladder())),
        target.is_container() ==> (r matches Ok(v) ==> icon_holds(v@, b.model(), default_ladder())),
        target.is_vector() ==> (r matches Err(ConvertError::EmptyImage) <==> b.width == 0 || b.height == 0),
        target.is_vector() ==> (r matches Err(ConvertError::Allocation)
            <==> b.width > 0 && b.height > 0 && !rgba_fits(b.model())),
        target.is_vector() ==> (r matches Ok(v) ==> svg_framed(v@)),
        target.is_vector() ==> (r matches Err(e) ==> e is Tracing || e is EmptyImage || e is Allocation),
        r matches Err(e) ==> e is Encode || e is Tracing || e is EmptyImage || e is Allocation,
        r matches Err(e) ==> (e is Tracing || e is EmptyImage ==> target.is_vector()),
        r matches Err(e) ==> (e is Allocation ==> !rgba_fits(b.model())),
{
    let fits = fits_as_rgba(b);
    match target_path(target) {
        TargetPath::RasterEncode { format, flatten } => {
            let encoded = if flatten {
                if !fits {
                    return Err(ConvertError::Allocation);
                }
                let opaque = flatten_alpha(b);
                if matches!(format, RasterFormat::Avif) {
                    if b.width == 0 || b.height == 0 {
                        return Err(ConvertError::Encode(String::from_str("the image has no pixels")));
                    }
                    encode_avif(&opaque)
                } else {
                    encode_raster(&opaque, format)
                }
            } else {
                if matches!(format, RasterFormat::Avif) {
                    if b.width == 0 || b.height == 0 {
                        return Err(ConvertError::Encode(String::from_str("the image has no pixels")));
                    }
                    encode_avif(b)
                } else {
                    encode_raster(b, format)
                }
            };
            match encoded {
                Ok(v) => Ok(v),
                Err(e) => Err(ConvertError::Encode(image_error_text(&e))),
            }
        },
        TargetPath::IconEncode => {
            let sizes = default_sizes();
            proof { lemma_default_ladder_encodable(); }
            encode_icon(b, &sizes)
        },
        TargetPath::Trace => {
            if b.width == 0 || b.height == 0 {
                return Err(ConvertError::EmptyImage);
            }
            if !fits {
                return Err(ConvertError::Allocation);
            }
            let rgba = to_rgba(b);
            match trace_svg(&rgba) {
                Ok(svg) => Ok(svg),
                Err(e) => Err(ConvertError::Tracing(e)),
            }
        },
    }
}

/// Decodes a bitmap source: the largest frame of an icon container, or any
/// file that the generic codec reads. A vector source has to be rendered
/// first and is refused here.
pub fn decode_source(bytes: &[u8], source: ImageFormatExt) -> (r: Result<Bitmap, ConvertError>)
    ensures
        source.is_vector() <==> r matches Err(ConvertError::Unsupported),
        !source.is_vector() ==> (r is Ok <==> decoded_source(bytes@, source) is Some),
        r matches Ok(b) ==> b.wf() && decoded_source(bytes@, source) == Some(b.model()),
        source.is_container() ==> (r matches Err(ConvertError::EmptyContainer)
            <==> (icon_dir_in(bytes@) matches Some(d) && d.0.len() == 0)),
        r matches Err(e) ==> e is Unsupported || e is Decode || e is EmptyContainer,
{
    match source_path(source) {
        SourcePath::Rasterize => Err(ConvertError::Unsupported),
        SourcePath::IconDecode => match read_icon_dir(bytes) {
            Ok(dir) => decode_largest(&dir),
            Err(e) => Err(ConvertError::Decode(io_error_text(&e))),
        },
        SourcePath::RasterDecode => match decode_raster(bytes) {
            Ok(b) => Ok(b),
            Err(e) => Err(ConvertError::Decode(image_error_text(&e))),
        },
    }
}

/// Converts the bytes of a bitmap or icon source to the target format:
/// decode, then encode. Same-format pairs and vector sources are refused.
pub fn convert_bytes(bytes: &[u8], source: ImageFormatExt, target: ImageFormatExt) -> (r: Result<Vec<u8>, ConvertError>)
    ensures
        source == target || source.is_vector() <==> r matches Err(ConvertError::Unsupported),
        source != target && !source.is_vector() && target.generic_encodable() ==> (r is Ok <==> (
            decoded_source(bytes@, source) matches Some(m) && encoded_target(m, target) is Some)),
        source != target && !source.is_vector() && target.generic_encodable() ==> (r matches Ok(v) ==> (
            decoded_source(bytes@, source) matches Some(m) && encoded_target(m, target) == Some(v@))),
        source != target && !source.is_vector() && target.is_container() ==> (r is Ok <==> (
            decoded_source(bytes@, source) matches Some(m) && icon_fits(m, default_ladder()))),
        target.is_container() ==> (r matches Ok(v) ==> (
            decoded_source(bytes@, source) matches Some(m) && icon_holds(v@, m, default_ladder()))),
        source != target && !source.is_vector() ==> (
            decoded_source(bytes@, source) matches Some(m) && surely_encodes(m, target) ==> r is Ok),
        target.is_vector() ==> (r matches Ok(v) ==> svg_framed(v@)),
        decoded_source(bytes@, source) is None ==> r is Err,
        r matches Err(e) ==> (e is Tracing ==> target.is_vector()),
{
    if source == target {
        return Err(ConvertError::Unsupported);
    }
    let b = decode_source(bytes, source)?;
    encode_bitmap(&b, target)
}

/// Converts a rendered vector document, given as a premultiplied RGBA surface
/// of `sw` by `sh` pixels, into the target format at `size` by `size` pixels.
pub fn convert_rendered(surface: &Vec<u8>, sw: u32, sh: u32, size: u32, target: ImageFormatExt) -> (r: Result<Vec<u8>, ConvertError>)
    requires
        surface@.len() == area(sw, sh) * 4,
        area(size, size) * 4 <= usize::MAX,
    ensures
        target.is_vector() <==> r matches Err(ConvertError::Unsupported),
        target.generic_encodable() ==> (r is Ok <==> encoded_target(
            (size, size, PixelLayout::Rgba8, rendered_pixels(surface@, sw, sh, size)), target) is Some),
        target.generic_encodable() ==> (r matches Ok(v) ==> encoded_target(
            (size, size, PixelLayout::Rgba8, rendered_pixels(surface@, sw, sh, size)), target) == Some(v@)),
        target.is_container() ==> (r is Ok <==> icon_fits(
            (size, size, PixelLayout::Rgba8, rendered_pixels(surface@, sw, sh, size)), default_ladder())),
        target.is_container() ==> (r matches Ok(v) ==> icon_holds(
            v@, (size, size, PixelLayout::Rgba8, rendered_pixels(surface@, sw, sh, size)), default_ladder())),
        surely_encodes((size, size, PixelLayout::Rgba8, rendered_pixels(surface@, sw, sh, size)), target) ==> r is Ok,
        r matches Err(e) ==> e is Encode || e is Unsupported,
{
    if matches!(target, ImageFormatExt::Svg) {
        return Err(ConvertError::Unsupported);
    }
    let b = sample_rendered(surface, sw, sh, size);
    assert(rgba_fits(b.model()));
    encode_bitmap(&b, target)
}

} // verus!
