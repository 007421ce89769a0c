//! The icon container: picking its largest frame, and building one from a bitmap.
use vstd::prelude::*;
use crate::backend::{
    decode_icon_entry, encode_raster, frames_fit, frames_png_total, icon_container, icon_dir_in, icon_entries,
    icon_entry_count, icon_entry_fits, icon_entry_pixels, icon_entry_size, ico_frame, image_error_text,
    io_error_text, raster_encoding, resize_exact, resized, write_icon, IconFrame,
};
use crate::error::ConvertError;
use crate::format::RasterFormat;
use crate::pixels::{model_rgba, Bitmap, PixelLayout, PixelModel};

verus! {

/// Number of pixels of an entry of the given width and height.
pub open spec fn entry_area(d: (u32, u32)) -> nat {
    d.0 as nat * d.1 as nat
}

/// Entry `i` has the largest area, and every entry before it a smaller one:
/// among entries of equal area the first in directory order is chosen.
pub open spec fn is_first_largest(dims: Seq<(u32, u32)>, i: int) -> bool {
    &&& 0 <= i < dims.len()
    &&& forall|j: int| 0 <= j < dims.len() ==> entry_area(dims[j]) <= entry_area(dims[i])
    &&& forall|j: int| 0 <= j < i ==> entry_area(dims[j]) < entry_area(dims[i])
}

/// The index of the first entry of largest area.
pub open spec fn largest_index(dims: Seq<(u32, u32)>) -> int {
    choose|i: int| is_first_largest(dims, i)
}

/// At most one entry is the first of largest area.
pub proof fn lemma_first_largest_unique(dims: Seq<(u32, u32)>, i: int, j: int)
    requires
        is_first_largest(dims, i),
        is_first_largest(dims, j),
    ensures
        i == j,
{
    if i < j {
        assert(entry_area(dims[i]) < entry_area(dims[j]));
    } else if j < i {
        assert(entry_area(dims[j]) < entry_area(dims[i]));
    }
}

/// The bitmap that decoding the largest entry gives, from the entries' sizes
/// and the RGBA bytes each decodes to: none for an empty directory, an entry
/// too large for the reader's arithmetic, or one that does not decode.
pub open spec fn largest_decoded(dims: Seq<(u32, u32)>, pixels: Seq<Option<Seq<u8>>>) -> Option<PixelModel> {
    if dims.len() == 0 {
        None
    } else {
        let k = largest_index(dims);
        if icon_entry_fits(dims[k]) && pixels[k] is Some {
            Some((dims[k].0, dims[k].1, PixelLayout::Rgba8, pixels[k]->0))
        } else {
            None
        }
    }
}

/// The sizes, in pixels, of the square frames of an icon that the converter builds.
pub open spec fn default_ladder() -> Seq<u32> {
    seq![16, 32, 48, 64, 128, 256]
}

/// The frame that size `s` gets: the source resampled to `s` by `s`, in the
/// source's own layout.
pub open spec fn frame_model(m: PixelModel, s: u32) -> PixelModel {
    (s, s, m.2, resized(m, s, s))
}

/// The PNG bytes of the frame that size `s` gets.
pub open spec fn frame_png(m: PixelModel, s: u32) -> Seq<u8> {
    raster_encoding(resized(m, s, s), s, s, m.2, RasterFormat::Png)->0
}

/// Total PNG bytes of the frames for `sizes`.
pub open spec fn sizes_png_total(m: PixelModel, sizes: Seq<u32>) -> int
    decreases sizes.len(),
{
    if sizes.len() == 0 {
        0
    } else {
        sizes_png_total(m, sizes.drop_last()) + frame_png(m, sizes.last()).len()
    }
}

/// The container's offsets, kept in 32 bits, reach past every frame.
pub open spec fn icon_fits(m: PixelModel, sizes: Seq<u32>) -> bool {
    6 + 16 * sizes.len() + sizes_png_total(m, sizes) <= u32::MAX
}

/// The bytes are the icon container of the frames for `sizes`, in order:
/// entries of those square sizes, each decoding to the RGBA pixels of the
/// source resampled to its size.
pub open spec fn icon_holds(v: Seq<u8>, m: PixelModel, sizes: Seq<u32>) -> bool {
    &&& v == icon_container(sizes.map_values(|s: u32| (s, s, m.2, frame_png(m, s))))
    &&& icon_dir_in(v) matches Some(d)
    &&& d.0 == sizes.map_values(|s: u32| (s, s))
    &&& d.1 == sizes.map_values(|s: u32| Some(model_rgba(frame_model(m, s))))
}

/// The default ladder can be encoded: six sizes, each within `1..=256`.
pub proof fn lemma_default_ladder_encodable()
    ensures
        default_ladder().len() == 6,
        sizes_in_range(default_ladder()),
{
    let l = default_ladder();
    assert forall|i: int| 0 <= i < l.len() implies 1 <= #[trigger] l[i] <= 256 by {
        if i == 0 {} else if i == 1 {} else if i == 2 {} else if i == 3 {} else if i == 4 {} else {}
    }
}

/// Every size can be a frame of an icon container.
pub open spec fn sizes_in_range(sizes: Seq<u32>) -> bool {
    forall|i: int| 0 <= i < sizes.len() ==> 1 <= #[trigger] sizes[i] <= 256
}

fn area_u64(d: (u32, u32)) -> (r: u64)
    ensures
        r == entry_area(d),
{
    assert(d.0 as nat * d.1 as nat <= 0xffff_ffff * 0xffff_ffff) by (nonlinear_arith)
        requires d.0 <= 0xffff_ffff, d.1 <= 0xffff_ffff;
    (d.0 as u64) * (d.1 as u64)
}

/// The index of the first entry of largest area, `None` when there is none.
pub fn select_largest(dims: &Vec<(u32, u32)>) -> (r: Option<usize>)
    ensures
        r is None <==> dims@.len() == 0,
        r matches Some(i) ==> is_first_largest(dims@, i as int),
{
    if dims.len() == 0 {
        return None;
    }
    let mut best: usize = 0;
    let mut best_area = area_u64(dims[0]);
    let mut i: usize = 1;
    while i < dims.len()
        invariant
            1 <= i <= dims@.len(),
            best < i,
            best_area == entry_area(dims@[best as int]),
            forall|j: int| 0 <= j < i ==> entry_area(dims@[j]) <= entry_area(dims@[best as int]),
            forall|j: int| 0 <= j < best ==> entry_area(dims@[j]) < entry_area(dims@[best as int]),
        decreases dims@.len() - i,
    {
        let a = area_u64(dims[i]);
        if a > best_area {
            best = i;
            best_area = a;
        }
        i = i + 1;
    }
    Some(best)
}

/// The default ladder of icon frame sizes.
pub fn default_sizes() -> (r: Vec<u32>)
    ensures
        r@ == default_ladder(),
{
    let r = vec![16, 32, 48, 64, 128, 256];
    assert(r@ =~= default_ladder());
    r
}

/// Decodes the entry of largest area of an icon directory (the first such
/// entry in directory order) to an RGBA bitmap.
pub fn decode_largest(dir: &ico::IconDir) -> (r: Result<Bitmap, ConvertError>)
    ensures
        icon_entries(*dir).len() == 0 <==> r matches Err(ConvertError::EmptyContainer),
        r is Ok <==> largest_decoded(icon_entries(*dir), icon_entry_pixels(*dir)) is Some,
        r matches Ok(b) ==> b.wf() && largest_decoded(icon_entries(*dir), icon_entry_pixels(*dir)) == Some(b.model()),
        r matches Err(e) ==> e is EmptyContainer || e is Decode,
{
    let n = icon_entry_count(dir);
    let mut dims: Vec<(u32, u32)> = Vec::new();
    let mut i: usize = 0;
    while i < n
        invariant
            n == icon_entries(*dir).len(),
            i <= n,
            dims@ == icon_entries(*dir).subrange(0, i as int),
        decreases n - i,
    {
        dims.push(icon_entry_size(dir, i));
        i = i + 1;
        assert(dims@ =~= icon_entries(*dir).subrange(0, i as int));
    }
    assert(dims@ =~= icon_entries(*dir));
    match select_largest(&dims) {
        None => Err(ConvertError::EmptyContainer),
        Some(k) => {
            proof {
                lemma_first_largest_unique(dims@, k as int, largest_index(dims@));
            }
            let (w, h) = dims[k];
            if !entry_fits(w, h) {
                return Err(ConvertError::Decode(String::from_str("the icon entry is too large to decode")));
            }
            match decode_icon_entry(dir, k) {
                Ok(b) => Ok(b),
                Err(e) => Err(ConvertError::Decode(io_error_text(&e))),
            }
        },
    }
}

/// Whether an entry of this size can be decoded without overflow.
fn entry_fits(w: u32, h: u32) -> (r: bool)
    ensures
        r == icon_entry_fits((w, h)),
{
    if w > (u32::MAX - 7) / 32 {
        return false;
    }
    assert(w as nat * h as nat <= 0xffff_ffff * 0xffff_ffff) by (nonlinear_arith)
        requires w <= 0xffff_ffff, h <= 0xffff_ffff;
    let a: u64 = (w as u64) * (h as u64);
    assert(4 * w * h == 4 * (w as nat * h as nat)) by (nonlinear_arith);
    a <= (u32::MAX as u64) / 4
}

/// One frame per requested size, in the order of `sizes`: the bitmap resampled
/// to `size` by `size` (Lanczos3) and compressed as PNG in its own layout.
pub fn icon_frames(b: &Bitmap, sizes: &Vec<u32>) -> (r: Result<Vec<IconFrame>, ConvertError>)
    requires
        b.wf(),
    ensures
        r is Ok <==> sizes_in_range(sizes@) && icon_fits(b.model(), sizes@),
        r matches Ok(v) ==> v@.len() == sizes@.len() && frames_fit(v@) && forall|i: int| 0 <= i < sizes@.len()
            ==> (#[trigger] v@[i]).spec_model() == frame_model(b.model(), sizes@[i])
                && v@[i].spec_png() == frame_png(b.model(), sizes@[i]),
        r matches Err(e) ==> e is Encode,
{
    let ghost m = b.model();
    let cap: u64 = 0x1_0000_0000;
    let mut frames: Vec<IconFrame> = Vec::new();
    let mut total: u64 = 0;
    let mut i: usize = 0;
    while i < sizes.len()
        invariant
            b.wf(),
            m == b.model(),
            i <= sizes@.len(),
            frames@.len() == i,
            forall|k: int| 0 <= k < i ==> (#[trigger] frames@[k]).spec_model() == frame_model(m, sizes@[k])
                && frames@[k].spec_png() == frame_png(m, sizes@[k]),
            forall|k: int| 0 <= k < i ==> 1 <= #[trigger] sizes@[k] <= 256,
            frames_png_total(frames@) == sizes_png_total(m, sizes@.take(i as int)),
            total as int == if sizes_png_total(m, sizes@.take(i as int)) < cap { sizes_png_total(m, sizes@.take(i as int)) } else { cap as int },
        decreases sizes@.len() - i,
    {
        let sz = sizes[i];
        if sz < 1 || sz > 256 {
            return Err(ConvertError::Encode(String::from_str("icon frame sizes run from 1 to 256")));
        }
        let resized = match resize_exact(b, sz, sz) {
            Some(o) => o,
            None => return Err(ConvertError::Encode(String::from_str("resizing failed"))),
        };
        let png = match encode_raster(&resized, RasterFormat::Png) {
            Ok(v) => v,
            Err(e) => return Err(ConvertError::Encode(image_error_text(&e))),
        };
        let len = png.len();
        let ghost before = frames@;
        match ico_frame(resized, png) {
            Ok(frame) => frames.push(frame),
            Err(e) => return Err(ConvertError::Encode(image_error_text(&e))),
        }
        proof {
            assert(sizes@.take(i + 1).drop_last() =~= sizes@.take(i as int));
            assert(frames@.drop_last() =~= before);
        }
        total = if (len as u64) >= cap - total { cap } else { total + len as u64 };
        i = i + 1;
    }
    assert(sizes@.take(sizes@.len() as int) =~= sizes@);
    let n = sizes.len() as u64;
    if total >= cap || n > 0x1000_0000 || 6 + 16 * n + total > 0xffff_ffff {
        return Err(ConvertError::Encode(String::from_str("the icon container would exceed 4 GiB")));
    }
    Ok(frames)
}

/// An icon container holding one PNG frame per requested size, in that order.
/// No container comes back when any frame fails.
pub fn encode_icon(b: &Bitmap, sizes: &Vec<u32>) -> (r: Result<Vec<u8>, ConvertError>)
    requires
        b.wf(),
    ensures
        r is Ok <==> 1 <= sizes@.len() <= 65535 && sizes_in_range(sizes@) && icon_fits(b.model(), sizes@),
        r matches Ok(v) ==> icon_holds(v@, b.model(), sizes@),
        r matches Err(e) ==> e is Encode,
{
    let ghost m = b.model();
    let frames = icon_frames(b, sizes)?;
    assert(frames@.map_values(|f: IconFrame| f.entry())
        =~= sizes@.map_values(|s: u32| (s, s, m.2, frame_png(m, s))));
    assert(frames@.map_values(|f: IconFrame| (f.spec_width(), f.spec_height()))
        =~= sizes@.map_values(|s: u32| (s, s)));
    assert(frames@.map_values(|f: IconFrame| Some(model_rgba(f.spec_model())))
        =~= sizes@.map_values(|s: u32| Some(model_rgba(frame_model(m, s)))));
    match write_icon(frames) {
        Ok(v) => Ok(v),
        Err(e) => Err(ConvertError::Encode(image_error_text(&e))),
    }
}

} // verus!
