//! The registry of supported formats and their capabilities.
use vstd::prelude::*;

verus! {

/// One of the eight formats that the converter reads and writes.
#[derive(Debug, Clone, Copy, PartialEq, Eq, Hash, Structural)]
pub enum ImageFormatExt {
    Png,
    Jpeg,
    WebP,
    Tiff,
    Bmp,
    Ico,
    Avif,
    Svg,
}

/// A format that the generic bitmap codec reads and writes.
#[derive(Debug, Clone, Copy, PartialEq, Eq, Hash, Structural)]
pub enum RasterFormat {
    Png,
    Jpeg,
    WebP,
    Tiff,
    Bmp,
    Avif,
}

/// Every supported format, in registry order.
pub open spec fn all_formats() -> Seq<ImageFormatExt> {
    seq![
        ImageFormatExt::Png,
        ImageFormatExt::Jpeg,
        ImageFormatExt::WebP,
        ImageFormatExt::Tiff,
        ImageFormatExt::Bmp,
        ImageFormatExt::Ico,
        ImageFormatExt::Avif,
        ImageFormatExt::Svg,
    ]
}

/// The format that a sniffed MIME type stands for, if it is a supported one.
pub open spec fn format_of_mime(m: Seq<char>) -> Option<ImageFormatExt> {
    if m == "image/png"@ {
        Some(ImageFormatExt::Png)
    } else if m == "image/jpeg"@ {
        Some(ImageFormatExt::Jpeg)
    } else if m == "image/bmp"@ {
        Some(ImageFormatExt::Bmp)
    } else if m == "image/svg+xml"@ {
        Some(ImageFormatExt::Svg)
    } else if m == "image/x-icon"@ {
        Some(ImageFormatExt::Ico)
    } else if m == "image/vnd.microsoft.icon"@ {
        Some(ImageFormatExt::Ico)
    } else if m == "image/tiff"@ {
        Some(ImageFormatExt::Tiff)
    } else if m == "image/webp"@ {
        Some(ImageFormatExt::WebP)
    } else if m == "image/avif"@ {
        Some(ImageFormatExt::Avif)
    } else {
        None
    }
}

/// Whether two strings hold the same characters.
pub fn str_equal(a: &str, b: &str) -> (r: bool)
    ensures
        r == (a@ == b@),
{
    let n = a.unicode_len();
    if n != b.unicode_len() {
        return false;
    }
    let mut i: usize = 0;
    while i < n
        invariant
            n == a@.len(),
            n == b@.len(),
            i <= n,
            forall|k: int| 0 <= k < i ==> a@[k] == b@[k],
        decreases n - i,
    {
        if a.get_char(i) != b.get_char(i) {
            return false;
        }
        i = i + 1;
    }
    assert(a@ =~= b@);
    true
}

impl ImageFormatExt {
    /// The upper-case display name.
    pub open spec fn spec_name(self) -> Seq<char> {
        match self {
            ImageFormatExt::Png => "PNG"@,
            ImageFormatExt::Jpeg => "JPEG"@,
            ImageFormatExt::WebP => "WEBP"@,
            ImageFormatExt::Tiff => "TIFF"@,
            ImageFormatExt::Bmp => "BMP"@,
            ImageFormatExt::Ico => "ICO"@,
            ImageFormatExt::Avif => "AVIF"@,
            ImageFormatExt::Svg => "SVG"@,
        }
    }

    /// The canonical lower-case file extension, without the dot.
    pub open spec fn spec_ext(self) -> Seq<char> {
        match self {
            ImageFormatExt::Png => "png"@,
            ImageFormatExt::Jpeg => "jpeg"@,
            ImageFormatExt::WebP => "webp"@,
            ImageFormatExt::Tiff => "tiff"@,
            ImageFormatExt::Bmp => "bmp"@,
            ImageFormatExt::Ico => "ico"@,
            ImageFormatExt::Avif => "avif"@,
            ImageFormatExt::Svg => "svg"@,
        }
    }

    /// The format has a generic bitmap encoder and decoder.
    pub open spec fn generic_encodable(self) -> bool {
        !(self is Ico || self is Svg)
    }

    /// The format holds several frames of different sizes.
    pub open spec fn is_container(self) -> bool {
        self is Ico
    }

    /// The format describes shapes rather than pixels.
    pub open spec fn is_vector(self) -> bool {
        self is Svg
    }

    /// The encoder needs pixels without an alpha channel.
    pub open spec fn needs_opaque(self) -> bool {
        self is Jpeg
    }

    /// Every supported format, each switched off.
    pub fn get_all() -> (r: Vec<(ImageFormatExt, bool)>)
        ensures
            r@ == all_formats().map_values(|f: ImageFormatExt| (f, false)),
    {
        let r = vec![
            (ImageFormatExt::Png, false),
            (ImageFormatExt::Jpeg, false),
            (ImageFormatExt::WebP, false),
            (ImageFormatExt::Tiff, false),
            (ImageFormatExt::Bmp, false),
            (ImageFormatExt::Ico, false),
            (ImageFormatExt::Avif, false),
            (ImageFormatExt::Svg, false),
        ];
        assert(r@ =~= all_formats().map_values(|f: ImageFormatExt| (f, false)));
        r
    }

    /// The format that a sniffed MIME type stands for; `None` for any other type.
    pub fn get_format_from_mime(mime: &str) -> (r: Option<ImageFormatExt>)
        ensures
            r == format_of_mime(mime@),
    {
        if str_equal(mime, "image/png") {
            Some(ImageFormatExt::Png)
        } else if str_equal(mime, "image/jpeg") {
            Some(ImageFormatExt::Jpeg)
        } else if str_equal(mime, "image/bmp") {
            Some(ImageFormatExt::Bmp)
        } else if str_equal(mime, "image/svg+xml") {
            Some(ImageFormatExt::Svg)
        } else if str_equal(mime, "image/x-icon") {
            Some(ImageFormatExt::Ico)
        } else if str_equal(mime, "image/vnd.microsoft.icon") {
            Some(ImageFormatExt::Ico)
        } else if str_equal(mime, "image/tiff") {
            Some(ImageFormatExt::Tiff)
        } else if str_equal(mime, "image/webp") {
            Some(ImageFormatExt::WebP)
        } else if str_equal(mime, "image/avif") {
            Some(ImageFormatExt::Avif)
        } else {
            None
        }
    }

    /// The upper-case display name.
    pub fn get_name(&self) -> (r: &'static str)
        ensures
            r@ == self.spec_name(),
    {
        match self {
            ImageFormatExt::Png => "PNG",
            ImageFormatExt::Jpeg => "JPEG",
            ImageFormatExt::WebP => "WEBP",
            ImageFormatExt::Tiff => "TIFF",
            ImageFormatExt::Bmp => "BMP",
            ImageFormatExt::Ico => "ICO",
            ImageFormatExt::Avif => "AVIF",
            ImageFormatExt::Svg => "SVG",
        }
    }

    /// The canonical lower-case file extension, without the dot.
    pub fn get_ext(&self) -> (r: String)
        ensures
            r@ == self.spec_ext(),
    {
        let s: &str = match self {
            ImageFormatExt::Png => "png",
            ImageFormatExt::Jpeg => "jpeg",
            ImageFormatExt::WebP => "webp",
            ImageFormatExt::Tiff => "tiff",
            ImageFormatExt::Bmp => "bmp",
            ImageFormatExt::Ico => "ico",
            ImageFormatExt::Avif => "avif",
            ImageFormatExt::Svg => "svg",
        };
        String::from_str(s)
    }

    /// The generic codec format, for the formats that have one.
    pub open spec fn spec_raster(self) -> Option<RasterFormat> {
        match self {
            ImageFormatExt::Png => Some(RasterFormat::Png),
            ImageFormatExt::Jpeg => Some(RasterFormat::Jpeg),
            ImageFormatExt::WebP => Some(RasterFormat::WebP),
            ImageFormatExt::Tiff => Some(RasterFormat::Tiff),
            ImageFormatExt::Bmp => Some(RasterFormat::Bmp),
            ImageFormatExt::Avif => Some(RasterFormat::Avif),
            ImageFormatExt::Ico => None,
            ImageFormatExt::Svg => None,
        }
    }

    /// The generic codec format, or `None` for the icon container and the
    /// vector format.
    pub fn get_format(&self) -> (r: Option<RasterFormat>)
        ensures
            r == self.spec_raster(),
            r.is_some() == self.generic_encodable(),
    {
        match self {
            ImageFormatExt::Png => Some(RasterFormat::Png),
            ImageFormatExt::Jpeg => Some(RasterFormat::Jpeg),
            ImageFormatExt::WebP => Some(RasterFormat::WebP),
            ImageFormatExt::Tiff => Some(RasterFormat::Tiff),
            ImageFormatExt::Bmp => Some(RasterFormat::Bmp),
            ImageFormatExt::Avif => Some(RasterFormat::Avif),
            ImageFormatExt::Ico => None,
            ImageFormatExt::Svg => None,
        }
    }
}

} // verus!
