//! In-memory bitmaps and the channel rules applied between decode and encode.
use vstd::prelude::*;
use vstd::arithmetic::div_mod::lemma_fundamental_div_mod_converse;

verus! {

/// How the bytes of one pixel are laid out; every channel is eight bits.
#[derive(Debug, Clone, Copy, PartialEq, Eq, Structural)]
pub enum PixelLayout {
    Luma8,
    LumaA8,
    Rgb8,
    Rgba8,
}

impl PixelLayout {
    /// Bytes per pixel.
    pub open spec fn channels(self) -> nat {
        match self {
            PixelLayout::Luma8 => 1,
            PixelLayout::LumaA8 => 2,
            PixelLayout::Rgb8 => 3,
            PixelLayout::Rgba8 => 4,
        }
    }

    pub fn channel_count(&self) -> (r: usize)
        ensures
            r as nat == self.channels(),
    {
        match self {
            PixelLayout::Luma8 => 1,
            PixelLayout::LumaA8 => 2,
            PixelLayout::Rgb8 => 3,
            PixelLayout::Rgba8 => 4,
        }
    }
}

/// A raster image: `width * height` pixels, row by row, in `layout`.
#[derive(Debug)]
pub struct Bitmap {
    pub width: u32,
    pub height: u32,
    pub layout: PixelLayout,
    pub data: Vec<u8>,
}

/// Number of pixels of a `w` by `h` image.
pub open spec fn area(w: u32, h: u32) -> nat {
    w as nat * h as nat
}

/// A bitmap as values: width, height, layout and bytes.
pub type PixelModel = (u32, u32, PixelLayout, Seq<u8>);

/// Channel `c` (red, green, blue, alpha) of pixel `p`, read as RGBA:
/// grey is copied into red, green and blue, a missing alpha is opaque.
pub open spec fn model_channel(m: PixelModel, p: int, c: int) -> u8 {
    let d = m.3;
    match m.2 {
        PixelLayout::Luma8 => if c < 3 { d[p] } else { 255 },
        PixelLayout::LumaA8 => if c < 3 { d[2 * p] } else { d[2 * p + 1] },
        PixelLayout::Rgb8 => if c < 3 { d[3 * p + c] } else { 255 },
        PixelLayout::Rgba8 => d[4 * p + c],
    }
}

/// The pixels as RGB, three bytes each: alpha dropped, grey copied.
pub open spec fn model_rgb(m: PixelModel) -> Seq<u8> {
    Seq::new(area(m.0, m.1) * 3, |i: int| model_channel(m, i / 3, i % 3))
}

/// The pixels as RGBA, four bytes each.
pub open spec fn model_rgba(m: PixelModel) -> Seq<u8> {
    Seq::new(area(m.0, m.1) * 4, |i: int| model_channel(m, i / 4, i % 4))
}

/// Four bytes for each pixel fit in memory.
pub open spec fn rgba_fits(m: PixelModel) -> bool {
    area(m.0, m.1) * 4 <= usize::MAX
}

impl Bitmap {
    /// The buffer holds exactly one entry per channel of every pixel.
    pub open spec fn wf(&self) -> bool {
        self.data@.len() == area(self.width, self.height) * self.layout.channels()
    }

    pub open spec fn model(&self) -> PixelModel {
        (self.width, self.height, self.layout, self.data@)
    }

    pub open spec fn rgba_channel(&self, p: int, c: int) -> u8 {
        model_channel(self.model(), p, c)
    }

    pub open spec fn rgb_pixels(&self) -> Seq<u8> {
        model_rgb(self.model())
    }

    pub open spec fn rgba_pixels(&self) -> Seq<u8> {
        model_rgba(self.model())
    }

    /// Channel `c` of pixel `p` in RGBA terms.
    fn channel_value(&self, p: usize, c: usize) -> (r: u8)
        requires
            self.wf(),
            p < area(self.width, self.height),
            c < 4,
        ensures
            r == self.rgba_channel(p as int, c as int),
    {
        let ghost n = area(self.width, self.height);
        // the buffer's length bounds every index below
        let _len = self.data.len();
        match self.layout {
            PixelLayout::Luma8 => {
                proof { lemma_slot(p as int, n as int, 1, 0); }
                if c < 3 { self.data[p] } else { 255 }
            },
            PixelLayout::LumaA8 => {
                proof { lemma_slot(p as int, n as int, 2, 0); lemma_slot(p as int, n as int, 2, 1); }
                if c < 3 { self.data[2 * p] } else { self.data[2 * p + 1] }
            },
            PixelLayout::Rgb8 => if c < 3 {
                proof { lemma_slot(p as int, n as int, 3, c as int); }
                self.data[3 * p + c]
            } else {
                255
            },
            PixelLayout::Rgba8 => {
                proof { lemma_slot(p as int, n as int, 4, c as int); }
                self.data[4 * p + c]
            },
        }
    }
}

/// Slot `c` of entry `p` in a table of `n` entries of `k` slots lies inside
/// the table and is found again by division.
pub proof fn lemma_slot(p: int, n: int, k: int, c: int)
    requires
        0 <= p < n,
        0 <= c < k,
    ensures
        0 <= k * p + c < k * n,
        (k * p + c) / k == p,
        (k * p + c) % k == c,
{
    assert(k * p + c < k * n) by (nonlinear_arith)
        requires 0 <= p < n, 0 <= c < k;
    assert(0 <= k * p) by (nonlinear_arith)
        requires 0 <= p, 0 < k;
    assert(p * k == k * p) by (nonlinear_arith);
    lemma_fundamental_div_mod_converse(k * p + c, k, p, c);
}

/// Every pixel of the bitmap as its first `k` RGBA channels.
fn expand_channels(b: &Bitmap, k: usize) -> (out: Vec<u8>)
    requires
        b.wf(),
        k == 3 || k == 4,
        area(b.width, b.height) * 4 <= usize::MAX,
    ensures
        out@ == Seq::new(area(b.width, b.height) * (k as nat), |i: int| b.rgba_channel(i / k as int, i % k as int)),
{
    let n: usize = (b.width as usize) * (b.height as usize);
    let mut out: Vec<u8> = Vec::new();
    let mut p: usize = 0;
    while p < n
        invariant
            b.wf(),
            k == 3 || k == 4,
            n == area(b.width, b.height),
            n * 4 <= usize::MAX,
            p <= n,
            out@.len() == k * p,
            forall|i: int| 0 <= i < out@.len() ==> out@[i] == b.rgba_channel(i / k as int, i % k as int),
        decreases n - p,
    {
        let mut c: usize = 0;
        while c < k
            invariant
                b.wf(),
                k == 3 || k == 4,
                n == area(b.width, b.height),
                p < n,
                c <= k,
                out@.len() == k * p + c,
                forall|i: int| 0 <= i < out@.len() ==> out@[i] == b.rgba_channel(i / k as int, i % k as int),
            decreases k - c,
        {
            let v = b.channel_value(p, c);
            proof { lemma_slot(p as int, n as int, k as int, c as int); }
            out.push(v);
            c = c + 1;
        }
        p = p + 1;
    }
    assert(out@.len() == area(b.width, b.height) * k) by (nonlinear_arith)
        requires out@.len() == k * p, p == n, n == area(b.width, b.height);
    assert(out@ =~= Seq::new(area(b.width, b.height) * (k as nat), |i: int| b.rgba_channel(i / k as int, i % k as int)));
    out
}

/// The RGB image that a JPEG destination receives: alpha is dropped (not
/// blended), grey is copied into all three colour channels.
pub fn flatten_alpha(b: &Bitmap) -> (r: Bitmap)
    requires
        b.wf(),
        area(b.width, b.height) * 4 <= usize::MAX,
    ensures
        r.wf(),
        r.width == b.width,
        r.height == b.height,
        r.layout == PixelLayout::Rgb8,
        r.data@ == b.rgb_pixels(),
{
    let data = expand_channels(b, 3);
    assert(data@ =~= b.rgb_pixels());
    Bitmap { width: b.width, height: b.height, layout: PixelLayout::Rgb8, data }
}

/// The same image with four channels per pixel: grey is copied into all three
/// colour channels, a missing alpha becomes opaque.
pub fn to_rgba(b: &Bitmap) -> (r: Bitmap)
    requires
        b.wf(),
        area(b.width, b.height) * 4 <= usize::MAX,
    ensures
        r.wf(),
        r.width == b.width,
        r.height == b.height,
        r.layout == PixelLayout::Rgba8,
        r.data@ == b.rgba_pixels(),
{
    let data = expand_channels(b, 4);
    assert(data@ =~= b.rgba_pixels());
    Bitmap { width: b.width, height: b.height, layout: PixelLayout::Rgba8, data }
}

} // verus!
