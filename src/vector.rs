//! Turning a rendered vector document into a bitmap of the requested size.
use vstd::prelude::*;
use vstd::arithmetic::div_mod::lemma_fundamental_div_mod;
use crate::pixels::{area, lemma_slot, Bitmap, PixelLayout};

verus! {

/// Edge of the square canvas that a vector document is rendered onto.
pub const DEFAULT_CANVAS: u32 = 256;

/// Colour value `c` of a pixel stored premultiplied by alpha `a`, restored to
/// straight alpha and rounded to the nearest value; fully transparent pixels
/// come out black.
pub open spec fn demultiply(c: u8, a: u8) -> u8 {
    if a == 255 {
        c
    } else if a == 0 {
        0
    } else {
        let v = (c as int * 255 + a as int / 2) / a as int;
        if v > 255 { 255 } else { v as u8 }
    }
}

pub fn demultiply_u8(c: u8, a: u8) -> (r: u8)
    ensures
        r == demultiply(c, a),
{
    if a == 255 {
        c
    } else if a == 0 {
        0
    } else {
        assert((c as u32) * 255 <= 255 * 255) by (nonlinear_arith)
            requires c <= 255;
        let v: u32 = ((c as u32) * 255 + (a as u32) / 2) / (a as u32);
        if v > 255 { 255 } else { v as u8 }
    }
}

/// Channel `c` of pixel `p` of a `size`-wide canvas sampled from a rendered
/// surface of `sw` by `sh` premultiplied RGBA pixels; outside the surface
/// every pixel is fully transparent.
pub open spec fn sampled_channel(s: Seq<u8>, sw: u32, sh: u32, size: u32, p: int, c: int) -> u8 {
    let x = p % size as int;
    let y = p / size as int;
    if x < sw && y < sh {
        let q = y * sw as int + x;
        if c == 3 { s[4 * q + 3] } else { demultiply(s[4 * q + c], s[4 * q + 3]) }
    } else {
        0
    }
}

/// The bytes of the `size` by `size` canvas read off a rendered surface.
pub open spec fn rendered_pixels(s: Seq<u8>, sw: u32, sh: u32, size: u32) -> Seq<u8> {
    Seq::new(area(size, size) * 4, |i: int| sampled_channel(s, sw, sh, size, i / 4, i % 4))
}

/// The `size` by `size` straight-alpha bitmap read off a rendered surface.
pub fn sample_rendered(surface: &Vec<u8>, sw: u32, sh: u32, size: u32) -> (r: Bitmap)
    requires
        surface@.len() == area(sw, sh) * 4,
        area(size, size) * 4 <= usize::MAX,
    ensures
        r.wf(),
        r.width == size,
        r.height == size,
        r.layout == PixelLayout::Rgba8,
        r.data@ == rendered_pixels(surface@, sw, sh, size),
{
    let n: usize = (size as usize) * (size as usize);
    let slen = surface.len();
    let mut out: Vec<u8> = Vec::new();
    let mut p: usize = 0;
    while p < n
        invariant
            surface@.len() == area(sw, sh) * 4,
            surface@.len() == slen,
            n == area(size, size),
            n * 4 <= usize::MAX,
            p <= n,
            out@.len() == 4 * p,
            forall|i: int|
                0 <= i < out@.len() ==> out@[i] == sampled_channel(surface@, sw, sh, size, i / 4, i % 4),
        decreases n - p,
    {
        assert(size > 0) by (nonlinear_arith)
            requires p < n, n == size as int * size as int;
        proof {
            lemma_fundamental_div_mod(p as int, size as int);
            assert((p as int / size as int) < (size as int)) by (nonlinear_arith)
                requires
                    p as int == size as int * (p as int / size as int) + p as int % size as int,
                    p as int % size as int >= 0,
                    p < n,
                    n == size as int * size as int,
                    size > 0;
        }
        let x: u32 = (p % (size as usize)) as u32;
        let y: u32 = (p / (size as usize)) as u32;
        let mut c: usize = 0;
        while c < 4
            invariant
                surface@.len() == area(sw, sh) * 4,
                surface@.len() == slen,
                n == area(size, size),
                p < n,
                size > 0,
                x as int == p as int % size as int,
                y as int == p as int / size as int,
                c <= 4,
                out@.len() == 4 * p + c,
                forall|i: int|
                    0 <= i < out@.len() ==> out@[i] == sampled_channel(surface@, sw, sh, size, i / 4, i % 4),
            decreases 4 - c,
        {
            proof { lemma_slot(p as int, n as int, 4, c as int); }
            let v: u8 = if x < sw && y < sh {
                let ghost m = area(sw, sh);
                assert(y as int * sw as int + x < m) by (nonlinear_arith)
                    requires x < sw, y < sh, m == sw as int * sh as int;
                let q: usize = (y as usize) * (sw as usize) + (x as usize);
                proof {
                    lemma_slot(q as int, m as int, 4, c as int);
                    lemma_slot(q as int, m as int, 4, 3);
                }
                let a = surface[4 * q + 3];
                if c == 3 { a } else { demultiply_u8(surface[4 * q + c], a) }
            } else {
                0
            };
            out.push(v);
            c = c + 1;
        }
        p = p + 1;
    }
    assert(out@.len() == area(size, size) * 4) by (nonlinear_arith)
        requires out@.len() == 4 * p, p == n, n == area(size, size);
    assert(out@ =~= rendered_pixels(surface@, sw, sh, size));
    Bitmap { width: size, height: size, layout: PixelLayout::Rgba8, data: out }
}

} // verus!
