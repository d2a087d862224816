use vstd::arithmetic::div_mod::{lemma_fundamental_div_mod_converse, lemma_multiply_divide_lt};
use vstd::prelude::*;

verus! {

/// A target size for output frames.
#[derive(Clone, Copy, Debug, PartialEq, Eq, Structural)]
pub struct Resolution {
    pub width: u32,
    pub height: u32,
}

/// An RGB raster: `data` holds `width * height` pixels in row-major order,
/// three channel bytes (red, green, blue) per pixel.
#[derive(Debug)]
pub struct RasterImage {
    pub width: u32,
    pub height: u32,
    pub data: Vec<u8>,
}

/// The mathematical content of a raster: its sides and its channel bytes.
pub ghost struct Raster {
    pub width: int,
    pub height: int,
    pub data: Seq<u8>,
}

impl Raster {
    /// Channel `c` of pixel `(x, y)`.
    pub open spec fn pixel(self, x: int, y: int, c: int) -> int {
        self.data[channel_index(self.width, x, y, c)] as int
    }
}

impl Raster {
    /// Positive sides and exactly three bytes per pixel.
    pub open spec fn well_formed(self) -> bool {
        &&& self.width > 0
        &&& self.height > 0
        &&& self.data.len() == self.width * self.height * 3
    }
}

impl View for RasterImage {
    type V = Raster;

    open spec fn view(&self) -> Raster {
        Raster { width: self.width as int, height: self.height as int, data: self.data@ }
    }
}

/// Position of channel `c` of pixel `(x, y)` in a row-major RGB buffer of row width `w`.
pub open spec fn channel_index(w: int, x: int, y: int, c: int) -> int {
    (y * w + x) * 3 + c
}

impl Resolution {
    /// Both sides are positive.
    pub open spec fn valid(self) -> bool {
        self.width > 0 && self.height > 0
    }
}

impl RasterImage {
    /// Positive dimensions and a buffer of exactly three bytes per pixel.
    pub open spec fn wf(&self) -> bool {
        self@.well_formed()
    }

    /// Channel `c` of pixel `(x, y)`.
    pub open spec fn pixel(&self, x: int, y: int, c: int) -> int {
        self@.pixel(x, y, c)
    }

    /// Builds an image from raw RGB bytes; `None` when a side is zero or the
    /// buffer does not hold exactly three bytes per pixel.
    pub fn from_raw(width: u32, height: u32, data: Vec<u8>) -> (r: Option<RasterImage>)
        ensures
            r is Some <==> (width > 0 && height > 0 && data@.len() == width as int * height as int * 3),
            r matches Some(img) ==> img.wf() && img.width == width && img.height == height
                && img.data@ == data@,
    {
        if width == 0 || height == 0 {
            return None;
        }
        let w = width as u64;
        let h = height as u64;
        assert(w * h <= u32::MAX as u64 * u32::MAX as u64) by (nonlinear_arith)
            requires w <= u32::MAX, h <= u32::MAX;
        let n: u128 = (w * h) as u128 * 3;
        if n == data.len() as u128 {
            Some(RasterImage { width, height, data })
        } else {
            None
        }
    }

    /// The size of this image.
    pub fn resolution(&self) -> (r: Resolution)
        ensures
            r.width == self.width && r.height == self.height,
    {
        Resolution { width: self.width, height: self.height }
    }

    /// Channel `c` of pixel `(x, y)`.
    pub fn channel(&self, x: u32, y: u32, c: usize) -> (r: u8)
        requires
            self.wf(),
            x < self.width,
            y < self.height,
            c < 3,
        ensures
            r as int == self.pixel(x as int, y as int, c as int),
    {
        let i = pixel_offset(self.width, self.height, self.data.len(), x, y, c);
        self.data[i]
    }
}

/// The position of channel `c` of pixel `(x, y)` in a buffer of `len` bytes
/// holding a `w` by `h` RGB raster.
pub fn pixel_offset(w: u32, h: u32, len: usize, x: u32, y: u32, c: usize) -> (r: usize)
    requires
        len == w as int * h as int * 3,
        x < w,
        y < h,
        c < 3,
    ensures
        r as int == channel_index(w as int, x as int, y as int, c as int),
        r < len,
{
    proof {
        lemma_index_in_bounds(w as int, h as int, x as int, y as int, c as int);
        assert(0 <= y as int * w as int <= (y as int * w as int + x as int) * 3) by (nonlinear_arith)
            requires 0 <= x < w, 0 <= y;
    }
    (y as usize * w as usize + x as usize) * 3 + c
}

/// Clamps a neighbour index to the last column or row.
pub open spec fn clamp_next(i: int, n: int) -> int {
    if i + 1 < n { i + 1 } else { n - 1 }
}

/// Channel `c` of destination pixel `(x, y)` when `img` is resampled to
/// `tw` by `th`: the source position is `(x * w / tw, y * h / th)`, taken exactly,
/// the four neighbours around it (clamped at the right and bottom edges) are
/// blended with the bilinear weights, and the blend is truncated.
pub open spec fn sample(img: Raster, tw: int, th: int, x: int, y: int, c: int) -> int {
    let w = img.width;
    let h = img.height;
    let fx = (x * w) / tw;
    let rx = (x * w) % tw;
    let fy = (y * h) / th;
    let ry = (y * h) % th;
    let x1 = clamp_next(fx, w);
    let y1 = clamp_next(fy, h);
    (img.pixel(fx, fy, c) * ((tw - rx) * (th - ry)) + img.pixel(x1, fy, c) * (rx * (th - ry))
        + img.pixel(fx, y1, c) * ((tw - rx) * ry) + img.pixel(x1, y1, c) * (rx * ry)) / (tw * th)
}

/// The buffer of `img` resampled to `tw` by `th`, in row-major RGB order.
pub open spec fn resampled(img: Raster, tw: int, th: int) -> Seq<u8> {
    Seq::new(
        (tw * th * 3) as nat,
        |i: int| sample(img, tw, th, (i / 3) % tw, (i / 3) / tw, i % 3) as u8,
    )
}

/// Resamples `img` to `target` by exact bilinear interpolation with
/// truncation; the source is left unchanged.
pub fn resample(img: &RasterImage, target: Resolution) -> (r: RasterImage)
    requires
        img.wf(),
        target.valid(),
        target.width as int * target.height as int * 3 <= usize::MAX,
    ensures
        r.wf(),
        r.width == target.width,
        r.height == target.height,
        r.data@ == resampled(img@, target.width as int, target.height as int),
{
    let tw = target.width;
    let th = target.height;
    let ghost out = resampled(img@, tw as int, th as int);
    let mut data: Vec<u8> = Vec::new();
    let mut y: u32 = 0;
    while y < th
        invariant
            img.wf(),
            tw > 0,
            th > 0,
            tw == target.width,
            th == target.height,
            (tw as int) * (th as int) * 3 <= usize::MAX,
            out == resampled(img@, tw as int, th as int),
            y <= th,
            data@.len() == (y as int) * (tw as int) * 3,
            forall|i: int| 0 <= i < data@.len() ==> data@[i] == out[i],
        decreases th - y,
    {
        let mut x: u32 = 0;
        while x < tw
            invariant
                img.wf(),
                tw > 0,
                th > 0,
                (tw as int) * (th as int) * 3 <= usize::MAX,
                out == resampled(img@, tw as int, th as int),
                y < th,
                x <= tw,
                data@.len() == channel_index(tw as int, x as int, y as int, 0),
                forall|i: int| 0 <= i < data@.len() ==> data@[i] == out[i],
            decreases tw - x,
        {
            let mut c: usize = 0;
            while c < 3
                invariant
                    img.wf(),
                    tw > 0,
                    th > 0,
                    (tw as int) * (th as int) * 3 <= usize::MAX,
                    out == resampled(img@, tw as int, th as int),
                    y < th,
                    x < tw,
                    c <= 3,
                    data@.len() == channel_index(tw as int, x as int, y as int, c as int),
                    forall|i: int| 0 <= i < data@.len() ==> data@[i] == out[i],
                decreases 3 - c,
            {
                let v = blend(img, tw, th, x, y, c);
                proof {
                    let i = channel_index(tw as int, x as int, y as int, c as int);
                    lemma_index_parts(tw as int, x as int, y as int, c as int);
                    lemma_index_in_bounds(tw as int, th as int, x as int, y as int, c as int);
                    assert(out[i] == v);
                }
                data.push(v);
                c = c + 1;
            }
            x = x + 1;
        }
        proof {
            assert(channel_index(tw as int, tw as int, y as int, 0) == ((y + 1) as int) * (tw as int) * 3)
                by (nonlinear_arith);
        }
        y = y + 1;
    }
    proof {
        assert((th as int) * (tw as int) * 3 == (tw as int) * (th as int) * 3) by (nonlinear_arith);
        assert(data@.len() == out.len());
        assert(data@ =~= out);
    }
    RasterImage { width: tw, height: th, data }
}

/// Channel `c` of destination pixel `(x, y)` of `img` resampled to `tw` by `th`.
pub fn blend(img: &RasterImage, tw: u32, th: u32, x: u32, y: u32, c: usize) -> (v: u8)
    requires
        img.wf(),
        tw > 0,
        th > 0,
        x < tw,
        y < th,
        c < 3,
    ensures
        v as int == sample(img@, tw as int, th as int, x as int, y as int, c as int),
{
    let w = img.width;
    let h = img.height;
    proof {
        assert((x as int) * (w as int) <= (u32::MAX as int) * (u32::MAX as int)) by (nonlinear_arith)
            requires x <= u32::MAX, w <= u32::MAX;
        assert((y as int) * (h as int) <= (u32::MAX as int) * (u32::MAX as int)) by (nonlinear_arith)
            requires y <= u32::MAX, h <= u32::MAX;
    }
    let nx: u64 = x as u64 * w as u64;
    let ny: u64 = y as u64 * h as u64;
    proof {
        assert((x as int) * (w as int) < (tw as int) * (w as int)) by (nonlinear_arith)
            requires x < tw, w > 0;
        assert((y as int) * (h as int) < (th as int) * (h as int)) by (nonlinear_arith)
            requires y < th, h > 0;
        lemma_multiply_divide_lt(nx as int, tw as int, w as int);
        lemma_multiply_divide_lt(ny as int, th as int, h as int);
    }
    let fx = (nx / tw as u64) as u32;
    let rx = nx % tw as u64;
    let fy = (ny / th as u64) as u32;
    let ry = ny % th as u64;
    let x1: u32 = if fx + 1 < w { fx + 1 } else { w - 1 };
    let y1: u32 = if fy + 1 < h { fy + 1 } else { h - 1 };
    let p00 = img.channel(fx, fy, c) as u128;
    let p10 = img.channel(x1, fy, c) as u128;
    let p01 = img.channel(fx, y1, c) as u128;
    let p11 = img.channel(x1, y1, c) as u128;
    let a = (tw as u64 - rx) as u128;
    let b = rx as u128;
    let e = (th as u64 - ry) as u128;
    let d = ry as u128;
    proof {
        lemma_blend_bound(p00 as int, p10 as int, p01 as int, p11 as int, a as int, b as int, e as int, d as int);
        assert((tw as int) * (th as int) <= (u32::MAX as int) * (u32::MAX as int)) by (nonlinear_arith)
            requires tw <= u32::MAX, th <= u32::MAX;
    }
    let num: u128 = p00 * (a * e) + p10 * (b * e) + p01 * (a * d) + p11 * (b * d);
    let den: u128 = tw as u128 * th as u128;
    proof {
        assert(den > 0) by (nonlinear_arith) requires den == (tw as int) * (th as int), tw > 0, th > 0;
        assert((num as int) / (den as int) <= 255) by (nonlinear_arith)
            requires (num as int) <= 255 * (den as int), den > 0;
    }
    (num / den) as u8
}

/// The bilinear blend of four channel values never exceeds the largest
/// channel value times the total weight.
pub proof fn lemma_blend_bound(p00: int, p10: int, p01: int, p11: int, a: int, b: int, e: int, d: int)
    requires
        0 <= p00 <= 255,
        0 <= p10 <= 255,
        0 <= p01 <= 255,
        0 <= p11 <= 255,
        a >= 0,
        b >= 0,
        e >= 0,
        d >= 0,
    ensures
        0 <= p00 * (a * e),
        p00 * (a * e) <= 255 * (a * e),
        0 <= p10 * (b * e),
        p10 * (b * e) <= 255 * (b * e),
        0 <= p01 * (a * d),
        p01 * (a * d) <= 255 * (a * d),
        0 <= p11 * (b * d),
        p11 * (b * d) <= 255 * (b * d),
        a * e + b * e + a * d + b * d == (a + b) * (e + d),
        0 <= p00 * (a * e) + p10 * (b * e) + p01 * (a * d) + p11 * (b * d),
        p00 * (a * e) + p10 * (b * e) + p01 * (a * d) + p11 * (b * d) <= 255 * ((a + b) * (e + d)),
{
    assert(0 <= a * e && 0 <= b * e && 0 <= a * d && 0 <= b * d) by (nonlinear_arith)
        requires a >= 0, b >= 0, e >= 0, d >= 0;
    assert(0 <= p00 * (a * e) <= 255 * (a * e)) by (nonlinear_arith)
        requires 0 <= p00 <= 255, a * e >= 0;
    assert(0 <= p10 * (b * e) <= 255 * (b * e)) by (nonlinear_arith)
        requires 0 <= p10 <= 255, b * e >= 0;
    assert(0 <= p01 * (a * d) <= 255 * (a * d)) by (nonlinear_arith)
        requires 0 <= p01 <= 255, a * d >= 0;
    assert(0 <= p11 * (b * d) <= 255 * (b * d)) by (nonlinear_arith)
        requires 0 <= p11 <= 255, b * d >= 0;
    assert(a * e + b * e + a * d + b * d == (a + b) * (e + d)) by (nonlinear_arith);
}

/// The channel index of a pixel inside a `w` by `h` raster lies inside its buffer.
pub proof fn lemma_index_in_bounds(w: int, h: int, x: int, y: int, c: int)
    requires
        0 <= x < w,
        0 <= y < h,
        0 <= c < 3,
    ensures
        0 <= channel_index(w, x, y, c) < w * h * 3,
{
    assert(0 <= (y * w + x) * 3 + c < w * h * 3) by (nonlinear_arith)
        requires 0 <= x < w, 0 <= y < h, 0 <= c < 3;
}

/// The index of channel `c` of pixel `(x, y)` splits back into `x`, `y` and `c`.
pub proof fn lemma_index_parts(w: int, x: int, y: int, c: int)
    requires
        0 <= x < w,
        0 <= y,
        0 <= c < 3,
    ensures
        channel_index(w, x, y, c) / 3 == y * w + x,
        channel_index(w, x, y, c) % 3 == c,
        (channel_index(w, x, y, c) / 3) % w == x,
        (channel_index(w, x, y, c) / 3) / w == y,
{
    lemma_fundamental_div_mod_converse(channel_index(w, x, y, c), 3, y * w + x, c);
    lemma_fundamental_div_mod_converse(y * w + x, w, y, x);
}

/// Every index below `w * h * 3` is the index of some channel of some pixel.
pub proof fn lemma_index_split(w: int, h: int, i: int)
    requires
        w > 0,
        h > 0,
        0 <= i < w * h * 3,
    ensures
        0 <= (i / 3) % w < w,
        0 <= (i / 3) / w < h,
        0 <= i % 3 < 3,
        i == channel_index(w, (i / 3) % w, (i / 3) / w, i % 3),
{
    let p = i / 3;
    assert(i == p * 3 + i % 3);
    assert(p == (p / w) * w + p % w) by (nonlinear_arith) requires w > 0;
    assert(p < w * h) by (nonlinear_arith) requires 0 <= i < w * h * 3, p == i / 3;
    assert(p / w < h) by (nonlinear_arith) requires 0 <= p < w * h, w > 0;
    assert(p >= 0);
}

} // verus!
