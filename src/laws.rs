use crate::codec::frame_result;
use crate::raster::{
    clamp_next, lemma_index_split, resampled, sample, Raster,
};
use vstd::arithmetic::div_mod::{
    lemma_div_by_multiple, lemma_div_multiples_vanish_quotient, lemma_fundamental_div_mod_converse,
    lemma_multiply_divide_lt,
};
use vstd::prelude::*;

verus! {

/// Every pixel of `img` has the channel values `color`.
pub open spec fn is_uniform(img: Raster, color: Seq<u8>) -> bool {
    forall|x: int, y: int, c: int|
        0 <= x < img.width && 0 <= y < img.height && 0 <= c < 3 ==> #[trigger] img.pixel(x, y, c)
            == color[c] as int
}

/// Resampling an image to its own size gives back exactly its pixels.
pub proof fn lemma_resample_same_size(img: Raster)
    requires
        img.well_formed(),
    ensures
        resampled(img, img.width, img.height) == img.data,
{
    let w = img.width;
    let h = img.height;
    let out = resampled(img, w, h);
    assert forall|i: int| 0 <= i < out.len() implies out[i] == img.data[i] by {
        lemma_index_split(w, h, i);
        let x = (i / 3) % w;
        let y = (i / 3) / w;
        let c = i % 3;
        lemma_exact_position(x, w);
        lemma_exact_position(y, h);
        assert(w * h > 0) by (nonlinear_arith) requires w > 0, h > 0;
        let p = img.pixel(x, y, c);
        assert((p * (w * h) + img.pixel(clamp_next(x, w), y, c) * (0 * h) + img.pixel(x, clamp_next(y, h), c) * (w * 0)
            + img.pixel(clamp_next(x, w), clamp_next(y, h), c) * (0 * 0)) == p * (w * h)) by (nonlinear_arith);
        lemma_div_by_multiple(p, w * h);
        assert(sample(img, w, h, x, y, c) == p);
        assert(img.data[i] as int == p);
    }
    assert(out =~= img.data);
}

/// With as many destination as source positions, position `x` maps onto `x` exactly.
proof fn lemma_exact_position(x: int, n: int)
    requires
        0 <= x < n,
    ensures
        (x * n) / n == x,
        (x * n) % n == 0,
{
    lemma_fundamental_div_mod_converse(x * n, n, x, 0);
}

/// An image of one colour resampled to any size is that colour at every pixel.
pub proof fn lemma_resample_uniform(img: Raster, color: Seq<u8>, tw: int, th: int)
    requires
        img.well_formed(),
        color.len() == 3,
        is_uniform(img, color),
        tw > 0,
        th > 0,
    ensures
        forall|i: int| 0 <= i < tw * th * 3 ==> #[trigger] resampled(img, tw, th)[i] == color[i % 3],
{
    let w = img.width;
    let h = img.height;
    let out = resampled(img, tw, th);
    assert forall|i: int| 0 <= i < tw * th * 3 implies #[trigger] out[i] == color[i % 3] by {
        lemma_index_split(tw, th, i);
        let x = (i / 3) % tw;
        let y = (i / 3) / tw;
        let c = i % 3;
        lemma_source_position(x, w, tw);
        lemma_source_position(y, h, th);
        let fx = (x * w) / tw;
        let rx = (x * w) % tw;
        let fy = (y * h) / th;
        let ry = (y * h) % th;
        let v = color[c] as int;
        assert(img.pixel(fx, fy, c) == v);
        assert(img.pixel(clamp_next(fx, w), fy, c) == v);
        assert(img.pixel(fx, clamp_next(fy, h), c) == v);
        assert(img.pixel(clamp_next(fx, w), clamp_next(fy, h), c) == v);
        assert(v * ((tw - rx) * (th - ry)) + v * (rx * (th - ry)) + v * ((tw - rx) * ry) + v * (rx * ry)
            == v * (tw * th)) by (nonlinear_arith);
        assert(tw * th > 0) by (nonlinear_arith) requires tw > 0, th > 0;
        lemma_div_by_multiple(v, tw * th);
        assert(sample(img, tw, th, x, y, c) == v);
    }
}

/// Destination position `x` of `n` maps into the source's `w` columns, and so
/// does its clamped neighbour.
proof fn lemma_source_position(x: int, w: int, n: int)
    requires
        0 <= x < n,
        w > 0,
    ensures
        0 <= (x * w) / n < w,
        0 <= (x * w) % n < n,
        0 <= clamp_next((x * w) / n, w) < w,
{
    assert(0 <= x * w < n * w) by (nonlinear_arith) requires 0 <= x < n, w > 0;
    lemma_multiply_divide_lt(x * w, n, w);
}

/// Upscaling a 2 by 2 image so that destination pixel `(x, y)` falls on source
/// position (0.5, 0.5) gives the truncated mean of the four corners.
pub proof fn lemma_resample_two_by_two_centre(img: Raster, tw: int, th: int, x: int, y: int, c: int)
    requires
        img.well_formed(),
        img.width == 2,
        img.height == 2,
        0 <= c < 3,
        0 < x,
        0 < y,
        tw == 4 * x,
        th == 4 * y,
    ensures
        sample(img, tw, th, x, y, c) == (img.pixel(0, 0, c) + img.pixel(1, 0, c) + img.pixel(0, 1, c)
            + img.pixel(1, 1, c)) / 4,
{
    lemma_fundamental_div_mod_converse(x * 2, tw, 0, 2 * x);
    lemma_fundamental_div_mod_converse(y * 2, th, 0, 2 * y);
    let s = img.pixel(0, 0, c) + img.pixel(1, 0, c) + img.pixel(0, 1, c) + img.pixel(1, 1, c);
    let k = 4 * x * y;
    assert(img.pixel(0, 0, c) * ((tw - 2 * x) * (th - 2 * y)) + img.pixel(1, 0, c) * ((2 * x) * (th - 2 * y))
        + img.pixel(0, 1, c) * ((tw - 2 * x) * (2 * y)) + img.pixel(1, 1, c) * ((2 * x) * (2 * y)) == k * s)
        by (nonlinear_arith) requires tw == 4 * x, th == 4 * y, k == 4 * x * y,
            s == img.pixel(0, 0, c) + img.pixel(1, 0, c) + img.pixel(0, 1, c) + img.pixel(1, 1, c);
    assert(tw * th == k * 4) by (nonlinear_arith) requires tw == 4 * x, th == 4 * y, k == 4 * x * y;
    assert(k > 0) by (nonlinear_arith) requires k == 4 * x * y, x > 0, y > 0;
    assert(s >= 0);
    lemma_div_multiples_vanish_quotient(k, s, 4);
}

/// Handling the same frame bytes at the same target size gives the same
/// outcome, byte for byte, every time: the output file of a frame depends on
/// its input file and the target alone.
pub proof fn lemma_frame_deterministic(first: Seq<u8>, second: Seq<u8>, tw: u32, th: u32)
    requires
        first == second,
    ensures
        frame_result(first, tw, th) == frame_result(second, tw, th),
{
}

} // verus!
