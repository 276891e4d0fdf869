//! Scales from data to pixels: a band scale over category keys and a linear
//! scale over values whose pixel axis points down. Positions are exact
//! fractions of a pixel, so distinct keys and distinct values never collide.
use vstd::prelude::*;

verus! {

/// A pixel coordinate held exactly as `num / den`, with `den > 0`.
#[derive(Clone, Copy, Debug, PartialEq, Eq, Structural)]
pub struct Pixel {
    pub num: u128,
    pub den: u128,
}

/// `a` lies strictly before `b`.
pub open spec fn pixel_lt(a: Pixel, b: Pixel) -> bool {
    (a.num as int) * (b.den as int) < (b.num as int) * (a.den as int)
}

/// `a` is the whole pixel `k`.
pub open spec fn pixel_is(a: Pixel, k: int) -> bool {
    a.num as int == k * (a.den as int)
}

/// Start of band `i` of `n` equal bands over `[0, extent]`: `i * extent / n`.
pub open spec fn band_offset(i: int, n: int, extent: int) -> Pixel {
    Pixel { num: (i * extent) as u128, den: n as u128 }
}

/// Pixel of `v` for the value domain `[min, max]` and the range `[extent, 0]`:
/// `(max - v) * extent / (max - min)`; a domain of one value puts every value
/// at `extent`.
pub open spec fn linear_pixel(v: int, min: int, max: int, extent: int) -> Pixel {
    if max == min {
        Pixel { num: extent as u128, den: 1 }
    } else {
        Pixel { num: ((max - v) * extent) as u128, den: (max - min) as u128 }
    }
}

/// Equal bands, one per key, over `[0, extent]`.
pub struct BandScale {
    pub domain: Vec<String>,
    pub extent: u32,
}

impl BandScale {
    pub open spec fn wf(&self) -> bool {
        self.domain.len() > 0
    }

    pub fn new(domain: Vec<String>, extent: u32) -> (r: BandScale)
        requires
            domain.len() > 0,
        ensures
            r.domain@ == domain@,
            r.extent == extent,
            r.wf(),
    {
        BandScale { domain, extent }
    }

    /// Start of the band of the `i`-th key.
    pub fn offset(&self, i: usize) -> (r: Pixel)
        requires
            self.wf(),
            i < self.domain.len(),
        ensures
            r == band_offset(i as int, self.domain.len() as int, self.extent as int),
            r.num as int == i * self.extent,
            r.den > 0,
    {
        proof {
            lemma_product_fits(i as int, self.extent as int);
        }
        Pixel { num: i as u128 * self.extent as u128, den: self.domain.len() as u128 }
    }

    /// Width of one band: `extent / n`.
    pub fn band_width(&self) -> (r: Pixel)
        requires
            self.wf(),
        ensures
            r == (Pixel { num: self.extent as u128, den: self.domain.len() as u128 }),
    {
        Pixel { num: self.extent as u128, den: self.domain.len() as u128 }
    }
}

/// The values `[min, max]` over the pixels `[extent, 0]`.
pub struct LinearScale {
    pub min: i64,
    pub max: i64,
    pub extent: u32,
}

impl LinearScale {
    pub open spec fn wf(&self) -> bool {
        self.min <= self.max
    }

    pub fn new(min: i64, max: i64, extent: u32) -> (r: LinearScale)
        requires
            min <= max,
        ensures
            r.min == min,
            r.max == max,
            r.extent == extent,
            r.wf(),
    {
        LinearScale { min, max, extent }
    }

    /// Pixel of the value `v`: `extent` for `min`, 0 for `max`.
    pub fn map(&self, v: i64) -> (r: Pixel)
        requires
            self.wf(),
            self.min <= v <= self.max,
        ensures
            r == linear_pixel(v as int, self.min as int, self.max as int, self.extent as int),
            r.den > 0,
    {
        if self.max == self.min {
            Pixel { num: self.extent as u128, den: 1 }
        } else {
            let above: u128 = (self.max as i128 - v as i128) as u128;
            let span: u128 = (self.max as i128 - self.min as i128) as u128;
            proof {
                lemma_product_fits(above as int, self.extent as int);
            }
            Pixel { num: above * self.extent as u128, den: span }
        }
    }
}

proof fn lemma_product_fits(a: int, e: int)
    requires
        0 <= a < 0x1_0000_0000_0000_0000,
        0 <= e < 0x1_0000_0000,
    ensures
        0 <= a * e < 0x1_0000_0000_0000_0000_0000_0000,
{
    assert(0 <= a * e < 0x1_0000_0000_0000_0000 * 0x1_0000_0000) by (nonlinear_arith)
        requires 0 <= a < 0x1_0000_0000_0000_0000, 0 <= e < 0x1_0000_0000;
}

/// Over a non-empty extent, the bands of later keys start strictly further right.
pub proof fn lemma_band_offsets_increase(i: int, j: int, n: int, extent: int)
    requires
        0 <= i < j < n <= usize::MAX,
        0 < extent <= u32::MAX,
    ensures
        pixel_lt(band_offset(i, n, extent), band_offset(j, n, extent)),
{
    lemma_product_fits(i, extent);
    lemma_product_fits(j, extent);
    assert(i * extent * n < j * extent * n) by (nonlinear_arith)
        requires 0 <= i < j, 0 < n, 0 < extent;
}

/// Over a non-empty extent, a strictly larger value is drawn strictly higher,
/// that is at a strictly smaller pixel.
pub proof fn lemma_linear_decreasing(v: int, w: int, min: int, max: int, extent: int)
    requires
        min <= v < w <= max,
        i64::MIN <= min,
        max <= i64::MAX,
        0 < extent <= u32::MAX,
    ensures
        pixel_lt(linear_pixel(w, min, max, extent), linear_pixel(v, min, max, extent)),
{
    lemma_product_fits(max - v, extent);
    lemma_product_fits(max - w, extent);
    assert((max - w) * extent * (max - min) < (max - v) * extent * (max - min)) by (nonlinear_arith)
        requires min <= v < w <= max, 0 < extent;
}

/// A linear scale over more than one value sends `min` to the bottom pixel
/// `extent` and `max` to the top pixel 0.
pub proof fn lemma_linear_bounds(min: int, max: int, extent: int)
    requires
        min < max,
        i64::MIN <= min,
        max <= i64::MAX,
        0 <= extent <= u32::MAX,
    ensures
        pixel_is(linear_pixel(min, min, max, extent), extent),
        pixel_is(linear_pixel(max, min, max, extent), 0),
{
    lemma_product_fits(max - min, extent);
    assert((max - min) * extent == extent * (max - min)) by (nonlinear_arith);
}

/// Over a domain of one value, every value maps to one and the same pixel, `extent`.
pub proof fn lemma_linear_degenerate(v: int, w: int, min: int, extent: int)
    requires
        0 <= extent <= u32::MAX,
    ensures
        linear_pixel(v, min, min, extent) == linear_pixel(w, min, min, extent),
        pixel_is(linear_pixel(v, min, min, extent), extent),
{
}

} // verus!
