//! Per-sample transforms: each new sample depends on its own old value and a
//! random multiplier, then is clamped to the 8-bit range.

use vstd::prelude::*;
use rand::Rng;
use rand::rngs::StdRng;
use crate::buffer::PixelBuffer;

verus! {

#[verifier::external_type_specification]
#[verifier::external_body]
pub struct ExStdRng(StdRng);

/// Multipliers are fixed-point numbers with this many parts per unit.
pub const MULT_SCALE: u64 = 1000000;

/// Smallest multiplier drawn (0.7), in parts per million.
pub const MULT_LOW: u32 = 700000;

/// Bound above every multiplier drawn (1.3), in parts per million; not itself drawn.
pub const MULT_HIGH: u32 = 1300000;

/// `m` lies in the half-open multiplier range `[0.7, 1.3)`.
pub open spec fn valid_multiplier(m: u32) -> bool {
    MULT_LOW <= m < MULT_HIGH
}

/// `old / (m / MULT_SCALE)`, rounded half up, before clamping.
pub open spec fn divided(old: u8, m: u32) -> int {
    (2 * old * MULT_SCALE + m) / (2 * m)
}

/// The sample `old` divided by multiplier `m`, rounded, clamped to `[0, 255]`.
pub open spec fn scaled(old: u8, m: u32) -> u8 {
    let q = divided(old, m);
    if q < 0 {
        0
    } else if q > 255 {
        255
    } else {
        q as u8
    }
}

/// All multipliers of `ms` lie in the range.
pub open spec fn all_valid(ms: Seq<u32>) -> bool {
    forall|k: int| 0 <= k < ms.len() ==> valid_multiplier(#[trigger] ms[k])
}

/// Sample `k` of `new` is sample `k` of `old` scaled by `ms[k]`, for every `k`.
pub open spec fn noise_applied(old: Seq<u8>, new: Seq<u8>, ms: Seq<u32>) -> bool {
    &&& new.len() == old.len()
    &&& ms.len() == old.len()
    &&& forall|k: int| 0 <= k < old.len() ==> #[trigger] new[k] == scaled(old[k], ms[k])
}

/// The three samples of pixel `p` in `new` are those of `old` scaled by
/// `ms[p]`, for every pixel `p`.
pub open spec fn brightness_applied(old: Seq<u8>, new: Seq<u8>, ms: Seq<u32>) -> bool {
    &&& new.len() == old.len()
    &&& ms.len() == old.len() / 3
    &&& forall|p: int, c: int|
        0 <= p < ms.len() && 0 <= c < 3 ==> #[trigger] new[3 * p + c] == scaled(old[3 * p + c], ms[p])
}

/// Relies on num_traits::clamp: `input` bounded to `[min, max]`; its only
/// panic is on `min > max`.
#[verifier::external_body]
fn clamp_u64(input: u64, min: u64, max: u64) -> (r: u64)
    requires
        min <= max,
    ensures
        r == if input < min { min } else if input > max { max } else { input },
{
    num_traits::clamp(input, min, max)
}

/// Relies on rand's Rng::gen_range: a value of the half-open range
/// `[low, high)`; its only panic is on an empty range.
#[verifier::external_body]
fn gen_range_u32(rng: &mut StdRng, low: u32, high: u32) -> (r: u32)
    requires
        low < high,
    ensures
        low <= r < high,
{
    rng.gen_range(low..high)
}

/// Draws one multiplier from `[0.7, 1.3)`.
fn draw_multiplier(rng: &mut StdRng) -> (r: u32)
    ensures
        valid_multiplier(r),
{
    gen_range_u32(rng, MULT_LOW, MULT_HIGH)
}

/// Divides `old` by the multiplier `m` (in parts per million), rounds half
/// up and clamps the result to `[0, 255]`.
pub fn scale_sample(old: u8, m: u32) -> (r: u8)
    requires
        valid_multiplier(m),
    ensures
        r == scaled(old, m),
{
    let num: u64 = 2 * (old as u64) * MULT_SCALE + m as u64;
    let q: u64 = num / (2 * m as u64);
    clamp_u64(q, 0, 255) as u8
}

/// Scales sample `k` of `img` by `ms[k]`, for every sample.
pub fn apply_noise(img: &mut PixelBuffer, ms: &Vec<u32>)
    requires
        ms@.len() == old(img)@.len(),
        all_valid(ms@),
    ensures
        final(img).width_spec() == old(img).width_spec(),
        final(img).height_spec() == old(img).height_spec(),
        noise_applied(old(img)@, final(img)@, ms@),
{
    let ghost before = img@;
    let n = img.samples().len();
    let mut i: usize = 0;
    while i < n
        invariant
            i <= n == before.len() == img@.len() == ms@.len(),
            all_valid(ms@),
            img.width_spec() == old(img).width_spec(),
            img.height_spec() == old(img).height_spec(),
            before == old(img)@,
            forall|j: int| 0 <= j < i ==> #[trigger] img@[j] == scaled(before[j], ms@[j]),
            forall|j: int| i <= j < n ==> #[trigger] img@[j] == before[j],
        decreases n - i,
    {
        let v = scale_sample(img.samples()[i], ms[i]);
        img.set_sample(i, v);
        i = i + 1;
    }
}

/// Scales the three samples of pixel `p` of `img` by `ms[p]`, for every pixel.
pub fn apply_brightness(img: &mut PixelBuffer, ms: &Vec<u32>)
    requires
        old(img).wf(),
        ms@.len() == old(img)@.len() / 3,
        all_valid(ms@),
    ensures
        final(img).width_spec() == old(img).width_spec(),
        final(img).height_spec() == old(img).height_spec(),
        brightness_applied(old(img)@, final(img)@, ms@),
{
    let ghost before = img@;
    let n = img.samples().len();
    let pixels = ms.len();
    proof {
        let wh = img.width_spec() * img.height_spec();
        assert(wh * 3 / 3 == wh) by (nonlinear_arith);
        assert(pixels * 3 == n);
    }
    let mut p: usize = 0;
    while p < pixels
        invariant
            p <= pixels == ms@.len(),
            pixels * 3 == n == before.len() == img@.len(),
            all_valid(ms@),
            img.width_spec() == old(img).width_spec(),
            img.height_spec() == old(img).height_spec(),
            before == old(img)@,
            forall|q: int, c: int|
                0 <= q < p && 0 <= c < 3 ==> #[trigger] img@[3 * q + c] == scaled(before[3 * q + c], ms@[q]),
            forall|j: int| 3 * p <= j < n ==> #[trigger] img@[j] == before[j],
        decreases pixels - p,
    {
        let m = ms[p];
        let ghost mid = img@;
        let base = 3 * p;
        let r = scale_sample(img.samples()[base], m);
        img.set_sample(base, r);
        let g = scale_sample(img.samples()[base + 1], m);
        img.set_sample(base + 1, g);
        let b = scale_sample(img.samples()[base + 2], m);
        img.set_sample(base + 2, b);
        proof {
            assert forall|q: int, c: int|
                0 <= q < p + 1 && 0 <= c < 3 implies #[trigger] img@[3 * q + c] == scaled(before[3 * q + c], ms@[q]) by {
                if q < p {
                    assert(mid[3 * q + c] == scaled(before[3 * q + c], ms@[q]));
                }
            }
        }
        p = p + 1;
    }
}

/// Draws `n` multipliers, one at a time, each from `[0.7, 1.3)`.
fn draw_multipliers(rng: &mut StdRng, n: usize) -> (ms: Vec<u32>)
    ensures
        ms@.len() == n,
        all_valid(ms@),
{
    let mut ms: Vec<u32> = Vec::with_capacity(n);
    let mut i: usize = 0;
    while i < n
        invariant
            i <= n,
            ms@.len() == i,
            all_valid(ms@),
        decreases n - i,
    {
        let m = draw_multiplier(rng);
        ms.push(m);
        i = i + 1;
    }
    ms
}

/// Scales every sample of `img` by its own freshly drawn multiplier, and
/// returns the multipliers drawn, one per sample in order.
pub fn random_noise(img: &mut PixelBuffer, rng: &mut StdRng) -> (ms: Vec<u32>)
    ensures
        final(img).width_spec() == old(img).width_spec(),
        final(img).height_spec() == old(img).height_spec(),
        all_valid(ms@),
        noise_applied(old(img)@, final(img)@, ms@),
{
    let ms = draw_multipliers(rng, img.samples().len());
    apply_noise(img, &ms);
    ms
}

/// Scales every pixel of `img` by one freshly drawn multiplier, shared by
/// its three channels, and returns the multipliers drawn, one per pixel in
/// order.
pub fn random_brightness(img: &mut PixelBuffer, rng: &mut StdRng) -> (ms: Vec<u32>)
    requires
        old(img).wf(),
    ensures
        final(img).width_spec() == old(img).width_spec(),
        final(img).height_spec() == old(img).height_spec(),
        all_valid(ms@),
        brightness_applied(old(img)@, final(img)@, ms@),
{
    let ms = draw_multipliers(rng, img.samples().len() / 3);
    apply_brightness(img, &ms);
    ms
}

} // verus!
