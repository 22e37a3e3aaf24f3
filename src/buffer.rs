//! The in-memory pixel grid that every transform and statistic works on.

use vstd::prelude::*;

verus! {

/// The largest pixel count whose sample count fits in a `u64`.
const MAX_PIXELS: u64 = 6148914691236517205;

/// A dense, row-major grid of `width * height` pixels, three 8-bit samples each.
pub struct PixelBuffer {
    width: u32,
    height: u32,
    samples: Vec<u8>,
}

impl View for PixelBuffer {
    type V = Seq<u8>;

    /// All samples, pixel by pixel, red, green and blue in turn.
    closed spec fn view(&self) -> Seq<u8> {
        self.samples@
    }
}

impl PixelBuffer {
    pub closed spec fn width_spec(&self) -> nat {
        self.width as nat
    }

    pub closed spec fn height_spec(&self) -> nat {
        self.height as nat
    }

    /// The sample count matches the grid's dimensions.
    pub open spec fn wf(&self) -> bool {
        self@.len() == self.width_spec() * self.height_spec() * 3
    }

    /// Wraps `samples` as a `width` by `height` grid; `None` when the sample
    /// count is not `width * height * 3`.
    pub fn new(width: u32, height: u32, samples: Vec<u8>) -> (r: Option<PixelBuffer>)
        ensures
            r.is_some() <==> samples@.len() == width as nat * height as nat * 3,
            r matches Some(b) ==> b.wf() && b@ == samples@ && b.width_spec() == width
                && b.height_spec() == height,
    {
        let w = width as u64;
        let h = height as u64;
        assert(w * h <= u32::MAX as u64 * u32::MAX as u64) by (nonlinear_arith)
            requires w <= u32::MAX, h <= u32::MAX;
        let pixels: u64 = w * h;
        if pixels > MAX_PIXELS {
            let n = samples.len();
            assert(usize::MAX <= u64::MAX);
            assert(samples@.len() == n);
            assert(pixels * 3 > u64::MAX);
            return None;
        }
        let expected: u64 = pixels * 3;
        if samples.len() as u64 != expected {
            return None;
        }
        Some(PixelBuffer { width, height, samples })
    }

    /// A buffer of `width * height` pixels, all of colour `rgb`.
    pub fn filled(width: u32, height: u32, rgb: [u8; 3]) -> (r: Option<PixelBuffer>)
        ensures
            r.is_some() <==> width as nat * height as nat * 3 <= usize::MAX,
            r matches Some(b) ==> b.wf() && b.width_spec() == width && b.height_spec() == height
                && forall|i: int| 0 <= i < b@.len() ==> #[trigger] b@[i] == rgb[i % 3],
    {
        let w = width as u64;
        let h = height as u64;
        assert(w * h <= u32::MAX as u64 * u32::MAX as u64) by (nonlinear_arith)
            requires w <= u32::MAX, h <= u32::MAX;
        let pixels: u64 = w * h;
        if pixels > MAX_PIXELS || pixels * 3 > usize::MAX as u64 {
            return None;
        }
        let n: usize = (pixels * 3) as usize;
        let mut samples: Vec<u8> = Vec::with_capacity(n);
        let mut i: usize = 0;
        while i < n
            invariant
                i <= n,
                samples@.len() == i,
                forall|j: int| 0 <= j < i ==> #[trigger] samples@[j] == rgb[j % 3],
            decreases n - i,
        {
            samples.push(rgb[i % 3]);
            i = i + 1;
        }
        Some(PixelBuffer { width, height, samples })
    }

    pub fn width(&self) -> (r: u32)
        ensures
            r == self.width_spec(),
    {
        self.width
    }

    pub fn height(&self) -> (r: u32)
        ensures
            r == self.height_spec(),
    {
        self.height
    }

    /// All samples in row-major order, three per pixel.
    pub fn samples(&self) -> (r: &Vec<u8>)
        ensures
            r@ == self@,
    {
        &self.samples
    }

    /// Hands the samples back, consuming the buffer.
    pub fn into_samples(self) -> (r: Vec<u8>)
        ensures
            r@ == self@,
    {
        self.samples
    }

    /// The three samples of pixel `(x, y)`.
    pub fn pixel(&self, x: u32, y: u32) -> (r: [u8; 3])
        requires
            self.wf(),
            x < self.width_spec(),
            y < self.height_spec(),
        ensures
            forall|c: int| 0 <= c < 3 ==> #[trigger] r[c] == self@[(y * self.width_spec() + x) * 3 + c],
    {
        let w = self.width as usize;
        let h = self.height as usize;
        let xs = x as usize;
        let ys = y as usize;
        assert(w * h * 3 == self.samples.len());
        assert(ys * w + xs < w * h) by (nonlinear_arith)
            requires xs < w, ys < h;
        assert((ys * w + xs) * 3 + 2 < w * h * 3) by (nonlinear_arith)
            requires ys * w + xs < w * h;
        let base = (ys * w + xs) * 3;
        [self.samples[base], self.samples[base + 1], self.samples[base + 2]]
    }

    /// Replaces sample `i`, leaving the dimensions as they are.
    pub fn set_sample(&mut self, i: usize, v: u8)
        requires
            i < old(self)@.len(),
        ensures
            final(self)@ == old(self)@.update(i as int, v),
            final(self).width_spec() == old(self).width_spec(),
            final(self).height_spec() == old(self).height_spec(),
    {
        self.samples.set(i, v);
    }
}

} // verus!
