//! Histogram, extrema and most/least frequent sample values of a buffer.

use vstd::prelude::*;
use crate::buffer::PixelBuffer;

verus! {

/// Number of distinct 8-bit sample values, one histogram bin each.
pub const BINS: usize = 256;

/// How many samples of `s` equal `v`.
pub open spec fn count_in(s: Seq<u8>, v: int) -> nat
    decreases s.len(),
{
    if s.len() == 0 {
        0
    } else {
        count_in(s.drop_last(), v) + if s.last() == v { 1nat } else { 0nat }
    }
}

/// The histogram of `s`: bin `v` holds the number of samples equal to `v`.
pub open spec fn histogram_of(s: Seq<u8>) -> Seq<nat> {
    Seq::new(256, |v: int| count_in(s, v))
}

/// The sum of all counts in `h`.
pub open spec fn total(h: Seq<nat>) -> nat
    decreases h.len(),
{
    if h.len() == 0 {
        0
    } else {
        total(h.drop_last()) + h.last()
    }
}

/// `m` occurs in `s` and no sample of `s` is below it.
pub open spec fn is_min_of(s: Seq<u8>, m: u8) -> bool {
    (exists|i: int| 0 <= i < s.len() && s[i] == m) && forall|i: int|
        0 <= i < s.len() ==> m <= #[trigger] s[i]
}

/// `m` occurs in `s` and no sample of `s` is above it.
pub open spec fn is_max_of(s: Seq<u8>, m: u8) -> bool {
    (exists|i: int| 0 <= i < s.len() && s[i] == m) && forall|i: int|
        0 <= i < s.len() ==> #[trigger] s[i] <= m
}

/// Some bin of `h` has a nonzero count.
pub open spec fn any_nonzero(h: Seq<u64>) -> bool {
    exists|v: int| 0 <= v < h.len() && h[v] > 0
}

/// `m` is the first bin with the highest count, and that count is nonzero.
pub open spec fn is_most(h: Seq<u64>, m: int) -> bool {
    &&& 0 <= m < h.len()
    &&& h[m] > 0
    &&& forall|v: int| 0 <= v < h.len() ==> #[trigger] h[v] <= h[m]
    &&& forall|v: int| 0 <= v < m ==> #[trigger] h[v] < h[m]
}

/// `l` is the first nonzero bin with the lowest nonzero count.
pub open spec fn is_least(h: Seq<u64>, l: int) -> bool {
    &&& 0 <= l < h.len()
    &&& h[l] > 0
    &&& forall|v: int| 0 <= v < h.len() && h[v] > 0 ==> h[l] <= #[trigger] h[v]
    &&& forall|v: int| 0 <= v < l && h[v] > 0 ==> h[l] < #[trigger] h[v]
}

/// Counts each sample value of `window` into one of 256 bins.
pub fn frequencies(window: &[u8]) -> (r: Vec<u64>)
    ensures
        r@.len() == BINS,
        forall|v: int| 0 <= v < 256 ==> r@[v] == #[trigger] count_in(window@, v),
{
    let mut freqs: Vec<u64> = vec![0u64; BINS];
    let mut i: usize = 0;
    while i < window.len()
        invariant
            i <= window@.len(),
            freqs@.len() == BINS,
            forall|v: int| 0 <= v < 256 ==> freqs@[v] == #[trigger] count_in(window@.take(i as int), v),
        decreases window@.len() - i,
    {
        let val = window[i];
        proof {
            assert(window@.take(i as int + 1).drop_last() =~= window@.take(i as int));
            assert forall|v: int| 0 <= v < 256 implies count_in(window@.take(i as int), v) <= i by {
                lemma_count_bounded(window@.take(i as int), v);
            }
        }
        let c = freqs[val as usize];
        assert(c == count_in(window@.take(i as int), val as int));
        assert(usize::MAX <= u64::MAX);
        freqs.set(val as usize, c + 1);
        proof {
            let next = window@.take(i as int + 1);
            assert(next.last() == val);
            assert forall|v: int| 0 <= v < 256 implies freqs@[v] == #[trigger] count_in(next, v) by {
                assert(count_in(next, v) == count_in(next.drop_last(), v) + if next.last() == v { 1nat } else { 0nat });
            }
        }
        i = i + 1;
    }
    assert(window@.take(window@.len() as int) =~= window@);
    freqs
}

proof fn lemma_count_bounded(s: Seq<u8>, v: int)
    ensures
        count_in(s, v) <= s.len(),
    decreases s.len(),
{
    if s.len() > 0 {
        lemma_count_bounded(s.drop_last(), v);
    }
}

/// Finds `(least, most)` of a histogram of at most 256 bins by one
/// left-to-right scan; `(0, 0)` when every count is zero.
pub fn least_most(window: &[u64]) -> (r: (u8, u8))
    requires
        window@.len() <= BINS,
    ensures
        any_nonzero(window@) ==> is_least(window@, r.0 as int) && is_most(window@, r.1 as int),
        !any_nonzero(window@) ==> r == (0u8, 0u8),
{
    let mut most_val: u64 = 0;
    let mut least_val: u64 = 0;
    let mut most_i: usize = 0;
    let mut least_i: usize = 0;
    let mut seen: bool = false;
    let mut i: usize = 0;
    while i < window.len()
        invariant
            i <= window@.len() <= BINS,
            seen <==> any_nonzero(window@.take(i as int)),
            !seen ==> most_i == 0 && least_i == 0,
            seen ==> is_most(window@.take(i as int), most_i as int) && most_val == window@[most_i as int],
            seen ==> is_least(window@.take(i as int), least_i as int) && least_val == window@[least_i as int],
        decreases window@.len() - i,
    {
        let c = window[i];
        let ghost pre = window@.take(i as int);
        let ghost post = window@.take(i as int + 1);
        assert(forall|v: int| 0 <= v < i ==> post[v] == #[trigger] pre[v]);
        if c != 0 {
            if !seen || c > most_val {
                most_val = c;
                most_i = i;
            }
            if !seen || c < least_val {
                least_val = c;
                least_i = i;
            }
            seen = true;
            assert(post[i as int] > 0);
        } else {
            assert(any_nonzero(post) ==> any_nonzero(pre));
        }
        i = i + 1;
    }
    assert(window@.take(window@.len() as int) =~= window@);
    (least_i as u8, most_i as u8)
}

/// Smallest and largest sample of a nonempty sequence.
fn extrema(s: &Vec<u8>) -> (r: (u8, u8))
    requires
        s@.len() > 0,
    ensures
        is_min_of(s@, r.0),
        is_max_of(s@, r.1),
{
    let mut lo: u8 = s[0];
    let mut hi: u8 = s[0];
    let ghost mut lo_at: int = 0;
    let ghost mut hi_at: int = 0;
    let mut i: usize = 1;
    while i < s.len()
        invariant
            1 <= i <= s@.len(),
            0 <= lo_at < s@.len() && s@[lo_at] == lo,
            0 <= hi_at < s@.len() && s@[hi_at] == hi,
            forall|j: int| 0 <= j < i ==> lo <= #[trigger] s@[j] && s@[j] <= hi,
        decreases s@.len() - i,
    {
        let v = s[i];
        if v < lo {
            lo = v;
            proof { lo_at = i as int; }
        }
        if v > hi {
            hi = v;
            proof { hi_at = i as int; }
        }
        i = i + 1;
    }
    (lo, hi)
}

/// A snapshot of the sample distribution of one buffer.
pub struct ImageStats {
    /// Bin `v` counts the samples equal to `v`, over all channels.
    pub frequencies: Vec<u64>,
    pub min: u8,
    pub max: u8,
    pub most: u8,
    pub least: u8,
}

impl ImageStats {
    /// Statistics of every sample of `img`. An empty buffer gives an
    /// all-zero histogram, and 0 for min, max, most and least.
    pub fn from_image(img: &PixelBuffer) -> (st: ImageStats)
        ensures
            st.frequencies@.len() == BINS,
            st.frequencies@.map_values(|c: u64| c as nat) == histogram_of(img@),
            total(st.frequencies@.map_values(|c: u64| c as nat)) == img@.len(),
            img.wf() ==> total(st.frequencies@.map_values(|c: u64| c as nat))
                == img.width_spec() * img.height_spec() * 3,
            img@.len() == 0 ==> forall|v: int| 0 <= v < 256 ==> #[trigger] st.frequencies@[v] == 0,
            img@.len() == 0 ==> st.min == 0 && st.max == 0 && st.most == 0 && st.least == 0,
            img@.len() > 0 ==> {
                &&& is_min_of(img@, st.min)
                &&& is_max_of(img@, st.max)
                &&& is_most(st.frequencies@, st.most as int)
                &&& is_least(st.frequencies@, st.least as int)
            },
    {
        let samples = img.samples();
        let frequencies = frequencies(samples.as_slice());
        assert(frequencies@.map_values(|c: u64| c as nat) =~= histogram_of(img@));
        proof {
            lemma_histogram_total(img@);
        }
        if samples.len() == 0 {
            assert forall|v: int| 0 <= v < 256 implies #[trigger] frequencies@[v] == 0 by {
                assert(frequencies@[v] == count_in(img@, v));
            }
            return ImageStats { frequencies, min: 0, max: 0, most: 0, least: 0 };
        }
        let (min, max) = extrema(samples);
        proof {
            assert(count_in(img@, img@[0] as int) > 0) by {
                lemma_count_positive(img@, 0);
            }
            assert(frequencies@[img@[0] as int] > 0);
        }
        let (least, most) = least_most(frequencies.as_slice());
        ImageStats { frequencies, min, max, most, least }
    }
}

proof fn lemma_count_positive(s: Seq<u8>, i: int)
    requires
        0 <= i < s.len(),
    ensures
        count_in(s, s[i] as int) > 0,
    decreases s.len(),
{
    if i < s.len() - 1 {
        lemma_count_positive(s.drop_last(), i);
    }
}

proof fn lemma_total_bump(h: Seq<nat>, i: int)
    requires
        0 <= i < h.len(),
    ensures
        total(h.update(i, h[i] + 1)) == total(h) + 1,
    decreases h.len(),
{
    let g = h.update(i, h[i] + 1);
    if i == h.len() - 1 {
        assert(g.drop_last() =~= h.drop_last());
    } else {
        assert(g.drop_last() =~= h.drop_last().update(i, h[i] + 1));
        lemma_total_bump(h.drop_last(), i);
    }
}

proof fn lemma_total_zero(h: Seq<nat>)
    requires
        forall|v: int| 0 <= v < h.len() ==> h[v] == 0,
    ensures
        total(h) == 0,
    decreases h.len(),
{
    if h.len() > 0 {
        lemma_total_zero(h.drop_last());
    }
}

/// The histogram of a sequence counts each of its samples exactly once.
pub proof fn lemma_histogram_total(s: Seq<u8>)
    ensures
        total(histogram_of(s)) == s.len(),
    decreases s.len(),
{
    if s.len() == 0 {
        lemma_total_zero(histogram_of(s));
    } else {
        let p = s.drop_last();
        let x = s.last() as int;
        lemma_histogram_total(p);
        assert(histogram_of(s) =~= histogram_of(p).update(x, histogram_of(p)[x] + 1));
        lemma_total_bump(histogram_of(p), x);
    }
}

/// Histogram conservation: the bins of a `W x H` buffer's histogram add up
/// to `W * H * 3`, the number of its samples.
pub proof fn lemma_histogram_conservation(img: &PixelBuffer)
    requires
        img.wf(),
    ensures
        total(histogram_of(img@)) == img.width_spec() * img.height_spec() * 3,
{
    lemma_histogram_total(img@);
}

} // verus!
