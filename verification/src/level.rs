//! Level measurement on signed 16-bit PCM: peak and root mean square.

use vstd::prelude::*;
use crate::audio::{div_toward_zero, lemma_trunc_div_bounds, trunc_div};

verus! {

/// The absolute value of a sample.
pub open spec fn magnitude(x: int) -> int {
    if x < 0 {
        -x
    } else {
        x
    }
}

/// The largest magnitude among the samples; zero for an empty sequence.
pub open spec fn peak_of(s: Seq<i16>) -> int
    decreases s.len(),
{
    if s.len() == 0 {
        0
    } else {
        let rest = peak_of(s.drop_last());
        let last = magnitude(s.last() as int);
        if last > rest {
            last
        } else {
            rest
        }
    }
}

/// The sum of the squared samples.
pub open spec fn sum_squares(s: Seq<i16>) -> int
    decreases s.len(),
{
    if s.len() == 0 {
        0
    } else {
        sum_squares(s.drop_last()) + (s.last() as int) * (s.last() as int)
    }
}

/// The mean of the squared samples, rounded down; zero for an empty
/// sequence.
pub open spec fn mean_square(s: Seq<i16>) -> int {
    if s.len() == 0 {
        0
    } else {
        sum_squares(s) / (s.len() as int)
    }
}

/// `r` is the square root of `x`, rounded down.
pub open spec fn is_floor_sqrt(r: int, x: int) -> bool {
    0 <= r && r * r <= x < (r + 1) * (r + 1)
}

/// The level of a run of samples.
#[derive(Clone, Copy, Debug, PartialEq, Eq, Structural)]
pub struct Level {
    /// The largest magnitude, between 0 and 32768.
    pub peak: u16,
    /// The root of the mean square, rounded down.
    pub rms: u16,
}

/// The peak above which a capture is scaled down: 80% of full scale.
pub const TARGET_PEAK: u16 = 26213;

/// The peak is at most the largest magnitude a sample can have, and the
/// squares sum to at most that magnitude squared for each sample.
pub proof fn lemma_level_bounds(s: Seq<i16>)
    ensures
        0 <= peak_of(s) <= 32768,
        0 <= sum_squares(s) <= 0x4000_0000 * s.len(),
        0 <= mean_square(s) <= 0x4000_0000,
    decreases s.len(),
{
    if s.len() > 0 {
        lemma_level_bounds(s.drop_last());
        let x = s.last() as int;
        assert(0 <= x * x <= 0x4000_0000) by (nonlinear_arith)
            requires
                -32768 <= x <= 32767,
        ;
        let n = s.len() as int;
        let total = sum_squares(s);
        vstd::arithmetic::div_mod::lemma_fundamental_div_mod(total, n);
        assert(0 <= total / n <= 0x4000_0000) by (nonlinear_arith)
            requires
                0 <= total <= 0x4000_0000 * n,
                total == n * (total / n) + total % n,
                0 <= total % n < n,
                n > 0,
        ;
    }
}

/// The square root of `x`, rounded down.
pub fn floor_sqrt(x: u64) -> (r: u32)
    ensures
        is_floor_sqrt(r as int, x as int),
{
    let mut lo: u64 = 0;
    let mut hi: u64 = 0x1_0000_0000;
    assert(0x1_0000_0000 * 0x1_0000_0000 > u64::MAX) by (nonlinear_arith);
    while hi - lo > 1
        invariant
            lo < hi <= 0x1_0000_0000,
            lo * lo <= x,
            x < hi * hi,
        decreases hi - lo,
    {
        let mid: u64 = lo + (hi - lo) / 2;
        assert(mid * mid <= 0xffff_ffff * 0xffff_ffff) by (nonlinear_arith)
            requires
                mid <= 0xffff_ffff,
        ;
        if mid * mid <= x {
            lo = mid;
        } else {
            hi = mid;
        }
    }
    lo as u32
}

/// Measures the peak and the root mean square of `samples`.
pub fn peak_rms(samples: &[i16]) -> (level: Level)
    ensures
        level.peak as int == peak_of(samples@),
        is_floor_sqrt(level.rms as int, mean_square(samples@)),
{
    let n: usize = samples.len();
    let mut peak: u16 = 0;
    let mut total: u128 = 0;
    let mut i: usize = 0;
    proof {
        assert(samples@.subrange(0, 0) =~= Seq::<i16>::empty());
    }
    while i < n
        invariant
            n == samples@.len(),
            i <= n,
            peak as int == peak_of(samples@.subrange(0, i as int)),
            total as int == sum_squares(samples@.subrange(0, i as int)),
            total as int <= 0x4000_0000 * i,
        decreases n - i,
    {
        let x: i16 = samples[i];
        let mag: u16 = if x < 0 {
            if x == i16::MIN {
                32768
            } else {
                (-x) as u16
            }
        } else {
            x as u16
        };
        proof {
            let next = samples@.subrange(0, i as int + 1);
            assert(next.drop_last() =~= samples@.subrange(0, i as int));
            assert(next.last() == x);
            assert((mag as int) * (mag as int) == (x as int) * (x as int)) by (nonlinear_arith)
                requires
                    mag as int == magnitude(x as int),
            ;
            assert(0 <= (mag as int) * (mag as int) <= 0x4000_0000) by (nonlinear_arith)
                requires
                    0 <= mag as int <= 32768,
            ;
        }
        if mag > peak {
            peak = mag;
        }
        let m: u128 = mag as u128;
        total = total + m * m;
        i = i + 1;
    }
    proof {
        assert(samples@.subrange(0, n as int) =~= samples@);
        lemma_level_bounds(samples@);
    }
    let rms: u32 = if n == 0 {
        floor_sqrt(0)
    } else {
        let mean: u128 = total / (n as u128);
        floor_sqrt(mean as u64)
    };
    proof {
        let r = rms as int;
        assert(r <= 32768) by (nonlinear_arith)
            requires
                0 <= r,
                r * r <= 0x4000_0000,
        ;
    }
    Level { peak, rms: rms as u16 }
}

/// Whether a capture with this peak is scaled down before it is handed on.
pub fn exceeds_target_peak(peak: u16) -> (over: bool)
    ensures
        over == (peak > TARGET_PEAK),
{
    peak > TARGET_PEAK
}


/// Sample `x` of a capture with peak `peak`, scaled so that the peak comes
/// to lie at the target; rounded toward zero.
pub open spec fn scaled_sample(x: i16, peak: int) -> int {
    trunc_div(x as int * TARGET_PEAK as int, peak)
}

/// A capture brought to the target level: scaled down where its peak lies
/// above the target, and unchanged where it does not.
pub open spec fn levelled(s: Seq<i16>) -> Seq<i16> {
    if peak_of(s) > TARGET_PEAK {
        Seq::new(s.len(), |i: int| scaled_sample(s[i], peak_of(s)) as i16)
    } else {
        s
    }
}

/// No sample is larger than the peak.
pub proof fn lemma_peak_bounds_each(s: Seq<i16>, i: int)
    requires
        0 <= i < s.len(),
    ensures
        magnitude(s[i] as int) <= peak_of(s),
    decreases s.len(),
{
    if i < s.len() - 1 {
        lemma_peak_bounds_each(s.drop_last(), i);
    }
}

/// A bound on every sample is a bound on the peak.
pub proof fn lemma_peak_within(s: Seq<i16>, bound: int)
    requires
        0 <= bound,
        forall|i: int| 0 <= i < s.len() ==> magnitude(#[trigger] s[i] as int) <= bound,
    ensures
        peak_of(s) <= bound,
    decreases s.len(),
{
    if s.len() > 0 {
        let front = s.drop_last();
        assert forall|i: int| 0 <= i < front.len() implies magnitude(#[trigger] front[i] as int)
            <= bound by {
            assert(front[i] == s[i]);
        }
        lemma_peak_within(front, bound);
    }
}

/// A scaled sample is no larger than the target.
pub proof fn lemma_scaled_sample_range(x: i16, peak: int)
    requires
        magnitude(x as int) <= peak,
        peak > 0,
    ensures
        -(TARGET_PEAK as int) <= scaled_sample(x, peak) <= TARGET_PEAK as int,
{
    let t = TARGET_PEAK as int;
    assert((-t) * peak <= x as int * t <= t * peak) by (nonlinear_arith)
        requires
            -peak <= x as int <= peak,
            t == 26213,
    ;
    lemma_trunc_div_bounds(x as int * t, peak, -t, t);
}

/// Levelling leaves no peak above the target.
pub proof fn lemma_levelled_peak(s: Seq<i16>)
    ensures
        peak_of(levelled(s)) <= TARGET_PEAK,
        levelled(s).len() == s.len(),
{
    let p = peak_of(s);
    if p > TARGET_PEAK {
        let out = levelled(s);
        assert forall|i: int| 0 <= i < out.len() implies magnitude(#[trigger] out[i] as int)
            <= TARGET_PEAK as int by {
            lemma_peak_bounds_each(s, i);
            lemma_scaled_sample_range(s[i], p);
        }
        lemma_peak_within(out, TARGET_PEAK as int);
    }
}

/// Brings a capture to the target level: where its peak lies above 80% of
/// full scale, every sample is scaled by the target over the peak.
pub fn level_to_target(samples: Vec<i16>) -> (out: Vec<i16>)
    ensures
        out@ == levelled(samples@),
{
    let level = peak_rms(samples.as_slice());
    if !exceeds_target_peak(level.peak) {
        return samples;
    }
    let peak: u16 = level.peak;
    let mut out: Vec<i16> = Vec::new();
    let mut i: usize = 0;
    while i < samples.len()
        invariant
            i <= samples@.len(),
            peak as int == peak_of(samples@),
            peak > TARGET_PEAK,
            out@.len() == i,
            forall|k: int| 0 <= k < i ==> out@[k] as int == scaled_sample(samples@[k], peak as int),
        decreases samples@.len() - i,
    {
        let x: i16 = samples[i];
        proof {
            lemma_peak_bounds_each(samples@, i as int);
            lemma_scaled_sample_range(x, peak as int);
            assert(-32768 * 26213 <= x as int * 26213 <= 32767 * 26213) by (nonlinear_arith)
                requires
                    -32768 <= x as int <= 32767,
            ;
        }
        let product: i128 = (x as i128) * (TARGET_PEAK as i128);
        let scaled: i128 = div_toward_zero(product, peak as u64);
        out.push(scaled as i16);
        i = i + 1;
    }
    assert(out@ =~= levelled(samples@));
    out
}

} // verus!
