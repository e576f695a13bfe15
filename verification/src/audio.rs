//! Rate conversion on signed 16-bit PCM: block averaging and linear
//! interpolation.

use vstd::prelude::*;
use vstd::arithmetic::div_mod::{
    lemma_div_is_ordered, lemma_div_multiples_vanish, lemma_fundamental_div_mod,
    lemma_fundamental_div_mod_converse,
};

verus! {

/// The rate, in hertz, at which every capture is handed on.
pub const TARGET_RATE: u32 = 16_000;

/// Division that rounds toward zero, for a positive divisor.
pub open spec fn trunc_div(a: int, b: int) -> int {
    if a >= 0 {
        a / b
    } else {
        -((-a) / b)
    }
}

/// The sum of the `len` samples of `s` that start at `start`.
pub open spec fn block_sum(s: Seq<i16>, start: int, len: int) -> int
    decreases len,
{
    if len <= 0 {
        0
    } else {
        block_sum(s, start, len - 1) + s[start + len - 1] as int
    }
}

/// The mean of block `i` of width `factor`, rounded toward zero.
pub open spec fn block_mean(s: Seq<i16>, factor: int, i: int) -> int {
    trunc_div(block_sum(s, i * factor, factor), factor)
}

/// One output sample per complete block of `factor` input samples: the
/// block's mean, rounded toward zero. A trailing partial block is left out.
pub open spec fn block_averaged(s: Seq<i16>, factor: int) -> Seq<i16> {
    Seq::new((s.len() as int / factor) as nat, |i: int| block_mean(s, factor, i) as i16)
}

/// A quotient rounded toward zero lies between the bounds that enclose the
/// dividend once they are scaled by the divisor.
pub proof fn lemma_trunc_div_bounds(a: int, b: int, lo: int, hi: int)
    requires
        b > 0,
        lo <= 0 <= hi,
        lo * b <= a <= hi * b,
    ensures
        lo <= trunc_div(a, b) <= hi,
{
    if a >= 0 {
        assert(hi * b == b * hi) by (nonlinear_arith);
        lemma_div_is_ordered(a, b * hi, b);
        lemma_div_multiples_vanish(hi, b);
        lemma_div_is_ordered(0, a, b);
    } else {
        assert((-lo) * b == b * (-lo)) by (nonlinear_arith);
        assert(-a <= (-lo) * b) by (nonlinear_arith)
            requires
                lo * b <= a,
        ;
        lemma_div_is_ordered(-a, (-lo) * b, b);
        lemma_div_multiples_vanish(-lo, b);
        lemma_div_is_ordered(0, -a, b);
    }
}

/// A block of `len` samples sums to at most `len` times the extreme values.
pub proof fn lemma_block_sum_bounds(s: Seq<i16>, start: int, len: int)
    requires
        0 <= start,
        0 <= len,
        start + len <= s.len(),
    ensures
        -32768 * len <= block_sum(s, start, len) <= 32767 * len,
    decreases len,
{
    if len > 0 {
        lemma_block_sum_bounds(s, start, len - 1);
    }
}

/// The mean of a complete block is a 16-bit value.
pub proof fn lemma_block_mean_range(s: Seq<i16>, factor: int, i: int)
    requires
        factor > 0,
        0 <= i < s.len() as int / factor,
    ensures
        -32768 <= block_mean(s, factor, i) <= 32767,
        0 <= i * factor,
        i * factor + factor <= s.len(),
{
    lemma_block_fits(s.len() as int, factor, i);
    lemma_block_sum_bounds(s, i * factor, factor);
    lemma_trunc_div_bounds(block_sum(s, i * factor, factor), factor, -32768, 32767);
}

/// Block `i` lies inside a sequence of `n` items when `i` is below the
/// number of complete blocks.
pub proof fn lemma_block_fits(n: int, factor: int, i: int)
    requires
        factor > 0,
        0 <= n,
        0 <= i < n / factor,
    ensures
        0 <= i * factor,
        i * factor + factor <= n,
{
    lemma_fundamental_div_mod(n, factor);
    assert(0 <= i * factor && (i + 1) * factor <= (n / factor) * factor) by (nonlinear_arith)
        requires
            factor > 0,
            0 <= i,
            i + 1 <= n / factor,
    ;
    assert((i + 1) * factor == i * factor + factor) by (nonlinear_arith);
    assert(factor * (n / factor) == (n / factor) * factor) by (nonlinear_arith);
}

/// Divides rounding toward zero.
pub fn div_toward_zero(num: i128, den: u64) -> (q: i128)
    requires
        den > 0,
        num > i128::MIN,
    ensures
        q as int == trunc_div(num as int, den as int),
{
    if num >= 0 {
        let n: u128 = num as u128;
        let q: u128 = n / (den as u128);
        assert(q <= n) by (nonlinear_arith)
            requires
                q == n / (den as u128),
                den > 0,
        ;
        q as i128
    } else {
        let n: u128 = (-num) as u128;
        let q: u128 = n / (den as u128);
        assert(q <= n) by (nonlinear_arith)
            requires
                q == n / (den as u128),
                den > 0,
        ;
        -(q as i128)
    }
}

/// Averages each complete block of `factor` consecutive samples, keeping
/// the blocks' order.
pub fn block_average(samples: &[i16], factor: usize) -> (out: Vec<i16>)
    requires
        factor > 0,
    ensures
        out@ == block_averaged(samples@, factor as int),
{
    let n: usize = samples.len();
    let mut out: Vec<i16> = Vec::new();
    let mut base: usize = 0;
    let ghost f = factor as int;
    assert(0 * f == 0) by (nonlinear_arith);
    while n - base >= factor
        invariant
            f == factor as int,
            factor > 0,
            n == samples@.len(),
            base <= n,
            base as int == out@.len() * f,
            out@.len() <= n as int / f,
            forall|k: int| 0 <= k < out@.len() ==> out@[k] as int == block_mean(samples@, f, k),
        decreases n - base,
    {
        let ghost i = out@.len() as int;
        let mut sum: i128 = 0;
        let mut j: usize = 0;
        while j < factor
            invariant
                f == factor as int,
                j <= factor,
                base as int + f <= n as int,
                n == samples@.len(),
                sum as int == block_sum(samples@, base as int, j as int),
                -32768 * (j as int) <= sum as int <= 32767 * (j as int),
            decreases factor - j,
        {
            sum = sum + samples[base + j] as i128;
            j = j + 1;
        }
        let mean: i128 = div_toward_zero(sum, factor as u64);
        proof {
            lemma_trunc_div_bounds(sum as int, f, -32768, 32767);
            assert(i * f + f == (i + 1) * f) by (nonlinear_arith);
            lemma_fundamental_div_mod(n as int, f);
            assert(i + 1 <= n as int / f) by (nonlinear_arith)
                requires
                    (i + 1) * f <= n as int,
                    n as int == f * (n as int / f) + n as int % f,
                    0 <= n as int % f < f,
                    f > 0,
            ;
        }
        out.push(mean as i16);
        base = base + factor;
    }
    proof {
        let i = out@.len() as int;
        lemma_fundamental_div_mod_converse(n as int, f, i, n as int - base as int);
        assert(out@ =~= block_averaged(samples@, f));
    }
    out
}


/// The number of samples that linear interpolation produces from `n` input
/// samples: `n * dst / src` rounded up, and at least one.
pub open spec fn interpolated_len(n: int, src: int, dst: int) -> int {
    let exact = (n * dst + src - 1) / src;
    if exact < 1 {
        1
    } else {
        exact
    }
}

/// Output sample `i` of linear interpolation. Its source position is
/// `i * src / dst`; the two input samples around that position are blended
/// by the position's fractional part and the blend is rounded toward zero.
/// Past the last input sample the last one is used again.
pub open spec fn interpolated_at(s: Seq<i16>, src: int, dst: int, i: int) -> int {
    let pos = i * src;
    let idx = pos / dst;
    let rem = pos % dst;
    let s0 = s[idx] as int;
    let s1 = if idx + 1 < s.len() {
        s[idx + 1] as int
    } else {
        s0
    };
    trunc_div(s0 * dst + (s1 - s0) * rem, dst)
}

/// The whole output of linear interpolation.
pub open spec fn interpolated(s: Seq<i16>, src: int, dst: int) -> Seq<i16> {
    Seq::new(
        interpolated_len(s.len() as int, src, dst) as nat,
        |i: int| interpolated_at(s, src, dst, i) as i16,
    )
}

/// What rate conversion from `src` to `dst` hertz makes of `s`: `s` itself
/// when the rates agree or fewer than two samples exist, block means when
/// `src` is a multiple of `dst`, and linear interpolation otherwise.
pub open spec fn resampled(s: Seq<i16>, src: int, dst: int) -> Seq<i16> {
    if src == dst || s.len() < 2 {
        s
    } else if src % dst == 0 {
        block_averaged(s, src / dst)
    } else {
        interpolated(s, src, dst)
    }
}

/// Every output index of linear interpolation reads inside the input.
pub proof fn lemma_interpolated_index(n: int, src: int, dst: int, i: int)
    requires
        n >= 1,
        src > 0,
        dst > 0,
        0 <= i < interpolated_len(n, src, dst),
    ensures
        0 <= (i * src) / dst < n,
        0 <= (i * src) % dst < dst,
        0 <= i * src < n * dst,
{
    let total = n * dst;
    assert(total >= 1) by (nonlinear_arith)
        requires
            total == n * dst,
            n >= 1,
            dst >= 1,
    ;
    let exact = (total + src - 1) / src;
    lemma_fundamental_div_mod(total + src - 1, src);
    assert(exact >= 1) by {
        lemma_div_is_ordered(src, total + src - 1, src);
        vstd::arithmetic::div_mod::lemma_div_by_self(src);
    }
    assert(i * src < total && 0 <= i * src) by (nonlinear_arith)
        requires
            0 <= i,
            i + 1 <= exact,
            src > 0,
            total + src - 1 == src * exact + (total + src - 1) % src,
            0 <= (total + src - 1) % src,
    ;
    lemma_fundamental_div_mod(i * src, dst);
    assert((i * src) / dst < n && 0 <= (i * src) / dst) by (nonlinear_arith)
        requires
            0 <= i * src < n * dst,
            dst > 0,
            i * src == dst * ((i * src) / dst) + (i * src) % dst,
            0 <= (i * src) % dst < dst,
    ;
}

/// A blend of two 16-bit samples is a 16-bit value.
pub proof fn lemma_blend_range(s0: int, s1: int, rem: int, dst: int)
    requires
        -32768 <= s0 <= 32767,
        -32768 <= s1 <= 32767,
        0 <= rem < dst,
    ensures
        -32768 * dst <= s0 * dst + (s1 - s0) * rem <= 32767 * dst,
        -32768 <= trunc_div(s0 * dst + (s1 - s0) * rem, dst) <= 32767,
{
    let num = s0 * dst + (s1 - s0) * rem;
    assert(num == s0 * (dst - rem) + s1 * rem) by (nonlinear_arith)
        requires
            num == s0 * dst + (s1 - s0) * rem,
    ;
    assert(-32768 * (dst - rem) <= s0 * (dst - rem) <= 32767 * (dst - rem)) by (nonlinear_arith)
        requires
            -32768 <= s0 <= 32767,
            0 <= dst - rem,
    ;
    assert(-32768 * rem <= s1 * rem <= 32767 * rem) by (nonlinear_arith)
        requires
            -32768 <= s1 <= 32767,
            0 <= rem,
    ;
    assert(-32768 * dst <= num <= 32767 * dst) by (nonlinear_arith)
        requires
            num == s0 * (dst - rem) + s1 * rem,
            -32768 * (dst - rem) <= s0 * (dst - rem) <= 32767 * (dst - rem),
            -32768 * rem <= s1 * rem <= 32767 * rem,
    ;
    lemma_trunc_div_bounds(num, dst, -32768, 32767);
}

/// Every output sample of linear interpolation is a 16-bit value.
pub proof fn lemma_interpolated_range(s: Seq<i16>, src: int, dst: int, i: int)
    requires
        s.len() >= 1,
        src > 0,
        dst > 0,
        0 <= i < interpolated_len(s.len() as int, src, dst),
    ensures
        -32768 <= interpolated_at(s, src, dst, i) <= 32767,
{
    lemma_interpolated_index(s.len() as int, src, dst, i);
    let idx = (i * src) / dst;
    let s0 = s[idx] as int;
    let s1 = if idx + 1 < s.len() {
        s[idx + 1] as int
    } else {
        s0
    };
    lemma_blend_range(s0, s1, (i * src) % dst, dst);
}

/// Interpolates linearly between neighbouring samples.
fn interpolate(samples: &[i16], src_rate: u32, dst_rate: u32) -> (out: Vec<i16>)
    requires
        samples@.len() >= 1,
        src_rate > 0,
        dst_rate > 0,
    ensures
        out@ == interpolated(samples@, src_rate as int, dst_rate as int),
{
    let n: usize = samples.len();
    let src: u128 = src_rate as u128;
    let dst: u128 = dst_rate as u128;
    let ghost gs = src_rate as int;
    let ghost gd = dst_rate as int;
    assert(n as int * gd <= 0xffff_ffff_ffff_ffff * 0xffff_ffff) by (nonlinear_arith)
        requires
            0 <= n as int <= 0xffff_ffff_ffff_ffff,
            0 <= gd <= 0xffff_ffff,
    ;
    let total: u128 = (n as u128) * dst;
    let exact: u128 = (total + src - 1) / src;
    let out_len: u128 = if exact < 1 {
        1
    } else {
        exact
    };
    assert(out_len as int == interpolated_len(n as int, gs, gd));
    proof {
        lemma_fundamental_div_mod(total as int + gs - 1, gs);
        assert(exact as int <= total as int + gs - 1) by (nonlinear_arith)
            requires
                total as int + gs - 1 == gs * (exact as int) + (total as int + gs - 1) % gs,
                0 <= (total as int + gs - 1) % gs,
                gs >= 1,
                exact >= 0,
        ;
    }
    let mut out: Vec<i16> = Vec::new();
    let mut i: u128 = 0;
    while i < out_len
        invariant
            n == samples@.len(),
            n >= 1,
            gs == src_rate as int,
            gd == dst_rate as int,
            src == src_rate as u128,
            dst == dst_rate as u128,
            src_rate > 0,
            dst_rate > 0,
            out_len as int == interpolated_len(n as int, gs, gd),
            out_len as int <= 0xffff_ffff_ffff_ffff * 0xffff_ffff + 0xffff_ffff,
            i <= out_len,
            out@.len() == i as int,
            forall|k: int|
                0 <= k < i as int ==> out@[k] as int == interpolated_at(samples@, gs, gd, k),
        decreases out_len - i,
    {
        proof {
            lemma_interpolated_index(n as int, gs, gd, i as int);
            lemma_interpolated_range(samples@, gs, gd, i as int);
            assert(i as int * gs <= (0xffff_ffff_ffff_ffff * 0xffff_ffff + 0xffff_ffff)
                * 0xffff_ffff) by (nonlinear_arith)
                requires
                    0 <= i as int <= 0xffff_ffff_ffff_ffff * 0xffff_ffff + 0xffff_ffff,
                    0 <= gs <= 0xffff_ffff,
            ;
        }
        let pos: u128 = i * src;
        let idx: usize = (pos / dst) as usize;
        let rem: u128 = pos % dst;
        let s0: i128 = samples[idx] as i128;
        let s1: i128 = if idx + 1 < n {
            samples[idx + 1] as i128
        } else {
            s0
        };
        proof {
            lemma_blend_range(s0 as int, s1 as int, rem as int, gd);
            assert(-32768 * 0xffff_ffff <= s0 as int * gd <= 32767 * 0xffff_ffff)
                by (nonlinear_arith)
                requires
                    -32768 <= s0 as int <= 32767,
                    0 < gd <= 0xffff_ffff,
            ;
            assert(-65535 * 0xffff_ffff <= (s1 as int - s0 as int) * rem as int <= 65535
                * 0xffff_ffff) by (nonlinear_arith)
                requires
                    -65535 <= s1 as int - s0 as int <= 65535,
                    0 <= rem as int <= 0xffff_ffff,
            ;
        }
        let num: i128 = s0 * (dst as i128) + (s1 - s0) * (rem as i128);
        let value: i128 = div_toward_zero(num, dst_rate as u64);
        out.push(value as i16);
        i = i + 1;
    }
    assert(out@ =~= interpolated(samples@, gs, gd));
    out
}

/// Copies a slice of samples.
fn copy_samples(samples: &[i16]) -> (out: Vec<i16>)
    ensures
        out@ == samples@,
{
    let mut out: Vec<i16> = Vec::new();
    let mut i: usize = 0;
    while i < samples.len()
        invariant
            i <= samples@.len(),
            out@ == samples@.subrange(0, i as int),
        decreases samples@.len() - i,
    {
        out.push(samples[i]);
        proof {
            assert(out@ =~= samples@.subrange(0, i as int + 1));
        }
        i = i + 1;
    }
    assert(samples@.subrange(0, samples@.len() as int) =~= samples@);
    out
}

/// Converts `samples` from `src_rate` to `dst_rate` hertz.
///
/// The input is handed back unchanged when the rates agree or fewer than
/// two samples exist. When `src_rate` is a multiple of `dst_rate` each run
/// of `src_rate / dst_rate` samples is replaced by its mean. Otherwise the
/// output is interpolated linearly between neighbouring samples.
pub fn resample_linear(samples: &[i16], src_rate: u32, dst_rate: u32) -> (out: Vec<i16>)
    requires
        src_rate == dst_rate || samples@.len() < 2 || (src_rate > 0 && dst_rate > 0),
    ensures
        out@ == resampled(samples@, src_rate as int, dst_rate as int),
{
    if src_rate == dst_rate || samples.len() < 2 {
        return copy_samples(samples);
    }
    if src_rate % dst_rate == 0 {
        let factor: u32 = src_rate / dst_rate;
        proof {
            lemma_fundamental_div_mod(src_rate as int, dst_rate as int);
            assert(factor > 0) by (nonlinear_arith)
                requires
                    src_rate as int == dst_rate as int * factor as int,
                    src_rate > 0,
            ;
        }
        return block_average(samples, factor as usize);
    }
    interpolate(samples, src_rate, dst_rate)
}


/// The length of a conversion's output follows from the input's length and
/// the two rates: it is `n * dst / src` rounded up, and at least one.
///
/// This holds for every non-empty input but two kinds. A single sample is
/// handed back as it is, which is shorter than the rounded quotient when
/// `dst` exceeds `src`. And block averaging drops a trailing partial block,
/// so there the input's length has to be a multiple of the block width.
pub proof fn lemma_resampled_len_rounds_up(s: Seq<i16>, src: int, dst: int)
    requires
        src > 0,
        dst > 0,
        s.len() >= 1,
        s.len() == 1 ==> dst <= src,
        s.len() >= 2 && src != dst && src % dst == 0 ==> s.len() as int % (src / dst) == 0,
    ensures
        resampled(s, src, dst).len() == interpolated_len(s.len() as int, src, dst),
        interpolated_len(s.len() as int, src, dst) >= 1,
{
    let n = s.len() as int;
    if src == dst {
        assert(n * src + src - 1 == src * n + (src - 1)) by (nonlinear_arith);
        lemma_fundamental_div_mod_converse(n * src + src - 1, src, n, src - 1);
    } else if n == 1 {
        assert(1 * dst + src - 1 == src * 1 + (dst - 1)) by (nonlinear_arith);
        lemma_fundamental_div_mod_converse(1 * dst + src - 1, src, 1, dst - 1);
    } else if src % dst == 0 {
        let f = src / dst;
        lemma_fundamental_div_mod(src, dst);
        assert(f >= 1) by (nonlinear_arith)
            requires
                src == dst * f,
                src > 0,
                dst > 0,
        ;
        let k = n / f;
        lemma_fundamental_div_mod(n, f);
        assert(k >= 1) by (nonlinear_arith)
            requires
                n == f * k,
                n >= 2,
                f >= 1,
        ;
        assert(n * dst + src - 1 == src * k + (src - 1)) by (nonlinear_arith)
            requires
                n == f * k,
                src == dst * f,
        ;
        lemma_fundamental_div_mod_converse(n * dst + src - 1, src, k, src - 1);
    }
}

/// When `src` is a multiple of `dst`, the output holds one sample for each
/// `src / dst` input samples. A single sample is the exception: it is
/// handed back as it is.
pub proof fn lemma_resampled_len_of_multiple(s: Seq<i16>, src: int, dst: int)
    requires
        src > 0,
        dst > 0,
        src % dst == 0,
        s.len() != 1 || src == dst,
    ensures
        resampled(s, src, dst).len() == s.len() as int / (src / dst),
{
    let n = s.len() as int;
    let f = src / dst;
    lemma_fundamental_div_mod(src, dst);
    assert(f >= 1) by (nonlinear_arith)
        requires
            src == dst * f,
            src > 0,
            dst > 0,
    ;
    lemma_fundamental_div_mod(n, f);
    assert(n / f >= 0) by (nonlinear_arith)
        requires
            n == f * (n / f) + n % f,
            0 <= n % f < f,
            n >= 0,
    ;
    if src == dst {
        assert(f == 1) by (nonlinear_arith)
            requires
                src == src * f,
                src > 0,
        ;
        assert(n / 1 == n);
    } else if n == 0 {
        assert(n / f == 0) by (nonlinear_arith)
            requires
                0 == f * (n / f) + n % f,
                0 <= n % f,
                n / f >= 0,
                f >= 1,
        ;
    } else {
        assert(resampled(s, src, dst) == block_averaged(s, f));
        assert(block_averaged(s, f).len() == n / f);
    }
}

} // verus!
