//! From decoded PCM to the encoder's input: downmix to mono, resample to the
//! target rate, normalise the loudness and quantise to signed 8 bits.
//!
//! All steps work on one decoded packet at a time and in exact integer
//! arithmetic: a position between two source samples is a fraction with the
//! target rate as its denominator, and a gain is a ratio of two integers.

use crate::arith::{
    clamp_int, div_rounded, div_toward_zero, lemma_div_toward_zero_between, lemma_mul_bound,
};
use vstd::prelude::*;
use vstd::slice::slice_to_vec;

verus! {

/// The sample rate that the delta encoder is fed at.
pub const TARGET_RATE: u32 = 48000;

/// The sum of the samples.
pub open spec fn sum(s: Seq<i16>) -> int
    decreases s.len(),
{
    if s.len() == 0 {
        0
    } else {
        sum(s.drop_last()) + s.last()
    }
}

/// Number of frames that `len` interleaved samples make with `channels`
/// samples to a frame; a last frame may be incomplete.
pub open spec fn frame_count(len: nat, channels: nat) -> nat {
    ((len + channels - 1) / (channels as int)) as nat
}

/// The samples of frame `k`.
pub open spec fn frame(samples: Seq<i16>, channels: nat, k: int) -> Seq<i16> {
    samples.subrange(
        k * channels,
        if (k + 1) * channels <= samples.len() {
            (k + 1) * channels
        } else {
            samples.len() as int
        },
    )
}

/// The arithmetic mean of a frame, rounded towards zero.
pub open spec fn frame_mean(f: Seq<i16>) -> int {
    div_toward_zero(sum(f), f.len() as int)
}

/// Interleaved samples mixed down to one channel: each frame becomes the
/// mean of its samples. With one channel (or none declared) the samples pass
/// through.
pub open spec fn downmixed(samples: Seq<i16>, channels: nat) -> Seq<i16> {
    if channels <= 1 {
        samples
    } else {
        Seq::new(
            frame_count(samples.len(), channels),
            |k: int| frame_mean(frame(samples, channels, k)) as i16,
        )
    }
}

/// The sum of `n` samples lies within `n` times the range of one.
pub proof fn lemma_sum_bounds(s: Seq<i16>)
    ensures
        -32768 * s.len() <= sum(s) <= 32767 * s.len(),
    decreases s.len(),
{
    if s.len() > 0 {
        lemma_sum_bounds(s.drop_last());
    }
}

/// The mean of a non-empty frame is itself a 16-bit sample.
pub proof fn lemma_frame_mean_in_range(f: Seq<i16>)
    requires
        f.len() > 0,
    ensures
        -32768 <= frame_mean(f) <= 32767,
{
    lemma_sum_bounds(f);
    lemma_div_toward_zero_between(sum(f), f.len() as int, -32768, 32767);
}

proof fn lemma_sum_push(s: Seq<i16>, x: i16)
    ensures
        sum(s.push(x)) == sum(s) + x,
{
    assert(s.push(x).drop_last() =~= s);
}

/// The mean of `samples[from..to]`, rounded towards zero.
fn mean_of(samples: &[i16], from: usize, to: usize) -> (mean: i16)
    requires
        from < to <= samples.len(),
    ensures
        mean == frame_mean(samples@.subrange(from as int, to as int)),
{
    let mut total: i128 = 0;
    let mut j: usize = from;
    proof {
        assert(samples@.subrange(from as int, from as int) =~= Seq::<i16>::empty());
    }
    while j < to
        invariant
            from <= j <= to <= samples.len(),
            total == sum(samples@.subrange(from as int, j as int)),
            -32768 * (j - from) <= total <= 32767 * (j - from),
        decreases to - j,
    {
        proof {
            lemma_sum_push(samples@.subrange(from as int, j as int), samples@[j as int]);
            assert(samples@.subrange(from as int, j + 1) =~= samples@.subrange(
                from as int,
                j as int,
            ).push(samples@[j as int]));
        }
        total = total + samples[j] as i128;
        j = j + 1;
    }
    let count: i128 = (to - from) as i128;
    proof {
        lemma_frame_mean_in_range(samples@.subrange(from as int, to as int));
    }
    let mean: i128 = total / count;
    mean as i16
}

/// Mixes interleaved samples down to one channel.
pub fn downmix(samples: &[i16], channels: usize) -> (mono: Vec<i16>)
    ensures
        mono@ == downmixed(samples@, channels as nat),
{
    if channels <= 1 {
        return slice_to_vec(samples);
    }
    let len = samples.len();
    let mut mono: Vec<i16> = Vec::new();
    let ghost target = downmixed(samples@, channels as nat);
    let mut pos: usize = 0;
    let ghost mut k: int = 0;
    proof {
        lemma_no_frames(channels as int);
    }
    while pos < len
        invariant
            channels > 1,
            len == samples.len(),
            pos <= len,
            0 <= k,
            pos < len ==> pos == k * channels,
            pos >= len ==> k == frame_count(len as nat, channels as nat),
            k <= frame_count(len as nat, channels as nat),
            target == downmixed(samples@, channels as nat),
            mono@ == target.take(k),
        decreases len - pos,
    {
        let end: usize = if len - pos < channels {
            len
        } else {
            pos + channels
        };
        proof {
            lemma_frame_step(len as int, channels as int, k);
            assert(frame(samples@, channels as nat, k) =~= samples@.subrange(
                pos as int,
                end as int,
            ));
        }
        let mean = mean_of(samples, pos, end);
        mono.push(mean);
        proof {
            assert(target.take(k + 1) =~= target.take(k).push(target[k]));
            k = k + 1;
        }
        pos = end;
    }
    proof {
        assert(target.take(k) =~= target);
    }
    mono
}

proof fn lemma_no_frames(channels: int)
    by (nonlinear_arith)
    requires
        channels > 1,
    ensures
        (0 + channels - 1) / channels == 0,
{
}

/// Where frame `k` starts and ends, and how many frames there are once the
/// end is reached.
proof fn lemma_frame_step(len: int, channels: int, k: int)
    by (nonlinear_arith)
    requires
        channels > 1,
        0 <= k,
        k * channels < len,
    ensures
        (k + 1) * channels == k * channels + channels,
        k < (len + channels - 1) / channels,
        (k + 1) * channels >= len ==> k + 1 == (len + channels - 1) / channels,
{
}

/// Number of samples that `n` samples at `source_rate` become at
/// `target_rate`: `n * target_rate / source_rate`, rounded down.
pub open spec fn resampled_len(n: int, source_rate: int, target_rate: int) -> int {
    n * target_rate / source_rate
}

/// The source sample at or before output sample `i`.
pub open spec fn source_index(i: int, source_rate: int, target_rate: int) -> int {
    i * source_rate / target_rate
}

/// How far output sample `i` lies past the source sample
/// [`source_index`], in units of `1 / target_rate` of the distance to the
/// next one.
pub open spec fn source_offset(i: int, source_rate: int, target_rate: int) -> int {
    i * source_rate % target_rate
}

/// The point `num / den` of the way on the straight line from `a` to `b`,
/// rounded towards zero.
pub open spec fn linear(a: int, b: int, num: int, den: int) -> int {
    div_toward_zero(a * den + (b - a) * num, den)
}

/// The third-order curve through four neighbouring samples, taken at
/// `num / den` of the way from `y1` to `y2`: with `f = num / den`,
/// `a0 f^3 + a1 f^2 + a2 f + a3`, rounded towards zero and limited to the
/// 16-bit range.
pub open spec fn cubic(y0: int, y1: int, y2: int, y3: int, num: int, den: int) -> int {
    let a0 = y3 - y2 - y0 + y1;
    let a1 = y0 - y1 - a0;
    let a2 = y2 - y0;
    let a3 = y1;
    let n2 = num * num;
    let n3 = n2 * num;
    let d2 = den * den;
    let d3 = d2 * den;
    clamp_int(div_toward_zero(a0 * n3 + a1 * (n2 * den) + a2 * (num * d2) + a3 * d3, d3), -32768, 32767)
}

/// The value at `num / den` of the way from sample `idx` to the next. Next
/// to either end of the buffer (at the first sample and at the last two) the
/// line between the two neighbours is used, and the last sample stands for
/// everything past it; elsewhere the curve through four neighbours.
pub open spec fn interpolated(mono: Seq<i16>, idx: int, num: int, den: int) -> int {
    if idx == 0 || idx >= mono.len() - 2 {
        if idx >= mono.len() - 1 {
            mono[mono.len() - 1] as int
        } else {
            linear(mono[idx] as int, mono[idx + 1] as int, num, den)
        }
    } else {
        cubic(
            mono[idx - 1] as int,
            mono[idx] as int,
            mono[idx + 1] as int,
            mono[idx + 2] as int,
            num,
            den,
        )
    }
}

/// Mono samples at `source_rate` brought to `target_rate`. Equal rates pass
/// the samples through.
pub open spec fn resampled(mono: Seq<i16>, source_rate: int, target_rate: int) -> Seq<i16> {
    if source_rate == target_rate {
        mono
    } else {
        Seq::new(
            resampled_len(mono.len() as int, source_rate, target_rate) as nat,
            |i: int|
                interpolated(
                    mono,
                    source_index(i, source_rate, target_rate),
                    source_offset(i, source_rate, target_rate),
                    target_rate,
                ) as i16,
        )
    }
}

/// A point on the line between two samples lies between them.
pub proof fn lemma_linear_between(a: int, b: int, num: int, den: int)
    requires
        0 <= num < den,
    ensures
        a <= b ==> a <= linear(a, b, num, den) <= b,
        b <= a ==> b <= linear(a, b, num, den) <= a,
{
    let value = a * den + (b - a) * num;
    if a <= b {
        assert(a * den <= value <= b * den) by (nonlinear_arith)
            requires
                0 <= num < den,
                a <= b,
                value == a * den + (b - a) * num,
        ;
        lemma_div_toward_zero_between(value, den, a, b);
    } else {
        assert(b * den <= value <= a * den) by (nonlinear_arith)
            requires
                0 <= num < den,
                b <= a,
                value == a * den + (b - a) * num,
        ;
        lemma_div_toward_zero_between(value, den, b, a);
    }
}

/// Every value that [`interpolated`] gives is a 16-bit sample.
pub proof fn lemma_interpolated_in_range(mono: Seq<i16>, idx: int, num: int, den: int)
    requires
        0 <= idx < mono.len(),
        0 <= num < den,
    ensures
        -32768 <= interpolated(mono, idx, num, den) <= 32767,
{
    if idx == 0 || idx >= mono.len() - 2 {
        if idx < mono.len() - 1 {
            lemma_linear_between(mono[idx] as int, mono[idx + 1] as int, num, den);
        }
    }
}

/// Every output sample is taken from inside the input: the source index of
/// an output position below the resampled length is below the input length.
pub proof fn lemma_source_index_in_range(i: int, n: int, source_rate: int, target_rate: int)
    by (nonlinear_arith)
    requires
        0 <= n,
        0 <= target_rate,
        source_rate > 0,
        0 <= i < resampled_len(n, source_rate, target_rate),
    ensures
        target_rate > 0,
        0 <= source_index(i, source_rate, target_rate) < n,
        0 <= source_offset(i, source_rate, target_rate) < target_rate,
{
}

/// The resampled length is the exact ratio `n * target_rate / source_rate`
/// rounded to the nearest integer, or one less: it never differs from the
/// rounded ratio by more than one.
pub proof fn lemma_resampled_len_near_rounded(n: int, source_rate: int, target_rate: int)
    by (nonlinear_arith)
    requires
        0 <= n,
        0 <= target_rate,
        source_rate > 0,
    ensures
        resampled_len(n, source_rate, target_rate) <= div_rounded(n * target_rate, source_rate)
            <= resampled_len(n, source_rate, target_rate) + 1,
{
}

/// The length law of resampling: `n` samples at rate `source_rate` become
/// `round(n * target_rate / source_rate)` samples at rate `target_rate`,
/// give or take one. (They become that many or one fewer.)
pub proof fn lemma_resampling_length(mono: Seq<i16>, source_rate: int, target_rate: int)
    requires
        source_rate > 0,
        target_rate >= 0,
    ensures
        ({
            let rounded = div_rounded(mono.len() * target_rate, source_rate);
            let len = resampled(mono, source_rate, target_rate).len();
            rounded - 1 <= len <= rounded
        }),
{
    let n = mono.len() as int;
    lemma_resampled_len_near_rounded(n, source_rate, target_rate);
    if source_rate == target_rate {
        assert(div_rounded(n * source_rate, source_rate) == n) by (nonlinear_arith)
            requires
                source_rate > 0,
        ;
    } else {
        assert(0 <= n * target_rate / source_rate) by (nonlinear_arith)
            requires
                0 <= n,
                0 <= target_rate,
                source_rate > 0,
        ;
    }
}

/// The value at `num / den` of the way from sample `idx` to the next.
fn interpolate(mono: &[i16], idx: usize, num: u32, den: u32) -> (value: i16)
    requires
        idx < mono.len(),
        num < den,
    ensures
        value == interpolated(mono@, idx as int, num as int, den as int),
{
    let len = mono.len();
    proof {
        lemma_interpolated_in_range(mono@, idx as int, num as int, den as int);
    }
    if idx == 0 || len - idx <= 2 {
        if len - idx <= 1 {
            mono[len - 1]
        } else {
            let a: i128 = mono[idx] as i128;
            let b: i128 = mono[idx + 1] as i128;
            let n: i128 = num as i128;
            let d: i128 = den as i128;
            proof {
                lemma_mul_bound(a as int, d as int, 32768, 4294967295);
                lemma_mul_bound(b - a, n as int, 65535, 4294967295);
            }
            let value: i128 = a * d + (b - a) * n;
            (value / d) as i16
        }
    } else {
        let y0: i128 = mono[idx - 1] as i128;
        let y1: i128 = mono[idx] as i128;
        let y2: i128 = mono[idx + 1] as i128;
        let y3: i128 = mono[idx + 2] as i128;
        let a0: i128 = y3 - y2 - y0 + y1;
        let a1: i128 = y0 - y1 - a0;
        let a2: i128 = y2 - y0;
        let a3: i128 = y1;
        let n: i128 = num as i128;
        let d: i128 = den as i128;
        proof {
            let m: int = 4294967295;
            lemma_mul_bound(n as int, n as int, m, m);
            lemma_mul_bound(n * n, n as int, m * m, m);
            lemma_mul_bound(d as int, d as int, m, m);
            lemma_mul_bound(d * d, d as int, m * m, m);
            lemma_mul_bound(n * n, d as int, m * m, m);
            lemma_mul_bound(n as int, d * d, m, m * m);
            lemma_mul_bound(a0 as int, n * n * n, 131070, m * m * m);
            lemma_mul_bound(a1 as int, n * n * d, 196605, m * m * m);
            lemma_mul_bound(a2 as int, n * (d * d), 65535, m * m * m);
            lemma_mul_bound(a3 as int, d * d * d, 32768, m * m * m);
            assert(d * d * d >= 1) by (nonlinear_arith)
                requires
                    d >= 1,
            ;
        }
        let n2: i128 = n * n;
        let n3: i128 = n2 * n;
        let d2: i128 = d * d;
        let d3: i128 = d2 * d;
        let total: i128 = a0 * n3 + a1 * (n2 * d) + a2 * (n * d2) + a3 * d3;
        let curve: i128 = total / d3;
        if curve < -32768 {
            -32768
        } else if curve > 32767 {
            32767
        } else {
            curve as i16
        }
    }
}

/// Brings mono samples from `source_rate` to `target_rate`.
pub fn resample(mono: &[i16], source_rate: u32, target_rate: u32) -> (out: Vec<i16>)
    requires
        source_rate > 0,
        source_rate != target_rate ==> resampled_len(
            mono@.len() as int,
            source_rate as int,
            target_rate as int,
        ) <= usize::MAX,
    ensures
        out@ == resampled(mono@, source_rate as int, target_rate as int),
{
    if source_rate == target_rate {
        return slice_to_vec(mono);
    }
    let n = mono.len();
    let mut out: Vec<i16> = Vec::new();
    let ghost target = resampled(mono@, source_rate as int, target_rate as int);
    proof {
        lemma_mul_bound(n as int, target_rate as int, 18446744073709551615, 4294967295);
        assert(0 <= n * target_rate) by (nonlinear_arith)
            requires
                0 <= n,
                0 <= target_rate,
        ;
    }
    let new_len: usize = ((n as u128 * target_rate as u128) / (source_rate as u128)) as usize;
    let mut i: usize = 0;
    while i < new_len
        invariant
            i <= new_len,
            n == mono.len(),
            source_rate > 0,
            source_rate != target_rate,
            new_len == resampled_len(n as int, source_rate as int, target_rate as int),
            target == resampled(mono@, source_rate as int, target_rate as int),
            out@ == target.take(i as int),
        decreases new_len - i,
    {
        proof {
            lemma_source_index_in_range(i as int, n as int, source_rate as int, target_rate as int);
            lemma_mul_bound(i as int, source_rate as int, 18446744073709551615, 4294967295);
            assert(0 <= i * source_rate) by (nonlinear_arith)
                requires
                    0 <= i,
                    0 <= source_rate,
            ;
        }
        let scaled: u128 = i as u128 * source_rate as u128;
        let idx: usize = (scaled / (target_rate as u128)) as usize;
        let num: u32 = (scaled % (target_rate as u128)) as u32;
        let value = interpolate(mono, idx, num, target_rate);
        out.push(value);
        proof {
            assert(target.take(i + 1) =~= target.take(i as int).push(target[i as int]));
        }
        i = i + 1;
    }
    proof {
        assert(target.take(new_len as int) =~= target);
    }
    out
}

/// Peaks above this are scaled down to it.
pub const LOUD_PEAK: u16 = 16384;

/// Peaks below this (other than silence) are scaled up.
pub const QUIET_PEAK: u16 = 8192;

/// The factor that quiet packets are scaled up by.
pub const QUIET_BOOST: u16 = 2;

/// The absolute value of a sample (32768 for the lowest one).
pub open spec fn magnitude(sample: i16) -> int {
    if sample < 0 {
        -(sample as int)
    } else {
        sample as int
    }
}

/// The largest magnitude among the samples; 1 for an empty buffer, which
/// has nothing to scale.
pub open spec fn peak(samples: Seq<i16>) -> int
    decreases samples.len(),
{
    if samples.len() == 0 {
        1
    } else if samples.len() == 1 {
        magnitude(samples[0])
    } else {
        let rest = peak(samples.drop_last());
        if magnitude(samples.last()) > rest {
            magnitude(samples.last())
        } else {
            rest
        }
    }
}

/// The gain for a packet with the given peak, as numerator and denominator:
/// `16384 / peak` for a loud packet, which brings the peak down to 16384;
/// 2 for a quiet but not silent one; 1 otherwise. (For a quiet packet
/// `16384 / peak` would exceed 2, so the limit of 2 always applies.)
pub open spec fn gain_for(peak: int) -> (int, int) {
    if peak > LOUD_PEAK {
        (LOUD_PEAK as int, peak)
    } else if 0 < peak < QUIET_PEAK {
        (QUIET_BOOST as int, 1)
    } else {
        (1, 1)
    }
}

/// A sample scaled by `num / den`, rounded towards zero.
pub open spec fn scaled(sample: i16, num: int, den: int) -> int {
    div_toward_zero(sample * num, den)
}

/// A sample scaled by `num / den` and reduced from 16 to 8 bits: 128 is
/// added before the division by 256, and the result is limited to the
/// range of a signed byte.
pub open spec fn quantized(sample: i16, num: int, den: int) -> int {
    clamp_int(div_toward_zero(scaled(sample, num, den) + 128, 256), -128, 127)
}

/// A whole packet normalised and quantised: every sample is scaled by the
/// gain that the packet's own peak calls for.
pub open spec fn quantized_all(samples: Seq<i16>) -> Seq<i8> {
    let gain = gain_for(peak(samples));
    Seq::new(samples.len(), |i: int| quantized(samples[i], gain.0, gain.1) as i8)
}

/// One decoded packet turned into encoder input: mixed down, resampled to
/// [`TARGET_RATE`], normalised and quantised.
pub open spec fn pcm8(samples: Seq<i16>, channels: nat, source_rate: int) -> Seq<i8> {
    quantized_all(resampled(downmixed(samples, channels), source_rate, TARGET_RATE as int))
}

/// No sample's magnitude exceeds the peak, and the peak of a non-empty
/// buffer is the magnitude of one of its samples.
pub proof fn lemma_peak_is_max(samples: Seq<i16>)
    ensures
        0 <= peak(samples) <= 32768,
        forall|i: int| 0 <= i < samples.len() ==> magnitude(#[trigger] samples[i]) <= peak(samples),
        samples.len() > 0 ==> exists|i: int|
            0 <= i < samples.len() && magnitude(#[trigger] samples[i]) == peak(samples),
    decreases samples.len(),
{
    if samples.len() > 1 {
        let front = samples.drop_last();
        lemma_peak_is_max(front);
        assert forall|i: int| 0 <= i < samples.len() implies magnitude(#[trigger] samples[i])
            <= peak(samples) by {
            if i < front.len() {
                assert(front[i] == samples[i]);
            }
        }
        if magnitude(samples.last()) > peak(front) {
            assert(magnitude(samples[samples.len() - 1]) == peak(samples));
        } else {
            let w = choose|i: int|
                0 <= i < front.len() && magnitude(#[trigger] front[i]) == peak(front);
            assert(magnitude(samples[w]) == peak(samples));
        }
    } else if samples.len() == 1 {
        assert(magnitude(samples[0]) == peak(samples));
    }
}

/// A ratio by which a packet's samples are scaled.
#[derive(Clone, Copy, Debug)]
pub struct Gain {
    num: u16,
    den: u16,
}

impl Gain {
    #[verifier::type_invariant]
    closed spec fn in_range(self) -> bool {
        &&& 1 <= self.num <= LOUD_PEAK
        &&& 1 <= self.den
    }

    /// The gain as numerator and denominator.
    pub closed spec fn ratio(self) -> (int, int) {
        (self.num as int, self.den as int)
    }

    /// The numerator.
    pub fn num(&self) -> (n: u16)
        ensures
            n == self.ratio().0,
    {
        self.num
    }

    /// The denominator.
    pub fn den(&self) -> (d: u16)
        ensures
            d == self.ratio().1,
    {
        self.den
    }
}

/// The largest magnitude among the samples.
pub fn peak_amplitude(samples: &[i16]) -> (p: u16)
    ensures
        p == peak(samples@),
{
    if samples.len() == 0 {
        return 1;
    }
    let first: i32 = samples[0] as i32;
    let mut best: u16 = if first < 0 {
        (-first) as u16
    } else {
        first as u16
    };
    let mut i: usize = 1;
    proof {
        assert(samples@.take(1) =~= seq![samples@[0]]);
    }
    while i < samples.len()
        invariant
            1 <= i <= samples.len(),
            best == peak(samples@.take(i as int)),
        decreases samples.len() - i,
    {
        let wide: i32 = samples[i] as i32;
        let m: u16 = if wide < 0 {
            (-wide) as u16
        } else {
            wide as u16
        };
        proof {
            assert(samples@.take(i + 1).drop_last() =~= samples@.take(i as int));
        }
        if m > best {
            best = m;
        }
        i = i + 1;
    }
    proof {
        assert(samples@.take(samples.len() as int) =~= samples@);
    }
    best
}

/// The gain for a packet with the given peak.
pub fn normalization_gain(peak: u16) -> (gain: Gain)
    ensures
        gain.ratio() == gain_for(peak as int),
{
    if peak > LOUD_PEAK {
        Gain { num: LOUD_PEAK, den: peak }
    } else if peak > 0 && peak < QUIET_PEAK {
        Gain { num: QUIET_BOOST, den: 1 }
    } else {
        Gain { num: 1, den: 1 }
    }
}

/// Scales one sample by `gain` and reduces it to 8 bits.
pub fn quantize(sample: i16, gain: Gain) -> (q: i8)
    ensures
        q == quantized(sample, gain.ratio().0, gain.ratio().1),
{
    proof {
        use_type_invariant(gain);
        lemma_mul_bound(sample as int, gain.num as int, 32768, 16384);
        if sample >= 0 {
            assert(0 <= sample * gain.num) by (nonlinear_arith)
                requires
                    0 <= sample,
                    0 <= gain.num,
            ;
        }
        lemma_div_toward_zero_between(
            sample * gain.num,
            gain.den as int,
            -536870912,
            536870912,
        );
    }
    let product: i32 = sample as i32 * gain.num as i32;
    let normalized: i32 = product / gain.den as i32;
    let reduced: i32 = (normalized + 128) / 256;
    if reduced < -128 {
        -128
    } else if reduced > 127 {
        127
    } else {
        reduced as i8
    }
}

/// Normalises and quantises a packet of mono samples.
pub fn quantize_all(samples: &[i16]) -> (out: Vec<i8>)
    ensures
        out@ == quantized_all(samples@),
{
    let gain = normalization_gain(peak_amplitude(samples));
    let ghost target = quantized_all(samples@);
    let mut out: Vec<i8> = Vec::new();
    let mut i: usize = 0;
    while i < samples.len()
        invariant
            i <= samples.len(),
            gain.ratio() == gain_for(peak(samples@)),
            target == quantized_all(samples@),
            out@ == target.take(i as int),
        decreases samples.len() - i,
    {
        out.push(quantize(samples[i], gain));
        proof {
            assert(target.take(i + 1) =~= target.take(i as int).push(target[i as int]));
        }
        i = i + 1;
    }
    proof {
        assert(target.take(samples.len() as int) =~= target);
    }
    out
}

/// Number of samples that [`to_pcm8`] yields for a packet of `len`
/// interleaved samples.
pub open spec fn pcm8_len(len: nat, channels: nat, source_rate: int) -> int {
    let mono = if channels <= 1 {
        len
    } else {
        frame_count(len, channels)
    };
    if source_rate == TARGET_RATE {
        mono as int
    } else {
        resampled_len(mono as int, source_rate, TARGET_RATE as int)
    }
}

/// A packet never grows by more than the factor [`TARGET_RATE`]: a packet
/// of `len` samples yields at most `len * 48000`, whatever its channel count
/// and rate.
pub proof fn lemma_pcm8_len_bound(len: nat, channels: nat, source_rate: int)
    requires
        source_rate > 0,
    ensures
        0 <= pcm8_len(len, channels, source_rate) <= len * TARGET_RATE,
{
    let mono: int = if channels <= 1 {
        len as int
    } else {
        frame_count(len, channels) as int
    };
    assert(0 <= mono <= len) by (nonlinear_arith)
        requires
            mono == if channels <= 1 {
                len as int
            } else {
                (len + channels - 1) / (channels as int)
            },
    ;
    assert(0 <= mono * 48000 / source_rate <= len * 48000) by (nonlinear_arith)
        requires
            0 <= mono <= len,
            source_rate > 0,
    ;
}

proof fn lemma_frame_count_split(len: int, channels: int)
    by (nonlinear_arith)
    requires
        0 <= len,
        channels > 1,
    ensures
        (len + channels - 1) / channels == len / channels + if len % channels > 0 {
            1int
        } else {
            0int
        },
        len / channels <= len,
        len % channels > 0 ==> len / channels < len,
{
}

/// Whether [`to_pcm8`] can take a packet of `len` samples: the rate is not
/// zero and the converted packet is not longer than a buffer can be.
pub fn packet_fits(len: usize, channels: usize, source_rate: u32) -> (ok: bool)
    ensures
        ok == (source_rate > 0 && pcm8_len(len as nat, channels as nat, source_rate as int)
            <= usize::MAX),
{
    if source_rate == 0 {
        return false;
    }
    let mono: usize = if channels <= 1 {
        len
    } else {
        proof {
            lemma_frame_count_split(len as int, channels as int);
        }
        let whole = len / channels;
        if len % channels > 0 {
            whole + 1
        } else {
            whole
        }
    };
    if source_rate == TARGET_RATE {
        return true;
    }
    proof {
        lemma_mul_bound(mono as int, 48000, 18446744073709551615, 48000);
    }
    let converted: u128 = (mono as u128 * 48000) / (source_rate as u128);
    converted <= usize::MAX as u128
}

/// Turns one decoded packet of interleaved samples into encoder input.
pub fn to_pcm8(samples: &[i16], channels: usize, source_rate: u32) -> (out: Vec<i8>)
    requires
        source_rate > 0,
        pcm8_len(samples@.len(), channels as nat, source_rate as int) <= usize::MAX,
    ensures
        out@ == pcm8(samples@, channels as nat, source_rate as int),
        out@.len() == pcm8_len(samples@.len(), channels as nat, source_rate as int),
{
    let mono = downmix(samples, channels);
    let resampled = resample(mono.as_slice(), source_rate, TARGET_RATE);
    quantize_all(resampled.as_slice())
}

} // verus!
