//! Sample-rate and channel conversion.
//!
//! `resample` converts an interleaved PCM sequence at one (rate, channel)
//! pair to another. Channel conversion takes channel 0 of each frame when
//! downmixing and duplicates the mono sample when upmixing. Rate conversion
//! interpolates linearly between the two source samples that bracket each
//! output instant, computed as a weighted average in the shifted range
//! `0 ..= 0xFFFF` so every intermediate value stays nonnegative.

use vstd::prelude::*;
use vstd::arithmetic::div_mod::*;
use vstd::arithmetic::mul::*;

verus! {

/// The mono view of an interleaved signal: channel 0 of each frame.
pub open spec fn mono_of(s: Seq<i16>, channels: int) -> Seq<i16> {
    if channels == 2 {
        Seq::new((s.len() / 2) as nat, |i: int| s[2 * i])
    } else {
        s
    }
}

/// A sample shifted into the nonnegative range `0 ..= 0xFFFF`.
pub open spec fn level(v: i16) -> int {
    v + 0x8000
}

/// Number of output frames produced from `n` input frames.
pub open spec fn out_frame_count(n: int, input_rate: int, output_rate: int) -> int {
    n * output_rate / input_rate
}

/// The value of output frame `j` of the rate-converted signal `m`: the
/// weighted average of the two source samples bracketing output instant `j`.
pub open spec fn interp_sample(m: Seq<i16>, input_rate: int, output_rate: int, j: int) -> i16 {
    let pos = j * input_rate;
    let i = pos / output_rate;
    let f = pos % output_rate;
    let i2 = if i + 1 < m.len() {
        i + 1
    } else {
        m.len() - 1
    };
    let w = (level(m[i]) * (output_rate - f) + level(m[i2]) * f) / output_rate;
    (w - 0x8000) as i16
}

/// The full converted signal: every output frame holds `interp_sample` of
/// the mono view, written once per output channel.
pub open spec fn resampled(
    input: Seq<i16>,
    input_channels: int,
    input_rate: int,
    output_channels: int,
    output_rate: int,
) -> Seq<i16> {
    let m = mono_of(input, input_channels);
    let frames = out_frame_count(m.len() as int, input_rate, output_rate);
    Seq::new(
        (frames * output_channels) as nat,
        |k: int| interp_sample(m, input_rate, output_rate, k / output_channels),
    )
}

/// For an output frame index `j` in range, the source position `j *
/// input_rate` lies before the end of the source signal, so the bracketing
/// source index is in bounds.
pub proof fn lemma_frame_index_bounds(n: int, input_rate: int, output_rate: int, j: int)
    requires
        n >= 0,
        input_rate >= 1,
        output_rate >= 1,
        0 <= j < out_frame_count(n, input_rate, output_rate),
    ensures
        0 <= j * input_rate,
        j * input_rate < n * output_rate,
        0 <= j * input_rate / output_rate < n,
        0 <= j * input_rate % output_rate < output_rate,
{
    let q = out_frame_count(n, input_rate, output_rate);
    lemma_fundamental_div_mod(n * output_rate, input_rate);
    lemma_mul_inequality(j + 1, q, input_rate);
    lemma_mul_is_commutative(q, input_rate);
    assert((j + 1) * input_rate == j * input_rate + input_rate) by (nonlinear_arith);
    lemma_mul_nonnegative(j, input_rate);
    lemma_mul_is_commutative(n, output_rate);
    lemma_multiply_divide_lt(j * input_rate, output_rate, n);
    lemma_div_pos_is_pos(j * input_rate, output_rate);
}

/// A weighted average of two values in `0 ..= 0xFFFF`, with weights summing
/// to the divisor, stays in `0 ..= 0xFFFF`.
pub proof fn lemma_weighted_avg_bounds(a: int, b: int, f: int, d: int)
    requires
        0 <= a <= 0xFFFF,
        0 <= b <= 0xFFFF,
        0 <= f <= d,
        d >= 1,
    ensures
        0 <= a * (d - f) + b * f <= 0xFFFF * d,
        0 <= (a * (d - f) + b * f) / d <= 0xFFFF,
{
    let s = a * (d - f) + b * f;
    assert(a * (d - f) + b * f >= 0) by (nonlinear_arith)
        requires
            0 <= a,
            0 <= b,
            0 <= f,
            f <= d,
    ;
    assert(a * (d - f) + b * f <= 0xFFFF * d) by (nonlinear_arith)
        requires
            0 <= a <= 0xFFFF,
            0 <= b <= 0xFFFF,
            0 <= f,
            f <= d,
    ;
    lemma_div_pos_is_pos(s, d);
    lemma_div_is_ordered(s, 0xFFFF * d, d);
    lemma_div_multiples_vanish(0xFFFF, d);
    lemma_mul_is_commutative(0xFFFF, d);
}

/// A weighted average of two equal values is that value.
pub proof fn lemma_weighted_avg_constant(a: int, f: int, d: int)
    requires
        0 <= f <= d,
        d >= 1,
        a >= 0,
    ensures
        (a * (d - f) + a * f) / d == a,
{
    assert(a * (d - f) + a * f == d * a) by (nonlinear_arith);
    lemma_div_multiples_vanish(a, d);
}

/// Converts `input`, an interleaved signal of `input_channels` channels at
/// `input_rate`, to `output_channels` channels at `output_rate`. The result
/// has exactly `floor(frames * output_rate / input_rate)` frames; callers
/// that need a fixed frame length pad or truncate it themselves.
pub fn resample(
    input: &Vec<i16>,
    input_channels: u32,
    input_rate: u32,
    output_channels: u32,
    output_rate: u32,
) -> (r: Vec<i16>)
    requires
        1 <= input_channels <= 2,
        1 <= output_channels <= 2,
        1 <= input_rate,
        1 <= output_rate,
        input.len() as int % input_channels as int == 0,
        input.len() * output_rate <= input_rate * 0x4000_0000,
    ensures
        r@ == resampled(
            input@,
            input_channels as int,
            input_rate as int,
            output_channels as int,
            output_rate as int,
        ),
        r@.len() == out_frame_count(
            input@.len() as int / input_channels as int,
            input_rate as int,
            output_rate as int,
        ) * output_channels,
{
    let mut mono: Vec<i16> = Vec::new();
    if input_channels == 2 {
        proof {
            lemma_fundamental_div_mod(input@.len() as int, 2);
        }
        let half: usize = input.len() / 2;
        let mut i: usize = 0;
        while i < half
            invariant
                input@.len() <= usize::MAX,
                half == input@.len() as int / 2,
                input@.len() as int % 2 == 0,
                i <= half,
                mono@.len() == i,
                forall|t: int| 0 <= t < i ==> mono@[t] == input@[2 * t],
            decreases half - i,
        {
            proof {
                lemma_fundamental_div_mod(input@.len() as int, 2);
            }
            mono.push(input[2 * i]);
            i += 1;
        }
    } else {
        let mut i: usize = 0;
        while i < input.len()
            invariant
                i <= input@.len(),
                mono@.len() == i,
                forall|t: int| 0 <= t < i ==> mono@[t] == input@[t],
            decreases input@.len() - i,
        {
            mono.push(input[i]);
            i += 1;
        }
    }
    proof {
        assert(mono@ =~= mono_of(input@, input_channels as int));
    }
    let ghost m = mono@;
    let n: usize = mono.len();
    proof {
        if input_channels == 2 {
            lemma_div_nonincreasing(input@.len() as int, 2);
        }
        lemma_mul_inequality(n as int, input@.len() as int, output_rate as int);
        lemma_div_is_ordered(
            n as int * output_rate as int,
            input_rate as int * 0x4000_0000,
            input_rate as int,
        );
        lemma_div_multiples_vanish(0x4000_0000, input_rate as int);
    }
    let out_frames_wide: u64 = (n as u64) * (output_rate as u64) / (input_rate as u64);
    let out_frames: usize = out_frames_wide as usize;
    let mut out: Vec<i16> = Vec::new();
    let mut j: usize = 0;
    while j < out_frames
        invariant
            mono@ == m,
            n == m.len(),
            1 <= input_rate,
            1 <= output_rate,
            1 <= output_channels <= 2,
            out_frames == out_frame_count(n as int, input_rate as int, output_rate as int),
            out_frames <= 0x4000_0000,
            j <= out_frames,
            out@.len() == j * output_channels as int,
            forall|k: int|
                0 <= k < out@.len() ==> out@[k] == interp_sample(
                    m,
                    input_rate as int,
                    output_rate as int,
                    k / output_channels as int,
                ),
        decreases out_frames - j,
    {
        proof {
            lemma_frame_index_bounds(n as int, input_rate as int, output_rate as int, j as int);
            assert((j as int) * (input_rate as int) < 0x4000_0000_0000_0000) by (nonlinear_arith)
                requires
                    0 <= j as int <= 0x4000_0000,
                    0 <= input_rate as int <= 0xFFFF_FFFF,
            ;
        }
        let pos: u64 = (j as u64) * (input_rate as u64);
        let i_wide: u64 = pos / (output_rate as u64);
        let f: u64 = pos % (output_rate as u64);
        let i: usize = i_wide as usize;
        let i2: usize = if i + 1 < n {
            i + 1
        } else {
            n - 1
        };
        let a: u64 = ((mono[i] as i32) + 0x8000) as u64;
        let b: u64 = ((mono[i2] as i32) + 0x8000) as u64;
        proof {
            lemma_weighted_avg_bounds(a as int, b as int, f as int, output_rate as int);
            assert(0xFFFF * (output_rate as int) < 0x1_0000_0000_0000_0000) by (nonlinear_arith)
                requires
                    output_rate <= 0xFFFF_FFFFu32,
            ;
        }
        let w: u64 = (a * ((output_rate as u64) - f) + b * f) / (output_rate as u64);
        let s: i16 = ((w as i32) - 0x8000) as i16;
        proof {
            assert(s == interp_sample(m, input_rate as int, output_rate as int, j as int));
        }
        let ghost old_len = out@.len();
        out.push(s);
        if output_channels == 2 {
            out.push(s);
            proof {
                assert(old_len == 2 * j);
                assert(old_len / 2 == j && (old_len + 1) / 2 == j);
                assert(out@.len() == (j + 1) * output_channels as int);
            }
        } else {
            proof {
                assert(old_len == j);
                assert(out@.len() == (j + 1) * output_channels as int);
            }
        }
        j += 1;
    }
    proof {
        assert(out@ =~= resampled(
            input@,
            input_channels as int,
            input_rate as int,
            output_channels as int,
            output_rate as int,
        ));
    }
    out
}

/// Direct-current preservation: a constant input signal converts to a
/// constant output signal of the same value, at any rate and channel pair.
pub proof fn lemma_resample_preserves_constant(
    input: Seq<i16>,
    input_channels: int,
    input_rate: int,
    output_channels: int,
    output_rate: int,
    c: i16,
)
    requires
        1 <= input_channels <= 2,
        1 <= output_channels <= 2,
        input_rate >= 1,
        output_rate >= 1,
        input.len() as int % input_channels == 0,
        forall|i: int| 0 <= i < input.len() ==> input[i] == c,
    ensures
        forall|k: int|
            0 <= k < resampled(input, input_channels, input_rate, output_channels, output_rate).len()
                ==> resampled(input, input_channels, input_rate, output_channels, output_rate)[k]
                == c,
{
    let m = mono_of(input, input_channels);
    let r = resampled(input, input_channels, input_rate, output_channels, output_rate);
    let frames = out_frame_count(m.len() as int, input_rate, output_rate);
    assert forall|t: int| 0 <= t < m.len() implies m[t] == c by {
        if input_channels == 2 {
            lemma_fundamental_div_mod(input.len() as int, 2);
        }
    }
    assert forall|k: int| 0 <= k < r.len() implies r[k] == c by {
        assert(r.len() == frames * output_channels);
        let j = k / output_channels;
        lemma_div_pos_is_pos(k, output_channels);
        lemma_multiply_divide_lt(k, output_channels, frames);
        lemma_mul_is_commutative(frames, output_channels);
        lemma_frame_index_bounds(m.len() as int, input_rate, output_rate, j);
        let pos = j * input_rate;
        let f = pos % output_rate;
        lemma_weighted_avg_constant(level(c), f, output_rate);
        assert(interp_sample(m, input_rate, output_rate, j) == c);
    }
}

/// The output frame count is proportional to `output_rate / input_rate`,
/// within one frame of the exact ratio: the count is the largest whole
/// number of output frames not exceeding `n * output_rate / input_rate`.
pub proof fn lemma_resample_length_ratio(n: int, input_rate: int, output_rate: int)
    requires
        n >= 0,
        input_rate >= 1,
        output_rate >= 1,
    ensures
        input_rate * out_frame_count(n, input_rate, output_rate) <= n * output_rate,
        n * output_rate < input_rate * (out_frame_count(n, input_rate, output_rate) + 1),
{
    lemma_fundamental_div_mod(n * output_rate, input_rate);
    assert(input_rate * (out_frame_count(n, input_rate, output_rate) + 1) == input_rate
        * out_frame_count(n, input_rate, output_rate) + input_rate) by (nonlinear_arith);
}

} // verus!
