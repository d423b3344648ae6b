//! The audio sink's arithmetic: what the platform output does to samples.
//!
//! The sink itself (device, stream, callback thread) lives outside the
//! library; this module carries the exact sample computations it is built
//! on — interleaving planar buffers, linear volume scaling, the silence fill
//! on underrun, the ring-buffer sizing and the sample-rate negotiation — over
//! the integer sample format.

use vstd::arithmetic::div_mod::lemma_div_multiples_vanish_fancy;
use vstd::arithmetic::mul::lemma_mul_inequality;
use vstd::prelude::*;

verus! {

/// Failures of the platform audio output.
#[derive(Copy, Clone, Debug, PartialEq, Eq, Structural)]
pub enum AudioOutputError {
    /// The device or its stream could not be opened.
    OpenStreamError,
    /// The opened stream refused to start.
    PlayStreamError,
    /// The stream went away while samples were still being written.
    StreamClosedError,
}

/// A negotiated output stream shape: sample rate times channel count.
#[derive(Copy, Clone, Debug, PartialEq, Eq, Structural)]
pub struct SinkSpec {
    /// Sample rate in frames per second.
    pub rate: u32,
    /// Number of interleaved channels.
    pub channels: u16,
}

/// A value capped at the largest `u32`.
pub open spec fn capped_u32_spec(v: int) -> int {
    if v <= u32::MAX {
        v
    } else {
        u32::MAX as int
    }
}

/// The sample rate the sink is opened at: the decoded rate scaled by the
/// playback speed, rounded to the nearest whole rate.
pub open spec fn negotiated_rate_spec(rate: int, speed_permille: int) -> int {
    capped_u32_spec((rate * speed_permille + 500) / 1000)
}

/// Scales the decoded sample rate by the playback speed (per-mille),
/// rounding to the nearest rate. Natural speed keeps the rate unchanged.
pub fn negotiated_rate(rate: u32, speed_permille: u32) -> (r: u32)
    ensures
        r == negotiated_rate_spec(rate as int, speed_permille as int),
        speed_permille == 1000 ==> r == rate,
{
    proof {
        assert((rate as int) * (speed_permille as int) <= (u32::MAX as int) * (
        u32::MAX as int)) by (nonlinear_arith)
            requires
                rate as int <= u32::MAX as int,
                speed_permille as int <= u32::MAX as int,
        ;
    }
    let scaled: u128 = (rate as u128 * speed_permille as u128 + 500) / 1000;
    proof {
        if speed_permille == 1000 {
            assert(rate as int * 1000 == 1000 * (rate as int)) by (nonlinear_arith);
            lemma_div_multiples_vanish_fancy(rate as int, 500, 1000);
        }
    }
    if scaled > u32::MAX as u128 {
        u32::MAX
    } else {
        scaled as u32
    }
}

/// The sink spec a decoded packet asks for under the current speed: the
/// negotiated rate with the packet's own channel count.
pub fn negotiate_output(rate: u32, channels: u16, speed_permille: u32) -> (r: SinkSpec)
    ensures
        r.rate == negotiated_rate_spec(rate as int, speed_permille as int),
        r.channels == channels,
{
    SinkSpec { rate: negotiated_rate(rate, speed_permille), channels }
}

/// Whether a fresh sink must replace the current one: always on the first
/// decoded packet, afterwards exactly when the negotiated spec or the packet
/// capacity changed.
pub fn needs_reopen(current: Option<(SinkSpec, u64)>, new_spec: SinkSpec, new_cap: u64) -> (r:
    bool)
    ensures
        current is None ==> r,
        current matches Some(pair) ==> r == (pair.0 != new_spec || pair.1 != new_cap),
{
    match current {
        None => true,
        Some((spec, cap)) => spec.rate != new_spec.rate || spec.channels != new_spec.channels
            || cap != new_cap,
    }
}

/// The ring buffer's capacity: one second of interleaved samples at the
/// negotiated rate, enough to absorb callback jitter without audible
/// latency.
pub fn ring_capacity(rate: u32, channels: u16) -> (r: usize)
    requires
        rate * channels <= usize::MAX,
    ensures
        r == rate * channels,
{
    rate as usize * channels as usize
}

/// Interleaving of planar channel buffers: frame `f` of channel `c` lands at
/// slot `f * channels + c`.
pub fn interleave(planes: &Vec<Vec<i16>>, frames: usize) -> (r: Vec<i16>)
    requires
        forall|c: int| 0 <= c < planes@.len() ==> #[trigger] planes@[c]@.len() == frames,
        planes@.len() * frames <= usize::MAX,
    ensures
        r@.len() == frames * planes@.len(),
        forall|f: int, c: int|
            0 <= f < frames && 0 <= c < planes@.len() ==> r@[f * planes@.len() + c]
                == planes@[c]@[f],
{
    let channels: usize = planes.len();
    let mut r: Vec<i16> = Vec::new();
    let mut f: usize = 0;
    while f < frames
        invariant
            f <= frames,
            channels == planes@.len(),
            forall|c: int| 0 <= c < planes@.len() ==> #[trigger] planes@[c]@.len() == frames,
            planes@.len() * frames <= usize::MAX,
            r@.len() == f * channels,
            forall|ff: int, cc: int|
                0 <= ff < f && 0 <= cc < channels ==> r@[ff * channels as int + cc]
                    == planes@[cc]@[ff],
        decreases frames - f,
    {
        let mut c: usize = 0;
        proof {
            lemma_mul_inequality(f as int + 1, frames as int, channels as int);
        }
        while c < channels
            invariant
                f < frames,
                c <= channels,
                channels == planes@.len(),
                forall|cc: int| 0 <= cc < planes@.len() ==> #[trigger] planes@[cc]@.len() == frames,
                (f + 1) * channels <= usize::MAX,
                r@.len() == f * channels + c,
                forall|ff: int, cc: int|
                    0 <= ff < f && 0 <= cc < channels ==> r@[ff * channels as int + cc]
                        == planes@[cc]@[ff],
                forall|cc: int| 0 <= cc < c ==> r@[f as int * channels as int + cc] == planes@[cc]@[f as int],
            decreases channels - c,
        {
            proof {
                assert(f * channels + c < (f + 1) * channels) by (nonlinear_arith)
                    requires
                        0 <= f,
                        0 <= c < channels,
                ;
            }
            let ghost prev = r@;
            r.push(planes[c][f]);
            proof {
                assert forall|ff: int, cc: int|
                    0 <= ff < f && 0 <= cc < channels implies r@[ff * (channels as int) + cc]
                        == planes@[cc]@[ff] by {
                    assert(0 <= ff * (channels as int) + cc < f as int * (channels as int))
                        by (nonlinear_arith)
                        requires
                            0 <= ff < f as int,
                            0 <= cc < channels as int,
                    ;
                    assert(r@[ff * (channels as int) + cc] == prev[ff * (channels as int) + cc]);
                };
                assert forall|cc: int|
                    0 <= cc < c + 1 implies r@[f as int * (channels as int) + cc]
                        == planes@[cc]@[f as int] by {
                    if cc < c as int {
                        assert(r@[f as int * (channels as int) + cc] == prev[f as int * (
                        channels as int) + cc]);
                    } else {
                        assert(f as int * (channels as int) + cc == prev.len());
                    }
                };
            }
            c = c + 1;
        }
        f = f + 1;
        proof {
            assert(r@.len() == (f - 1) * channels + channels);
            assert((f - 1) * channels + channels == f * channels) by (nonlinear_arith);
        }
    }
    proof {
        assert(frames * channels == channels * frames) by (nonlinear_arith);
    }
    r
}

/// Linear volume scaling of one sample, truncating towards zero: no curve,
/// full scale at one thousand per-mille.
pub open spec fn scaled_sample_spec(s: int, volume_permille: int) -> int {
    if s >= 0 {
        (s * volume_permille) / 1000
    } else {
        -(((-s) * volume_permille) / 1000)
    }
}

/// Scales every sample by the volume, as the sink does right before the
/// samples enter the ring buffer.
pub fn scale_samples(samples: &Vec<i16>, volume_permille: u32) -> (r: Vec<i16>)
    requires
        volume_permille <= 1000,
    ensures
        r@.len() == samples@.len(),
        forall|i: int|
            0 <= i < samples@.len() ==> r@[i] == scaled_sample_spec(
                samples@[i] as int,
                volume_permille as int,
            ),
{
    let mut r: Vec<i16> = Vec::new();
    let mut i: usize = 0;
    while i < samples.len()
        invariant
            i <= samples@.len(),
            volume_permille <= 1000,
            r@.len() == i,
            forall|j: int|
                0 <= j < i ==> r@[j] == scaled_sample_spec(
                    samples@[j] as int,
                    volume_permille as int,
                ),
        decreases samples@.len() - i,
    {
        let s: i32 = samples[i] as i32;
        let scaled: i32 = if s >= 0 {
            proof {
                assert(s * volume_permille <= 32767 * 1000) by (nonlinear_arith)
                    requires
                        0 <= s <= 32767,
                        0 <= volume_permille <= 1000,
                ;
                assert((s * volume_permille) / 1000 <= 32767) by (nonlinear_arith)
                    requires
                        0 <= s * volume_permille <= 32767 * 1000,
                ;
            }
            (s * volume_permille as i32) / 1000
        } else {
            proof {
                assert((-s) * volume_permille <= 32768 * 1000) by (nonlinear_arith)
                    requires
                        0 < -s <= 32768,
                        0 <= volume_permille <= 1000,
                ;
                assert(((-s) * volume_permille) / 1000 <= 32768) by (nonlinear_arith)
                    requires
                        0 <= (-s) * volume_permille <= 32768 * 1000,
                ;
            }
            -(((-s) * volume_permille as i32) / 1000)
        };
        r.push(scaled as i16);
        i = i + 1;
    }
    r
}

/// What the output callback writes: the available samples first, then
/// silence for the missing tail — on underrun the device hears silence,
/// never garbage or repeated samples.
pub fn fill_output(avail: &Vec<i16>, out_len: usize) -> (r: Vec<i16>)
    ensures
        r@.len() == out_len,
        forall|i: int| 0 <= i < avail@.len() && i < out_len ==> r@[i] == avail@[i],
        forall|i: int| avail@.len() <= i < out_len ==> r@[i] == 0,
{
    let mut r: Vec<i16> = Vec::new();
    let mut i: usize = 0;
    while i < out_len
        invariant
            i <= out_len,
            r@.len() == i,
            forall|j: int| 0 <= j < i && j < avail@.len() ==> r@[j] == avail@[j],
            forall|j: int| avail@.len() <= j < i ==> r@[j] == 0,
        decreases out_len - i,
    {
        if i < avail.len() {
            r.push(avail[i]);
        } else {
            r.push(0i16);
        }
        i = i + 1;
    }
    r
}

} // verus!
