//! Channel layout and the index work of decoding: picking the PCM samples
//! that the codec produced, pairing them into stereo frames and decimating.

use vstd::prelude::*;

verus! {

/// Channel layout of an audio stream.
#[derive(Debug, Clone, Copy, PartialEq, Eq, Structural)]
pub enum Channels {
    Mono,
    Stereo,
}

/// Number of interleaved samples per frame for a layout.
pub open spec fn channel_count(channels: Channels) -> nat {
    match channels {
        Channels::Mono => 1,
        Channels::Stereo => 2,
    }
}

impl Channels {
    /// Number of interleaved samples per frame.
    pub fn count(&self) -> (n: usize)
        ensures
            n == channel_count(*self),
    {
        match self {
            Channels::Mono => 1,
            Channels::Stereo => 2,
        }
    }
}


/// Input sample rate handled by the decoder is a multiple of this rate, the
/// rate that transcription works at.
pub const TARGET_SAMPLE_RATE: u32 = 16000;

/// Length of the PCM scratch buffer for `buffer_size_ms` of stereo audio at
/// `sample_rate`: the samples per channel that the duration spans, times two
/// channels (11520 for 120 ms at 48 kHz).
pub open spec fn pcm_len(buffer_size_ms: u64, sample_rate: u32) -> int {
    (buffer_size_ms as int * sample_rate as int / 1000) * 2
}

/// Interleaved stereo samples paired into `(left, right)` frames; a trailing
/// unpaired sample is dropped.
pub open spec fn stereo_frames<T>(samples: Seq<T>) -> Seq<(T, T)> {
    Seq::new(samples.len() / 2, |i: int| (samples[2 * i], samples[2 * i + 1]))
}

/// Every `factor`-th item, starting with the first.
pub open spec fn decimated<T>(items: Seq<T>, factor: nat) -> Seq<T> {
    Seq::new(
        if items.len() == 0 { 0 } else { ((items.len() - 1) / (factor as int) + 1) as nat },
        |j: int| items[j * factor],
    )
}

/// What one decoded packet contributes, as stereo frames at the target
/// rate: nothing when the codec produced no samples or no whole frame.
pub open spec fn decoded_frames<T>(pcm: Seq<T>, decoded: nat, factor: nat) -> Option<Seq<(T, T)>> {
    let frames = stereo_frames(pcm.subrange(0, decoded as int));
    if decoded == 0 || frames.len() == 0 {
        None
    } else {
        Some(decimated(frames, factor))
    }
}

/// Length of the PCM scratch buffer that one packet is decoded into.
pub fn pcm_buffer_len(buffer_size_ms: u64, sample_rate: u32) -> (n: usize)
    requires
        pcm_len(buffer_size_ms, sample_rate) <= usize::MAX,
    ensures
        n == pcm_len(buffer_size_ms, sample_rate),
{
    let product: u128 = buffer_size_ms as u128 * sample_rate as u128;
    assert(product == buffer_size_ms as int * sample_rate as int);
    let per_channel: u128 = product / 1000;
    assert(per_channel * 2 <= usize::MAX);
    (per_channel * 2) as usize
}

/// Factor by which `sample_rate` is decimated to reach the target rate.
pub fn downsampling_factor(sample_rate: u32) -> (f: u32)
    ensures
        f == sample_rate / TARGET_SAMPLE_RATE,
{
    sample_rate / TARGET_SAMPLE_RATE
}

/// Pairs interleaved stereo samples into frames, dropping an odd last sample.
pub fn stereo_to_mono<T: Copy>(samples: &[T]) -> (frames: Vec<(T, T)>)
    ensures
        frames@ == stereo_frames(samples@),
{
    let len: usize = samples.len();
    let n: usize = len / 2;
    let mut frames: Vec<(T, T)> = Vec::new();
    let mut i: usize = 0;
    while i < n
        invariant
            len == samples@.len(),
            n == samples@.len() / 2,
            i <= n,
            frames@ == stereo_frames(samples@).subrange(0, i as int),
        decreases n - i,
    {
        assert(2 * i + 1 < samples@.len());
        let j: usize = i + i;
        frames.push((samples[j], samples[j + 1]));
        i = i + 1;
        assert(frames@ == stereo_frames(samples@).subrange(0, i as int));
    }
    assert(stereo_frames(samples@).subrange(0, n as int) == stereo_frames(samples@));
    frames
}

/// Keeps every `factor`-th item, starting with the first.
pub fn resample_to_16khz<T: Copy>(items: &[T], factor: usize) -> (out: Vec<T>)
    requires
        factor > 0,
    ensures
        out@ == decimated(items@, factor as nat),
{
    let len: usize = items.len();
    let mut out: Vec<T> = Vec::new();
    if len == 0 {
        assert(out@ == decimated(items@, factor as nat));
        return out;
    }
    let ghost total: int = (len - 1) / (factor as int) + 1;
    let mut pos: usize = 0;
    assert(0 * factor == 0) by (nonlinear_arith);
    loop
        invariant_except_break
            factor > 0,
            len == items@.len(),
            len > 0,
            total == decimated(items@, factor as nat).len(),
            pos < len,
            pos == out@.len() * factor,
            out@.len() < total,
            out@ == decimated(items@, factor as nat).subrange(0, out@.len() as int),
        ensures
            out@ == decimated(items@, factor as nat),
        decreases len - pos,
    {
        let ghost k: int = out@.len() as int;
        proof {
            assert(k <= (len - 1) / (factor as int)) by (nonlinear_arith)
                requires
                    pos == k * factor,
                    pos <= len - 1,
                    factor > 0,
            ;
        }
        out.push(items[pos]);
        assert(out@ == decimated(items@, factor as nat).subrange(0, k + 1));
        if len - pos <= factor {
            proof {
                assert((len - 1) / (factor as int) == k) by (nonlinear_arith)
                    requires
                        pos == k * factor,
                        0 <= len - 1 - pos < factor,
                        factor > 0,
                ;
                assert(decimated(items@, factor as nat).subrange(0, total) == decimated(items@, factor as nat));
            }
            break;
        }
        pos = pos + factor;
        proof {
            assert(pos == (k + 1) * factor) by (nonlinear_arith)
                requires
                    pos == k * factor + factor,
            ;
            assert(k + 1 <= (len - 1) / (factor as int)) by (nonlinear_arith)
                requires
                    pos == (k + 1) * factor,
                    pos < len,
                    factor > 0,
            ;
        }
    }
    out
}

/// The frames that one decoded packet contributes: the first `decoded`
/// samples of the PCM buffer paired into stereo frames and decimated by
/// `factor`; `None` when there is no whole frame.
pub fn decoded_to_frames<T: Copy>(pcm: &[T], decoded: usize, factor: usize) -> (r: Option<Vec<(T, T)>>)
    requires
        decoded <= pcm@.len(),
        factor > 0,
    ensures
        match r {
            Some(v) => decoded_frames(pcm@, decoded as nat, factor as nat) == Some(v@),
            None => decoded_frames(pcm@, decoded as nat, factor as nat) is None,
        },
{
    if decoded == 0 {
        return None;
    }
    let head = slice_prefix(pcm, decoded);
    let frames = stereo_to_mono(head);
    if frames.len() == 0 {
        return None;
    }
    Some(resample_to_16khz(frames.as_slice(), factor))
}

/// The first `n` items of a slice.
fn slice_prefix<T>(s: &[T], n: usize) -> (r: &[T])
    requires
        n <= s@.len(),
    ensures
        r@ == s@.subrange(0, n as int),
{
    vstd::slice::slice_subrange(s, 0, n)
}

} // verus!
