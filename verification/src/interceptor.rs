//! When to ask the voice-activity model and when to cut a speech segment
//! for transcription. Time is a millisecond reading of a monotonic clock
//! handed in by the caller; the calls to the models are made by the caller.

use vstd::prelude::*;

use crate::audio::decoder::Channels;
use crate::audio::streaming_buffer::{drain_count, last_n, samples_in, StreamingAudioBuffer};

verus! {

/// Milliseconds from `since` to `now`, zero when `now` is earlier
/// (the way `Instant::elapsed` saturates).
pub open spec fn elapsed(now: u64, since: u64) -> int {
    if now >= since {
        now - since
    } else {
        0
    }
}

/// Transcription is due: speech has been seen, and either the buffer has
/// reached the longest segment or the pause since the last speech is long
/// enough.
pub open spec fn transcription_due(
    speech_detected_at: Option<u64>,
    buffered_ms: int,
    now: u64,
    speech_gap_ms: u64,
    max_transcription_ms: u64,
) -> bool {
    match speech_detected_at {
        None => false,
        Some(t) => buffered_ms >= max_transcription_ms || elapsed(now, t) >= speech_gap_ms,
    }
}

/// The timing state of speech transcription over a buffer of decoded mono
/// samples at 16 kHz.
pub struct TranscriberInterceptor<S> {
    streaming_buffer: StreamingAudioBuffer<S>,
    vad_check_interval: u64,
    speech_gap_duration: u64,
    max_transcription_duration: u64,
    recent_history_duration: u64,
    vad_checked_at: u64,
    speech_detected_at: Option<u64>,
}

impl<S: Copy> TranscriberInterceptor<S> {
    /// Sample rate of the decoded input stream.
    pub const INPUT_SAMPLE_RATE: u32 = 48000;

    /// Sample rate of the buffered audio.
    pub const BUFFER_SAMPLE_RATE: u32 = 16000;

    /// Longest audio the buffer is sized for, in milliseconds.
    pub const BUFFER_DURATION_MS: u64 = 15000;

    /// Capacity of the buffer: twice the mono samples of the buffer duration.
    pub open spec fn buffer_capacity() -> int {
        480000
    }

    /// The buffered samples, oldest first.
    pub closed spec fn samples(&self) -> Seq<S> {
        self.streaming_buffer.samples()
    }

    /// Clock reading of the last voice-activity check.
    pub closed spec fn vad_checked_at(&self) -> u64 {
        self.vad_checked_at
    }

    /// Clock reading of the last detected speech, if any since the last
    /// segment was cut.
    pub closed spec fn speech_detected_at(&self) -> Option<u64> {
        self.speech_detected_at
    }

    /// Minimum time between voice-activity checks.
    pub closed spec fn vad_check_interval(&self) -> u64 {
        self.vad_check_interval
    }

    /// Pause after speech that ends a segment.
    pub closed spec fn speech_gap_duration(&self) -> u64 {
        self.speech_gap_duration
    }

    /// Buffered audio at which a segment is cut regardless of pauses.
    pub closed spec fn max_transcription_duration(&self) -> u64 {
        self.max_transcription_duration
    }

    /// Audio, counted in samples, left behind after a normal cut.
    pub closed spec fn recent_history_duration(&self) -> u64 {
        self.recent_history_duration
    }

    /// Buffered audio in milliseconds.
    pub open spec fn buffered_ms(&self) -> int {
        self.samples().len() as int * 1000 / (Self::BUFFER_SAMPLE_RATE as int)
    }

    /// The buffer has the fixed rate and capacity and is within it.
    pub closed spec fn buffer_ok(&self) -> bool {
        &&& self.streaming_buffer.wf()
        &&& self.streaming_buffer.sample_rate() == Self::BUFFER_SAMPLE_RATE
        &&& self.streaming_buffer.max_samples() == Self::buffer_capacity()
    }

    /// The configuration is the fixed one and the buffer is within its capacity.
    pub open spec fn wf(&self) -> bool {
        &&& self.buffer_ok()
        &&& self.samples().len() <= Self::buffer_capacity()
        &&& self.vad_check_interval() == 500
        &&& self.speech_gap_duration() == 500
        &&& self.max_transcription_duration() == 10000
        &&& self.recent_history_duration() == 2000
    }

    /// Fresh state at clock reading `now`: empty buffer, no speech seen,
    /// voice-activity checked at `now`; checks every 500 ms, a 500 ms pause
    /// ends a segment, 10 s forces one, and 2000 samples stay behind.
    pub fn new(now: u64) -> (t: Self)
        ensures
            t.wf(),
            t.samples() == Seq::<S>::empty(),
            t.vad_checked_at() == now,
            t.speech_detected_at() is None,
            t.vad_check_interval() == 500,
            t.speech_gap_duration() == 500,
            t.max_transcription_duration() == 10000,
            t.recent_history_duration() == 2000,
    {
        TranscriberInterceptor {
            streaming_buffer: StreamingAudioBuffer::new(
                Self::BUFFER_SAMPLE_RATE,
                Self::BUFFER_DURATION_MS,
                Channels::Mono,
            ),
            vad_check_interval: 500,
            speech_gap_duration: 500,
            max_transcription_duration: 10000,
            recent_history_duration: 2000,
            vad_checked_at: now,
            speech_detected_at: None,
        }
    }

    /// Clock reading of the last voice-activity check.
    pub fn last_vad_check(&self) -> (t: u64)
        ensures
            t == self.vad_checked_at(),
    {
        self.vad_checked_at
    }

    /// Clock reading of the last detected speech, if any.
    pub fn last_speech(&self) -> (t: Option<u64>)
        ensures
            t == self.speech_detected_at(),
    {
        self.speech_detected_at
    }

    /// Number of buffered samples.
    pub fn buffered_samples(&self) -> (n: usize)
        ensures
            n == self.samples().len(),
    {
        self.streaming_buffer.len()
    }

    /// Whether `count` more samples fit in the buffer.
    pub fn has_room_for(&self, count: usize) -> (r: bool)
        requires
            self.wf(),
        ensures
            r == (self.samples().len() + count <= Self::buffer_capacity()),
    {
        let n = self.streaming_buffer.len();
        count <= 480000 && n <= 480000 - count
    }

    /// Appends decoded samples to the buffer.
    pub fn add_samples(&mut self, samples: &[S])
        requires
            old(self).wf(),
            old(self).samples().len() + samples@.len() <= Self::buffer_capacity(),
        ensures
            final(self).wf(),
            final(self).samples() == old(self).samples() + samples@,
            final(self).vad_checked_at() == old(self).vad_checked_at(),
            final(self).speech_detected_at() == old(self).speech_detected_at(),
    {
        self.streaming_buffer.add_samples(samples);
    }

    /// Buffered audio in milliseconds.
    pub fn buffered_duration(&self) -> (ms: u64)
        requires
            self.wf(),
        ensures
            ms == self.buffered_ms(),
    {
        self.streaming_buffer.duration()
    }

    /// The audio to hand to the voice-activity model at `now`, if a check is
    /// due: none when the last check is more recent than the interval (state
    /// unchanged); otherwise the check time becomes `now`, and the newest
    /// 500 ms of samples are returned unless there are none.
    pub fn voice_activity_input(&mut self, now: u64) -> (r: Option<Vec<S>>)
        requires
            old(self).wf(),
        ensures
            final(self).wf(),
            final(self).samples() == old(self).samples(),
            final(self).speech_detected_at() == old(self).speech_detected_at(),
            elapsed(now, old(self).vad_checked_at()) < old(self).vad_check_interval() ==> {
                &&& r is None
                &&& final(self).vad_checked_at() == old(self).vad_checked_at()
            },
            elapsed(now, old(self).vad_checked_at()) >= old(self).vad_check_interval() ==> {
                let recent = last_n(
                    old(self).samples(),
                    samples_in(old(self).vad_check_interval(), Self::BUFFER_SAMPLE_RATE),
                );
                &&& final(self).vad_checked_at() == now
                &&& recent.len() == 0 ==> r is None
                &&& recent.len() > 0 ==> r is Some && r->0@ == recent
            },
    {
        let since: u64 = if now >= self.vad_checked_at {
            now - self.vad_checked_at
        } else {
            0
        };
        if since < self.vad_check_interval {
            return None;
        }
        self.vad_checked_at = now;
        if !self.streaming_buffer.has_audio() {
            return None;
        }
        let samples = self.streaming_buffer.get_last_samples(self.vad_check_interval);
        if samples.len() == 0 {
            return None;
        }
        Some(samples)
    }

    /// Records the model's answer, received at `now`: speech marks `now` as
    /// the time speech was last detected; silence changes nothing.
    pub fn record_voice_activity(&mut self, has_speech: bool, now: u64)
        requires
            old(self).wf(),
        ensures
            final(self).wf(),
            final(self).samples() == old(self).samples(),
            final(self).vad_checked_at() == old(self).vad_checked_at(),
            final(self).speech_detected_at() == if has_speech {
                Some(now)
            } else {
                old(self).speech_detected_at()
            },
    {
        if has_speech {
            self.speech_detected_at = Some(now);
        }
    }

    /// Whether a segment is due at `now`.
    pub fn should_transcribe(&self, now: u64) -> (r: bool)
        requires
            self.wf(),
        ensures
            r == transcription_due(
                self.speech_detected_at(),
                self.buffered_ms(),
                now,
                self.speech_gap_duration(),
                self.max_transcription_duration(),
            ),
            self.speech_detected_at() is None ==> !r,
            self.speech_detected_at() matches Some(t) ==> (r <==> {
                ||| self.samples().len() * 1000 / 16000 >= self.max_transcription_duration()
                ||| (now >= t && now - t >= self.speech_gap_duration())
            }),
    {
        match self.speech_detected_at {
            None => false,
            Some(t) => {
                if self.streaming_buffer.duration() >= self.max_transcription_duration {
                    return true;
                }
                let since: u64 = if now >= t {
                    now - t
                } else {
                    0
                };
                since >= self.speech_gap_duration
            },
        }
    }

    /// Cuts the segment to transcribe at `now`, if one is due. A segment
    /// forced by a full buffer takes all samples and keeps the speech mark;
    /// a segment ended by a pause leaves the newest samples behind and
    /// clears the speech mark.
    pub fn take_segment(&mut self, now: u64) -> (r: Option<Vec<S>>)
        requires
            old(self).wf(),
        ensures
            final(self).wf(),
            final(self).vad_checked_at() == old(self).vad_checked_at(),
            !transcription_due(
                old(self).speech_detected_at(),
                old(self).buffered_ms(),
                now,
                old(self).speech_gap_duration(),
                old(self).max_transcription_duration(),
            ) || old(self).samples().len() == 0 ==> r is None && *final(self) == *old(self),
            transcription_due(
                old(self).speech_detected_at(),
                old(self).buffered_ms(),
                now,
                old(self).speech_gap_duration(),
                old(self).max_transcription_duration(),
            ) && old(self).samples().len() > 0 ==> ({
                let forced = old(self).buffered_ms() >= old(self).max_transcription_duration();
                let keep = if forced {
                    None
                } else {
                    Some(old(self).recent_history_duration())
                };
                let n = drain_count(old(self).samples().len() as int, keep);
                &&& r is Some
                &&& r->0@ == old(self).samples().subrange(0, n)
                &&& final(self).samples() == old(self).samples().subrange(
                    n,
                    old(self).samples().len() as int,
                )
                &&& r->0@ + final(self).samples() == old(self).samples()
                &&& final(self).speech_detected_at() == if forced {
                    old(self).speech_detected_at()
                } else {
                    None
                }
            }),
            old(self).speech_detected_at() is None ==> r is None && *final(self) == *old(self),
            old(self).speech_detected_at() matches Some(t) && old(self).samples().len() * 1000 / 16000
                < old(self).max_transcription_duration() && (now < t || now - t
                < old(self).speech_gap_duration()) ==> r is None && *final(self) == *old(self),
            old(self).speech_detected_at() is Some && old(self).samples().len() > 0
                && old(self).samples().len() * 1000 / 16000 >= old(self).max_transcription_duration()
                ==> {
                &&& r is Some
                &&& r->0@ == old(self).samples()
                &&& final(self).samples().len() == 0
                &&& final(self).speech_detected_at() == old(self).speech_detected_at()
            },
    {
        if !self.should_transcribe(now) || !self.streaming_buffer.has_audio() {
            return None;
        }
        let forced = self.streaming_buffer.duration() >= self.max_transcription_duration;
        let keep: Option<u64> = if forced {
            None
        } else {
            Some(self.recent_history_duration)
        };
        let segment = self.streaming_buffer.consume_speech_segment(keep);
        if segment.is_some() && !forced {
            self.speech_detected_at = None;
        }
        segment
    }
}

/// No segment is cut until speech has been detected: with no speech mark,
/// transcription is never due, whatever the buffer and the clock.
pub proof fn lemma_no_segment_without_speech(
    buffered_ms: int,
    now: u64,
    speech_gap_ms: u64,
    max_transcription_ms: u64,
)
    ensures
        !transcription_due(None, buffered_ms, now, speech_gap_ms, max_transcription_ms),
{
}

/// When a segment is due once speech was seen at `t`: as soon as the buffer
/// holds the longest segment, or once the pause since `t` reaches the gap.
/// With less than the longest segment buffered, no segment is due while the
/// last speech is more recent than the gap.
pub proof fn lemma_when_transcription_due(
    t: u64,
    buffered_ms: int,
    now: u64,
    speech_gap_ms: u64,
    max_transcription_ms: u64,
)
    ensures
        buffered_ms >= max_transcription_ms ==> transcription_due(
            Some(t),
            buffered_ms,
            now,
            speech_gap_ms,
            max_transcription_ms,
        ),
        now >= t && now - t >= speech_gap_ms ==> transcription_due(
            Some(t),
            buffered_ms,
            now,
            speech_gap_ms,
            max_transcription_ms,
        ),
        buffered_ms < max_transcription_ms && now >= t && now - t < speech_gap_ms
            ==> !transcription_due(Some(t), buffered_ms, now, speech_gap_ms, max_transcription_ms),
        buffered_ms < max_transcription_ms && now < t && speech_gap_ms > 0 ==> !transcription_due(
            Some(t),
            buffered_ms,
            now,
            speech_gap_ms,
            max_transcription_ms,
        ),
{
}

/// The model is asked at most once per interval: after a check at
/// `checked_at`, no check is due at any reading less than one interval later.
pub proof fn lemma_vad_rate_limited(checked_at: u64, now: u64, interval: u64)
    requires
        checked_at <= now,
        now < checked_at + interval,
    ensures
        elapsed(now, checked_at) < interval,
{
}

/// A segment forced by a full buffer takes every sample; one ended by a
/// pause leaves the newest `keep` samples (all of them when there are no
/// more than that) and takes the rest.
pub proof fn lemma_segment_sizes(len: int, keep: u64)
    requires
        len >= 0,
        keep as int <= usize::MAX,
    ensures
        drain_count(len, None) == len,
        len > keep ==> len - drain_count(len, Some(keep)) == keep,
        len <= keep ==> drain_count(len, Some(keep)) == len,
{
}

} // verus!
