//! A bounded first-in first-out buffer of audio samples from which speech
//! segments are cut.

use std::collections::VecDeque;
use vstd::prelude::*;

use crate::audio::decoder::{channel_count, Channels};

verus! {

/// Samples per channel held by `max_duration_ms` of audio at `sample_rate`.
pub open spec fn samples_per_channel(sample_rate: u32, max_duration_ms: u64) -> int {
    (max_duration_ms as int * sample_rate as int) / 1000
}

/// Capacity of a buffer made for `max_duration_ms` of audio: twice the
/// number of interleaved samples that duration holds.
pub open spec fn capacity_for(sample_rate: u32, max_duration_ms: u64, channels: Channels) -> int {
    samples_per_channel(sample_rate, max_duration_ms) * channel_count(channels) * 2
}

/// How many leading samples a speech segment takes out of a buffer of `len`
/// samples; `keep_recent` is compared with the length as a sample count.
pub open spec fn drain_count(len: int, keep_recent: Option<u64>) -> int {
    match keep_recent {
        Some(k) => if len > (k as usize) as int {
            len - (k as usize) as int
        } else {
            len
        },
        None => len,
    }
}

/// Number of samples that `duration_ms` of audio at `sample_rate` spans.
pub open spec fn samples_in(duration_ms: u64, sample_rate: u32) -> int {
    ((duration_ms as usize) as int * sample_rate as int) / 1000
}

/// The last `count` items of `s`, or all of `s` if it is shorter.
pub open spec fn last_n<S>(s: Seq<S>, count: int) -> Seq<S> {
    if count >= s.len() {
        s
    } else {
        s.subrange(s.len() - count, s.len() as int)
    }
}

/// Audio samples in arrival order, bounded by a capacity fixed at creation.
pub struct StreamingAudioBuffer<S> {
    sample_rate: u32,
    max_samples: usize,
    buffer: VecDeque<S>,
}

impl<S: Copy> StreamingAudioBuffer<S> {
    /// The buffered samples, oldest first.
    pub closed spec fn samples(&self) -> Seq<S> {
        self.buffer@
    }

    /// Samples per second.
    pub closed spec fn sample_rate(&self) -> u32 {
        self.sample_rate
    }

    /// Most samples the buffer may hold.
    pub closed spec fn max_samples(&self) -> usize {
        self.max_samples
    }

    /// The buffer holds no more than its capacity.
    pub open spec fn wf(&self) -> bool {
        self.samples().len() <= self.max_samples()
    }

    /// An empty buffer sized for `max_duration_ms` of audio with the given
    /// layout, with room for twice that many samples.
    pub fn new(sample_rate: u32, max_duration_ms: u64, channels: Channels) -> (b: Self)
        requires
            max_duration_ms <= usize::MAX,
            max_duration_ms * sample_rate <= usize::MAX,
            capacity_for(sample_rate, max_duration_ms, channels) <= usize::MAX,
        ensures
            b.wf(),
            b.samples() == Seq::<S>::empty(),
            b.sample_rate() == sample_rate,
            b.max_samples() == capacity_for(sample_rate, max_duration_ms, channels),
    {
        let per_channel: usize = (max_duration_ms as usize) * (sample_rate as usize) / 1000;
        let n: usize = channels.count();
        assert(per_channel * n * 2 <= usize::MAX);
        let target_samples: usize = per_channel * n;
        Self {
            sample_rate,
            max_samples: target_samples * 2,
            buffer: VecDeque::with_capacity(target_samples * 2),
        }
    }

    /// Appends samples at the end.
    pub fn add_samples(&mut self, samples: &[S])
        requires
            old(self).samples().len() + samples@.len() <= old(self).max_samples(),
        ensures
            final(self).samples() == old(self).samples() + samples@,
            final(self).sample_rate() == old(self).sample_rate(),
            final(self).max_samples() == old(self).max_samples(),
            final(self).wf(),
    {
        let ghost start = self.buffer@;
        let mut i: usize = 0;
        while i < samples.len()
            invariant
                i <= samples@.len(),
                self.buffer@ == start + samples@.subrange(0, i as int),
                self.sample_rate == old(self).sample_rate,
                self.max_samples == old(self).max_samples,
            decreases samples@.len() - i,
        {
            self.buffer.push_back(samples[i]);
            i = i + 1;
            assert(samples@.subrange(0, i as int) == samples@.subrange(0, i - 1).push(samples@[i - 1]));
        }
        assert(samples@.subrange(0, samples@.len() as int) == samples@);
    }

    /// Whether any sample is buffered.
    pub fn has_audio(&self) -> (r: bool)
        ensures
            r == (self.samples().len() > 0),
    {
        self.buffer.len() > 0
    }

    /// Number of buffered samples.
    pub fn len(&self) -> (n: usize)
        ensures
            n == self.samples().len(),
    {
        self.buffer.len()
    }

    /// Most samples the buffer may hold.
    pub fn capacity(&self) -> (n: usize)
        ensures
            n == self.max_samples(),
    {
        self.max_samples
    }

    /// Samples per second.
    pub fn rate(&self) -> (r: u32)
        ensures
            r == self.sample_rate(),
    {
        self.sample_rate
    }

    /// Buffered audio in whole milliseconds: `len * 1000 / sample_rate`.
    pub fn duration(&self) -> (ms: u64)
        requires
            self.sample_rate() > 0,
            self.samples().len() * 1000 <= u64::MAX,
        ensures
            ms == (self.samples().len() as int * 1000) / (self.sample_rate() as int),
    {
        (self.buffer.len() as u64 * 1000) / self.sample_rate as u64
    }

    /// Takes the oldest samples out as a speech segment. With
    /// `keep_recent` the newest samples, as many as its value counts, stay
    /// behind when more than that are buffered; otherwise everything is taken.
    /// `None` when the buffer is empty.
    pub fn consume_speech_segment(&mut self, keep_recent: Option<u64>) -> (r: Option<Vec<S>>)
        ensures
            final(self).sample_rate() == old(self).sample_rate(),
            final(self).max_samples() == old(self).max_samples(),
            old(self).wf() ==> final(self).wf(),
            old(self).samples().len() == 0 ==> r is None && final(self).samples() == old(self).samples(),
            old(self).samples().len() > 0 ==> r is Some && ({
                let n = drain_count(old(self).samples().len() as int, keep_recent);
                &&& r->0@ == old(self).samples().subrange(0, n)
                &&& final(self).samples() == old(self).samples().subrange(n, old(self).samples().len() as int)
                &&& r->0@ + final(self).samples() == old(self).samples()
            }),
    {
        let len: usize = self.buffer.len();
        if len == 0 {
            return None;
        }
        let count: usize = match keep_recent {
            Some(k) => if len > (k as usize) {
                len - (k as usize)
            } else {
                len
            },
            None => len,
        };
        let ghost start = self.buffer@;
        let mut taken: Vec<S> = Vec::new();
        let mut i: usize = 0;
        while i < count
            invariant
                count <= len,
                len == start.len(),
                i <= count,
                taken@ == start.subrange(0, i as int),
                self.buffer@ == start.subrange(i as int, len as int),
                self.sample_rate == old(self).sample_rate,
                self.max_samples == old(self).max_samples,
            decreases count - i,
        {
            let x = self.buffer.pop_front();
            match x {
                Some(v) => {
                    taken.push(v);
                },
                None => {
                    assert(false);
                },
            }
            i = i + 1;
            assert(taken@ == start.subrange(0, i as int));
        }
        assert(taken@ + self.buffer@ =~= start);
        Some(taken)
    }

    /// The newest samples spanning `duration_ms`, oldest first; all samples
    /// when fewer are buffered.
    pub fn get_last_samples(&self, duration_ms: u64) -> (r: Vec<S>)
        requires
            duration_ms <= usize::MAX,
            duration_ms * self.sample_rate() <= usize::MAX,
        ensures
            r@ == last_n(self.samples(), samples_in(duration_ms, self.sample_rate())),
    {
        let count: usize = (duration_ms as usize) * (self.sample_rate as usize) / 1000;
        let len: usize = self.buffer.len();
        let start: usize = if count >= len {
            0
        } else {
            len - count
        };
        let mut out: Vec<S> = Vec::new();
        let mut i: usize = start;
        while i < len
            invariant
                start <= i <= len,
                len == self.buffer@.len(),
                out@ == self.buffer@.subrange(start as int, i as int),
            decreases len - i,
        {
            out.push(self.buffer[i]);
            i = i + 1;
            assert(out@ == self.buffer@.subrange(start as int, i as int));
        }
        assert(self.buffer@.subrange(0, len as int) == self.buffer@);
        out
    }
}

} // verus!
