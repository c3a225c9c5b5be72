//! A growable buffer of interleaved 16-bit samples read from the front.
use vstd::prelude::*;

verus! {

/// Interleaved channels of the raw stream.
pub const CHANNELS: u16 = 2;

/// Samples per second and channel of the raw stream.
pub const SAMPLE_RATE: u32 = 44100;

/// Raw audio samples and the position of the next one to play.
pub struct RawAudioSource {
    /// The samples appended so far.
    pub data: Vec<i16>,
    /// The index of the next sample to hand out.
    pub position: usize,
}

impl RawAudioSource {
    /// An empty source at position zero.
    pub fn new() -> (r: Self)
        ensures
            r.data@ == Seq::<i16>::empty(),
            r.position == 0,
    {
        RawAudioSource { data: Vec::new(), position: 0 }
    }

    /// Appends `chunk` after the samples already held; the position stays.
    pub fn append_data(&mut self, chunk: Vec<i16>)
        ensures
            final(self).data@ == old(self).data@ + chunk@,
            final(self).position == old(self).position,
    {
        let mut i: usize = 0;
        let ghost start = self.data@;
        while i < chunk.len()
            invariant
                i <= chunk@.len(),
                self.data@ == start + chunk@.take(i as int),
                self.position == old(self).position,
            decreases chunk@.len() - i,
        {
            self.data.push(chunk[i]);
            i = i + 1;
            assert(self.data@ =~= start + chunk@.take(i as int));
        }
        assert(chunk@.take(i as int) =~= chunk@);
    }

    /// The sample at the position, which then moves on by one; `None` once
    /// every sample held has been handed out (more may be appended later).
    pub fn next_sample(&mut self) -> (r: Option<i16>)
        ensures
            final(self).data@ == old(self).data@,
            old(self).position < old(self).data@.len() ==> r == Some(old(self).data@[old(self).position as int])
                && final(self).position == old(self).position + 1,
            old(self).position >= old(self).data@.len() ==> r is None && final(self).position
                == old(self).position,
    {
        if self.position < self.data.len() {
            let sample = self.data[self.position];
            self.position = self.position + 1;
            Some(sample)
        } else {
            None
        }
    }

    /// The number of interleaved channels.
    pub fn channels(&self) -> (r: u16)
        ensures
            r == CHANNELS,
    {
        CHANNELS
    }

    /// The sample rate in Hz.
    pub fn sample_rate(&self) -> (r: u32)
        ensures
            r == SAMPLE_RATE,
    {
        SAMPLE_RATE
    }
}

} // verus!
