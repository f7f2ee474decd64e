//! The shared sample buffer.
use vstd::prelude::*;

verus! {

/// Interleaved samples of `channels` channels: the value of channel `c` in
/// frame `i` stands at `data[channels * i + c]`.
#[derive(Clone, Debug, PartialEq)]
pub struct Samples<T> {
    pub data: Vec<T>,
    pub channels: u16,
    pub sample_rate: u32,
}

/// The number of whole frames in `len` values of `channels` channels; a
/// buffer without channels has none.
pub open spec fn frames_of(len: nat, channels: nat) -> nat {
    if channels == 0 {
        0
    } else {
        len / channels
    }
}

impl<T> Samples<T> {
    /// A buffer from its metadata and its interleaved values.
    pub fn new(channels: u16, sample_rate: u32, data: Vec<T>) -> (r: Samples<T>)
        ensures
            r.channels == channels,
            r.sample_rate == sample_rate,
            r.data@ == data@,
    {
        Samples { data, channels, sample_rate }
    }

    /// Every frame is whole.
    pub open spec fn wf(&self) -> bool {
        self.channels >= 1 && self.data@.len() % (self.channels as nat) == 0
    }

    pub open spec fn frame_count_spec(&self) -> nat {
        frames_of(self.data@.len(), self.channels as nat)
    }

    /// The number of whole frames.
    pub fn frame_count(&self) -> (r: usize)
        ensures
            r == self.frame_count_spec(),
            self.wf() ==> r * (self.channels as nat) == self.data@.len(),
    {
        if self.channels == 0 {
            0
        } else {
            let c = self.channels as usize;
            let n = self.data.len();
            assert(self.wf() ==> (n / c) * c == n) by (nonlinear_arith)
                requires
                    c > 0,
                    self.wf() ==> n % c == 0;
            n / c
        }
    }
}

impl<T> Default for Samples<T> {
    /// An empty mono buffer at one sample per second.
    fn default() -> (r: Samples<T>)
        ensures
            r.data@.len() == 0,
            r.channels == 1,
            r.sample_rate == 1,
    {
        Samples { data: Vec::new(), channels: 1, sample_rate: 1 }
    }
}

} // verus!
