//! The waveform chart: one amplitude series per channel.
use vstd::prelude::*;
use crate::key::Key;
use crate::samples::{frames_of, Samples};
use crate::view::{Outcome, Pane, Request};

verus! {

/// Per-channel amplitude series of a sample buffer; the frame index of an
/// amplitude is its position in its series. The viewport that it is drawn
/// through is kept by the caller.
pub struct SignalChart<T> {
    title: String,
    series: Vec<Vec<T>>,
    blank: T,
}

/// Channel `c` of interleaved `data` with `channels` channels, over its
/// whole frames.
pub open spec fn channel_of<T>(data: Seq<T>, channels: nat, c: nat) -> Seq<T> {
    Seq::new(frames_of(data.len(), channels), |i: int| data[channels * i + c])
}

/// `data` split into its channels.
pub open spec fn deinterleaved<T>(data: Seq<T>, channels: nat) -> Seq<Seq<T>> {
    Seq::new(channels, |c: int| channel_of(data, channels, c as nat))
}

impl<T: Copy + Default> SignalChart<T> {
    pub closed spec fn series_view(&self) -> Seq<Seq<T>> {
        self.series@.map_values(|v: Vec<T>| v@)
    }

    /// The value that fills the series before the first buffer is shown.
    pub closed spec fn blank_view(&self) -> T {
        self.blank
    }

    pub closed spec fn title_view(&self) -> Seq<char> {
        self.title@
    }

    /// A chart of `channels` series of `frame_count` blank amplitudes.
    pub fn new(title: String, channels: usize, frame_count: usize) -> (r: SignalChart<T>)
        ensures
            r.title_view() == title@,
            call_ensures(T::default, (), r.blank_view()),
            r.series_view() == Seq::new(
                channels as nat,
                |c: int| Seq::new(frame_count as nat, |i: int| r.blank_view()),
            ),
    {
        let blank = T::default();
        let mut series: Vec<Vec<T>> = Vec::new();
        let mut c: usize = 0;
        while c < channels
            invariant
                c <= channels,
                series@.len() == c,
                forall|k: int|
                    0 <= k < c ==> #[trigger] series@[k]@ == Seq::new(
                        frame_count as nat,
                        |i: int| blank,
                    ),
            decreases channels - c,
        {
            let mut line: Vec<T> = Vec::new();
            let mut i: usize = 0;
            while i < frame_count
                invariant
                    i <= frame_count,
                    line@ == Seq::new(i as nat, |j: int| blank),
                decreases frame_count - i,
            {
                line.push(blank);
                i = i + 1;
                assert(line@ =~= Seq::new(i as nat, |j: int| blank));
            }
            series.push(line);
            c = c + 1;
        }
        let r = SignalChart { title, series, blank };
        assert(r.series_view() =~= Seq::new(
            channels as nat,
            |c: int| Seq::new(frame_count as nat, |i: int| blank),
        ));
        r
    }

    /// The series, one per channel.
    pub fn series(&self) -> (r: &Vec<Vec<T>>)
        ensures
            r@.map_values(|v: Vec<T>| v@) == self.series_view(),
    {
        &self.series
    }

    /// The chart's title.
    pub fn title(&self) -> (r: &String)
        ensures
            r@ == self.title_view(),
    {
        &self.title
    }

    /// Splits the buffer into its channels: series `c` gets, at position `i`,
    /// the value at `channels * i + c`. Values past the last whole frame are
    /// not shown.
    pub fn process(&mut self, samples: &Samples<T>)
        ensures
            final(self).series_view() == deinterleaved(
                samples.data@,
                samples.channels as nat,
            ),
            final(self).title_view() == old(self).title_view(),
            final(self).blank_view() == old(self).blank_view(),
    {
        let channels = samples.channels as usize;
        let frames = samples.frame_count();
        let len = samples.data.len();
        let ghost data = samples.data@;
        let mut series: Vec<Vec<T>> = Vec::new();
        let mut c: usize = 0;
        while c < channels
            invariant
                c <= channels,
                channels == samples.channels as nat,
                frames == frames_of(data.len(), channels as nat),
                data == samples.data@,
                len == data.len(),
                series@.len() == c,
                forall|k: int|
                    0 <= k < c ==> #[trigger] series@[k]@ == channel_of(data, channels as nat, k as nat),
            decreases channels - c,
        {
            let mut line: Vec<T> = Vec::new();
            let mut i: usize = 0;
            while i < frames
                invariant
                    i <= frames,
                    c < channels,
                    channels == samples.channels as nat,
                    frames == frames_of(data.len(), channels as nat),
                    data == samples.data@,
                    len == data.len(),
                    line@ == channel_of(data, channels as nat, c as nat).take(i as int),
                decreases frames - i,
            {
                assert(channels * i + c < data.len()) by (nonlinear_arith)
                    requires
                        i < frames,
                        c < channels,
                        frames == data.len() / (channels as nat),
                        channels > 0;
                let index = channels * i + c;
                line.push(samples.data[index]);
                i = i + 1;
                assert(line@ =~= channel_of(data, channels as nat, c as nat).take(i as int));
            }
            assert(line@ =~= channel_of(data, channels as nat, c as nat));
            series.push(line);
            c = c + 1;
        }
        self.series = series;
        assert(self.series_view() =~= deinterleaved(data, channels as nat));
    }
}

impl<T: Copy + Default> Pane<T> for SignalChart<T> {
    open spec fn wf(&self) -> bool {
        true
    }

    open spec fn is_initial(&self) -> bool {
        true
    }

    open spec fn key_step(&self, key: Key, next: Self, r: Option<Request>) -> bool {
        r == Some(Request::Viewport(key)) && next == *self
    }

    open spec fn process_step(&self, samples: Samples<T>, next: Self, r: Option<Request>) -> bool {
        &&& r is None
        &&& next.series_view() == deinterleaved(samples.data@, samples.channels as nat)
        &&& next.title_view() == self.title_view()
        &&& next.blank_view() == self.blank_view()
    }

    open spec fn complete_step(
        &self,
        outcome: Outcome<T>,
        samples: Samples<T>,
        next: Self,
        samples_next: Samples<T>,
        r: Result<(), String>,
    ) -> bool {
        r is Ok && next == *self && samples_next == samples
    }

    open spec fn reset_step(&self, next: Self) -> bool {
        next == *self
    }

    /// Every key goes to the viewport.
    fn key_event(&mut self, key: Key) -> (r: Option<Request>) {
        Some(Request::Viewport(key))
    }

    fn process(&mut self, samples: &Samples<T>) -> (r: Option<Request>) {
        SignalChart::process(self, samples);
        None
    }

    fn complete(&mut self, outcome: Outcome<T>, samples: &mut Samples<T>) -> (r: Result<(), String>) {
        Ok(())
    }

    fn reset(&mut self) {
    }
}

/// De-interleaving `data` of `channels` channels gives one series per
/// channel, each with one value per whole frame, and the value of channel `c`
/// in frame `i` is the one at `i * channels + c`.
pub proof fn lemma_deinterleaved_shape<T>(data: Seq<T>, channels: nat)
    requires
        channels >= 1,
    ensures
        deinterleaved(data, channels).len() == channels,
        forall|c: int|
            0 <= c < channels ==> (#[trigger] deinterleaved(data, channels)[c]).len() == data.len()
                / channels,
        forall|c: int, i: int|
            0 <= c < channels && 0 <= i < data.len() / channels ==> (#[trigger] deinterleaved(
                data,
                channels,
            )[c][i]) == data[i * channels + c],
{
    assert forall|c: int, i: int|
        0 <= c < channels && 0 <= i < data.len() / channels implies (#[trigger] deinterleaved(
            data,
            channels,
        )[c][i]) == data[i * channels + c] by {
        assert(i * channels == channels * i) by (nonlinear_arith);
    }
}

} // verus!
