//! What the views ask of their surroundings, what they are handed back, and
//! the capabilities that every view has.
use vstd::prelude::*;
use crate::chart::SignalChart;
use crate::filters::Filters;
use crate::key::Key;
use crate::file::File;
use crate::samples::Samples;

verus! {

/// Outside work that a view asks for; the caller performs it and hands the
/// result back through `Pane::complete`.
#[derive(Clone, Debug, PartialEq)]
pub enum Request {
    /// Move or zoom the chart's viewport by this key.
    Viewport(Key),
    /// List the directory at this path.
    List(String),
    /// Decode the audio file at this path into the shared buffer.
    Load(String),
    /// Encode the shared buffer into the file at the first path, then list
    /// the directory at the second.
    Save(String, String),
    /// Run the filter of this index, tuned with these knob settings, over the
    /// shared buffer.
    Filter(usize, Vec<u32>),
}

/// The result of a `Request`.
#[derive(Debug, PartialEq)]
pub enum Outcome<T> {
    /// The viewport was moved.
    Moved,
    /// The directory at this path was listed: (path, is directory) pairs, or
    /// the error's message.
    Listed(String, Result<Vec<(String, bool)>, String>),
    /// The file was decoded, or the error's message.
    Loaded(Result<Samples<T>, String>),
    /// Whether the buffer was written, and the listing made after it.
    Saved(Result<(), String>, Result<Vec<(String, bool)>, String>),
    /// The buffer as the filter left it.
    Filtered(Samples<T>),
}

/// A keyboard-driven component that works on the shared sample buffer.
pub trait Pane<T>: Sized {
    /// The view's own invariant.
    spec fn wf(&self) -> bool;

    /// The view is in its initial interaction mode, with nothing selected.
    spec fn is_initial(&self) -> bool;

    /// A key turns `self` into `next`, which asks for `r`.
    spec fn key_step(&self, key: Key, next: Self, r: Option<Request>) -> bool;

    /// Processing over buffer `samples` turns `self` into `next`, which asks
    /// for `r`.
    spec fn process_step(&self, samples: Samples<T>, next: Self, r: Option<Request>) -> bool;

    /// Taking `outcome` turns `self` into `next` and buffer `samples` into
    /// `samples_next`, with result `r`.
    spec fn complete_step(
        &self,
        outcome: Outcome<T>,
        samples: Samples<T>,
        next: Self,
        samples_next: Samples<T>,
        r: Result<(), String>,
    ) -> bool;

    /// A reset turns `self` into `next`.
    spec fn reset_step(&self, next: Self) -> bool;

    /// Reacts to a key, perhaps asking for outside work.
    fn key_event(&mut self, key: Key) -> (r: Option<Request>)
        requires
            old(self).wf(),
        ensures
            final(self).wf(),
            old(self).key_step(key, *final(self), r),
    ;

    /// The per-frame update: reads the buffer, perhaps asking for outside
    /// work.
    fn process(&mut self, samples: &Samples<T>) -> (r: Option<Request>)
        requires
            old(self).wf(),
        ensures
            final(self).wf(),
            old(self).process_step(*samples, *final(self), r),
    ;

    /// Takes the result of the work asked for; an `Err` is a failure of the
    /// view's processing.
    fn complete(&mut self, outcome: Outcome<T>, samples: &mut Samples<T>) -> (r: Result<
        (),
        String,
    >)
        requires
            old(self).wf(),
        ensures
            final(self).wf(),
            old(self).complete_step(outcome, *old(samples), *final(self), *final(samples), r),
    ;

    /// Goes back to the initial interaction mode after a failure.
    fn reset(&mut self)
        requires
            old(self).wf(),
        ensures
            final(self).wf(),
            final(self).is_initial(),
            old(self).reset_step(*final(self)),
    ;
}

/// The views that the dispatcher knows.
pub enum Panel<T> {
    Chart(SignalChart<T>),
    Files(File),
    Filters(Filters),
}

impl<T: Copy + Default> Pane<T> for Panel<T> {
    open spec fn wf(&self) -> bool {
        match self {
            Panel::Chart(c) => c.wf(),
            Panel::Files(f) => Pane::<T>::wf(f),
            Panel::Filters(f) => Pane::<T>::wf(f),
        }
    }

    open spec fn is_initial(&self) -> bool {
        match self {
            Panel::Chart(c) => c.is_initial(),
            Panel::Files(f) => Pane::<T>::is_initial(f),
            Panel::Filters(f) => Pane::<T>::is_initial(f),
        }
    }

    open spec fn key_step(&self, key: Key, next: Self, r: Option<Request>) -> bool {
        match (*self, next) {
            (Panel::Chart(a), Panel::Chart(b)) => a.key_step(key, b, r),
            (Panel::Files(a), Panel::Files(b)) => Pane::<T>::key_step(&a, key, b, r),
            (Panel::Filters(a), Panel::Filters(b)) => Pane::<T>::key_step(&a, key, b, r),
            _ => false,
        }
    }

    open spec fn process_step(&self, samples: Samples<T>, next: Self, r: Option<Request>) -> bool {
        match (*self, next) {
            (Panel::Chart(a), Panel::Chart(b)) => a.process_step(samples, b, r),
            (Panel::Files(a), Panel::Files(b)) => Pane::<T>::process_step(&a, samples, b, r),
            (Panel::Filters(a), Panel::Filters(b)) => Pane::<T>::process_step(&a, samples, b, r),
            _ => false,
        }
    }

    open spec fn complete_step(
        &self,
        outcome: Outcome<T>,
        samples: Samples<T>,
        next: Self,
        samples_next: Samples<T>,
        r: Result<(), String>,
    ) -> bool {
        match (*self, next) {
            (Panel::Chart(a), Panel::Chart(b)) => a.complete_step(outcome, samples, b, samples_next, r),
            (Panel::Files(a), Panel::Files(b)) => Pane::<T>::complete_step(&a, outcome, samples, b, samples_next, r),
            (Panel::Filters(a), Panel::Filters(b)) => Pane::<T>::complete_step(&a, outcome, samples, b, samples_next, r),
            _ => false,
        }
    }

    open spec fn reset_step(&self, next: Self) -> bool {
        match (*self, next) {
            (Panel::Chart(a), Panel::Chart(b)) => a.reset_step(b),
            (Panel::Files(a), Panel::Files(b)) => Pane::<T>::reset_step(&a, b),
            (Panel::Filters(a), Panel::Filters(b)) => Pane::<T>::reset_step(&a, b),
            _ => false,
        }
    }

    fn key_event(&mut self, key: Key) -> (r: Option<Request>) {
        match self {
            Panel::Chart(c) => Pane::<T>::key_event(c, key),
            Panel::Files(f) => Pane::<T>::key_event(f, key),
            Panel::Filters(f) => Pane::<T>::key_event(f, key),
        }
    }

    fn process(&mut self, samples: &Samples<T>) -> (r: Option<Request>) {
        match self {
            Panel::Chart(c) => Pane::<T>::process(c, samples),
            Panel::Files(f) => Pane::<T>::process(f, samples),
            Panel::Filters(f) => Pane::<T>::process(f, samples),
        }
    }

    fn complete(&mut self, outcome: Outcome<T>, samples: &mut Samples<T>) -> (r: Result<(), String>) {
        match self {
            Panel::Chart(c) => Pane::<T>::complete(c, outcome, samples),
            Panel::Files(f) => Pane::<T>::complete(f, outcome, samples),
            Panel::Filters(f) => Pane::<T>::complete(f, outcome, samples),
        }
    }

    fn reset(&mut self) {
        match self {
            Panel::Chart(c) => Pane::<T>::reset(c),
            Panel::Files(f) => Pane::<T>::reset(f),
            Panel::Filters(f) => Pane::<T>::reset(f),
        }
    }
}

} // verus!
