//! The dispatcher: owns the shared buffer and the views, routes keys to the
//! active view, and drives every view's per-frame processing.
use vstd::prelude::*;
use crate::key::{Key, KeyCode};
use crate::samples::Samples;
use crate::view::{Outcome, Pane, Panel, Request};

verus! {

/// What the caller of `App::key_event` has to do.
#[derive(Debug, PartialEq)]
pub struct Reaction {
    /// The view that the key went to, and the work it asked for.
    pub request: Option<(usize, Request)>,
    /// Start, pause or resume playback of the buffer (see `App::play`).
    pub toggle_play: bool,
}

/// Where a frame's processing stands.
#[derive(Debug, PartialEq)]
pub enum Frame {
    /// Every view has been processed, or processing stopped on a failure.
    Done,
    /// The view of this index waits for this work; hand its result to
    /// `App::resume`.
    Pending(usize, Request),
}

/// What to do with the playback stream when play is pressed.
#[derive(Clone, Copy, Debug, PartialEq, Eq, Structural)]
pub enum Playback {
    /// Queue the buffer and play it.
    Start,
    /// Resume the paused stream.
    Resume,
    /// Pause the playing stream.
    Pause,
}

/// The shared buffer, the labelled views with one of them active, a pending
/// error, and whether shutdown was asked for.
pub struct App<T> {
    samples: Samples<T>,
    views: Vec<(String, Panel<T>)>,
    state: usize,
    error: Option<String>,
    shutdown: bool,
}

impl<T: Copy + Default> App<T> {
    pub closed spec fn samples_view(&self) -> Samples<T> {
        self.samples
    }

    /// The views, without their labels.
    pub closed spec fn panels(&self) -> Seq<Panel<T>> {
        self.views@.map_values(|v: (String, Panel<T>)| v.1)
    }

    /// The views' labels.
    pub closed spec fn labels(&self) -> Seq<Seq<char>> {
        self.views@.map_values(|v: (String, Panel<T>)| v.0@)
    }

    /// The active view's index.
    pub closed spec fn state_view(&self) -> nat {
        self.state as nat
    }

    pub closed spec fn error_view(&self) -> Option<Seq<char>> {
        match self.error {
            Some(e) => Some(e@),
            None => None,
        }
    }

    pub closed spec fn shutdown_view(&self) -> bool {
        self.shutdown
    }

    pub open spec fn app_wf(&self) -> bool {
        &&& (if self.panels().len() == 0 {
            self.state_view() == 0
        } else {
            self.state_view() < self.panels().len()
        })
        &&& forall|i: int| 0 <= i < self.panels().len() ==> (#[trigger] self.panels()[i]).wf()
    }

    /// A dispatcher over labelled views, the first one active, sharing
    /// `samples`.
    pub fn new(views: Vec<(String, Panel<T>)>, samples: Samples<T>) -> (r: App<T>)
        requires
            forall|i: int| 0 <= i < views@.len() ==> (#[trigger] views@[i]).1.wf(),
        ensures
            r.app_wf(),
            r.panels() == views@.map_values(|v: (String, Panel<T>)| v.1),
            r.labels() == views@.map_values(|v: (String, Panel<T>)| v.0@),
            r.samples_view() == samples,
            r.state_view() == 0,
            r.error_view() is None,
            !r.shutdown_view(),
    {
        let r = App { samples, views, state: 0, error: None, shutdown: false };
        assert forall|i: int| 0 <= i < r.panels().len() implies (#[trigger] r.panels()[i]).wf() by {
            assert(r.panels()[i] == views@[i].1);
        }
        r
    }

    /// The shared buffer.
    pub fn samples(&self) -> (r: &Samples<T>)
        ensures
            *r == self.samples_view(),
    {
        &self.samples
    }

    /// The labelled views.
    pub fn views(&self) -> (r: &Vec<(String, Panel<T>)>)
        ensures
            r@.map_values(|v: (String, Panel<T>)| v.1) == self.panels(),
            r@.map_values(|v: (String, Panel<T>)| v.0@) == self.labels(),
    {
        &self.views
    }

    /// The active view's index.
    pub fn state(&self) -> (r: usize)
        ensures
            r == self.state_view(),
    {
        self.state
    }

    /// The pending error's message.
    pub fn error(&self) -> (r: &Option<String>)
        ensures
            match *r {
                Some(e) => self.error_view() == Some(e@),
                None => self.error_view() is None,
            },
    {
        &self.error
    }

    /// Shutdown was asked for.
    pub fn is_shutdown(&self) -> (r: bool)
        ensures
            r == self.shutdown_view(),
    {
        self.shutdown
    }

    /// Makes the next view active, wrapping from the last to the first.
    pub fn next(&mut self)
        requires
            old(self).app_wf(),
        ensures
            final(self).app_wf(),
            final(self).panels() == old(self).panels(),
            final(self).labels() == old(self).labels(),
            final(self).samples_view() == old(self).samples_view(),
            final(self).error_view() == old(self).error_view(),
            final(self).shutdown_view() == old(self).shutdown_view(),
            old(self).panels().len() == 0 ==> final(self).state_view() == 0,
            old(self).panels().len() > 0 ==> final(self).state_view() == (old(self).state_view()
                + 1) % old(self).panels().len(),
    {
        let len = self.views.len();
        if len > 0 {
            self.state = (self.state + 1) % len;
        }
    }

    /// What pressing play does: queue the buffer when nothing is queued,
    /// resume a paused stream, pause a playing one.
    pub fn play(queue_empty: bool, paused: bool) -> (r: Playback)
        ensures
            queue_empty ==> r == Playback::Start,
            !queue_empty && paused ==> r == Playback::Resume,
            !queue_empty && !paused ==> r == Playback::Pause,
    {
        if queue_empty {
            Playback::Start
        } else if paused {
            Playback::Resume
        } else {
            Playback::Pause
        }
    }
}

impl<T: Copy + Default> App<T> {
    /// Everything but the views and the pending error is as in `other`.
    pub open spec fn same_frame(&self, other: &App<T>) -> bool {
        &&& self.labels() == other.labels()
        &&& self.state_view() == other.state_view()
        &&& self.shutdown_view() == other.shutdown_view()
        &&& self.panels().len() == other.panels().len()
    }

    /// From view `start` on, over buffer `samples`, the views of `self` were
    /// processed in order into those of `next`, as `r` reports: with `Done`
    /// every one of them asked for nothing; with `Pending(v, q)` those before
    /// `v` asked for nothing, `v` asked for `q`, and the views after `v` were
    /// not touched.
    pub open spec fn ran_from(&self, start: int, samples: Samples<T>, next: &App<T>, r: Frame) -> bool {
        match r {
            Frame::Done => forall|j: int|
                start <= j < self.panels().len() ==> (#[trigger] self.panels()[j]).process_step(
                    samples,
                    next.panels()[j],
                    None,
                ),
            Frame::Pending(v, q) => {
                &&& start <= v < self.panels().len()
                &&& forall|j: int|
                    start <= j < v ==> (#[trigger] self.panels()[j]).process_step(
                        samples,
                        next.panels()[j],
                        None,
                    )
                &&& self.panels()[v as int].process_step(samples, next.panels()[v as int], Some(q))
                &&& forall|j: int|
                    v < j < self.panels().len() ==> (#[trigger] next.panels()[j]) == self.panels()[j]
            },
        }
    }

    /// View `index` of `self` took `outcome`, becoming `mid` with result
    /// `res`. On `Ok` it stays `mid` and the pending error is unchanged; on
    /// `Err(e)` the pending error is `e` and the view is `mid` reset, back in
    /// its initial mode.
    pub open spec fn delivered(
        &self,
        index: int,
        outcome: Outcome<T>,
        next: &App<T>,
        mid: Panel<T>,
        res: Result<(), String>,
    ) -> bool {
        &&& self.panels()[index].complete_step(
            outcome,
            self.samples_view(),
            mid,
            next.samples_view(),
            res,
        )
        &&& res is Ok ==> next.panels()[index] == mid && next.error_view() == self.error_view()
        &&& res is Err ==> next.error_view() == Some(res->Err_0@) && mid.reset_step(
            next.panels()[index],
        ) && next.panels()[index].is_initial()
    }

    /// Passes the key to the active view, then acts on the keys that the
    /// dispatcher itself reads: space asks the caller to toggle playback,
    /// Escape dismisses a pending error or else asks for shutdown, Tab makes
    /// the next view active. Whatever the active view asks for is returned
    /// with its index. Left and Right do not switch views: the file view
    /// moves between directories with them and the chart pans with them.
    pub fn key_event(&mut self, key: Key) -> (r: Reaction)
        requires
            old(self).app_wf(),
        ensures
            final(self).app_wf(),
            final(self).labels() == old(self).labels(),
            final(self).samples_view() == old(self).samples_view(),
            final(self).panels().len() == old(self).panels().len(),
            forall|j: int|
                0 <= j < old(self).panels().len() && j != old(self).state_view() ==> (
                #[trigger] final(self).panels()[j]) == old(self).panels()[j],
            old(self).state_view() < old(self).panels().len() ==> old(self).panels()[old(self).state_view() as int].key_step(
                key,
                final(self).panels()[old(self).state_view() as int],
                match r.request {
                    Some((_, q)) => Some(q),
                    None => None,
                },
            ),
            match r.request {
                Some((v, _)) => v == old(self).state_view() && v < old(self).panels().len(),
                None => true,
            },
            old(self).panels().len() == 0 ==> r.request is None,
            r.toggle_play == (key.code == KeyCode::Char(' ')),
            key.code == KeyCode::Esc && old(self).error_view() is Some ==> final(self).error_view() is None
                && final(self).shutdown_view() == old(self).shutdown_view(),
            key.code == KeyCode::Esc && old(self).error_view() is None ==> final(self).error_view() is None
                && final(self).shutdown_view(),
            key.code != KeyCode::Esc ==> final(self).error_view() == old(self).error_view()
                && final(self).shutdown_view() == old(self).shutdown_view(),
            key.code == KeyCode::Tab && old(self).panels().len() > 0 ==> final(self).state_view()
                == (old(self).state_view() + 1) % old(self).panels().len(),
            key.code != KeyCode::Tab || old(self).panels().len() == 0 ==> final(self).state_view()
                == old(self).state_view(),
    {
        let mut request: Option<(usize, Request)> = None;
        let state = self.state;
        if state < self.views.len() {
            let ghost before = self.panels();
            assert(self.views@[state as int].1 == before[state as int]);
            let asked = self.views[state].1.key_event(key);
            proof {
                assert(self.panels()[state as int] == self.views@[state as int].1);
                assert forall|j: int| 0 <= j < before.len() && j != state implies (#[trigger] self.panels()[j]) == before[j] by {
                    assert(self.panels()[j] == self.views@[j].1);
                }
                assert forall|j: int| 0 <= j < self.panels().len() implies (#[trigger] self.panels()[j]).wf() by {
                    assert(self.panels()[j] == self.views@[j].1);
                    if j != state {
                        assert(before[j].wf());
                    }
                }
                assert(self.labels() =~= old(self).labels());
                assert(self.panels().len() == before.len());
                assert(self.app_wf());
            }
            match asked {
                Some(q) => {
                    request = Some((state, q));
                },
                None => {},
            }
        }
        let toggle_play = match key.code {
            KeyCode::Char(' ') => true,
            _ => false,
        };
        match key.code {
            KeyCode::Esc => {
                if self.error.is_some() {
                    self.error = None;
                } else {
                    self.shutdown = true;
                }
            },
            KeyCode::Tab => self.next(),
            _ => {},
        }
        Reaction { request, toggle_play }
    }

    /// Hands view `index` the outcome and records what it made of it.
    fn deliver_step(&mut self, index: usize, outcome: Outcome<T>) -> (r: (
        bool,
        Ghost<Panel<T>>,
        Ghost<Result<(), String>>,
    ))
        requires
            old(self).app_wf(),
            index < old(self).panels().len(),
        ensures
            final(self).app_wf(),
            final(self).same_frame(old(self)),
            forall|j: int|
                0 <= j < old(self).panels().len() && j != index ==> (#[trigger] final(self).panels()[j]) == old(self).panels()[j],
            old(self).delivered(index as int, outcome, final(self), r.1@, r.2@),
            r.0 == r.2@ is Ok,
    {
        let ghost before = self.panels();
        let ghost oc = outcome;
        assert(self.views@[index as int].1 == before[index as int]);
        let result = self.views[index].1.complete(outcome, &mut self.samples);
        let ghost mid = self.views@[index as int].1;
        let ghost res = result;
        let ok = match result {
            Ok(()) => true,
            Err(e) => {
                self.error = Some(e);
                self.views[index].1.reset();
                false
            },
        };
        proof {
            assert forall|j: int| 0 <= j < before.len() && j != index implies (#[trigger] self.panels()[j]) == before[j] by {
                assert(self.panels()[j] == self.views@[j].1);
            }
            assert forall|j: int| 0 <= j < self.panels().len() implies (#[trigger] self.panels()[j]).wf() by {
                assert(self.panels()[j] == self.views@[j].1);
                if j != index {
                    assert(before[j].wf());
                }
            }
            assert(self.panels()[index as int] == self.views@[index as int].1);
            assert(self.labels() =~= old(self).labels());
        }
        (ok, Ghost(mid), Ghost(res))
    }

    /// Hands view `index` the result of the work it asked for. On a failure
    /// the message becomes the pending error and the view is reset to its
    /// initial mode; the other views are not touched. Returns whether the
    /// view took the result without failing.
    pub fn deliver(&mut self, index: usize, outcome: Outcome<T>) -> (r: bool)
        requires
            old(self).app_wf(),
            index < old(self).panels().len(),
        ensures
            final(self).app_wf(),
            final(self).same_frame(old(self)),
            forall|j: int|
                0 <= j < old(self).panels().len() && j != index ==> (#[trigger] final(self).panels()[j]) == old(self).panels()[j],
            exists|mid: Panel<T>, res: Result<(), String>|
                #[trigger] old(self).delivered(index as int, outcome, final(self), mid, res) && r == res is Ok,
    {
        let (ok, mid, res) = self.deliver_step(index, outcome);
        ok
    }

    /// Processes the views from index `start` on, in order, until one asks
    /// for outside work. Views before `start` are not touched.
    fn process_from(&mut self, start: usize) -> (r: Frame)
        requires
            old(self).app_wf(),
            start <= old(self).panels().len(),
        ensures
            final(self).app_wf(),
            final(self).same_frame(old(self)),
            final(self).error_view() == old(self).error_view(),
            final(self).samples_view() == old(self).samples_view(),
            forall|j: int| 0 <= j < start ==> (#[trigger] final(self).panels()[j]) == old(self).panels()[j],
            old(self).ran_from(start as int, old(self).samples_view(), final(self), r),
    {
        let mut i: usize = start;
        while i < self.views.len()
            invariant
                start <= i <= self.panels().len(),
                self.app_wf(),
                self.same_frame(old(self)),
                self.error_view() == old(self).error_view(),
                self.samples_view() == old(self).samples_view(),
                forall|j: int| 0 <= j < start ==> (#[trigger] self.panels()[j]) == old(self).panels()[j],
                forall|j: int| i <= j < self.panels().len() ==> (#[trigger] self.panels()[j]) == old(self).panels()[j],
                forall|j: int|
                    start <= j < i ==> (#[trigger] old(self).panels()[j]).process_step(
                        old(self).samples_view(),
                        self.panels()[j],
                        None,
                    ),
            decreases self.panels().len() - i,
        {
            let ghost before = self.panels();
            assert(self.views@[i as int].1 == before[i as int]);
            let asked = self.views[i].1.process(&self.samples);
            proof {
                assert(self.panels()[i as int] == self.views@[i as int].1);
                assert forall|j: int| 0 <= j < before.len() && j != i implies (#[trigger] self.panels()[j]) == before[j] by {
                    assert(self.panels()[j] == self.views@[j].1);
                }
                assert forall|j: int| 0 <= j < self.panels().len() implies (#[trigger] self.panels()[j]).wf() by {
                    assert(self.panels()[j] == self.views@[j].1);
                    if j != i {
                        assert(before[j].wf());
                    }
                }
                assert(self.labels() =~= old(self).labels());
            }
            match asked {
                Some(q) => {
                    return Frame::Pending(i, q);
                },
                None => {},
            }
            i = i + 1;
        }
        Frame::Done
    }

    /// Starts a frame: unless an error is pending, processes every view in
    /// order over the shared buffer, stopping at the first that asks for
    /// outside work.
    pub fn process(&mut self) -> (r: Frame)
        requires
            old(self).app_wf(),
        ensures
            final(self).app_wf(),
            final(self).same_frame(old(self)),
            final(self).error_view() == old(self).error_view(),
            final(self).samples_view() == old(self).samples_view(),
            old(self).error_view() is Some ==> r == Frame::Done && final(self).panels() == old(self).panels(),
            old(self).error_view() is None ==> old(self).ran_from(0, old(self).samples_view(), final(self), r),
    {
        if self.error.is_some() {
            Frame::Done
        } else {
            self.process_from(0)
        }
    }

    /// Hands view `index` the result of the work it asked for, then goes on
    /// with the frame from the next view, over the buffer as the view left
    /// it. A failure of the view stops the frame: its message becomes the
    /// pending error, the failing view is back in its initial mode, and no
    /// other view is touched, so every later view keeps its last good state.
    pub fn resume(&mut self, index: usize, outcome: Outcome<T>) -> (r: Frame)
        requires
            old(self).app_wf(),
            index < old(self).panels().len(),
        ensures
            final(self).app_wf(),
            final(self).same_frame(old(self)),
            forall|j: int| 0 <= j < index ==> (#[trigger] final(self).panels()[j]) == old(self).panels()[j],
            exists|mid: Panel<T>, res: Result<(), String>|
                #[trigger] old(self).delivered(index as int, outcome, final(self), mid, res) && {
                    &&& res is Err ==> r == Frame::Done && forall|j: int|
                        0 <= j < old(self).panels().len() && j != index ==> (#[trigger] final(self).panels()[j]) == old(self).panels()[j]
                    &&& res is Ok ==> old(self).ran_from(
                        index + 1,
                        final(self).samples_view(),
                        final(self),
                        r,
                    )
                },
    {
        let len = self.views.len();
        assert(self.panels().len() == len);
        let ghost pre = *self;
        let (ok, mid, res) = self.deliver_step(index, outcome);
        let ghost mid_app = *self;
        if ok {
            let r = self.process_from(index + 1);
            proof {
                assert(pre.delivered(index as int, outcome, self, mid@, res@));
                assert(mid_app.ran_from(index + 1, mid_app.samples_view(), self, r));
                assert(forall|j: int| index < j < pre.panels().len() ==> (#[trigger] mid_app.panels()[j]) == pre.panels()[j]);
                match r {
                    Frame::Done => {
                        assert forall|j: int| index + 1 <= j < pre.panels().len() implies (#[trigger] pre.panels()[j]).process_step(
                            self.samples_view(),
                            self.panels()[j],
                            None,
                        ) by {
                            assert(mid_app.panels()[j] == pre.panels()[j]);
                        }
                    },
                    Frame::Pending(v, _) => {
                        assert(mid_app.panels()[v as int] == pre.panels()[v as int]);
                        assert forall|j: int| index + 1 <= j < v implies (#[trigger] pre.panels()[j]).process_step(
                            self.samples_view(),
                            self.panels()[j],
                            None,
                        ) by {
                            assert(mid_app.panels()[j] == pre.panels()[j]);
                        }
                    },
                }
                assert(pre.ran_from(index + 1, self.samples_view(), self, r));
            }
            r
        } else {
            Frame::Done
        }
    }
}

} // verus!
