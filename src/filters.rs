//! The filter panel: a list of filters, each tuned by its knobs, and the
//! one-shot application of the selected filter to the shared buffer.
use vstd::prelude::*;
use crate::cursor::{in_range, next, next_of, previous, previous_of};
use crate::key::{Key, KeyCode};
use crate::knob::{knob_ok, lowered, raised, Knob, StepKnob};
use crate::samples::Samples;
use crate::view::{Outcome, Pane, Request};

verus! {

/// The panel's interaction modes.
#[derive(Clone, Copy, Debug, PartialEq, Eq, Structural)]
pub enum FilterMode {
    /// Keys move the filter selection.
    Navigate,
    /// Up and down turn the selected filter's first knob.
    Edit,
    /// The selected filter runs at the next frame.
    Apply,
}

/// The named filters with their named knobs, a selection, and a mode.
pub struct Filters {
    filters: Vec<(String, Vec<(String, StepKnob)>)>,
    mode: FilterMode,
    selected: Option<usize>,
}

/// The knobs of one filter, with their names dropped.
pub open spec fn knob_values(knobs: Seq<(String, StepKnob)>) -> Seq<StepKnob> {
    knobs.map_values(|k: (String, StepKnob)| k.1)
}

/// The settings of a filter's knobs, in order.
pub open spec fn settings_of(knobs: Seq<StepKnob>) -> Seq<int> {
    knobs.map_values(|k: StepKnob| k.setting())
}

impl Filters {
    pub closed spec fn mode_view(&self) -> FilterMode {
        self.mode
    }

    pub closed spec fn selected_view(&self) -> Option<usize> {
        self.selected
    }

    /// The filters' names.
    pub closed spec fn names_view(&self) -> Seq<Seq<char>> {
        self.filters@.map_values(|f: (String, Vec<(String, StepKnob)>)| f.0@)
    }

    /// The filters' knobs.
    pub closed spec fn knobs_view(&self) -> Seq<Seq<StepKnob>> {
        self.filters@.map_values(|f: (String, Vec<(String, StepKnob)>)| knob_values(f.1@))
    }

    pub open spec fn panel_wf(&self) -> bool {
        &&& in_range(self.selected_view(), self.names_view().len())
        &&& self.knobs_view().len() == self.names_view().len()
        &&& forall|i: int, j: int|
            0 <= i < self.knobs_view().len() && 0 <= j < self.knobs_view()[i].len()
                ==> knob_ok(#[trigger] self.knobs_view()[i][j])
    }

    /// A panel over named filters, each with its named knobs; nothing is
    /// selected.
    pub fn new(filters: Vec<(String, Vec<(String, StepKnob)>)>) -> (r: Filters)
        requires
            forall|i: int, j: int|
                0 <= i < filters@.len() && 0 <= j < filters@[i].1@.len()
                    ==> knob_ok((#[trigger] filters@[i].1@[j]).1),
        ensures
            r.panel_wf(),
            r.mode_view() == FilterMode::Navigate,
            r.selected_view() is None,
            r.names_view() == filters@.map_values(
                |f: (String, Vec<(String, StepKnob)>)| f.0@,
            ),
            r.knobs_view() == filters@.map_values(
                |f: (String, Vec<(String, StepKnob)>)| knob_values(f.1@),
            ),
    {
        let r = Filters { filters, mode: FilterMode::Navigate, selected: None };
        assert forall|i: int, j: int|
            0 <= i < r.knobs_view().len() && 0 <= j < r.knobs_view()[i].len()
                implies knob_ok(#[trigger] r.knobs_view()[i][j]) by {
            assert(r.knobs_view()[i] == knob_values(r.filters@[i].1@));
        }
        r
    }

    /// The interaction mode.
    pub fn mode(&self) -> (r: FilterMode)
        ensures
            r == self.mode_view(),
    {
        self.mode
    }

    /// The selected filter's index.
    pub fn selected(&self) -> (r: Option<usize>)
        ensures
            r == self.selected_view(),
    {
        self.selected
    }

    /// The filters, with their knobs.
    pub fn filters(&self) -> (r: &Vec<(String, Vec<(String, StepKnob)>)>)
        ensures
            r@.map_values(|f: (String, Vec<(String, StepKnob)>)| f.0@) == self.names_view(),
            r@.map_values(|f: (String, Vec<(String, StepKnob)>)| knob_values(f.1@))
                == self.knobs_view(),
    {
        &self.filters
    }
}

/// The mode and selection after a key in `Navigate` mode, over `len` filters.
pub open spec fn navigate_key(selected: Option<usize>, len: nat, code: KeyCode) -> (
    FilterMode,
    Option<usize>,
) {
    if code == KeyCode::Char('e') {
        (FilterMode::Edit, selected)
    } else if code == KeyCode::Down {
        (FilterMode::Navigate, next_of(selected, len))
    } else if code == KeyCode::Enter {
        (FilterMode::Apply, selected)
    } else if code == KeyCode::Up {
        (FilterMode::Navigate, previous_of(selected, len))
    } else {
        (FilterMode::Navigate, selected)
    }
}

/// In `Edit` mode, the key turns the first knob of filter `i`.
pub open spec fn turns_knob(p: &Filters, code: KeyCode, i: int) -> bool {
    &&& p.mode_view() == FilterMode::Edit
    &&& (code == KeyCode::Up || code == KeyCode::Down)
    &&& p.selected_view() == Some(i as usize)
    &&& 0 < p.knobs_view()[i].len()
}

impl Filters {
    /// What `key_event` does: from `self`, the key gives `next` and asks `r`.
    pub open spec fn key_step(&self, key: Key, next: Filters, r: Option<Request>) -> bool {
        &&& (r is None)
        &&& (next.names_view() == self.names_view())
        &&& (self.mode_view() == FilterMode::Navigate ==> next.knobs_view() == self.knobs_view() && (next.mode_view(), next.selected_view())
            == navigate_key(self.selected_view(), self.names_view().len(), key.code))
        &&& (self.mode_view() != FilterMode::Navigate ==> next.mode_view() == self.mode_view() && next.selected_view() == self.selected_view())
        &&& (forall|i: int| 0 <= i < self.knobs_view().len() && !turns_knob(self, key.code, i) ==> (#[trigger] next.knobs_view()[i]) == self.knobs_view()[i])
        &&& (next.knobs_view().len() == self.knobs_view().len())
        &&& (forall|i: int|
            0 <= i < self.knobs_view().len() && turns_knob(self, key.code, i) ==> {
                &&& next.knobs_view()[i].len() == self.knobs_view()[i].len()
                &&& forall|j: int|
                    0 < j < self.knobs_view()[i].len() ==> (#[trigger] next.knobs_view()[i][j]) == self.knobs_view()[i][j]
                &&& next.knobs_view()[i][0].lowest() == self.knobs_view()[i][0].lowest()
                &&& next.knobs_view()[i][0].highest() == self.knobs_view()[i][0].highest()
                &&& next.knobs_view()[i][0].stride() == self.knobs_view()[i][0].stride()
                &&& key.code == KeyCode::Down ==> next.knobs_view()[i][0].setting()
                    == lowered(self.knobs_view()[i][0])
                &&& key.code == KeyCode::Up ==> next.knobs_view()[i][0].setting()
                    == raised(self.knobs_view()[i][0])
            })
    }

    /// Navigate: `e` starts editing, Enter asks to apply the selected filter,
    /// Down and Up move the selection. Edit: Down and Up turn the selected
    /// filter's first knob down and up. Apply: keys are ignored. Nothing is
    /// asked of the caller.
    pub fn key_event(&mut self, key: Key) -> (r: Option<Request>)
        requires
            old(self).panel_wf(),
        ensures
            final(self).panel_wf(),
            old(self).key_step(key, *final(self), r),
    {
        let ghost pre = *self;
        let len = self.filters.len();
        match self.mode {
            FilterMode::Navigate => {
                match key.code {
                    KeyCode::Char('e') => self.mode = FilterMode::Edit,
                    KeyCode::Down => self.selected = next(self.selected, len),
                    KeyCode::Enter => self.mode = FilterMode::Apply,
                    KeyCode::Up => self.selected = previous(self.selected, len),
                    _ => {},
                }
            },
            FilterMode::Edit => {
                if let Some(i) = self.selected {
                    if self.filters[i].1.len() > 0 {
                        let ghost before = self.knobs_view();
                        assert(before[i as int][0] == self.filters@[i as int].1@[0].1);
                        assert(knob_ok(before[i as int][0]));
                        match key.code {
                            KeyCode::Down => self.filters[i].1[0].1.decrement(),
                            KeyCode::Up => self.filters[i].1[0].1.increment(),
                            _ => {},
                        }
                        assert(self.knobs_view()[i as int][0] == self.filters@[i as int].1@[0].1);
                        assert(self.knobs_view()[i as int] =~= before[i as int].update(
                            0,
                            self.knobs_view()[i as int][0],
                        ));
                        assert(self.knobs_view() =~= before.update(
                            i as int,
                            self.knobs_view()[i as int],
                        ));
                    }
                }
            },
            FilterMode::Apply => {},
        }
        assert(self.names_view() == pre.names_view());
        assert(self.knobs_view().len() == pre.knobs_view().len());
        assert(forall|i: int| 0 <= i < pre.knobs_view().len() && !turns_knob(&pre, key.code, i) ==> (#[trigger] self.knobs_view()[i]) == pre.knobs_view()[i]);
        None
    }
}

/// Whole settings, as integers.
pub open spec fn settings_view(s: Seq<u32>) -> Seq<int> {
    s.map_values(|v: u32| v as int)
}

impl Filters {
    /// The panel's state but for mode and selection is `other`'s.
    pub open spec fn same_filters(&self, other: &Filters) -> bool {
        self.names_view() == other.names_view() && self.knobs_view() == other.knobs_view()
    }

    /// What `process` does: from `self`, it gives `next` and asks `r`.
    pub open spec fn process_step(&self, next: Filters, r: Option<Request>) -> bool {
        &&& (next.same_filters(self))
        &&& (next.selected_view() == self.selected_view())
        &&& (match r {
            Some(Request::Filter(f, settings)) => self.mode_view() == FilterMode::Apply
                && self.selected_view() == Some(f) && settings_view(settings@)
                == settings_of(self.knobs_view()[f as int])
                && next.mode_view() == FilterMode::Apply,
            Some(_) => false,
            None => !(self.mode_view() == FilterMode::Apply && self.selected_view() is Some)
                && (self.mode_view() == FilterMode::Apply ==> next.mode_view() == FilterMode::Navigate)
                && (self.mode_view() != FilterMode::Apply ==> next.mode_view() == self.mode_view()),
        })
    }

    /// In `Apply` mode with a filter selected, asks to run that filter with its
    /// knobs' settings, and stays in `Apply` until the result comes back. In
    /// `Apply` mode without a selection, goes back to `Navigate`. Otherwise
    /// does nothing.
    pub fn process(&mut self) -> (r: Option<Request>)
        requires
            old(self).panel_wf(),
        ensures
            final(self).panel_wf(),
            old(self).process_step(*final(self), r),
    {
        if self.mode == FilterMode::Apply {
            match self.selected {
                Some(f) => {
                    let knobs = &self.filters[f].1;
                    let ghost kv = knob_values(knobs@);
                    assert(kv == self.knobs_view()[f as int]);
                    let mut settings: Vec<u32> = Vec::new();
                    let mut j: usize = 0;
                    while j < knobs.len()
                        invariant
                            j <= knobs@.len(),
                            kv == knob_values(knobs@),
                            kv.len() == knobs@.len(),
                            settings@.len() == j,
                            settings_view(settings@) =~= settings_of(kv.take(j as int)),
                        decreases knobs@.len() - j,
                    {
                        let v = knobs[j].1.value();
                        assert(kv[j as int] == knobs@[j as int].1);
                        let ghost before = settings@;
                        settings.push(v);
                        proof {
                            let want = settings_of(kv.take(j + 1));
                            let had = settings_of(kv.take(j as int));
                            assert forall|k: int| 0 <= k < j + 1 implies #[trigger] settings_view(settings@)[k] == want[k] by {
                                if k < j {
                                    assert(settings_view(settings@)[k] == settings_view(before)[k]);
                                    assert(want[k] == had[k]);
                                }
                            }
                        }
                        j = j + 1;
                        assert(settings_view(settings@) =~= settings_of(kv.take(j as int)));
                    }
                    assert(kv.take(j as int) =~= kv);
                    Some(Request::Filter(f, settings))
                },
                None => {
                    self.mode = FilterMode::Navigate;
                    None
                },
            }
        } else {
            None
        }
    }

    /// What `complete` does: from `self` and buffer `samples`, the outcome
    /// gives `next` and buffer `samples_next`.
    pub open spec fn complete_step<T>(&self, outcome: Outcome<T>, samples: Samples<T>, next: Filters, samples_next: Samples<T>) -> bool {
        &&& (next.same_filters(self))
        &&& (next.selected_view() == self.selected_view())
        &&& (self.mode_view() == FilterMode::Apply ==> next.mode_view()
            == FilterMode::Navigate)
        &&& (self.mode_view() != FilterMode::Apply ==> next.mode_view() == self.mode_view())
        &&& (match outcome {
            Outcome::Filtered(s) => self.mode_view() == FilterMode::Apply ==> samples_next == s,
            _ => true,
        })
        &&& (!(self.mode_view() == FilterMode::Apply && outcome is Filtered) ==> samples_next == samples)
    }

    /// Takes the buffer as the filter left it, and goes back to `Navigate`.
    /// Outside `Apply` mode, or for any other outcome, the buffer is left as
    /// it is.
    pub fn complete<T>(&mut self, outcome: Outcome<T>, samples: &mut Samples<T>)
        requires
            old(self).panel_wf(),
        ensures
            final(self).panel_wf(),
            old(self).complete_step(outcome, *old(samples), *final(self), *final(samples)),
    {
        if self.mode == FilterMode::Apply {
            self.mode = FilterMode::Navigate;
            match outcome {
                Outcome::Filtered(s) => {
                    *samples = s;
                },
                _ => {},
            }
        }
    }

    /// What `reset` does: from `self` it gives `next`.
    pub open spec fn reset_step(&self, next: Filters) -> bool {
        &&& (next.same_filters(self))
        &&& (next.mode_view() == FilterMode::Navigate)
        &&& (next.selected_view() is None)
    }

    /// Goes back to `Navigate` with nothing selected; knob settings are kept.
    pub fn reset(&mut self)
        requires
            old(self).panel_wf(),
        ensures
            final(self).panel_wf(),
            old(self).reset_step(*final(self)),
    {
        self.mode = FilterMode::Navigate;
        self.selected = None;
    }
}

impl<T> Pane<T> for Filters {
    open spec fn wf(&self) -> bool {
        self.panel_wf()
    }

    open spec fn is_initial(&self) -> bool {
        self.mode_view() == FilterMode::Navigate && self.selected_view() is None
    }

    open spec fn key_step(&self, key: Key, next: Self, r: Option<Request>) -> bool {
        Filters::key_step(self, key, next, r)
    }

    open spec fn process_step(&self, samples: Samples<T>, next: Self, r: Option<Request>) -> bool {
        Filters::process_step(self, next, r)
    }

    open spec fn complete_step(
        &self,
        outcome: Outcome<T>,
        samples: Samples<T>,
        next: Self,
        samples_next: Samples<T>,
        r: Result<(), String>,
    ) -> bool {
        Filters::complete_step::<T>(self, outcome, samples, next, samples_next) && r is Ok
    }

    open spec fn reset_step(&self, next: Self) -> bool {
        Filters::reset_step(self, next)
    }

    fn key_event(&mut self, key: Key) -> (r: Option<Request>) {
        Filters::key_event(self, key)
    }

    fn process(&mut self, samples: &Samples<T>) -> (r: Option<Request>) {
        Filters::process(self)
    }

    fn complete(&mut self, outcome: Outcome<T>, samples: &mut Samples<T>) -> (r: Result<(), String>) {
        Filters::complete(self, outcome, samples);
        Ok(())
    }

    fn reset(&mut self) {
        Filters::reset(self)
    }
}

} // verus!
