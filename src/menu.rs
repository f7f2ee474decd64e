//! A strip of named options with one of them selected.
use vstd::prelude::*;
use crate::key::{Key, KeyCode};

verus! {

/// A titled list of options; `next` moves the selection modularly.
pub struct Menu {
    options: Vec<String>,
    state: usize,
    title: String,
}

impl Menu {
    /// The options, as text.
    pub closed spec fn options_view(&self) -> Seq<Seq<char>> {
        self.options@.map_values(|s: String| s@)
    }

    /// The title, as text.
    pub closed spec fn title_view(&self) -> Seq<char> {
        self.title@
    }

    /// The selected option's index.
    pub closed spec fn state_view(&self) -> nat {
        self.state as nat
    }

    /// The selection stands on an option, or at 0 when there are none.
    pub open spec fn wf(&self) -> bool {
        if self.options_view().len() == 0 {
            self.state_view() == 0
        } else {
            self.state_view() < self.options_view().len()
        }
    }

    /// A menu over `options`, with the first one selected.
    pub fn new(options: Vec<String>, title: String) -> (r: Menu)
        ensures
            r.options_view() == options@.map_values(|s: String| s@),
            r.state_view() == 0,
            r.title_view() == title@,
            r.wf(),
    {
        Menu { options, state: 0, title }
    }

    /// The selected option's index.
    pub fn get_state(&self) -> (r: usize)
        ensures
            r == self.state_view(),
    {
        self.state
    }

    /// The menu's title.
    pub fn title(&self) -> (r: &String)
        ensures
            r@ == self.title_view(),
    {
        &self.title
    }

    /// Selects the next option, wrapping from the last to the first; a menu
    /// without options keeps its selection at 0.
    pub fn next(&mut self)
        requires
            old(self).wf(),
        ensures
            final(self).wf(),
            final(self).options_view() == old(self).options_view(),
            final(self).title_view() == old(self).title_view(),
            old(self).options_view().len() == 0 ==> final(self).state_view() == 0,
            old(self).options_view().len() > 0 ==> final(self).state_view() == (old(self).state_view() + 1) % old(self).options_view().len(),
    {
        let len = self.options.len();
        if len > 0 {
            self.state = (self.state + 1) % len;
        }
    }

    /// Tab selects the next option; other keys are ignored.
    pub fn key_event(&mut self, key: Key)
        requires
            old(self).wf(),
        ensures
            final(self).wf(),
            final(self).options_view() == old(self).options_view(),
            final(self).title_view() == old(self).title_view(),
            key.code != KeyCode::Tab || old(self).options_view().len() == 0 ==> final(self).state_view() == old(self).state_view(),
            key.code == KeyCode::Tab && old(self).options_view().len() > 0 ==> final(self).state_view() == (old(self).state_view() + 1) % old(self).options_view().len(),
    {
        if key.code == KeyCode::Tab {
            self.next();
        }
    }
}

} // verus!
