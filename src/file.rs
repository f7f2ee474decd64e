//! The file navigator: a sorted directory listing with a selection, and the
//! protocol for loading the selected file into the shared buffer and saving
//! the buffer under a typed name.
use vstd::prelude::*;
use crate::cursor::{in_range, next, next_of, previous, previous_of};
use crate::key::{Key, KeyCode};
use crate::listing::{entries_view, listing_or_error, shows, EntryView};
use crate::path::{join, joined_path, parent, parent_path};
use crate::samples::Samples;
use crate::text::{pop_char, push_char};
use crate::view::{Outcome, Pane, Request};

verus! {

/// The navigator's interaction modes.
#[derive(Clone, Copy, Debug, PartialEq, Eq, Structural)]
pub enum NavMode {
    /// Keys move the selection and the working directory.
    Navigate,
    /// Keys edit the name to save under.
    Type,
    /// The selected file is loaded at the next frame.
    Read,
    /// The buffer is saved under the typed name at the next frame.
    Write,
}

/// A working directory, its entries in listing order, a selection, a mode,
/// and the name being typed.
pub struct File {
    cwd: String,
    entries: Vec<(String, bool)>,
    mode: NavMode,
    selected: Option<usize>,
    typed: String,
}

impl File {
    pub closed spec fn cwd_view(&self) -> Seq<char> {
        self.cwd@
    }

    pub closed spec fn entries_view(&self) -> Seq<EntryView> {
        entries_view(self.entries@)
    }

    pub closed spec fn mode_view(&self) -> NavMode {
        self.mode
    }

    pub closed spec fn selected_view(&self) -> Option<usize> {
        self.selected
    }

    pub closed spec fn typed_view(&self) -> Seq<char> {
        self.typed@
    }

    pub open spec fn nav_wf(&self) -> bool {
        in_range(self.selected_view(), self.entries_view().len())
    }

    /// The selected entry, where there is one.
    pub open spec fn selection(&self) -> Option<EntryView> {
        match self.selected_view() {
            Some(i) => if i < self.entries_view().len() {
                Some(self.entries_view()[i as int])
            } else {
                None
            },
            None => None,
        }
    }

    /// A navigator in directory `cwd`, whose reading gave `raw`; fails with
    /// the message of a read that failed.
    pub fn try_new(cwd: String, raw: Result<Vec<(String, bool)>, String>) -> (r: Result<
        File,
        String,
    >)
        ensures
            match r {
                Ok(n) => raw is Ok && n.nav_wf() && n.cwd_view() == cwd@ && shows(
                    n.entries_view(),
                    raw,
                ) && n.mode_view() == NavMode::Navigate && n.selected_view() is None
                    && n.typed_view().len() == 0,
                Err(e) => raw == Result::<Vec<(String, bool)>, String>::Err(e),
            },
    {
        match raw {
            Err(e) => Err(e),
            Ok(v) => {
                let entries = listing_or_error(Ok(v));
                Ok(
                    File {
                        cwd,
                        entries,
                        mode: NavMode::Navigate,
                        selected: None,
                        typed: String::new(),
                    },
                )
            },
        }
    }

    /// Moves to directory `dir`, whose reading gave `raw`: its entries are
    /// shown (or the failure, as a single entry), the selection is cleared and
    /// the mode is `Navigate`.
    pub fn change_dir(&mut self, dir: String, raw: Result<Vec<(String, bool)>, String>)
        ensures
            final(self).nav_wf(),
            final(self).cwd_view() == dir@,
            shows(final(self).entries_view(), raw),
            final(self).mode_view() == NavMode::Navigate,
            final(self).selected_view() is None,
            final(self).typed_view() == old(self).typed_view(),
    {
        self.cwd = dir;
        self.entries = listing_or_error(raw);
        self.mode = NavMode::Navigate;
        self.selected = None;
    }

    /// The working directory.
    pub fn cwd(&self) -> (r: &String)
        ensures
            r@ == self.cwd_view(),
    {
        &self.cwd
    }

    /// The entries, as (name, is directory) pairs.
    pub fn entries(&self) -> (r: &Vec<(String, bool)>)
        ensures
            entries_view(r@) == self.entries_view(),
    {
        &self.entries
    }

    /// The interaction mode.
    pub fn mode(&self) -> (r: NavMode)
        ensures
            r == self.mode_view(),
    {
        self.mode
    }

    /// The selected entry's index.
    pub fn selected(&self) -> (r: Option<usize>)
        ensures
            r == self.selected_view(),
    {
        self.selected
    }

    /// The name typed so far.
    pub fn typed(&self) -> (r: &String)
        ensures
            r@ == self.typed_view(),
    {
        &self.typed
    }
}

impl File {
    /// Same directory and entries.
    pub open spec fn same_listing(&self, other: &File) -> bool {
        self.cwd_view() == other.cwd_view() && self.entries_view() == other.entries_view()
    }

    /// Nothing changed.
    pub open spec fn same_state(&self, other: &File) -> bool {
        &&& self.same_listing(other)
        &&& self.mode_view() == other.mode_view()
        &&& self.selected_view() == other.selected_view()
        &&& self.typed_view() == other.typed_view()
    }

    /// The selected entry is a directory.
    pub open spec fn on_directory(&self) -> bool {
        self.selection() is Some && self.selection()->Some_0.1
    }

    /// The selected entry is a file.
    pub open spec fn on_file(&self) -> bool {
        self.selection() is Some && !self.selection()->Some_0.1
    }

    /// What `key_event` does: from `self`, the key gives `next` and asks `r`.
    pub open spec fn key_step(&self, key: Key, next: File, r: Option<Request>) -> bool {
        &&& (next.same_listing(self))
        &&& (self.mode_view() == NavMode::Navigate ==> {
            if key.code == KeyCode::Char('w') {
                &&& next.mode_view() == NavMode::Type
                &&& next.typed_view().len() == 0
                &&& next.selected_view() == self.selected_view()
                &&& r is None
            } else if key.code == KeyCode::Down {
                &&& next.mode_view() == NavMode::Navigate
                &&& next.selected_view() == next_of(
                    self.selected_view(),
                    self.entries_view().len(),
                )
                &&& next.typed_view() == self.typed_view()
                &&& r is None
            } else if key.code == KeyCode::Up {
                &&& next.mode_view() == NavMode::Navigate
                &&& next.selected_view() == previous_of(
                    self.selected_view(),
                    self.entries_view().len(),
                )
                &&& next.typed_view() == self.typed_view()
                &&& r is None
            } else if key.code == KeyCode::Enter {
                &&& next.mode_view() == if self.on_file() {
                    NavMode::Read
                } else {
                    NavMode::Navigate
                }
                &&& next.selected_view() == self.selected_view()
                &&& next.typed_view() == self.typed_view()
                &&& r is None
            } else if key.code == KeyCode::Left {
                &&& next.same_state(self)
                &&& match r {
                    Some(Request::List(p)) => parent_path(self.cwd_view()) == Some(p@),
                    Some(_) => false,
                    None => parent_path(self.cwd_view()) is None,
                }
            } else if key.code == KeyCode::Right {
                &&& next.same_state(self)
                &&& match r {
                    Some(Request::List(p)) => self.on_directory() && p@ == joined_path(
                        self.cwd_view(),
                        self.selection()->Some_0.0,
                    ),
                    Some(_) => false,
                    None => !self.on_directory(),
                }
            } else {
                next.same_state(self) && r is None
            }
        })
        &&& (self.mode_view() == NavMode::Type ==> {
            &&& r is None
            &&& next.selected_view() == self.selected_view()
            &&& if key.code == KeyCode::Backspace || key.code == KeyCode::Delete {
                &&& next.mode_view() == NavMode::Type
                &&& next.typed_view() == if self.typed_view().len() == 0 {
                    self.typed_view()
                } else {
                    self.typed_view().drop_last()
                }
            } else if key.code == KeyCode::Enter {
                &&& next.mode_view() == NavMode::Write
                &&& next.typed_view() == self.typed_view()
            } else if key.code is Char {
                &&& next.mode_view() == NavMode::Type
                &&& next.typed_view() == self.typed_view().push(key.code->Char_0)
            } else {
                next.same_state(self)
            }
        })
        &&& ((self.mode_view() == NavMode::Read || self.mode_view() == NavMode::Write)
            ==> next.same_state(self) && r is None)
    }

    /// In `Navigate` mode: Down and Up move the selection; Enter on a file
    /// asks for it to be read at the next frame; `w` opens an empty name for
    /// typing; Left asks for the parent directory to be listed, and Right for
    /// the selected directory (the caller hands the listing back through
    /// `complete`). In `Type` mode: a character is appended to the name,
    /// Backspace or Delete removes its last character, Enter asks for the
    /// buffer to be saved at the next frame. In `Read` and `Write` mode keys
    /// are ignored.
    pub fn key_event(&mut self, key: Key) -> (r: Option<Request>)
        requires
            old(self).nav_wf(),
        ensures
            final(self).nav_wf(),
            old(self).key_step(key, *final(self), r),
    {
        let len = self.entries.len();
        match self.mode {
            NavMode::Navigate => {
                match key.code {
                    KeyCode::Char('w') => {
                        self.mode = NavMode::Type;
                        self.typed = String::new();
                        None
                    },
                    KeyCode::Down => {
                        self.selected = next(self.selected, len);
                        None
                    },
                    KeyCode::Up => {
                        self.selected = previous(self.selected, len);
                        None
                    },
                    KeyCode::Enter => {
                        if let Some(i) = self.selected {
                            if !self.entries[i].1 {
                                self.mode = NavMode::Read;
                            }
                        }
                        None
                    },
                    KeyCode::Left => {
                        match parent(self.cwd.as_str()) {
                            Some(p) => Some(Request::List(p)),
                            None => None,
                        }
                    },
                    KeyCode::Right => {
                        match self.selected {
                            Some(i) => {
                                if self.entries[i].1 {
                                    Some(
                                        Request::List(
                                            join(self.cwd.as_str(), self.entries[i].0.as_str()),
                                        ),
                                    )
                                } else {
                                    None
                                }
                            },
                            None => None,
                        }
                    },
                    _ => None,
                }
            },
            NavMode::Type => {
                match key.code {
                    KeyCode::Backspace | KeyCode::Delete => {
                        pop_char(&mut self.typed);
                    },
                    KeyCode::Enter => {
                        self.mode = NavMode::Write;
                    },
                    KeyCode::Char(c) => {
                        push_char(&mut self.typed, c);
                    },
                    _ => {},
                }
                None
            },
            _ => None,
        }
    }
}

impl File {
    /// What `process` does: from `self`, it gives `next` and asks `r`.
    pub open spec fn process_step(&self, next: File, r: Option<Request>) -> bool {
        &&& (next.same_listing(self))
        &&& (next.selected_view() == self.selected_view())
        &&& (next.typed_view() == self.typed_view())
        &&& (self.mode_view() == NavMode::Read && self.selection() is None ==> r is None
            && next.mode_view() == NavMode::Navigate)
        &&& (!(self.mode_view() == NavMode::Read && self.selection() is None) ==> next.mode_view() == self.mode_view())
        &&& (match r {
            Some(Request::Load(p)) => self.mode_view() == NavMode::Read
                && self.selection() is Some && p@ == joined_path(
                self.cwd_view(),
                self.selection()->Some_0.0,
            ),
            Some(Request::Save(p, d)) => self.mode_view() == NavMode::Write && p@
                == joined_path(self.cwd_view(), self.typed_view()) && d@ == self.cwd_view(),
            Some(_) => false,
            None => self.mode_view() != NavMode::Write && !(self.mode_view()
                == NavMode::Read && self.selection() is Some)
        })
    }

    /// In `Read` mode, asks for the selected file to be decoded into the
    /// buffer; in `Write` mode, asks for the buffer to be saved under the
    /// typed name in the working directory, and for the directory to be
    /// listed again. The mode holds until the result comes back through
    /// `complete`. Otherwise asks nothing.
    pub fn process(&mut self) -> (r: Option<Request>)
        requires
            old(self).nav_wf(),
        ensures
            final(self).nav_wf(),
            old(self).process_step(*final(self), r),
    {
        match self.mode {
            NavMode::Read => {
                match self.selected {
                    Some(i) => {
                        if i < self.entries.len() {
                            Some(Request::Load(join(self.cwd.as_str(), self.entries[i].0.as_str())))
                        } else {
                            self.mode = NavMode::Navigate;
                            None
                        }
                    },
                    None => {
                        self.mode = NavMode::Navigate;
                        None
                    },
                }
            },
            NavMode::Write => {
                Some(Request::Save(join(self.cwd.as_str(), self.typed.as_str()), self.cwd.clone()))
            },
            _ => None,
        }
    }

    /// What `complete` does: from `self` and buffer `samples`, the outcome
    /// gives `next`, buffer `samples_next` and result `r`.
    pub open spec fn complete_step<T>(&self, outcome: Outcome<T>, samples: Samples<T>, next: File, samples_next: Samples<T>, r: Result<(), String>) -> bool {
        &&& (match outcome {
            Outcome::Listed(dir, raw) => {
                &&& r is Ok
                &&& samples_next == samples
                &&& next.cwd_view() == dir@
                &&& shows(next.entries_view(), raw)
                &&& next.mode_view() == NavMode::Navigate
                &&& next.selected_view() is None
                &&& next.typed_view() == self.typed_view()
            },
            Outcome::Loaded(res) => if self.mode_view() == NavMode::Read {
                &&& next.mode_view() == NavMode::Navigate
                &&& next.cwd_view() == self.cwd_view()
                &&& next.typed_view() == self.typed_view()
                &&& match res {
                    Ok(s) => r is Ok && samples_next == s && next.same_listing(
                        self,
                    ) && next.selected_view() == self.selected_view(),
                    Err(e) => r == Result::<(), String>::Err(e) && samples_next == samples && next.entries_view() == seq![(e@, false)]
                        && next.selected_view() is None,
                }
            } else {
                r is Ok && next.same_state(self) && samples_next == samples
            },
            Outcome::Saved(res, raw) => {
                &&& samples_next == samples
                &&& if self.mode_view() == NavMode::Write && res is Ok {
                    &&& r is Ok
                    &&& next.cwd_view() == self.cwd_view()
                    &&& shows(next.entries_view(), raw)
                    &&& next.mode_view() == NavMode::Navigate
                    &&& next.selected_view() is None
                    &&& next.typed_view().len() == 0
                } else if self.mode_view() == NavMode::Write {
                    r == Result::<(), String>::Err(res->Err_0) && next.same_state(
                        self,
                    )
                } else {
                    r is Ok && next.same_state(self)
                }
            },
            _ => r is Ok && next.same_state(self) && samples_next == samples
        })
    }

    /// Takes the result of the work asked for. A listing moves to its
    /// directory (see `change_dir`). In `Read` mode, a decoded buffer replaces
    /// the shared one; a decoding failure replaces the entries by one holding
    /// its message and is returned. In `Write` mode, after a save the typed
    /// name is cleared and the new listing shown; a failed save is returned.
    /// Both go back to `Navigate` on success. Any other result changes
    /// nothing.
    pub fn complete<T>(&mut self, outcome: Outcome<T>, samples: &mut Samples<T>) -> (r: Result<
        (),
        String,
    >)
        requires
            old(self).nav_wf(),
        ensures
            final(self).nav_wf(),
            old(self).complete_step(outcome, *old(samples), *final(self), *final(samples), r),
    {
        match outcome {
            Outcome::Listed(dir, raw) => {
                self.change_dir(dir, raw);
                Ok(())
            },
            Outcome::Loaded(res) => {
                if self.mode == NavMode::Read {
                    self.mode = NavMode::Navigate;
                    match res {
                        Ok(s) => {
                            *samples = s;
                            Ok(())
                        },
                        Err(e) => {
                            self.entries = vec![(e.clone(), false)];
                            assert(entries_view(self.entries@) =~= seq![(e@, false)]);
                            self.selected = None;
                            Err(e)
                        },
                    }
                } else {
                    Ok(())
                }
            },
            Outcome::Saved(res, raw) => {
                if self.mode == NavMode::Write {
                    match res {
                        Ok(()) => {
                            self.typed = String::new();
                            let dir = self.cwd.clone();
                            self.change_dir(dir, raw);
                            Ok(())
                        },
                        Err(e) => Err(e),
                    }
                } else {
                    Ok(())
                }
            },
            _ => Ok(()),
        }
    }

    /// What `reset` does: from `self` it gives `next`.
    pub open spec fn reset_step(&self, next: File) -> bool {
        &&& (next.same_listing(self))
        &&& (next.typed_view() == self.typed_view())
        &&& (next.mode_view() == NavMode::Navigate)
        &&& (next.selected_view() is None)
    }

    /// Goes back to `Navigate` with nothing selected.
    pub fn reset(&mut self)
        requires
            old(self).nav_wf(),
        ensures
            final(self).nav_wf(),
            old(self).reset_step(*final(self)),
    {
        self.mode = NavMode::Navigate;
        self.selected = None;
    }
}

impl<T> Pane<T> for File {
    open spec fn wf(&self) -> bool {
        self.nav_wf()
    }

    open spec fn is_initial(&self) -> bool {
        self.mode_view() == NavMode::Navigate && self.selected_view() is None
    }

    open spec fn key_step(&self, key: Key, next: Self, r: Option<Request>) -> bool {
        File::key_step(self, key, next, r)
    }

    open spec fn process_step(&self, samples: Samples<T>, next: Self, r: Option<Request>) -> bool {
        File::process_step(self, next, r)
    }

    open spec fn complete_step(
        &self,
        outcome: Outcome<T>,
        samples: Samples<T>,
        next: Self,
        samples_next: Samples<T>,
        r: Result<(), String>,
    ) -> bool {
        File::complete_step::<T>(self, outcome, samples, next, samples_next, r)
    }

    open spec fn reset_step(&self, next: Self) -> bool {
        File::reset_step(self, next)
    }

    fn key_event(&mut self, key: Key) -> (r: Option<Request>) {
        File::key_event(self, key)
    }

    fn process(&mut self, samples: &Samples<T>) -> (r: Option<Request>) {
        File::process(self)
    }

    fn complete(&mut self, outcome: Outcome<T>, samples: &mut Samples<T>) -> (r: Result<(), String>) {
        File::complete(self, outcome, samples)
    }

    fn reset(&mut self) {
        File::reset(self)
    }
}

} // verus!
