//! The diff preview of the status tab and the selection bounds it follows.
use vstd::prelude::*;

use super::{App, FocusPane, Screen};
use crate::git::status::FileEntry;
use crate::text::{decimal, decimal_string, opt_string_view, owned, str_eq};

verus! {

/// The preview's key: which file of which list, at which position.
pub open spec fn preview_key_of(a: App) -> Option<Seq<char>> {
    match a.focus {
        FocusPane::Unstaged => if a.selected_unstaged < a.snapshot.unstaged@.len() {
            Some("unstaged:"@ + decimal(a.selected_unstaged as nat) + ":"@ + a.snapshot.unstaged@[a.selected_unstaged as int].path@)
        } else {
            None
        },
        FocusPane::Staged => if a.selected_staged < a.snapshot.staged@.len() {
            Some("staged:"@ + decimal(a.selected_staged as nat) + ":"@ + a.snapshot.staged@[a.selected_staged as int].path@)
        } else {
            None
        },
    }
}

/// The preview shown when no file is selected.
pub open spec fn empty_preview_text(f: FocusPane) -> Seq<char> {
    match f {
        FocusPane::Unstaged => "No unstaged diff output for selected file."@,
        FocusPane::Staged => "No staged diff output for selected file."@,
    }
}

/// Whether a preview is to be read: on the status tab, for a selected
/// file, when the preview shown is not already that file's.
pub open spec fn preview_wanted(a: App) -> bool {
    a.screen == Screen::RepoView && opt_string_view(a.repo_preview_key) != preview_key_of(a)
}

pub open spec fn saturating_add(a: u64, b: u64) -> u64 {
    if a + b > u64::MAX {
        u64::MAX
    } else {
        (a + b) as u64
    }
}

/// When a preview asked for now is read: after a short pause, so that
/// moving quickly through the list reads only where the selection stops.
pub open spec fn scheduled_deadline(a: App) -> Option<u64> {
    if preview_wanted(a) && preview_key_of(a) is Some {
        Some(saturating_add(a.now_ms, 110))
    } else {
        None
    }
}

pub open spec fn scheduled_text(a: App) -> Seq<char> {
    if preview_wanted(a) {
        match preview_key_of(a) {
            None => empty_preview_text(a.focus),
            Some(_) => "Loading preview..."@,
        }
    } else {
        a.repo_preview_text@
    }
}

/// `b` is `a` with the preview scheduled.
pub open spec fn preview_scheduled(a: App, b: App) -> bool {
    &&& b == (App {
        repo_preview_text: b.repo_preview_text,
        repo_preview_refresh_deadline: b.repo_preview_refresh_deadline,
        ..a
    })
    &&& b.repo_preview_refresh_deadline == scheduled_deadline(a)
    &&& b.repo_preview_text@ == scheduled_text(a)
}

/// A selection kept inside a list of `len` entries.
pub open spec fn bounded(sel: usize, len: int) -> usize {
    if len == 0 {
        0
    } else if sel < len - 1 {
        sel
    } else {
        (len - 1) as usize
    }
}

/// `a` with both selections of the status tab kept inside their lists
/// and the preview forgotten.
pub open spec fn bounds_kept(a: App) -> App {
    App {
        selected_unstaged: bounded(a.selected_unstaged, a.snapshot.unstaged@.len() as int),
        selected_staged: bounded(a.selected_staged, a.snapshot.staged@.len() as int),
        repo_preview_key: None,
        ..a
    }
}

fn bound_selection(sel: usize, len: usize) -> (res: usize)
    ensures
        res == bounded(sel, len as int),
{
    if len == 0 {
        0
    } else if sel < len - 1 {
        sel
    } else {
        len - 1
    }
}

impl App {
    /// The unstaged file selected, if any.
    pub fn current_unstaged(&self) -> (res: Option<&FileEntry>)
        ensures
            match res {
                Some(e) => self.selected_unstaged < self.snapshot.unstaged@.len() && *e == self.snapshot.unstaged@[self.selected_unstaged as int],
                None => self.selected_unstaged >= self.snapshot.unstaged@.len(),
            },
    {
        if self.selected_unstaged < self.snapshot.unstaged.len() {
            Some(&self.snapshot.unstaged[self.selected_unstaged])
        } else {
            None
        }
    }

    /// The staged file selected, if any.
    pub fn current_staged(&self) -> (res: Option<&FileEntry>)
        ensures
            match res {
                Some(e) => self.selected_staged < self.snapshot.staged@.len() && *e == self.snapshot.staged@[self.selected_staged as int],
                None => self.selected_staged >= self.snapshot.staged@.len(),
            },
    {
        if self.selected_staged < self.snapshot.staged.len() {
            Some(&self.snapshot.staged[self.selected_staged])
        } else {
            None
        }
    }

    /// The key of the file whose diff the preview should show.
    pub fn current_repo_preview_key(&self) -> (res: Option<String>)
        ensures
            opt_string_view(res) == preview_key_of(*self),
    {
        match self.focus {
            FocusPane::Unstaged => match self.current_unstaged() {
                Some(e) => {
                    let r = owned("unstaged:");
                    let r = r.concat(decimal_string(self.selected_unstaged).as_str());
                    let r = r.concat(":");
                    Some(r.concat(e.path.as_str()))
                },
                None => None,
            },
            FocusPane::Staged => match self.current_staged() {
                Some(e) => {
                    let r = owned("staged:");
                    let r = r.concat(decimal_string(self.selected_staged).as_str());
                    let r = r.concat(":");
                    Some(r.concat(e.path.as_str()))
                },
                None => None,
            },
        }
    }

    fn empty_repo_preview_text(&self) -> (res: String)
        ensures
            res@ == empty_preview_text(self.focus),
    {
        match self.focus {
            FocusPane::Unstaged => owned("No unstaged diff output for selected file."),
            FocusPane::Staged => owned("No staged diff output for selected file."),
        }
    }

    /// Whether the preview shown is the one `key` names.
    fn preview_key_matches(&self, key: &Option<String>) -> (res: bool)
        ensures
            res == (opt_string_view(self.repo_preview_key) == opt_string_view(*key)),
    {
        match (&self.repo_preview_key, key) {
            (Some(a), Some(b)) => str_eq(a.as_str(), b.as_str()),
            (None, None) => true,
            _ => false,
        }
    }

    /// Asks for the preview of the selected file after a short pause.
    pub fn schedule_repo_preview_refresh(&mut self)
        ensures
            preview_scheduled(*old(self), *final(self)),
    {
        if self.screen != Screen::RepoView {
            self.repo_preview_refresh_deadline = None;
            return;
        }
        let key = self.current_repo_preview_key();
        if self.preview_key_matches(&key) {
            self.repo_preview_refresh_deadline = None;
            return;
        }
        if key.is_none() {
            self.repo_preview_text = self.empty_repo_preview_text();
            self.repo_preview_refresh_deadline = None;
            return;
        }
        self.repo_preview_text = owned("Loading preview...");
        self.repo_preview_refresh_deadline = Some(self.now_ms.saturating_add(110));
    }

    /// Forgets which file the preview shows.
    pub fn invalidate_repo_preview_cache(&mut self)
        ensures
            *final(self) == (App { repo_preview_key: None, ..*old(self) }),
    {
        self.repo_preview_key = None;
    }

    /// Keeps both selections inside their lists and asks for the preview again.
    #[verifier::spinoff_prover]
    #[verifier::rlimit(40)]
    pub fn ensure_selection_bounds(&mut self)
        ensures
            preview_scheduled(bounds_kept(*old(self)), *final(self)),
    {
        let u = bound_selection(self.selected_unstaged, self.snapshot.unstaged.len());
        let s = bound_selection(self.selected_staged, self.snapshot.staged.len());
        self.selected_unstaged = u;
        self.selected_staged = s;
        self.repo_preview_key = None;
        self.schedule_repo_preview_refresh();
    }
}

} // verus!
