//! The history tab: commits, a commit's details and changed files, and a
//! file's history.
use vstd::prelude::*;

use super::jobs::{read_job, write_job, Job, ReadTarget, WriteAction};
use super::navigation::{commit_details_requested, file_history_cleared, file_history_requested};
use super::status_tab::{failed_no_repo, only_says, status_set, written};
use super::views::read_asked;
use super::{App, HistoryFocusPane, Screen};
use crate::git::history::{CommitChangedFile, CommitDetails, CommitEntry};
use crate::text::{cat, cat3, decimal, decimal_string, join, join_strings, opt_string_view, owned, str_eq, views};

verus! {

pub open spec fn marker(idx: int, sel: int) -> Seq<char> {
    if idx == sel {
        ">"@
    } else {
        " "@
    }
}

pub open spec fn file_history_line(e: CommitEntry, idx: int, sel: int) -> Seq<char> {
    marker(idx, sel) + " "@ + e.short_hash@ + " "@ + e.summary@ + " ("@ + e.relative_time@ + ")"@
}

pub open spec fn changed_file_line(f: CommitChangedFile, idx: int, sel: int) -> Seq<char> {
    marker(idx, sel) + " ["@ + f.status@ + "] "@ + f.path@
}

pub open spec fn at_most(n: int, m: int) -> int {
    if n < m {
        n
    } else {
        m
    }
}

pub open spec fn focus_label(f: HistoryFocusPane) -> Seq<char> {
    match f {
        HistoryFocusPane::Commits => "commits"@,
        HistoryFocusPane::ChangedFiles => "changed files"@,
        HistoryFocusPane::FileHistory => "file history"@,
    }
}

/// The list under the commit details: the file history (up to 18
/// entries) when it has the focus, else the changed files (up to 24).
pub open spec fn file_section(a: App, d: CommitDetails) -> Seq<char> {
    if a.history_focus == HistoryFocusPane::FileHistory {
        if a.history_file_history_entries@.len() == 0 {
            "  (no history entries)"@
        } else {
            join(
                Seq::new(
                    at_most(a.history_file_history_entries@.len() as int, 18) as nat,
                    |i: int| file_history_line(a.history_file_history_entries@[i], i, a.history_file_history_selected as int),
                ),
                "\n"@,
            )
        }
    } else if d.files@.len() == 0 {
        "  (no changed files)"@
    } else {
        join(
            Seq::new(
                at_most(d.files@.len() as int, 24) as nat,
                |i: int| changed_file_line(d.files@[i], i, a.history_file_tree_selected as int),
            ),
            "\n"@,
        )
    }
}

/// What the history tab's preview shows.
pub open spec fn history_preview(a: App) -> Seq<char> {
    if a.selected_history >= a.history_entries@.len() {
        "No commits found.\nPress [b] to return."@
    } else {
        let e = a.history_entries@[a.selected_history as int];
        if !a.history_details_visible {
            "Commit "@ + e.short_hash@ + "\n"@ + e.summary@ + "\n\nAuthor: "@ + e.author@ + "\nWhen: "@ + e.relative_time@
                + "\n\n[Enter] show details | [o] checkout detached | [p] cherry-pick"@
        } else if !(a.history_details_for matches Some(f) && f@ == e.hash@) {
            "Loading commit details..."@
        } else {
            match a.history_details {
                None => "No details loaded for selected commit."@,
                Some(d) => "Commit "@ + e.short_hash@ + "\n\nMetadata\n- Hash: "@ + d.hash@ + "\n- Author: "@ + d.author_name@
                    + " <"@ + d.author_email@ + ">\n- Date: "@ + d.authored_at@ + "\n\nMessage\n"@ + d.subject@ + "\n"@ + d.body@
                    + "\n\nFiles ("@ + decimal(d.files@.len()) + ") [focus: "@ + focus_label(a.history_focus) + "]\n"@
                    + file_section(a, d)
                    + "\n\n[Enter] hide details | [Left/Right] focus/open | [h] file history | [o] checkout | [p] cherry-pick"@,
            }
        }
    }
}

/// How many of `c` stand in `s`.
pub open spec fn count_char(s: Seq<char>, c: char) -> nat
    decreases s.len(),
{
    if s.len() == 0 {
        0
    } else {
        count_char(s.drop_last(), c) + if s.last() == c { 1nat } else { 0nat }
    }
}

/// The end of `s` after its last `/` or `\`.
pub open spec fn after_last_separator(s: Seq<char>) -> Seq<char>
    decreases s.len(),
{
    if s.len() == 0 {
        s
    } else if s.last() == '/' || s.last() == '\\' {
        Seq::empty()
    } else {
        after_last_separator(s.drop_last()).push(s.last())
    }
}

pub open spec fn indent(n: nat) -> Seq<char>
    decreases n,
{
    if n == 0 {
        Seq::empty()
    } else {
        indent((n - 1) as nat) + "  "@
    }
}

/// A changed file as the list shows it: status, indentation by depth, name.
pub open spec fn tree_item(f: CommitChangedFile) -> Seq<char> {
    "["@ + f.status@ + "] "@ + indent(count_char(f.path@, '/') + count_char(f.path@, '\\')) + after_last_separator(f.path@)
}

pub open spec fn history_items(a: App) -> Seq<Seq<char>> {
    if a.history_focus == HistoryFocusPane::FileHistory {
        if a.history_file_history_entries@.len() == 0 {
            seq!["No file history entries"@]
        } else {
            a.history_file_history_entries@.map_values(
                |e: CommitEntry| e.short_hash@ + " "@ + e.summary@ + " ("@ + e.relative_time@ + ")"@,
            )
        }
    } else {
        match a.history_details {
            None => seq!["No changed files"@],
            Some(d) => if d.files@.len() == 0 {
                seq!["No changed files"@]
            } else {
                d.files@.map_values(|f: CommitChangedFile| tree_item(f))
            },
        }
    }
}

fn marked_file_history_section(entries: &Vec<CommitEntry>, sel: usize) -> (res: String)
    ensures
        res@ == join(
            Seq::new(at_most(entries@.len() as int, 18) as nat, |i: int| file_history_line(entries@[i], i, sel as int)),
            "\n"@,
        ),
{
    let n = if entries.len() < 18 {
        entries.len()
    } else {
        18
    };
    let mut lines: Vec<String> = Vec::new();
    let mut i: usize = 0;
    while i < n
        invariant
            i <= n <= entries.len(),
            n == at_most(entries@.len() as int, 18),
            views(lines@) == Seq::new(i as nat, |k: int| file_history_line(entries@[k], k, sel as int)),
        decreases n - i,
    {
        let e = &entries[i];
        let m = if i == sel {
            ">"
        } else {
            " "
        };
        let l = cat3(m, " ", e.short_hash.as_str());
        let l = cat3(l.as_str(), " ", e.summary.as_str());
        let l = cat3(l.as_str(), " (", e.relative_time.as_str());
        let l = l.concat(")");
        let ghost before = views(lines@);
        lines.push(l);
        assert(views(lines@) =~= before.push(l@));
        assert(views(lines@) =~= Seq::new((i + 1) as nat, |k: int| file_history_line(entries@[k], k, sel as int)));
        i = i + 1;
    }
    join_strings(&lines, "\n")
}

fn marked_changed_files_section(files: &Vec<CommitChangedFile>, sel: usize) -> (res: String)
    ensures
        res@ == join(
            Seq::new(at_most(files@.len() as int, 24) as nat, |i: int| changed_file_line(files@[i], i, sel as int)),
            "\n"@,
        ),
{
    let n = if files.len() < 24 {
        files.len()
    } else {
        24
    };
    let mut lines: Vec<String> = Vec::new();
    let mut i: usize = 0;
    while i < n
        invariant
            i <= n <= files.len(),
            n == at_most(files@.len() as int, 24),
            views(lines@) == Seq::new(i as nat, |k: int| changed_file_line(files@[k], k, sel as int)),
        decreases n - i,
    {
        let f = &files[i];
        let m = if i == sel {
            ">"
        } else {
            " "
        };
        let l = cat3(m, " [", f.status.as_str());
        let l = cat3(l.as_str(), "] ", f.path.as_str());
        let ghost before = views(lines@);
        lines.push(l);
        assert(views(lines@) =~= before.push(l@));
        assert(views(lines@) =~= Seq::new((i + 1) as nat, |k: int| changed_file_line(files@[k], k, sel as int)));
        i = i + 1;
    }
    join_strings(&lines, "\n")
}

fn tree_item_exec(f: &CommitChangedFile) -> (res: String)
    ensures
        res@ == tree_item(*f),
{
    let v = crate::text::chars_of(f.path.as_str());
    let mut depth: usize = 0;
    let mut start: usize = 0;
    let mut i: usize = 0;
    while i < v.len()
        invariant
            i <= v.len(),
            v@ == f.path@,
            depth == count_char(v@.take(i as int), '/') + count_char(v@.take(i as int), '\\'),
            depth <= i,
            start <= i,
            after_last_separator(v@.take(i as int)) == v@.subrange(start as int, i as int),
        decreases v.len() - i,
    {
        assert(v@.take(i + 1).drop_last() =~= v@.take(i as int));
        if v[i] == '/' || v[i] == '\\' {
            depth = depth + 1;
            start = i + 1;
            assert(v@.subrange(start as int, i + 1) =~= Seq::<char>::empty());
        } else {
            assert(v@.subrange(start as int, i as int).push(v@[i as int]) =~= v@.subrange(start as int, i + 1));
        }
        i = i + 1;
    }
    assert(v@.take(i as int) =~= v@);
    let mut pad = String::new();
    let mut k: usize = 0;
    while k < depth
        invariant
            k <= depth,
            pad@ == indent(k as nat),
        decreases depth - k,
    {
        pad = pad.concat("  ");
        k = k + 1;
    }
    let name = crate::text::string_of_range(&v, start, v.len());
    let r = cat3("[", f.status.as_str(), "] ");
    let r = r.concat(pad.as_str());
    r.concat(name.as_str())
}

/// What [`App::load_selected_commit_details`] does: `a` before, `b` after, `r` its result.
pub open spec fn load_selected_commit_details_done(a: App, b: App, r: Result<Option<Job>, String>) -> bool {
    &&& (b.history_details_visible == a.history_details_visible)
    &&& (b.history_focus == a.history_focus)
    &&& (a.selected_history >= a.history_entries@.len() ==> only_says(a, b, r, "No commit selected"@))
    &&& (a.selected_history < a.history_entries@.len() ==> ({
            let e = a.history_entries@[a.selected_history as int];
            if a.history_details_for matches Some(f) && f@ == e.hash@ && a.history_details is Some {
                only_says(a, b, r, "Commit details already loaded ("@ + e.short_hash@ + ")"@)
            } else if a.repo_root is None {
                failed_no_repo(a, b, r)
            } else {
                &&& status_set(commit_details_requested(a), b, "Loading commit details "@ + e.short_hash@)
                &&& read_asked(r) matches Some(ReadTarget::CommitDetails { request_id, hash, short_hash })
                &&& request_id == b.history_details_request_seq && hash@ == e.hash@ && short_hash@ == e.short_hash@
            }
        }))
}

/// How a commit is listed: short hash, summary, then author and age.
pub open spec fn commit_label(e: CommitEntry) -> Seq<char> {
    e.short_hash@ + " "@ + e.summary@ + " ("@ + e.author@ + ", "@ + e.relative_time@ + ")"@
}

/// The line that lists the commit `e` in the history.
pub fn history_entry_label(e: &CommitEntry) -> (res: String)
    ensures
        res@ == commit_label(*e),
{
    let r = cat3(e.short_hash.as_str(), " ", e.summary.as_str());
    let r = cat3(r.as_str(), " (", e.author.as_str());
    let r = cat3(r.as_str(), ", ", e.relative_time.as_str());
    let r = r.concat(")");
    r
}

/// The path of the changed file selected in the commit details, if any.
pub open spec fn selected_changed_file(a: App) -> Option<Seq<char>> {
    match a.history_details {
        Some(d) => if a.history_file_tree_selected < d.files@.len() {
            Some(d.files@[a.history_file_tree_selected as int].path@)
        } else {
            None
        },
        None => None,
    }
}

impl App {
    /// Whether the commit details are shown.
    pub fn history_details_visible(&self) -> (res: bool)
        ensures
            res == self.history_details_visible,
    {
        self.history_details_visible
    }

    /// Which list of the history tab has the focus.
    pub fn history_focus(&self) -> (res: HistoryFocusPane)
        ensures
            res == self.history_focus,
    {
        self.history_focus
    }

    /// The path of the changed file selected in the details.
    pub fn selected_history_file_path(&self) -> (res: Option<String>)
        ensures
            opt_string_view(res) == match self.history_details {
                Some(d) => if self.history_file_tree_selected < d.files@.len() {
                    Some(d.files@[self.history_file_tree_selected as int].path@)
                } else {
                    None
                },
                None => None,
            },
    {
        match &self.history_details {
            Some(d) => {
                if self.history_file_tree_selected < d.files.len() {
                    Some(d.files[self.history_file_tree_selected].path.clone())
                } else {
                    None
                }
            },
            None => None,
        }
    }

    /// Shows or hides the commit details; shown, they are read.
    pub fn toggle_history_details(&mut self) -> (res: Result<Option<Job>, String>)
        ensures
            old(self).screen != Screen::HistoryView ==> *final(self) == *old(self) && res == Ok::<Option<Job>, String>(None),
            old(self).screen == Screen::HistoryView && old(self).history_details_visible ==> ({
                &&& status_set(
                    App { history_details_visible: false, history_focus: HistoryFocusPane::Commits, ..*old(self) },
                    *final(self),
                    "History details hidden"@,
                )
                &&& res == Ok::<Option<Job>, String>(None)
            }),
            old(self).screen == Screen::HistoryView && !old(self).history_details_visible ==> ({
                &&& final(self).history_details_visible
                &&& final(self).history_focus == HistoryFocusPane::Commits
                &&& (res is Ok ==> final(self).status_message@
                    == "History details shown ([Left/Right] focus, [h] file history, [Right] open diff)"@)
            }),
    {
        if self.screen != Screen::HistoryView {
            return Ok(None);
        }
        self.history_details_visible = !self.history_details_visible;
        self.history_focus = HistoryFocusPane::Commits;
        if self.history_details_visible {
            let job = self.load_selected_commit_details();
            if job.is_err() {
                return job;
            }
            self.status_message = owned("History details shown ([Left/Right] focus, [h] file history, [Right] open diff)");
            job
        } else {
            self.status_message = owned("History details hidden");
            Ok(None)
        }
    }

    /// Reads the selected commit's details, unless they are the ones loaded.
    pub fn load_selected_commit_details(&mut self) -> (res: Result<Option<Job>, String>)
        ensures
            load_selected_commit_details_done(*old(self), *final(self), res),
    {
        if self.selected_history >= self.history_entries.len() {
            self.status_message = owned("No commit selected");
            return Ok(None);
        }
        let hash = self.history_entries[self.selected_history].hash.clone();
        let short_hash = self.history_entries[self.selected_history].short_hash.clone();
        let loaded = match &self.history_details_for {
            Some(f) => str_eq(f.as_str(), hash.as_str()) && self.history_details.is_some(),
            None => false,
        };
        if loaded {
            self.status_message = cat3("Commit details already loaded (", short_hash.as_str(), ")");
            return Ok(None);
        }
        if self.repo_root.is_none() {
            return Err(owned("No repository is currently open"));
        }
        let request_id = self.history_details_request_seq.saturating_add(1);
        self.history_details_request_seq = request_id;
        self.history_details_inflight = Some(request_id);
        self.status_message = cat("Loading commit details ", short_hash.as_str());
        Ok(Some(read_job(ReadTarget::CommitDetails { request_id, hash, short_hash })))
    }

    /// Moves the focus right: to the changed files, or opens the selected diff.
    pub fn history_focus_right(&mut self) -> (res: Result<Option<Job>, String>)
        ensures
            !old(self).history_details_visible ==> *final(self) == *old(self) && res == Ok::<Option<Job>, String>(None),
            old(self).history_details_visible && old(self).history_focus == HistoryFocusPane::Commits ==> only_says(
                App { history_focus: HistoryFocusPane::ChangedFiles, ..*old(self) },
                *final(self),
                res,
                "History focus: changed files"@,
            ),
    {
        if !self.history_details_visible {
            return Ok(None);
        }
        match self.history_focus {
            HistoryFocusPane::Commits => {
                self.history_focus = HistoryFocusPane::ChangedFiles;
                self.status_message = owned("History focus: changed files");
                Ok(None)
            },
            HistoryFocusPane::ChangedFiles => self.open_selected_history_file_diff(),
            HistoryFocusPane::FileHistory => self.open_selected_history_file_history_diff(),
        }
    }

    /// Moves the focus left: from the file history to the changed files,
    /// from there to the commits.
    pub fn history_focus_left(&mut self)
        ensures
            old(self).history_focus == HistoryFocusPane::Commits ==> *final(self) == *old(self),
            old(self).history_focus == HistoryFocusPane::ChangedFiles ==> file_history_cleared(
                App { history_focus: HistoryFocusPane::Commits, status_message: final(self).status_message, ..*old(self) },
                *final(self),
            ) && final(self).status_message@ == "History focus: commits"@,
            old(self).history_focus == HistoryFocusPane::FileHistory ==> status_set(
                App { history_focus: HistoryFocusPane::ChangedFiles, ..*old(self) },
                *final(self),
                "History focus: changed files"@,
            ),
    {
        match self.history_focus {
            HistoryFocusPane::Commits => {},
            HistoryFocusPane::ChangedFiles => {
                self.history_focus = HistoryFocusPane::Commits;
                self.clear_history_file_history();
                self.status_message = owned("History focus: commits");
            },
            HistoryFocusPane::FileHistory => {
                self.history_focus = HistoryFocusPane::ChangedFiles;
                self.status_message = owned("History focus: changed files");
            },
        }
    }

    /// Reads the history of the changed file selected in the details.
    pub fn open_selected_history_file_history(&mut self) -> (res: Result<Option<Job>, String>)
        ensures
            ({
                let a = *old(self);
                let b = *final(self);
                if !a.history_details_visible || a.history_focus == HistoryFocusPane::Commits {
                    b == a && res == Ok::<Option<Job>, String>(None)
                } else if a.selected_history >= a.history_entries@.len() {
                    only_says(a, b, res, "No commit selected"@)
                } else {
                    match selected_changed_file(a) {
                        None => only_says(a, b, res, "No changed file selected"@),
                        Some(p) => if a.repo_root is None {
                            failed_no_repo(a, b, res)
                        } else {
                            &&& b == (App {
                                history_file_history_for_path: b.history_file_history_for_path,
                                status_message: b.status_message,
                                ..file_history_requested(a)
                            })
                            &&& b.history_file_history_for_path matches Some(q) && q@ == p
                            &&& b.status_message@ == "Loading file history for "@ + p
                            &&& read_asked(res) matches Some(ReadTarget::FileHistory { request_id, hash, path })
                            &&& request_id == b.history_file_history_request_seq
                            &&& hash@ == a.history_entries@[a.selected_history as int].hash@ && path@ == p
                        },
                    }
                }
            }),
    {
        if !self.history_details_visible || self.history_focus == HistoryFocusPane::Commits {
            return Ok(None);
        }
        if self.selected_history >= self.history_entries.len() {
            self.status_message = owned("No commit selected");
            return Ok(None);
        }
        let hash = self.history_entries[self.selected_history].hash.clone();
        let path = match self.selected_history_file_path() {
            None => {
                self.status_message = owned("No changed file selected");
                return Ok(None);
            },
            Some(p) => p,
        };
        if self.repo_root.is_none() {
            return Err(owned("No repository is currently open"));
        }
        let request_id = self.history_file_history_request_seq.saturating_add(1);
        self.history_file_history_request_seq = request_id;
        self.history_file_history_inflight = Some(request_id);
        self.history_file_history_for_path = Some(path.clone());
        self.status_message = cat("Loading file history for ", path.as_str());
        Ok(Some(read_job(ReadTarget::FileHistory { request_id, hash, path })))
    }

    /// Reads the selected changed file's diff in the selected commit.
    pub fn open_selected_history_file_diff(&mut self) -> (res: Result<Option<Job>, String>)
        ensures
            ({
                let a = *old(self);
                let b = *final(self);
                if a.selected_history >= a.history_entries@.len() {
                    only_says(a, b, res, "No commit selected"@)
                } else {
                    let e = a.history_entries@[a.selected_history as int];
                    match selected_changed_file(a) {
                        None => only_says(a, b, res, "No changed file selected"@),
                        Some(p) => if a.repo_root is None {
                            failed_no_repo(a, b, res)
                        } else {
                            &&& b == a
                            &&& read_asked(res) matches Some(ReadTarget::CommitFileDiff { title, hash, path })
                            &&& title@ == "Commit "@ + e.short_hash@ + " :: "@ + p
                            &&& hash@ == e.hash@ && path@ == p
                        },
                    }
                }
            }),
    {
        if self.selected_history >= self.history_entries.len() {
            self.status_message = owned("No commit selected");
            return Ok(None);
        }
        let path = match self.selected_history_file_path() {
            None => {
                self.status_message = owned("No changed file selected");
                return Ok(None);
            },
            Some(p) => p,
        };
        if self.repo_root.is_none() {
            return Err(owned("No repository is currently open"));
        }
        let hash = self.history_entries[self.selected_history].hash.clone();
        let title = cat3("Commit ", self.history_entries[self.selected_history].short_hash.as_str(), " :: ");
        let title = title.concat(path.as_str());
        Ok(Some(read_job(ReadTarget::CommitFileDiff { title, hash, path })))
    }

    /// Reads the selected file-history commit's diff of the file.
    pub fn open_selected_history_file_history_diff(&mut self) -> (res: Result<Option<Job>, String>)
        ensures
            ({
                let a = *old(self);
                let b = *final(self);
                match a.history_file_history_for_path {
                    None => only_says(a, b, res, "No file history loaded"@),
                    Some(p) => if a.history_file_history_selected >= a.history_file_history_entries@.len() {
                        only_says(a, b, res, "No file-history commit selected"@)
                    } else if a.repo_root is None {
                        failed_no_repo(a, b, res)
                    } else {
                        let e = a.history_file_history_entries@[a.history_file_history_selected as int];
                        &&& b == a
                        &&& read_asked(res) matches Some(ReadTarget::CommitFileDiff { title, hash, path })
                        &&& title@ == "File History "@ + e.short_hash@ + " :: "@ + p@
                        &&& hash@ == e.hash@ && path@ == p@
                    },
                }
            }),
    {
        let path = match &self.history_file_history_for_path {
            None => {
                self.status_message = owned("No file history loaded");
                return Ok(None);
            },
            Some(p) => p.clone(),
        };
        if self.history_file_history_selected >= self.history_file_history_entries.len() {
            self.status_message = owned("No file-history commit selected");
            return Ok(None);
        }
        if self.repo_root.is_none() {
            return Err(owned("No repository is currently open"));
        }
        let e = &self.history_file_history_entries[self.history_file_history_selected];
        let hash = e.hash.clone();
        let title = cat3("File History ", e.short_hash.as_str(), " :: ");
        let title = title.concat(path.as_str());
        Ok(Some(read_job(ReadTarget::CommitFileDiff { title, hash, path })))
    }

    /// Checks out the selected commit, detached.
    pub fn checkout_selected_commit(&mut self) -> (res: Result<Option<Job>, String>)
        ensures
            old(self).selected_history >= old(self).history_entries@.len() ==> only_says(*old(self), *final(self), res, "No commit selected"@),
            old(self).selected_history < old(self).history_entries@.len() ==> ({
                let e = old(self).history_entries@[old(self).selected_history as int];
                if old(self).repo_root is None {
                    failed_no_repo(*old(self), *final(self), res)
                } else {
                    &&& status_set(*old(self), *final(self), "Checking out "@ + e.short_hash@)
                    &&& written(res) matches Some(WriteAction::CheckoutDetached { hash, short_hash })
                    &&& hash@ == e.hash@ && short_hash@ == e.short_hash@
                }
            }),
    {
        if self.selected_history >= self.history_entries.len() {
            self.status_message = owned("No commit selected");
            return Ok(None);
        }
        let hash = self.history_entries[self.selected_history].hash.clone();
        let short_hash = self.history_entries[self.selected_history].short_hash.clone();
        if self.repo_root.is_none() {
            return Err(owned("No repository is currently open"));
        }
        self.status_message = cat("Checking out ", short_hash.as_str());
        Ok(Some(write_job(WriteAction::CheckoutDetached { hash, short_hash })))
    }

    /// Cherry-picks the selected commit onto the current branch.
    pub fn cherry_pick_selected_commit(&mut self) -> (res: Result<Option<Job>, String>)
        ensures
            old(self).selected_history >= old(self).history_entries@.len() ==> only_says(*old(self), *final(self), res, "No commit selected"@),
            old(self).selected_history < old(self).history_entries@.len() ==> ({
                let e = old(self).history_entries@[old(self).selected_history as int];
                if old(self).repo_root is None {
                    failed_no_repo(*old(self), *final(self), res)
                } else {
                    &&& status_set(*old(self), *final(self), "Cherry-picking "@ + e.short_hash@)
                    &&& written(res) matches Some(WriteAction::CherryPick { hash, short_hash })
                    &&& hash@ == e.hash@ && short_hash@ == e.short_hash@
                }
            }),
    {
        if self.selected_history >= self.history_entries.len() {
            self.status_message = owned("No commit selected");
            return Ok(None);
        }
        let hash = self.history_entries[self.selected_history].hash.clone();
        let short_hash = self.history_entries[self.selected_history].short_hash.clone();
        if self.repo_root.is_none() {
            return Err(owned("No repository is currently open"));
        }
        self.status_message = cat("Cherry-picking ", short_hash.as_str());
        Ok(Some(write_job(WriteAction::CherryPick { hash, short_hash })))
    }

    /// What the history tab's preview shows.
    pub fn history_preview_text(&self) -> (res: String)
        ensures
            res@ == history_preview(*self),
    {
        if self.selected_history >= self.history_entries.len() {
            return owned("No commits found.\nPress [b] to return.");
        }
        let e = &self.history_entries[self.selected_history];
        if !self.history_details_visible {
            let r = cat3("Commit ", e.short_hash.as_str(), "\n");
            let r = cat3(r.as_str(), e.summary.as_str(), "\n\nAuthor: ");
            let r = cat3(r.as_str(), e.author.as_str(), "\nWhen: ");
            let r = r.concat(e.relative_time.as_str());
            return r.concat("\n\n[Enter] show details | [o] checkout detached | [p] cherry-pick");
        }
        let matches = match &self.history_details_for {
            Some(f) => str_eq(f.as_str(), e.hash.as_str()),
            None => false,
        };
        if !matches {
            return owned("Loading commit details...");
        }
        let d = match &self.history_details {
            None => return owned("No details loaded for selected commit."),
            Some(d) => d,
        };
        let focus = match self.history_focus {
            HistoryFocusPane::Commits => "commits",
            HistoryFocusPane::ChangedFiles => "changed files",
            HistoryFocusPane::FileHistory => "file history",
        };
        let section = if self.history_focus == HistoryFocusPane::FileHistory {
            if self.history_file_history_entries.len() == 0 {
                owned("  (no history entries)")
            } else {
                marked_file_history_section(&self.history_file_history_entries, self.history_file_history_selected)
            }
        } else if d.files.len() == 0 {
            owned("  (no changed files)")
        } else {
            marked_changed_files_section(&d.files, self.history_file_tree_selected)
        };
        let r = cat3("Commit ", e.short_hash.as_str(), "\n\nMetadata\n- Hash: ");
        let r = cat3(r.as_str(), d.hash.as_str(), "\n- Author: ");
        let r = cat3(r.as_str(), d.author_name.as_str(), " <");
        let r = cat3(r.as_str(), d.author_email.as_str(), ">\n- Date: ");
        let r = cat3(r.as_str(), d.authored_at.as_str(), "\n\nMessage\n");
        let r = cat3(r.as_str(), d.subject.as_str(), "\n");
        let r = cat3(r.as_str(), d.body.as_str(), "\n\nFiles (");
        let r = cat3(r.as_str(), decimal_string(d.files.len()).as_str(), ") [focus: ");
        let r = cat3(r.as_str(), focus, "]\n");
        let r = r.concat(section.as_str());
        r.concat("\n\n[Enter] hide details | [Left/Right] focus/open | [h] file history | [o] checkout | [p] cherry-pick")
    }

    /// The loaded commit's hash, author and date.
    pub fn history_metadata_text(&self) -> (res: String)
        ensures
            res@ == match self.history_details {
                None => "No commit details loaded."@,
                Some(d) => "Hash: "@ + d.hash@ + "\nAuthor: "@ + d.author_name@ + " <"@ + d.author_email@ + ">\nDate: "@
                    + d.authored_at@,
            },
    {
        match &self.history_details {
            None => owned("No commit details loaded."),
            Some(d) => {
                let r = cat3("Hash: ", d.hash.as_str(), "\nAuthor: ");
                let r = cat3(r.as_str(), d.author_name.as_str(), " <");
                let r = cat3(r.as_str(), d.author_email.as_str(), ">\nDate: ");
                r.concat(d.authored_at.as_str())
            },
        }
    }

    /// The loaded commit's subject and body.
    pub fn history_message_text(&self) -> (res: String)
        ensures
            res@ == match self.history_details {
                None => "No commit details loaded."@,
                Some(d) => d.subject@ + "\n\n"@ + if d.body@.len() == 0 {
                    "(No body)"@
                } else {
                    d.body@
                },
            },
    {
        match &self.history_details {
            None => owned("No commit details loaded."),
            Some(d) => {
                let body = if d.body.as_str().unicode_len() == 0 {
                    "(No body)"
                } else {
                    d.body.as_str()
                };
                cat3(d.subject.as_str(), "\n\n", body)
            },
        }
    }

    /// The title of the files list.
    pub fn history_files_title(&self) -> (res: String)
        ensures
            res@ == if self.history_focus == HistoryFocusPane::FileHistory {
                "File History ("@ + match self.history_file_history_for_path {
                    Some(p) => p@,
                    None => "<none>"@,
                } + ") [Right open diff, Left back]"@
            } else {
                "Changed Files ("@ + decimal(match self.history_details {
                    Some(d) => d.files@.len(),
                    None => 0,
                }) + ") [h history, Right diff]"@
            },
    {
        if self.history_focus == HistoryFocusPane::FileHistory {
            let p = match &self.history_file_history_for_path {
                Some(p) => p.as_str(),
                None => "<none>",
            };
            return cat3("File History (", p, ") [Right open diff, Left back]");
        }
        let count = match &self.history_details {
            Some(d) => d.files.len(),
            None => 0,
        };
        cat3("Changed Files (", decimal_string(count).as_str(), ") [h history, Right diff]")
    }

    /// The entries of the files list.
    pub fn history_files_items(&self) -> (res: Vec<String>)
        ensures
            views(res@) == history_items(*self),
    {
        if self.history_focus == HistoryFocusPane::FileHistory {
            if self.history_file_history_entries.len() == 0 {
                let v = vec![owned("No file history entries")];
                assert(views(v@) =~= seq!["No file history entries"@]);
                return v;
            }
            let mut items: Vec<String> = Vec::new();
            let mut i: usize = 0;
            while i < self.history_file_history_entries.len()
                invariant
                    i <= self.history_file_history_entries.len(),
                    views(items@) == self.history_file_history_entries@.take(i as int).map_values(
                        |e: CommitEntry| e.short_hash@ + " "@ + e.summary@ + " ("@ + e.relative_time@ + ")"@,
                    ),
                decreases self.history_file_history_entries.len() - i,
            {
                let e = &self.history_file_history_entries[i];
                let l = cat3(e.short_hash.as_str(), " ", e.summary.as_str());
                let l = cat3(l.as_str(), " (", e.relative_time.as_str());
                let l = l.concat(")");
                let ghost before = views(items@);
                items.push(l);
                assert(views(items@) =~= before.push(l@));
                assert(self.history_file_history_entries@.take(i + 1).map_values(
                    |e: CommitEntry| e.short_hash@ + " "@ + e.summary@ + " ("@ + e.relative_time@ + ")"@,
                ) =~= self.history_file_history_entries@.take(i as int).map_values(
                    |e: CommitEntry| e.short_hash@ + " "@ + e.summary@ + " ("@ + e.relative_time@ + ")"@,
                ).push(l@));
                i = i + 1;
            }
            assert(self.history_file_history_entries@.take(i as int) =~= self.history_file_history_entries@);
            return items;
        }
        let d = match &self.history_details {
            None => {
                let v = vec![owned("No changed files")];
                assert(views(v@) =~= seq!["No changed files"@]);
                return v;
            },
            Some(d) => d,
        };
        if d.files.len() == 0 {
            let v = vec![owned("No changed files")];
            assert(views(v@) =~= seq!["No changed files"@]);
            return v;
        }
        let mut items: Vec<String> = Vec::new();
        let mut i: usize = 0;
        while i < d.files.len()
            invariant
                i <= d.files.len(),
                views(items@) == d.files@.take(i as int).map_values(|f: CommitChangedFile| tree_item(f)),
            decreases d.files.len() - i,
        {
            let l = tree_item_exec(&d.files[i]);
            let ghost before = views(items@);
            items.push(l);
            assert(views(items@) =~= before.push(l@));
            assert(d.files@.take(i + 1).map_values(|f: CommitChangedFile| tree_item(f)) =~= d.files@.take(i as int).map_values(
                |f: CommitChangedFile| tree_item(f),
            ).push(l@));
            i = i + 1;
        }
        assert(d.files@.take(i as int) =~= d.files@);
        items
    }

    /// Which entry of the files list is selected, if it has entries.
    pub fn history_files_selected_index(&self) -> (res: Option<usize>)
        ensures
            res == if self.history_focus == HistoryFocusPane::FileHistory {
                if self.history_file_history_entries@.len() == 0 {
                    None
                } else {
                    Some(self.history_file_history_selected)
                }
            } else if (match self.history_details {
                Some(d) => d.files@.len(),
                None => 0,
            }) > 0 {
                Some(self.history_file_tree_selected)
            } else {
                None
            },
    {
        if self.history_focus == HistoryFocusPane::FileHistory {
            if self.history_file_history_entries.len() == 0 {
                None
            } else {
                Some(self.history_file_history_selected)
            }
        } else {
            let count = match &self.history_details {
                Some(d) => d.files.len(),
                None => 0,
            };
            if count > 0 {
                Some(self.history_file_tree_selected)
            } else {
                None
            }
        }
    }
}

} // verus!
