//! The state of the terminal client and what each user action does to it.
//!
//! Actions that need the outside world (git, the GitHub CLI, the file
//! system, the clock) return a [`jobs::Job`] that names the work; the
//! caller performs it and hands the outcome to the matching `finish_`
//! method, which decides what the outcome means for the state.
use vstd::prelude::*;

use crate::git::branches::{BranchEntry, RemoteBranchEntry};
use crate::git::history::{CommitDetails, CommitEntry, TrackingCommitSummary};
use crate::git::prs::{PullRequestEntry, PullRequestFilter, PullRequestMergeMethod, PullRequestStatusSummary};
use crate::git::stash::StashEntry;
use crate::git::status::{FileEntry, RepoSnapshot};
use crate::repo_registry::RepoRegistry;
use crate::text::{decimal, decimal_string, opt_string_view, owned};

pub mod branches;
pub mod browser;
pub mod control;
pub mod finish;
pub mod helpers;
pub mod history;
pub mod help;
pub mod input;
pub mod jobs;
pub mod keys;
pub mod navigation;
pub mod preview;
pub mod previews;
pub mod pull_requests;
pub mod stash;
pub mod status_tab;
pub mod views;

verus! {

#[derive(Debug, Clone, Copy, PartialEq, Eq, Structural)]
pub enum FocusPane {
    Unstaged,
    Staged,
}

#[derive(Debug, Clone, Copy, PartialEq, Eq, Structural)]
pub enum Screen {
    RepoPicker,
    RepoBrowser,
    BranchPicker,
    RemoteBranchPicker,
    HistoryView,
    PullRequestView,
    TrackingStatusView,
    StashView,
    RepoView,
}

#[derive(Debug, Clone, Copy, PartialEq, Eq, Structural)]
pub enum InputMode {
    Inactive,
    CommitSubject,
    CommitBody,
    AddRepoPath,
    NewBranchName,
    CreatePullRequestTitle,
    CreatePullRequestBody,
    ConfirmStashDrop,
    ConfirmDiscard,
    ConfirmPullRequestMerge,
}

/// Which list of the history view has the focus.
#[derive(Debug, Clone, Copy, PartialEq, Eq, Structural)]
pub enum HistoryFocusPane {
    Commits,
    ChangedFiles,
    FileHistory,
}

/// One entry of the directory shown by the repository browser.
#[derive(Debug, Clone)]
pub struct BrowserEntry {
    pub name: String,
    pub path: String,
    pub is_dir: bool,
    pub is_git_root: bool,
}

/// A discard waiting for confirmation.
#[derive(Debug, Clone)]
pub struct PendingDiscard {
    pub path: String,
    pub is_untracked: bool,
}

/// A pull-request merge waiting for confirmation.
#[derive(Debug, Clone)]
pub struct PendingPullRequestMerge {
    pub number: u64,
    pub title: String,
    pub method: PullRequestMergeMethod,
}

/// A diff shown over the whole screen, scrolled to `scroll`.
#[derive(Debug, Clone)]
pub struct FullscreenDiff {
    pub title: String,
    pub lines: Vec<String>,
    pub scroll: usize,
}

/// The whole state of the client.
pub struct App {
    pub screen: Screen,
    pub input_mode: InputMode,
    pub registry: RepoRegistry,
    pub repo_picker_labels: Vec<String>,
    pub selected_repo: usize,
    pub browser_dir: String,
    pub browser_entries: Vec<BrowserEntry>,
    pub selected_browser: usize,
    pub show_hidden_browser_entries: bool,
    pub branch_entries: Vec<BranchEntry>,
    pub selected_branch: usize,
    pub remote_branch_entries: Vec<RemoteBranchEntry>,
    pub selected_remote_branch: usize,
    pub history_entries: Vec<CommitEntry>,
    pub selected_history: usize,
    pub pull_requests: Vec<PullRequestEntry>,
    pub selected_pr: usize,
    pub pr_filter: PullRequestFilter,
    pub repo_root: Option<String>,
    pub snapshot: RepoSnapshot,
    pub focus: FocusPane,
    pub selected_unstaged: usize,
    pub selected_staged: usize,
    pub status_message: String,
    pub input_buffer: String,
    pub input_cursor: usize,
    pub help_visible: bool,
    pub help_scroll: usize,
    /// When the repository last fetched, in milliseconds since the epoch.
    pub last_fetch_at: Option<u64>,
    pub tracking_summary: Option<TrackingCommitSummary>,
    pub stash_entries: Vec<StashEntry>,
    pub selected_stash: usize,
    pub stash_details: String,
    pub stash_details_for: Option<String>,
    /// The number given to the latest stash details read asked for.
    pub stash_details_request_seq: u64,
    /// The stash details read whose outcome is awaited, by its number.
    pub stash_details_inflight: Option<u64>,
    pub history_details: Option<CommitDetails>,
    pub history_details_for: Option<String>,
    /// The number given to the latest commit details read asked for.
    pub history_details_request_seq: u64,
    /// The commit details read whose outcome is awaited, by its number.
    pub history_details_inflight: Option<u64>,
    pub history_details_visible: bool,
    pub history_focus: HistoryFocusPane,
    pub history_file_tree_selected: usize,
    pub history_file_history_entries: Vec<CommitEntry>,
    pub history_file_history_selected: usize,
    pub history_file_history_for_path: Option<String>,
    /// The number given to the latest file history read asked for.
    pub history_file_history_request_seq: u64,
    /// The file history read whose outcome is awaited, by its number.
    pub history_file_history_inflight: Option<u64>,
    pub pr_status_summary: Option<PullRequestStatusSummary>,
    pub pr_status_for: Option<u64>,
    /// When the selected pull request's status is due, in clock milliseconds.
    pub pr_status_refresh_deadline: Option<u64>,
    pub pr_status_pending_for: Option<u64>,
    pub pending_discard: Option<PendingDiscard>,
    pub pending_pr_merge: Option<PendingPullRequestMerge>,
    pub pending_stash_drop: Option<String>,
    pub pending_pr_title: Option<String>,
    pub pending_commit_subject: Option<String>,
    pub runtime_log_path: Option<String>,
    /// Where the log would go were logging on, or why that is unknown.
    pub default_log_path: Result<String, String>,
    pub repo_preview_key: Option<String>,
    pub repo_preview_text: String,
    /// When the status tab's diff preview is due, in clock milliseconds.
    pub repo_preview_refresh_deadline: Option<u64>,
    pub fullscreen_diff: Option<FullscreenDiff>,
    /// The clock, in milliseconds, as of the last tick.
    pub now_ms: u64,
    /// The home directory, where the browser starts.
    pub home_dir: String,
    /// Whether paths follow Windows conventions.
    pub windows: bool,
}

impl App {
    /// Whether a popup takes the keys.
    pub fn in_input_mode(&self) -> (res: bool)
        ensures
            res == (self.input_mode != InputMode::Inactive),
    {
        self.input_mode != InputMode::Inactive
    }

    /// Whether a repository is open.
    pub fn has_open_repo(&self) -> (res: bool)
        ensures
            res == self.repo_root is Some,
    {
        self.repo_root.is_some()
    }

    pub open spec fn workspace_screen(s: Screen) -> bool {
        match s {
            Screen::RepoPicker | Screen::RepoBrowser => false,
            _ => true,
        }
    }

    /// Whether the screen is one of the tabs of an open repository.
    pub fn is_repo_workspace_screen(&self) -> (res: bool)
        ensures
            res == Self::workspace_screen(self.screen),
    {
        match self.screen {
            Screen::RepoView | Screen::BranchPicker | Screen::RemoteBranchPicker | Screen::HistoryView
            | Screen::PullRequestView | Screen::TrackingStatusView | Screen::StashView => true,
            _ => false,
        }
    }

    pub open spec fn tab_of(s: Screen) -> Option<u8> {
        match s {
            Screen::RepoView => Some(1u8),
            Screen::BranchPicker | Screen::RemoteBranchPicker => Some(2u8),
            Screen::HistoryView => Some(3u8),
            Screen::TrackingStatusView => Some(4u8),
            Screen::StashView => Some(5u8),
            Screen::PullRequestView => Some(6u8),
            _ => None,
        }
    }

    /// The number of the workspace tab the screen belongs to.
    pub fn active_workspace_tab_index(&self) -> (res: Option<u8>)
        ensures
            res == Self::tab_of(self.screen),
    {
        match self.screen {
            Screen::RepoView => Some(1),
            Screen::BranchPicker | Screen::RemoteBranchPicker => Some(2),
            Screen::HistoryView => Some(3),
            Screen::TrackingStatusView => Some(4),
            Screen::StashView => Some(5),
            Screen::PullRequestView => Some(6),
            _ => None,
        }
    }

    pub open spec fn fetch_age_text(last: Option<u64>, now: u64) -> Seq<char> {
        match last {
            None => "Last fetch: never"@,
            Some(at) => if now < at {
                "Last fetch: just now"@
            } else {
                let secs = ((now - at) / 1000) as nat;
                if secs < 60 {
                    "Last fetch: "@ + decimal(secs) + "s ago"@
                } else if secs < 3600 {
                    "Last fetch: "@ + decimal(secs / 60) + "m ago"@
                } else if secs < 86400 {
                    "Last fetch: "@ + decimal(secs / 3600) + "h ago"@
                } else {
                    "Last fetch: "@ + decimal(secs / 86400) + "d ago"@
                }
            },
        }
    }

    /// How long ago the repository fetched, as of `now_ms` (milliseconds
    /// since the epoch); a fetch time after `now_ms` reads as just now.
    pub fn last_fetch_summary(&self, now_ms: u64) -> (res: String)
        ensures
            res@ == Self::fetch_age_text(self.last_fetch_at, now_ms),
    {
        let at = match self.last_fetch_at {
            None => return owned("Last fetch: never"),
            Some(at) => at,
        };
        if now_ms < at {
            return owned("Last fetch: just now");
        }
        let secs: u64 = (now_ms - at) / 1000;
        let (n, unit) = if secs < 60 {
            (secs, "s ago")
        } else if secs < 3600 {
            (secs / 60, "m ago")
        } else if secs < 86400 {
            (secs / 3600, "h ago")
        } else {
            (secs / 86400, "d ago")
        };
        let r = owned("Last fetch: ");
        let r = r.concat(crate::text::decimal_string_u64(n).as_str());
        r.concat(unit)
    }

    /// Shows or hides the help popup; shown, it starts at its top.
    pub fn toggle_help(&mut self)
        ensures
            *final(self) == (App {
                help_visible: !old(self).help_visible,
                help_scroll: if !old(self).help_visible { 0 } else { old(self).help_scroll },
                ..*old(self)
            }),
    {
        self.help_visible = !self.help_visible;
        if self.help_visible {
            self.help_scroll = 0;
        }
    }

    /// Hides the help popup.
    pub fn close_help(&mut self)
        ensures
            *final(self) == (App { help_visible: false, help_scroll: 0, ..*old(self) }),
    {
        self.help_visible = false;
        self.help_scroll = 0;
    }

    /// Remembers where the log is written.
    pub fn set_runtime_log_path(&mut self, path: String)
        ensures
            *final(self) == (App { runtime_log_path: Some(path), ..*old(self) }),
    {
        self.runtime_log_path = Some(path);
    }

    pub open spec fn log_path_text(runtime: Option<Seq<char>>, default: Result<Seq<char>, Seq<char>>, windows: bool) -> Seq<char> {
        match runtime {
            Some(p) => "Log file: "@ + crate::app::helpers::display_path(p, windows),
            None => match default {
                Ok(p) => "Logging is disabled. Launch with --log. Default log path: "@
                    + crate::app::helpers::display_path(p, windows),
                Err(e) => "Logging is disabled. Could not resolve default log path: "@ + e,
            },
        }
    }

    /// Says in the status line where the log is, or would be.
    pub fn show_runtime_log_path_status(&mut self)
        ensures
            *final(self) == (App { status_message: final(self).status_message, ..*old(self) }),
            final(self).status_message@ == Self::log_path_text(
                opt_string_view(old(self).runtime_log_path),
                match old(self).default_log_path {
                    Ok(p) => Ok(p@),
                    Err(e) => Err(e@),
                },
                old(self).windows,
            ),
    {
        let msg = match &self.runtime_log_path {
            Some(p) => crate::text::cat("Log file: ", crate::app::helpers::display_path_for_ui(p.as_str(), self.windows).as_str()),
            None => match &self.default_log_path {
                Ok(p) => crate::text::cat(
                    "Logging is disabled. Launch with --log. Default log path: ",
                    crate::app::helpers::display_path_for_ui(p.as_str(), self.windows).as_str(),
                ),
                Err(e) => crate::text::cat("Logging is disabled. Could not resolve default log path: ", e.as_str()),
            },
        };
        self.status_message = msg;
    }

    /// The path shown for `raw`.
    pub fn format_path_for_ui(&self, raw: &str) -> (res: String)
        ensures
            res@ == crate::app::helpers::display_path(raw@, self.windows),
    {
        crate::app::helpers::display_path_for_ui(raw, self.windows)
    }

    /// The label of the tracked repository at `index`.
    pub fn repo_picker_label(&self, index: usize) -> (res: Option<&str>)
        ensures
            match res {
                Some(l) => index < self.repo_picker_labels@.len() && l@ == self.repo_picker_labels@[index as int]@,
                None => index >= self.repo_picker_labels@.len(),
            },
    {
        if index < self.repo_picker_labels.len() {
            Some(self.repo_picker_labels[index].as_str())
        } else {
            None
        }
    }

    /// Where the input cursor stands, in characters.
    pub fn popup_input_cursor(&self) -> (res: usize)
        ensures
            res == self.input_cursor,
    {
        self.input_cursor
    }

    /// Whether the input takes several lines.
    pub fn input_mode_allows_multiline(&self) -> (res: bool)
        ensures
            res == (self.input_mode == InputMode::CommitBody),
    {
        self.input_mode == InputMode::CommitBody
    }

    pub open spec fn branch_summary_text(&self) -> Seq<char> {
        if self.repo_root is None {
            "No repository opened"@
        } else {
            self.snapshot.branch@ + match self.snapshot.tracking {
                Some(t) => " -> "@ + t@,
                None => Seq::empty(),
            } + if self.snapshot.ahead > 0 || self.snapshot.behind > 0 {
                " [ahead "@ + decimal(self.snapshot.ahead as nat) + ", behind "@ + decimal(self.snapshot.behind as nat)
                    + "]"@
            } else {
                Seq::empty()
            }
        }
    }

    /// The branch, its upstream and how far apart they are.
    pub fn branch_summary(&self) -> (res: String)
        ensures
            res@ == self.branch_summary_text(),
    {
        if self.repo_root.is_none() {
            return owned("No repository opened");
        }
        let mut summary = self.snapshot.branch.clone();
        match &self.snapshot.tracking {
            Some(t) => {
                summary = summary.concat(" -> ");
                summary = summary.concat(t.as_str());
            },
            None => {},
        }
        if self.snapshot.ahead > 0 || self.snapshot.behind > 0 {
            summary = summary.concat(" [ahead ");
            summary = summary.concat(decimal_string(self.snapshot.ahead).as_str());
            summary = summary.concat(", behind ");
            summary = summary.concat(decimal_string(self.snapshot.behind).as_str());
            summary = summary.concat("]");
        }
        summary
    }

    pub open spec fn active_repo_label_text(&self) -> Seq<char> {
        match self.screen {
            Screen::RepoBrowser => crate::app::helpers::display_path(self.browser_dir@, self.windows),
            _ => match self.repo_root {
                Some(p) => crate::app::helpers::display_path(p@, self.windows),
                None => "None"@,
            },
        }
    }

    /// The directory being browsed, or the open repository.
    pub fn active_repo_label(&self) -> (res: String)
        ensures
            res@ == self.active_repo_label_text(),
    {
        match self.screen {
            Screen::RepoBrowser => crate::app::helpers::display_path_for_ui(self.browser_dir.as_str(), self.windows),
            _ => match &self.repo_root {
                Some(p) => crate::app::helpers::display_path_for_ui(p.as_str(), self.windows),
                None => owned("None"),
            },
        }
    }

    pub open spec fn popup_title_text(m: InputMode) -> Seq<char> {
        match m {
            InputMode::CommitSubject => "Commit subject ([Enter] next, [Esc] cancel)"@,
            InputMode::CommitBody => "Commit body ([Enter] newline, [Up/Down] lines, [Ctrl+S]/[F2] submit, [Esc] cancel)"@,
            InputMode::AddRepoPath => "Add repository path ([Enter] submit, [Esc] cancel)"@,
            InputMode::NewBranchName => "New branch name ([Enter] create/switch, [Esc] cancel)"@,
            InputMode::CreatePullRequestTitle => "Create PR: title ([Enter] next, [Esc] cancel)"@,
            InputMode::CreatePullRequestBody => "Create PR: body ([Enter] submit, [Esc] cancel)"@,
            InputMode::ConfirmStashDrop => "Confirm stash drop ([y] yes, [n]/[Esc] no)"@,
            InputMode::ConfirmDiscard => "Confirm discard ([y] yes, [n]/[Esc] no)"@,
            InputMode::ConfirmPullRequestMerge => "Confirm PR merge ([y] yes, [n]/[Esc] no)"@,
            InputMode::Inactive => ""@,
        }
    }

    /// The title of the input popup.
    pub fn popup_title(&self) -> (res: &'static str)
        ensures
            res@ == Self::popup_title_text(self.input_mode),
    {
        match self.input_mode {
            InputMode::CommitSubject => "Commit subject ([Enter] next, [Esc] cancel)",
            InputMode::CommitBody => "Commit body ([Enter] newline, [Up/Down] lines, [Ctrl+S]/[F2] submit, [Esc] cancel)",
            InputMode::AddRepoPath => "Add repository path ([Enter] submit, [Esc] cancel)",
            InputMode::NewBranchName => "New branch name ([Enter] create/switch, [Esc] cancel)",
            InputMode::CreatePullRequestTitle => "Create PR: title ([Enter] next, [Esc] cancel)",
            InputMode::CreatePullRequestBody => "Create PR: body ([Enter] submit, [Esc] cancel)",
            InputMode::ConfirmStashDrop => "Confirm stash drop ([y] yes, [n]/[Esc] no)",
            InputMode::ConfirmDiscard => "Confirm discard ([y] yes, [n]/[Esc] no)",
            InputMode::ConfirmPullRequestMerge => "Confirm PR merge ([y] yes, [n]/[Esc] no)",
            InputMode::Inactive => "",
        }
    }

    pub open spec fn text_input_mode(m: InputMode) -> bool {
        match m {
            InputMode::CommitSubject | InputMode::CommitBody | InputMode::AddRepoPath | InputMode::NewBranchName
            | InputMode::CreatePullRequestTitle | InputMode::CreatePullRequestBody => true,
            _ => false,
        }
    }

    /// The text being typed, where the popup takes text.
    pub fn popup_input_text(&self) -> (res: Option<&str>)
        ensures
            match res {
                Some(t) => Self::text_input_mode(self.input_mode) && t@ == self.input_buffer@,
                None => !Self::text_input_mode(self.input_mode),
            },
    {
        match self.input_mode {
            InputMode::CommitSubject | InputMode::CommitBody | InputMode::AddRepoPath | InputMode::NewBranchName
            | InputMode::CreatePullRequestTitle | InputMode::CreatePullRequestBody => Some(self.input_buffer.as_str()),
            _ => None,
        }
    }

    pub open spec fn popup_prefix_text(&self) -> Option<Seq<char>> {
        match self.input_mode {
            InputMode::CommitBody => Some(
                "Subject: "@ + match self.pending_commit_subject {
                    Some(s) => s@,
                    None => "(missing subject)"@,
                } + "\n\n"@,
            ),
            InputMode::CreatePullRequestBody => Some(
                "Title: "@ + match self.pending_pr_title {
                    Some(s) => s@,
                    None => "(missing title)"@,
                } + "\n\n"@,
            ),
            InputMode::CommitSubject | InputMode::AddRepoPath | InputMode::NewBranchName
            | InputMode::CreatePullRequestTitle => Some(Seq::empty()),
            _ => None,
        }
    }

    /// What the popup shows before the typed text.
    pub fn popup_input_prefix(&self) -> (res: Option<String>)
        ensures
            opt_string_view(res) == self.popup_prefix_text(),
    {
        match self.input_mode {
            InputMode::CommitBody => {
                let subject = match &self.pending_commit_subject {
                    Some(s) => s.as_str(),
                    None => "(missing subject)",
                };
                Some(crate::text::cat3("Subject: ", subject, "\n\n"))
            },
            InputMode::CreatePullRequestBody => {
                let title = match &self.pending_pr_title {
                    Some(s) => s.as_str(),
                    None => "(missing title)",
                };
                Some(crate::text::cat3("Title: ", title, "\n\n"))
            },
            InputMode::CommitSubject | InputMode::AddRepoPath | InputMode::NewBranchName
            | InputMode::CreatePullRequestTitle => Some(String::new()),
            _ => None,
        }
    }

    pub open spec fn popup_body_text(&self) -> Seq<char> {
        match self.input_mode {
            InputMode::ConfirmStashDrop => match self.pending_stash_drop {
                None => "No stash selected to drop."@,
                Some(r) => "Drop stash "@ + r@ + "?\n\nThis action cannot be undone.\n\n[y] confirm    [n]/[Esc] cancel"@,
            },
            InputMode::ConfirmDiscard => match self.pending_discard {
                None => "No file selected for discard."@,
                Some(p) => "Are you sure you want to "@ + (if p.is_untracked {
                    "delete this untracked file"@
                } else {
                    "discard unstaged changes in this file"@
                }) + "?\n\n"@ + p.path@ + "\n\n[y] confirm    [n]/[Esc] cancel"@,
            },
            InputMode::ConfirmPullRequestMerge => match self.pending_pr_merge {
                None => "No pull request selected for merge."@,
                Some(p) => "Merge PR #"@ + decimal(p.number as nat) + " with "@
                    + crate::app::helpers::merge_method_label(p.method) + " strategy?\n\n"@ + p.title@
                    + "\n\n[y] confirm    [n]/[Esc] cancel"@,
            },
            InputMode::CommitBody => match self.pending_commit_subject {
                Some(s) => "Subject: "@ + s@ + "\n\n"@ + self.input_buffer@,
                None => self.input_buffer@,
            },
            InputMode::CreatePullRequestBody => match self.pending_pr_title {
                Some(t) => "Title: "@ + t@ + "\n\n"@ + self.input_buffer@,
                None => self.input_buffer@,
            },
            _ => self.input_buffer@,
        }
    }

    /// The text of the input popup.
    pub fn popup_body(&self) -> (res: String)
        ensures
            res@ == self.popup_body_text(),
    {
        match self.input_mode {
            InputMode::ConfirmStashDrop => match &self.pending_stash_drop {
                None => owned("No stash selected to drop."),
                Some(r) => crate::text::cat3(
                    "Drop stash ",
                    r.as_str(),
                    "?\n\nThis action cannot be undone.\n\n[y] confirm    [n]/[Esc] cancel",
                ),
            },
            InputMode::ConfirmDiscard => match &self.pending_discard {
                None => owned("No file selected for discard."),
                Some(p) => {
                    let action = if p.is_untracked {
                        "delete this untracked file"
                    } else {
                        "discard unstaged changes in this file"
                    };
                    let r = crate::text::cat3("Are you sure you want to ", action, "?\n\n");
                    let r = r.concat(p.path.as_str());
                    r.concat("\n\n[y] confirm    [n]/[Esc] cancel")
                },
            },
            InputMode::ConfirmPullRequestMerge => match &self.pending_pr_merge {
                None => owned("No pull request selected for merge."),
                Some(p) => {
                    let r = owned("Merge PR #");
                    let r = r.concat(crate::text::decimal_string_u64(p.number).as_str());
                    let r = r.concat(" with ");
                    let r = r.concat(crate::app::helpers::pull_request_merge_method_label(p.method));
                    let r = r.concat(" strategy?\n\n");
                    let r = r.concat(p.title.as_str());
                    r.concat("\n\n[y] confirm    [n]/[Esc] cancel")
                },
            },
            InputMode::CommitBody => match &self.pending_commit_subject {
                Some(s) => {
                    let r = crate::text::cat3("Subject: ", s.as_str(), "\n\n");
                    r.concat(self.input_buffer.as_str())
                },
                None => self.input_buffer.clone(),
            },
            InputMode::CreatePullRequestBody => match &self.pending_pr_title {
                Some(t) => {
                    let r = crate::text::cat3("Title: ", t.as_str(), "\n\n");
                    r.concat(self.input_buffer.as_str())
                },
                None => self.input_buffer.clone(),
            },
            _ => self.input_buffer.clone(),
        }
    }
}

} // verus!
