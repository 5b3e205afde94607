//! Starting the client, the passing of time, and the actions that stand
//! for others.
use vstd::prelude::*;

use super::browser::{add_repo_from_input_done, browser_enter_selected_done};
use super::branches::{checkout_selected_remote_branch_done, create_branch_from_input_done, switch_selected_branch_done};
use super::history::load_selected_commit_details_done;
use super::jobs::{is_read_job, read_job, Job, OpenOrigin, ReadTarget};
use super::navigation::{pr_status_cleared, pr_status_scheduled};
use super::preview::{empty_preview_text, preview_key_of};
use super::pull_requests::{
    create_pull_request_body_from_input_done, create_pull_request_title_from_input_done, open_selected_pr_in_browser_done,
};
use super::stash::load_selected_stash_details_done;
use super::status_tab::{
    commit_body_from_input_done, commit_subject_from_input_done, stage_selected_done, unstage_selected_done,
};
use super::views::open_selected_repo_done;
use super::{App, FocusPane, FullscreenDiff, HistoryFocusPane, InputMode, Screen};
use crate::git::prs::PullRequestFilter;
use crate::git::status::RepoSnapshot;
use crate::repo_registry::{paths_of, RepoRegistry};
use crate::text::{cat, opt_string_view, owned, starts_with, starts_with_str, str_eq, views};

verus! {

/// `a` at the clock time `now`, with the selected pull request's status
/// asked for where it is due.
pub open spec fn pr_tick_due(a: App) -> bool {
    &&& a.screen == Screen::PullRequestView
    &&& a.input_mode == InputMode::Inactive
    &&& !a.help_visible
    &&& a.pr_status_refresh_deadline matches Some(d) && a.now_ms >= d
}

pub open spec fn preview_tick_due(a: App) -> bool {
    &&& a.screen == Screen::RepoView
    &&& a.input_mode == InputMode::Inactive
    &&& !a.help_visible
    &&& a.repo_preview_refresh_deadline matches Some(d) && a.now_ms >= d
}

/// A diff shown over the whole screen, scrolled to `s` of `n` lines.
pub open spec fn last_line(n: int) -> int {
    if n > 0 {
        n - 1
    } else {
        0
    }
}

/// The first hunk header after line `from`.
pub open spec fn next_hunk(lines: Seq<Seq<char>>, from: int) -> Option<int>
    decreases lines.len() - from,
{
    if from + 1 >= lines.len() {
        None
    } else if starts_with(lines[from + 1], "@@"@) {
        Some(from + 1)
    } else {
        next_hunk(lines, from + 1)
    }
}

/// The last hunk header before line `from`.
pub open spec fn prev_hunk(lines: Seq<Seq<char>>, from: int) -> Option<int>
    decreases from,
{
    if from <= 0 {
        None
    } else if from - 1 < lines.len() && starts_with(lines[from - 1], "@@"@) {
        Some(from - 1)
    } else {
        prev_hunk(lines, from - 1)
    }
}

/// `b` is `a` with the full-screen diff (if one is shown) scrolled to `pos`.
pub open spec fn diff_scrolled(a: App, b: App, pos: int) -> bool {
    match a.fullscreen_diff {
        None => b == a,
        Some(d) => {
            &&& b == (App { fullscreen_diff: b.fullscreen_diff, ..a })
            &&& b.fullscreen_diff matches Some(e)
            &&& e.title == d.title && e.lines == d.lines
            &&& e.scroll == pos
        },
    }
}

/// The full-screen diff's scroll position and length.
pub open spec fn diff_pos(a: App) -> (int, int) {
    match a.fullscreen_diff {
        None => (0, 0),
        Some(d) => (d.scroll as int, d.lines@.len() as int),
    }
}

impl App {
    /// The client as it starts: the registry given, browsing `home_dir`;
    /// with the work to do first (labels, the home listing, and opening
    /// the only tracked repository where there is just one).
    pub fn new(registry: RepoRegistry, home_dir: String, default_log_path: Result<String, String>, windows: bool, now_ms: u64) -> (res: (
        App,
        Vec<Job>,
    ))
        ensures
            res.0.screen == Screen::RepoPicker,
            res.0.input_mode == InputMode::Inactive,
            res.0.registry == registry,
            res.0.browser_dir == home_dir,
            res.0.home_dir == home_dir,
            res.0.default_log_path == default_log_path,
            res.0.repo_root is None,
            res.0.selected_repo == 0,
            res.0.repo_picker_labels@.len() == 0,
            res.0.browser_entries@.len() == 0 && res.0.selected_browser == 0,
            !res.0.show_hidden_browser_entries,
            res.0.branch_entries@.len() == 0 && res.0.selected_branch == 0,
            res.0.remote_branch_entries@.len() == 0 && res.0.selected_remote_branch == 0,
            res.0.history_entries@.len() == 0 && res.0.selected_history == 0,
            res.0.pull_requests@.len() == 0 && res.0.selected_pr == 0,
            res.0.snapshot.branch@.len() == 0 && res.0.snapshot.tracking is None,
            res.0.snapshot.ahead == 0 && res.0.snapshot.behind == 0,
            res.0.snapshot.unstaged@.len() == 0 && res.0.snapshot.staged@.len() == 0,
            res.0.selected_unstaged == 0 && res.0.selected_staged == 0,
            res.0.input_buffer@.len() == 0 && res.0.input_cursor == 0,
            !res.0.help_visible && res.0.help_scroll == 0,
            res.0.last_fetch_at is None && res.0.tracking_summary is None,
            res.0.stash_entries@.len() == 0 && res.0.selected_stash == 0,
            res.0.stash_details@.len() == 0 && res.0.stash_details_for is None,
            res.0.history_details is None && res.0.history_details_for is None,
            !res.0.history_details_visible && res.0.history_focus == HistoryFocusPane::Commits,
            res.0.history_file_tree_selected == 0,
            res.0.history_file_history_entries@.len() == 0 && res.0.history_file_history_selected == 0,
            res.0.history_file_history_for_path is None,
            res.0.stash_details_request_seq == 0 && res.0.stash_details_inflight is None,
            res.0.history_details_request_seq == 0 && res.0.history_details_inflight is None,
            res.0.history_file_history_request_seq == 0 && res.0.history_file_history_inflight is None,
            res.0.pr_status_summary is None && res.0.pr_status_for is None,
            res.0.pr_status_refresh_deadline is None && res.0.pr_status_pending_for is None,
            res.0.pending_discard is None && res.0.pending_pr_merge is None && res.0.pending_stash_drop is None,
            res.0.pending_pr_title is None && res.0.pending_commit_subject is None,
            res.0.runtime_log_path is None,
            res.0.repo_preview_key is None && res.0.repo_preview_refresh_deadline is None,
            res.0.fullscreen_diff is None,
            res.0.focus == FocusPane::Unstaged,
            res.0.pr_filter == PullRequestFilter::Open,
            res.0.now_ms == now_ms && res.0.windows == windows,
            res.0.repo_preview_text@ == "No unstaged diff output for selected file."@,
            res.0.status_message@ == if registry.repos@.len() == 0 {
                "No repositories added. Press [a] to add a git repo root."@
            } else if registry.repos@.len() == 1 {
                Seq::<char>::empty()
            } else {
                "Select a repository and press [Enter] to open."@
            },
            res.1@.len() == if registry.repos@.len() == 1 { 3int } else { 2int },
            res.1@[0] matches Job::ReadRepoLabels { paths } && views(paths@) == paths_of(registry.repos@),
            res.1@[1] matches Job::ListDirectory { dir } && dir == home_dir,
            registry.repos@.len() == 1 ==> ({
                &&& res.1@[2] matches Job::OpenRepo { path, origin: OpenOrigin::Auto }
                &&& path@ == registry.repos@[0].path@
            }),
    {
        let count = registry.repos.len();
        let status = if count == 0 {
            owned("No repositories added. Press [a] to add a git repo root.")
        } else if count == 1 {
            String::new()
        } else {
            owned("Select a repository and press [Enter] to open.")
        };
        let app = App {
            screen: Screen::RepoPicker,
            input_mode: InputMode::Inactive,
            registry,
            repo_picker_labels: Vec::new(),
            selected_repo: 0,
            browser_dir: home_dir.clone(),
            browser_entries: Vec::new(),
            selected_browser: 0,
            show_hidden_browser_entries: false,
            branch_entries: Vec::new(),
            selected_branch: 0,
            remote_branch_entries: Vec::new(),
            selected_remote_branch: 0,
            history_entries: Vec::new(),
            selected_history: 0,
            pull_requests: Vec::new(),
            selected_pr: 0,
            pr_filter: PullRequestFilter::Open,
            repo_root: None,
            snapshot: RepoSnapshot::empty(),
            focus: FocusPane::Unstaged,
            selected_unstaged: 0,
            selected_staged: 0,
            status_message: status,
            input_buffer: String::new(),
            input_cursor: 0,
            help_visible: false,
            help_scroll: 0,
            last_fetch_at: None,
            tracking_summary: None,
            stash_entries: Vec::new(),
            selected_stash: 0,
            stash_details: String::new(),
            stash_details_for: None,
            stash_details_request_seq: 0,
            stash_details_inflight: None,
            history_details: None,
            history_details_for: None,
            history_details_request_seq: 0,
            history_details_inflight: None,
            history_details_visible: false,
            history_focus: HistoryFocusPane::Commits,
            history_file_tree_selected: 0,
            history_file_history_entries: Vec::new(),
            history_file_history_selected: 0,
            history_file_history_for_path: None,
            history_file_history_request_seq: 0,
            history_file_history_inflight: None,
            pr_status_summary: None,
            pr_status_for: None,
            pr_status_refresh_deadline: None,
            pr_status_pending_for: None,
            pending_discard: None,
            pending_pr_merge: None,
            pending_stash_drop: None,
            pending_pr_title: None,
            pending_commit_subject: None,
            runtime_log_path: None,
            default_log_path,
            repo_preview_key: None,
            repo_preview_text: owned("No unstaged diff output for selected file."),
            repo_preview_refresh_deadline: None,
            fullscreen_diff: None,
            now_ms,
            home_dir,
            windows,
        };
        let mut jobs: Vec<Job> = Vec::new();
        jobs.push(Job::ReadRepoLabels { paths: app.repo_paths() });
        jobs.push(Job::ListDirectory { dir: app.browser_dir.clone() });
        if count == 1 {
            jobs.push(Job::OpenRepo { path: app.registry.repos[0].path.clone(), origin: OpenOrigin::Auto });
        }
        (app, jobs)
    }

    /// Says that an action failed with `message`.
    pub fn report_failure(&mut self, message: &str)
        ensures
            *final(self) == (App { status_message: final(self).status_message, ..*old(self) }),
            final(self).status_message@ == "Error: "@ + message@,
    {
        self.status_message = cat("Error: ", message);
    }

    /// Takes what was typed, as the popup asks.
    pub fn submit_input(&mut self) -> (res: Result<Option<Job>, String>)
        ensures
            match old(self).input_mode {
                InputMode::CommitSubject => commit_subject_from_input_done(*old(self), *final(self), res),
                InputMode::CommitBody => commit_body_from_input_done(*old(self), *final(self), res),
                InputMode::AddRepoPath => add_repo_from_input_done(*old(self), *final(self), res),
                InputMode::NewBranchName => create_branch_from_input_done(*old(self), *final(self), res),
                InputMode::CreatePullRequestTitle => create_pull_request_title_from_input_done(*old(self), *final(self), res),
                InputMode::CreatePullRequestBody => create_pull_request_body_from_input_done(*old(self), *final(self), res),
                _ => *final(self) == *old(self) && res == Ok::<Option<Job>, String>(None),
            },
    {
        match self.input_mode {
            InputMode::CommitSubject => self.commit_subject_from_input(),
            InputMode::CommitBody => self.commit_body_from_input(),
            InputMode::AddRepoPath => self.add_repo_from_input(),
            InputMode::NewBranchName => self.create_branch_from_input(),
            InputMode::CreatePullRequestTitle => self.create_pull_request_title_from_input(),
            InputMode::CreatePullRequestBody => self.create_pull_request_body_from_input(),
            _ => Ok(None),
        }
    }

    /// What Enter does on the current screen.
    pub fn activate_focused_action(&mut self) -> (res: Result<Option<Job>, String>)
        ensures
            match old(self).screen {
                Screen::RepoPicker => open_selected_repo_done(*old(self), *final(self), res),
                Screen::RepoBrowser => browser_enter_selected_done(*old(self), *final(self), res),
                Screen::BranchPicker => switch_selected_branch_done(*old(self), *final(self), res),
                Screen::RemoteBranchPicker => checkout_selected_remote_branch_done(*old(self), *final(self), res),
                Screen::HistoryView => load_selected_commit_details_done(*old(self), *final(self), res),
                Screen::PullRequestView => open_selected_pr_in_browser_done(*old(self), *final(self), res),
                Screen::TrackingStatusView => *final(self) == *old(self) && res == Ok::<Option<Job>, String>(None),
                Screen::StashView => load_selected_stash_details_done(*old(self), *final(self), res),
                Screen::RepoView => match old(self).focus {
                    FocusPane::Unstaged => stage_selected_done(*old(self), *final(self), res),
                    FocusPane::Staged => unstage_selected_done(*old(self), *final(self), res),
                },
            },
    {
        match self.screen {
            Screen::RepoPicker => self.open_selected_repo(),
            Screen::RepoBrowser => self.browser_enter_selected(),
            Screen::BranchPicker => self.switch_selected_branch(),
            Screen::RemoteBranchPicker => self.checkout_selected_remote_branch(),
            Screen::HistoryView => self.load_selected_commit_details(),
            Screen::PullRequestView => self.open_selected_pr_in_browser(),
            Screen::TrackingStatusView => Ok(None),
            Screen::StashView => self.load_selected_stash_details(),
            Screen::RepoView => match self.focus {
                FocusPane::Unstaged => self.stage_selected(),
                FocusPane::Staged => self.unstage_selected(),
            },
        }
    }

    /// Lets the clock reach `now_ms`: a pull request status or a diff
    /// preview that has become due is asked for.
    #[verifier::rlimit(60)]
    pub fn tick(&mut self, now_ms: u64) -> (res: Option<Job>)
        ensures
            ({
                let a = App { now_ms, ..*old(self) };
                if pr_tick_due(a) {
                    match a.pr_status_pending_for {
                        None => *final(self) == (App { pr_status_refresh_deadline: None, ..a }) && res is None,
                        Some(e) => if a.selected_pr < a.pull_requests@.len() && a.pull_requests@[a.selected_pr as int].number == e {
                            if a.repo_root is Some {
                                *final(self) == (App { pr_status_pending_for: None, pr_status_refresh_deadline: None, ..a })
                                    && res == Some(Job::LoadPrStatus { number: e })
                            } else {
                                *final(self) == pr_status_cleared(a) && res is None
                            }
                        } else {
                            *final(self) == pr_status_scheduled(a) && res is None
                        },
                    }
                } else if preview_tick_due(a) {
                    let b = App { repo_preview_refresh_deadline: None, ..a };
                    if opt_string_view(b.repo_preview_key) == preview_key_of(b) {
                        *final(self) == b && res is None
                    } else if preview_key_of(b) is None {
                        &&& *final(self) == (App { repo_preview_text: final(self).repo_preview_text, repo_preview_key: None, ..b })
                        &&& final(self).repo_preview_text@ == empty_preview_text(b.focus)
                        &&& res is None
                    } else {
                        &&& *final(self) == b
                        &&& res matches Some(j)
                        &&& j matches Job::Read { target: ReadTarget::Diff { key, path, staged }, .. }
                        &&& is_read_job(j, ReadTarget::Diff { key, path, staged })
                        &&& Some(key@) == preview_key_of(b)
                        &&& staged == (b.focus == FocusPane::Staged)
                        &&& path@ == if staged {
                            b.snapshot.staged@[b.selected_staged as int].path@
                        } else {
                            b.snapshot.unstaged@[b.selected_unstaged as int].path@
                        }
                    }
                } else {
                    *final(self) == a && res is None
                }
            }),
    {
        self.now_ms = now_ms;
        let idle = self.input_mode == InputMode::Inactive && !self.help_visible;
        if self.screen == Screen::PullRequestView && idle {
            let due = match self.pr_status_refresh_deadline {
                Some(d) => now_ms >= d,
                None => false,
            };
            if due {
                {
                    match self.pr_status_pending_for {
                        None => {
                            self.pr_status_refresh_deadline = None;
                            return None;
                        },
                        Some(expected) => {
                            let current = self.selected_pr < self.pull_requests.len()
                                && self.pull_requests[self.selected_pr].number == expected;
                            if !current {
                                self.schedule_selected_pr_status_refresh();
                                return None;
                            }
                            if self.repo_root.is_none() {
                                self.clear_pr_status_summary();
                                return None;
                            }
                            self.pr_status_pending_for = None;
                            self.pr_status_refresh_deadline = None;
                            return Some(Job::LoadPrStatus { number: expected });
                        },
                    }
                }
            }
            return None;
        }
        if self.screen == Screen::RepoView && idle {
            let due = match self.repo_preview_refresh_deadline {
                Some(d) => now_ms >= d,
                None => false,
            };
            if due {
                {
                    self.repo_preview_refresh_deadline = None;
                    let key = self.current_repo_preview_key();
                    let same = match (&self.repo_preview_key, &key) {
                        (Some(a), Some(b)) => str_eq(a.as_str(), b.as_str()),
                        (None, None) => true,
                        _ => false,
                    };
                    if same {
                        return None;
                    }
                    match key {
                        None => {
                            self.repo_preview_text = match self.focus {
                                FocusPane::Unstaged => owned("No unstaged diff output for selected file."),
                                FocusPane::Staged => owned("No staged diff output for selected file."),
                            };
                            self.repo_preview_key = None;
                            return None;
                        },
                        Some(k) => {
                            let staged = self.focus == FocusPane::Staged;
                            let path = if staged {
                                self.snapshot.staged[self.selected_staged].path.clone()
                            } else {
                                self.snapshot.unstaged[self.selected_unstaged].path.clone()
                            };
                            return Some(read_job(ReadTarget::Diff { key: k, path, staged }));
                        },
                    }
                }
            }
        }
        None
    }

    /// Whether a diff is shown over the whole screen.
    pub fn is_fullscreen_diff_visible(&self) -> (res: bool)
        ensures
            res == self.fullscreen_diff is Some,
    {
        self.fullscreen_diff.is_some()
    }

    /// Stops showing the full-screen diff.
    pub fn close_fullscreen_diff(&mut self)
        ensures
            *final(self) == (App { fullscreen_diff: None, ..*old(self) }),
    {
        self.fullscreen_diff = None;
    }

    fn scroll_diff_to(&mut self, pos: usize)
        ensures
            match old(self).fullscreen_diff {
                None => *final(self) == *old(self),
                Some(d) => {
                    &&& *final(self) == (App { fullscreen_diff: final(self).fullscreen_diff, ..*old(self) })
                    &&& final(self).fullscreen_diff matches Some(e)
                    &&& e.title == d.title && e.lines == d.lines && e.scroll == pos
                },
            },
    {
        match self.fullscreen_diff.take() {
            None => {},
            Some(d) => {
                self.fullscreen_diff = Some(FullscreenDiff { title: d.title, lines: d.lines, scroll: pos });
            },
        }
    }

    fn diff_scroll(&self) -> (res: (usize, usize))
        ensures
            match self.fullscreen_diff {
                None => res == (0usize, 0usize),
                Some(d) => res.0 == d.scroll && res.1 == d.lines@.len(),
            },
    {
        match &self.fullscreen_diff {
            None => (0, 0),
            Some(d) => (d.scroll, d.lines.len()),
        }
    }

    /// Scrolls the full-screen diff down `amount` lines, not past its last.
    pub fn fullscreen_diff_page_down(&mut self, amount: usize)
        ensures
            diff_scrolled(*old(self), *final(self), ({
                let (s, n) = diff_pos(*old(self));
                if s + amount < last_line(n) { s + amount } else { last_line(n) }
            })),
    {
        let (s, n) = self.diff_scroll();
        let last = if n > 0 {
            n - 1
        } else {
            0
        };
        let next = if s < last && amount < last - s {
            s + amount
        } else {
            last
        };
        self.scroll_diff_to(next);
    }

    /// Scrolls the full-screen diff up `amount` lines, not past its first.
    pub fn fullscreen_diff_page_up(&mut self, amount: usize)
        ensures
            diff_scrolled(*old(self), *final(self), ({
                let (s, n) = diff_pos(*old(self));
                if s > amount { s - amount } else { 0 }
            })),
    {
        let (s, _n) = self.diff_scroll();
        let next = if s > amount {
            s - amount
        } else {
            0
        };
        self.scroll_diff_to(next);
    }

    /// Scrolls the full-screen diff down one line.
    pub fn fullscreen_diff_move_down(&mut self)
        ensures
            diff_scrolled(*old(self), *final(self), ({
                let (s, n) = diff_pos(*old(self));
                if s + 1 < last_line(n) { s + 1 } else { last_line(n) }
            })),
    {
        self.fullscreen_diff_page_down(1);
    }

    /// Scrolls the full-screen diff up one line.
    pub fn fullscreen_diff_move_up(&mut self)
        ensures
            diff_scrolled(*old(self), *final(self), ({
                let (s, n) = diff_pos(*old(self));
                if s > 1 { s - 1 } else { 0 }
            })),
    {
        self.fullscreen_diff_page_up(1);
    }

    /// Scrolls to the first line of the full-screen diff.
    pub fn fullscreen_diff_home(&mut self)
        ensures
            diff_scrolled(*old(self), *final(self), 0),
    {
        self.scroll_diff_to(0);
    }

    /// Scrolls to the last line of the full-screen diff.
    pub fn fullscreen_diff_end(&mut self)
        ensures
            diff_scrolled(*old(self), *final(self), last_line(diff_pos(*old(self)).1)),
    {
        let (_s, n) = self.diff_scroll();
        self.scroll_diff_to(if n > 0 {
            n - 1
        } else {
            0
        });
    }

    /// Scrolls to the next hunk header (`@@`) below the top line, if any.
    pub fn fullscreen_diff_next_hunk(&mut self)
        ensures
            match old(self).fullscreen_diff {
                None => *final(self) == *old(self),
                Some(d) => match next_hunk(views(d.lines@), d.scroll as int) {
                    None => *final(self) == *old(self),
                    Some(i) => diff_scrolled(*old(self), *final(self), i),
                },
            },
    {
        let found = match &self.fullscreen_diff {
            None => None,
            Some(d) => next_hunk_exec(&d.lines, d.scroll),
        };
        match found {
            Some(i) => self.scroll_diff_to(i),
            None => {},
        }
    }

    /// Scrolls to the previous hunk header above the top line, if any.
    pub fn fullscreen_diff_prev_hunk(&mut self)
        ensures
            match old(self).fullscreen_diff {
                None => *final(self) == *old(self),
                Some(d) => match prev_hunk(views(d.lines@), d.scroll as int) {
                    None => *final(self) == *old(self),
                    Some(i) => diff_scrolled(*old(self), *final(self), i),
                },
            },
    {
        let found = match &self.fullscreen_diff {
            None => None,
            Some(d) => prev_hunk_exec(&d.lines, d.scroll),
        };
        match found {
            Some(i) => self.scroll_diff_to(i),
            None => {},
        }
    }
}

fn next_hunk_exec(lines: &Vec<String>, from: usize) -> (res: Option<usize>)
    ensures
        match res {
            Some(i) => next_hunk(views(lines@), from as int) == Some(i as int),
            None => next_hunk(views(lines@), from as int) is None,
        },
{
    let ghost lv = views(lines@);
    let mut i = from;
    while i < lines.len() && i + 1 < lines.len()
        invariant
            from <= i,
            lv == views(lines@),
            next_hunk(lv, from as int) == next_hunk(lv, i as int),
        decreases lines.len() - i,
    {
        assert(lv[i + 1] == lines@[i + 1]@);
        if starts_with_str(lines[i + 1].as_str(), "@@") {
            return Some(i + 1);
        }
        i = i + 1;
    }
    None
}

fn prev_hunk_exec(lines: &Vec<String>, from: usize) -> (res: Option<usize>)
    ensures
        match res {
            Some(i) => prev_hunk(views(lines@), from as int) == Some(i as int),
            None => prev_hunk(views(lines@), from as int) is None,
        },
{
    let ghost lv = views(lines@);
    let mut i = from;
    while i > 0
        invariant
            i <= from,
            lv == views(lines@),
            prev_hunk(lv, from as int) == prev_hunk(lv, i as int),
        decreases i,
    {
        if i - 1 < lines.len() {
            assert(lv[i - 1] == lines@[i - 1]@);
            if starts_with_str(lines[i - 1].as_str(), "@@") {
                return Some(i - 1);
            }
        }
        i = i - 1;
    }
    None
}

} // verus!
