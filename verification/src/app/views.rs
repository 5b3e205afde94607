//! Entering the tabs of a repository, refreshing them, and the picker.
use vstd::prelude::*;

use super::helpers::{display_path, parent_path, path_parent};
use super::jobs::{is_read_job, read_job, After, Job, OpenOrigin, PrThen, ReadTarget};
use super::navigation::{history_cleared, pr_status_cleared};
use super::preview::preview_scheduled;
use super::status_tab::{failed_no_repo, no_repo_message, only_says, status_set};
use super::{App, HistoryFocusPane, InputMode, Screen};
use crate::git::prs::PullRequestFilter;
use crate::text::{cat, opt_string_view, owned};

verus! {

/// The read asked for in an action's result, where it is one with its commands.
pub open spec fn read_asked(r: Result<Option<Job>, String>) -> Option<ReadTarget> {
    match r {
        Ok(Some(j)) => match j {
            Job::Read { target, .. } => if is_read_job(j, target) {
                Some(target)
            } else {
                None
            },
            _ => None,
        },
        _ => None,
    }
}

/// What [`App::open_selected_repo`] does: `a` before, `b` after, `r` its result.
pub open spec fn open_selected_repo_done(a: App, b: App, r: Result<Option<Job>, String>) -> bool {
    &&& (a.selected_repo >= a.registry.repos@.len() ==> only_says(a, b, r, "No repository selected"@))
    &&& (a.selected_repo < a.registry.repos@.len() ==> ({
            &&& b == a
            &&& r matches Ok(Some(Job::OpenRepo { path, origin: OpenOrigin::Picker }))
            &&& path@ == a.registry.repos@[a.selected_repo as int].path@
        }))
}

impl App {
    /// Shows the local branches and reads them.
    pub fn enter_branch_picker(&mut self) -> (res: Result<Option<Job>, String>)
        ensures
            old(self).repo_root is None ==> only_says(*old(self), *final(self), res, "Open a repository before managing branches"@),
            old(self).repo_root is Some ==> ({
                &&& status_set(App { screen: Screen::BranchPicker, ..*old(self) }, *final(self), "Refreshing local branches"@)
                &&& res == Ok::<Option<Job>, String>(Some(Job::LoadBranches { local: true, message: None }))
            }),
    {
        if self.repo_root.is_none() {
            self.status_message = owned("Open a repository before managing branches");
            return Ok(None);
        }
        self.screen = Screen::BranchPicker;
        self.status_message = owned("Refreshing local branches");
        Ok(Some(Job::LoadBranches { local: true, message: None }))
    }

    /// Shows the remote branches and reads them.
    pub fn enter_remote_branch_picker(&mut self) -> (res: Result<Option<Job>, String>)
        ensures
            old(self).repo_root is None ==> only_says(*old(self), *final(self), res, "Open a repository before browsing remote branches"@),
            old(self).repo_root is Some ==> ({
                &&& status_set(App { screen: Screen::RemoteBranchPicker, ..*old(self) }, *final(self), "Refreshing remote branches"@)
                &&& res == Ok::<Option<Job>, String>(Some(Job::LoadBranches { local: false, message: None }))
            }),
    {
        if self.repo_root.is_none() {
            self.status_message = owned("Open a repository before browsing remote branches");
            return Ok(None);
        }
        self.screen = Screen::RemoteBranchPicker;
        self.status_message = owned("Refreshing remote branches");
        Ok(Some(Job::LoadBranches { local: false, message: None }))
    }

    /// Shows the history, details hidden, and reads the commits.
    pub fn enter_history_view(&mut self) -> (res: Result<Option<Job>, String>)
        ensures
            old(self).repo_root is None ==> only_says(*old(self), *final(self), res, "Open a repository before viewing history"@),
            old(self).repo_root is Some ==> ({
                &&& history_cleared(
                    App {
                        screen: Screen::HistoryView,
                        history_details_visible: false,
                        status_message: final(self).status_message,
                        ..*old(self)
                    },
                    *final(self),
                )
                &&& final(self).status_message@ == "History: [Enter] toggle details, [b] back"@
                &&& read_asked(res) == Some(ReadTarget::History { message: None })
            }),
    {
        if self.repo_root.is_none() {
            self.status_message = owned("Open a repository before viewing history");
            return Ok(None);
        }
        self.screen = Screen::HistoryView;
        self.history_details_visible = false;
        self.clear_history_details();
        self.status_message = owned("History: [Enter] toggle details, [b] back");
        Ok(Some(read_job(ReadTarget::History { message: None })))
    }

    /// Shows the incoming/outgoing comparison and reads it.
    pub fn enter_tracking_status_view(&mut self) -> (res: Result<Option<Job>, String>)
        ensures
            old(self).repo_root is None ==> only_says(
                *old(self),
                *final(self),
                res,
                "Open a repository before comparing incoming/outgoing commits"@,
            ),
            old(self).repo_root is Some ==> ({
                &&& status_set(App { screen: Screen::TrackingStatusView, ..*old(self) }, *final(self), "Refreshing incoming/outgoing comparison"@)
                &&& read_asked(res) == Some(ReadTarget::Tracking { message: None })
            }),
    {
        if self.repo_root.is_none() {
            self.status_message = owned("Open a repository before comparing incoming/outgoing commits");
            return Ok(None);
        }
        self.screen = Screen::TrackingStatusView;
        self.status_message = owned("Refreshing incoming/outgoing comparison");
        Ok(Some(read_job(ReadTarget::Tracking { message: None })))
    }

    /// Shows the stash list and reads it.
    pub fn enter_stash_view(&mut self) -> (res: Result<Option<Job>, String>)
        ensures
            old(self).repo_root is None ==> only_says(*old(self), *final(self), res, "Open a repository before managing stash"@),
            old(self).repo_root is Some ==> ({
                &&& status_set(
                    App { screen: Screen::StashView, ..*old(self) },
                    *final(self),
                    "Stash view: [s] stash current changes, [a]/[p]/[d] apply/pop/drop"@,
                )
                &&& read_asked(res) == Some(ReadTarget::Stashes { message: None })
            }),
    {
        if self.repo_root.is_none() {
            self.status_message = owned("Open a repository before managing stash");
            return Ok(None);
        }
        self.screen = Screen::StashView;
        self.status_message = owned("Stash view: [s] stash current changes, [a]/[p]/[d] apply/pop/drop");
        Ok(Some(read_job(ReadTarget::Stashes { message: None })))
    }

    /// Shows the open pull requests and reads them.
    pub fn enter_pull_request_view(&mut self) -> (res: Result<Option<Job>, String>)
        ensures
            old(self).repo_root is None ==> only_says(*old(self), *final(self), res, "Open a repository before viewing pull requests"@),
            old(self).repo_root is Some ==> ({
                &&& *final(self) == pr_status_cleared(
                    App { screen: Screen::PullRequestView, pr_filter: PullRequestFilter::Open, pending_pr_title: None, ..*old(self) },
                )
                &&& res == Ok::<Option<Job>, String>(
                    Some(Job::LoadPullRequests { filter: PullRequestFilter::Open, then: PrThen::Entered }),
                )
            }),
    {
        if self.repo_root.is_none() {
            self.status_message = owned("Open a repository before viewing pull requests");
            return Ok(None);
        }
        self.screen = Screen::PullRequestView;
        self.pr_filter = PullRequestFilter::Open;
        self.pending_pr_title = None;
        self.clear_pr_status_summary();
        Ok(Some(Job::LoadPullRequests { filter: PullRequestFilter::Open, then: PrThen::Entered }))
    }

    /// Switches to workspace tab `tab` (1 to 6).
    pub fn switch_workspace_tab(&mut self, tab: u8) -> (res: Result<Option<Job>, String>)
        ensures
            old(self).repo_root is None ==> only_says(*old(self), *final(self), res, "Open a repository before using workspace tabs"@),
            old(self).repo_root is Some && (tab == 0 || tab > 6) ==> *final(self) == *old(self) && res == Ok::<Option<Job>, String>(None),
            old(self).repo_root is Some && tab == 1 ==> final(self).screen == Screen::RepoView && final(self).status_message@ == "Status tab"@
                && res == Ok::<Option<Job>, String>(None),
            old(self).repo_root is Some && tab == 2 ==> final(self).screen == Screen::BranchPicker
                && res == Ok::<Option<Job>, String>(Some(Job::LoadBranches { local: true, message: None })),
            old(self).repo_root is Some && tab == 3 ==> final(self).screen == Screen::HistoryView
                && read_asked(res) == Some(ReadTarget::History { message: None }),
            old(self).repo_root is Some && tab == 4 ==> final(self).screen == Screen::TrackingStatusView
                && read_asked(res) == Some(ReadTarget::Tracking { message: None }),
            old(self).repo_root is Some && tab == 5 ==> final(self).screen == Screen::StashView
                && read_asked(res) == Some(ReadTarget::Stashes { message: None }),
            old(self).repo_root is Some && tab == 6 ==> final(self).screen == Screen::PullRequestView
                && res == Ok::<Option<Job>, String>(
                Some(Job::LoadPullRequests { filter: PullRequestFilter::Open, then: PrThen::Entered }),
            ),
    {
        if self.repo_root.is_none() {
            self.status_message = owned("Open a repository before using workspace tabs");
            return Ok(None);
        }
        match tab {
            1 => {
                self.return_to_repo_view();
                self.status_message = owned("Status tab");
                Ok(None)
            },
            2 => self.enter_branch_picker(),
            3 => self.enter_history_view(),
            4 => self.enter_tracking_status_view(),
            5 => self.enter_stash_view(),
            6 => self.enter_pull_request_view(),
            _ => Ok(None),
        }
    }

    /// Reads again what the current screen shows.
    pub fn refresh(&mut self) -> (res: Result<Option<Job>, String>)
        ensures
            old(self).screen == Screen::RepoPicker ==> *final(self) == *old(self)
                && res == Ok::<Option<Job>, String>(Some(Job::LoadRegistry)),
            old(self).screen == Screen::RepoBrowser ==> ({
                &&& status_set(*old(self), *final(self), "Browsing "@ + old(self).browser_dir@)
                &&& res matches Ok(Some(Job::ListDirectory { dir }))
                &&& dir@ == old(self).browser_dir@
            }),
            old(self).screen != Screen::RepoPicker && old(self).screen != Screen::RepoBrowser && old(self).repo_root is None
                ==> failed_no_repo(*old(self), *final(self), res),
            old(self).repo_root is Some ==> match old(self).screen {
                Screen::BranchPicker => ({
                    &&& *final(self) == *old(self)
                    &&& res matches Ok(Some(Job::LoadBranches { local: true, message: Some(m) }))
                    &&& m@ == "Refreshed branch list"@
                }),
                Screen::RemoteBranchPicker => ({
                    &&& *final(self) == *old(self)
                    &&& res matches Ok(Some(Job::LoadBranches { local: false, message: Some(m) }))
                    &&& m@ == "Refreshed remote branch list"@
                }),
                Screen::HistoryView => ({
                    &&& *final(self) == *old(self)
                    &&& read_asked(res) matches Some(ReadTarget::History { message: Some(m) })
                    &&& m@ == "Refreshed commit history"@
                }),
                Screen::TrackingStatusView => ({
                    &&& *final(self) == *old(self)
                    &&& read_asked(res) matches Some(ReadTarget::Tracking { message: Some(m) })
                    &&& m@ == "Refreshed incoming/outgoing commit view"@
                }),
                Screen::StashView => ({
                    &&& *final(self) == *old(self)
                    &&& read_asked(res) matches Some(ReadTarget::Stashes { message: Some(m) })
                    &&& m@ == "Refreshed stash list"@
                }),
                Screen::PullRequestView => *final(self) == pr_status_cleared(*old(self)) && res == Ok::<Option<Job>, String>(
                    Some(Job::LoadPullRequests { filter: old(self).pr_filter, then: PrThen::Refreshed }),
                ),
                Screen::RepoView => ({
                    &&& *final(self) == *old(self)
                    &&& res matches Ok(Some(Job::Refresh { message, after: After::Nothing }))
                    &&& message@ == "Refreshed git status"@
                }),
                _ => true,
            },
    {
        match self.screen {
            Screen::RepoPicker => return Ok(Some(Job::LoadRegistry)),
            Screen::RepoBrowser => {
                self.status_message = cat("Browsing ", self.browser_dir.as_str());
                return Ok(Some(Job::ListDirectory { dir: self.browser_dir.clone() }));
            },
            _ => {},
        }
        if self.repo_root.is_none() {
            return Err(owned("No repository is currently open"));
        }
        match self.screen {
            Screen::BranchPicker => Ok(Some(Job::LoadBranches { local: true, message: Some(owned("Refreshed branch list")) })),
            Screen::RemoteBranchPicker => Ok(
                Some(Job::LoadBranches { local: false, message: Some(owned("Refreshed remote branch list")) }),
            ),
            Screen::HistoryView => Ok(Some(read_job(ReadTarget::History { message: Some(owned("Refreshed commit history")) }))),
            Screen::TrackingStatusView => Ok(
                Some(read_job(ReadTarget::Tracking { message: Some(owned("Refreshed incoming/outgoing commit view")) })),
            ),
            Screen::StashView => Ok(Some(read_job(ReadTarget::Stashes { message: Some(owned("Refreshed stash list")) }))),
            Screen::PullRequestView => {
                self.clear_pr_status_summary();
                Ok(Some(Job::LoadPullRequests { filter: self.pr_filter, then: PrThen::Refreshed }))
            },
            _ => Ok(Some(Job::Refresh { message: owned("Refreshed git status"), after: After::Nothing })),
        }
    }

    /// Shows the repository browser in its directory.
    pub fn enter_repo_browser(&mut self) -> (res: Result<Option<Job>, String>)
        ensures
            status_set(App { screen: Screen::RepoBrowser, ..*old(self) }, *final(self), "Browsing "@ + old(self).browser_dir@),
            res matches Ok(Some(Job::ListDirectory { dir })) && dir@ == old(self).browser_dir@,
    {
        self.screen = Screen::RepoBrowser;
        self.status_message = cat("Browsing ", self.browser_dir.as_str());
        Ok(Some(Job::ListDirectory { dir: self.browser_dir.clone() }))
    }

    /// Browses the parent of the current directory.
    pub fn browser_go_parent(&mut self) -> (res: Result<Option<Job>, String>)
        ensures
            old(self).screen != Screen::RepoBrowser ==> *final(self) == *old(self) && res == Ok::<Option<Job>, String>(None),
            old(self).screen == Screen::RepoBrowser ==> match parent_path(old(self).browser_dir@) {
                Some(p) => ({
                    &&& *final(self) == (App { browser_dir: final(self).browser_dir, status_message: final(self).status_message, ..*old(self) })
                    &&& final(self).browser_dir@ == p
                    &&& final(self).status_message@ == "Browsing "@ + p
                    &&& res matches Ok(Some(Job::ListDirectory { dir })) && dir@ == p
                }),
                None => only_says(*old(self), *final(self), res, "Already at filesystem root"@),
            },
    {
        if self.screen != Screen::RepoBrowser {
            return Ok(None);
        }
        match path_parent(self.browser_dir.as_str()) {
            Some(p) => {
                self.status_message = cat("Browsing ", p.as_str());
                self.browser_dir = p.clone();
                Ok(Some(Job::ListDirectory { dir: p }))
            },
            None => {
                self.status_message = owned("Already at filesystem root");
                Ok(None)
            },
        }
    }

    /// Shows or hides the browser's entries whose names start with a dot.
    pub fn toggle_browser_hidden_entries(&mut self) -> (res: Result<Option<Job>, String>)
        ensures
            old(self).screen != Screen::RepoBrowser ==> only_says(
                *old(self),
                *final(self),
                res,
                "Hidden file toggle is available in repo browser only"@,
            ),
            old(self).screen == Screen::RepoBrowser ==> ({
                &&& status_set(
                    App { show_hidden_browser_entries: !old(self).show_hidden_browser_entries, ..*old(self) },
                    *final(self),
                    if !old(self).show_hidden_browser_entries {
                        "Repo browser: showing hidden entries"@
                    } else {
                        "Repo browser: hiding hidden entries"@
                    },
                )
                &&& res matches Ok(Some(Job::ListDirectory { dir })) && dir@ == old(self).browser_dir@
            }),
    {
        if self.screen != Screen::RepoBrowser {
            self.status_message = owned("Hidden file toggle is available in repo browser only");
            return Ok(None);
        }
        self.show_hidden_browser_entries = !self.show_hidden_browser_entries;
        self.status_message = if self.show_hidden_browser_entries {
            owned("Repo browser: showing hidden entries")
        } else {
            owned("Repo browser: hiding hidden entries")
        };
        Ok(Some(Job::ListDirectory { dir: self.browser_dir.clone() }))
    }

    /// Closes the repository and shows the main menu.
    pub fn return_to_picker(&mut self)
        ensures
            final(self).screen == Screen::RepoPicker,
            final(self).repo_root is None,
            final(self).snapshot.unstaged@.len() == 0 && final(self).snapshot.staged@.len() == 0
                && final(self).snapshot.branch@.len() == 0 && final(self).snapshot.tracking is None,
            final(self).snapshot.ahead == 0 && final(self).snapshot.behind == 0,
            *final(self) == (App {
                screen: Screen::RepoPicker,
                repo_root: None,
                snapshot: final(self).snapshot,
                branch_entries: final(self).branch_entries,
                selected_branch: 0,
                remote_branch_entries: final(self).remote_branch_entries,
                selected_remote_branch: 0,
                history_entries: final(self).history_entries,
                selected_history: 0,
                pull_requests: final(self).pull_requests,
                selected_pr: 0,
                pr_filter: PullRequestFilter::Open,
                tracking_summary: None,
                stash_entries: final(self).stash_entries,
                selected_stash: 0,
                stash_details: final(self).stash_details,
                stash_details_for: None,
                stash_details_inflight: None,
                last_fetch_at: None,
                input_mode: InputMode::Inactive,
                input_buffer: final(self).input_buffer,
                input_cursor: 0,
                pending_stash_drop: None,
                pending_discard: None,
                pending_pr_merge: None,
                pending_pr_title: None,
                pending_commit_subject: None,
                history_details: None,
                history_details_for: None,
                history_details_inflight: None,
                history_file_tree_selected: 0,
                history_focus: HistoryFocusPane::Commits,
                history_file_history_entries: final(self).history_file_history_entries,
                history_file_history_selected: 0,
                history_file_history_for_path: None,
                history_file_history_inflight: None,
                pr_status_summary: None,
                pr_status_for: None,
                pr_status_pending_for: None,
                pr_status_refresh_deadline: None,
                repo_preview_key: None,
                repo_preview_refresh_deadline: None,
                repo_preview_text: final(self).repo_preview_text,
                status_message: final(self).status_message,
                ..*old(self)
            }),
            final(self).history_file_history_entries@.len() == 0,
            final(self).branch_entries@.len() == 0 && final(self).remote_branch_entries@.len() == 0,
            final(self).history_entries@.len() == 0 && final(self).pull_requests@.len() == 0,
            final(self).stash_entries@.len() == 0 && final(self).stash_details@.len() == 0,
            final(self).selected_branch == 0 && final(self).selected_remote_branch == 0 && final(self).selected_history == 0,
            final(self).selected_pr == 0 && final(self).selected_stash == 0,
            final(self).pr_filter == PullRequestFilter::Open,
            final(self).tracking_summary is None && final(self).last_fetch_at is None,
            final(self).input_mode == InputMode::Inactive && final(self).input_buffer@.len() == 0 && final(self).input_cursor == 0,
            final(self).pending_stash_drop is None && final(self).pending_discard is None && final(self).pending_pr_merge is None,
            final(self).pending_pr_title is None && final(self).pending_commit_subject is None,
            final(self).history_details is None && final(self).history_details_for is None,
            final(self).history_focus == HistoryFocusPane::Commits,
            final(self).pr_status_summary is None && final(self).pr_status_for is None,
            final(self).pr_status_pending_for is None && final(self).pr_status_refresh_deadline is None,
            final(self).repo_preview_key is None && final(self).repo_preview_refresh_deadline is None,
            final(self).repo_preview_text@ == "No unstaged diff output for selected file."@,
            final(self).status_message@ == "Main menu"@,
            final(self).registry == old(self).registry && final(self).repo_picker_labels == old(self).repo_picker_labels,
            final(self).selected_repo == old(self).selected_repo && final(self).browser_dir == old(self).browser_dir,
            final(self).browser_entries == old(self).browser_entries && final(self).selected_browser == old(self).selected_browser,
            final(self).focus == old(self).focus && final(self).help_visible == old(self).help_visible,
    {
        self.screen = Screen::RepoPicker;
        self.repo_root = None;
        self.snapshot = crate::git::status::RepoSnapshot::empty();
        self.branch_entries = Vec::new();
        self.selected_branch = 0;
        self.remote_branch_entries = Vec::new();
        self.selected_remote_branch = 0;
        self.history_entries = Vec::new();
        self.selected_history = 0;
        self.pull_requests = Vec::new();
        self.selected_pr = 0;
        self.pr_filter = PullRequestFilter::Open;
        self.tracking_summary = None;
        self.stash_entries = Vec::new();
        self.selected_stash = 0;
        self.clear_stash_details();
        self.last_fetch_at = None;
        self.input_mode = InputMode::Inactive;
        self.input_buffer = String::new();
        self.input_cursor = 0;
        self.pending_stash_drop = None;
        self.pending_discard = None;
        self.pending_pr_merge = None;
        self.pending_pr_title = None;
        self.pending_commit_subject = None;
        self.clear_history_details();
        self.clear_pr_status_summary();
        self.repo_preview_key = None;
        self.repo_preview_refresh_deadline = None;
        self.repo_preview_text = owned("No unstaged diff output for selected file.");
        self.status_message = owned("Main menu");
    }

    /// Opens the repository selected in the main menu.
    pub fn open_selected_repo(&mut self) -> (res: Result<Option<Job>, String>)
        ensures
            open_selected_repo_done(*old(self), *final(self), res),
    {
        if self.selected_repo >= self.registry.repos.len() {
            self.status_message = owned("No repository selected");
            return Ok(None);
        }
        Ok(Some(Job::OpenRepo { path: self.registry.repos[self.selected_repo].path.clone(), origin: OpenOrigin::Picker }))
    }

    /// Stops tracking the repository selected in the main menu; the
    /// registry is then saved.
    pub fn remove_selected_repo(&mut self) -> (res: Result<Option<Job>, String>)
        ensures
            old(self).registry.repos@.len() == 0 ==> only_says(*old(self), *final(self), res, "No repositories to remove"@),
            old(self).registry.repos@.len() > 0 && old(self).selected_repo >= old(self).registry.repos@.len() ==> ({
                &&& final(self).registry.paths() == old(self).registry.paths()
                &&& final(self).selected_repo == if old(self).selected_repo > 0 { (old(self).selected_repo - 1) as usize } else { 0 }
                &&& final(self).status_message == old(self).status_message
                &&& res == Ok::<Option<Job>, String>(Some(Job::SaveRegistry))
            }),
            old(self).registry.repos@.len() > 0 && old(self).selected_repo < old(self).registry.repos@.len() ==> ({
                &&& final(self).registry.paths() == old(self).registry.paths().remove(old(self).selected_repo as int)
                &&& final(self).selected_repo == if old(self).selected_repo > 0 { (old(self).selected_repo - 1) as usize } else { 0 }
                &&& final(self).status_message@ == "Removed repository "@ + display_path(
                    old(self).registry.paths()[old(self).selected_repo as int],
                    old(self).windows,
                )
                &&& res == Ok::<Option<Job>, String>(Some(Job::SaveRegistry))
            }),
            final(self).screen == old(self).screen,
            final(self).windows == old(self).windows,
    {
        if self.registry.repos.len() == 0 {
            self.status_message = owned("No repositories to remove");
            return Ok(None);
        }
        let removed = self.registry.remove_index(self.selected_repo);
        self.selected_repo = self.selected_repo.saturating_sub(1);
        match removed {
            Some(repo) => {
                self.status_message = cat(
                    "Removed repository ",
                    super::helpers::display_path_for_ui(repo.path.as_str(), self.windows).as_str(),
                );
            },
            None => {},
        }
        Ok(Some(Job::SaveRegistry))
    }
}

} // verus!
