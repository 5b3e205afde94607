//! Moving through lists, leaving views, and the popups' common keys.
use vstd::prelude::*;

use super::preview::{preview_scheduled, saturating_add};
use super::status_tab::status_set;
use super::{App, FocusPane, HistoryFocusPane, InputMode, Screen};
use crate::text::owned;

verus! {

/// The next position in a list of `len` entries, not past its end.
pub open spec fn next_index(sel: usize, len: int) -> usize {
    if sel + 1 < len - 1 {
        (sel + 1) as usize
    } else {
        (len - 1) as usize
    }
}

/// The previous position, not before the start.
pub open spec fn prev_index(sel: usize) -> usize {
    if sel > 0 {
        (sel - 1) as usize
    } else {
        0
    }
}

/// `b` is `a` without the loaded file history of the history view.
pub open spec fn file_history_cleared(a: App, b: App) -> bool {
    &&& b == (App {
        history_file_history_entries: b.history_file_history_entries,
        history_file_history_selected: 0,
        history_file_history_for_path: None,
        history_file_history_inflight: None,
        ..a
    })
    &&& b.history_file_history_entries@.len() == 0
}

/// `b` is `a` without the loaded commit details (and file history).
pub open spec fn history_cleared(a: App, b: App) -> bool {
    &&& b == (App {
        history_file_history_entries: b.history_file_history_entries,
        history_file_history_selected: 0,
        history_file_history_for_path: None,
        history_file_history_inflight: None,
        history_details: None,
        history_details_for: None,
        history_details_inflight: None,
        history_file_tree_selected: 0,
        history_focus: HistoryFocusPane::Commits,
        ..a
    })
    &&& b.history_file_history_entries@.len() == 0
}

/// `b` is `a` without the loaded stash details.
pub open spec fn stash_cleared(a: App, b: App) -> bool {
    &&& b == (App { stash_details: b.stash_details, stash_details_for: None, stash_details_inflight: None, ..a })
    &&& b.stash_details@.len() == 0
}

/// `a` having asked for a commit's details under the next request number.
pub open spec fn commit_details_requested(a: App) -> App {
    let id = saturating_add(a.history_details_request_seq, 1);
    App { history_details_request_seq: id, history_details_inflight: Some(id), ..a }
}

/// `a` having asked for a file's history under the next request number.
pub open spec fn file_history_requested(a: App) -> App {
    let id = saturating_add(a.history_file_history_request_seq, 1);
    App { history_file_history_request_seq: id, history_file_history_inflight: Some(id), ..a }
}

/// `a` having asked for a stash's details under the next request number.
pub open spec fn stash_details_requested(a: App) -> App {
    let id = saturating_add(a.stash_details_request_seq, 1);
    App { stash_details_request_seq: id, stash_details_inflight: Some(id), ..a }
}

/// `a` without the selected pull request's status.
pub open spec fn pr_status_cleared(a: App) -> App {
    App {
        pr_status_for: None,
        pr_status_summary: None,
        pr_status_pending_for: None,
        pr_status_refresh_deadline: None,
        ..a
    }
}

/// `a` waiting to read the selected pull request's status after a short pause.
pub open spec fn pr_status_scheduled(a: App) -> App {
    if a.selected_pr < a.pull_requests@.len() {
        App {
            pr_status_pending_for: Some(a.pull_requests@[a.selected_pr as int].number),
            pr_status_refresh_deadline: Some(saturating_add(a.now_ms, 220)),
            ..a
        }
    } else {
        pr_status_cleared(a)
    }
}

impl App {
    pub fn clear_history_file_history(&mut self)
        ensures
            file_history_cleared(*old(self), *final(self)),
    {
        self.history_file_history_entries = Vec::new();
        self.history_file_history_selected = 0;
        self.history_file_history_for_path = None;
        self.history_file_history_inflight = None;
    }

    pub fn clear_history_details(&mut self)
        ensures
            history_cleared(*old(self), *final(self)),
    {
        self.history_details = None;
        self.history_details_for = None;
        self.history_details_inflight = None;
        self.history_file_tree_selected = 0;
        self.history_focus = HistoryFocusPane::Commits;
        self.clear_history_file_history();
    }

    pub fn clear_stash_details(&mut self)
        ensures
            stash_cleared(*old(self), *final(self)),
    {
        self.stash_details = String::new();
        self.stash_details_for = None;
        self.stash_details_inflight = None;
    }

    pub fn clear_pr_status_summary(&mut self)
        ensures
            *final(self) == pr_status_cleared(*old(self)),
    {
        self.pr_status_for = None;
        self.pr_status_summary = None;
        self.pr_status_pending_for = None;
        self.pr_status_refresh_deadline = None;
    }

    pub fn schedule_selected_pr_status_refresh(&mut self)
        ensures
            *final(self) == pr_status_scheduled(*old(self)),
    {
        if self.selected_pr < self.pull_requests.len() {
            self.pr_status_pending_for = Some(self.pull_requests[self.selected_pr].number);
            self.pr_status_refresh_deadline = Some(self.now_ms.saturating_add(220));
        } else {
            self.clear_pr_status_summary();
        }
    }

    /// Moves the selection of the current list one entry down.
    #[verifier::rlimit(40)]
    pub fn move_next(&mut self)
        ensures
            match old(self).screen {
                Screen::RepoPicker => *final(self) == (App {
                    selected_repo: if old(self).registry.repos@.len() > 0 {
                        next_index(old(self).selected_repo, old(self).registry.repos@.len() as int)
                    } else {
                        old(self).selected_repo
                    },
                    ..*old(self)
                }),
                Screen::RepoBrowser => *final(self) == (App {
                    selected_browser: if old(self).browser_entries@.len() > 0 {
                        next_index(old(self).selected_browser, old(self).browser_entries@.len() as int)
                    } else {
                        old(self).selected_browser
                    },
                    ..*old(self)
                }),
                Screen::BranchPicker => *final(self) == (App {
                    selected_branch: if old(self).branch_entries@.len() > 0 {
                        next_index(old(self).selected_branch, old(self).branch_entries@.len() as int)
                    } else {
                        old(self).selected_branch
                    },
                    ..*old(self)
                }),
                Screen::RemoteBranchPicker => *final(self) == (App {
                    selected_remote_branch: if old(self).remote_branch_entries@.len() > 0 {
                        next_index(old(self).selected_remote_branch, old(self).remote_branch_entries@.len() as int)
                    } else {
                        old(self).selected_remote_branch
                    },
                    ..*old(self)
                }),
                Screen::HistoryView => if old(self).history_entries@.len() > 0 {
                    history_cleared(
                        App { selected_history: next_index(old(self).selected_history, old(self).history_entries@.len() as int), ..*old(self) },
                        *final(self),
                    )
                } else {
                    *final(self) == *old(self)
                },
                Screen::PullRequestView => if old(self).pull_requests@.len() > 0 {
                    *final(self) == pr_status_scheduled(
                        App { selected_pr: next_index(old(self).selected_pr, old(self).pull_requests@.len() as int), ..*old(self) },
                    )
                } else {
                    *final(self) == *old(self)
                },
                Screen::TrackingStatusView => *final(self) == *old(self),
                Screen::StashView => if old(self).stash_entries@.len() > 0 {
                    stash_cleared(
                        App { selected_stash: next_index(old(self).selected_stash, old(self).stash_entries@.len() as int), ..*old(self) },
                        *final(self),
                    )
                } else {
                    *final(self) == *old(self)
                },
                Screen::RepoView => match old(self).focus {
                    FocusPane::Unstaged => if old(self).snapshot.unstaged@.len() > 0 {
                        preview_scheduled(
                            App {
                                selected_unstaged: next_index(old(self).selected_unstaged, old(self).snapshot.unstaged@.len() as int),
                                repo_preview_key: None,
                                ..*old(self)
                            },
                            *final(self),
                        )
                    } else {
                        *final(self) == *old(self)
                    },
                    FocusPane::Staged => if old(self).snapshot.staged@.len() > 0 {
                        preview_scheduled(
                            App {
                                selected_staged: next_index(old(self).selected_staged, old(self).snapshot.staged@.len() as int),
                                repo_preview_key: None,
                                ..*old(self)
                            },
                            *final(self),
                        )
                    } else {
                        *final(self) == *old(self)
                    },
                },
            },
    {
        match self.screen {
            Screen::RepoPicker => {
                if self.registry.repos.len() > 0 {
                    self.selected_repo = next_exec(self.selected_repo, self.registry.repos.len());
                }
            },
            Screen::RepoBrowser => {
                if self.browser_entries.len() > 0 {
                    self.selected_browser = next_exec(self.selected_browser, self.browser_entries.len());
                }
            },
            Screen::BranchPicker => {
                if self.branch_entries.len() > 0 {
                    self.selected_branch = next_exec(self.selected_branch, self.branch_entries.len());
                }
            },
            Screen::RemoteBranchPicker => {
                if self.remote_branch_entries.len() > 0 {
                    self.selected_remote_branch = next_exec(self.selected_remote_branch, self.remote_branch_entries.len());
                }
            },
            Screen::HistoryView => {
                if self.history_entries.len() > 0 {
                    self.selected_history = next_exec(self.selected_history, self.history_entries.len());
                    self.clear_history_details();
                }
            },
            Screen::PullRequestView => {
                if self.pull_requests.len() > 0 {
                    self.selected_pr = next_exec(self.selected_pr, self.pull_requests.len());
                    self.schedule_selected_pr_status_refresh();
                }
            },
            Screen::TrackingStatusView => {},
            Screen::StashView => {
                if self.stash_entries.len() > 0 {
                    self.selected_stash = next_exec(self.selected_stash, self.stash_entries.len());
                    self.clear_stash_details();
                }
            },
            Screen::RepoView => match self.focus {
                FocusPane::Unstaged => {
                    if self.snapshot.unstaged.len() > 0 {
                        self.selected_unstaged = next_exec(self.selected_unstaged, self.snapshot.unstaged.len());
                        self.repo_preview_key = None;
                        self.schedule_repo_preview_refresh();
                    }
                },
                FocusPane::Staged => {
                    if self.snapshot.staged.len() > 0 {
                        self.selected_staged = next_exec(self.selected_staged, self.snapshot.staged.len());
                        self.repo_preview_key = None;
                        self.schedule_repo_preview_refresh();
                    }
                },
            },
        }
    }

    /// Moves the selection of the current list one entry up.
    #[verifier::rlimit(40)]
    pub fn move_prev(&mut self)
        ensures
            match old(self).screen {
                Screen::RepoPicker => *final(self) == (App { selected_repo: prev_index(old(self).selected_repo), ..*old(self) }),
                Screen::RepoBrowser => *final(self) == (App { selected_browser: prev_index(old(self).selected_browser), ..*old(self) }),
                Screen::BranchPicker => *final(self) == (App { selected_branch: prev_index(old(self).selected_branch), ..*old(self) }),
                Screen::RemoteBranchPicker => *final(self) == (App {
                    selected_remote_branch: prev_index(old(self).selected_remote_branch),
                    ..*old(self)
                }),
                Screen::HistoryView => history_cleared(
                    App { selected_history: prev_index(old(self).selected_history), ..*old(self) },
                    *final(self),
                ),
                Screen::PullRequestView => *final(self) == pr_status_scheduled(
                    App { selected_pr: prev_index(old(self).selected_pr), ..*old(self) },
                ),
                Screen::TrackingStatusView => *final(self) == *old(self),
                Screen::StashView => stash_cleared(
                    App { selected_stash: prev_index(old(self).selected_stash), ..*old(self) },
                    *final(self),
                ),
                Screen::RepoView => match old(self).focus {
                    FocusPane::Unstaged => preview_scheduled(
                        App { selected_unstaged: prev_index(old(self).selected_unstaged), repo_preview_key: None, ..*old(self) },
                        *final(self),
                    ),
                    FocusPane::Staged => preview_scheduled(
                        App { selected_staged: prev_index(old(self).selected_staged), repo_preview_key: None, ..*old(self) },
                        *final(self),
                    ),
                },
            },
    {
        match self.screen {
            Screen::RepoPicker => {
                self.selected_repo = self.selected_repo.saturating_sub(1);
            },
            Screen::RepoBrowser => {
                self.selected_browser = self.selected_browser.saturating_sub(1);
            },
            Screen::BranchPicker => {
                self.selected_branch = self.selected_branch.saturating_sub(1);
            },
            Screen::RemoteBranchPicker => {
                self.selected_remote_branch = self.selected_remote_branch.saturating_sub(1);
            },
            Screen::HistoryView => {
                self.selected_history = self.selected_history.saturating_sub(1);
                self.clear_history_details();
            },
            Screen::PullRequestView => {
                self.selected_pr = self.selected_pr.saturating_sub(1);
                self.schedule_selected_pr_status_refresh();
            },
            Screen::TrackingStatusView => {},
            Screen::StashView => {
                self.selected_stash = self.selected_stash.saturating_sub(1);
                self.clear_stash_details();
            },
            Screen::RepoView => match self.focus {
                FocusPane::Unstaged => {
                    self.selected_unstaged = self.selected_unstaged.saturating_sub(1);
                    self.repo_preview_key = None;
                    self.schedule_repo_preview_refresh();
                },
                FocusPane::Staged => {
                    self.selected_staged = self.selected_staged.saturating_sub(1);
                    self.repo_preview_key = None;
                    self.schedule_repo_preview_refresh();
                },
            },
        }
    }

    /// Leaves any input, pending confirmation and loaded details, and shows
    /// the status tab.
    #[verifier::rlimit(60)]
    pub fn return_to_repo_view(&mut self)
        ensures
            ({
                let mid = App {
                    screen: Screen::RepoView,
                    input_mode: InputMode::Inactive,
                    input_cursor: 0,
                    pending_stash_drop: None,
                    pending_discard: None,
                    pending_pr_merge: None,
                    pending_pr_title: None,
                    pending_commit_subject: None,
                    history_file_history_selected: 0,
                    history_file_history_for_path: None,
                    history_file_history_inflight: None,
                    history_details: None,
                    history_details_for: None,
                    history_details_inflight: None,
                    history_file_tree_selected: 0,
                    history_focus: HistoryFocusPane::Commits,
                    stash_details_for: None,
                    stash_details_inflight: None,
                    pr_status_for: None,
                    pr_status_summary: None,
                    pr_status_pending_for: None,
                    pr_status_refresh_deadline: None,
                    input_buffer: final(self).input_buffer,
                    history_file_history_entries: final(self).history_file_history_entries,
                    stash_details: final(self).stash_details,
                    status_message: final(self).status_message,
                    ..*old(self)
                };
                &&& preview_scheduled(mid, *final(self))
                &&& final(self).input_buffer@.len() == 0
                &&& final(self).history_file_history_entries@.len() == 0
                &&& final(self).stash_details@.len() == 0
                &&& final(self).status_message@ == "Repository view"@
            }),
    {
        self.screen = Screen::RepoView;
        self.input_mode = InputMode::Inactive;
        self.input_buffer = String::new();
        self.input_cursor = 0;
        self.clear_history_details();
        self.clear_stash_details();
        self.clear_pr_status_summary();
        self.pending_stash_drop = None;
        self.pending_discard = None;
        self.pending_pr_merge = None;
        self.pending_pr_title = None;
        self.pending_commit_subject = None;
        self.status_message = owned("Repository view");
        self.schedule_repo_preview_refresh();
    }

    /// Leaves the popup and whatever it was confirming.
    pub fn cancel_input(&mut self)
        ensures
            *final(self) == (App {
                input_mode: InputMode::Inactive,
                input_buffer: final(self).input_buffer,
                input_cursor: 0,
                pending_stash_drop: None,
                pending_discard: None,
                pending_pr_merge: None,
                pending_pr_title: None,
                pending_commit_subject: None,
                status_message: final(self).status_message,
                ..*old(self)
            }),
            final(self).input_buffer@.len() == 0,
            final(self).status_message@ == match old(self).input_mode {
                InputMode::ConfirmStashDrop => "Stash drop cancelled"@,
                InputMode::ConfirmDiscard => "Discard cancelled"@,
                InputMode::ConfirmPullRequestMerge => "PR merge cancelled"@,
                _ => "Input cancelled"@,
            },
    {
        let msg = match self.input_mode {
            InputMode::ConfirmStashDrop => "Stash drop cancelled",
            InputMode::ConfirmDiscard => "Discard cancelled",
            InputMode::ConfirmPullRequestMerge => "PR merge cancelled",
            _ => "Input cancelled",
        };
        self.input_mode = InputMode::Inactive;
        self.input_buffer = String::new();
        self.input_cursor = 0;
        self.pending_stash_drop = None;
        self.pending_discard = None;
        self.pending_pr_merge = None;
        self.pending_pr_title = None;
        self.pending_commit_subject = None;
        self.status_message = owned(msg);
    }

    /// Opens the popup for a repository path.
    pub fn begin_add_repo_input(&mut self)
        ensures
            *final(self) == (App {
                input_mode: InputMode::AddRepoPath,
                input_buffer: final(self).input_buffer,
                input_cursor: 0,
                status_message: final(self).status_message,
                ..*old(self)
            }),
            final(self).input_buffer@.len() == 0,
            final(self).status_message@ == "Enter repository root path containing .git"@,
    {
        self.input_mode = InputMode::AddRepoPath;
        self.input_buffer = String::new();
        self.input_cursor = 0;
        self.status_message = owned("Enter repository root path containing .git");
    }
}

fn next_exec(sel: usize, len: usize) -> (res: usize)
    requires
        len > 0,
    ensures
        res == next_index(sel, len as int),
{
    if sel < len - 1 && sel + 1 < len - 1 {
        sel + 1
    } else {
        len - 1
    }
}

} // verus!
