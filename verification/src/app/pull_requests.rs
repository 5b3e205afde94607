//! The pull request tab.
use vstd::prelude::*;

use super::jobs::{create_pr_job, write_job, Job, PrThen, WriteAction};
use super::navigation::pr_status_cleared;
use super::helpers::{format_gh_error_for_status, gh_error_text};
use super::status_tab::{failed_no_repo, no_repo_message, only_says, status_set, written};
use super::{App, InputMode, PendingPullRequestMerge, Screen};
use crate::git::commands::{commands_view, gh};
use crate::git::prs::{PullRequestFilter, PullRequestMergeMethod};
use crate::text::{owned, trim, trimmed};

verus! {

/// The filter after `f`: open, draft, merged, then open again.
pub open spec fn next_filter(f: PullRequestFilter) -> PullRequestFilter {
    match f {
        PullRequestFilter::Open => PullRequestFilter::Draft,
        PullRequestFilter::Draft => PullRequestFilter::Merged,
        PullRequestFilter::Merged => PullRequestFilter::Open,
    }
}

pub open spec fn filter_label(f: PullRequestFilter) -> Seq<char> {
    match f {
        PullRequestFilter::Open => "open"@,
        PullRequestFilter::Draft => "draft"@,
        PullRequestFilter::Merged => "merged"@,
    }
}

/// What [`App::open_selected_pr_in_browser`] does: `a` before, `b` after, `r` its result.
pub open spec fn open_selected_pr_in_browser_done(a: App, b: App, r: Result<Option<Job>, String>) -> bool {
    &&& (a.selected_pr >= a.pull_requests@.len() ==> only_says(a, b, r, "No pull request selected"@))
    &&& (a.selected_pr < a.pull_requests@.len() && a.repo_root is None ==> failed_no_repo(a, b, r))
    &&& (a.selected_pr < a.pull_requests@.len() && a.repo_root is Some ==> b == a
            && written(r) == Some(WriteAction::OpenPr { number: a.pull_requests@[a.selected_pr as int].number }))
}

/// What [`App::create_pull_request_title_from_input`] does: `a` before, `b` after, `r` its result.
pub open spec fn create_pull_request_title_from_input_done(a: App, b: App, r: Result<Option<Job>, String>) -> bool {
    &&& (r == Ok::<Option<Job>, String>(None))
    &&& (trim(a.input_buffer@).len() == 0 ==> status_set(a, b, "PR title cannot be empty"@))
    &&& (trim(a.input_buffer@).len() > 0 ==> ({
            &&& b == (App {
                pending_pr_title: b.pending_pr_title,
                input_mode: InputMode::CreatePullRequestBody,
                input_buffer: b.input_buffer,
                input_cursor: 0,
                status_message: b.status_message,
                ..a
            })
            &&& b.pending_pr_title matches Some(t)
            &&& t@ == trim(a.input_buffer@)
            &&& b.input_buffer@.len() == 0
            &&& b.status_message@ == "Enter PR body (optional), then press [Enter]"@
        }))
}

/// What [`App::create_pull_request_body_from_input`] does: `a` before, `b` after, `r` its result.
pub open spec fn create_pull_request_body_from_input_done(a: App, b: App, r: Result<Option<Job>, String>) -> bool {
    &&& (a.pending_pr_title is None ==> only_says(
            App { input_mode: InputMode::Inactive, input_buffer: b.input_buffer, input_cursor: 0, ..a },
            b,
            r,
            "PR title is missing; start PR creation again"@,
        ) && b.input_buffer@.len() == 0)
    &&& (a.pending_pr_title is Some && a.repo_root is None ==> failed_no_repo(
            App {
                pending_pr_title: None,
                input_mode: InputMode::Inactive,
                input_buffer: b.input_buffer,
                input_cursor: 0,
                ..a
            },
            b,
            r,
        ) && b.input_buffer@.len() == 0)
    &&& (a.repo_root is Some ==> match a.pending_pr_title {
            Some(t) => {
                &&& b == (App {
                    pending_pr_title: None,
                    input_mode: InputMode::Inactive,
                    input_buffer: b.input_buffer,
                    input_cursor: 0,
                    ..a
                })
                &&& b.input_buffer@.len() == 0
                &&& r matches Ok(Some(Job::Write { commands, action: WriteAction::CreatePr }))
                &&& commands_view(commands@) == seq![
                    gh(seq!["pr"@, "create"@, "--title"@, t@, "--body"@, trim(a.input_buffer@)]),
                ]
            },
            None => true,
        })
}

impl App {
    /// How the current filter is named.
    pub fn pull_request_filter_label(&self) -> (res: &'static str)
        ensures
            res@ == filter_label(self.pr_filter),
    {
        match self.pr_filter {
            PullRequestFilter::Open => "open",
            PullRequestFilter::Draft => "draft",
            PullRequestFilter::Merged => "merged",
        }
    }

    /// Moves to the next filter and reads the pull requests again.
    pub fn cycle_pull_request_filter(&mut self) -> (res: Result<Option<Job>, String>)
        ensures
            old(self).screen != Screen::PullRequestView ==> only_says(*old(self), *final(self), res, "Open pull request view first"@),
            old(self).screen == Screen::PullRequestView && old(self).repo_root is None ==> only_says(
                App { pr_filter: next_filter(old(self).pr_filter), ..*old(self) },
                *final(self),
                res,
                gh_error_text(no_repo_message()),
            ),
            old(self).screen == Screen::PullRequestView && old(self).repo_root is Some ==> ({
                &&& *final(self) == pr_status_cleared(App { pr_filter: next_filter(old(self).pr_filter), ..*old(self) })
                &&& res == Ok::<Option<Job>, String>(
                    Some(Job::LoadPullRequests { filter: next_filter(old(self).pr_filter), then: PrThen::Filtered }),
                )
            }),
    {
        if self.screen != Screen::PullRequestView {
            self.status_message = owned("Open pull request view first");
            return Ok(None);
        }
        self.pr_filter = match self.pr_filter {
            PullRequestFilter::Open => PullRequestFilter::Draft,
            PullRequestFilter::Draft => PullRequestFilter::Merged,
            PullRequestFilter::Merged => PullRequestFilter::Open,
        };
        if self.repo_root.is_none() {
            self.status_message = format_gh_error_for_status("No repository is currently open");
            return Ok(None);
        }
        self.clear_pr_status_summary();
        Ok(Some(Job::LoadPullRequests { filter: self.pr_filter, then: PrThen::Filtered }))
    }

    /// Opens the popup for a new pull request's title.
    pub fn begin_create_pull_request_input(&mut self)
        ensures
            old(self).screen != Screen::PullRequestView ==> status_set(*old(self), *final(self), "Open pull request view first"@),
            old(self).screen == Screen::PullRequestView ==> ({
                &&& *final(self) == (App {
                    pending_pr_title: None,
                    input_mode: InputMode::CreatePullRequestTitle,
                    input_buffer: final(self).input_buffer,
                    input_cursor: 0,
                    status_message: final(self).status_message,
                    ..*old(self)
                })
                &&& final(self).input_buffer@.len() == 0
                &&& final(self).status_message@ == "Enter PR title and press [Enter]"@
            }),
    {
        if self.screen != Screen::PullRequestView {
            self.status_message = owned("Open pull request view first");
            return;
        }
        self.pending_pr_title = None;
        self.input_mode = InputMode::CreatePullRequestTitle;
        self.input_buffer = String::new();
        self.input_cursor = 0;
        self.status_message = owned("Enter PR title and press [Enter]");
    }

    /// Opens the selected pull request in the web browser.
    pub fn open_selected_pr_in_browser(&mut self) -> (res: Result<Option<Job>, String>)
        ensures
            open_selected_pr_in_browser_done(*old(self), *final(self), res),
    {
        if self.selected_pr >= self.pull_requests.len() {
            self.status_message = owned("No pull request selected");
            return Ok(None);
        }
        let number = self.pull_requests[self.selected_pr].number;
        if self.repo_root.is_none() {
            return Err(owned("No repository is currently open"));
        }
        Ok(Some(write_job(WriteAction::OpenPr { number })))
    }

    /// Checks out the selected pull request's branch.
    pub fn checkout_selected_pr(&mut self) -> (res: Result<Option<Job>, String>)
        ensures
            old(self).selected_pr >= old(self).pull_requests@.len() ==> only_says(*old(self), *final(self), res, "No pull request selected"@),
            old(self).selected_pr < old(self).pull_requests@.len() && old(self).repo_root is None ==> failed_no_repo(*old(self), *final(self), res),
            old(self).selected_pr < old(self).pull_requests@.len() && old(self).repo_root is Some ==> *final(self) == *old(self)
                && written(res) == Some(WriteAction::CheckoutPr { number: old(self).pull_requests@[old(self).selected_pr as int].number }),
    {
        if self.selected_pr >= self.pull_requests.len() {
            self.status_message = owned("No pull request selected");
            return Ok(None);
        }
        let number = self.pull_requests[self.selected_pr].number;
        if self.repo_root.is_none() {
            return Err(owned("No repository is currently open"));
        }
        Ok(Some(write_job(WriteAction::CheckoutPr { number })))
    }

    /// Asks to confirm merging the selected pull request with `method`.
    pub fn begin_merge_selected_pr(&mut self, method: PullRequestMergeMethod) -> (res: Result<Option<Job>, String>)
        ensures
            res == Ok::<Option<Job>, String>(None),
            old(self).screen != Screen::PullRequestView ==> status_set(*old(self), *final(self), "Open pull request view first"@),
            old(self).screen == Screen::PullRequestView && old(self).selected_pr >= old(self).pull_requests@.len() ==> status_set(
                *old(self),
                *final(self),
                "No pull request selected"@,
            ),
            old(self).screen == Screen::PullRequestView && old(self).selected_pr < old(self).pull_requests@.len() ==> ({
                let pr = old(self).pull_requests@[old(self).selected_pr as int];
                &&& *final(self) == (App {
                    pending_pr_merge: final(self).pending_pr_merge,
                    input_mode: InputMode::ConfirmPullRequestMerge,
                    status_message: final(self).status_message,
                    ..*old(self)
                })
                &&& final(self).pending_pr_merge matches Some(p)
                &&& p.number == pr.number && p.title@ == pr.title@ && p.method == method
                &&& final(self).status_message@ == "Confirm PR merge: [y] confirm, [n]/[Esc] cancel"@
            }),
    {
        if self.screen != Screen::PullRequestView {
            self.status_message = owned("Open pull request view first");
            return Ok(None);
        }
        if self.selected_pr >= self.pull_requests.len() {
            self.status_message = owned("No pull request selected");
            return Ok(None);
        }
        let pr = &self.pull_requests[self.selected_pr];
        self.pending_pr_merge = Some(PendingPullRequestMerge { number: pr.number, title: pr.title.clone(), method });
        self.input_mode = InputMode::ConfirmPullRequestMerge;
        self.status_message = owned("Confirm PR merge: [y] confirm, [n]/[Esc] cancel");
        Ok(None)
    }

    /// Merges the pull request whose merge was confirmed.
    pub fn confirm_merge_selected_pr(&mut self) -> (res: Result<Option<Job>, String>)
        ensures
            old(self).pending_pr_merge is None ==> only_says(
                App { input_mode: InputMode::Inactive, ..*old(self) },
                *final(self),
                res,
                "No PR merge action to confirm"@,
            ),
            old(self).pending_pr_merge is Some && old(self).repo_root is None ==> failed_no_repo(
                App { pending_pr_merge: None, ..*old(self) },
                *final(self),
                res,
            ),
            old(self).repo_root is Some ==> match old(self).pending_pr_merge {
                Some(p) => {
                    &&& *final(self) == (App { pending_pr_merge: None, input_mode: InputMode::Inactive, ..*old(self) })
                    &&& written(res) == Some(WriteAction::MergePr { number: p.number, method: p.method })
                },
                None => true,
            },
    {
        let pending = match self.pending_pr_merge.take() {
            None => {
                self.input_mode = InputMode::Inactive;
                self.status_message = owned("No PR merge action to confirm");
                return Ok(None);
            },
            Some(p) => p,
        };
        if self.repo_root.is_none() {
            return Err(owned("No repository is currently open"));
        }
        self.input_mode = InputMode::Inactive;
        Ok(Some(write_job(WriteAction::MergePr { number: pending.number, method: pending.method })))
    }

    /// Takes the typed title and asks for the body.
    pub fn create_pull_request_title_from_input(&mut self) -> (res: Result<Option<Job>, String>)
        ensures
            create_pull_request_title_from_input_done(*old(self), *final(self), res),
    {
        let title = trimmed(self.input_buffer.as_str());
        if title.as_str().unicode_len() == 0 {
            self.status_message = owned("PR title cannot be empty");
            return Ok(None);
        }
        self.pending_pr_title = Some(title);
        self.input_mode = InputMode::CreatePullRequestBody;
        self.input_buffer = String::new();
        self.input_cursor = 0;
        self.status_message = owned("Enter PR body (optional), then press [Enter]");
        Ok(None)
    }

    /// Creates the pull request with the title typed before and the body typed now (trimmed).
    pub fn create_pull_request_body_from_input(&mut self) -> (res: Result<Option<Job>, String>)
        ensures
            create_pull_request_body_from_input_done(*old(self), *final(self), res),
    {
        let title = match self.pending_pr_title.take() {
            None => {
                self.input_mode = InputMode::Inactive;
                self.input_buffer = String::new();
                self.input_cursor = 0;
                self.status_message = owned("PR title is missing; start PR creation again");
                return Ok(None);
            },
            Some(t) => t,
        };
        let body = trimmed(self.input_buffer.as_str());
        self.input_mode = InputMode::Inactive;
        self.input_buffer = String::new();
        self.input_cursor = 0;
        if self.repo_root.is_none() {
            return Err(owned("No repository is currently open"));
        }
        Ok(Some(create_pr_job(title.as_str(), body.as_str())))
    }
}

} // verus!
