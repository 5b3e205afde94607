//! What the outcome of outside work means for the state.
use vstd::prelude::*;

use super::helpers::{format_gh_error_for_status, gh_error_text, infer_repo_picker_label, merge_method_label, picker_label, pull_request_merge_method_label};
use super::jobs::{is_read_job, read_job, After, BranchAction, Job, OpenOrigin, PrThen, ReadTarget, WriteAction};
use super::navigation::{commit_details_requested, file_history_requested, history_cleared, pr_status_scheduled, stash_details_requested};
use super::preview::{bounded, bounds_kept, preview_scheduled};
use super::pull_requests::filter_label;
use super::status_tab::status_set;
use super::{App, FocusPane, HistoryFocusPane, InputMode, Screen};
use crate::git::branches::{branches_view, list_local_branches, list_remote_branches, local_branches, records_view, remote_branches, remotes_view, BranchRecord, pick_branches, pick_names, branch_names};
use crate::git::prs::{pull_request_status_summary, pull_requests, PullRequestEntry, PullRequestFilter, PullRequestStatusSummary};
use crate::git::history::{changed_files_view, commit_details_structured, commit_history, commit_list, commits_view, details_parsed, file_history, summaries_view, summary_list, tracking_commit_summary, tracking_upstream, CommitDetails};
use crate::git::stash::{list_stashes, stash_list, stashes_view};
use crate::git::status::{entries_view, snapshot, status_of, tracking_view, RepoSnapshot};
use super::{FullscreenDiff};
use super::helpers::{first_lines, truncate_lines};
use super::preview::{empty_preview_text, preview_key_of};
use crate::text::{lines, lines_of, trim};
use crate::order::stably_sorted_by_str;
use crate::repo_registry::{paths_of, RepoRegistry};
use crate::text::{cat, cat3, decimal, decimal_string, decimal_string_u64, opt_string_view, owned, views};

verus! {

pub open spec fn error_text(e: Seq<char>) -> Seq<char> {
    "Error: "@ + e
}

/// A snapshot as plain values, as [`crate::git::status::status_of`] gives them.
pub open spec fn snapshot_model(s: RepoSnapshot) -> (Seq<char>, Option<Seq<char>>, nat, nat, Seq<(Seq<char>, Seq<char>)>, Seq<(Seq<char>, Seq<char>)>) {
    (s.branch@, tracking_view(s.tracking), s.ahead as nat, s.behind as nat, entries_view(s.unstaged@), entries_view(s.staged@))
}

/// The job that follows a status read, as `after` asks.
pub open spec fn after_job(a: App, after: After, j: Option<Job>) -> bool {
    match after {
        After::Nothing => j is None,
        After::Tracking => j matches Some(job) && is_read_job(job, ReadTarget::Tracking { message: None }),
        After::Stashes => j matches Some(job) && is_read_job(job, ReadTarget::Stashes { message: None }),
        After::PullRequests { then } => j == Some(Job::LoadPullRequests { filter: a.pr_filter, then }),
        After::Branches => j == Some(Job::LoadBranches { local: a.screen != Screen::RemoteBranchPicker, message: None }),
    }
}

/// The status line after a write succeeded, and the status read that follows.
pub open spec fn write_message(a: WriteAction) -> Seq<char> {
    match a {
        WriteAction::Stage { path } => "Staged "@ + path@,
        WriteAction::Unstage { path } => "Unstaged "@ + path@,
        WriteAction::StageAll { total } => "Staged all unstaged files ("@ + decimal(total as nat) + ")"@,
        WriteAction::UnstageAll { total } => "Unstaged all staged files ("@ + decimal(total as nat) + ")"@,
        WriteAction::Discard { path, untracked } => if untracked {
            "Removed untracked "@ + path@
        } else {
            "Discarded unstaged changes in "@ + path@
        },
        WriteAction::Commit { .. } => "Commit created"@,
        WriteAction::Fetch => "Fetched remotes"@,
        WriteAction::Pull => "Pulled latest changes"@,
        WriteAction::Push => "Pushed current branch"@,
        WriteAction::CherryPickContinue => "Cherry-pick continued"@,
        WriteAction::CherryPickAbort => "Cherry-pick aborted"@,
        WriteAction::CheckoutDetached { short_hash, .. } => "Checked out "@ + short_hash@ + " (detached)"@,
        WriteAction::CherryPick { short_hash, .. } => "Cherry-picked "@ + short_hash@,
        WriteAction::StashPush => "Stashed current changes"@,
        WriteAction::StashApply { reference } => "Applied "@ + reference@,
        WriteAction::StashPop { reference } => "Popped "@ + reference@,
        WriteAction::StashDrop { reference } => "Dropped "@ + reference@,
        WriteAction::OpenPr { number } => "Opened PR #"@ + decimal(number as nat) + " in browser"@,
        WriteAction::CheckoutPr { number } => "Checked out PR #"@ + decimal(number as nat),
        WriteAction::MergePr { number, method } => "Merged PR #"@ + decimal(number as nat) + " with "@ + merge_method_label(method),
        WriteAction::CreatePr => "Created pull request"@,
    }
}

/// Whether the GitHub CLI made the write, whose errors read differently.
pub open spec fn via_gh(a: WriteAction) -> bool {
    a is OpenPr || a is CheckoutPr || a is MergePr || a is CreatePr
}

/// What follows a successful write's status read.
pub open spec fn write_after(a: App, w: WriteAction) -> After {
    match w {
        WriteAction::Fetch | WriteAction::Pull | WriteAction::Push => if a.screen == Screen::TrackingStatusView {
            After::Tracking
        } else {
            After::Nothing
        },
        WriteAction::StashPush | WriteAction::StashApply { .. } | WriteAction::StashPop { .. } | WriteAction::StashDrop { .. } => After::Stashes,
        WriteAction::MergePr { number, method } => After::PullRequests { then: PrThen::Merged { number, method } },
        _ => After::Nothing,
    }
}

pub open spec fn pr_then_message(then: PrThen, f: PullRequestFilter) -> Seq<char> {
    match then {
        PrThen::Entered => "Pull requests: [Enter/o] open, [c] checkout, [m]/[s]/[R] merge"@,
        PrThen::Refreshed => "Refreshed pull requests ("@ + filter_label(f) + ")"@,
        PrThen::Filtered => "PR filter: "@ + filter_label(f),
        PrThen::Created => "Created pull request"@,
        PrThen::Merged { number, method } => "Merged PR #"@ + decimal(number as nat) + " with "@ + merge_method_label(method),
    }
}

fn write_message_exec(a: &WriteAction) -> (res: String)
    ensures
        res@ == write_message(*a),
{
    match a {
        WriteAction::Stage { path } => cat("Staged ", path.as_str()),
        WriteAction::Unstage { path } => cat("Unstaged ", path.as_str()),
        WriteAction::StageAll { total } => cat3("Staged all unstaged files (", decimal_string(*total).as_str(), ")"),
        WriteAction::UnstageAll { total } => cat3("Unstaged all staged files (", decimal_string(*total).as_str(), ")"),
        WriteAction::Discard { path, untracked } => if *untracked {
            cat("Removed untracked ", path.as_str())
        } else {
            cat("Discarded unstaged changes in ", path.as_str())
        },
        WriteAction::Commit { .. } => owned("Commit created"),
        WriteAction::Fetch => owned("Fetched remotes"),
        WriteAction::Pull => owned("Pulled latest changes"),
        WriteAction::Push => owned("Pushed current branch"),
        WriteAction::CherryPickContinue => owned("Cherry-pick continued"),
        WriteAction::CherryPickAbort => owned("Cherry-pick aborted"),
        WriteAction::CheckoutDetached { short_hash, .. } => cat3("Checked out ", short_hash.as_str(), " (detached)"),
        WriteAction::CherryPick { short_hash, .. } => cat("Cherry-picked ", short_hash.as_str()),
        WriteAction::StashPush => owned("Stashed current changes"),
        WriteAction::StashApply { reference } => cat("Applied ", reference.as_str()),
        WriteAction::StashPop { reference } => cat("Popped ", reference.as_str()),
        WriteAction::StashDrop { reference } => cat("Dropped ", reference.as_str()),
        WriteAction::OpenPr { number } => cat3("Opened PR #", decimal_string_u64(*number).as_str(), " in browser"),
        WriteAction::CheckoutPr { number } => cat("Checked out PR #", decimal_string_u64(*number).as_str()),
        WriteAction::MergePr { number, method } => {
            let r = cat3("Merged PR #", decimal_string_u64(*number).as_str(), " with ");
            r.concat(pull_request_merge_method_label(*method))
        },
        WriteAction::CreatePr => owned("Created pull request"),
    }
}

fn pr_then_message_exec(then: &PrThen, f: PullRequestFilter, label: &str) -> (res: String)
    requires
        label@ == filter_label(f),
    ensures
        res@ == pr_then_message(*then, f),
{
    match then {
        PrThen::Entered => owned("Pull requests: [Enter/o] open, [c] checkout, [m]/[s]/[R] merge"),
        PrThen::Refreshed => cat3("Refreshed pull requests (", label, ")"),
        PrThen::Filtered => cat("PR filter: ", label),
        PrThen::Created => owned("Created pull request"),
        PrThen::Merged { number, method } => {
            let r = cat3("Merged PR #", decimal_string_u64(*number).as_str(), " with ");
            r.concat(pull_request_merge_method_label(*method))
        },
    }
}

impl App {
    /// The job that follows a status read, as `after` asks.
    fn job_after(&self, after: After) -> (res: Option<Job>)
        ensures
            after_job(*self, after, res),
    {
        match after {
            After::Nothing => None,
            After::Tracking => Some(read_job(ReadTarget::Tracking { message: None })),
            After::Stashes => Some(read_job(ReadTarget::Stashes { message: None })),
            After::PullRequests { then } => Some(Job::LoadPullRequests { filter: self.pr_filter, then }),
            After::Branches => Some(Job::LoadBranches { local: self.screen != Screen::RemoteBranchPicker, message: None }),
        }
    }

    /// Labels the tracked repositories with the `origin` names read for
    /// them (in the registry's order; a missing one counts as none).
    pub fn finish_repo_labels(&mut self, origins: Vec<Option<String>>)
        ensures
            *final(self) == (App { repo_picker_labels: final(self).repo_picker_labels, ..*old(self) }),
            views(final(self).repo_picker_labels@) == Seq::new(
                old(self).registry.repos@.len(),
                |i: int| picker_label(
                    old(self).registry.repos@[i].path@,
                    if i < origins@.len() { opt_string_view(origins@[i]) } else { None },
                    old(self).windows,
                ),
            ),
    {
        let mut labels: Vec<String> = Vec::new();
        let mut i: usize = 0;
        while i < self.registry.repos.len()
            invariant
                i <= self.registry.repos.len(),
                views(labels@) == Seq::new(
                    i as nat,
                    |k: int| picker_label(
                        self.registry.repos@[k].path@,
                        if k < origins@.len() { opt_string_view(origins@[k]) } else { None },
                        self.windows,
                    ),
                ),
            decreases self.registry.repos.len() - i,
        {
            let origin = if i < origins.len() {
                origins[i].clone()
            } else {
                None
            };
            let l = infer_repo_picker_label(self.registry.repos[i].path.as_str(), origin, self.windows);
            let ghost before = views(labels@);
            labels.push(l);
            assert(views(labels@) =~= before.push(l@));
            assert(views(labels@) =~= Seq::new(
                (i + 1) as nat,
                |k: int| picker_label(
                    self.registry.repos@[k].path@,
                    if k < origins@.len() { opt_string_view(origins@[k]) } else { None },
                    self.windows,
                ),
            ));
            i = i + 1;
        }
        self.repo_picker_labels = labels;
    }

    /// Takes the registry that was loaded, or says why it could not be.
    pub fn finish_load_registry(&mut self, outcome: Result<RepoRegistry, String>) -> (res: Option<Job>)
        ensures
            match outcome {
                Err(e) => status_set(*old(self), *final(self), error_text(e@)) && res is None,
                Ok(r) => {
                    &&& *final(self) == (App {
                        registry: r,
                        selected_repo: bounded(old(self).selected_repo, r.repos@.len() as int),
                        status_message: final(self).status_message,
                        ..*old(self)
                    })
                    &&& final(self).status_message@ == "Refreshed repository registry"@
                    &&& res matches Some(Job::ReadRepoLabels { paths }) && views(paths@) == paths_of(r.repos@)
                },
            },
    {
        match outcome {
            Err(e) => {
                self.status_message = cat("Error: ", e.as_str());
                None
            },
            Ok(r) => {
                let n = r.repos.len();
                self.registry = r;
                self.selected_repo = if n == 0 {
                    0
                } else if self.selected_repo < n - 1 {
                    self.selected_repo
                } else {
                    n - 1
                };
                self.status_message = owned("Refreshed repository registry");
                Some(Job::ReadRepoLabels { paths: self.repo_paths() })
            },
        }
    }

    /// The tracked repositories' paths.
    pub fn repo_paths(&self) -> (res: Vec<String>)
        ensures
            views(res@) == paths_of(self.registry.repos@),
    {
        let mut paths: Vec<String> = Vec::new();
        let mut i: usize = 0;
        while i < self.registry.repos.len()
            invariant
                i <= self.registry.repos.len(),
                views(paths@) == paths_of(self.registry.repos@).take(i as int),
            decreases self.registry.repos.len() - i,
        {
            let p = self.registry.repos[i].path.clone();
            let ghost before = views(paths@);
            paths.push(p);
            assert(views(paths@) =~= before.push(p@));
            assert(paths_of(self.registry.repos@).take(i + 1) =~= paths_of(self.registry.repos@).take(i as int).push(p@));
            i = i + 1;
        }
        assert(paths_of(self.registry.repos@).take(i as int) =~= paths_of(self.registry.repos@));
        paths
    }

    /// After the registry was saved (or not): the labels are read again.
    pub fn finish_save_registry(&mut self, outcome: Result<(), String>) -> (res: Option<Job>)
        ensures
            match outcome {
                Err(e) => status_set(*old(self), *final(self), error_text(e@)),
                Ok(_) => *final(self) == *old(self),
            },
            res matches Some(Job::ReadRepoLabels { paths }) && views(paths@) == paths_of(old(self).registry.repos@),
    {
        match outcome {
            Err(e) => {
                self.status_message = cat("Error: ", e.as_str());
            },
            Ok(_) => {},
        }
        Some(Job::ReadRepoLabels { paths: self.repo_paths() })
    }

    /// Takes a pull request's status as read, or forgets it where that failed.
    pub fn finish_pr_status(&mut self, number: u64, outcome: Result<PullRequestStatusSummary, String>)
        ensures
            *final(self) == (App {
                pr_status_for: Some(number),
                pr_status_summary: match outcome {
                    Ok(s) => Some(s),
                    Err(_) => None,
                },
                pr_status_pending_for: None,
                pr_status_refresh_deadline: None,
                ..*old(self)
            }),
    {
        self.pr_status_for = Some(number);
        self.pr_status_summary = match outcome {
            Ok(s) => Some(s),
            Err(_) => None,
        };
        self.pr_status_pending_for = None;
        self.pr_status_refresh_deadline = None;
    }

    /// Takes the branches as read: local or remote ones, as listed.
    pub fn finish_load_branches(&mut self, local: bool, message: Option<String>, outcome: Result<Vec<BranchRecord>, String>)
        ensures
            match outcome {
                Err(e) => status_set(*old(self), *final(self), error_text(e@)),
                Ok(records) => if local {
                    &&& *final(self) == (App {
                        branch_entries: final(self).branch_entries,
                        selected_branch: bounded(old(self).selected_branch, final(self).branch_entries@.len() as int),
                        status_message: final(self).status_message,
                        ..*old(self)
                    })
                    &&& exists|idx: Seq<usize>| #[trigger] stably_sorted_by_str(branch_names(local_branches(records_view(records@))), idx)
                        && branches_view(final(self).branch_entries@) == pick_branches(local_branches(records_view(records@)), idx)
                    &&& final(self).status_message@ == match message { Some(m) => m@, None => old(self).status_message@ }
                } else {
                    &&& *final(self) == (App {
                        remote_branch_entries: final(self).remote_branch_entries,
                        selected_remote_branch: bounded(old(self).selected_remote_branch, final(self).remote_branch_entries@.len() as int),
                        status_message: final(self).status_message,
                        ..*old(self)
                    })
                    &&& exists|idx: Seq<usize>| #[trigger] stably_sorted_by_str(remote_branches(records_view(records@)), idx)
                        && remotes_view(final(self).remote_branch_entries@) == pick_names(remote_branches(records_view(records@)), idx)
                    &&& final(self).status_message@ == match message { Some(m) => m@, None => old(self).status_message@ }
                },
            },
    {
        let records = match outcome {
            Err(e) => {
                self.status_message = cat("Error: ", e.as_str());
                return;
            },
            Ok(r) => r,
        };
        if local {
            let entries = list_local_branches(&records);
            let n = entries.len();
            self.branch_entries = entries;
            self.selected_branch = if n == 0 {
                0
            } else if self.selected_branch < n - 1 {
                self.selected_branch
            } else {
                n - 1
            };
        } else {
            let entries = list_remote_branches(&records);
            let n = entries.len();
            self.remote_branch_entries = entries;
            self.selected_remote_branch = if n == 0 {
                0
            } else if self.selected_remote_branch < n - 1 {
                self.selected_remote_branch
            } else {
                n - 1
            };
        }
        match message {
            Some(m) => {
                self.status_message = m;
            },
            None => {},
        }
    }

    /// Takes the pull requests as read (kept by the current filter,
    /// newest first), or says what the GitHub CLI answered.
    pub fn finish_pull_requests(&mut self, then: PrThen, outcome: Result<Vec<PullRequestEntry>, String>)
        ensures
            match outcome {
                Err(e) => status_set(*old(self), *final(self), gh_error_text(e@)),
                Ok(entries) => {
                    let mid = App {
                        pull_requests: final(self).pull_requests,
                        selected_pr: bounded(old(self).selected_pr, final(self).pull_requests@.len() as int),
                        status_message: final(self).status_message,
                        ..*old(self)
                    };
                    &&& *final(self) == pr_status_scheduled(mid)
                    &&& exists|idx: Seq<usize>| #[trigger] crate::order::stably_sorted_desc(
                        crate::git::prs::pr_numbers(crate::git::prs::kept_prs(crate::git::prs::prs_view(entries@), old(self).pr_filter)),
                        idx,
                    ) && crate::git::prs::prs_view(final(self).pull_requests@) == crate::git::prs::pick(
                        crate::git::prs::kept_prs(crate::git::prs::prs_view(entries@), old(self).pr_filter),
                        idx,
                    )
                    &&& final(self).status_message@ == pr_then_message(then, old(self).pr_filter)
                },
            },
    {
        let entries = match outcome {
            Err(e) => {
                self.status_message = format_gh_error_for_status(e.as_str());
                return;
            },
            Ok(v) => v,
        };
        let kept = pull_requests(&entries, self.pr_filter);
        let n = kept.len();
        self.pull_requests = kept;
        self.selected_pr = if n == 0 {
            0
        } else if self.selected_pr < n - 1 {
            self.selected_pr
        } else {
            n - 1
        };
        let label = self.pull_request_filter_label();
        self.status_message = pr_then_message_exec(&then, self.pr_filter, label);
        self.schedule_selected_pr_status_refresh();
    }
}

/// The `k`-th output, or nothing where there are fewer.
pub open spec fn output(outs: Seq<String>, k: int) -> Seq<char> {
    if 0 <= k < outs.len() {
        outs[k]@
    } else {
        Seq::empty()
    }
}

fn output_exec(outs: &Vec<String>, k: usize) -> (res: &str)
    ensures
        res@ == output(outs@, k as int),
{
    if k < outs.len() {
        outs[k].as_str()
    } else {
        proof {
            reveal_strlit("");
        }
        ""
    }
}

impl App {
    /// Takes the status read after a change: the snapshot, when the
    /// repository last fetched, the selections kept inside the lists and
    /// the preview asked for again; then `message`, and what `after` asks.
    pub fn finish_refresh(&mut self, message: String, after: After, outcome: Result<String, String>, fetch_at: Option<u64>) -> (res: Option<Job>)
        ensures
            match outcome {
                Err(e) => status_set(*old(self), *final(self), error_text(e@)) && res is None,
                Ok(raw) => {
                    let mid = App {
                        snapshot: final(self).snapshot,
                        last_fetch_at: fetch_at,
                        status_message: final(self).status_message,
                        ..*old(self)
                    };
                    &&& snapshot_model(final(self).snapshot) == status_of(raw@)
                    &&& preview_scheduled(bounds_kept(mid), *final(self))
                    &&& final(self).status_message@ == message@
                    &&& after_job(*old(self), after, res)
                },
            },
    {
        let raw = match outcome {
            Err(e) => {
                self.status_message = cat("Error: ", e.as_str());
                return None;
            },
            Ok(r) => r,
        };
        let job = self.job_after(after);
        self.snapshot = snapshot(raw.as_str());
        self.last_fetch_at = fetch_at;
        self.status_message = message;
        self.ensure_selection_bounds();
        job
    }

    /// What a change's outcome means: on success the status is read again
    /// (a pull request created reads the pull requests instead, one opened
    /// in the browser only says so); a failure is said.
    pub fn finish_write(&mut self, action: WriteAction, outcome: Result<(), String>) -> (res: Option<Job>)
        ensures
            match outcome {
                Err(e) => status_set(
                    *old(self),
                    *final(self),
                    if via_gh(action) { gh_error_text(e@) } else { error_text(e@) },
                ) && res is None,
                Ok(_) => match action {
                    WriteAction::OpenPr { .. } => status_set(*old(self), *final(self), write_message(action)) && res is None,
                    WriteAction::CreatePr => *final(self) == *old(self) && res == Some(
                        Job::LoadPullRequests { filter: old(self).pr_filter, then: PrThen::Created },
                    ),
                    WriteAction::Discard { .. } => ({
                        &&& *final(self) == (App { input_mode: InputMode::Inactive, ..*old(self) })
                        &&& res matches Some(Job::Refresh { message, after: After::Nothing })
                        &&& message@ == write_message(action)
                    }),
                    WriteAction::Commit { .. } => ({
                        &&& *final(self) == (App {
                            input_mode: InputMode::Inactive,
                            input_buffer: final(self).input_buffer,
                            input_cursor: 0,
                            ..*old(self)
                        })
                        &&& final(self).input_buffer@.len() == 0
                        &&& res matches Some(Job::Refresh { message, after: After::Nothing })
                        &&& message@ == write_message(action)
                    }),
                    _ => ({
                        &&& *final(self) == *old(self)
                        &&& res matches Some(Job::Refresh { message, after })
                        &&& message@ == write_message(action)
                        &&& after == write_after(*old(self), action)
                    }),
                },
            },
    {
        let gh = match &action {
            WriteAction::OpenPr { .. } | WriteAction::CheckoutPr { .. } | WriteAction::MergePr { .. } | WriteAction::CreatePr => true,
            _ => false,
        };
        match outcome {
            Err(e) => {
                self.status_message = if gh {
                    format_gh_error_for_status(e.as_str())
                } else {
                    cat("Error: ", e.as_str())
                };
                return None;
            },
            Ok(_) => {},
        }
        let message = write_message_exec(&action);
        match action {
            WriteAction::OpenPr { .. } => {
                self.status_message = message;
                None
            },
            WriteAction::CreatePr => Some(Job::LoadPullRequests { filter: self.pr_filter, then: PrThen::Created }),
            WriteAction::Discard { .. } => {
                self.input_mode = InputMode::Inactive;
                Some(Job::Refresh { message, after: After::Nothing })
            },
            WriteAction::Commit { .. } => {
                self.input_mode = InputMode::Inactive;
                self.input_buffer = String::new();
                self.input_cursor = 0;
                Some(Job::Refresh { message, after: After::Nothing })
            },
            WriteAction::Fetch | WriteAction::Pull | WriteAction::Push => {
                let after = if self.screen == Screen::TrackingStatusView {
                    After::Tracking
                } else {
                    After::Nothing
                };
                Some(Job::Refresh { message, after })
            },
            WriteAction::StashPush | WriteAction::StashApply { .. } | WriteAction::StashPop { .. } | WriteAction::StashDrop { .. } => {
                Some(Job::Refresh { message, after: After::Stashes })
            },
            WriteAction::MergePr { number, method } => Some(
                Job::Refresh { message, after: After::PullRequests { then: PrThen::Merged { number, method } } },
            ),
            _ => Some(Job::Refresh { message, after: After::Nothing }),
        }
    }

    /// What a branch change's outcome means: on success the status (and
    /// the branch list, where the change made a branch current) is read
    /// again; a failure is said. `outcome` carries the local branch that a
    /// remote checkout made.
    pub fn finish_branch(&mut self, action: BranchAction, outcome: Result<String, String>) -> (res: Option<Job>)
        ensures
            match outcome {
                Err(e) => status_set(*old(self), *final(self), error_text(e@)) && res is None,
                Ok(local) => *final(self) == *old(self) && match action {
                    BranchAction::Switch { name } => res matches Some(Job::Refresh { message, after: After::Branches })
                        && message@ == "Switched to branch "@ + name@,
                    BranchAction::Create { name } => res matches Some(Job::Refresh { message, after: After::Branches })
                        && message@ == "Created and switched to branch "@ + name@,
                    BranchAction::CheckoutRemote { name } => res matches Some(Job::Refresh { message, after: After::Nothing })
                        && message@ == "Checked out "@ + local@ + " tracking "@ + name@,
                },
            },
    {
        let local = match outcome {
            Err(e) => {
                self.status_message = cat("Error: ", e.as_str());
                return None;
            },
            Ok(l) => l,
        };
        match action {
            BranchAction::Switch { name } => Some(
                Job::Refresh { message: cat("Switched to branch ", name.as_str()), after: After::Branches },
            ),
            BranchAction::Create { name } => Some(
                Job::Refresh { message: cat("Created and switched to branch ", name.as_str()), after: After::Branches },
            ),
            BranchAction::CheckoutRemote { name } => {
                let m = cat3("Checked out ", local.as_str(), " tracking ");
                Some(Job::Refresh { message: m.concat(name.as_str()), after: After::Nothing })
            },
        }
    }

    /// Opens the repository at `path` with the status read there: the
    /// tabs start over on the status tab.
    #[verifier::rlimit(80)]
    pub fn finish_open_repo(&mut self, path: String, origin: OpenOrigin, outcome: Result<String, String>, fetch_at: Option<u64>)
        ensures
            match outcome {
                Err(e) => status_set(
                    *old(self),
                    *final(self),
                    if origin == OpenOrigin::Auto {
                        "Failed to auto-open tracked repository. Use [Enter] to retry."@
                    } else {
                        error_text(e@)
                    },
                ),
                Ok(raw) => {
                    let mid = App {
                        repo_root: Some(path),
                        snapshot: final(self).snapshot,
                        last_fetch_at: fetch_at,
                        screen: Screen::RepoView,
                        focus: FocusPane::Unstaged,
                        selected_unstaged: 0,
                        selected_staged: 0,
                        branch_entries: final(self).branch_entries,
                        selected_branch: 0,
                        remote_branch_entries: final(self).remote_branch_entries,
                        selected_remote_branch: 0,
                        history_entries: final(self).history_entries,
                        selected_history: 0,
                        pull_requests: final(self).pull_requests,
                        selected_pr: 0,
                        pr_filter: PullRequestFilter::Open,
                        tracking_summary: None,
                        stash_entries: final(self).stash_entries,
                        selected_stash: 0,
                        input_mode: InputMode::Inactive,
                        input_buffer: final(self).input_buffer,
                        input_cursor: 0,
                        history_details: None,
                        history_details_for: None,
                        history_details_inflight: None,
                        history_file_tree_selected: 0,
                        history_focus: HistoryFocusPane::Commits,
                        history_file_history_entries: final(self).history_file_history_entries,
                        history_file_history_selected: 0,
                        history_file_history_for_path: None,
                        history_file_history_inflight: None,
                        stash_details: final(self).stash_details,
                        stash_details_for: None,
                        stash_details_inflight: None,
                        pending_stash_drop: None,
                        pending_discard: None,
                        pending_pr_merge: None,
                        pending_pr_title: None,
                        pending_commit_subject: None,
                        pr_status_for: None,
                        pr_status_summary: None,
                        pr_status_pending_for: None,
                        pr_status_refresh_deadline: None,
                        repo_preview_key: None,
                        status_message: final(self).status_message,
                        ..*old(self)
                    };
                    &&& preview_scheduled(mid, *final(self))
                    &&& snapshot_model(final(self).snapshot) == status_of(raw@)
                    &&& final(self).branch_entries@.len() == 0 && final(self).remote_branch_entries@.len() == 0
                    &&& final(self).history_entries@.len() == 0 && final(self).pull_requests@.len() == 0
                    &&& final(self).stash_entries@.len() == 0 && final(self).stash_details@.len() == 0
                    &&& final(self).input_buffer@.len() == 0 && final(self).history_file_history_entries@.len() == 0
                    &&& final(self).status_message@ == match origin {
                        OpenOrigin::Picker => "Opened repository"@,
                        OpenOrigin::Auto => "Auto-opened the only tracked repository. Press [b] to return to picker."@,
                        OpenOrigin::Browser => "Added and opened repository from browser"@,
                    }
                },
            },
    {
        let raw = match outcome {
            Err(e) => {
                self.status_message = if origin == OpenOrigin::Auto {
                    owned("Failed to auto-open tracked repository. Use [Enter] to retry.")
                } else {
                    cat("Error: ", e.as_str())
                };
                return;
            },
            Ok(r) => r,
        };
        self.repo_root = Some(path);
        self.snapshot = snapshot(raw.as_str());
        self.last_fetch_at = fetch_at;
        self.screen = Screen::RepoView;
        self.focus = FocusPane::Unstaged;
        self.selected_unstaged = 0;
        self.selected_staged = 0;
        self.branch_entries = Vec::new();
        self.selected_branch = 0;
        self.remote_branch_entries = Vec::new();
        self.selected_remote_branch = 0;
        self.history_entries = Vec::new();
        self.selected_history = 0;
        self.pull_requests = Vec::new();
        self.selected_pr = 0;
        self.pr_filter = PullRequestFilter::Open;
        self.tracking_summary = None;
        self.stash_entries = Vec::new();
        self.selected_stash = 0;
        self.input_mode = InputMode::Inactive;
        self.input_buffer = String::new();
        self.input_cursor = 0;
        self.history_details = None;
        self.history_details_for = None;
        self.history_details_inflight = None;
        self.history_file_tree_selected = 0;
        self.history_focus = HistoryFocusPane::Commits;
        self.history_file_history_entries = Vec::new();
        self.history_file_history_selected = 0;
        self.history_file_history_for_path = None;
        self.history_file_history_inflight = None;
        self.stash_details = String::new();
        self.stash_details_for = None;
        self.stash_details_inflight = None;
        self.pending_stash_drop = None;
        self.pending_discard = None;
        self.pending_pr_merge = None;
        self.pending_pr_title = None;
        self.pending_commit_subject = None;
        self.pr_status_for = None;
        self.pr_status_summary = None;
        self.pr_status_pending_for = None;
        self.pr_status_refresh_deadline = None;
        self.repo_preview_key = None;
        self.status_message = match origin {
            OpenOrigin::Picker => owned("Opened repository"),
            OpenOrigin::Auto => owned("Auto-opened the only tracked repository. Press [b] to return to picker."),
            OpenOrigin::Browser => owned("Added and opened repository from browser"),
        };
        self.schedule_repo_preview_refresh();
    }
}

/// What taking a read's outcome makes of `a`: each target keeps its
/// outputs where it belongs; a failed read is said, except a preview's,
/// which reads as no diff.
pub open spec fn read_finished(a: App, b: App, target: ReadTarget, outcome: Result<Vec<String>, String>) -> bool {
    match (target, outcome) {
        (ReadTarget::Diff { key, .. }, Err(_)) => if a.screen == Screen::RepoView && preview_key_of(a) == Some(key@) {
            &&& b == (App { repo_preview_key: b.repo_preview_key, repo_preview_text: b.repo_preview_text, ..a })
            &&& b.repo_preview_key matches Some(k) && k@ == key@
            &&& b.repo_preview_text@ == empty_preview_text(a.focus)
        } else {
            b == a
        },
        (_, Err(e)) => status_set(a, b, error_text(e@)),
        (ReadTarget::History { message }, Ok(outs)) => ({
            &&& b == (App {
                history_entries: b.history_entries,
                selected_history: bounded(a.selected_history, b.history_entries@.len() as int),
                status_message: b.status_message,
                ..a
            })
            &&& commits_view(b.history_entries@) == commit_list(output(outs@, 0))
            &&& b.status_message@ == match message { Some(m) => m@, None => a.status_message@ }
        }),
        (ReadTarget::CommitDetails { hash, short_hash, .. }, Ok(outs)) => ({
            &&& b == (App {
                history_details: b.history_details,
                history_details_for: b.history_details_for,
                history_file_tree_selected: b.history_file_tree_selected,
                status_message: b.status_message,
                ..a
            })
            &&& exists|r: Result<CommitDetails, String>| #[trigger] details_parsed(output(outs@, 0), output(outs@, 1), output(outs@, 2), r)
                && match r {
                Ok(d) => b.history_details == Some(d) && b.history_details_for == Some(hash)
                    && b.history_file_tree_selected == 0
                    && b.status_message@ == "Loaded commit details "@ + short_hash@,
                Err(m) => b.history_details == a.history_details
                    && b.history_details_for == a.history_details_for
                    && b.history_file_tree_selected == a.history_file_tree_selected
                    && b.status_message@ == error_text(m@),
            }
        }),
        (ReadTarget::FileHistory { path, .. }, Ok(outs)) => ({
            &&& b == (App {
                history_file_history_entries: b.history_file_history_entries,
                history_file_history_selected: 0,
                history_file_history_for_path: Some(path),
                history_focus: HistoryFocusPane::FileHistory,
                status_message: b.status_message,
                ..a
            })
            &&& commits_view(b.history_file_history_entries@) == commit_list(output(outs@, 0))
            &&& b.status_message@ == "Loaded file history for "@ + path@
        }),
        (ReadTarget::Tracking { message }, Ok(outs)) => ({
            &&& b == (App {
                tracking_summary: b.tracking_summary,
                status_message: b.status_message,
                ..a
            })
            &&& if trim(output(outs@, 0)).len() == 0 {
                b.tracking_summary is None && b.status_message@ == error_text(
                    crate::git::history::no_upstream_message(),
                )
            } else {
                &&& b.tracking_summary matches Some(t)
                &&& t.upstream@ == trim(output(outs@, 0))
                &&& summaries_view(t.outgoing@) == summary_list(output(outs@, 1))
                &&& summaries_view(t.incoming@) == summary_list(output(outs@, 2))
                &&& b.status_message@ == match message { Some(m) => m@, None => a.status_message@ }
            }
        }),
        (ReadTarget::Stashes { message }, Ok(outs)) => ({
            &&& b == (App {
                stash_entries: b.stash_entries,
                selected_stash: bounded(a.selected_stash, b.stash_entries@.len() as int),
                status_message: b.status_message,
                ..a
            })
            &&& stashes_view(b.stash_entries@) == stash_list(output(outs@, 0))
            &&& b.status_message@ == match message { Some(m) => m@, None => a.status_message@ }
        }),
        (ReadTarget::StashDetails { reference, .. }, Ok(outs)) => ({
            &&& b == (App {
                stash_details: b.stash_details,
                stash_details_for: Some(reference),
                status_message: b.status_message,
                ..a
            })
            &&& b.stash_details@ == output(outs@, 0)
            &&& b.status_message@ == "Loaded stash details "@ + reference@
        }),
        (ReadTarget::Diff { key, .. }, Ok(outs)) => if a.screen == Screen::RepoView && preview_key_of(a) == Some(key@) {
            &&& b == (App { repo_preview_key: b.repo_preview_key, repo_preview_text: b.repo_preview_text, ..a })
            &&& b.repo_preview_key matches Some(k) && k@ == key@
            &&& b.repo_preview_text@ == first_lines(output(outs@, 0), 90)
        } else {
            b == a
        },
        (ReadTarget::CommitFileDiff { title, .. }, Ok(outs)) => ({
            &&& b == (App { fullscreen_diff: b.fullscreen_diff, ..a })
            &&& b.fullscreen_diff matches Some(d)
            &&& d.title == title && d.scroll == 0
            &&& views(d.lines@) == lines(output(outs@, 0))
        }),
    }
}

/// Whether the outcome of `t` is the one `a` waits for: the latest request
/// of its kind that nothing has cancelled (reads without a number always are).
pub open spec fn read_awaited(a: App, t: ReadTarget) -> bool {
    match t {
        ReadTarget::CommitDetails { request_id, .. } => a.history_details_inflight == Some(request_id),
        ReadTarget::FileHistory { request_id, .. } => a.history_file_history_inflight == Some(request_id),
        ReadTarget::StashDetails { request_id, .. } => a.stash_details_inflight == Some(request_id),
        _ => true,
    }
}

/// `a` no longer waiting for the read `t`.
pub open spec fn read_settled(a: App, t: ReadTarget) -> App {
    match t {
        ReadTarget::CommitDetails { .. } => App { history_details_inflight: None, ..a },
        ReadTarget::FileHistory { .. } => App { history_file_history_inflight: None, ..a },
        ReadTarget::StashDetails { .. } => App { stash_details_inflight: None, ..a },
        _ => a,
    }
}

/// A newer request of the same kind makes the outcome of every earlier one
/// stale, so that finishing it changes nothing (while request numbers
/// have not run out).
pub proof fn law_newer_request_makes_older_stale(a: App, t: ReadTarget)
    requires
        match t {
            ReadTarget::CommitDetails { request_id, .. } => request_id <= a.history_details_request_seq < u64::MAX,
            ReadTarget::FileHistory { request_id, .. } => request_id <= a.history_file_history_request_seq < u64::MAX,
            ReadTarget::StashDetails { request_id, .. } => request_id <= a.stash_details_request_seq < u64::MAX,
            _ => false,
        },
    ensures
        match t {
            ReadTarget::CommitDetails { .. } => !read_awaited(commit_details_requested(a), t),
            ReadTarget::FileHistory { .. } => !read_awaited(file_history_requested(a), t),
            ReadTarget::StashDetails { .. } => !read_awaited(stash_details_requested(a), t),
            _ => true,
        },
{
}

impl App {
    /// Takes what a read gave, where it is the outcome waited for (a
    /// later request of the same kind, or leaving the view, makes an
    /// earlier outcome stale, and a stale outcome changes nothing).
    pub fn finish_read(&mut self, target: ReadTarget, outcome: Result<Vec<String>, String>)
        ensures
            !read_awaited(*old(self), target) ==> *final(self) == *old(self),
            read_awaited(*old(self), target) ==> read_finished(read_settled(*old(self), target), *final(self), target, outcome),
    {
        let awaited = match &target {
            ReadTarget::CommitDetails { request_id, .. } => match self.history_details_inflight {
                Some(i) => i == *request_id,
                None => false,
            },
            ReadTarget::FileHistory { request_id, .. } => match self.history_file_history_inflight {
                Some(i) => i == *request_id,
                None => false,
            },
            ReadTarget::StashDetails { request_id, .. } => match self.stash_details_inflight {
                Some(i) => i == *request_id,
                None => false,
            },
            _ => true,
        };
        if !awaited {
            return;
        }
        match &target {
            ReadTarget::CommitDetails { .. } => {
                self.history_details_inflight = None;
            },
            ReadTarget::FileHistory { .. } => {
                self.history_file_history_inflight = None;
            },
            ReadTarget::StashDetails { .. } => {
                self.stash_details_inflight = None;
            },
            _ => {},
        }
        self.take_read(target, outcome);
    }

    #[verifier::rlimit(60)]
    fn take_read(&mut self, target: ReadTarget, outcome: Result<Vec<String>, String>)
        ensures
            read_finished(*old(self), *final(self), target, outcome),
    {
        let outs = match outcome {
            Err(e) => {
                match target {
                    ReadTarget::Diff { key, .. } => {
                        self.take_preview(key, None);
                    },
                    _ => {
                        self.status_message = cat("Error: ", e.as_str());
                    },
                }
                return;
            },
            Ok(o) => o,
        };
        match target {
            ReadTarget::History { message } => {
                let entries = commit_history(output_exec(&outs, 0));
                let n = entries.len();
                self.history_entries = entries;
                self.selected_history = if n == 0 {
                    0
                } else if self.selected_history < n - 1 {
                    self.selected_history
                } else {
                    n - 1
                };
                match message {
                    Some(m) => {
                        self.status_message = m;
                    },
                    None => {},
                }
            },
            ReadTarget::CommitDetails { hash, short_hash, .. } => {
                let r = commit_details_structured(output_exec(&outs, 0), output_exec(&outs, 1), output_exec(&outs, 2));
                match r {
                    Ok(d) => {
                        self.history_details = Some(d);
                        self.history_details_for = Some(hash);
                        self.history_file_tree_selected = 0;
                        self.status_message = cat("Loaded commit details ", short_hash.as_str());
                    },
                    Err(m) => {
                        self.status_message = cat("Error: ", m.as_str());
                    },
                }
            },
            ReadTarget::FileHistory { path, .. } => {
                self.history_file_history_entries = file_history(output_exec(&outs, 0));
                self.history_file_history_selected = 0;
                self.status_message = cat("Loaded file history for ", path.as_str());
                self.history_file_history_for_path = Some(path);
                self.history_focus = HistoryFocusPane::FileHistory;
            },
            ReadTarget::Tracking { message } => {
                match tracking_upstream(output_exec(&outs, 0)) {
                    Err(m) => {
                        self.tracking_summary = None;
                        self.status_message = cat("Error: ", m.as_str());
                    },
                    Ok(u) => {
                        self.tracking_summary = Some(tracking_commit_summary(u, output_exec(&outs, 1), output_exec(&outs, 2)));
                        match message {
                            Some(m) => {
                                self.status_message = m;
                            },
                            None => {},
                        }
                    },
                }
            },
            ReadTarget::Stashes { message } => {
                let entries = list_stashes(output_exec(&outs, 0));
                let n = entries.len();
                self.stash_entries = entries;
                self.selected_stash = if n == 0 {
                    0
                } else if self.selected_stash < n - 1 {
                    self.selected_stash
                } else {
                    n - 1
                };
                match message {
                    Some(m) => {
                        self.status_message = m;
                    },
                    None => {},
                }
            },
            ReadTarget::StashDetails { reference, .. } => {
                self.stash_details = owned(output_exec(&outs, 0));
                self.status_message = cat("Loaded stash details ", reference.as_str());
                self.stash_details_for = Some(reference);
            },
            ReadTarget::Diff { key, .. } => {
                let text = truncate_lines(output_exec(&outs, 0), 90);
                self.take_preview(key, Some(text));
            },
            ReadTarget::CommitFileDiff { title, .. } => {
                let ls = lines_of(output_exec(&outs, 0));
                self.fullscreen_diff = Some(FullscreenDiff { title, lines: ls, scroll: 0 });
            },
        }
    }

    /// Shows a read preview (or, for `None`, that there is no diff) where
    /// it is still the selected file's.
    fn take_preview(&mut self, key: String, text: Option<String>)
        ensures
            if old(self).screen == Screen::RepoView && preview_key_of(*old(self)) == Some(key@) {
                &&& *final(self) == (App { repo_preview_key: final(self).repo_preview_key, repo_preview_text: final(self).repo_preview_text, ..*old(self) })
                &&& final(self).repo_preview_key matches Some(k) && k@ == key@
                &&& final(self).repo_preview_text@ == match text { Some(t) => t@, None => empty_preview_text(old(self).focus) }
            } else {
                *final(self) == *old(self)
            },
    {
        if self.screen != Screen::RepoView {
            return;
        }
        let current = self.current_repo_preview_key();
        let same = match &current {
            Some(c) => crate::text::str_eq(c.as_str(), key.as_str()),
            None => false,
        };
        if !same {
            return;
        }
        self.repo_preview_text = match text {
            Some(t) => t,
            None => match self.focus {
                FocusPane::Unstaged => owned("No unstaged diff output for selected file."),
                FocusPane::Staged => owned("No staged diff output for selected file."),
            },
        };
        self.repo_preview_key = Some(key);
    }
}

} // verus!
