//! The status tab: staging, discarding, committing and the remote actions.
use vstd::prelude::*;

use super::jobs::{write_commands, write_job, Job, WriteAction};
use super::preview::{bounds_kept, preview_scheduled};
use super::{App, FocusPane, InputMode, PendingDiscard, Screen};
use crate::git::commands::commands_view;
use crate::text::{is_blank, owned, str_eq, trim, trim_end, trimmed, trimmed_end};

verus! {

pub open spec fn no_repo_message() -> Seq<char> {
    "No repository is currently open"@
}

/// `b` is `a` with the status line saying `msg`.
pub open spec fn status_set(a: App, b: App, msg: Seq<char>) -> bool {
    b == (App { status_message: b.status_message, ..a }) && b.status_message@ == msg
}

/// The write that an action's result asks for, where it asks for one
/// with the commands that belong to it.
pub open spec fn written(r: Result<Option<Job>, String>) -> Option<WriteAction> {
    match r {
        Ok(Some(Job::Write { commands, action })) => if commands_view(commands@) == write_commands(action) {
            Some(action)
        } else {
            None
        },
        _ => None,
    }
}

/// The action failed because no repository is open; nothing changed.
pub open spec fn failed_no_repo(a: App, b: App, r: Result<Option<Job>, String>) -> bool {
    b == a && r is Err && r->Err_0@ == no_repo_message()
}

/// Nothing to do but say `msg`.
pub open spec fn only_says(a: App, b: App, r: Result<Option<Job>, String>, msg: Seq<char>) -> bool {
    status_set(a, b, msg) && r == Ok::<Option<Job>, String>(None)
}

/// What [`App::stage_selected`] does: `a` before, `b` after, `r` its result.
pub open spec fn stage_selected_done(a: App, b: App, r: Result<Option<Job>, String>) -> bool {
    &&& (a.selected_unstaged >= a.snapshot.unstaged@.len() ==> only_says(
            a,
            b,
            r,
            "No unstaged file selected"@,
        ))
    &&& (a.selected_unstaged < a.snapshot.unstaged@.len() && a.repo_root is None
            ==> failed_no_repo(a, b, r))
    &&& (a.selected_unstaged < a.snapshot.unstaged@.len() && a.repo_root is Some
            ==> ({
            &&& b == a
            &&& written(r) matches Some(WriteAction::Stage { path })
            &&& path@ == a.snapshot.unstaged@[a.selected_unstaged as int].path@
        }))
}

/// What [`App::unstage_selected`] does: `a` before, `b` after, `r` its result.
pub open spec fn unstage_selected_done(a: App, b: App, r: Result<Option<Job>, String>) -> bool {
    &&& (a.selected_staged >= a.snapshot.staged@.len() ==> only_says(
            a,
            b,
            r,
            "No staged file selected"@,
        ))
    &&& (a.selected_staged < a.snapshot.staged@.len() && a.repo_root is None
            ==> failed_no_repo(a, b, r))
    &&& (a.selected_staged < a.snapshot.staged@.len() && a.repo_root is Some
            ==> ({
            &&& b == a
            &&& written(r) matches Some(WriteAction::Unstage { path })
            &&& path@ == a.snapshot.staged@[a.selected_staged as int].path@
        }))
}

/// What [`App::commit_subject_from_input`] does: `a` before, `b` after, `r` its result.
pub open spec fn commit_subject_from_input_done(a: App, b: App, r: Result<Option<Job>, String>) -> bool {
    &&& (r == Ok::<Option<Job>, String>(None))
    &&& (trim(a.input_buffer@).len() == 0 ==> status_set(a, b, "Commit subject cannot be empty"@))
    &&& (trim(a.input_buffer@).len() > 0 ==> ({
            &&& b == (App {
                pending_commit_subject: b.pending_commit_subject,
                input_mode: InputMode::CommitBody,
                input_buffer: b.input_buffer,
                input_cursor: 0,
                status_message: b.status_message,
                ..a
            })
            &&& b.pending_commit_subject matches Some(s)
            &&& s@ == trim(a.input_buffer@)
            &&& b.input_buffer@.len() == 0
            &&& b.status_message@ == "Enter commit body (optional), [Ctrl+S] or [F2] to commit"@
        }))
}

/// What [`App::commit_body_from_input`] does: `a` before, `b` after, `r` its result.
pub open spec fn commit_body_from_input_done(a: App, b: App, r: Result<Option<Job>, String>) -> bool {
    &&& (a.pending_commit_subject is None ==> only_says(
            App { input_mode: InputMode::Inactive, input_buffer: b.input_buffer, input_cursor: 0, ..a },
            b,
            r,
            "Commit subject is missing; start commit again"@,
        ) && b.input_buffer@.len() == 0)
    &&& (a.pending_commit_subject is Some && a.repo_root is None ==> failed_no_repo(
            App { pending_commit_subject: None, ..a },
            b,
            r,
        ))
    &&& (a.repo_root is Some ==> match a.pending_commit_subject {
            Some(subject) => {
                &&& b == (App { pending_commit_subject: None, ..a })
                &&& written(r) matches Some(WriteAction::Commit { subject: s, body })
                &&& s@ == subject@
                &&& match body {
                    Some(b) => b@ == trim_end(a.input_buffer@) && trim(b@).len() > 0,
                    None => trim(trim_end(a.input_buffer@)).len() == 0,
                }
            },
            None => true,
        })
}

impl App {
    /// The open repository's root.
    pub fn current_repo_root(&self) -> (res: Result<String, String>)
        ensures
            match self.repo_root {
                Some(p) => res is Ok && res->Ok_0@ == p@,
                None => res is Err && res->Err_0@ == no_repo_message(),
            },
    {
        match &self.repo_root {
            Some(p) => Ok(p.clone()),
            None => Err(owned("No repository is currently open")),
        }
    }

    /// Moves the focus to the other list of the status tab.
    pub fn cycle_focus(&mut self)
        ensures
            old(self).screen != Screen::RepoView ==> *final(self) == *old(self),
            old(self).screen == Screen::RepoView ==> preview_scheduled(
                App {
                    focus: match old(self).focus {
                        FocusPane::Unstaged => FocusPane::Staged,
                        FocusPane::Staged => FocusPane::Unstaged,
                    },
                    repo_preview_key: None,
                    ..*old(self)
                },
                *final(self),
            ),
    {
        if self.screen != Screen::RepoView {
            return;
        }
        self.focus = match self.focus {
            FocusPane::Unstaged => FocusPane::Staged,
            FocusPane::Staged => FocusPane::Unstaged,
        };
        self.repo_preview_key = None;
        self.schedule_repo_preview_refresh();
    }

    /// Stages the selected unstaged file.
    pub fn stage_selected(&mut self) -> (res: Result<Option<Job>, String>)
        ensures
            stage_selected_done(*old(self), *final(self), res),
    {
        let path = match self.current_unstaged() {
            None => {
                self.status_message = owned("No unstaged file selected");
                return Ok(None);
            },
            Some(e) => e.path.clone(),
        };
        if self.repo_root.is_none() {
            return Err(owned("No repository is currently open"));
        }
        Ok(Some(write_job(WriteAction::Stage { path })))
    }

    /// Unstages the selected staged file.
    pub fn unstage_selected(&mut self) -> (res: Result<Option<Job>, String>)
        ensures
            unstage_selected_done(*old(self), *final(self), res),
    {
        let path = match self.current_staged() {
            None => {
                self.status_message = owned("No staged file selected");
                return Ok(None);
            },
            Some(e) => e.path.clone(),
        };
        if self.repo_root.is_none() {
            return Err(owned("No repository is currently open"));
        }
        Ok(Some(write_job(WriteAction::Unstage { path })))
    }

    /// Stages every unstaged file.
    pub fn stage_all_unstaged(&mut self) -> (res: Result<Option<Job>, String>)
        ensures
            old(self).snapshot.unstaged@.len() == 0 ==> only_says(*old(self), *final(self), res, "No unstaged files to stage"@),
            old(self).snapshot.unstaged@.len() > 0 && old(self).repo_root is None ==> failed_no_repo(*old(self), *final(self), res),
            old(self).snapshot.unstaged@.len() > 0 && old(self).repo_root is Some ==> *final(self) == *old(self)
                && written(res) == Some(WriteAction::StageAll { total: old(self).snapshot.unstaged@.len() as usize }),
    {
        if self.snapshot.unstaged.len() == 0 {
            self.status_message = owned("No unstaged files to stage");
            return Ok(None);
        }
        let total = self.snapshot.unstaged.len();
        if self.repo_root.is_none() {
            return Err(owned("No repository is currently open"));
        }
        Ok(Some(write_job(WriteAction::StageAll { total })))
    }

    /// Unstages every staged file.
    pub fn unstage_all_staged(&mut self) -> (res: Result<Option<Job>, String>)
        ensures
            old(self).snapshot.staged@.len() == 0 ==> only_says(*old(self), *final(self), res, "No staged files to unstage"@),
            old(self).snapshot.staged@.len() > 0 && old(self).repo_root is None ==> failed_no_repo(*old(self), *final(self), res),
            old(self).snapshot.staged@.len() > 0 && old(self).repo_root is Some ==> *final(self) == *old(self)
                && written(res) == Some(WriteAction::UnstageAll { total: old(self).snapshot.staged@.len() as usize }),
    {
        if self.snapshot.staged.len() == 0 {
            self.status_message = owned("No staged files to unstage");
            return Ok(None);
        }
        let total = self.snapshot.staged.len();
        if self.repo_root.is_none() {
            return Err(owned("No repository is currently open"));
        }
        Ok(Some(write_job(WriteAction::UnstageAll { total })))
    }

    /// A remote action from the status or incoming/outgoing tab.
    fn remote_action(&mut self, action: WriteAction, refused: &str) -> (res: Result<Option<Job>, String>)
        requires
            action is Fetch || action is Pull || action is Push,
        ensures
            !(old(self).screen == Screen::RepoView || old(self).screen == Screen::TrackingStatusView)
                ==> only_says(*old(self), *final(self), res, refused@),
            (old(self).screen == Screen::RepoView || old(self).screen == Screen::TrackingStatusView)
                && old(self).repo_root is None ==> failed_no_repo(*old(self), *final(self), res),
            (old(self).screen == Screen::RepoView || old(self).screen == Screen::TrackingStatusView)
                && old(self).repo_root is Some ==> *final(self) == *old(self) && written(res) == Some(action),
    {
        if !(self.screen == Screen::RepoView || self.screen == Screen::TrackingStatusView) {
            self.status_message = owned(refused);
            return Ok(None);
        }
        if self.repo_root.is_none() {
            return Err(owned("No repository is currently open"));
        }
        Ok(Some(write_job(action)))
    }

    /// Fetches every remote.
    pub fn fetch_remotes(&mut self) -> (res: Result<Option<Job>, String>)
        ensures
            !(old(self).screen == Screen::RepoView || old(self).screen == Screen::TrackingStatusView)
                ==> only_says(*old(self), *final(self), res, "Open a repository before fetching"@),
            (old(self).screen == Screen::RepoView || old(self).screen == Screen::TrackingStatusView)
                && old(self).repo_root is None ==> failed_no_repo(*old(self), *final(self), res),
            (old(self).screen == Screen::RepoView || old(self).screen == Screen::TrackingStatusView)
                && old(self).repo_root is Some ==> *final(self) == *old(self) && written(res) == Some(WriteAction::Fetch),
    {
        self.remote_action(WriteAction::Fetch, "Open a repository before fetching")
    }

    /// Pulls the current branch, fast-forward only.
    pub fn pull_current_branch(&mut self) -> (res: Result<Option<Job>, String>)
        ensures
            !(old(self).screen == Screen::RepoView || old(self).screen == Screen::TrackingStatusView)
                ==> only_says(*old(self), *final(self), res, "Open a repository before pulling"@),
            (old(self).screen == Screen::RepoView || old(self).screen == Screen::TrackingStatusView)
                && old(self).repo_root is None ==> failed_no_repo(*old(self), *final(self), res),
            (old(self).screen == Screen::RepoView || old(self).screen == Screen::TrackingStatusView)
                && old(self).repo_root is Some ==> *final(self) == *old(self) && written(res) == Some(WriteAction::Pull),
    {
        self.remote_action(WriteAction::Pull, "Open a repository before pulling")
    }

    /// Pushes the current branch.
    pub fn push_current_branch(&mut self) -> (res: Result<Option<Job>, String>)
        ensures
            !(old(self).screen == Screen::RepoView || old(self).screen == Screen::TrackingStatusView)
                ==> only_says(*old(self), *final(self), res, "Open a repository before pushing"@),
            (old(self).screen == Screen::RepoView || old(self).screen == Screen::TrackingStatusView)
                && old(self).repo_root is None ==> failed_no_repo(*old(self), *final(self), res),
            (old(self).screen == Screen::RepoView || old(self).screen == Screen::TrackingStatusView)
                && old(self).repo_root is Some ==> *final(self) == *old(self) && written(res) == Some(WriteAction::Push),
    {
        self.remote_action(WriteAction::Push, "Open a repository before pushing")
    }

    fn cherry_pick_action(&mut self, action: WriteAction, refused: &str) -> (res: Result<Option<Job>, String>)
        requires
            action is CherryPickContinue || action is CherryPickAbort,
        ensures
            old(self).screen != Screen::RepoView ==> only_says(*old(self), *final(self), res, refused@),
            old(self).screen == Screen::RepoView && old(self).repo_root is None ==> failed_no_repo(*old(self), *final(self), res),
            old(self).screen == Screen::RepoView && old(self).repo_root is Some ==> *final(self) == *old(self) && written(res) == Some(action),
    {
        if self.screen != Screen::RepoView {
            self.status_message = owned(refused);
            return Ok(None);
        }
        if self.repo_root.is_none() {
            return Err(owned("No repository is currently open"));
        }
        Ok(Some(write_job(action)))
    }

    /// Continues a cherry-pick stopped on conflicts.
    pub fn continue_cherry_pick(&mut self) -> (res: Result<Option<Job>, String>)
        ensures
            old(self).screen != Screen::RepoView ==> only_says(*old(self), *final(self), res, "Open a repository before continuing cherry-pick"@),
            old(self).screen == Screen::RepoView && old(self).repo_root is None ==> failed_no_repo(*old(self), *final(self), res),
            old(self).screen == Screen::RepoView && old(self).repo_root is Some ==> *final(self) == *old(self) && written(res) == Some(WriteAction::CherryPickContinue),
    {
        self.cherry_pick_action(WriteAction::CherryPickContinue, "Open a repository before continuing cherry-pick")
    }

    /// Abandons a cherry-pick stopped on conflicts.
    pub fn abort_cherry_pick(&mut self) -> (res: Result<Option<Job>, String>)
        ensures
            old(self).screen != Screen::RepoView ==> only_says(*old(self), *final(self), res, "Open a repository before aborting cherry-pick"@),
            old(self).screen == Screen::RepoView && old(self).repo_root is None ==> failed_no_repo(*old(self), *final(self), res),
            old(self).screen == Screen::RepoView && old(self).repo_root is Some ==> *final(self) == *old(self) && written(res) == Some(WriteAction::CherryPickAbort),
    {
        self.cherry_pick_action(WriteAction::CherryPickAbort, "Open a repository before aborting cherry-pick")
    }

    /// Asks to confirm discarding the selected unstaged file's changes
    /// (deleting it, where it is untracked).
    pub fn discard_selected_unstaged(&mut self) -> (res: Result<Option<Job>, String>)
        ensures
            res == Ok::<Option<Job>, String>(None),
            old(self).selected_unstaged >= old(self).snapshot.unstaged@.len() ==> status_set(*old(self), *final(self), "No unstaged file selected"@),
            old(self).selected_unstaged < old(self).snapshot.unstaged@.len() ==> ({
                let e = old(self).snapshot.unstaged@[old(self).selected_unstaged as int];
                &&& *final(self) == (App {
                    status_message: final(self).status_message,
                    pending_discard: final(self).pending_discard,
                    input_mode: InputMode::ConfirmDiscard,
                    ..*old(self)
                })
                &&& final(self).pending_discard matches Some(p) && p.path@ == e.path@ && p.is_untracked == (e.status@ == "??"@)
                &&& final(self).status_message@ == "Confirm discard: [y] confirm, [n]/[Esc] cancel"@
            }),
    {
        let (path, untracked) = match self.current_unstaged() {
            None => {
                self.status_message = owned("No unstaged file selected");
                return Ok(None);
            },
            Some(e) => (e.path.clone(), str_eq(e.status.as_str(), "??")),
        };
        self.pending_discard = Some(PendingDiscard { path, is_untracked: untracked });
        self.input_mode = InputMode::ConfirmDiscard;
        self.status_message = owned("Confirm discard: [y] confirm, [n]/[Esc] cancel");
        Ok(None)
    }

    /// Discards what was confirmed.
    pub fn confirm_discard_selected(&mut self) -> (res: Result<Option<Job>, String>)
        ensures
            old(self).pending_discard is None ==> only_says(
                App { input_mode: InputMode::Inactive, ..*old(self) },
                *final(self),
                res,
                "No discard action to confirm"@,
            ),
            old(self).pending_discard is Some && old(self).repo_root is None ==> failed_no_repo(
                App { pending_discard: None, ..*old(self) },
                *final(self),
                res,
            ),
            old(self).repo_root is Some ==> match old(self).pending_discard {
                Some(p) => {
                    &&& *final(self) == (App { pending_discard: None, ..*old(self) })
                    &&& written(res) matches Some(WriteAction::Discard { path, untracked })
                    &&& path@ == p.path@
                    &&& untracked == p.is_untracked
                },
                None => true,
            },
    {
        let pending = match self.pending_discard.take() {
            None => {
                self.input_mode = InputMode::Inactive;
                self.status_message = owned("No discard action to confirm");
                return Ok(None);
            },
            Some(p) => p,
        };
        if self.repo_root.is_none() {
            return Err(owned("No repository is currently open"));
        }
        Ok(Some(write_job(WriteAction::Discard { path: pending.path, untracked: pending.is_untracked })))
    }

    /// Opens the commit popup, where something is staged.
    pub fn begin_commit_input(&mut self)
        ensures
            old(self).screen != Screen::RepoView ==> status_set(*old(self), *final(self), "Open a repository before committing"@),
            old(self).screen == Screen::RepoView && old(self).snapshot.staged@.len() == 0 ==> status_set(
                *old(self),
                *final(self),
                "Stage files before committing"@,
            ),
            old(self).screen == Screen::RepoView && old(self).snapshot.staged@.len() > 0 ==> *final(self) == (App {
                pending_commit_subject: None,
                input_mode: InputMode::CommitSubject,
                input_buffer: final(self).input_buffer,
                input_cursor: 0,
                status_message: final(self).status_message,
                ..*old(self)
            }) && final(self).input_buffer@.len() == 0 && final(self).status_message@
                == "Enter commit subject and press [Enter]"@,
    {
        if self.screen != Screen::RepoView {
            self.status_message = owned("Open a repository before committing");
            return;
        }
        if self.snapshot.staged.len() == 0 {
            self.status_message = owned("Stage files before committing");
            return;
        }
        self.pending_commit_subject = None;
        self.input_mode = InputMode::CommitSubject;
        self.input_buffer = String::new();
        self.input_cursor = 0;
        self.status_message = owned("Enter commit subject and press [Enter]");
    }

    /// Takes the typed commit subject and asks for the body.
    pub fn commit_subject_from_input(&mut self) -> (res: Result<Option<Job>, String>)
        ensures
            commit_subject_from_input_done(*old(self), *final(self), res),
    {
        let subject = trimmed(self.input_buffer.as_str());
        if subject.as_str().unicode_len() == 0 {
            self.status_message = owned("Commit subject cannot be empty");
            return Ok(None);
        }
        self.pending_commit_subject = Some(subject);
        self.input_mode = InputMode::CommitBody;
        self.input_buffer = String::new();
        self.input_cursor = 0;
        self.status_message = owned("Enter commit body (optional), [Ctrl+S] or [F2] to commit");
        Ok(None)
    }

    /// Commits with the subject typed before and the body typed now
    /// (trailing whitespace dropped; a blank body is no body).
    pub fn commit_body_from_input(&mut self) -> (res: Result<Option<Job>, String>)
        ensures
            commit_body_from_input_done(*old(self), *final(self), res),
    {
        let subject = match self.pending_commit_subject.take() {
            None => {
                self.input_mode = InputMode::Inactive;
                self.input_buffer = String::new();
                self.input_cursor = 0;
                self.status_message = owned("Commit subject is missing; start commit again");
                return Ok(None);
            },
            Some(s) => s,
        };
        let body = trimmed_end(self.input_buffer.as_str());
        let body_option = if is_blank(body.as_str()) {
            None
        } else {
            Some(body)
        };
        if self.repo_root.is_none() {
            return Err(owned("No repository is currently open"));
        }
        Ok(Some(write_job(WriteAction::Commit { subject, body: body_option })))
    }
}

} // verus!
