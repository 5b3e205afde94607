//! The stash tab.
use vstd::prelude::*;

use super::jobs::{read_job, write_job, Job, ReadTarget, WriteAction};
use super::navigation::stash_details_requested;
use super::status_tab::{failed_no_repo, no_repo_message, only_says, status_set, written};
use super::views::read_asked;
use super::{App, InputMode, Screen};
use crate::text::{cat, cat3, owned, str_eq};

verus! {

/// What [`App::load_selected_stash_details`] does: `a` before, `b` after, `r` its result.
pub open spec fn load_selected_stash_details_done(a: App, b: App, r: Result<Option<Job>, String>) -> bool {
    &&& (a.selected_stash >= a.stash_entries@.len() ==> only_says(a, b, r, "No stash selected"@))
    &&& (a.selected_stash < a.stash_entries@.len() ==> ({
            let rf = a.stash_entries@[a.selected_stash as int].reference@;
            if a.stash_details_for matches Some(f) && f@ == rf {
                only_says(a, b, r, "Stash details already loaded ("@ + rf + ")"@)
            } else if a.repo_root is None {
                failed_no_repo(a, b, r)
            } else {
                &&& status_set(stash_details_requested(a), b, "Loading stash details "@ + rf)
                &&& read_asked(r) matches Some(ReadTarget::StashDetails { request_id, reference })
                &&& request_id == b.stash_details_request_seq && reference@ == rf
            }
        }))
}

impl App {
    /// Stashes the working tree's changes, untracked files included.
    pub fn stash_current_changes(&mut self) -> (res: Result<Option<Job>, String>)
        ensures
            old(self).screen != Screen::StashView ==> only_says(*old(self), *final(self), res, "Open stash view first"@),
            old(self).screen == Screen::StashView && old(self).repo_root is None ==> failed_no_repo(*old(self), *final(self), res),
            old(self).screen == Screen::StashView && old(self).repo_root is Some ==> status_set(
                *old(self),
                *final(self),
                "Stashing current changes"@,
            ) && written(res) == Some(WriteAction::StashPush),
    {
        if self.screen != Screen::StashView {
            self.status_message = owned("Open stash view first");
            return Ok(None);
        }
        if self.repo_root.is_none() {
            return Err(owned("No repository is currently open"));
        }
        self.status_message = owned("Stashing current changes");
        Ok(Some(write_job(WriteAction::StashPush)))
    }

    /// Applies the selected stash, keeping it.
    pub fn apply_selected_stash(&mut self) -> (res: Result<Option<Job>, String>)
        ensures
            old(self).selected_stash >= old(self).stash_entries@.len() ==> only_says(*old(self), *final(self), res, "No stash selected"@),
            old(self).selected_stash < old(self).stash_entries@.len() ==> ({
                let r = old(self).stash_entries@[old(self).selected_stash as int].reference@;
                if old(self).repo_root is None {
                    failed_no_repo(*old(self), *final(self), res)
                } else {
                    &&& status_set(*old(self), *final(self), "Applying "@ + r)
                    &&& written(res) matches Some(WriteAction::StashApply { reference })
                    &&& reference@ == r
                }
            }),
    {
        if self.selected_stash >= self.stash_entries.len() {
            self.status_message = owned("No stash selected");
            return Ok(None);
        }
        let reference = self.stash_entries[self.selected_stash].reference.clone();
        if self.repo_root.is_none() {
            return Err(owned("No repository is currently open"));
        }
        self.status_message = cat("Applying ", reference.as_str());
        Ok(Some(write_job(WriteAction::StashApply { reference })))
    }

    /// Applies the selected stash and drops it.
    pub fn pop_selected_stash(&mut self) -> (res: Result<Option<Job>, String>)
        ensures
            old(self).selected_stash >= old(self).stash_entries@.len() ==> only_says(*old(self), *final(self), res, "No stash selected"@),
            old(self).selected_stash < old(self).stash_entries@.len() ==> ({
                let r = old(self).stash_entries@[old(self).selected_stash as int].reference@;
                if old(self).repo_root is None {
                    failed_no_repo(*old(self), *final(self), res)
                } else {
                    &&& status_set(*old(self), *final(self), "Popping "@ + r)
                    &&& written(res) matches Some(WriteAction::StashPop { reference })
                    &&& reference@ == r
                }
            }),
    {
        if self.selected_stash >= self.stash_entries.len() {
            self.status_message = owned("No stash selected");
            return Ok(None);
        }
        let reference = self.stash_entries[self.selected_stash].reference.clone();
        if self.repo_root.is_none() {
            return Err(owned("No repository is currently open"));
        }
        self.status_message = cat("Popping ", reference.as_str());
        Ok(Some(write_job(WriteAction::StashPop { reference })))
    }

    /// Asks to confirm dropping the selected stash.
    pub fn begin_drop_selected_stash(&mut self)
        ensures
            old(self).selected_stash >= old(self).stash_entries@.len() ==> status_set(*old(self), *final(self), "No stash selected"@),
            old(self).selected_stash < old(self).stash_entries@.len() ==> ({
                &&& *final(self) == (App {
                    pending_stash_drop: final(self).pending_stash_drop,
                    input_mode: InputMode::ConfirmStashDrop,
                    status_message: final(self).status_message,
                    ..*old(self)
                })
                &&& final(self).pending_stash_drop matches Some(r)
                &&& r@ == old(self).stash_entries@[old(self).selected_stash as int].reference@
                &&& final(self).status_message@ == "Confirm stash drop: [y] confirm, [n]/[Esc] cancel"@
            }),
    {
        if self.selected_stash >= self.stash_entries.len() {
            self.status_message = owned("No stash selected");
            return;
        }
        self.pending_stash_drop = Some(self.stash_entries[self.selected_stash].reference.clone());
        self.input_mode = InputMode::ConfirmStashDrop;
        self.status_message = owned("Confirm stash drop: [y] confirm, [n]/[Esc] cancel");
    }

    /// Drops the stash whose drop was confirmed.
    pub fn confirm_drop_selected_stash(&mut self) -> (res: Result<Option<Job>, String>)
        ensures
            old(self).pending_stash_drop is None ==> only_says(
                App { input_mode: InputMode::Inactive, ..*old(self) },
                *final(self),
                res,
                "No stash drop action to confirm"@,
            ),
            old(self).pending_stash_drop is Some && old(self).repo_root is None ==> failed_no_repo(
                App { pending_stash_drop: None, ..*old(self) },
                *final(self),
                res,
            ),
            old(self).repo_root is Some ==> match old(self).pending_stash_drop {
                Some(r) => {
                    &&& status_set(
                        App { pending_stash_drop: None, input_mode: InputMode::Inactive, ..*old(self) },
                        *final(self),
                        "Dropping "@ + r@,
                    )
                    &&& written(res) matches Some(WriteAction::StashDrop { reference })
                    &&& reference@ == r@
                },
                None => true,
            },
    {
        let reference = match self.pending_stash_drop.take() {
            None => {
                self.input_mode = InputMode::Inactive;
                self.status_message = owned("No stash drop action to confirm");
                return Ok(None);
            },
            Some(r) => r,
        };
        if self.repo_root.is_none() {
            return Err(owned("No repository is currently open"));
        }
        self.input_mode = InputMode::Inactive;
        self.status_message = cat("Dropping ", reference.as_str());
        Ok(Some(write_job(WriteAction::StashDrop { reference })))
    }

    /// Reads the selected stash's patch, unless it is the one shown.
    pub fn load_selected_stash_details(&mut self) -> (res: Result<Option<Job>, String>)
        ensures
            load_selected_stash_details_done(*old(self), *final(self), res),
    {
        if self.selected_stash >= self.stash_entries.len() {
            self.status_message = owned("No stash selected");
            return Ok(None);
        }
        let reference = self.stash_entries[self.selected_stash].reference.clone();
        let loaded = match &self.stash_details_for {
            Some(f) => str_eq(f.as_str(), reference.as_str()),
            None => false,
        };
        if loaded {
            self.status_message = cat3("Stash details already loaded (", reference.as_str(), ")");
            return Ok(None);
        }
        if self.repo_root.is_none() {
            return Err(owned("No repository is currently open"));
        }
        let request_id = self.stash_details_request_seq.saturating_add(1);
        self.stash_details_request_seq = request_id;
        self.stash_details_inflight = Some(request_id);
        self.status_message = cat("Loading stash details ", reference.as_str());
        Ok(Some(read_job(ReadTarget::StashDetails { request_id, reference })))
    }
}

} // verus!
