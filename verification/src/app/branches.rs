//! The branch pickers.
use vstd::prelude::*;

use super::jobs::{BranchAction, Job};
use super::status_tab::{failed_no_repo, only_says, status_set};
use super::{App, InputMode, Screen};
use crate::text::{cat, owned, trim, trimmed};

verus! {

/// What [`App::switch_selected_branch`] does: `a` before, `b` after, `r` its result.
pub open spec fn switch_selected_branch_done(a: App, b: App, r: Result<Option<Job>, String>) -> bool {
    &&& (a.selected_branch >= a.branch_entries@.len() ==> only_says(a, b, r, "No branch selected"@))
    &&& (a.selected_branch < a.branch_entries@.len() ==> ({
            let e = a.branch_entries@[a.selected_branch as int];
            if e.is_current {
                b.screen == Screen::RepoView && b.status_message@ == "Repository view"@
                    && r == Ok::<Option<Job>, String>(None)
            } else if a.repo_root is None {
                failed_no_repo(a, b, r)
            } else {
                &&& status_set(a, b, "Switching to branch "@ + e.name@)
                &&& r matches Ok(Some(Job::Branch { action: BranchAction::Switch { name } }))
                &&& name@ == e.name@
            }
        }))
}

/// What [`App::checkout_selected_remote_branch`] does: `a` before, `b` after, `r` its result.
pub open spec fn checkout_selected_remote_branch_done(a: App, b: App, r: Result<Option<Job>, String>) -> bool {
    &&& (a.selected_remote_branch >= a.remote_branch_entries@.len() ==> only_says(
            a,
            b,
            r,
            "No remote branch selected"@,
        ))
    &&& (a.selected_remote_branch < a.remote_branch_entries@.len() ==> ({
            let e = a.remote_branch_entries@[a.selected_remote_branch as int];
            if a.repo_root is None {
                failed_no_repo(a, b, r)
            } else {
                &&& status_set(a, b, "Checking out remote branch "@ + e.name@)
                &&& r matches Ok(Some(Job::Branch { action: BranchAction::CheckoutRemote { name } }))
                &&& name@ == e.name@
            }
        }))
}

/// What [`App::create_branch_from_input`] does: `a` before, `b` after, `r` its result.
pub open spec fn create_branch_from_input_done(a: App, b: App, r: Result<Option<Job>, String>) -> bool {
    &&& (trim(a.input_buffer@).len() == 0 ==> only_says(a, b, r, "Branch name cannot be empty"@))
    &&& (trim(a.input_buffer@).len() > 0 && a.repo_root is None ==> failed_no_repo(a, b, r))
    &&& (trim(a.input_buffer@).len() > 0 && a.repo_root is Some ==> ({
            &&& b == (App {
                input_mode: InputMode::Inactive,
                input_buffer: b.input_buffer,
                input_cursor: 0,
                status_message: b.status_message,
                ..a
            })
            &&& b.input_buffer@.len() == 0
            &&& b.status_message@ == "Creating branch "@ + trim(a.input_buffer@)
            &&& r matches Ok(Some(Job::Branch { action: BranchAction::Create { name } }))
            &&& name@ == trim(a.input_buffer@)
        }))
}

impl App {
    /// Opens the popup for a new branch's name.
    pub fn begin_new_branch_input(&mut self)
        ensures
            old(self).screen != Screen::BranchPicker ==> status_set(*old(self), *final(self), "Open branch picker first"@),
            old(self).screen == Screen::BranchPicker ==> ({
                &&& *final(self) == (App {
                    input_mode: InputMode::NewBranchName,
                    input_buffer: final(self).input_buffer,
                    input_cursor: 0,
                    status_message: final(self).status_message,
                    ..*old(self)
                })
                &&& final(self).input_buffer@.len() == 0
                &&& final(self).status_message@ == "Enter new branch name and press [Enter]"@
            }),
    {
        if self.screen != Screen::BranchPicker {
            self.status_message = owned("Open branch picker first");
            return;
        }
        self.input_mode = InputMode::NewBranchName;
        self.input_buffer = String::new();
        self.input_cursor = 0;
        self.status_message = owned("Enter new branch name and press [Enter]");
    }

    /// Switches to the selected local branch; on the current one, goes
    /// back to the status tab instead.
    pub fn switch_selected_branch(&mut self) -> (res: Result<Option<Job>, String>)
        ensures
            switch_selected_branch_done(*old(self), *final(self), res),
    {
        if self.selected_branch >= self.branch_entries.len() {
            self.status_message = owned("No branch selected");
            return Ok(None);
        }
        let name = self.branch_entries[self.selected_branch].name.clone();
        if self.branch_entries[self.selected_branch].is_current {
            self.status_message = cat("Already on branch ", name.as_str());
            self.return_to_repo_view();
            return Ok(None);
        }
        if self.repo_root.is_none() {
            return Err(owned("No repository is currently open"));
        }
        self.status_message = cat("Switching to branch ", name.as_str());
        Ok(Some(Job::Branch { action: BranchAction::Switch { name } }))
    }

    /// Checks out a local branch tracking the selected remote branch.
    pub fn checkout_selected_remote_branch(&mut self) -> (res: Result<Option<Job>, String>)
        ensures
            checkout_selected_remote_branch_done(*old(self), *final(self), res),
    {
        if self.selected_remote_branch >= self.remote_branch_entries.len() {
            self.status_message = owned("No remote branch selected");
            return Ok(None);
        }
        let name = self.remote_branch_entries[self.selected_remote_branch].name.clone();
        if self.repo_root.is_none() {
            return Err(owned("No repository is currently open"));
        }
        self.status_message = cat("Checking out remote branch ", name.as_str());
        Ok(Some(Job::Branch { action: BranchAction::CheckoutRemote { name } }))
    }

    /// Creates the branch named in the popup and switches to it.
    pub fn create_branch_from_input(&mut self) -> (res: Result<Option<Job>, String>)
        ensures
            create_branch_from_input_done(*old(self), *final(self), res),
    {
        let name = trimmed(self.input_buffer.as_str());
        if name.as_str().unicode_len() == 0 {
            self.status_message = owned("Branch name cannot be empty");
            return Ok(None);
        }
        if self.repo_root.is_none() {
            return Err(owned("No repository is currently open"));
        }
        self.input_mode = InputMode::Inactive;
        self.input_buffer = String::new();
        self.input_cursor = 0;
        self.status_message = cat("Creating branch ", name.as_str());
        Ok(Some(Job::Branch { action: BranchAction::Create { name } }))
    }
}

} // verus!
