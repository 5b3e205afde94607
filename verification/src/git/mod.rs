//! What the library knows of git's and GitHub CLI's output, and which
//! commands it asks for.
pub mod branches;
pub mod commands;
pub mod history;
pub mod output;
pub mod prs;
pub mod stash;
pub mod status;
