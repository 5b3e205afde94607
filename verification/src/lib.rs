pub mod app;
pub mod commit_config;
pub mod diagnostics;
pub mod git;
pub mod json;
pub mod order;
pub mod repo_registry;
pub mod runtime_paths;
pub mod text;
pub mod tree;
