//! Opening a repository: from a candidate path to directories, configuration and trust.
pub mod config;
pub mod error;
pub mod path;
pub mod pipeline;
pub mod replace;
pub mod repository;
pub mod safe_directory;
pub mod trust;
pub mod worktree;
