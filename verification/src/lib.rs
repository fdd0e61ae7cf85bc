//! Verified core of gitk-rs: input validation, security policies,
//! reference bookkeeping, view filters and Git operation managers.

pub mod text;
pub mod patterns;
pub mod errors;
pub mod security;
pub mod platform;
pub mod models;
pub mod references;
pub mod views;
pub mod operations;
pub mod libgit;
pub mod repository;
pub mod lexorder;
pub mod tags;
pub mod commits;
pub mod stash;
pub mod remotes;
pub mod manager;
pub mod diff;
pub mod stream;
pub mod commands;
pub mod config;
pub mod app_state;
pub mod shortcuts;

use vstd::prelude::*;

verus! {

/// Library version.
pub const VERSION: &'static str = "0.1.0";

/// Library name.
pub const NAME: &'static str = "gitk-rs";

/// Library description.
pub const DESCRIPTION: &'static str =
    "A modern, fast, and feature-rich Git repository browser written in Rust";

} // verus!
