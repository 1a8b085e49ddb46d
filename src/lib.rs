//! Decide which files of a project tree a build tool should watch: every file
//! is watched unless an exclusion pattern, or an ignore file found in the tree,
//! leaves it out.
//!
//! The library checks the caller's patterns, turns them into force-exclude
//! override rules of the `ignore` crate, and picks the tracked files out of
//! what a walk of the tree reported.
use vstd::prelude::*;

pub mod error;
pub mod patterns;
pub mod rules;
pub mod watched;

pub use error::RerunError;
pub use patterns::check_globs;
pub use rules::build_overrides;
pub use watched::{tracked_files, WalkEntry};

verus! {

} // verus!
