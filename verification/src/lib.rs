//! Deciding and planning the builds that wrap a CLAP plugin as a VST3 or AUv2 plugin.
//!
//! - `root`: the build of the main crate: whether a VST3 or AUv2 wrapper is built from the
//!   SDK paths in the environment, and what each compilation consists of.
//! - `bundled`: the builds of the crates that compile the wrapper from bundled SDK sources.
//! - `plan`, `tables`: what a compilation consists of, and the fixed lists it is made of.
//! - `entry`: the exported entry points, per system, and the wrapper symbols they call.
//! - `cache`: cache keys, the names of cached build output, and the steps of a cached run.
//! - `walk`: collecting the source files with an extension below a directory.
//! - `text`, `hex`: string comparison, file-name extensions, hexadecimal rendering.
//! - `laws`: properties that hold across these functions.
//! - `source_laws`: what the compilations contain, and how the builds against an SDK path and
//!   the bundled builds correspond.
use vstd::prelude::*;

pub mod hex;
pub mod text;
pub mod cache;
pub mod plan;
pub mod entry;
pub mod tables;
pub mod root;
pub mod bundled;
pub mod walk;
pub mod laws;
pub mod source_laws;

verus! {

} // verus!
