//! The build cache: where a build's output is kept, and what a build run does with it.
//!
//! A build is identified by a key (the wrapper format and the SDK path). The key is hashed,
//! and the hash names three entries of the output directory: a lock file that captures the
//! standard output of a running build, a log file that holds the output of the last
//! successful build, and the working directory of the compiler.
use std::collections::hash_map::DefaultHasher;
use std::hash::Hasher;
use vstd::prelude::*;
use vstd::std_specs::hash::DefaultHasherAdditionalSpecFns;
use vstd::string::StringSliceAdditionalSpecFns;

use crate::hex::{hex_digits, to_hex_lower};

verus! {

/// The two wrapper formats that can be built.
#[derive(Clone, Copy, PartialEq, Eq, Structural, Debug)]
pub enum WrapperFormat {
    Vst3,
    Auv2,
}

/// The prefix that the cache key of a format starts with.
pub open spec fn key_prefix(format: WrapperFormat) -> Seq<char> {
    match format {
        WrapperFormat::Vst3 => "vst3-"@,
        WrapperFormat::Auv2 => "auv2-"@,
    }
}

/// The cache key of a build of `format` against the SDK at `sdk`.
pub open spec fn cache_key_spec(format: WrapperFormat, sdk: Seq<char>) -> Seq<char> {
    key_prefix(format) + sdk
}

/// Builds the cache key `"vst3-<sdk>"` or `"auv2-<sdk>"`.
pub fn cache_key(format: WrapperFormat, sdk: &str) -> (key: String)
    ensures
        key@ == cache_key_spec(format, sdk@),
{
    let prefix = match format {
        WrapperFormat::Vst3 => String::from_str("vst3-"),
        WrapperFormat::Auv2 => String::from_str("auv2-"),
    };
    prefix.concat(sdk)
}

/// The hash of a key: what `DefaultHasher::new()` finishes with after the key's bytes and the
/// terminating `0xff` byte, which is what hashing a `str` writes into it.
pub open spec fn key_hash(key: Seq<u8>) -> u64 {
    DefaultHasher::spec_finish(seq![key, seq![0xffu8]])
}

/// Hashes a key as `key.hash(&mut DefaultHasher::new())` followed by `finish()` does.
pub fn hash_key(key: &str) -> (h: u64)
    ensures
        h == key_hash(key.spec_bytes()),
{
    let mut hasher = DefaultHasher::new();
    hasher.write(key.as_bytes());
    let mut terminator: Vec<u8> = Vec::new();
    terminator.push(0xffu8);
    assert(terminator@ =~= seq![0xffu8]);
    let tail = terminator.as_slice();
    hasher.write(tail);
    proof {
        assert(hasher@ =~= seq![key.spec_bytes(), seq![0xffu8]]);
    }
    hasher.finish()
}

/// The names, relative to the output directory, of the entries that a build uses.
pub struct CacheFiles {
    /// Receives the standard output of a running build.
    pub lock_file: String,
    /// Holds the standard output of the last successful build.
    pub log_file: String,
    /// The working directory of the compiler.
    pub work_dir: String,
}

/// `"build-"` followed by the hash in lower-case hexadecimal.
pub open spec fn cache_stem(hash: u64) -> Seq<char> {
    "build-"@ + hex_digits(hash as nat)
}

/// The entries that belong to the hash `hash`.
pub open spec fn files_match(files: CacheFiles, hash: u64) -> bool {
    &&& files.work_dir@ == cache_stem(hash)
    &&& files.lock_file@ == cache_stem(hash) + ".lock"@
    &&& files.log_file@ == cache_stem(hash) + ".output"@
}

/// Names the entries of the build whose key hashes to `hash`.
pub fn cache_files_for_hash(hash: u64) -> (files: CacheFiles)
    ensures
        files_match(files, hash),
{
    let stem = String::from_str("build-").concat(to_hex_lower(hash).as_str());
    let lock_file = stem.clone().concat(".lock");
    let log_file = stem.clone().concat(".output");
    CacheFiles { lock_file, log_file, work_dir: stem }
}

/// Names the entries of the build with key `key`.
pub fn cache_files(key: &str) -> (files: CacheFiles)
    ensures
        files_match(files, key_hash(key.spec_bytes())),
{
    cache_files_for_hash(hash_key(key))
}

/// Where a cached build run stands.
#[derive(Clone, Copy, PartialEq, Eq, Structural, Debug)]
pub enum CachePhase {
    /// Nothing done yet.
    Start,
    /// The log of an earlier build is being read.
    LookingUp,
    /// The build runs, its standard output captured in the lock file.
    Building,
    /// The output has been replayed; the run is over.
    Finished,
    /// The build failed; its output has been shown and the failure passed on.
    Failed,
}

/// What the driver reports back to the run.
pub enum CacheEvent {
    /// The run is to begin.
    Begin,
    /// The log file was read (`Some` with its text) or could not be read (`None`).
    LogLookup(Option<String>),
    /// The build has returned or panicked, with what it wrote to standard output.
    BuildDone { succeeded: bool, captured: String },
}

/// What the driver is to do next.
pub enum CacheAction {
    /// Read the log file as text.
    ReadLog,
    /// Run the build in the working directory with standard output captured in the lock file.
    RunBuild,
    /// Print the text as it stands.
    Replay(String),
    /// Rename the lock file to the log file, then print the text as it stands.
    CommitAndReplay(String),
    /// Print the text and a line break, then pass the build's failure on.
    ReportAndFail(String),
    /// The event does not belong to this phase; nothing to do.
    Ignore,
}

/// One step of a cached build run.
pub open spec fn cache_step_spec(phase: CachePhase, event: CacheEvent) -> (CachePhase, CacheAction) {
    match (phase, event) {
        (CachePhase::Start, CacheEvent::Begin) => (CachePhase::LookingUp, CacheAction::ReadLog),
        (CachePhase::LookingUp, CacheEvent::LogLookup(Some(text))) => (
            CachePhase::Finished,
            CacheAction::Replay(text),
        ),
        (CachePhase::LookingUp, CacheEvent::LogLookup(None)) => (
            CachePhase::Building,
            CacheAction::RunBuild,
        ),
        (CachePhase::Building, CacheEvent::BuildDone { succeeded, captured }) => {
            if succeeded {
                (CachePhase::Finished, CacheAction::CommitAndReplay(captured))
            } else {
                (CachePhase::Failed, CacheAction::ReportAndFail(captured))
            }
        },
        (p, _) => (p, CacheAction::Ignore),
    }
}

/// Decides the next phase and action of a cached build run from the event the driver reports.
pub fn cache_step(phase: CachePhase, event: CacheEvent) -> (r: (CachePhase, CacheAction))
    ensures
        r == cache_step_spec(phase, event),
{
    match (phase, event) {
        (CachePhase::Start, CacheEvent::Begin) => (CachePhase::LookingUp, CacheAction::ReadLog),
        (CachePhase::LookingUp, CacheEvent::LogLookup(Some(text))) => (
            CachePhase::Finished,
            CacheAction::Replay(text),
        ),
        (CachePhase::LookingUp, CacheEvent::LogLookup(None)) => (
            CachePhase::Building,
            CacheAction::RunBuild,
        ),
        (CachePhase::Building, CacheEvent::BuildDone { succeeded, captured }) => {
            if succeeded {
                (CachePhase::Finished, CacheAction::CommitAndReplay(captured))
            } else {
                (CachePhase::Failed, CacheAction::ReportAndFail(captured))
            }
        },
        (p, _) => (p, CacheAction::Ignore),
    }
}

} // verus!
