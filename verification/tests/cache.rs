use clap_wrapper::cache::{
    cache_files, cache_files_for_hash, cache_key, cache_step, hash_key, CacheAction, CacheEvent,
    CachePhase, WrapperFormat,
};
use std::collections::hash_map::DefaultHasher;
use std::hash::{Hash, Hasher};

fn std_hash(key: &str) -> u64 {
    let owned = format!("{}", key);
    let mut hasher = DefaultHasher::new();
    owned.hash(&mut hasher);
    hasher.finish()
}

#[test]
fn cache_key_spells_format_and_sdk() {
    assert_eq!(cache_key(WrapperFormat::Vst3, "/opt/vst3sdk"), "vst3-/opt/vst3sdk");
    assert_eq!(cache_key(WrapperFormat::Auv2, "/opt/au"), "auv2-/opt/au");
    assert_eq!(cache_key(WrapperFormat::Vst3, ""), "vst3-");
}

#[test]
fn cache_keys_of_formats_differ() {
    for sdk in ["", "/sdk", "vst3-x"] {
        assert_ne!(cache_key(WrapperFormat::Vst3, sdk), cache_key(WrapperFormat::Auv2, sdk));
    }
    assert_ne!(cache_key(WrapperFormat::Vst3, "/a"), cache_key(WrapperFormat::Vst3, "/b"));
}

#[test]
fn hash_key_matches_hashing_a_string() {
    for key in ["", "vst3-/opt/vst3sdk", "auv2-/Users/me/AudioUnitSDK", "ünïcödé"] {
        assert_eq!(hash_key(key), std_hash(key));
    }
}

#[test]
fn cache_files_for_hash_names() {
    let files = cache_files_for_hash(0xabc);
    assert_eq!(files.work_dir, "build-abc");
    assert_eq!(files.lock_file, "build-abc.lock");
    assert_eq!(files.log_file, "build-abc.output");
    let zero = cache_files_for_hash(0);
    assert_eq!(zero.log_file, "build-0.output");
}

#[test]
fn cache_files_follow_the_key_hash() {
    let key = "vst3-/opt/vst3sdk";
    let h = std_hash(key);
    let files = cache_files(key);
    assert_eq!(files.work_dir, format!("build-{:x}", h));
    assert_eq!(files.lock_file, format!("build-{:x}.lock", h));
    assert_eq!(files.log_file, format!("build-{:x}.output", h));
}

#[test]
fn cache_files_of_different_hashes_differ() {
    let a = cache_files_for_hash(1);
    let b = cache_files_for_hash(16);
    let c = cache_files_for_hash(1);
    assert_ne!(a.log_file, b.log_file);
    assert_ne!(a.lock_file, b.lock_file);
    assert_ne!(a.work_dir, b.work_dir);
    assert_eq!(a.log_file, c.log_file);
}

#[test]
fn cache_run_begins_with_lookup() {
    let (phase, action) = cache_step(CachePhase::Start, CacheEvent::Begin);
    assert_eq!(phase, CachePhase::LookingUp);
    assert!(matches!(action, CacheAction::ReadLog));
}

#[test]
fn cache_run_replays_found_log() {
    let (phase, action) =
        cache_step(CachePhase::LookingUp, CacheEvent::LogLookup(Some("cargo:rustc-cfg=x\n".to_string())));
    assert_eq!(phase, CachePhase::Finished);
    assert!(matches!(action, CacheAction::Replay(ref t) if t == "cargo:rustc-cfg=x\n"));
}

#[test]
fn cache_run_builds_on_miss() {
    let (phase, action) = cache_step(CachePhase::LookingUp, CacheEvent::LogLookup(None));
    assert_eq!(phase, CachePhase::Building);
    assert!(matches!(action, CacheAction::RunBuild));
}

#[test]
fn cache_run_commits_success() {
    let (phase, action) = cache_step(
        CachePhase::Building,
        CacheEvent::BuildDone { succeeded: true, captured: "out".to_string() },
    );
    assert_eq!(phase, CachePhase::Finished);
    assert!(matches!(action, CacheAction::CommitAndReplay(ref t) if t == "out"));
}

#[test]
fn cache_run_reports_failure() {
    let (phase, action) = cache_step(
        CachePhase::Building,
        CacheEvent::BuildDone { succeeded: false, captured: "err".to_string() },
    );
    assert_eq!(phase, CachePhase::Failed);
    assert!(matches!(action, CacheAction::ReportAndFail(ref t) if t == "err"));
}

#[test]
fn cache_run_ignores_out_of_place_events() {
    let (phase, action) = cache_step(CachePhase::Finished, CacheEvent::Begin);
    assert_eq!(phase, CachePhase::Finished);
    assert!(matches!(action, CacheAction::Ignore));
    let (phase, action) = cache_step(CachePhase::Failed, CacheEvent::LogLookup(None));
    assert_eq!(phase, CachePhase::Failed);
    assert!(matches!(action, CacheAction::Ignore));
    let (phase, action) = cache_step(
        CachePhase::Start,
        CacheEvent::BuildDone { succeeded: true, captured: String::new() },
    );
    assert_eq!(phase, CachePhase::Start);
    assert!(matches!(action, CacheAction::Ignore));
}

#[test]
fn cache_run_whole_miss_then_success() {
    let mut phase = CachePhase::Start;
    let mut actions = Vec::new();
    let events = vec![
        CacheEvent::Begin,
        CacheEvent::LogLookup(None),
        CacheEvent::BuildDone { succeeded: true, captured: "log".to_string() },
    ];
    for e in events {
        let (p, a) = cache_step(phase, e);
        phase = p;
        actions.push(a);
    }
    assert_eq!(phase, CachePhase::Finished);
    assert!(matches!(actions[0], CacheAction::ReadLog));
    assert!(matches!(actions[1], CacheAction::RunBuild));
    assert!(matches!(actions[2], CacheAction::CommitAndReplay(ref t) if t == "log"));
}
