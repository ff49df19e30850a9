//! Properties that hold across the functions of the library.
use vstd::prelude::*;

use crate::cache::{
    cache_key_spec, cache_stem, cache_step_spec, files_match, key_prefix, CacheAction, CacheEvent,
    CacheFiles, CachePhase, WrapperFormat,
};
use crate::entry::{entry_format, entry_symbol, exports, forwarded_symbol, EntryPoint};
use crate::hex::{hex_digits, lemma_hex_injective};
use crate::text::{extension_of, has_dot_from, is_last_dot};
use crate::plan::{
    entry_rename, entry_renames, mode_define, renamed_prefix, vst3_entry_points, DefineView,
    TargetOs,
};
use crate::root::{auv2_choice, auv2_plan_view, vst3_choice, vst3_plan_view, BuildContext};
use crate::bundled::{bundled_auv2_plan_view, bundled_vst3_plan_view};
use crate::tables::{
    auv2_defines, bundled_auv2_defines, bundled_vst3_os_defines, vst3_defines, vst3_os_defines,
};
use crate::walk::{
    dir_children, entry_of, forest_files, forest_size, is_match, lemma_dir_children_size,
    lemma_forest_size_add, lemma_forest_size_last, listing, matching_files, node_path, subdirs,
    tree_files, walk_from, EntryView, FsNode,
};

verus! {

proof fn lemma_prefix_cancel(a: Seq<char>, x: Seq<char>, y: Seq<char>)
    requires
        a + x == a + y,
    ensures
        x == y,
{
    assert(x =~= (a + x).subrange(a.len() as int, (a + x).len() as int));
    assert(y =~= (a + y).subrange(a.len() as int, (a + y).len() as int));
}

proof fn lemma_suffix_cancel(x: Seq<char>, y: Seq<char>, c: Seq<char>)
    requires
        x + c == y + c,
    ensures
        x == y,
{
    assert((x + c).len() == (y + c).len());
    assert(x =~= (x + c).subrange(0, x.len() as int));
    assert(y =~= (y + c).subrange(0, y.len() as int));
}

/// Builds of different SDK paths, or of different formats, never share a cache key: the key
/// determines both.
pub proof fn law_cache_key_determines_build(
    f1: WrapperFormat,
    s1: Seq<char>,
    f2: WrapperFormat,
    s2: Seq<char>,
)
    requires
        cache_key_spec(f1, s1) == cache_key_spec(f2, s2),
    ensures
        f1 == f2,
        s1 == s2,
{
    reveal_strlit("vst3-");
    reveal_strlit("auv2-");
    let k1 = cache_key_spec(f1, s1);
    let k2 = cache_key_spec(f2, s2);
    assert(k1[0] == key_prefix(f1)[0]);
    assert(k2[0] == key_prefix(f2)[0]);
    if f1 != f2 {
        assert(key_prefix(f1)[0] != key_prefix(f2)[0]);
        assert(false);
    }
    lemma_prefix_cancel(key_prefix(f1), s1, s2);
}

/// Two builds use the same log file exactly when their keys hash alike; the same holds of the
/// lock file and of the working directory.
pub proof fn law_cache_files_follow_hash(a: CacheFiles, ha: u64, b: CacheFiles, hb: u64)
    requires
        files_match(a, ha),
        files_match(b, hb),
    ensures
        (a.log_file@ == b.log_file@) <==> (ha == hb),
        (a.lock_file@ == b.lock_file@) <==> (ha == hb),
        (a.work_dir@ == b.work_dir@) <==> (ha == hb),
{
    if a.log_file@ == b.log_file@ {
        lemma_suffix_cancel(cache_stem(ha), cache_stem(hb), ".output"@);
        lemma_prefix_cancel("build-"@, hex_digits(ha as nat), hex_digits(hb as nat));
        lemma_hex_injective(ha as nat, hb as nat);
    }
    if a.lock_file@ == b.lock_file@ {
        lemma_suffix_cancel(cache_stem(ha), cache_stem(hb), ".lock"@);
        lemma_prefix_cancel("build-"@, hex_digits(ha as nat), hex_digits(hb as nat));
        lemma_hex_injective(ha as nat, hb as nat);
    }
    if a.work_dir@ == b.work_dir@ {
        lemma_prefix_cancel("build-"@, hex_digits(ha as nat), hex_digits(hb as nat));
        lemma_hex_injective(ha as nat, hb as nat);
    }
}

/// A cached build run compiles only after looking for a log of an earlier build and finding
/// none.
pub proof fn law_build_only_after_miss(phase: CachePhase, event: CacheEvent)
    requires
        cache_step_spec(phase, event).1 is RunBuild,
    ensures
        phase == CachePhase::LookingUp,
        event matches CacheEvent::LogLookup(None),
{
}

/// The log of a build is written only after the build succeeded, and what is then printed is
/// exactly what the build printed.
pub proof fn law_commit_only_after_success(phase: CachePhase, event: CacheEvent)
    requires
        cache_step_spec(phase, event).1 is CommitAndReplay,
    ensures
        phase == CachePhase::Building,
        event matches CacheEvent::BuildDone { succeeded, captured } && succeeded
            && cache_step_spec(phase, event).1 == CacheAction::CommitAndReplay(captured),
{
}

/// A build that succeeded is always committed and its output replayed as it stands, and a
/// build that failed is always reported and its failure passed on, whatever it printed.
pub proof fn law_build_outcome_decides(succeeded: bool, captured: String)
    ensures
        succeeded ==> cache_step_spec(
            CachePhase::Building,
            CacheEvent::BuildDone { succeeded, captured },
        ) == (CachePhase::Finished, CacheAction::CommitAndReplay(captured)),
        !succeeded ==> cache_step_spec(
            CachePhase::Building,
            CacheEvent::BuildDone { succeeded, captured },
        ) == (CachePhase::Failed, CacheAction::ReportAndFail(captured)),
{
}

/// A log found in the cache is replayed as it stands, and nothing is compiled.
pub proof fn law_cached_log_replayed(text: String)
    ensures
        cache_step_spec(CachePhase::LookingUp, CacheEvent::LogLookup(Some(text))) == (
            CachePhase::Finished,
            CacheAction::Replay(text),
        ),
{
}

/// A run that is over stays over, whatever is reported to it.
pub proof fn law_finished_run_is_over(phase: CachePhase, event: CacheEvent)
    requires
        phase == CachePhase::Finished || phase == CachePhase::Failed,
    ensures
        cache_step_spec(phase, event) == (phase, CacheAction::Ignore),
{
}

/// A VST3 wrapper is built exactly when its SDK path is given and names a directory.
pub proof fn law_vst3_built_iff_sdk_dir(ctx: BuildContext)
    ensures
        vst3_choice(ctx) is Build <==> (ctx.vst3_sdk matches Some(sdk) && sdk.is_dir),
        vst3_choice(ctx) is Invalid <==> (ctx.vst3_sdk matches Some(sdk) && !sdk.is_dir),
{
}

/// An AUv2 wrapper is built only for macOS, and there exactly when its SDK path is given and
/// names a directory.
pub proof fn law_auv2_only_on_macos(ctx: BuildContext)
    ensures
        !(auv2_choice(ctx) is Skip) ==> ctx.os@ == "macos"@,
        ctx.os@ == "macos"@ ==> (auv2_choice(ctx) is Build <==> (ctx.auv2_sdk matches Some(sdk)
            && sdk.is_dir)),
{
}

/// Every VST3 entry point is defined as `clap_wrapper_` followed by its own name, so the
/// compiled wrapper exports it under that name, in both VST3 builds.
pub proof fn law_vst3_entry_points_renamed(os: TargetOs, debug: bool, verbose: bool, i: int)
    requires
        0 <= i < vst3_entry_points().len(),
    ensures
        vst3_plan_view(os, debug, verbose).defines.contains(entry_rename(vst3_entry_points()[i])),
        bundled_vst3_plan_view(os, debug).defines.contains(entry_rename(vst3_entry_points()[i])),
        entry_rename(vst3_entry_points()[i]).value == Some(renamed_prefix() + vst3_entry_points()[i]),
{
    let d = vst3_plan_view(os, debug, verbose).defines;
    assert(d[3 + i] == entry_renames()[i]);
    let b = bundled_vst3_plan_view(os, debug).defines;
    assert(b[3 + i] == entry_renames()[i]);
}

/// The walk collects a file exactly when it is not a directory and its name has the
/// extension looked for.
pub proof fn law_walk_collects_matching<P>(es: Seq<EntryView<P>>, ext: Seq<char>)
    ensures
        forall|j: int| 0 <= j < es.len() && is_match(es[j], ext)
            ==> matching_files(es, ext).contains(#[trigger] es[j].path),
        forall|p: P| matching_files(es, ext).contains(p)
            ==> exists|j: int| 0 <= j < es.len() && is_match(es[j], ext) && #[trigger] es[j].path == p,
    decreases es.len(),
{
    if es.len() > 0 {
        let init = es.drop_last();
        law_walk_collects_matching(init, ext);
        assert forall|j: int| 0 <= j < es.len() && is_match(es[j], ext)
            implies matching_files(es, ext).contains(#[trigger] es[j].path) by {
            if j < es.len() - 1 {
                assert(init[j] == es[j]);
                let k = choose|k: int| 0 <= k < matching_files(init, ext).len()
                    && matching_files(init, ext)[k] == init[j].path;
                if is_match(es.last(), ext) {
                    assert(matching_files(es, ext)[k] == es[j].path);
                }
            } else {
                assert(matching_files(es, ext).last() == es[j].path);
            }
        }
        assert forall|p: P| matching_files(es, ext).contains(p)
            implies exists|j: int| 0 <= j < es.len() && is_match(es[j], ext) && #[trigger] es[j].path == p by {
            let m = matching_files(es, ext);
            let k = choose|k: int| 0 <= k < m.len() && m[k] == p;
            if is_match(es.last(), ext) && k == m.len() - 1 {
                assert(es[es.len() - 1].path == p);
            } else {
                assert(matching_files(init, ext)[k] == p);
                assert(matching_files(init, ext).contains(p));
                let j = choose|j: int| 0 <= j < init.len() && is_match(init[j], ext) && init[j].path == p;
                assert(es[j] == init[j]);
            }
        }
    }
}

/// The walk goes on into exactly the directories among the entries.
pub proof fn law_walk_descends_into_dirs<P>(es: Seq<EntryView<P>>)
    ensures
        forall|j: int| 0 <= j < es.len() && es[j].is_dir
            ==> subdirs(es).contains(#[trigger] es[j].path),
        forall|p: P| subdirs(es).contains(p)
            ==> exists|j: int| 0 <= j < es.len() && es[j].is_dir && #[trigger] es[j].path == p,
    decreases es.len(),
{
    if es.len() > 0 {
        let init = es.drop_last();
        law_walk_descends_into_dirs(init);
        assert forall|j: int| 0 <= j < es.len() && es[j].is_dir
            implies subdirs(es).contains(#[trigger] es[j].path) by {
            if j < es.len() - 1 {
                assert(init[j] == es[j]);
                let k = choose|k: int| 0 <= k < subdirs(init).len() && subdirs(init)[k] == init[j].path;
                if es.last().is_dir {
                    assert(subdirs(es)[k] == es[j].path);
                }
            } else {
                assert(subdirs(es).last() == es[j].path);
            }
        }
        assert forall|p: P| subdirs(es).contains(p)
            implies exists|j: int| 0 <= j < es.len() && es[j].is_dir && #[trigger] es[j].path == p by {
            let m = subdirs(es);
            let k = choose|k: int| 0 <= k < m.len() && m[k] == p;
            if es.last().is_dir && k == m.len() - 1 {
                assert(es[es.len() - 1].path == p);
            } else {
                assert(subdirs(init)[k] == p);
                assert(subdirs(init).contains(p));
                let j = choose|j: int| 0 <= j < init.len() && init[j].is_dir && init[j].path == p;
                assert(es[j] == init[j]);
            }
        }
    }
}

proof fn lemma_seq_differ(a: Seq<char>, b: Seq<char>, i: int)
    requires
        a.len() != b.len() || (0 <= i < a.len() && 0 <= i < b.len() && a[i] != b[i]),
    ensures
        a != b,
{
}

/// The names of the definitions other than the configuration one.
pub open spec fn is_other_define_name(x: Seq<char>) -> bool {
    x == "CLAP_WRAPPER_VERSION"@ ||
    x == "CLAP_WRAPPER_BUILD_FOR_VST3"@ ||
    x == "STATICALLY_LINKED_CLAP_ENTRY"@ ||
    x == "GetPluginFactory"@ ||
    x == "ModuleEntry"@ ||
    x == "ModuleExit"@ ||
    x == "InitDll"@ ||
    x == "ExitDll"@ ||
    x == "bundleEntry"@ ||
    x == "bundleExit"@ ||
    x == "MACOS_USE_STD_FILESYSTEM"@ ||
    x == "MAC"@ ||
    x == "WIN"@ ||
    x == "LIN"@ ||
    x == "CLAP_WRAPPER_BUILD_AUV2"@ ||
    x == "DICTIONARY_STREAM_FORMAT_WRAPPER"@ ||
    x == "MACOS_USE_GHC_FILESYSTEM"@
}

proof fn lemma_names_differ(x: Seq<char>)
    requires
        is_other_define_name(x),
    ensures
        x != "DEVELOPMENT"@,
        x != "RELEASE"@,
{
    // Each listed name differs from each target in length or in its first character;
    // the case split names the listed name that `x` is.
    reveal_strlit("CLAP_WRAPPER_VERSION");
    reveal_strlit("CLAP_WRAPPER_BUILD_FOR_VST3");
    reveal_strlit("STATICALLY_LINKED_CLAP_ENTRY");
    reveal_strlit("GetPluginFactory");
    reveal_strlit("ModuleEntry");
    reveal_strlit("ModuleExit");
    reveal_strlit("InitDll");
    reveal_strlit("ExitDll");
    reveal_strlit("bundleEntry");
    reveal_strlit("bundleExit");
    reveal_strlit("MACOS_USE_STD_FILESYSTEM");
    reveal_strlit("MAC");
    reveal_strlit("WIN");
    reveal_strlit("LIN");
    reveal_strlit("CLAP_WRAPPER_BUILD_AUV2");
    reveal_strlit("DICTIONARY_STREAM_FORMAT_WRAPPER");
    reveal_strlit("MACOS_USE_GHC_FILESYSTEM");
    reveal_strlit("DEVELOPMENT");
    reveal_strlit("RELEASE");
    assert((x.len() != "DEVELOPMENT"@.len() || x[0] != "DEVELOPMENT"@[0]) && (x.len() != "RELEASE"@.len() || x[0] != "RELEASE"@[0])) by {
        if x == "CLAP_WRAPPER_VERSION"@ {
        } else if x == "CLAP_WRAPPER_BUILD_FOR_VST3"@ {
        } else if x == "STATICALLY_LINKED_CLAP_ENTRY"@ {
        } else if x == "GetPluginFactory"@ {
        } else if x == "ModuleEntry"@ {
        } else if x == "ModuleExit"@ {
        } else if x == "InitDll"@ {
        } else if x == "ExitDll"@ {
        } else if x == "bundleEntry"@ {
        } else if x == "bundleExit"@ {
        } else if x == "MACOS_USE_STD_FILESYSTEM"@ {
        } else if x == "MAC"@ {
        } else if x == "WIN"@ {
        } else if x == "LIN"@ {
        } else if x == "CLAP_WRAPPER_BUILD_AUV2"@ {
        } else if x == "DICTIONARY_STREAM_FORMAT_WRAPPER"@ {
        } else if x == "MACOS_USE_GHC_FILESYSTEM"@ {
        }
    }
    lemma_seq_differ(x, "DEVELOPMENT"@, 0);
    lemma_seq_differ(x, "RELEASE"@, 0);
}

/// The names of a sequence of definitions.
pub open spec fn define_names(ds: Seq<DefineView>) -> Seq<Seq<char>> {
    ds.map_values(|d: DefineView| d.name)
}

/// Whether `ds` defines `DEVELOPMENT` exactly when `debug` holds, and `RELEASE` exactly when
/// it does not.
pub open spec fn selects_mode(ds: Seq<DefineView>, debug: bool) -> bool {
    &&& define_names(ds).contains("DEVELOPMENT"@) <==> debug
    &&& define_names(ds).contains("RELEASE"@) <==> !debug
}

proof fn lemma_selects_mode(ds: Seq<DefineView>, m: int, debug: bool)
    requires
        0 <= m < ds.len(),
        ds[m] == mode_define(debug),
        forall|k: int| 0 <= k < ds.len() && k != m ==> is_other_define_name(#[trigger] ds[k].name),
    ensures
        selects_mode(ds, debug),
{
    reveal_strlit("DEVELOPMENT");
    reveal_strlit("RELEASE");
    lemma_seq_differ("DEVELOPMENT"@, "RELEASE"@, 0);
    let n = define_names(ds);
    assert(n[m] == mode_define(debug).name);
    assert forall|k: int| 0 <= k < n.len() && k != m implies n[k] != "DEVELOPMENT"@ && n[k] != "RELEASE"@ by {
        assert(n[k] == ds[k].name);
        lemma_names_differ(ds[k].name);
    }
}

proof fn lemma_entry_names_are_other(k: int)
    requires
        0 <= k < 7,
    ensures
        is_other_define_name(entry_renames()[k].name),
{
    assert(entry_renames()[k].name == vst3_entry_points()[k]);
}

/// Every build defines `DEVELOPMENT` for a debug build and `RELEASE` otherwise, never both.
pub proof fn law_mode_define(os: TargetOs, debug: bool, verbose: bool)
    ensures
        selects_mode(vst3_plan_view(os, debug, verbose).defines, debug),
        selects_mode(auv2_plan_view(debug, verbose).defines, debug),
        selects_mode(bundled_vst3_plan_view(os, debug).defines, debug),
        selects_mode(bundled_auv2_plan_view(debug).defines, debug),
{
    let d = vst3_plan_view(os, debug, verbose).defines;
    assert forall|k: int| 0 <= k < d.len() && k != 10 implies is_other_define_name(#[trigger] d[k].name) by {
        if k < 3 {
            assert(d[k] == vst3_defines()[k]);
        } else if k < 10 {
            assert(d[k] == entry_renames()[k - 3]);
            lemma_entry_names_are_other(k - 3);
        } else {
            assert(d[k] == vst3_os_defines(os)[k - 11]);
        }
    }
    lemma_selects_mode(d, 10, debug);
    let b = bundled_vst3_plan_view(os, debug).defines;
    assert forall|k: int| 0 <= k < b.len() && k != 10 implies is_other_define_name(#[trigger] b[k].name) by {
        if k < 3 {
            assert(b[k] == vst3_defines()[k]);
        } else if k < 10 {
            assert(b[k] == entry_renames()[k - 3]);
            lemma_entry_names_are_other(k - 3);
        } else {
            assert(b[k] == bundled_vst3_os_defines(os)[k - 11]);
        }
    }
    lemma_selects_mode(b, 10, debug);
    let a = auv2_plan_view(debug, verbose).defines;
    assert forall|k: int| 0 <= k < a.len() && k != 6 implies is_other_define_name(#[trigger] a[k].name) by {
        assert(a[k] == auv2_defines()[k]);
    }
    lemma_selects_mode(a, 6, debug);
    let c = bundled_auv2_plan_view(debug).defines;
    assert forall|k: int| 0 <= k < c.len() && k != 6 implies is_other_define_name(#[trigger] c[k].name) by {
        assert(c[k] == bundled_auv2_defines()[k]);
    }
    lemma_selects_mode(c, 6, debug);
}

/// The definition names that say nothing of the target system.
pub open spec fn is_system_neutral_name(x: Seq<char>) -> bool {
    x == "CLAP_WRAPPER_VERSION"@ ||
    x == "CLAP_WRAPPER_BUILD_FOR_VST3"@ ||
    x == "STATICALLY_LINKED_CLAP_ENTRY"@ ||
    x == "GetPluginFactory"@ ||
    x == "ModuleEntry"@ ||
    x == "ModuleExit"@ ||
    x == "InitDll"@ ||
    x == "ExitDll"@ ||
    x == "bundleEntry"@ ||
    x == "bundleExit"@ ||
    x == "MACOS_USE_STD_FILESYSTEM"@ ||
    x == "MACOS_USE_GHC_FILESYSTEM"@ ||
    x == "DEVELOPMENT"@ ||
    x == "RELEASE"@
}

proof fn lemma_neutral_names_differ(x: Seq<char>)
    requires
        is_system_neutral_name(x),
    ensures
        x != "MAC"@,
        x != "WIN"@,
        x != "LIN"@,
{
    // Each listed name differs from each target in length or in its first character;
    // the case split names the listed name that `x` is.
    reveal_strlit("CLAP_WRAPPER_VERSION");
    reveal_strlit("CLAP_WRAPPER_BUILD_FOR_VST3");
    reveal_strlit("STATICALLY_LINKED_CLAP_ENTRY");
    reveal_strlit("GetPluginFactory");
    reveal_strlit("ModuleEntry");
    reveal_strlit("ModuleExit");
    reveal_strlit("InitDll");
    reveal_strlit("ExitDll");
    reveal_strlit("bundleEntry");
    reveal_strlit("bundleExit");
    reveal_strlit("MACOS_USE_STD_FILESYSTEM");
    reveal_strlit("MACOS_USE_GHC_FILESYSTEM");
    reveal_strlit("DEVELOPMENT");
    reveal_strlit("RELEASE");
    reveal_strlit("MAC");
    reveal_strlit("WIN");
    reveal_strlit("LIN");
    assert((x.len() != "MAC"@.len() || x[0] != "MAC"@[0]) && (x.len() != "WIN"@.len() || x[0] != "WIN"@[0]) && (x.len() != "LIN"@.len() || x[0] != "LIN"@[0])) by {
        if x == "CLAP_WRAPPER_VERSION"@ {
        } else if x == "CLAP_WRAPPER_BUILD_FOR_VST3"@ {
        } else if x == "STATICALLY_LINKED_CLAP_ENTRY"@ {
        } else if x == "GetPluginFactory"@ {
        } else if x == "ModuleEntry"@ {
        } else if x == "ModuleExit"@ {
        } else if x == "InitDll"@ {
        } else if x == "ExitDll"@ {
        } else if x == "bundleEntry"@ {
        } else if x == "bundleExit"@ {
        } else if x == "MACOS_USE_STD_FILESYSTEM"@ {
        } else if x == "MACOS_USE_GHC_FILESYSTEM"@ {
        } else if x == "DEVELOPMENT"@ {
        } else if x == "RELEASE"@ {
        }
    }
    lemma_seq_differ(x, "MAC"@, 0);
    lemma_seq_differ(x, "WIN"@, 0);
    lemma_seq_differ(x, "LIN"@, 0);
}

/// The definition that tells the wrapper which system it is compiled for.
pub open spec fn system_macro(os: TargetOs) -> Seq<char> {
    match os {
        TargetOs::MacOs => "MAC"@,
        TargetOs::Windows => "WIN"@,
        TargetOs::Linux => "LIN"@,
    }
}

/// Whether `ds` defines the system macro of `os` and that of no other system.
pub open spec fn selects_system(ds: Seq<DefineView>, os: TargetOs) -> bool {
    forall|other: TargetOs| define_names(ds).contains(#[trigger] system_macro(other)) <==> other == os
}

proof fn lemma_selects_system(ds: Seq<DefineView>, m: int, os: TargetOs)
    requires
        0 <= m < ds.len(),
        ds[m].name == system_macro(os),
        forall|k: int| 0 <= k < ds.len() && k != m ==> is_system_neutral_name(#[trigger] ds[k].name),
    ensures
        selects_system(ds, os),
{
    reveal_strlit("MAC");
    reveal_strlit("WIN");
    reveal_strlit("LIN");
    lemma_seq_differ("MAC"@, "WIN"@, 0);
    lemma_seq_differ("MAC"@, "LIN"@, 0);
    lemma_seq_differ("WIN"@, "LIN"@, 0);
    let n = define_names(ds);
    assert(n[m] == system_macro(os));
    assert forall|k: int| 0 <= k < n.len() && k != m implies n[k] != "MAC"@ && n[k] != "WIN"@ && n[k] != "LIN"@ by {
        assert(n[k] == ds[k].name);
        lemma_neutral_names_differ(ds[k].name);
    }
    assert forall|other: TargetOs| n.contains(#[trigger] system_macro(other)) <==> other == os by {
        if other == os {
            assert(n[m] == system_macro(other));
        }
    }
}

/// Both VST3 builds are compiled for the target system: they define its macro (`MAC`, `WIN`
/// or `LIN`) and that of no other system.
pub proof fn law_system_define(os: TargetOs, debug: bool, verbose: bool)
    ensures
        selects_system(vst3_plan_view(os, debug, verbose).defines, os),
        selects_system(bundled_vst3_plan_view(os, debug).defines, os),
{
    reveal_strlit("DEVELOPMENT");
    reveal_strlit("RELEASE");
    let d = vst3_plan_view(os, debug, verbose).defines;
    let m: int = if os == TargetOs::MacOs { 12 } else { 11 };
    assert forall|k: int| 0 <= k < d.len() && k != m implies is_system_neutral_name(#[trigger] d[k].name) by {
        if k < 3 {
            assert(d[k] == vst3_defines()[k]);
        } else if k < 10 {
            assert(d[k] == entry_renames()[k - 3]);
            assert(entry_renames()[k - 3].name == vst3_entry_points()[k - 3]);
        } else if k == 10 {
        } else {
            assert(d[k] == vst3_os_defines(os)[k - 11]);
        }
    }
    assert(d[m] == vst3_os_defines(os)[m - 11]);
    lemma_selects_system(d, m, os);
    let b = bundled_vst3_plan_view(os, debug).defines;
    assert forall|k: int| 0 <= k < b.len() && k != 11 implies is_system_neutral_name(#[trigger] b[k].name) by {
        if k < 3 {
            assert(b[k] == vst3_defines()[k]);
        } else if k < 10 {
            assert(b[k] == entry_renames()[k - 3]);
            assert(entry_renames()[k - 3].name == vst3_entry_points()[k - 3]);
        } else if k == 10 {
        } else {
            assert(b[k] == bundled_vst3_os_defines(os)[k - 11]);
        }
    }
    assert(b[11] == bundled_vst3_os_defines(os)[0]);
    lemma_selects_system(b, 11, os);
}

/// Each build sets the configuration flag that names the library it produced (the flag that
/// turns on the matching entry points), and only the builds against an SDK path silence
/// warnings, exactly when `CLAP_WRAPPER_VERBOSE` is not `1`.
pub proof fn law_plan_outputs(os: TargetOs, debug: bool, verbose: bool)
    ensures
        vst3_plan_view(os, debug, verbose).cfg == vst3_plan_view(os, debug, verbose).lib_name,
        vst3_plan_view(os, debug, verbose).lib_name == "clap_wrapper_vst3"@,
        bundled_vst3_plan_view(os, debug).cfg == bundled_vst3_plan_view(os, debug).lib_name,
        bundled_vst3_plan_view(os, debug).lib_name == "clap_wrapper_vst3"@,
        auv2_plan_view(debug, verbose).cfg == auv2_plan_view(debug, verbose).lib_name,
        auv2_plan_view(debug, verbose).lib_name == "clap_wrapper_auv2"@,
        bundled_auv2_plan_view(debug).cfg == bundled_auv2_plan_view(debug).lib_name,
        bundled_auv2_plan_view(debug).lib_name == "clap_wrapper_auv2"@,
        vst3_plan_view(os, debug, verbose).quiet == !verbose,
        auv2_plan_view(debug, verbose).quiet == !verbose,
        !bundled_vst3_plan_view(os, debug).quiet,
        !bundled_auv2_plan_view(debug).quiet,
{
}

/// The position of a VST3 entry point among the renamed symbols.
pub open spec fn rename_index(e: EntryPoint) -> int {
    match e {
        EntryPoint::GetPluginFactory => 0,
        EntryPoint::ModuleEntry => 1,
        EntryPoint::ModuleExit => 2,
        EntryPoint::InitDll => 3,
        EntryPoint::ExitDll => 4,
        EntryPoint::BundleEntry => 5,
        EntryPoint::BundleExit => 6,
        EntryPoint::GetPluginFactoryAuv2 => -1,
    }
}

/// Every VST3 entry point exported for a system calls a symbol that both VST3 builds for that
/// system produce: the build renames the wrapper's definition to exactly the symbol called.
pub proof fn law_vst3_exports_linked(os: TargetOs, debug: bool, verbose: bool, e: EntryPoint)
    requires
        exports(WrapperFormat::Vst3, os).contains(e),
    ensures
        entry_format(e) == WrapperFormat::Vst3,
        entry_rename(entry_symbol(e)).value == Some(forwarded_symbol(e)),
        vst3_plan_view(os, debug, verbose).defines.contains(entry_rename(entry_symbol(e))),
        bundled_vst3_plan_view(os, debug).defines.contains(entry_rename(entry_symbol(e))),
{
    assert(e != EntryPoint::GetPluginFactoryAuv2);
    let i = rename_index(e);
    assert(vst3_entry_points()[i] == entry_symbol(e));
    law_vst3_entry_points_renamed(os, debug, verbose, i);
}

/// The AUv2 factory is exported only for macOS, the one system for which an AUv2 build can be
/// made, and it calls the wrapper's `wrapAsAUV2_inst0Factory`.
pub proof fn law_auv2_exports_only_on_macos(os: TargetOs, e: EntryPoint)
    requires
        exports(WrapperFormat::Auv2, os).contains(e),
    ensures
        os == TargetOs::MacOs,
        e == EntryPoint::GetPluginFactoryAuv2,
        forwarded_symbol(e) == "wrapAsAUV2_inst0Factory"@,
{
}

/// Each system exports the VST3 factory and its own pair of set-up and tear-down functions,
/// and no other system's.
pub proof fn law_vst3_exports_by_system(os: TargetOs)
    ensures
        exports(WrapperFormat::Vst3, os).contains(EntryPoint::GetPluginFactory),
        exports(WrapperFormat::Vst3, os).contains(EntryPoint::BundleEntry) <==> os == TargetOs::MacOs,
        exports(WrapperFormat::Vst3, os).contains(EntryPoint::BundleExit) <==> os == TargetOs::MacOs,
        exports(WrapperFormat::Vst3, os).contains(EntryPoint::InitDll) <==> os == TargetOs::Windows,
        exports(WrapperFormat::Vst3, os).contains(EntryPoint::ExitDll) <==> os == TargetOs::Windows,
        exports(WrapperFormat::Vst3, os).contains(EntryPoint::ModuleEntry) <==> os == TargetOs::Linux,
        exports(WrapperFormat::Vst3, os).contains(EntryPoint::ModuleExit) <==> os == TargetOs::Linux,
        !exports(WrapperFormat::Vst3, os).contains(EntryPoint::GetPluginFactoryAuv2),
{
    let v = exports(WrapperFormat::Vst3, os);
    assert(v[0] == EntryPoint::GetPluginFactory);
    assert(v[1] == match os {
        TargetOs::MacOs => EntryPoint::BundleEntry,
        TargetOs::Windows => EntryPoint::InitDll,
        TargetOs::Linux => EntryPoint::ModuleEntry,
    });
    assert(v[2] == match os {
        TargetOs::MacOs => EntryPoint::BundleExit,
        TargetOs::Windows => EntryPoint::ExitDll,
        TargetOs::Linux => EntryPoint::ModuleExit,
    });
}

/// No exported name is also the name of a wrapper symbol that an entry point calls, so the
/// exports never clash with the compiled wrapper's definitions.
pub proof fn law_no_symbol_clash(caller: EntryPoint, exported: EntryPoint)
    ensures
        forwarded_symbol(caller) != entry_symbol(exported),
{
    reveal_strlit("clap_wrapper_");
    reveal_strlit("wrapAsAUV2_inst0Factory");
    reveal_strlit("GetPluginFactory");
    reveal_strlit("ModuleEntry");
    reveal_strlit("ModuleExit");
    reveal_strlit("bundleEntry");
    reveal_strlit("bundleExit");
    reveal_strlit("InitDll");
    reveal_strlit("ExitDll");
    reveal_strlit("GetPluginFactoryAUV2");
    let f = forwarded_symbol(caller);
    let x = entry_symbol(exported);
    assert(f[0] == 'c' || f[0] == 'w');
    assert(x[0] != 'c' && x[0] != 'w') by {
        match exported {
            EntryPoint::GetPluginFactory => {},
            EntryPoint::ModuleEntry => {},
            EntryPoint::ModuleExit => {},
            EntryPoint::BundleEntry => {},
            EntryPoint::BundleExit => {},
            EntryPoint::InitDll => {},
            EntryPoint::ExitDll => {},
            EntryPoint::GetPluginFactoryAuv2 => {},
        }
    }
    lemma_seq_differ(f, x, 0);
}


proof fn lemma_forest_files_add<P>(a: Seq<FsNode<P>>, b: Seq<FsNode<P>>, ext: Seq<char>)
    ensures
        forest_files(a + b, ext) == forest_files(b, ext) + forest_files(a, ext),
    decreases b.len(),
{
    if b.len() == 0 {
        assert(a + b =~= a);
        assert(forest_files(b, ext) + forest_files(a, ext) =~= forest_files(a, ext));
    } else {
        lemma_forest_files_add(a, b.drop_last(), ext);
        assert((a + b).drop_last() =~= a + b.drop_last());
        assert((a + b).last() == b.last());
        assert(forest_files(a + b, ext) =~= tree_files(b.last(), ext) + (forest_files(
            b.drop_last(),
            ext,
        ) + forest_files(a, ext)));
    }
}

proof fn lemma_walk_from_stack<P>(stack: Seq<FsNode<P>>, ext: Seq<char>)
    ensures
        walk_from(stack, ext) == forest_files(stack, ext),
    decreases forest_size(stack),
{
    if stack.len() > 0 {
        lemma_forest_size_last(stack);
        let rest = stack.drop_last();
        assert(forest_files(stack, ext) == tree_files(stack.last(), ext) + forest_files(rest, ext));
        match stack.last() {
            FsNode::File { .. } => {
                lemma_walk_from_stack(rest, ext);
                assert(tree_files(stack.last(), ext) == Seq::<P>::empty());
                assert(forest_files(stack, ext) =~= forest_files(rest, ext));
            },
            FsNode::Dir { children, .. } => {
                let d = dir_children(children);
                lemma_dir_children_size(children);
                lemma_forest_size_add(rest, d);
                lemma_walk_from_stack(rest + d, ext);
                lemma_forest_files_add(rest, d, ext);
                let m = matching_files(listing(children), ext);
                assert(tree_files(stack.last(), ext) == m + forest_files(d, ext));
                assert(walk_from(stack, ext) == m + (forest_files(d, ext) + forest_files(rest, ext)));
                assert(forest_files(stack, ext) == (m + forest_files(d, ext)) + forest_files(rest, ext));
                assert(m + (forest_files(d, ext) + forest_files(rest, ext)) =~= (m + forest_files(d, ext))
                    + forest_files(rest, ext));
            },
        }
    }
}

/// A walk started at a directory and run until no directory is left collects exactly the
/// files with the extension below that directory, in depth-first order: those it lists
/// itself, in listing order, then those below each subdirectory, the last one first.
pub proof fn law_walk_collects_tree<P>(root: FsNode<P>, ext: Seq<char>)
    ensures
        walk_from(seq![root], ext) == tree_files(root, ext),
{
    lemma_walk_from_stack(seq![root], ext);
    assert(seq![root].drop_last() =~= Seq::<FsNode<P>>::empty());
    assert(forest_files(seq![root], ext) == tree_files(root, ext) + forest_files(
        Seq::<FsNode<P>>::empty(),
        ext,
    ));
    assert(forest_files(seq![root], ext) =~= tree_files(root, ext));
}

proof fn lemma_subdirs_of_listing<P>(cs: Seq<FsNode<P>>)
    ensures
        subdirs(listing(cs)) == dir_children(cs).map_values(|n: FsNode<P>| node_path(n)),
    decreases cs.len(),
{
    if cs.len() == 0 {
        assert(listing(cs) =~= Seq::<EntryView<P>>::empty());
        assert(dir_children(cs).map_values(|n: FsNode<P>| node_path(n)) =~= Seq::<P>::empty());
    } else {
        lemma_subdirs_of_listing(cs.drop_last());
        assert(listing(cs).drop_last() =~= listing(cs.drop_last()));
        assert(listing(cs).last() == entry_of(cs.last()));
        let d = dir_children(cs.drop_last());
        if cs.last() is Dir {
            assert(d.push(cs.last()).map_values(|n: FsNode<P>| node_path(n)) =~= d.map_values(
                |n: FsNode<P>| node_path(n),
            ).push(node_path(cs.last())));
        }
    }
}

/// One step of a `DirWalk` whose driver lists each directory as the tree has it is one step
/// of `walk_from`: with the pending paths those of the stack, `next_dir` gives the path of the
/// last directory of the stack, and `visit` with its listing leaves the paths of the next
/// stack pending and collects what `walk_from` collects at that step.
pub proof fn law_walk_step_follows_tree<P>(stack: Seq<FsNode<P>>, pending: Seq<P>)
    requires
        stack.len() > 0,
        stack.last() is Dir,
        pending == stack.map_values(|n: FsNode<P>| node_path(n)),
    ensures
        pending.last() == node_path(stack.last()),
        pending.drop_last() + subdirs(listing(stack.last()->children)) == (stack.drop_last()
            + dir_children(stack.last()->children)).map_values(|n: FsNode<P>| node_path(n)),
{
    let cs = stack.last()->children;
    lemma_subdirs_of_listing(cs);
    assert(pending.drop_last() =~= stack.drop_last().map_values(|n: FsNode<P>| node_path(n)));
    assert(pending.drop_last() + subdirs(listing(cs)) =~= (stack.drop_last() + dir_children(
        cs,
    )).map_values(|n: FsNode<P>| node_path(n)));
}


/// A cached run, driven to its end, does what the cache is for: a found log is replayed as
/// it stands; on a miss the build runs, and its output is committed and replayed when it
/// succeeds, or shown with the failure passed on when it fails.
pub proof fn law_cache_run_outcomes(log: String, captured: String, succeeded: bool)
    ensures
        cache_step_spec(CachePhase::Start, CacheEvent::Begin) == (
            CachePhase::LookingUp,
            CacheAction::ReadLog,
        ),
        cache_step_spec(CachePhase::LookingUp, CacheEvent::LogLookup(Some(log))) == (
            CachePhase::Finished,
            CacheAction::Replay(log),
        ),
        cache_step_spec(CachePhase::LookingUp, CacheEvent::LogLookup(None)) == (
            CachePhase::Building,
            CacheAction::RunBuild,
        ),
        cache_step_spec(CachePhase::Building, CacheEvent::BuildDone { succeeded, captured }).0
            == (if succeeded { CachePhase::Finished } else { CachePhase::Failed }),
{
}

/// The extension of a file name is what follows its last dot: a name made of a non-empty
/// stem, a dot and a dot-free extension has exactly that extension; a name without a dot, or
/// whose only dot comes first, has none.
pub proof fn law_extension(stem: Seq<char>, ext: Seq<char>)
    requires
        stem.len() > 0,
        forall|i: int| 0 <= i < ext.len() ==> ext[i] != '.',
    ensures
        extension_of(stem + seq!['.'] + ext) == Some(ext),
        extension_of(seq!['.'] + ext) is None,
        extension_of(ext) is None,
{
    let name = stem + seq!['.'] + ext;
    let k = stem.len() as int;
    assert(name[k] == '.');
    assert forall|j: int| k < j < name.len() implies name[j] != '.' by {
        assert(name[j] == ext[j - k - 1]);
    }
    assert(is_last_dot(name, k));
    let c = choose|c: int| is_last_dot(name, c);
    assert(c == k);
    assert(has_dot_from(name, 0));
    assert(has_dot_from(name, 1));
    assert(name.subrange(k + 1, name.len() as int) =~= ext);
    let dotted = seq!['.'] + ext;
    assert(dotted[0] == '.');
    assert(has_dot_from(dotted, 0));
    assert forall|j: int| 1 <= j < dotted.len() implies dotted[j] != '.' by {
        assert(dotted[j] == ext[j - 1]);
    }
}

} // verus!
