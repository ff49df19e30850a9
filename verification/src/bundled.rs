//! The builds of the `clap-wrapper-vst3` and `clap-wrapper-auv2` crates, which compile the
//! wrapper from the SDK sources bundled in their `external` directories.
use vstd::prelude::*;

use crate::plan::{
    entry_renames, mode_define, new_mode_define, new_string, os_of, parse_os, push_entry_renames,
    push_view, CompilePlan, Define, Loc, PlanError, PlanView, Source, TargetOs,
};
use crate::tables::{
    auv2_flags, auv2_libs, bundled_auv2_defines, bundled_auv2_includes, bundled_auv2_sdk_files,
    bundled_auv2_wrapper_files, bundled_shared_files, bundled_vst3_includes,
    bundled_vst3_os_defines, bundled_vst3_os_files, bundled_vst3_os_includes,
    bundled_vst3_os_libs, bundled_vst3_sdk_files, bundled_vst3_sdk_trees,
    bundled_vst3_wrapper_files, msvc_flags, push_auv2_flags, push_auv2_libs,
    push_bundled_auv2_defines, push_bundled_auv2_includes, push_bundled_auv2_sdk_files,
    push_bundled_auv2_wrapper_files, push_bundled_shared_files, push_bundled_vst3_includes,
    push_bundled_vst3_os_defines, push_bundled_vst3_os_files, push_bundled_vst3_os_includes,
    push_bundled_vst3_os_libs, push_bundled_vst3_sdk_files, push_bundled_vst3_sdk_trees,
    push_bundled_vst3_wrapper_files, push_msvc_flags, push_vst3_defines, vst3_defines,
};
use crate::text::str_eq;

verus! {

/// The compilation of the bundled VST3 wrapper, for a supported system.
pub open spec fn bundled_vst3_plan_view(os: TargetOs, debug: bool) -> PlanView {
    PlanView {
        std: "c++17"@,
        flags_if_supported: msvc_flags(),
        includes: bundled_vst3_includes() + bundled_vst3_os_includes(os),
        defines: vst3_defines() + entry_renames() + seq![mode_define(debug)]
            + bundled_vst3_os_defines(os),
        sources: bundled_vst3_sdk_trees() + bundled_vst3_sdk_files() + bundled_shared_files()
            + bundled_vst3_wrapper_files() + bundled_vst3_os_files(os),
        link_libs: bundled_vst3_os_libs(os),
        quiet: false,
        lib_name: "clap_wrapper_vst3"@,
        cfg: "clap_wrapper_vst3"@,
    }
}

/// Plans the compilation of the bundled VST3 wrapper; the target system must be macOS,
/// Windows or Linux.
pub fn bundled_vst3_plan(os: &str, debug: bool) -> (r: Result<CompilePlan, PlanError>)
    ensures
        os_of(os@) matches Some(t) ==> (r matches Ok(p) && p@ == bundled_vst3_plan_view(t, debug)),
        os_of(os@) is None ==> (r matches Err(PlanError::UnsupportedOs(s)) && s@ == os@),
{
    let t = match parse_os(os) {
        Some(t) => t,
        None => {
            return Err(PlanError::UnsupportedOs(new_string(os)));
        },
    };
    let mut flags: Vec<String> = Vec::new();
    push_msvc_flags(&mut flags);
    let mut includes: Vec<Loc> = Vec::new();
    push_bundled_vst3_includes(&mut includes);
    push_bundled_vst3_os_includes(&mut includes, t);
    let mut defines: Vec<Define> = Vec::new();
    push_vst3_defines(&mut defines);
    push_entry_renames(&mut defines);
    push_view(&mut defines, new_mode_define(debug));
    push_bundled_vst3_os_defines(&mut defines, t);
    let mut sources: Vec<Source> = Vec::new();
    push_bundled_vst3_sdk_trees(&mut sources);
    push_bundled_vst3_sdk_files(&mut sources);
    push_bundled_shared_files(&mut sources);
    push_bundled_vst3_wrapper_files(&mut sources);
    push_bundled_vst3_os_files(&mut sources, t);
    let mut link_libs: Vec<String> = Vec::new();
    push_bundled_vst3_os_libs(&mut link_libs, t);
    let plan = CompilePlan {
        std: new_string("c++17"),
        flags_if_supported: flags,
        includes,
        defines,
        sources,
        link_libs,
        quiet: false,
        lib_name: new_string("clap_wrapper_vst3"),
        cfg: new_string("clap_wrapper_vst3"),
    };
    proof {
        let v = plan@;
        let w = bundled_vst3_plan_view(t, debug);
        assert(v.flags_if_supported =~= w.flags_if_supported);
        assert(v.includes =~= w.includes);
        assert(v.defines =~= w.defines);
        assert(v.sources =~= w.sources);
        assert(v.link_libs =~= w.link_libs);
    }
    Ok(plan)
}

/// The compilation of the bundled AUv2 wrapper.
pub open spec fn bundled_auv2_plan_view(debug: bool) -> PlanView {
    PlanView {
        std: "c++20"@,
        flags_if_supported: auv2_flags(),
        includes: bundled_auv2_includes(),
        defines: bundled_auv2_defines().push(mode_define(debug)),
        sources: bundled_auv2_sdk_files() + bundled_shared_files() + bundled_auv2_wrapper_files(),
        link_libs: auv2_libs(),
        quiet: false,
        lib_name: "clap_wrapper_auv2"@,
        cfg: "clap_wrapper_auv2"@,
    }
}

/// Plans the compilation of the bundled AUv2 wrapper, which is built on macOS only: for any
/// other target there is nothing to build.
pub fn bundled_auv2_plan(os: &str, debug: bool) -> (r: Option<CompilePlan>)
    ensures
        os@ == "macos"@ ==> (r matches Some(p) && p@ == bundled_auv2_plan_view(debug)),
        os@ != "macos"@ ==> r is None,
{
    if !str_eq(os, "macos") {
        return None;
    }
    let mut flags: Vec<String> = Vec::new();
    push_auv2_flags(&mut flags);
    let mut includes: Vec<Loc> = Vec::new();
    push_bundled_auv2_includes(&mut includes);
    let mut defines: Vec<Define> = Vec::new();
    push_bundled_auv2_defines(&mut defines);
    push_view(&mut defines, new_mode_define(debug));
    let mut sources: Vec<Source> = Vec::new();
    push_bundled_auv2_sdk_files(&mut sources);
    push_bundled_shared_files(&mut sources);
    push_bundled_auv2_wrapper_files(&mut sources);
    let mut link_libs: Vec<String> = Vec::new();
    push_auv2_libs(&mut link_libs);
    let plan = CompilePlan {
        std: new_string("c++20"),
        flags_if_supported: flags,
        includes,
        defines,
        sources,
        link_libs,
        quiet: false,
        lib_name: new_string("clap_wrapper_auv2"),
        cfg: new_string("clap_wrapper_auv2"),
    };
    proof {
        let v = plan@;
        let w = bundled_auv2_plan_view(debug);
        assert(v.flags_if_supported =~= w.flags_if_supported);
        assert(v.includes =~= w.includes);
        assert(v.defines =~= w.defines);
        assert(v.sources =~= w.sources);
        assert(v.link_libs =~= w.link_libs);
    }
    Some(plan)
}

} // verus!
