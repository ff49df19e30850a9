//! The build of the `clap-wrapper` crate itself: which wrappers are built, against which SDK,
//! and what each compilation consists of.
//!
//! A VST3 wrapper is built when `CLAP_WRAPPER_VST3_SDK` names the VST3 SDK; an AUv2 wrapper
//! when `CLAP_WRAPPER_AUV2_SDK` names the Audio Unit SDK and the target is macOS. A path that
//! is given but is not a directory stops the build.
use vstd::prelude::*;

use crate::cache::{cache_key, cache_key_spec, WrapperFormat};
use crate::plan::{
    entry_renames, mode_define, new_mode_define, new_string, os_of, parse_os, push_entry_renames,
    push_view, CompilePlan, Define, Loc, PlanError, PlanView, Source,
    TargetOs,
};
use crate::tables::{
    auv2_defines, auv2_flags, auv2_includes, auv2_libs, auv2_sdk_files, auv2_wrapper_files,
    msvc_flags, push_auv2_defines, push_auv2_flags, push_auv2_includes, push_auv2_libs,
    push_auv2_sdk_files, push_auv2_wrapper_files, push_msvc_flags, push_shared_files,
    push_vst3_defines, push_vst3_includes, push_vst3_os_defines, push_vst3_os_files,
    push_vst3_os_libs, push_vst3_sdk_files, push_vst3_sdk_trees, push_vst3_wrapper_files,
    shared_files, vst3_defines, vst3_includes, vst3_os_defines, vst3_os_files, vst3_os_libs,
    vst3_sdk_files, vst3_sdk_trees, vst3_wrapper_files,
};
use crate::text::str_eq;

verus! {

/// An SDK path from the environment, and whether it names a directory.
pub struct SdkDir {
    pub path: String,
    pub is_dir: bool,
}

/// What the build of the crate depends on.
pub struct BuildContext {
    /// The target system, as Cargo names it (`CARGO_CFG_TARGET_OS`).
    pub os: String,
    /// Whether this is a debug build (`DEBUG` is `"true"`).
    pub debug: bool,
    /// Whether compiler warnings are shown (`CLAP_WRAPPER_VERBOSE` is `"1"`).
    pub verbose: bool,
    /// The VST3 SDK (`CLAP_WRAPPER_VST3_SDK`), if given.
    pub vst3_sdk: Option<SdkDir>,
    /// The Audio Unit SDK (`CLAP_WRAPPER_AUV2_SDK`), if given.
    pub auv2_sdk: Option<SdkDir>,
}

impl BuildContext {
    /// Reads the context from the values of the environment; a variable that is not set
    /// counts as the empty string.
    pub fn from_env_values(
        os: String,
        debug_var: &str,
        verbose_var: &str,
        vst3_sdk: Option<SdkDir>,
        auv2_sdk: Option<SdkDir>,
    ) -> (ctx: BuildContext)
        ensures
            ctx.os == os,
            ctx.debug == (debug_var@ == "true"@),
            ctx.verbose == (verbose_var@ == "1"@),
            ctx.vst3_sdk == vst3_sdk,
            ctx.auv2_sdk == auv2_sdk,
    {
        BuildContext {
            os,
            debug: str_eq(debug_var, "true"),
            verbose: str_eq(verbose_var, "1"),
            vst3_sdk,
            auv2_sdk,
        }
    }
}

/// What becomes of one wrapper format: nothing, a build with the given cache key, or a stop
/// because the given SDK path is not a directory.
pub enum BuildChoice {
    Skip,
    Build(Seq<char>),
    Invalid(Seq<char>),
}

/// The choice for a format whose SDK is `sdk`.
pub open spec fn sdk_choice(format: WrapperFormat, sdk: SdkDir) -> BuildChoice {
    if sdk.is_dir {
        BuildChoice::Build(cache_key_spec(format, sdk.path@))
    } else {
        BuildChoice::Invalid(sdk.path@)
    }
}

/// VST3 is built whenever its SDK is given.
pub open spec fn vst3_choice(ctx: BuildContext) -> BuildChoice {
    match ctx.vst3_sdk {
        Some(sdk) => sdk_choice(WrapperFormat::Vst3, sdk),
        None => BuildChoice::Skip,
    }
}

/// AUv2 is built when its SDK is given and the target is macOS.
pub open spec fn auv2_choice(ctx: BuildContext) -> BuildChoice {
    match ctx.auv2_sdk {
        Some(sdk) => if ctx.os@ == "macos"@ {
            sdk_choice(WrapperFormat::Auv2, sdk)
        } else {
            BuildChoice::Skip
        },
        None => BuildChoice::Skip,
    }
}

/// A build to run: the format and its cache key.
pub struct BuildRequest {
    pub format: WrapperFormat,
    pub key: String,
}

/// Whether `r` is the error that the SDK path `path` of `format` is not a directory.
pub open spec fn invalid_sdk<T>(r: Result<T, PlanError>, format: WrapperFormat, path: Seq<char>) -> bool {
    r matches Err(PlanError::InvalidSdkPath { format: f, path: p }) && f == format && p@ == path
}

/// Whether `r` is the outcome that `choice` calls for.
pub open spec fn decided_as(r: Result<Option<BuildRequest>, PlanError>, format: WrapperFormat, choice: BuildChoice) -> bool {
    match choice {
        BuildChoice::Skip => r matches Ok(None),
        BuildChoice::Build(key) => r matches Ok(Some(req)) && req.format == format && req.key@ == key,
        BuildChoice::Invalid(path) => invalid_sdk(r, format, path),
    }
}

fn decide_sdk(format: WrapperFormat, sdk: &SdkDir) -> (r: Result<Option<BuildRequest>, PlanError>)
    ensures
        decided_as(r, format, sdk_choice(format, *sdk)),
{
    if sdk.is_dir {
        Ok(Some(BuildRequest { format, key: cache_key(format, sdk.path.as_str()) }))
    } else {
        Err(PlanError::InvalidSdkPath { format, path: sdk.path.clone() })
    }
}

/// Decides whether the VST3 wrapper is built.
pub fn vst3_decision(ctx: &BuildContext) -> (r: Result<Option<BuildRequest>, PlanError>)
    ensures
        decided_as(r, WrapperFormat::Vst3, vst3_choice(*ctx)),
{
    match &ctx.vst3_sdk {
        Some(sdk) => decide_sdk(WrapperFormat::Vst3, sdk),
        None => Ok(None),
    }
}

/// Decides whether the AUv2 wrapper is built.
pub fn auv2_decision(ctx: &BuildContext) -> (r: Result<Option<BuildRequest>, PlanError>)
    ensures
        decided_as(r, WrapperFormat::Auv2, auv2_choice(*ctx)),
{
    match &ctx.auv2_sdk {
        Some(sdk) => if str_eq(ctx.os.as_str(), "macos") {
            decide_sdk(WrapperFormat::Auv2, sdk)
        } else {
            Ok(None)
        },
        None => Ok(None),
    }
}

/// The compilation of the VST3 wrapper against an SDK path, for a supported system.
pub open spec fn vst3_plan_view(os: TargetOs, debug: bool, verbose: bool) -> PlanView {
    PlanView {
        std: "c++17"@,
        flags_if_supported: msvc_flags(),
        includes: vst3_includes(),
        defines: vst3_defines() + entry_renames() + seq![mode_define(debug)] + vst3_os_defines(os),
        sources: vst3_sdk_trees() + vst3_sdk_files() + shared_files() + vst3_wrapper_files()
            + vst3_os_files(os),
        link_libs: vst3_os_libs(os),
        quiet: !verbose,
        lib_name: "clap_wrapper_vst3"@,
        cfg: "clap_wrapper_vst3"@,
    }
}

/// Plans the compilation of the VST3 wrapper against an SDK path; the target system must be
/// macOS, Windows or Linux.
pub fn vst3_plan(os: &str, debug: bool, verbose: bool) -> (r: Result<CompilePlan, PlanError>)
    ensures
        os_of(os@) matches Some(t) ==> (r matches Ok(p) && p@ == vst3_plan_view(t, debug, verbose)),
        os_of(os@) is None ==> (r matches Err(PlanError::UnsupportedOs(s)) && s@ == os@),
{
    let t = match parse_os(os) {
        Some(t) => t,
        None => {
            return Err(PlanError::UnsupportedOs(new_string(os)));
        },
    };
    let mut flags: Vec<String> = Vec::new();
    push_msvc_flags(&mut flags);
    let mut includes: Vec<Loc> = Vec::new();
    push_vst3_includes(&mut includes);
    let mut defines: Vec<Define> = Vec::new();
    push_vst3_defines(&mut defines);
    push_entry_renames(&mut defines);
    push_view(&mut defines, new_mode_define(debug));
    push_vst3_os_defines(&mut defines, t);
    let mut sources: Vec<Source> = Vec::new();
    push_vst3_sdk_trees(&mut sources);
    push_vst3_sdk_files(&mut sources);
    push_shared_files(&mut sources);
    push_vst3_wrapper_files(&mut sources);
    push_vst3_os_files(&mut sources, t);
    let mut link_libs: Vec<String> = Vec::new();
    push_vst3_os_libs(&mut link_libs, t);
    let plan = CompilePlan {
        std: new_string("c++17"),
        flags_if_supported: flags,
        includes,
        defines,
        sources,
        link_libs,
        quiet: !verbose,
        lib_name: new_string("clap_wrapper_vst3"),
        cfg: new_string("clap_wrapper_vst3"),
    };
    proof {
        let v = plan@;
        let w = vst3_plan_view(t, debug, verbose);
        assert(v.flags_if_supported =~= w.flags_if_supported);
        assert(v.includes =~= w.includes);
        assert(v.defines =~= w.defines);
        assert(v.sources =~= w.sources);
        assert(v.link_libs =~= w.link_libs);
    }
    Ok(plan)
}

/// The compilation of the AUv2 wrapper against an SDK path (macOS only).
pub open spec fn auv2_plan_view(debug: bool, verbose: bool) -> PlanView {
    PlanView {
        std: "c++20"@,
        flags_if_supported: auv2_flags(),
        includes: auv2_includes(),
        defines: auv2_defines().push(mode_define(debug)),
        sources: auv2_sdk_files() + shared_files() + auv2_wrapper_files(),
        link_libs: auv2_libs(),
        quiet: !verbose,
        lib_name: "clap_wrapper_auv2"@,
        cfg: "clap_wrapper_auv2"@,
    }
}

/// Plans the compilation of the AUv2 wrapper against an SDK path.
pub fn auv2_plan(debug: bool, verbose: bool) -> (p: CompilePlan)
    ensures
        p@ == auv2_plan_view(debug, verbose),
{
    let mut flags: Vec<String> = Vec::new();
    push_auv2_flags(&mut flags);
    let mut includes: Vec<Loc> = Vec::new();
    push_auv2_includes(&mut includes);
    let mut defines: Vec<Define> = Vec::new();
    push_auv2_defines(&mut defines);
    push_view(&mut defines, new_mode_define(debug));
    let mut sources: Vec<Source> = Vec::new();
    push_auv2_sdk_files(&mut sources);
    push_shared_files(&mut sources);
    push_auv2_wrapper_files(&mut sources);
    let mut link_libs: Vec<String> = Vec::new();
    push_auv2_libs(&mut link_libs);
    let plan = CompilePlan {
        std: new_string("c++20"),
        flags_if_supported: flags,
        includes,
        defines,
        sources,
        link_libs,
        quiet: !verbose,
        lib_name: new_string("clap_wrapper_auv2"),
        cfg: new_string("clap_wrapper_auv2"),
    };
    proof {
        let v = plan@;
        let w = auv2_plan_view(debug, verbose);
        assert(v.flags_if_supported =~= w.flags_if_supported);
        assert(v.includes =~= w.includes);
        assert(v.defines =~= w.defines);
        assert(v.sources =~= w.sources);
        assert(v.link_libs =~= w.link_libs);
    }
    plan
}

} // verus!
