//! The entry points that plug-in hosts look up, which system exports which of them, the
//! symbol of the compiled wrapper that each one forwards to, and the configuration flag under
//! which each is declared: a successful build sets the flags of exactly the entry points
//! listed for its format and target.
use vstd::prelude::*;

use crate::cache::WrapperFormat;
use crate::plan::{new_string, renamed_prefix, TargetOs};

verus! {

/// An exported entry point.
#[derive(Clone, Copy, PartialEq, Eq, Structural, Debug)]
pub enum EntryPoint {
    /// The VST3 factory, on every system.
    GetPluginFactory,
    /// VST3 module set-up on Linux.
    ModuleEntry,
    /// VST3 module tear-down on Linux.
    ModuleExit,
    /// VST3 bundle set-up on macOS.
    BundleEntry,
    /// VST3 bundle tear-down on macOS.
    BundleExit,
    /// VST3 library set-up on Windows.
    InitDll,
    /// VST3 library tear-down on Windows.
    ExitDll,
    /// The AUv2 factory, on macOS.
    GetPluginFactoryAuv2,
}

/// The name under which an entry point is exported.
pub open spec fn entry_symbol(e: EntryPoint) -> Seq<char> {
    match e {
        EntryPoint::GetPluginFactory => "GetPluginFactory"@,
        EntryPoint::ModuleEntry => "ModuleEntry"@,
        EntryPoint::ModuleExit => "ModuleExit"@,
        EntryPoint::BundleEntry => "bundleEntry"@,
        EntryPoint::BundleExit => "bundleExit"@,
        EntryPoint::InitDll => "InitDll"@,
        EntryPoint::ExitDll => "ExitDll"@,
        EntryPoint::GetPluginFactoryAuv2 => "GetPluginFactoryAUV2"@,
    }
}

/// The format an entry point belongs to.
pub open spec fn entry_format(e: EntryPoint) -> WrapperFormat {
    match e {
        EntryPoint::GetPluginFactoryAuv2 => WrapperFormat::Auv2,
        _ => WrapperFormat::Vst3,
    }
}

/// The symbol of the compiled wrapper that an entry point calls: a VST3 entry point calls its
/// own name with the `clap_wrapper_` prefix (the name that the build gives the wrapper's
/// definition), the AUv2 factory calls `wrapAsAUV2_inst0Factory`.
pub open spec fn forwarded_symbol(e: EntryPoint) -> Seq<char> {
    match entry_format(e) {
        WrapperFormat::Vst3 => renamed_prefix() + entry_symbol(e),
        WrapperFormat::Auv2 => "wrapAsAUV2_inst0Factory"@,
    }
}

/// The entry points that the library exports for `format` when built for `os`.
pub open spec fn exports(format: WrapperFormat, os: TargetOs) -> Seq<EntryPoint> {
    match (format, os) {
        (WrapperFormat::Vst3, TargetOs::MacOs) => seq![
            EntryPoint::GetPluginFactory,
            EntryPoint::BundleEntry,
            EntryPoint::BundleExit,
        ],
        (WrapperFormat::Vst3, TargetOs::Windows) => seq![
            EntryPoint::GetPluginFactory,
            EntryPoint::InitDll,
            EntryPoint::ExitDll,
        ],
        (WrapperFormat::Vst3, TargetOs::Linux) => seq![
            EntryPoint::GetPluginFactory,
            EntryPoint::ModuleEntry,
            EntryPoint::ModuleExit,
        ],
        (WrapperFormat::Auv2, TargetOs::MacOs) => seq![EntryPoint::GetPluginFactoryAuv2],
        (WrapperFormat::Auv2, _) => Seq::empty(),
    }
}

/// The name under which `e` is exported.
pub fn entry_symbol_name(e: EntryPoint) -> (s: &'static str)
    ensures
        s@ == entry_symbol(e),
{
    match e {
        EntryPoint::GetPluginFactory => "GetPluginFactory",
        EntryPoint::ModuleEntry => "ModuleEntry",
        EntryPoint::ModuleExit => "ModuleExit",
        EntryPoint::BundleEntry => "bundleEntry",
        EntryPoint::BundleExit => "bundleExit",
        EntryPoint::InitDll => "InitDll",
        EntryPoint::ExitDll => "ExitDll",
        EntryPoint::GetPluginFactoryAuv2 => "GetPluginFactoryAUV2",
    }
}

/// The symbol of the compiled wrapper that `e` calls.
pub fn forwarded_symbol_name(e: EntryPoint) -> (s: String)
    ensures
        s@ == forwarded_symbol(e),
{
    match e {
        EntryPoint::GetPluginFactoryAuv2 => new_string("wrapAsAUV2_inst0Factory"),
        _ => new_string("clap_wrapper_").concat(entry_symbol_name(e)),
    }
}

/// The entry points exported for `format` on `os`, in the order the library declares them.
pub fn exported_entry_points(format: WrapperFormat, os: TargetOs) -> (v: Vec<EntryPoint>)
    ensures
        v@ == exports(format, os),
{
    let mut v: Vec<EntryPoint> = Vec::new();
    match format {
        WrapperFormat::Vst3 => {
            v.push(EntryPoint::GetPluginFactory);
            match os {
                TargetOs::MacOs => {
                    v.push(EntryPoint::BundleEntry);
                    v.push(EntryPoint::BundleExit);
                },
                TargetOs::Windows => {
                    v.push(EntryPoint::InitDll);
                    v.push(EntryPoint::ExitDll);
                },
                TargetOs::Linux => {
                    v.push(EntryPoint::ModuleEntry);
                    v.push(EntryPoint::ModuleExit);
                },
            }
        },
        WrapperFormat::Auv2 => {
            if os == TargetOs::MacOs {
                v.push(EntryPoint::GetPluginFactoryAuv2);
            }
        },
    }
    proof {
        assert(v@ =~= exports(format, os));
    }
    v
}

/// The configuration flag under which the library declares entry point `e`.
pub open spec fn export_cfg(e: EntryPoint) -> Seq<char> {
    "clap_wrapper_export_"@ + entry_symbol(e)
}

/// The configuration flag under which the library declares entry point `e`:
/// `clap_wrapper_export_` followed by the exported name.
pub fn export_cfg_name(e: EntryPoint) -> (s: String)
    ensures
        s@ == export_cfg(e),
{
    new_string("clap_wrapper_export_").concat(entry_symbol_name(e))
}

/// The flags that a successful build of `format` for `os` sets: one per exported entry
/// point, in the order of `exports(format, os)`, so exactly those entry points are declared.
pub fn export_cfg_flags(format: WrapperFormat, os: TargetOs) -> (v: Vec<String>)
    ensures
        v@.map_values(|s: String| s@) == exports(format, os).map_values(|e: EntryPoint| export_cfg(e)),
{
    let entries = exported_entry_points(format, os);
    let mut v: Vec<String> = Vec::new();
    let n = entries.len();
    let mut i: usize = 0;
    while i < n
        invariant
            n == entries@.len(),
            entries@ == exports(format, os),
            i <= n,
            v@.map_values(|s: String| s@) == entries@.take(i as int).map_values(
                |e: EntryPoint| export_cfg(e),
            ),
        decreases n - i,
    {
        let ghost before = v@;
        let flag = export_cfg_name(entries[i]);
        assert(flag@ == export_cfg(entries@[i as int]));
        v.push(flag);
        proof {
            assert(entries@.take(i + 1) =~= entries@.take(i as int).push(entries@[i as int]));
            assert(v@.map_values(|s: String| s@) =~= before.map_values(|s: String| s@).push(
                export_cfg(entries@[i as int]),
            ));
            assert(v@.map_values(|s: String| s@) =~= entries@.take(i + 1).map_values(
                |e: EntryPoint| export_cfg(e),
            ));
        }
        i = i + 1;
    }
    proof {
        assert(entries@.take(n as int) =~= entries@);
    }
    v
}

} // verus!
