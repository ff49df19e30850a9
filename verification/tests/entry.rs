use clap_wrapper::cache::WrapperFormat;
use clap_wrapper::entry::{
    entry_symbol_name, export_cfg_flags, export_cfg_name, exported_entry_points, forwarded_symbol_name,
    EntryPoint,
};
use clap_wrapper::plan::TargetOs;
use clap_wrapper::root::vst3_plan;
use clap_wrapper::bundled::bundled_vst3_plan;

const ALL: [EntryPoint; 8] = [
    EntryPoint::GetPluginFactory,
    EntryPoint::ModuleEntry,
    EntryPoint::ModuleExit,
    EntryPoint::BundleEntry,
    EntryPoint::BundleExit,
    EntryPoint::InitDll,
    EntryPoint::ExitDll,
    EntryPoint::GetPluginFactoryAuv2,
];

#[test]
fn entry_symbol_names() {
    assert_eq!(entry_symbol_name(EntryPoint::GetPluginFactory), "GetPluginFactory");
    assert_eq!(entry_symbol_name(EntryPoint::BundleEntry), "bundleEntry");
    assert_eq!(entry_symbol_name(EntryPoint::ExitDll), "ExitDll");
    assert_eq!(entry_symbol_name(EntryPoint::GetPluginFactoryAuv2), "GetPluginFactoryAUV2");
}

#[test]
fn forwarded_symbol_names() {
    assert_eq!(forwarded_symbol_name(EntryPoint::GetPluginFactory), "clap_wrapper_GetPluginFactory");
    assert_eq!(forwarded_symbol_name(EntryPoint::ModuleExit), "clap_wrapper_ModuleExit");
    assert_eq!(forwarded_symbol_name(EntryPoint::BundleExit), "clap_wrapper_bundleExit");
    assert_eq!(forwarded_symbol_name(EntryPoint::GetPluginFactoryAuv2), "wrapAsAUV2_inst0Factory");
}

#[test]
fn exports_per_system() {
    assert_eq!(
        exported_entry_points(WrapperFormat::Vst3, TargetOs::MacOs),
        vec![EntryPoint::GetPluginFactory, EntryPoint::BundleEntry, EntryPoint::BundleExit]
    );
    assert_eq!(
        exported_entry_points(WrapperFormat::Vst3, TargetOs::Windows),
        vec![EntryPoint::GetPluginFactory, EntryPoint::InitDll, EntryPoint::ExitDll]
    );
    assert_eq!(
        exported_entry_points(WrapperFormat::Vst3, TargetOs::Linux),
        vec![EntryPoint::GetPluginFactory, EntryPoint::ModuleEntry, EntryPoint::ModuleExit]
    );
    assert_eq!(
        exported_entry_points(WrapperFormat::Auv2, TargetOs::MacOs),
        vec![EntryPoint::GetPluginFactoryAuv2]
    );
    assert!(exported_entry_points(WrapperFormat::Auv2, TargetOs::Linux).is_empty());
    assert!(exported_entry_points(WrapperFormat::Auv2, TargetOs::Windows).is_empty());
}

#[test]
fn exported_symbols_are_produced_by_the_build() {
    for (name, os) in [("macos", TargetOs::MacOs), ("windows", TargetOs::Windows), ("linux", TargetOs::Linux)] {
        let plans = [vst3_plan(name, false, true).ok().unwrap(), bundled_vst3_plan(name, true).ok().unwrap()];
        for e in exported_entry_points(WrapperFormat::Vst3, os) {
            let sym = entry_symbol_name(e);
            let target = forwarded_symbol_name(e);
            for p in &plans {
                assert!(p.defines.iter().any(|d| d.name == sym && d.value.as_deref() == Some(target.as_str())));
            }
        }
    }
}

#[test]
fn no_symbol_clash() {
    for caller in ALL {
        for exported in ALL {
            assert_ne!(forwarded_symbol_name(caller), entry_symbol_name(exported));
        }
    }
}

#[test]
fn export_flags_per_system() {
    assert_eq!(export_cfg_name(EntryPoint::BundleEntry), "clap_wrapper_export_bundleEntry");
    assert_eq!(
        export_cfg_flags(WrapperFormat::Vst3, TargetOs::Linux),
        vec![
            "clap_wrapper_export_GetPluginFactory".to_string(),
            "clap_wrapper_export_ModuleEntry".to_string(),
            "clap_wrapper_export_ModuleExit".to_string(),
        ]
    );
    assert_eq!(
        export_cfg_flags(WrapperFormat::Vst3, TargetOs::Windows),
        vec![
            "clap_wrapper_export_GetPluginFactory".to_string(),
            "clap_wrapper_export_InitDll".to_string(),
            "clap_wrapper_export_ExitDll".to_string(),
        ]
    );
    assert_eq!(
        export_cfg_flags(WrapperFormat::Auv2, TargetOs::MacOs),
        vec!["clap_wrapper_export_GetPluginFactoryAUV2".to_string()]
    );
    assert!(export_cfg_flags(WrapperFormat::Auv2, TargetOs::Linux).is_empty());
}
