use clap_wrapper::bundled::{bundled_auv2_plan, bundled_vst3_plan};
use clap_wrapper::cache::WrapperFormat;
use clap_wrapper::plan::{parse_os, CompilePlan, Define, Loc, PlanError, Source, TargetOs};
use clap_wrapper::root::{
    auv2_decision, auv2_plan, vst3_decision, vst3_plan, BuildContext, SdkDir,
};

fn loc_text(l: &Loc) -> String {
    match l {
        Loc::Crate(p) => format!("crate:{}", p),
        Loc::SdkRoot => "sdk".to_string(),
        Loc::InSdk(p) => format!("sdk:{}", p),
    }
}

fn source_text(s: &Source) -> String {
    match s {
        Source::File(l) => loc_text(l),
        Source::Tree(l, ext) => format!("tree:{}:{}", loc_text(l), ext),
    }
}

fn define_text(d: &Define) -> String {
    match &d.value {
        Some(v) => format!("{}={}", d.name, v),
        None => d.name.clone(),
    }
}

fn defines(p: &CompilePlan) -> Vec<String> {
    p.defines.iter().map(define_text).collect()
}

fn sources(p: &CompilePlan) -> Vec<String> {
    p.sources.iter().map(source_text).collect()
}

fn includes(p: &CompilePlan) -> Vec<String> {
    p.includes.iter().map(loc_text).collect()
}

fn sdk(path: &str, is_dir: bool) -> Option<SdkDir> {
    Some(SdkDir { path: path.to_string(), is_dir })
}

fn ctx(os: &str, vst3: Option<SdkDir>, auv2: Option<SdkDir>) -> BuildContext {
    BuildContext::from_env_values(os.to_string(), "", "", vst3, auv2)
}

#[test]
fn context_reads_debug_and_verbose() {
    let c = BuildContext::from_env_values("linux".to_string(), "true", "1", None, None);
    assert!(c.debug);
    assert!(c.verbose);
    assert_eq!(c.os, "linux");
    let c = BuildContext::from_env_values("linux".to_string(), "1", "true", None, None);
    assert!(!c.debug);
    assert!(!c.verbose);
    let c = BuildContext::from_env_values("linux".to_string(), "", "", None, None);
    assert!(!c.debug);
    assert!(!c.verbose);
    let c = BuildContext::from_env_values("linux".to_string(), "TRUE", " 1", None, None);
    assert!(!c.debug);
    assert!(!c.verbose);
}

#[test]
fn parse_os_cases() {
    assert_eq!(parse_os("macos"), Some(TargetOs::MacOs));
    assert_eq!(parse_os("windows"), Some(TargetOs::Windows));
    assert_eq!(parse_os("linux"), Some(TargetOs::Linux));
    assert_eq!(parse_os("freebsd"), None);
    assert_eq!(parse_os("ios"), None);
    assert_eq!(parse_os("Linux"), None);
}

#[test]
fn vst3_skipped_without_sdk() {
    assert!(matches!(vst3_decision(&ctx("linux", None, None)), Ok(None)));
}

#[test]
fn vst3_built_with_sdk_dir() {
    match vst3_decision(&ctx("linux", sdk("/opt/vst3sdk", true), None)) {
        Ok(Some(req)) => {
            assert_eq!(req.format, WrapperFormat::Vst3);
            assert_eq!(req.key, "vst3-/opt/vst3sdk");
        }
        _ => panic!("expected a VST3 build"),
    }
}

#[test]
fn vst3_rejects_sdk_that_is_not_a_dir() {
    match vst3_decision(&ctx("linux", sdk("/nope", false), None)) {
        Err(PlanError::InvalidSdkPath { format, path }) => {
            assert_eq!(format, WrapperFormat::Vst3);
            assert_eq!(path, "/nope");
        }
        _ => panic!("expected an invalid SDK path"),
    }
}

#[test]
fn auv2_only_on_macos() {
    assert!(matches!(auv2_decision(&ctx("linux", None, sdk("/au", true))), Ok(None)));
    assert!(matches!(auv2_decision(&ctx("windows", None, sdk("/au", false))), Ok(None)));
    assert!(matches!(auv2_decision(&ctx("macos", None, None)), Ok(None)));
    match auv2_decision(&ctx("macos", None, sdk("/au", true))) {
        Ok(Some(req)) => {
            assert_eq!(req.format, WrapperFormat::Auv2);
            assert_eq!(req.key, "auv2-/au");
        }
        _ => panic!("expected an AUv2 build"),
    }
    assert!(matches!(
        auv2_decision(&ctx("macos", None, sdk("/au", false))),
        Err(PlanError::InvalidSdkPath { format: WrapperFormat::Auv2, .. })
    ));
}

#[test]
fn vst3_plan_linux_release() {
    let p = vst3_plan("linux", false, false).ok().unwrap();
    assert_eq!(p.std, "c++17");
    assert_eq!(p.flags_if_supported, vec!["/utf-8".to_string(), "/EHsc".to_string()]);
    assert_eq!(
        includes(&p),
        vec![
            "crate:clap/include",
            "crate:clap-wrapper/include",
            "crate:clap-wrapper/libs/fmt",
            "crate:clap-wrapper/src",
            "sdk",
            "sdk:public.sdk",
            "sdk:pluginterfaces",
        ]
    );
    assert_eq!(
        defines(&p),
        vec![
            "CLAP_WRAPPER_VERSION=\"0.11.0\"",
            "CLAP_WRAPPER_BUILD_FOR_VST3=1",
            "STATICALLY_LINKED_CLAP_ENTRY=1",
            "GetPluginFactory=clap_wrapper_GetPluginFactory",
            "ModuleEntry=clap_wrapper_ModuleEntry",
            "ModuleExit=clap_wrapper_ModuleExit",
            "InitDll=clap_wrapper_InitDll",
            "ExitDll=clap_wrapper_ExitDll",
            "bundleEntry=clap_wrapper_bundleEntry",
            "bundleExit=clap_wrapper_bundleExit",
            "RELEASE=1",
            "LIN",
        ]
    );
    let s = sources(&p);
    assert_eq!(s.len(), 4 + 12 + 3 + 7 + 2);
    assert_eq!(s[0], "tree:sdk:base/source:cpp");
    assert_eq!(s[3], "tree:sdk:pluginterfaces/base:cpp");
    assert_eq!(s[4], "sdk:public.sdk/source/main/pluginfactory.cpp");
    assert_eq!(s[16], "crate:clap-wrapper/src/clap_proxy.cpp");
    assert_eq!(s[26], "sdk:public.sdk/source/main/linuxmain.cpp");
    assert_eq!(s[27], "crate:clap-wrapper/src/detail/os/linux.cpp");
    assert!(p.link_libs.is_empty());
    assert!(p.quiet);
    assert_eq!(p.lib_name, "clap_wrapper_vst3");
    assert_eq!(p.cfg, "clap_wrapper_vst3");
}

#[test]
fn vst3_plan_macos_debug_verbose() {
    let p = vst3_plan("macos", true, true).ok().unwrap();
    let d = defines(&p);
    assert_eq!(d[10], "DEVELOPMENT=1");
    assert_eq!(&d[11..], &["MACOS_USE_STD_FILESYSTEM".to_string(), "MAC".to_string()]);
    let s = sources(&p);
    assert_eq!(
        &s[26..],
        &[
            "sdk:public.sdk/source/main/macmain.cpp".to_string(),
            "crate:clap-wrapper/src/detail/os/macos.mm".to_string(),
            "crate:clap-wrapper/src/detail/clap/mac_helpers.mm".to_string(),
        ]
    );
    assert_eq!(p.link_libs, vec!["framework=CoreFoundation".to_string(), "framework=Foundation".to_string()]);
    assert!(!p.quiet);
}

#[test]
fn vst3_plan_windows() {
    let p = vst3_plan("windows", false, true).ok().unwrap();
    assert_eq!(defines(&p).last().unwrap(), "WIN");
    assert_eq!(sources(&p).last().unwrap(), "crate:clap-wrapper/src/detail/os/windows.cpp");
    assert!(p.link_libs.is_empty());
}

#[test]
fn vst3_plan_rejects_unsupported_os() {
    match vst3_plan("freebsd", false, false) {
        Err(PlanError::UnsupportedOs(os)) => assert_eq!(os, "freebsd"),
        _ => panic!("expected an unsupported system"),
    }
}

#[test]
fn vst3_plan_lists_duplicate_sdk_file_twice() {
    let p = vst3_plan("linux", false, false).ok().unwrap();
    let s = sources(&p);
    let single = s.iter().filter(|x| x.as_str() == "sdk:public.sdk/source/vst/vstsinglecomponenteffect.cpp").count();
    assert_eq!(single, 2);
}

#[test]
fn auv2_plan_contents() {
    let p = auv2_plan(true, false);
    assert_eq!(p.std, "c++20");
    assert_eq!(p.flags_if_supported, vec!["-fno-char8_t".to_string()]);
    assert_eq!(
        includes(&p),
        vec![
            "crate:src/cpp",
            "crate:clap/include",
            "crate:clap-wrapper/include",
            "crate:clap-wrapper/libs/fmt",
            "crate:clap-wrapper/src",
            "sdk:include",
        ]
    );
    assert_eq!(
        defines(&p),
        vec![
            "CLAP_WRAPPER_VERSION=\"0.11.0\"",
            "CLAP_WRAPPER_BUILD_AUV2=1",
            "STATICALLY_LINKED_CLAP_ENTRY=1",
            "DICTIONARY_STREAM_FORMAT_WRAPPER=1",
            "MACOS_USE_STD_FILESYSTEM",
            "MAC",
            "DEVELOPMENT=1",
        ]
    );
    let s = sources(&p);
    assert_eq!(s.len(), 12 + 3 + 7);
    assert_eq!(s[0], "sdk:src/AudioUnitSDK/AUBase.cpp");
    assert_eq!(s[11], "sdk:src/AudioUnitSDK/MusicDeviceBase.cpp");
    assert_eq!(s[15], "crate:clap-wrapper/src/wrapasauv2.cpp");
    assert_eq!(p.link_libs.len(), 5);
    assert_eq!(p.link_libs[4], "framework=AppKit");
    assert!(p.quiet);
    assert_eq!(p.lib_name, "clap_wrapper_auv2");
    assert_eq!(p.cfg, "clap_wrapper_auv2");
    let r = auv2_plan(false, true);
    assert_eq!(defines(&r).last().unwrap(), "RELEASE=1");
    assert!(!r.quiet);
}

#[test]
fn bundled_vst3_plan_systems() {
    let mac = bundled_vst3_plan("macos", false).ok().unwrap();
    assert_eq!(includes(&mac).len(), 9);
    assert_eq!(includes(&mac)[3], "crate:./external/clap-wrapper/libs/psl");
    assert_eq!(includes(&mac)[8], "crate:./external/filesystem/include");
    let d = defines(&mac);
    assert_eq!(&d[10..], &["RELEASE=1".to_string(), "MAC".to_string(), "MACOS_USE_GHC_FILESYSTEM".to_string()]);
    assert!(!mac.quiet);
    let win = bundled_vst3_plan("windows", true).ok().unwrap();
    assert_eq!(includes(&win).len(), 8);
    assert_eq!(win.link_libs, vec!["Shell32".to_string(), "user32".to_string(), "ole32".to_string()]);
    assert_eq!(defines(&win)[10], "DEVELOPMENT=1");
    let s = sources(&win);
    assert_eq!(s.len(), 4 + 11 + 3 + 7 + 2);
    assert_eq!(s[2], "tree:crate:./external/vst3sdk/pluginterfaces/base:cpp");
    assert_eq!(s[3], "tree:crate:./external/vst3sdk/public.sdk/source/common:cpp");
    let lin = bundled_vst3_plan("linux", false).ok().unwrap();
    assert!(lin.link_libs.is_empty());
    assert_eq!(defines(&lin).last().unwrap(), "LIN");
    assert!(matches!(bundled_vst3_plan("android", false), Err(PlanError::UnsupportedOs(_))));
}

#[test]
fn bundled_auv2_plan_only_on_macos() {
    assert!(bundled_auv2_plan("linux", false).is_none());
    assert!(bundled_auv2_plan("windows", true).is_none());
    let p = bundled_auv2_plan("macos", true).unwrap();
    assert_eq!(p.std, "c++20");
    assert_eq!(includes(&p).len(), 7);
    assert_eq!(includes(&p)[6], "crate:./external/filesystem/include");
    assert_eq!(defines(&p)[4], "MACOS_USE_GHC_FILESYSTEM");
    assert_eq!(defines(&p)[6], "DEVELOPMENT=1");
    assert_eq!(sources(&p)[0], "crate:./external/AudioUnitSDK/src/AudioUnitSDK/AUBase.cpp");
    assert_eq!(p.link_libs.len(), 5);
    assert!(!p.quiet);
}

#[test]
fn entry_points_renamed_in_every_vst3_plan() {
    let plans = vec![
        vst3_plan("linux", true, false).ok().unwrap(),
        vst3_plan("macos", false, true).ok().unwrap(),
        bundled_vst3_plan("windows", false).ok().unwrap(),
    ];
    for p in &plans {
        for sym in ["GetPluginFactory", "ModuleEntry", "ModuleExit", "InitDll", "ExitDll", "bundleEntry", "bundleExit"] {
            let expected = format!("{}=clap_wrapper_{}", sym, sym);
            assert!(defines(p).contains(&expected));
        }
    }
}

#[test]
fn exactly_one_mode_define() {
    for debug in [false, true] {
        let plans = vec![
            vst3_plan("linux", debug, false).ok().unwrap(),
            auv2_plan(debug, false),
            bundled_vst3_plan("macos", debug).ok().unwrap(),
            bundled_auv2_plan("macos", debug).unwrap(),
        ];
        for p in &plans {
            let d = defines(p);
            assert_eq!(d.contains(&"DEVELOPMENT=1".to_string()), debug);
            assert_eq!(d.contains(&"RELEASE=1".to_string()), !debug);
        }
    }
}

#[test]
fn exactly_one_system_define() {
    for (os, mac) in [("macos", "MAC"), ("windows", "WIN"), ("linux", "LIN")] {
        for p in [vst3_plan(os, false, false).ok().unwrap(), bundled_vst3_plan(os, true).ok().unwrap()] {
            let d = defines(&p);
            for other in ["MAC", "WIN", "LIN"] {
                assert_eq!(d.contains(&other.to_string()), other == mac);
            }
        }
    }
}
