//! The fixed lists that the wrapper builds are made of: compiler flags, include
//! directories, definitions, sources and link requests.
use vstd::prelude::*;

use crate::plan::{
    cpp_tree_in_crate, cpp_tree_in_sdk, define_flag, define_value, file_in_crate, file_in_sdk,
    new_cpp_tree_in_crate, new_cpp_tree_in_sdk, new_crate_dir, new_define_flag, new_define_value,
    new_file_in_crate, new_file_in_sdk, new_sdk_dir, new_string, push_view, views, Define,
    DefineView, Loc, LocView, Source, SourceView, TargetOs,
};

verus! {


/// Flags for MSVC: UTF-8 sources, standard C++ exception handling.
pub open spec fn msvc_flags() -> Seq<Seq<char>> {
    seq![
        "/utf-8"@,
        "/EHsc"@,
    ]
}

/// Appends `msvc_flags()`.
pub fn push_msvc_flags(v: &mut Vec<String>)
    ensures
        views(final(v)@) == views(old(v)@) + msvc_flags(),
{
    let ghost start = views(v@);
    push_view(v, new_string("/utf-8"));
    push_view(v, new_string("/EHsc"));
    proof {
        assert(views(v@) =~= start + msvc_flags());
    }
}

/// Flags for the Audio Unit SDK, which predates `char8_t`.
pub open spec fn auv2_flags() -> Seq<Seq<char>> {
    seq![
        "-fno-char8_t"@,
    ]
}

/// Appends `auv2_flags()`.
pub fn push_auv2_flags(v: &mut Vec<String>)
    ensures
        views(final(v)@) == views(old(v)@) + auv2_flags(),
{
    let ghost start = views(v@);
    push_view(v, new_string("-fno-char8_t"));
    proof {
        assert(views(v@) =~= start + auv2_flags());
    }
}

/// Include directories of the VST3 wrapper built against an SDK path.
pub open spec fn vst3_includes() -> Seq<LocView> {
    seq![
        LocView::Crate("clap/include"@),
        LocView::Crate("clap-wrapper/include"@),
        LocView::Crate("clap-wrapper/libs/fmt"@),
        LocView::Crate("clap-wrapper/src"@),
        LocView::SdkRoot,
        LocView::InSdk("public.sdk"@),
        LocView::InSdk("pluginterfaces"@),
    ]
}

/// Appends `vst3_includes()`.
pub fn push_vst3_includes(v: &mut Vec<Loc>)
    ensures
        views(final(v)@) == views(old(v)@) + vst3_includes(),
{
    let ghost start = views(v@);
    push_view(v, new_crate_dir("clap/include"));
    push_view(v, new_crate_dir("clap-wrapper/include"));
    push_view(v, new_crate_dir("clap-wrapper/libs/fmt"));
    push_view(v, new_crate_dir("clap-wrapper/src"));
    push_view(v, Loc::SdkRoot);
    push_view(v, new_sdk_dir("public.sdk"));
    push_view(v, new_sdk_dir("pluginterfaces"));
    proof {
        assert(views(v@) =~= start + vst3_includes());
    }
}

/// The definitions that select the VST3 wrapper around a statically linked CLAP entry.
pub open spec fn vst3_defines() -> Seq<DefineView> {
    seq![
        define_value("CLAP_WRAPPER_VERSION"@, "\"0.11.0\""@),
        define_value("CLAP_WRAPPER_BUILD_FOR_VST3"@, "1"@),
        define_value("STATICALLY_LINKED_CLAP_ENTRY"@, "1"@),
    ]
}

/// Appends `vst3_defines()`.
pub fn push_vst3_defines(v: &mut Vec<Define>)
    ensures
        views(final(v)@) == views(old(v)@) + vst3_defines(),
{
    let ghost start = views(v@);
    push_view(v, new_define_value("CLAP_WRAPPER_VERSION", "\"0.11.0\""));
    push_view(v, new_define_value("CLAP_WRAPPER_BUILD_FOR_VST3", "1"));
    push_view(v, new_define_value("STATICALLY_LINKED_CLAP_ENTRY", "1"));
    proof {
        assert(views(v@) =~= start + vst3_defines());
    }
}

/// The system definitions of the VST3 wrapper built against an SDK path.
pub open spec fn vst3_os_defines(os: TargetOs) -> Seq<DefineView> {
    match os {
        TargetOs::MacOs => seq![
                define_flag("MACOS_USE_STD_FILESYSTEM"@),
                define_flag("MAC"@),
            ],
        TargetOs::Windows => seq![
                define_flag("WIN"@),
            ],
        TargetOs::Linux => seq![
                define_flag("LIN"@),
            ],
    }
}

/// Appends `vst3_os_defines(os)`.
pub fn push_vst3_os_defines(v: &mut Vec<Define>, os: TargetOs)
    ensures
        views(final(v)@) == views(old(v)@) + vst3_os_defines(os),
{
    let ghost start = views(v@);
    match os {
        TargetOs::MacOs => {
            push_view(v, new_define_flag("MACOS_USE_STD_FILESYSTEM"));
            push_view(v, new_define_flag("MAC"));
        },
        TargetOs::Windows => {
            push_view(v, new_define_flag("WIN"));
        },
        TargetOs::Linux => {
            push_view(v, new_define_flag("LIN"));
        },
    }
    proof {
        assert(views(v@) =~= start + vst3_os_defines(os));
    }
}

/// The directories of the VST3 SDK whose `.cpp` files are all compiled.
pub open spec fn vst3_sdk_trees() -> Seq<SourceView> {
    seq![
        cpp_tree_in_sdk("base/source"@),
        cpp_tree_in_sdk("base/thread/source"@),
        cpp_tree_in_sdk("public.sdk/source/common"@),
        cpp_tree_in_sdk("pluginterfaces/base"@),
    ]
}

/// Appends `vst3_sdk_trees()`.
pub fn push_vst3_sdk_trees(v: &mut Vec<Source>)
    ensures
        views(final(v)@) == views(old(v)@) + vst3_sdk_trees(),
{
    let ghost start = views(v@);
    push_view(v, new_cpp_tree_in_sdk("base/source"));
    push_view(v, new_cpp_tree_in_sdk("base/thread/source"));
    push_view(v, new_cpp_tree_in_sdk("public.sdk/source/common"));
    push_view(v, new_cpp_tree_in_sdk("pluginterfaces/base"));
    proof {
        assert(views(v@) =~= start + vst3_sdk_trees());
    }
}

/// The single files of the VST3 SDK that are compiled (one of them listed twice).
pub open spec fn vst3_sdk_files() -> Seq<SourceView> {
    seq![
        file_in_sdk("public.sdk/source/main/pluginfactory.cpp"@),
        file_in_sdk("public.sdk/source/main/moduleinit.cpp"@),
        file_in_sdk("public.sdk/source/vst/vstinitiids.cpp"@),
        file_in_sdk("public.sdk/source/vst/vstnoteexpressiontypes.cpp"@),
        file_in_sdk("public.sdk/source/vst/vstsinglecomponenteffect.cpp"@),
        file_in_sdk("public.sdk/source/vst/vstaudioeffect.cpp"@),
        file_in_sdk("public.sdk/source/vst/vstcomponent.cpp"@),
        file_in_sdk("public.sdk/source/vst/vstsinglecomponenteffect.cpp"@),
        file_in_sdk("public.sdk/source/vst/vstcomponentbase.cpp"@),
        file_in_sdk("public.sdk/source/vst/vstbus.cpp"@),
        file_in_sdk("public.sdk/source/vst/vstparameters.cpp"@),
        file_in_sdk("public.sdk/source/vst/utility/stringconvert.cpp"@),
    ]
}

/// Appends `vst3_sdk_files()`.
pub fn push_vst3_sdk_files(v: &mut Vec<Source>)
    ensures
        views(final(v)@) == views(old(v)@) + vst3_sdk_files(),
{
    let ghost start = views(v@);
    push_view(v, new_file_in_sdk("public.sdk/source/main/pluginfactory.cpp"));
    push_view(v, new_file_in_sdk("public.sdk/source/main/moduleinit.cpp"));
    push_view(v, new_file_in_sdk("public.sdk/source/vst/vstinitiids.cpp"));
    push_view(v, new_file_in_sdk("public.sdk/source/vst/vstnoteexpressiontypes.cpp"));
    push_view(v, new_file_in_sdk("public.sdk/source/vst/vstsinglecomponenteffect.cpp"));
    push_view(v, new_file_in_sdk("public.sdk/source/vst/vstaudioeffect.cpp"));
    push_view(v, new_file_in_sdk("public.sdk/source/vst/vstcomponent.cpp"));
    push_view(v, new_file_in_sdk("public.sdk/source/vst/vstsinglecomponenteffect.cpp"));
    push_view(v, new_file_in_sdk("public.sdk/source/vst/vstcomponentbase.cpp"));
    push_view(v, new_file_in_sdk("public.sdk/source/vst/vstbus.cpp"));
    push_view(v, new_file_in_sdk("public.sdk/source/vst/vstparameters.cpp"));
    push_view(v, new_file_in_sdk("public.sdk/source/vst/utility/stringconvert.cpp"));
    proof {
        assert(views(v@) =~= start + vst3_sdk_files());
    }
}

/// The parts of the wrapper that every format uses.
pub open spec fn shared_files() -> Seq<SourceView> {
    seq![
        file_in_crate("clap-wrapper/src/clap_proxy.cpp"@),
        file_in_crate("clap-wrapper/src/detail/clap/fsutil.cpp"@),
        file_in_crate("clap-wrapper/src/detail/shared/sha1.cpp"@),
    ]
}

/// Appends `shared_files()`.
pub fn push_shared_files(v: &mut Vec<Source>)
    ensures
        views(final(v)@) == views(old(v)@) + shared_files(),
{
    let ghost start = views(v@);
    push_view(v, new_file_in_crate("clap-wrapper/src/clap_proxy.cpp"));
    push_view(v, new_file_in_crate("clap-wrapper/src/detail/clap/fsutil.cpp"));
    push_view(v, new_file_in_crate("clap-wrapper/src/detail/shared/sha1.cpp"));
    proof {
        assert(views(v@) =~= start + shared_files());
    }
}

/// The VST3 part of the wrapper.
pub open spec fn vst3_wrapper_files() -> Seq<SourceView> {
    seq![
        file_in_crate("clap-wrapper/src/wrapasvst3_export_entry.cpp"@),
        file_in_crate("clap-wrapper/src/wrapasvst3.cpp"@),
        file_in_crate("clap-wrapper/src/wrapasvst3_entry.cpp"@),
        file_in_crate("clap-wrapper/src/detail/vst3/parameter.cpp"@),
        file_in_crate("clap-wrapper/src/detail/vst3/plugview.cpp"@),
        file_in_crate("clap-wrapper/src/detail/vst3/process.cpp"@),
        file_in_crate("clap-wrapper/src/detail/vst3/categories.cpp"@),
    ]
}

/// Appends `vst3_wrapper_files()`.
pub fn push_vst3_wrapper_files(v: &mut Vec<Source>)
    ensures
        views(final(v)@) == views(old(v)@) + vst3_wrapper_files(),
{
    let ghost start = views(v@);
    push_view(v, new_file_in_crate("clap-wrapper/src/wrapasvst3_export_entry.cpp"));
    push_view(v, new_file_in_crate("clap-wrapper/src/wrapasvst3.cpp"));
    push_view(v, new_file_in_crate("clap-wrapper/src/wrapasvst3_entry.cpp"));
    push_view(v, new_file_in_crate("clap-wrapper/src/detail/vst3/parameter.cpp"));
    push_view(v, new_file_in_crate("clap-wrapper/src/detail/vst3/plugview.cpp"));
    push_view(v, new_file_in_crate("clap-wrapper/src/detail/vst3/process.cpp"));
    push_view(v, new_file_in_crate("clap-wrapper/src/detail/vst3/categories.cpp"));
    proof {
        assert(views(v@) =~= start + vst3_wrapper_files());
    }
}

/// The system-specific sources of the VST3 wrapper built against an SDK path.
pub open spec fn vst3_os_files(os: TargetOs) -> Seq<SourceView> {
    match os {
        TargetOs::MacOs => seq![
                file_in_sdk("public.sdk/source/main/macmain.cpp"@),
                file_in_crate("clap-wrapper/src/detail/os/macos.mm"@),
                file_in_crate("clap-wrapper/src/detail/clap/mac_helpers.mm"@),
            ],
        TargetOs::Windows => seq![
                file_in_sdk("public.sdk/source/main/dllmain.cpp"@),
                file_in_crate("clap-wrapper/src/detail/os/windows.cpp"@),
            ],
        TargetOs::Linux => seq![
                file_in_sdk("public.sdk/source/main/linuxmain.cpp"@),
                file_in_crate("clap-wrapper/src/detail/os/linux.cpp"@),
            ],
    }
}

/// Appends `vst3_os_files(os)`.
pub fn push_vst3_os_files(v: &mut Vec<Source>, os: TargetOs)
    ensures
        views(final(v)@) == views(old(v)@) + vst3_os_files(os),
{
    let ghost start = views(v@);
    match os {
        TargetOs::MacOs => {
            push_view(v, new_file_in_sdk("public.sdk/source/main/macmain.cpp"));
            push_view(v, new_file_in_crate("clap-wrapper/src/detail/os/macos.mm"));
            push_view(v, new_file_in_crate("clap-wrapper/src/detail/clap/mac_helpers.mm"));
        },
        TargetOs::Windows => {
            push_view(v, new_file_in_sdk("public.sdk/source/main/dllmain.cpp"));
            push_view(v, new_file_in_crate("clap-wrapper/src/detail/os/windows.cpp"));
        },
        TargetOs::Linux => {
            push_view(v, new_file_in_sdk("public.sdk/source/main/linuxmain.cpp"));
            push_view(v, new_file_in_crate("clap-wrapper/src/detail/os/linux.cpp"));
        },
    }
    proof {
        assert(views(v@) =~= start + vst3_os_files(os));
    }
}

/// The system libraries that the VST3 wrapper built against an SDK path links.
pub open spec fn vst3_os_libs(os: TargetOs) -> Seq<Seq<char>> {
    match os {
        TargetOs::MacOs => seq![
                "framework=CoreFoundation"@,
                "framework=Foundation"@,
            ],
        TargetOs::Windows => Seq::<Seq<char>>::empty(),
        TargetOs::Linux => Seq::<Seq<char>>::empty(),
    }
}

/// Appends `vst3_os_libs(os)`.
pub fn push_vst3_os_libs(v: &mut Vec<String>, os: TargetOs)
    ensures
        views(final(v)@) == views(old(v)@) + vst3_os_libs(os),
{
    let ghost start = views(v@);
    match os {
        TargetOs::MacOs => {
            push_view(v, new_string("framework=CoreFoundation"));
            push_view(v, new_string("framework=Foundation"));
        },
        TargetOs::Windows => {

        },
        TargetOs::Linux => {

        },
    }
    proof {
        assert(views(v@) =~= start + vst3_os_libs(os));
    }
}

/// Include directories of the AUv2 wrapper built against an SDK path.
pub open spec fn auv2_includes() -> Seq<LocView> {
    seq![
        LocView::Crate("src/cpp"@),
        LocView::Crate("clap/include"@),
        LocView::Crate("clap-wrapper/include"@),
        LocView::Crate("clap-wrapper/libs/fmt"@),
        LocView::Crate("clap-wrapper/src"@),
        LocView::InSdk("include"@),
    ]
}

/// Appends `auv2_includes()`.
pub fn push_auv2_includes(v: &mut Vec<Loc>)
    ensures
        views(final(v)@) == views(old(v)@) + auv2_includes(),
{
    let ghost start = views(v@);
    push_view(v, new_crate_dir("src/cpp"));
    push_view(v, new_crate_dir("clap/include"));
    push_view(v, new_crate_dir("clap-wrapper/include"));
    push_view(v, new_crate_dir("clap-wrapper/libs/fmt"));
    push_view(v, new_crate_dir("clap-wrapper/src"));
    push_view(v, new_sdk_dir("include"));
    proof {
        assert(views(v@) =~= start + auv2_includes());
    }
}

/// The definitions of the AUv2 wrapper built against an SDK path (before the configuration).
pub open spec fn auv2_defines() -> Seq<DefineView> {
    seq![
        define_value("CLAP_WRAPPER_VERSION"@, "\"0.11.0\""@),
        define_value("CLAP_WRAPPER_BUILD_AUV2"@, "1"@),
        define_value("STATICALLY_LINKED_CLAP_ENTRY"@, "1"@),
        define_value("DICTIONARY_STREAM_FORMAT_WRAPPER"@, "1"@),
        define_flag("MACOS_USE_STD_FILESYSTEM"@),
        define_flag("MAC"@),
    ]
}

/// Appends `auv2_defines()`.
pub fn push_auv2_defines(v: &mut Vec<Define>)
    ensures
        views(final(v)@) == views(old(v)@) + auv2_defines(),
{
    let ghost start = views(v@);
    push_view(v, new_define_value("CLAP_WRAPPER_VERSION", "\"0.11.0\""));
    push_view(v, new_define_value("CLAP_WRAPPER_BUILD_AUV2", "1"));
    push_view(v, new_define_value("STATICALLY_LINKED_CLAP_ENTRY", "1"));
    push_view(v, new_define_value("DICTIONARY_STREAM_FORMAT_WRAPPER", "1"));
    push_view(v, new_define_flag("MACOS_USE_STD_FILESYSTEM"));
    push_view(v, new_define_flag("MAC"));
    proof {
        assert(views(v@) =~= start + auv2_defines());
    }
}

/// The files of the Audio Unit SDK that are compiled.
pub open spec fn auv2_sdk_files() -> Seq<SourceView> {
    seq![
        file_in_sdk("src/AudioUnitSDK/AUBase.cpp"@),
        file_in_sdk("src/AudioUnitSDK/AUBuffer.cpp"@),
        file_in_sdk("src/AudioUnitSDK/AUBufferAllocator.cpp"@),
        file_in_sdk("src/AudioUnitSDK/AUEffectBase.cpp"@),
        file_in_sdk("src/AudioUnitSDK/AUMIDIBase.cpp"@),
        file_in_sdk("src/AudioUnitSDK/AUMIDIEffectBase.cpp"@),
        file_in_sdk("src/AudioUnitSDK/AUInputElement.cpp"@),
        file_in_sdk("src/AudioUnitSDK/AUOutputElement.cpp"@),
        file_in_sdk("src/AudioUnitSDK/AUScopeElement.cpp"@),
        file_in_sdk("src/AudioUnitSDK/AUPlugInDispatch.cpp"@),
        file_in_sdk("src/AudioUnitSDK/ComponentBase.cpp"@),
        file_in_sdk("src/AudioUnitSDK/MusicDeviceBase.cpp"@),
    ]
}

/// Appends `auv2_sdk_files()`.
pub fn push_auv2_sdk_files(v: &mut Vec<Source>)
    ensures
        views(final(v)@) == views(old(v)@) + auv2_sdk_files(),
{
    let ghost start = views(v@);
    push_view(v, new_file_in_sdk("src/AudioUnitSDK/AUBase.cpp"));
    push_view(v, new_file_in_sdk("src/AudioUnitSDK/AUBuffer.cpp"));
    push_view(v, new_file_in_sdk("src/AudioUnitSDK/AUBufferAllocator.cpp"));
    push_view(v, new_file_in_sdk("src/AudioUnitSDK/AUEffectBase.cpp"));
    push_view(v, new_file_in_sdk("src/AudioUnitSDK/AUMIDIBase.cpp"));
    push_view(v, new_file_in_sdk("src/AudioUnitSDK/AUMIDIEffectBase.cpp"));
    push_view(v, new_file_in_sdk("src/AudioUnitSDK/AUInputElement.cpp"));
    push_view(v, new_file_in_sdk("src/AudioUnitSDK/AUOutputElement.cpp"));
    push_view(v, new_file_in_sdk("src/AudioUnitSDK/AUScopeElement.cpp"));
    push_view(v, new_file_in_sdk("src/AudioUnitSDK/AUPlugInDispatch.cpp"));
    push_view(v, new_file_in_sdk("src/AudioUnitSDK/ComponentBase.cpp"));
    push_view(v, new_file_in_sdk("src/AudioUnitSDK/MusicDeviceBase.cpp"));
    proof {
        assert(views(v@) =~= start + auv2_sdk_files());
    }
}

/// The AUv2 part of the wrapper with its macOS helpers.
pub open spec fn auv2_wrapper_files() -> Seq<SourceView> {
    seq![
        file_in_crate("clap-wrapper/src/wrapasauv2.cpp"@),
        file_in_crate("clap-wrapper/src/detail/auv2/auv2_shared.mm"@),
        file_in_crate("clap-wrapper/src/detail/auv2/process.cpp"@),
        file_in_crate("clap-wrapper/src/detail/auv2/wrappedview.mm"@),
        file_in_crate("clap-wrapper/src/detail/auv2/parameter.cpp"@),
        file_in_crate("clap-wrapper/src/detail/os/macos.mm"@),
        file_in_crate("clap-wrapper/src/detail/clap/mac_helpers.mm"@),
    ]
}

/// Appends `auv2_wrapper_files()`.
pub fn push_auv2_wrapper_files(v: &mut Vec<Source>)
    ensures
        views(final(v)@) == views(old(v)@) + auv2_wrapper_files(),
{
    let ghost start = views(v@);
    push_view(v, new_file_in_crate("clap-wrapper/src/wrapasauv2.cpp"));
    push_view(v, new_file_in_crate("clap-wrapper/src/detail/auv2/auv2_shared.mm"));
    push_view(v, new_file_in_crate("clap-wrapper/src/detail/auv2/process.cpp"));
    push_view(v, new_file_in_crate("clap-wrapper/src/detail/auv2/wrappedview.mm"));
    push_view(v, new_file_in_crate("clap-wrapper/src/detail/auv2/parameter.cpp"));
    push_view(v, new_file_in_crate("clap-wrapper/src/detail/os/macos.mm"));
    push_view(v, new_file_in_crate("clap-wrapper/src/detail/clap/mac_helpers.mm"));
    proof {
        assert(views(v@) =~= start + auv2_wrapper_files());
    }
}

/// The frameworks that the AUv2 wrapper links.
pub open spec fn auv2_libs() -> Seq<Seq<char>> {
    seq![
        "framework=Foundation"@,
        "framework=CoreFoundation"@,
        "framework=AudioToolbox"@,
        "framework=CoreMIDI"@,
        "framework=AppKit"@,
    ]
}

/// Appends `auv2_libs()`.
pub fn push_auv2_libs(v: &mut Vec<String>)
    ensures
        views(final(v)@) == views(old(v)@) + auv2_libs(),
{
    let ghost start = views(v@);
    push_view(v, new_string("framework=Foundation"));
    push_view(v, new_string("framework=CoreFoundation"));
    push_view(v, new_string("framework=AudioToolbox"));
    push_view(v, new_string("framework=CoreMIDI"));
    push_view(v, new_string("framework=AppKit"));
    proof {
        assert(views(v@) =~= start + auv2_libs());
    }
}

/// Include directories of the VST3 wrapper built from the sources bundled with its crate.
pub open spec fn bundled_vst3_includes() -> Seq<LocView> {
    seq![
        LocView::Crate("./external/clap/include"@),
        LocView::Crate("./external/clap-wrapper/include"@),
        LocView::Crate("./external/clap-wrapper/libs/fmt"@),
        LocView::Crate("./external/clap-wrapper/libs/psl"@),
        LocView::Crate("./external/clap-wrapper/src"@),
        LocView::Crate("./external/vst3sdk"@),
        LocView::Crate("./external/vst3sdk/public.sdk"@),
        LocView::Crate("./external/vst3sdk/pluginterfaces"@),
    ]
}

/// Appends `bundled_vst3_includes()`.
pub fn push_bundled_vst3_includes(v: &mut Vec<Loc>)
    ensures
        views(final(v)@) == views(old(v)@) + bundled_vst3_includes(),
{
    let ghost start = views(v@);
    push_view(v, new_crate_dir("./external/clap/include"));
    push_view(v, new_crate_dir("./external/clap-wrapper/include"));
    push_view(v, new_crate_dir("./external/clap-wrapper/libs/fmt"));
    push_view(v, new_crate_dir("./external/clap-wrapper/libs/psl"));
    push_view(v, new_crate_dir("./external/clap-wrapper/src"));
    push_view(v, new_crate_dir("./external/vst3sdk"));
    push_view(v, new_crate_dir("./external/vst3sdk/public.sdk"));
    push_view(v, new_crate_dir("./external/vst3sdk/pluginterfaces"));
    proof {
        assert(views(v@) =~= start + bundled_vst3_includes());
    }
}

/// The system-specific include directories of the bundled VST3 wrapper.
pub open spec fn bundled_vst3_os_includes(os: TargetOs) -> Seq<LocView> {
    match os {
        TargetOs::MacOs => seq![
                LocView::Crate("./external/filesystem/include"@),
            ],
        TargetOs::Windows => Seq::<LocView>::empty(),
        TargetOs::Linux => Seq::<LocView>::empty(),
    }
}

/// Appends `bundled_vst3_os_includes(os)`.
pub fn push_bundled_vst3_os_includes(v: &mut Vec<Loc>, os: TargetOs)
    ensures
        views(final(v)@) == views(old(v)@) + bundled_vst3_os_includes(os),
{
    let ghost start = views(v@);
    match os {
        TargetOs::MacOs => {
            push_view(v, new_crate_dir("./external/filesystem/include"));
        },
        TargetOs::Windows => {

        },
        TargetOs::Linux => {

        },
    }
    proof {
        assert(views(v@) =~= start + bundled_vst3_os_includes(os));
    }
}

/// The system definitions of the bundled VST3 wrapper.
pub open spec fn bundled_vst3_os_defines(os: TargetOs) -> Seq<DefineView> {
    match os {
        TargetOs::MacOs => seq![
                define_flag("MAC"@),
                define_flag("MACOS_USE_GHC_FILESYSTEM"@),
            ],
        TargetOs::Windows => seq![
                define_flag("WIN"@),
            ],
        TargetOs::Linux => seq![
                define_flag("LIN"@),
            ],
    }
}

/// Appends `bundled_vst3_os_defines(os)`.
pub fn push_bundled_vst3_os_defines(v: &mut Vec<Define>, os: TargetOs)
    ensures
        views(final(v)@) == views(old(v)@) + bundled_vst3_os_defines(os),
{
    let ghost start = views(v@);
    match os {
        TargetOs::MacOs => {
            push_view(v, new_define_flag("MAC"));
            push_view(v, new_define_flag("MACOS_USE_GHC_FILESYSTEM"));
        },
        TargetOs::Windows => {
            push_view(v, new_define_flag("WIN"));
        },
        TargetOs::Linux => {
            push_view(v, new_define_flag("LIN"));
        },
    }
    proof {
        assert(views(v@) =~= start + bundled_vst3_os_defines(os));
    }
}

/// The directories of the bundled VST3 SDK whose `.cpp` files are all compiled.
pub open spec fn bundled_vst3_sdk_trees() -> Seq<SourceView> {
    seq![
        cpp_tree_in_crate("./external/vst3sdk/base/source"@),
        cpp_tree_in_crate("./external/vst3sdk/base/thread/source"@),
        cpp_tree_in_crate("./external/vst3sdk/pluginterfaces/base"@),
        cpp_tree_in_crate("./external/vst3sdk/public.sdk/source/common"@),
    ]
}

/// Appends `bundled_vst3_sdk_trees()`.
pub fn push_bundled_vst3_sdk_trees(v: &mut Vec<Source>)
    ensures
        views(final(v)@) == views(old(v)@) + bundled_vst3_sdk_trees(),
{
    let ghost start = views(v@);
    push_view(v, new_cpp_tree_in_crate("./external/vst3sdk/base/source"));
    push_view(v, new_cpp_tree_in_crate("./external/vst3sdk/base/thread/source"));
    push_view(v, new_cpp_tree_in_crate("./external/vst3sdk/pluginterfaces/base"));
    push_view(v, new_cpp_tree_in_crate("./external/vst3sdk/public.sdk/source/common"));
    proof {
        assert(views(v@) =~= start + bundled_vst3_sdk_trees());
    }
}

/// The single files of the bundled VST3 SDK that are compiled.
pub open spec fn bundled_vst3_sdk_files() -> Seq<SourceView> {
    seq![
        file_in_crate("./external/vst3sdk/public.sdk/source/main/pluginfactory.cpp"@),
        file_in_crate("./external/vst3sdk/public.sdk/source/main/moduleinit.cpp"@),
        file_in_crate("./external/vst3sdk/public.sdk/source/vst/vstinitiids.cpp"@),
        file_in_crate("./external/vst3sdk/public.sdk/source/vst/vstnoteexpressiontypes.cpp"@),
        file_in_crate("./external/vst3sdk/public.sdk/source/vst/vstaudioeffect.cpp"@),
        file_in_crate("./external/vst3sdk/public.sdk/source/vst/vstcomponent.cpp"@),
        file_in_crate("./external/vst3sdk/public.sdk/source/vst/vstsinglecomponenteffect.cpp"@),
        file_in_crate("./external/vst3sdk/public.sdk/source/vst/vstcomponentbase.cpp"@),
        file_in_crate("./external/vst3sdk/public.sdk/source/vst/vstbus.cpp"@),
        file_in_crate("./external/vst3sdk/public.sdk/source/vst/vstparameters.cpp"@),
        file_in_crate("./external/vst3sdk/public.sdk/source/vst/utility/stringconvert.cpp"@),
    ]
}

/// Appends `bundled_vst3_sdk_files()`.
pub fn push_bundled_vst3_sdk_files(v: &mut Vec<Source>)
    ensures
        views(final(v)@) == views(old(v)@) + bundled_vst3_sdk_files(),
{
    let ghost start = views(v@);
    push_view(v, new_file_in_crate("./external/vst3sdk/public.sdk/source/main/pluginfactory.cpp"));
    push_view(v, new_file_in_crate("./external/vst3sdk/public.sdk/source/main/moduleinit.cpp"));
    push_view(v, new_file_in_crate("./external/vst3sdk/public.sdk/source/vst/vstinitiids.cpp"));
    push_view(v, new_file_in_crate("./external/vst3sdk/public.sdk/source/vst/vstnoteexpressiontypes.cpp"));
    push_view(v, new_file_in_crate("./external/vst3sdk/public.sdk/source/vst/vstaudioeffect.cpp"));
    push_view(v, new_file_in_crate("./external/vst3sdk/public.sdk/source/vst/vstcomponent.cpp"));
    push_view(v, new_file_in_crate("./external/vst3sdk/public.sdk/source/vst/vstsinglecomponenteffect.cpp"));
    push_view(v, new_file_in_crate("./external/vst3sdk/public.sdk/source/vst/vstcomponentbase.cpp"));
    push_view(v, new_file_in_crate("./external/vst3sdk/public.sdk/source/vst/vstbus.cpp"));
    push_view(v, new_file_in_crate("./external/vst3sdk/public.sdk/source/vst/vstparameters.cpp"));
    push_view(v, new_file_in_crate("./external/vst3sdk/public.sdk/source/vst/utility/stringconvert.cpp"));
    proof {
        assert(views(v@) =~= start + bundled_vst3_sdk_files());
    }
}

/// The parts of the bundled wrapper that every format uses.
pub open spec fn bundled_shared_files() -> Seq<SourceView> {
    seq![
        file_in_crate("./external/clap-wrapper/src/clap_proxy.cpp"@),
        file_in_crate("./external/clap-wrapper/src/detail/clap/fsutil.cpp"@),
        file_in_crate("./external/clap-wrapper/src/detail/shared/sha1.cpp"@),
    ]
}

/// Appends `bundled_shared_files()`.
pub fn push_bundled_shared_files(v: &mut Vec<Source>)
    ensures
        views(final(v)@) == views(old(v)@) + bundled_shared_files(),
{
    let ghost start = views(v@);
    push_view(v, new_file_in_crate("./external/clap-wrapper/src/clap_proxy.cpp"));
    push_view(v, new_file_in_crate("./external/clap-wrapper/src/detail/clap/fsutil.cpp"));
    push_view(v, new_file_in_crate("./external/clap-wrapper/src/detail/shared/sha1.cpp"));
    proof {
        assert(views(v@) =~= start + bundled_shared_files());
    }
}

/// The VST3 part of the bundled wrapper.
pub open spec fn bundled_vst3_wrapper_files() -> Seq<SourceView> {
    seq![
        file_in_crate("./external/clap-wrapper/src/wrapasvst3_export_entry.cpp"@),
        file_in_crate("./external/clap-wrapper/src/wrapasvst3.cpp"@),
        file_in_crate("./external/clap-wrapper/src/wrapasvst3_entry.cpp"@),
        file_in_crate("./external/clap-wrapper/src/detail/vst3/parameter.cpp"@),
        file_in_crate("./external/clap-wrapper/src/detail/vst3/plugview.cpp"@),
        file_in_crate("./external/clap-wrapper/src/detail/vst3/process.cpp"@),
        file_in_crate("./external/clap-wrapper/src/detail/vst3/categories.cpp"@),
    ]
}

/// Appends `bundled_vst3_wrapper_files()`.
pub fn push_bundled_vst3_wrapper_files(v: &mut Vec<Source>)
    ensures
        views(final(v)@) == views(old(v)@) + bundled_vst3_wrapper_files(),
{
    let ghost start = views(v@);
    push_view(v, new_file_in_crate("./external/clap-wrapper/src/wrapasvst3_export_entry.cpp"));
    push_view(v, new_file_in_crate("./external/clap-wrapper/src/wrapasvst3.cpp"));
    push_view(v, new_file_in_crate("./external/clap-wrapper/src/wrapasvst3_entry.cpp"));
    push_view(v, new_file_in_crate("./external/clap-wrapper/src/detail/vst3/parameter.cpp"));
    push_view(v, new_file_in_crate("./external/clap-wrapper/src/detail/vst3/plugview.cpp"));
    push_view(v, new_file_in_crate("./external/clap-wrapper/src/detail/vst3/process.cpp"));
    push_view(v, new_file_in_crate("./external/clap-wrapper/src/detail/vst3/categories.cpp"));
    proof {
        assert(views(v@) =~= start + bundled_vst3_wrapper_files());
    }
}

/// The system-specific sources of the bundled VST3 wrapper.
pub open spec fn bundled_vst3_os_files(os: TargetOs) -> Seq<SourceView> {
    match os {
        TargetOs::MacOs => seq![
                file_in_crate("./external/vst3sdk/public.sdk/source/main/macmain.cpp"@),
                file_in_crate("./external/clap-wrapper/src/detail/os/macos.mm"@),
                file_in_crate("./external/clap-wrapper/src/detail/clap/mac_helpers.mm"@),
            ],
        TargetOs::Windows => seq![
                file_in_crate("./external/vst3sdk/public.sdk/source/main/dllmain.cpp"@),
                file_in_crate("./external/clap-wrapper/src/detail/os/windows.cpp"@),
            ],
        TargetOs::Linux => seq![
                file_in_crate("./external/vst3sdk/public.sdk/source/main/linuxmain.cpp"@),
                file_in_crate("./external/clap-wrapper/src/detail/os/linux.cpp"@),
            ],
    }
}

/// Appends `bundled_vst3_os_files(os)`.
pub fn push_bundled_vst3_os_files(v: &mut Vec<Source>, os: TargetOs)
    ensures
        views(final(v)@) == views(old(v)@) + bundled_vst3_os_files(os),
{
    let ghost start = views(v@);
    match os {
        TargetOs::MacOs => {
            push_view(v, new_file_in_crate("./external/vst3sdk/public.sdk/source/main/macmain.cpp"));
            push_view(v, new_file_in_crate("./external/clap-wrapper/src/detail/os/macos.mm"));
            push_view(v, new_file_in_crate("./external/clap-wrapper/src/detail/clap/mac_helpers.mm"));
        },
        TargetOs::Windows => {
            push_view(v, new_file_in_crate("./external/vst3sdk/public.sdk/source/main/dllmain.cpp"));
            push_view(v, new_file_in_crate("./external/clap-wrapper/src/detail/os/windows.cpp"));
        },
        TargetOs::Linux => {
            push_view(v, new_file_in_crate("./external/vst3sdk/public.sdk/source/main/linuxmain.cpp"));
            push_view(v, new_file_in_crate("./external/clap-wrapper/src/detail/os/linux.cpp"));
        },
    }
    proof {
        assert(views(v@) =~= start + bundled_vst3_os_files(os));
    }
}

/// The system libraries that the bundled VST3 wrapper links.
pub open spec fn bundled_vst3_os_libs(os: TargetOs) -> Seq<Seq<char>> {
    match os {
        TargetOs::MacOs => seq![
                "framework=CoreFoundation"@,
                "framework=Foundation"@,
            ],
        TargetOs::Windows => seq![
                "Shell32"@,
                "user32"@,
                "ole32"@,
            ],
        TargetOs::Linux => Seq::<Seq<char>>::empty(),
    }
}

/// Appends `bundled_vst3_os_libs(os)`.
pub fn push_bundled_vst3_os_libs(v: &mut Vec<String>, os: TargetOs)
    ensures
        views(final(v)@) == views(old(v)@) + bundled_vst3_os_libs(os),
{
    let ghost start = views(v@);
    match os {
        TargetOs::MacOs => {
            push_view(v, new_string("framework=CoreFoundation"));
            push_view(v, new_string("framework=Foundation"));
        },
        TargetOs::Windows => {
            push_view(v, new_string("Shell32"));
            push_view(v, new_string("user32"));
            push_view(v, new_string("ole32"));
        },
        TargetOs::Linux => {

        },
    }
    proof {
        assert(views(v@) =~= start + bundled_vst3_os_libs(os));
    }
}

/// Include directories of the AUv2 wrapper built from the sources bundled with its crate.
pub open spec fn bundled_auv2_includes() -> Seq<LocView> {
    seq![
        LocView::Crate("./src/cpp"@),
        LocView::Crate("./external/clap/include"@),
        LocView::Crate("./external/clap-wrapper/include"@),
        LocView::Crate("./external/clap-wrapper/libs/fmt"@),
        LocView::Crate("./external/clap-wrapper/src"@),
        LocView::Crate("./external/AudioUnitSDK/include"@),
        LocView::Crate("./external/filesystem/include"@),
    ]
}

/// Appends `bundled_auv2_includes()`.
pub fn push_bundled_auv2_includes(v: &mut Vec<Loc>)
    ensures
        views(final(v)@) == views(old(v)@) + bundled_auv2_includes(),
{
    let ghost start = views(v@);
    push_view(v, new_crate_dir("./src/cpp"));
    push_view(v, new_crate_dir("./external/clap/include"));
    push_view(v, new_crate_dir("./external/clap-wrapper/include"));
    push_view(v, new_crate_dir("./external/clap-wrapper/libs/fmt"));
    push_view(v, new_crate_dir("./external/clap-wrapper/src"));
    push_view(v, new_crate_dir("./external/AudioUnitSDK/include"));
    push_view(v, new_crate_dir("./external/filesystem/include"));
    proof {
        assert(views(v@) =~= start + bundled_auv2_includes());
    }
}

/// The definitions of the bundled AUv2 wrapper (before the configuration).
pub open spec fn bundled_auv2_defines() -> Seq<DefineView> {
    seq![
        define_value("CLAP_WRAPPER_VERSION"@, "\"0.11.0\""@),
        define_value("CLAP_WRAPPER_BUILD_AUV2"@, "1"@),
        define_value("STATICALLY_LINKED_CLAP_ENTRY"@, "1"@),
        define_value("DICTIONARY_STREAM_FORMAT_WRAPPER"@, "1"@),
        define_flag("MACOS_USE_GHC_FILESYSTEM"@),
        define_flag("MAC"@),
    ]
}

/// Appends `bundled_auv2_defines()`.
pub fn push_bundled_auv2_defines(v: &mut Vec<Define>)
    ensures
        views(final(v)@) == views(old(v)@) + bundled_auv2_defines(),
{
    let ghost start = views(v@);
    push_view(v, new_define_value("CLAP_WRAPPER_VERSION", "\"0.11.0\""));
    push_view(v, new_define_value("CLAP_WRAPPER_BUILD_AUV2", "1"));
    push_view(v, new_define_value("STATICALLY_LINKED_CLAP_ENTRY", "1"));
    push_view(v, new_define_value("DICTIONARY_STREAM_FORMAT_WRAPPER", "1"));
    push_view(v, new_define_flag("MACOS_USE_GHC_FILESYSTEM"));
    push_view(v, new_define_flag("MAC"));
    proof {
        assert(views(v@) =~= start + bundled_auv2_defines());
    }
}

/// The files of the bundled Audio Unit SDK that are compiled.
pub open spec fn bundled_auv2_sdk_files() -> Seq<SourceView> {
    seq![
        file_in_crate("./external/AudioUnitSDK/src/AudioUnitSDK/AUBase.cpp"@),
        file_in_crate("./external/AudioUnitSDK/src/AudioUnitSDK/AUBuffer.cpp"@),
        file_in_crate("./external/AudioUnitSDK/src/AudioUnitSDK/AUBufferAllocator.cpp"@),
        file_in_crate("./external/AudioUnitSDK/src/AudioUnitSDK/AUEffectBase.cpp"@),
        file_in_crate("./external/AudioUnitSDK/src/AudioUnitSDK/AUMIDIBase.cpp"@),
        file_in_crate("./external/AudioUnitSDK/src/AudioUnitSDK/AUMIDIEffectBase.cpp"@),
        file_in_crate("./external/AudioUnitSDK/src/AudioUnitSDK/AUInputElement.cpp"@),
        file_in_crate("./external/AudioUnitSDK/src/AudioUnitSDK/AUOutputElement.cpp"@),
        file_in_crate("./external/AudioUnitSDK/src/AudioUnitSDK/AUScopeElement.cpp"@),
        file_in_crate("./external/AudioUnitSDK/src/AudioUnitSDK/AUPlugInDispatch.cpp"@),
        file_in_crate("./external/AudioUnitSDK/src/AudioUnitSDK/ComponentBase.cpp"@),
        file_in_crate("./external/AudioUnitSDK/src/AudioUnitSDK/MusicDeviceBase.cpp"@),
    ]
}

/// Appends `bundled_auv2_sdk_files()`.
pub fn push_bundled_auv2_sdk_files(v: &mut Vec<Source>)
    ensures
        views(final(v)@) == views(old(v)@) + bundled_auv2_sdk_files(),
{
    let ghost start = views(v@);
    push_view(v, new_file_in_crate("./external/AudioUnitSDK/src/AudioUnitSDK/AUBase.cpp"));
    push_view(v, new_file_in_crate("./external/AudioUnitSDK/src/AudioUnitSDK/AUBuffer.cpp"));
    push_view(v, new_file_in_crate("./external/AudioUnitSDK/src/AudioUnitSDK/AUBufferAllocator.cpp"));
    push_view(v, new_file_in_crate("./external/AudioUnitSDK/src/AudioUnitSDK/AUEffectBase.cpp"));
    push_view(v, new_file_in_crate("./external/AudioUnitSDK/src/AudioUnitSDK/AUMIDIBase.cpp"));
    push_view(v, new_file_in_crate("./external/AudioUnitSDK/src/AudioUnitSDK/AUMIDIEffectBase.cpp"));
    push_view(v, new_file_in_crate("./external/AudioUnitSDK/src/AudioUnitSDK/AUInputElement.cpp"));
    push_view(v, new_file_in_crate("./external/AudioUnitSDK/src/AudioUnitSDK/AUOutputElement.cpp"));
    push_view(v, new_file_in_crate("./external/AudioUnitSDK/src/AudioUnitSDK/AUScopeElement.cpp"));
    push_view(v, new_file_in_crate("./external/AudioUnitSDK/src/AudioUnitSDK/AUPlugInDispatch.cpp"));
    push_view(v, new_file_in_crate("./external/AudioUnitSDK/src/AudioUnitSDK/ComponentBase.cpp"));
    push_view(v, new_file_in_crate("./external/AudioUnitSDK/src/AudioUnitSDK/MusicDeviceBase.cpp"));
    proof {
        assert(views(v@) =~= start + bundled_auv2_sdk_files());
    }
}

/// The AUv2 part of the bundled wrapper with its macOS helpers.
pub open spec fn bundled_auv2_wrapper_files() -> Seq<SourceView> {
    seq![
        file_in_crate("./external/clap-wrapper/src/wrapasauv2.cpp"@),
        file_in_crate("./external/clap-wrapper/src/detail/auv2/auv2_shared.mm"@),
        file_in_crate("./external/clap-wrapper/src/detail/auv2/process.cpp"@),
        file_in_crate("./external/clap-wrapper/src/detail/auv2/wrappedview.mm"@),
        file_in_crate("./external/clap-wrapper/src/detail/auv2/parameter.cpp"@),
        file_in_crate("./external/clap-wrapper/src/detail/os/macos.mm"@),
        file_in_crate("./external/clap-wrapper/src/detail/clap/mac_helpers.mm"@),
    ]
}

/// Appends `bundled_auv2_wrapper_files()`.
pub fn push_bundled_auv2_wrapper_files(v: &mut Vec<Source>)
    ensures
        views(final(v)@) == views(old(v)@) + bundled_auv2_wrapper_files(),
{
    let ghost start = views(v@);
    push_view(v, new_file_in_crate("./external/clap-wrapper/src/wrapasauv2.cpp"));
    push_view(v, new_file_in_crate("./external/clap-wrapper/src/detail/auv2/auv2_shared.mm"));
    push_view(v, new_file_in_crate("./external/clap-wrapper/src/detail/auv2/process.cpp"));
    push_view(v, new_file_in_crate("./external/clap-wrapper/src/detail/auv2/wrappedview.mm"));
    push_view(v, new_file_in_crate("./external/clap-wrapper/src/detail/auv2/parameter.cpp"));
    push_view(v, new_file_in_crate("./external/clap-wrapper/src/detail/os/macos.mm"));
    push_view(v, new_file_in_crate("./external/clap-wrapper/src/detail/clap/mac_helpers.mm"));
    proof {
        assert(views(v@) =~= start + bundled_auv2_wrapper_files());
    }
}

} // verus!
