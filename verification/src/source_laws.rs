//! How the builds' source lists relate to one another: the bundled crates compile the same
//! sources as the builds against an SDK path, named under `./external/`.
use vstd::prelude::*;

use crate::bundled::{bundled_auv2_plan_view, bundled_vst3_plan_view};
use crate::plan::{
    cpp_tree_in_crate, cpp_tree_in_sdk, define_flag, define_value, file_in_crate, file_in_sdk,
    LocView, SourceView, TargetOs,
};
use crate::root::{auv2_plan_view, vst3_plan_view};

verus! {

/// Whether `s` is a file of the crate whose path lies under the directory `dir`.
pub open spec fn names_crate_file_under(s: SourceView, dir: Seq<char>) -> bool {
    s matches SourceView::File(LocView::Crate(p)) && dir.len() <= p.len() && p.subrange(
        0,
        dir.len() as int,
    ) == dir
}

/// The file of the VST3 SDK that defines the module entry points of a system.
pub open spec fn sdk_system_file(os: TargetOs) -> Seq<char> {
    match os {
        TargetOs::MacOs => "public.sdk/source/main/macmain.cpp"@,
        TargetOs::Windows => "public.sdk/source/main/dllmain.cpp"@,
        TargetOs::Linux => "public.sdk/source/main/linuxmain.cpp"@,
    }
}

/// The system support file of the wrapper.
pub open spec fn wrapper_system_file(os: TargetOs) -> Seq<char> {
    match os {
        TargetOs::MacOs => "clap-wrapper/src/detail/os/macos.mm"@,
        TargetOs::Windows => "clap-wrapper/src/detail/os/windows.cpp"@,
        TargetOs::Linux => "clap-wrapper/src/detail/os/linux.cpp"@,
    }
}

/// Where the bundled crates keep a path of the crate (`./external/<path>`) or of the SDK
/// (`<sdk_dir><path>`, with `sdk_dir` the bundled copy of the SDK).
pub open spec fn bundled_loc(l: LocView, sdk_dir: Seq<char>) -> LocView {
    match l {
        LocView::Crate(p) => LocView::Crate("./external/"@ + p),
        LocView::SdkRoot => LocView::Crate(sdk_dir),
        LocView::InSdk(p) => LocView::Crate(sdk_dir + p),
    }
}

/// A source as the bundled crates name it.
pub open spec fn bundled_source(s: SourceView, sdk_dir: Seq<char>) -> SourceView {
    match s {
        SourceView::File(l) => SourceView::File(bundled_loc(l, sdk_dir)),
        SourceView::Tree(l, ext) => SourceView::Tree(bundled_loc(l, sdk_dir), ext),
    }
}

#[verifier::spinoff_prover]
#[verifier::rlimit(60)]
proof fn lemma_vst3_sources_pair_macos_forward(debug: bool, verbose: bool)
    ensures
        forall|i: int| 0 <= i < vst3_plan_view(TargetOs::MacOs, debug, verbose).sources.len() ==> bundled_vst3_plan_view(TargetOs::MacOs, debug).sources.contains(
            #[trigger] bundled_source(vst3_plan_view(TargetOs::MacOs, debug, verbose).sources[i], "./external/vst3sdk/"@),
        ),
{
    assert(vst3_plan_view(TargetOs::MacOs, debug, verbose).sources.len() == 29);
    assert forall|i: int| 0 <= i < vst3_plan_view(TargetOs::MacOs, debug, verbose).sources.len() implies bundled_vst3_plan_view(TargetOs::MacOs, debug).sources.contains(
        #[trigger] bundled_source(vst3_plan_view(TargetOs::MacOs, debug, verbose).sources[i], "./external/vst3sdk/"@),
    ) by {
        if i == 0 {
            reveal_strlit("./external/vst3sdk/");
            reveal_strlit("base/source");
            reveal_strlit("./external/vst3sdk/base/source");
            assert("./external/vst3sdk/"@ + "base/source"@ =~= "./external/vst3sdk/base/source"@);
            assert(bundled_vst3_plan_view(TargetOs::MacOs, debug).sources[0] == bundled_source(vst3_plan_view(TargetOs::MacOs, debug, verbose).sources[0], "./external/vst3sdk/"@));

        } else if i == 1 {
            reveal_strlit("./external/vst3sdk/");
            reveal_strlit("base/thread/source");
            reveal_strlit("./external/vst3sdk/base/thread/source");
            assert("./external/vst3sdk/"@ + "base/thread/source"@ =~= "./external/vst3sdk/base/thread/source"@);
            assert(bundled_vst3_plan_view(TargetOs::MacOs, debug).sources[1] == bundled_source(vst3_plan_view(TargetOs::MacOs, debug, verbose).sources[1], "./external/vst3sdk/"@));

        } else if i == 2 {
            reveal_strlit("./external/vst3sdk/");
            reveal_strlit("public.sdk/source/common");
            reveal_strlit("./external/vst3sdk/public.sdk/source/common");
            assert("./external/vst3sdk/"@ + "public.sdk/source/common"@ =~= "./external/vst3sdk/public.sdk/source/common"@);
            assert(bundled_vst3_plan_view(TargetOs::MacOs, debug).sources[3] == bundled_source(vst3_plan_view(TargetOs::MacOs, debug, verbose).sources[2], "./external/vst3sdk/"@));

        } else if i == 3 {
            reveal_strlit("./external/vst3sdk/");
            reveal_strlit("pluginterfaces/base");
            reveal_strlit("./external/vst3sdk/pluginterfaces/base");
            assert("./external/vst3sdk/"@ + "pluginterfaces/base"@ =~= "./external/vst3sdk/pluginterfaces/base"@);
            assert(bundled_vst3_plan_view(TargetOs::MacOs, debug).sources[2] == bundled_source(vst3_plan_view(TargetOs::MacOs, debug, verbose).sources[3], "./external/vst3sdk/"@));

        } else if i == 4 {
            reveal_strlit("./external/vst3sdk/");
            reveal_strlit("public.sdk/source/main/pluginfactory.cpp");
            reveal_strlit("./external/vst3sdk/public.sdk/source/main/pluginfactory.cpp");
            assert("./external/vst3sdk/"@ + "public.sdk/source/main/pluginfactory.cpp"@ =~= "./external/vst3sdk/public.sdk/source/main/pluginfactory.cpp"@);
            assert(bundled_vst3_plan_view(TargetOs::MacOs, debug).sources[4] == bundled_source(vst3_plan_view(TargetOs::MacOs, debug, verbose).sources[4], "./external/vst3sdk/"@));

        } else if i == 5 {
            reveal_strlit("./external/vst3sdk/");
            reveal_strlit("public.sdk/source/main/moduleinit.cpp");
            reveal_strlit("./external/vst3sdk/public.sdk/source/main/moduleinit.cpp");
            assert("./external/vst3sdk/"@ + "public.sdk/source/main/moduleinit.cpp"@ =~= "./external/vst3sdk/public.sdk/source/main/moduleinit.cpp"@);
            assert(bundled_vst3_plan_view(TargetOs::MacOs, debug).sources[5] == bundled_source(vst3_plan_view(TargetOs::MacOs, debug, verbose).sources[5], "./external/vst3sdk/"@));

        } else if i == 6 {
            reveal_strlit("./external/vst3sdk/");
            reveal_strlit("public.sdk/source/vst/vstinitiids.cpp");
            reveal_strlit("./external/vst3sdk/public.sdk/source/vst/vstinitiids.cpp");
            assert("./external/vst3sdk/"@ + "public.sdk/source/vst/vstinitiids.cpp"@ =~= "./external/vst3sdk/public.sdk/source/vst/vstinitiids.cpp"@);
            assert(bundled_vst3_plan_view(TargetOs::MacOs, debug).sources[6] == bundled_source(vst3_plan_view(TargetOs::MacOs, debug, verbose).sources[6], "./external/vst3sdk/"@));

        } else if i == 7 {
            reveal_strlit("./external/vst3sdk/");
            reveal_strlit("public.sdk/source/vst/vstnoteexpressiontypes.cpp");
            reveal_strlit("./external/vst3sdk/public.sdk/source/vst/vstnoteexpressiontypes.cpp");
            assert("./external/vst3sdk/"@ + "public.sdk/source/vst/vstnoteexpressiontypes.cpp"@ =~= "./external/vst3sdk/public.sdk/source/vst/vstnoteexpressiontypes.cpp"@);
            assert(bundled_vst3_plan_view(TargetOs::MacOs, debug).sources[7] == bundled_source(vst3_plan_view(TargetOs::MacOs, debug, verbose).sources[7], "./external/vst3sdk/"@));

        } else if i == 8 {
            reveal_strlit("./external/vst3sdk/");
            reveal_strlit("public.sdk/source/vst/vstsinglecomponenteffect.cpp");
            reveal_strlit("./external/vst3sdk/public.sdk/source/vst/vstsinglecomponenteffect.cpp");
            assert("./external/vst3sdk/"@ + "public.sdk/source/vst/vstsinglecomponenteffect.cpp"@ =~= "./external/vst3sdk/public.sdk/source/vst/vstsinglecomponenteffect.cpp"@);
            assert(bundled_vst3_plan_view(TargetOs::MacOs, debug).sources[10] == bundled_source(vst3_plan_view(TargetOs::MacOs, debug, verbose).sources[8], "./external/vst3sdk/"@));

        } else if i == 9 {
            reveal_strlit("./external/vst3sdk/");
            reveal_strlit("public.sdk/source/vst/vstaudioeffect.cpp");
            reveal_strlit("./external/vst3sdk/public.sdk/source/vst/vstaudioeffect.cpp");
            assert("./external/vst3sdk/"@ + "public.sdk/source/vst/vstaudioeffect.cpp"@ =~= "./external/vst3sdk/public.sdk/source/vst/vstaudioeffect.cpp"@);
            assert(bundled_vst3_plan_view(TargetOs::MacOs, debug).sources[8] == bundled_source(vst3_plan_view(TargetOs::MacOs, debug, verbose).sources[9], "./external/vst3sdk/"@));

        } else if i == 10 {
            reveal_strlit("./external/vst3sdk/");
            reveal_strlit("public.sdk/source/vst/vstcomponent.cpp");
            reveal_strlit("./external/vst3sdk/public.sdk/source/vst/vstcomponent.cpp");
            assert("./external/vst3sdk/"@ + "public.sdk/source/vst/vstcomponent.cpp"@ =~= "./external/vst3sdk/public.sdk/source/vst/vstcomponent.cpp"@);
            assert(bundled_vst3_plan_view(TargetOs::MacOs, debug).sources[9] == bundled_source(vst3_plan_view(TargetOs::MacOs, debug, verbose).sources[10], "./external/vst3sdk/"@));

        } else if i == 11 {
            reveal_strlit("./external/vst3sdk/");
            reveal_strlit("public.sdk/source/vst/vstsinglecomponenteffect.cpp");
            reveal_strlit("./external/vst3sdk/public.sdk/source/vst/vstsinglecomponenteffect.cpp");
            assert("./external/vst3sdk/"@ + "public.sdk/source/vst/vstsinglecomponenteffect.cpp"@ =~= "./external/vst3sdk/public.sdk/source/vst/vstsinglecomponenteffect.cpp"@);
            assert(bundled_vst3_plan_view(TargetOs::MacOs, debug).sources[10] == bundled_source(vst3_plan_view(TargetOs::MacOs, debug, verbose).sources[11], "./external/vst3sdk/"@));

        } else if i == 12 {
            reveal_strlit("./external/vst3sdk/");
            reveal_strlit("public.sdk/source/vst/vstcomponentbase.cpp");
            reveal_strlit("./external/vst3sdk/public.sdk/source/vst/vstcomponentbase.cpp");
            assert("./external/vst3sdk/"@ + "public.sdk/source/vst/vstcomponentbase.cpp"@ =~= "./external/vst3sdk/public.sdk/source/vst/vstcomponentbase.cpp"@);
            assert(bundled_vst3_plan_view(TargetOs::MacOs, debug).sources[11] == bundled_source(vst3_plan_view(TargetOs::MacOs, debug, verbose).sources[12], "./external/vst3sdk/"@));

        } else if i == 13 {
            reveal_strlit("./external/vst3sdk/");
            reveal_strlit("public.sdk/source/vst/vstbus.cpp");
            reveal_strlit("./external/vst3sdk/public.sdk/source/vst/vstbus.cpp");
            assert("./external/vst3sdk/"@ + "public.sdk/source/vst/vstbus.cpp"@ =~= "./external/vst3sdk/public.sdk/source/vst/vstbus.cpp"@);
            assert(bundled_vst3_plan_view(TargetOs::MacOs, debug).sources[12] == bundled_source(vst3_plan_view(TargetOs::MacOs, debug, verbose).sources[13], "./external/vst3sdk/"@));

        } else if i == 14 {
            reveal_strlit("./external/vst3sdk/");
            reveal_strlit("public.sdk/source/vst/vstparameters.cpp");
            reveal_strlit("./external/vst3sdk/public.sdk/source/vst/vstparameters.cpp");
            assert("./external/vst3sdk/"@ + "public.sdk/source/vst/vstparameters.cpp"@ =~= "./external/vst3sdk/public.sdk/source/vst/vstparameters.cpp"@);
            assert(bundled_vst3_plan_view(TargetOs::MacOs, debug).sources[13] == bundled_source(vst3_plan_view(TargetOs::MacOs, debug, verbose).sources[14], "./external/vst3sdk/"@));

        } else if i == 15 {
            reveal_strlit("./external/vst3sdk/");
            reveal_strlit("public.sdk/source/vst/utility/stringconvert.cpp");
            reveal_strlit("./external/vst3sdk/public.sdk/source/vst/utility/stringconvert.cpp");
            assert("./external/vst3sdk/"@ + "public.sdk/source/vst/utility/stringconvert.cpp"@ =~= "./external/vst3sdk/public.sdk/source/vst/utility/stringconvert.cpp"@);
            assert(bundled_vst3_plan_view(TargetOs::MacOs, debug).sources[14] == bundled_source(vst3_plan_view(TargetOs::MacOs, debug, verbose).sources[15], "./external/vst3sdk/"@));

        } else if i == 16 {
            reveal_strlit("./external/");
            reveal_strlit("clap-wrapper/src/clap_proxy.cpp");
            reveal_strlit("./external/clap-wrapper/src/clap_proxy.cpp");
            assert("./external/"@ + "clap-wrapper/src/clap_proxy.cpp"@ =~= "./external/clap-wrapper/src/clap_proxy.cpp"@);
            assert(bundled_vst3_plan_view(TargetOs::MacOs, debug).sources[15] == bundled_source(vst3_plan_view(TargetOs::MacOs, debug, verbose).sources[16], "./external/vst3sdk/"@));

        } else if i == 17 {
            reveal_strlit("./external/");
            reveal_strlit("clap-wrapper/src/detail/clap/fsutil.cpp");
            reveal_strlit("./external/clap-wrapper/src/detail/clap/fsutil.cpp");
            assert("./external/"@ + "clap-wrapper/src/detail/clap/fsutil.cpp"@ =~= "./external/clap-wrapper/src/detail/clap/fsutil.cpp"@);
            assert(bundled_vst3_plan_view(TargetOs::MacOs, debug).sources[16] == bundled_source(vst3_plan_view(TargetOs::MacOs, debug, verbose).sources[17], "./external/vst3sdk/"@));

        } else if i == 18 {
            reveal_strlit("./external/");
            reveal_strlit("clap-wrapper/src/detail/shared/sha1.cpp");
            reveal_strlit("./external/clap-wrapper/src/detail/shared/sha1.cpp");
            assert("./external/"@ + "clap-wrapper/src/detail/shared/sha1.cpp"@ =~= "./external/clap-wrapper/src/detail/shared/sha1.cpp"@);
            assert(bundled_vst3_plan_view(TargetOs::MacOs, debug).sources[17] == bundled_source(vst3_plan_view(TargetOs::MacOs, debug, verbose).sources[18], "./external/vst3sdk/"@));

        } else if i == 19 {
            reveal_strlit("./external/");
            reveal_strlit("clap-wrapper/src/wrapasvst3_export_entry.cpp");
            reveal_strlit("./external/clap-wrapper/src/wrapasvst3_export_entry.cpp");
            assert("./external/"@ + "clap-wrapper/src/wrapasvst3_export_entry.cpp"@ =~= "./external/clap-wrapper/src/wrapasvst3_export_entry.cpp"@);
            assert(bundled_vst3_plan_view(TargetOs::MacOs, debug).sources[18] == bundled_source(vst3_plan_view(TargetOs::MacOs, debug, verbose).sources[19], "./external/vst3sdk/"@));

        } else if i == 20 {
            reveal_strlit("./external/");
            reveal_strlit("clap-wrapper/src/wrapasvst3.cpp");
            reveal_strlit("./external/clap-wrapper/src/wrapasvst3.cpp");
            assert("./external/"@ + "clap-wrapper/src/wrapasvst3.cpp"@ =~= "./external/clap-wrapper/src/wrapasvst3.cpp"@);
            assert(bundled_vst3_plan_view(TargetOs::MacOs, debug).sources[19] == bundled_source(vst3_plan_view(TargetOs::MacOs, debug, verbose).sources[20], "./external/vst3sdk/"@));

        } else if i == 21 {
            reveal_strlit("./external/");
            reveal_strlit("clap-wrapper/src/wrapasvst3_entry.cpp");
            reveal_strlit("./external/clap-wrapper/src/wrapasvst3_entry.cpp");
            assert("./external/"@ + "clap-wrapper/src/wrapasvst3_entry.cpp"@ =~= "./external/clap-wrapper/src/wrapasvst3_entry.cpp"@);
            assert(bundled_vst3_plan_view(TargetOs::MacOs, debug).sources[20] == bundled_source(vst3_plan_view(TargetOs::MacOs, debug, verbose).sources[21], "./external/vst3sdk/"@));

        } else if i == 22 {
            reveal_strlit("./external/");
            reveal_strlit("clap-wrapper/src/detail/vst3/parameter.cpp");
            reveal_strlit("./external/clap-wrapper/src/detail/vst3/parameter.cpp");
            assert("./external/"@ + "clap-wrapper/src/detail/vst3/parameter.cpp"@ =~= "./external/clap-wrapper/src/detail/vst3/parameter.cpp"@);
            assert(bundled_vst3_plan_view(TargetOs::MacOs, debug).sources[21] == bundled_source(vst3_plan_view(TargetOs::MacOs, debug, verbose).sources[22], "./external/vst3sdk/"@));

        } else if i == 23 {
            reveal_strlit("./external/");
            reveal_strlit("clap-wrapper/src/detail/vst3/plugview.cpp");
            reveal_strlit("./external/clap-wrapper/src/detail/vst3/plugview.cpp");
            assert("./external/"@ + "clap-wrapper/src/detail/vst3/plugview.cpp"@ =~= "./external/clap-wrapper/src/detail/vst3/plugview.cpp"@);
            assert(bundled_vst3_plan_view(TargetOs::MacOs, debug).sources[22] == bundled_source(vst3_plan_view(TargetOs::MacOs, debug, verbose).sources[23], "./external/vst3sdk/"@));

        } else if i == 24 {
            reveal_strlit("./external/");
            reveal_strlit("clap-wrapper/src/detail/vst3/process.cpp");
            reveal_strlit("./external/clap-wrapper/src/detail/vst3/process.cpp");
            assert("./external/"@ + "clap-wrapper/src/detail/vst3/process.cpp"@ =~= "./external/clap-wrapper/src/detail/vst3/process.cpp"@);
            assert(bundled_vst3_plan_view(TargetOs::MacOs, debug).sources[23] == bundled_source(vst3_plan_view(TargetOs::MacOs, debug, verbose).sources[24], "./external/vst3sdk/"@));

        } else if i == 25 {
            reveal_strlit("./external/");
            reveal_strlit("clap-wrapper/src/detail/vst3/categories.cpp");
            reveal_strlit("./external/clap-wrapper/src/detail/vst3/categories.cpp");
            assert("./external/"@ + "clap-wrapper/src/detail/vst3/categories.cpp"@ =~= "./external/clap-wrapper/src/detail/vst3/categories.cpp"@);
            assert(bundled_vst3_plan_view(TargetOs::MacOs, debug).sources[24] == bundled_source(vst3_plan_view(TargetOs::MacOs, debug, verbose).sources[25], "./external/vst3sdk/"@));

        } else if i == 26 {
            reveal_strlit("./external/vst3sdk/");
            reveal_strlit("public.sdk/source/main/macmain.cpp");
            reveal_strlit("./external/vst3sdk/public.sdk/source/main/macmain.cpp");
            assert("./external/vst3sdk/"@ + "public.sdk/source/main/macmain.cpp"@ =~= "./external/vst3sdk/public.sdk/source/main/macmain.cpp"@);
            assert(bundled_vst3_plan_view(TargetOs::MacOs, debug).sources[25] == bundled_source(vst3_plan_view(TargetOs::MacOs, debug, verbose).sources[26], "./external/vst3sdk/"@));

        } else if i == 27 {
            reveal_strlit("./external/");
            reveal_strlit("clap-wrapper/src/detail/os/macos.mm");
            reveal_strlit("./external/clap-wrapper/src/detail/os/macos.mm");
            assert("./external/"@ + "clap-wrapper/src/detail/os/macos.mm"@ =~= "./external/clap-wrapper/src/detail/os/macos.mm"@);
            assert(bundled_vst3_plan_view(TargetOs::MacOs, debug).sources[26] == bundled_source(vst3_plan_view(TargetOs::MacOs, debug, verbose).sources[27], "./external/vst3sdk/"@));

        } else if i == 28 {
            reveal_strlit("./external/");
            reveal_strlit("clap-wrapper/src/detail/clap/mac_helpers.mm");
            reveal_strlit("./external/clap-wrapper/src/detail/clap/mac_helpers.mm");
            assert("./external/"@ + "clap-wrapper/src/detail/clap/mac_helpers.mm"@ =~= "./external/clap-wrapper/src/detail/clap/mac_helpers.mm"@);
            assert(bundled_vst3_plan_view(TargetOs::MacOs, debug).sources[27] == bundled_source(vst3_plan_view(TargetOs::MacOs, debug, verbose).sources[28], "./external/vst3sdk/"@));

        }
    }
}

#[verifier::spinoff_prover]
#[verifier::rlimit(60)]
proof fn lemma_vst3_sources_pair_macos_backward(debug: bool, verbose: bool)
    ensures
        forall|j: int| 0 <= j < bundled_vst3_plan_view(TargetOs::MacOs, debug).sources.len() ==> exists|i: int| 0 <= i < vst3_plan_view(TargetOs::MacOs, debug, verbose).sources.len()
            && #[trigger] bundled_vst3_plan_view(TargetOs::MacOs, debug).sources[j] == bundled_source(vst3_plan_view(TargetOs::MacOs, debug, verbose).sources[i], "./external/vst3sdk/"@),
{
    assert(bundled_vst3_plan_view(TargetOs::MacOs, debug).sources.len() == 28);
    assert forall|j: int| 0 <= j < bundled_vst3_plan_view(TargetOs::MacOs, debug).sources.len() implies exists|i: int| 0 <= i < vst3_plan_view(TargetOs::MacOs, debug, verbose).sources.len()
        && #[trigger] bundled_vst3_plan_view(TargetOs::MacOs, debug).sources[j] == bundled_source(vst3_plan_view(TargetOs::MacOs, debug, verbose).sources[i], "./external/vst3sdk/"@) by {
        if j == 0 {
            reveal_strlit("./external/vst3sdk/");
            reveal_strlit("base/source");
            reveal_strlit("./external/vst3sdk/base/source");
            assert("./external/vst3sdk/"@ + "base/source"@ =~= "./external/vst3sdk/base/source"@);
            assert(bundled_vst3_plan_view(TargetOs::MacOs, debug).sources[0] == bundled_source(vst3_plan_view(TargetOs::MacOs, debug, verbose).sources[0], "./external/vst3sdk/"@));

        } else if j == 1 {
            reveal_strlit("./external/vst3sdk/");
            reveal_strlit("base/thread/source");
            reveal_strlit("./external/vst3sdk/base/thread/source");
            assert("./external/vst3sdk/"@ + "base/thread/source"@ =~= "./external/vst3sdk/base/thread/source"@);
            assert(bundled_vst3_plan_view(TargetOs::MacOs, debug).sources[1] == bundled_source(vst3_plan_view(TargetOs::MacOs, debug, verbose).sources[1], "./external/vst3sdk/"@));

        } else if j == 2 {
            reveal_strlit("./external/vst3sdk/");
            reveal_strlit("pluginterfaces/base");
            reveal_strlit("./external/vst3sdk/pluginterfaces/base");
            assert("./external/vst3sdk/"@ + "pluginterfaces/base"@ =~= "./external/vst3sdk/pluginterfaces/base"@);
            assert(bundled_vst3_plan_view(TargetOs::MacOs, debug).sources[2] == bundled_source(vst3_plan_view(TargetOs::MacOs, debug, verbose).sources[3], "./external/vst3sdk/"@));

        } else if j == 3 {
            reveal_strlit("./external/vst3sdk/");
            reveal_strlit("public.sdk/source/common");
            reveal_strlit("./external/vst3sdk/public.sdk/source/common");
            assert("./external/vst3sdk/"@ + "public.sdk/source/common"@ =~= "./external/vst3sdk/public.sdk/source/common"@);
            assert(bundled_vst3_plan_view(TargetOs::MacOs, debug).sources[3] == bundled_source(vst3_plan_view(TargetOs::MacOs, debug, verbose).sources[2], "./external/vst3sdk/"@));

        } else if j == 4 {
            reveal_strlit("./external/vst3sdk/");
            reveal_strlit("public.sdk/source/main/pluginfactory.cpp");
            reveal_strlit("./external/vst3sdk/public.sdk/source/main/pluginfactory.cpp");
            assert("./external/vst3sdk/"@ + "public.sdk/source/main/pluginfactory.cpp"@ =~= "./external/vst3sdk/public.sdk/source/main/pluginfactory.cpp"@);
            assert(bundled_vst3_plan_view(TargetOs::MacOs, debug).sources[4] == bundled_source(vst3_plan_view(TargetOs::MacOs, debug, verbose).sources[4], "./external/vst3sdk/"@));

        } else if j == 5 {
            reveal_strlit("./external/vst3sdk/");
            reveal_strlit("public.sdk/source/main/moduleinit.cpp");
            reveal_strlit("./external/vst3sdk/public.sdk/source/main/moduleinit.cpp");
            assert("./external/vst3sdk/"@ + "public.sdk/source/main/moduleinit.cpp"@ =~= "./external/vst3sdk/public.sdk/source/main/moduleinit.cpp"@);
            assert(bundled_vst3_plan_view(TargetOs::MacOs, debug).sources[5] == bundled_source(vst3_plan_view(TargetOs::MacOs, debug, verbose).sources[5], "./external/vst3sdk/"@));

        } else if j == 6 {
            reveal_strlit("./external/vst3sdk/");
            reveal_strlit("public.sdk/source/vst/vstinitiids.cpp");
            reveal_strlit("./external/vst3sdk/public.sdk/source/vst/vstinitiids.cpp");
            assert("./external/vst3sdk/"@ + "public.sdk/source/vst/vstinitiids.cpp"@ =~= "./external/vst3sdk/public.sdk/source/vst/vstinitiids.cpp"@);
            assert(bundled_vst3_plan_view(TargetOs::MacOs, debug).sources[6] == bundled_source(vst3_plan_view(TargetOs::MacOs, debug, verbose).sources[6], "./external/vst3sdk/"@));

        } else if j == 7 {
            reveal_strlit("./external/vst3sdk/");
            reveal_strlit("public.sdk/source/vst/vstnoteexpressiontypes.cpp");
            reveal_strlit("./external/vst3sdk/public.sdk/source/vst/vstnoteexpressiontypes.cpp");
            assert("./external/vst3sdk/"@ + "public.sdk/source/vst/vstnoteexpressiontypes.cpp"@ =~= "./external/vst3sdk/public.sdk/source/vst/vstnoteexpressiontypes.cpp"@);
            assert(bundled_vst3_plan_view(TargetOs::MacOs, debug).sources[7] == bundled_source(vst3_plan_view(TargetOs::MacOs, debug, verbose).sources[7], "./external/vst3sdk/"@));

        } else if j == 8 {
            reveal_strlit("./external/vst3sdk/");
            reveal_strlit("public.sdk/source/vst/vstaudioeffect.cpp");
            reveal_strlit("./external/vst3sdk/public.sdk/source/vst/vstaudioeffect.cpp");
            assert("./external/vst3sdk/"@ + "public.sdk/source/vst/vstaudioeffect.cpp"@ =~= "./external/vst3sdk/public.sdk/source/vst/vstaudioeffect.cpp"@);
            assert(bundled_vst3_plan_view(TargetOs::MacOs, debug).sources[8] == bundled_source(vst3_plan_view(TargetOs::MacOs, debug, verbose).sources[9], "./external/vst3sdk/"@));

        } else if j == 9 {
            reveal_strlit("./external/vst3sdk/");
            reveal_strlit("public.sdk/source/vst/vstcomponent.cpp");
            reveal_strlit("./external/vst3sdk/public.sdk/source/vst/vstcomponent.cpp");
            assert("./external/vst3sdk/"@ + "public.sdk/source/vst/vstcomponent.cpp"@ =~= "./external/vst3sdk/public.sdk/source/vst/vstcomponent.cpp"@);
            assert(bundled_vst3_plan_view(TargetOs::MacOs, debug).sources[9] == bundled_source(vst3_plan_view(TargetOs::MacOs, debug, verbose).sources[10], "./external/vst3sdk/"@));

        } else if j == 10 {
            reveal_strlit("./external/vst3sdk/");
            reveal_strlit("public.sdk/source/vst/vstsinglecomponenteffect.cpp");
            reveal_strlit("./external/vst3sdk/public.sdk/source/vst/vstsinglecomponenteffect.cpp");
            assert("./external/vst3sdk/"@ + "public.sdk/source/vst/vstsinglecomponenteffect.cpp"@ =~= "./external/vst3sdk/public.sdk/source/vst/vstsinglecomponenteffect.cpp"@);
            assert(bundled_vst3_plan_view(TargetOs::MacOs, debug).sources[10] == bundled_source(vst3_plan_view(TargetOs::MacOs, debug, verbose).sources[8], "./external/vst3sdk/"@));

        } else if j == 11 {
            reveal_strlit("./external/vst3sdk/");
            reveal_strlit("public.sdk/source/vst/vstcomponentbase.cpp");
            reveal_strlit("./external/vst3sdk/public.sdk/source/vst/vstcomponentbase.cpp");
            assert("./external/vst3sdk/"@ + "public.sdk/source/vst/vstcomponentbase.cpp"@ =~= "./external/vst3sdk/public.sdk/source/vst/vstcomponentbase.cpp"@);
            assert(bundled_vst3_plan_view(TargetOs::MacOs, debug).sources[11] == bundled_source(vst3_plan_view(TargetOs::MacOs, debug, verbose).sources[12], "./external/vst3sdk/"@));

        } else if j == 12 {
            reveal_strlit("./external/vst3sdk/");
            reveal_strlit("public.sdk/source/vst/vstbus.cpp");
            reveal_strlit("./external/vst3sdk/public.sdk/source/vst/vstbus.cpp");
            assert("./external/vst3sdk/"@ + "public.sdk/source/vst/vstbus.cpp"@ =~= "./external/vst3sdk/public.sdk/source/vst/vstbus.cpp"@);
            assert(bundled_vst3_plan_view(TargetOs::MacOs, debug).sources[12] == bundled_source(vst3_plan_view(TargetOs::MacOs, debug, verbose).sources[13], "./external/vst3sdk/"@));

        } else if j == 13 {
            reveal_strlit("./external/vst3sdk/");
            reveal_strlit("public.sdk/source/vst/vstparameters.cpp");
            reveal_strlit("./external/vst3sdk/public.sdk/source/vst/vstparameters.cpp");
            assert("./external/vst3sdk/"@ + "public.sdk/source/vst/vstparameters.cpp"@ =~= "./external/vst3sdk/public.sdk/source/vst/vstparameters.cpp"@);
            assert(bundled_vst3_plan_view(TargetOs::MacOs, debug).sources[13] == bundled_source(vst3_plan_view(TargetOs::MacOs, debug, verbose).sources[14], "./external/vst3sdk/"@));

        } else if j == 14 {
            reveal_strlit("./external/vst3sdk/");
            reveal_strlit("public.sdk/source/vst/utility/stringconvert.cpp");
            reveal_strlit("./external/vst3sdk/public.sdk/source/vst/utility/stringconvert.cpp");
            assert("./external/vst3sdk/"@ + "public.sdk/source/vst/utility/stringconvert.cpp"@ =~= "./external/vst3sdk/public.sdk/source/vst/utility/stringconvert.cpp"@);
            assert(bundled_vst3_plan_view(TargetOs::MacOs, debug).sources[14] == bundled_source(vst3_plan_view(TargetOs::MacOs, debug, verbose).sources[15], "./external/vst3sdk/"@));

        } else if j == 15 {
            reveal_strlit("./external/");
            reveal_strlit("clap-wrapper/src/clap_proxy.cpp");
            reveal_strlit("./external/clap-wrapper/src/clap_proxy.cpp");
            assert("./external/"@ + "clap-wrapper/src/clap_proxy.cpp"@ =~= "./external/clap-wrapper/src/clap_proxy.cpp"@);
            assert(bundled_vst3_plan_view(TargetOs::MacOs, debug).sources[15] == bundled_source(vst3_plan_view(TargetOs::MacOs, debug, verbose).sources[16], "./external/vst3sdk/"@));

        } else if j == 16 {
            reveal_strlit("./external/");
            reveal_strlit("clap-wrapper/src/detail/clap/fsutil.cpp");
            reveal_strlit("./external/clap-wrapper/src/detail/clap/fsutil.cpp");
            assert("./external/"@ + "clap-wrapper/src/detail/clap/fsutil.cpp"@ =~= "./external/clap-wrapper/src/detail/clap/fsutil.cpp"@);
            assert(bundled_vst3_plan_view(TargetOs::MacOs, debug).sources[16] == bundled_source(vst3_plan_view(TargetOs::MacOs, debug, verbose).sources[17], "./external/vst3sdk/"@));

        } else if j == 17 {
            reveal_strlit("./external/");
            reveal_strlit("clap-wrapper/src/detail/shared/sha1.cpp");
            reveal_strlit("./external/clap-wrapper/src/detail/shared/sha1.cpp");
            assert("./external/"@ + "clap-wrapper/src/detail/shared/sha1.cpp"@ =~= "./external/clap-wrapper/src/detail/shared/sha1.cpp"@);
            assert(bundled_vst3_plan_view(TargetOs::MacOs, debug).sources[17] == bundled_source(vst3_plan_view(TargetOs::MacOs, debug, verbose).sources[18], "./external/vst3sdk/"@));

        } else if j == 18 {
            reveal_strlit("./external/");
            reveal_strlit("clap-wrapper/src/wrapasvst3_export_entry.cpp");
            reveal_strlit("./external/clap-wrapper/src/wrapasvst3_export_entry.cpp");
            assert("./external/"@ + "clap-wrapper/src/wrapasvst3_export_entry.cpp"@ =~= "./external/clap-wrapper/src/wrapasvst3_export_entry.cpp"@);
            assert(bundled_vst3_plan_view(TargetOs::MacOs, debug).sources[18] == bundled_source(vst3_plan_view(TargetOs::MacOs, debug, verbose).sources[19], "./external/vst3sdk/"@));

        } else if j == 19 {
            reveal_strlit("./external/");
            reveal_strlit("clap-wrapper/src/wrapasvst3.cpp");
            reveal_strlit("./external/clap-wrapper/src/wrapasvst3.cpp");
            assert("./external/"@ + "clap-wrapper/src/wrapasvst3.cpp"@ =~= "./external/clap-wrapper/src/wrapasvst3.cpp"@);
            assert(bundled_vst3_plan_view(TargetOs::MacOs, debug).sources[19] == bundled_source(vst3_plan_view(TargetOs::MacOs, debug, verbose).sources[20], "./external/vst3sdk/"@));

        } else if j == 20 {
            reveal_strlit("./external/");
            reveal_strlit("clap-wrapper/src/wrapasvst3_entry.cpp");
            reveal_strlit("./external/clap-wrapper/src/wrapasvst3_entry.cpp");
            assert("./external/"@ + "clap-wrapper/src/wrapasvst3_entry.cpp"@ =~= "./external/clap-wrapper/src/wrapasvst3_entry.cpp"@);
            assert(bundled_vst3_plan_view(TargetOs::MacOs, debug).sources[20] == bundled_source(vst3_plan_view(TargetOs::MacOs, debug, verbose).sources[21], "./external/vst3sdk/"@));

        } else if j == 21 {
            reveal_strlit("./external/");
            reveal_strlit("clap-wrapper/src/detail/vst3/parameter.cpp");
            reveal_strlit("./external/clap-wrapper/src/detail/vst3/parameter.cpp");
            assert("./external/"@ + "clap-wrapper/src/detail/vst3/parameter.cpp"@ =~= "./external/clap-wrapper/src/detail/vst3/parameter.cpp"@);
            assert(bundled_vst3_plan_view(TargetOs::MacOs, debug).sources[21] == bundled_source(vst3_plan_view(TargetOs::MacOs, debug, verbose).sources[22], "./external/vst3sdk/"@));

        } else if j == 22 {
            reveal_strlit("./external/");
            reveal_strlit("clap-wrapper/src/detail/vst3/plugview.cpp");
            reveal_strlit("./external/clap-wrapper/src/detail/vst3/plugview.cpp");
            assert("./external/"@ + "clap-wrapper/src/detail/vst3/plugview.cpp"@ =~= "./external/clap-wrapper/src/detail/vst3/plugview.cpp"@);
            assert(bundled_vst3_plan_view(TargetOs::MacOs, debug).sources[22] == bundled_source(vst3_plan_view(TargetOs::MacOs, debug, verbose).sources[23], "./external/vst3sdk/"@));

        } else if j == 23 {
            reveal_strlit("./external/");
            reveal_strlit("clap-wrapper/src/detail/vst3/process.cpp");
            reveal_strlit("./external/clap-wrapper/src/detail/vst3/process.cpp");
            assert("./external/"@ + "clap-wrapper/src/detail/vst3/process.cpp"@ =~= "./external/clap-wrapper/src/detail/vst3/process.cpp"@);
            assert(bundled_vst3_plan_view(TargetOs::MacOs, debug).sources[23] == bundled_source(vst3_plan_view(TargetOs::MacOs, debug, verbose).sources[24], "./external/vst3sdk/"@));

        } else if j == 24 {
            reveal_strlit("./external/");
            reveal_strlit("clap-wrapper/src/detail/vst3/categories.cpp");
            reveal_strlit("./external/clap-wrapper/src/detail/vst3/categories.cpp");
            assert("./external/"@ + "clap-wrapper/src/detail/vst3/categories.cpp"@ =~= "./external/clap-wrapper/src/detail/vst3/categories.cpp"@);
            assert(bundled_vst3_plan_view(TargetOs::MacOs, debug).sources[24] == bundled_source(vst3_plan_view(TargetOs::MacOs, debug, verbose).sources[25], "./external/vst3sdk/"@));

        } else if j == 25 {
            reveal_strlit("./external/vst3sdk/");
            reveal_strlit("public.sdk/source/main/macmain.cpp");
            reveal_strlit("./external/vst3sdk/public.sdk/source/main/macmain.cpp");
            assert("./external/vst3sdk/"@ + "public.sdk/source/main/macmain.cpp"@ =~= "./external/vst3sdk/public.sdk/source/main/macmain.cpp"@);
            assert(bundled_vst3_plan_view(TargetOs::MacOs, debug).sources[25] == bundled_source(vst3_plan_view(TargetOs::MacOs, debug, verbose).sources[26], "./external/vst3sdk/"@));

        } else if j == 26 {
            reveal_strlit("./external/");
            reveal_strlit("clap-wrapper/src/detail/os/macos.mm");
            reveal_strlit("./external/clap-wrapper/src/detail/os/macos.mm");
            assert("./external/"@ + "clap-wrapper/src/detail/os/macos.mm"@ =~= "./external/clap-wrapper/src/detail/os/macos.mm"@);
            assert(bundled_vst3_plan_view(TargetOs::MacOs, debug).sources[26] == bundled_source(vst3_plan_view(TargetOs::MacOs, debug, verbose).sources[27], "./external/vst3sdk/"@));

        } else if j == 27 {
            reveal_strlit("./external/");
            reveal_strlit("clap-wrapper/src/detail/clap/mac_helpers.mm");
            reveal_strlit("./external/clap-wrapper/src/detail/clap/mac_helpers.mm");
            assert("./external/"@ + "clap-wrapper/src/detail/clap/mac_helpers.mm"@ =~= "./external/clap-wrapper/src/detail/clap/mac_helpers.mm"@);
            assert(bundled_vst3_plan_view(TargetOs::MacOs, debug).sources[27] == bundled_source(vst3_plan_view(TargetOs::MacOs, debug, verbose).sources[28], "./external/vst3sdk/"@));

        }
    }
}

#[verifier::spinoff_prover]
#[verifier::rlimit(60)]
proof fn lemma_vst3_sources_pair_windows_forward(debug: bool, verbose: bool)
    ensures
        forall|i: int| 0 <= i < vst3_plan_view(TargetOs::Windows, debug, verbose).sources.len() ==> bundled_vst3_plan_view(TargetOs::Windows, debug).sources.contains(
            #[trigger] bundled_source(vst3_plan_view(TargetOs::Windows, debug, verbose).sources[i], "./external/vst3sdk/"@),
        ),
{
    assert(vst3_plan_view(TargetOs::Windows, debug, verbose).sources.len() == 28);
    assert forall|i: int| 0 <= i < vst3_plan_view(TargetOs::Windows, debug, verbose).sources.len() implies bundled_vst3_plan_view(TargetOs::Windows, debug).sources.contains(
        #[trigger] bundled_source(vst3_plan_view(TargetOs::Windows, debug, verbose).sources[i], "./external/vst3sdk/"@),
    ) by {
        if i == 0 {
            reveal_strlit("./external/vst3sdk/");
            reveal_strlit("base/source");
            reveal_strlit("./external/vst3sdk/base/source");
            assert("./external/vst3sdk/"@ + "base/source"@ =~= "./external/vst3sdk/base/source"@);
            assert(bundled_vst3_plan_view(TargetOs::Windows, debug).sources[0] == bundled_source(vst3_plan_view(TargetOs::Windows, debug, verbose).sources[0], "./external/vst3sdk/"@));

        } else if i == 1 {
            reveal_strlit("./external/vst3sdk/");
            reveal_strlit("base/thread/source");
            reveal_strlit("./external/vst3sdk/base/thread/source");
            assert("./external/vst3sdk/"@ + "base/thread/source"@ =~= "./external/vst3sdk/base/thread/source"@);
            assert(bundled_vst3_plan_view(TargetOs::Windows, debug).sources[1] == bundled_source(vst3_plan_view(TargetOs::Windows, debug, verbose).sources[1], "./external/vst3sdk/"@));

        } else if i == 2 {
            reveal_strlit("./external/vst3sdk/");
            reveal_strlit("public.sdk/source/common");
            reveal_strlit("./external/vst3sdk/public.sdk/source/common");
            assert("./external/vst3sdk/"@ + "public.sdk/source/common"@ =~= "./external/vst3sdk/public.sdk/source/common"@);
            assert(bundled_vst3_plan_view(TargetOs::Windows, debug).sources[3] == bundled_source(vst3_plan_view(TargetOs::Windows, debug, verbose).sources[2], "./external/vst3sdk/"@));

        } else if i == 3 {
            reveal_strlit("./external/vst3sdk/");
            reveal_strlit("pluginterfaces/base");
            reveal_strlit("./external/vst3sdk/pluginterfaces/base");
            assert("./external/vst3sdk/"@ + "pluginterfaces/base"@ =~= "./external/vst3sdk/pluginterfaces/base"@);
            assert(bundled_vst3_plan_view(TargetOs::Windows, debug).sources[2] == bundled_source(vst3_plan_view(TargetOs::Windows, debug, verbose).sources[3], "./external/vst3sdk/"@));

        } else if i == 4 {
            reveal_strlit("./external/vst3sdk/");
            reveal_strlit("public.sdk/source/main/pluginfactory.cpp");
            reveal_strlit("./external/vst3sdk/public.sdk/source/main/pluginfactory.cpp");
            assert("./external/vst3sdk/"@ + "public.sdk/source/main/pluginfactory.cpp"@ =~= "./external/vst3sdk/public.sdk/source/main/pluginfactory.cpp"@);
            assert(bundled_vst3_plan_view(TargetOs::Windows, debug).sources[4] == bundled_source(vst3_plan_view(TargetOs::Windows, debug, verbose).sources[4], "./external/vst3sdk/"@));

        } else if i == 5 {
            reveal_strlit("./external/vst3sdk/");
            reveal_strlit("public.sdk/source/main/moduleinit.cpp");
            reveal_strlit("./external/vst3sdk/public.sdk/source/main/moduleinit.cpp");
            assert("./external/vst3sdk/"@ + "public.sdk/source/main/moduleinit.cpp"@ =~= "./external/vst3sdk/public.sdk/source/main/moduleinit.cpp"@);
            assert(bundled_vst3_plan_view(TargetOs::Windows, debug).sources[5] == bundled_source(vst3_plan_view(TargetOs::Windows, debug, verbose).sources[5], "./external/vst3sdk/"@));

        } else if i == 6 {
            reveal_strlit("./external/vst3sdk/");
            reveal_strlit("public.sdk/source/vst/vstinitiids.cpp");
            reveal_strlit("./external/vst3sdk/public.sdk/source/vst/vstinitiids.cpp");
            assert("./external/vst3sdk/"@ + "public.sdk/source/vst/vstinitiids.cpp"@ =~= "./external/vst3sdk/public.sdk/source/vst/vstinitiids.cpp"@);
            assert(bundled_vst3_plan_view(TargetOs::Windows, debug).sources[6] == bundled_source(vst3_plan_view(TargetOs::Windows, debug, verbose).sources[6], "./external/vst3sdk/"@));

        } else if i == 7 {
            reveal_strlit("./external/vst3sdk/");
            reveal_strlit("public.sdk/source/vst/vstnoteexpressiontypes.cpp");
            reveal_strlit("./external/vst3sdk/public.sdk/source/vst/vstnoteexpressiontypes.cpp");
            assert("./external/vst3sdk/"@ + "public.sdk/source/vst/vstnoteexpressiontypes.cpp"@ =~= "./external/vst3sdk/public.sdk/source/vst/vstnoteexpressiontypes.cpp"@);
            assert(bundled_vst3_plan_view(TargetOs::Windows, debug).sources[7] == bundled_source(vst3_plan_view(TargetOs::Windows, debug, verbose).sources[7], "./external/vst3sdk/"@));

        } else if i == 8 {
            reveal_strlit("./external/vst3sdk/");
            reveal_strlit("public.sdk/source/vst/vstsinglecomponenteffect.cpp");
            reveal_strlit("./external/vst3sdk/public.sdk/source/vst/vstsinglecomponenteffect.cpp");
            assert("./external/vst3sdk/"@ + "public.sdk/source/vst/vstsinglecomponenteffect.cpp"@ =~= "./external/vst3sdk/public.sdk/source/vst/vstsinglecomponenteffect.cpp"@);
            assert(bundled_vst3_plan_view(TargetOs::Windows, debug).sources[10] == bundled_source(vst3_plan_view(TargetOs::Windows, debug, verbose).sources[8], "./external/vst3sdk/"@));

        } else if i == 9 {
            reveal_strlit("./external/vst3sdk/");
            reveal_strlit("public.sdk/source/vst/vstaudioeffect.cpp");
            reveal_strlit("./external/vst3sdk/public.sdk/source/vst/vstaudioeffect.cpp");
            assert("./external/vst3sdk/"@ + "public.sdk/source/vst/vstaudioeffect.cpp"@ =~= "./external/vst3sdk/public.sdk/source/vst/vstaudioeffect.cpp"@);
            assert(bundled_vst3_plan_view(TargetOs::Windows, debug).sources[8] == bundled_source(vst3_plan_view(TargetOs::Windows, debug, verbose).sources[9], "./external/vst3sdk/"@));

        } else if i == 10 {
            reveal_strlit("./external/vst3sdk/");
            reveal_strlit("public.sdk/source/vst/vstcomponent.cpp");
            reveal_strlit("./external/vst3sdk/public.sdk/source/vst/vstcomponent.cpp");
            assert("./external/vst3sdk/"@ + "public.sdk/source/vst/vstcomponent.cpp"@ =~= "./external/vst3sdk/public.sdk/source/vst/vstcomponent.cpp"@);
            assert(bundled_vst3_plan_view(TargetOs::Windows, debug).sources[9] == bundled_source(vst3_plan_view(TargetOs::Windows, debug, verbose).sources[10], "./external/vst3sdk/"@));

        } else if i == 11 {
            reveal_strlit("./external/vst3sdk/");
            reveal_strlit("public.sdk/source/vst/vstsinglecomponenteffect.cpp");
            reveal_strlit("./external/vst3sdk/public.sdk/source/vst/vstsinglecomponenteffect.cpp");
            assert("./external/vst3sdk/"@ + "public.sdk/source/vst/vstsinglecomponenteffect.cpp"@ =~= "./external/vst3sdk/public.sdk/source/vst/vstsinglecomponenteffect.cpp"@);
            assert(bundled_vst3_plan_view(TargetOs::Windows, debug).sources[10] == bundled_source(vst3_plan_view(TargetOs::Windows, debug, verbose).sources[11], "./external/vst3sdk/"@));

        } else if i == 12 {
            reveal_strlit("./external/vst3sdk/");
            reveal_strlit("public.sdk/source/vst/vstcomponentbase.cpp");
            reveal_strlit("./external/vst3sdk/public.sdk/source/vst/vstcomponentbase.cpp");
            assert("./external/vst3sdk/"@ + "public.sdk/source/vst/vstcomponentbase.cpp"@ =~= "./external/vst3sdk/public.sdk/source/vst/vstcomponentbase.cpp"@);
            assert(bundled_vst3_plan_view(TargetOs::Windows, debug).sources[11] == bundled_source(vst3_plan_view(TargetOs::Windows, debug, verbose).sources[12], "./external/vst3sdk/"@));

        } else if i == 13 {
            reveal_strlit("./external/vst3sdk/");
            reveal_strlit("public.sdk/source/vst/vstbus.cpp");
            reveal_strlit("./external/vst3sdk/public.sdk/source/vst/vstbus.cpp");
            assert("./external/vst3sdk/"@ + "public.sdk/source/vst/vstbus.cpp"@ =~= "./external/vst3sdk/public.sdk/source/vst/vstbus.cpp"@);
            assert(bundled_vst3_plan_view(TargetOs::Windows, debug).sources[12] == bundled_source(vst3_plan_view(TargetOs::Windows, debug, verbose).sources[13], "./external/vst3sdk/"@));

        } else if i == 14 {
            reveal_strlit("./external/vst3sdk/");
            reveal_strlit("public.sdk/source/vst/vstparameters.cpp");
            reveal_strlit("./external/vst3sdk/public.sdk/source/vst/vstparameters.cpp");
            assert("./external/vst3sdk/"@ + "public.sdk/source/vst/vstparameters.cpp"@ =~= "./external/vst3sdk/public.sdk/source/vst/vstparameters.cpp"@);
            assert(bundled_vst3_plan_view(TargetOs::Windows, debug).sources[13] == bundled_source(vst3_plan_view(TargetOs::Windows, debug, verbose).sources[14], "./external/vst3sdk/"@));

        } else if i == 15 {
            reveal_strlit("./external/vst3sdk/");
            reveal_strlit("public.sdk/source/vst/utility/stringconvert.cpp");
            reveal_strlit("./external/vst3sdk/public.sdk/source/vst/utility/stringconvert.cpp");
            assert("./external/vst3sdk/"@ + "public.sdk/source/vst/utility/stringconvert.cpp"@ =~= "./external/vst3sdk/public.sdk/source/vst/utility/stringconvert.cpp"@);
            assert(bundled_vst3_plan_view(TargetOs::Windows, debug).sources[14] == bundled_source(vst3_plan_view(TargetOs::Windows, debug, verbose).sources[15], "./external/vst3sdk/"@));

        } else if i == 16 {
            reveal_strlit("./external/");
            reveal_strlit("clap-wrapper/src/clap_proxy.cpp");
            reveal_strlit("./external/clap-wrapper/src/clap_proxy.cpp");
            assert("./external/"@ + "clap-wrapper/src/clap_proxy.cpp"@ =~= "./external/clap-wrapper/src/clap_proxy.cpp"@);
            assert(bundled_vst3_plan_view(TargetOs::Windows, debug).sources[15] == bundled_source(vst3_plan_view(TargetOs::Windows, debug, verbose).sources[16], "./external/vst3sdk/"@));

        } else if i == 17 {
            reveal_strlit("./external/");
            reveal_strlit("clap-wrapper/src/detail/clap/fsutil.cpp");
            reveal_strlit("./external/clap-wrapper/src/detail/clap/fsutil.cpp");
            assert("./external/"@ + "clap-wrapper/src/detail/clap/fsutil.cpp"@ =~= "./external/clap-wrapper/src/detail/clap/fsutil.cpp"@);
            assert(bundled_vst3_plan_view(TargetOs::Windows, debug).sources[16] == bundled_source(vst3_plan_view(TargetOs::Windows, debug, verbose).sources[17], "./external/vst3sdk/"@));

        } else if i == 18 {
            reveal_strlit("./external/");
            reveal_strlit("clap-wrapper/src/detail/shared/sha1.cpp");
            reveal_strlit("./external/clap-wrapper/src/detail/shared/sha1.cpp");
            assert("./external/"@ + "clap-wrapper/src/detail/shared/sha1.cpp"@ =~= "./external/clap-wrapper/src/detail/shared/sha1.cpp"@);
            assert(bundled_vst3_plan_view(TargetOs::Windows, debug).sources[17] == bundled_source(vst3_plan_view(TargetOs::Windows, debug, verbose).sources[18], "./external/vst3sdk/"@));

        } else if i == 19 {
            reveal_strlit("./external/");
            reveal_strlit("clap-wrapper/src/wrapasvst3_export_entry.cpp");
            reveal_strlit("./external/clap-wrapper/src/wrapasvst3_export_entry.cpp");
            assert("./external/"@ + "clap-wrapper/src/wrapasvst3_export_entry.cpp"@ =~= "./external/clap-wrapper/src/wrapasvst3_export_entry.cpp"@);
            assert(bundled_vst3_plan_view(TargetOs::Windows, debug).sources[18] == bundled_source(vst3_plan_view(TargetOs::Windows, debug, verbose).sources[19], "./external/vst3sdk/"@));

        } else if i == 20 {
            reveal_strlit("./external/");
            reveal_strlit("clap-wrapper/src/wrapasvst3.cpp");
            reveal_strlit("./external/clap-wrapper/src/wrapasvst3.cpp");
            assert("./external/"@ + "clap-wrapper/src/wrapasvst3.cpp"@ =~= "./external/clap-wrapper/src/wrapasvst3.cpp"@);
            assert(bundled_vst3_plan_view(TargetOs::Windows, debug).sources[19] == bundled_source(vst3_plan_view(TargetOs::Windows, debug, verbose).sources[20], "./external/vst3sdk/"@));

        } else if i == 21 {
            reveal_strlit("./external/");
            reveal_strlit("clap-wrapper/src/wrapasvst3_entry.cpp");
            reveal_strlit("./external/clap-wrapper/src/wrapasvst3_entry.cpp");
            assert("./external/"@ + "clap-wrapper/src/wrapasvst3_entry.cpp"@ =~= "./external/clap-wrapper/src/wrapasvst3_entry.cpp"@);
            assert(bundled_vst3_plan_view(TargetOs::Windows, debug).sources[20] == bundled_source(vst3_plan_view(TargetOs::Windows, debug, verbose).sources[21], "./external/vst3sdk/"@));

        } else if i == 22 {
            reveal_strlit("./external/");
            reveal_strlit("clap-wrapper/src/detail/vst3/parameter.cpp");
            reveal_strlit("./external/clap-wrapper/src/detail/vst3/parameter.cpp");
            assert("./external/"@ + "clap-wrapper/src/detail/vst3/parameter.cpp"@ =~= "./external/clap-wrapper/src/detail/vst3/parameter.cpp"@);
            assert(bundled_vst3_plan_view(TargetOs::Windows, debug).sources[21] == bundled_source(vst3_plan_view(TargetOs::Windows, debug, verbose).sources[22], "./external/vst3sdk/"@));

        } else if i == 23 {
            reveal_strlit("./external/");
            reveal_strlit("clap-wrapper/src/detail/vst3/plugview.cpp");
            reveal_strlit("./external/clap-wrapper/src/detail/vst3/plugview.cpp");
            assert("./external/"@ + "clap-wrapper/src/detail/vst3/plugview.cpp"@ =~= "./external/clap-wrapper/src/detail/vst3/plugview.cpp"@);
            assert(bundled_vst3_plan_view(TargetOs::Windows, debug).sources[22] == bundled_source(vst3_plan_view(TargetOs::Windows, debug, verbose).sources[23], "./external/vst3sdk/"@));

        } else if i == 24 {
            reveal_strlit("./external/");
            reveal_strlit("clap-wrapper/src/detail/vst3/process.cpp");
            reveal_strlit("./external/clap-wrapper/src/detail/vst3/process.cpp");
            assert("./external/"@ + "clap-wrapper/src/detail/vst3/process.cpp"@ =~= "./external/clap-wrapper/src/detail/vst3/process.cpp"@);
            assert(bundled_vst3_plan_view(TargetOs::Windows, debug).sources[23] == bundled_source(vst3_plan_view(TargetOs::Windows, debug, verbose).sources[24], "./external/vst3sdk/"@));

        } else if i == 25 {
            reveal_strlit("./external/");
            reveal_strlit("clap-wrapper/src/detail/vst3/categories.cpp");
            reveal_strlit("./external/clap-wrapper/src/detail/vst3/categories.cpp");
            assert("./external/"@ + "clap-wrapper/src/detail/vst3/categories.cpp"@ =~= "./external/clap-wrapper/src/detail/vst3/categories.cpp"@);
            assert(bundled_vst3_plan_view(TargetOs::Windows, debug).sources[24] == bundled_source(vst3_plan_view(TargetOs::Windows, debug, verbose).sources[25], "./external/vst3sdk/"@));

        } else if i == 26 {
            reveal_strlit("./external/vst3sdk/");
            reveal_strlit("public.sdk/source/main/dllmain.cpp");
            reveal_strlit("./external/vst3sdk/public.sdk/source/main/dllmain.cpp");
            assert("./external/vst3sdk/"@ + "public.sdk/source/main/dllmain.cpp"@ =~= "./external/vst3sdk/public.sdk/source/main/dllmain.cpp"@);
            assert(bundled_vst3_plan_view(TargetOs::Windows, debug).sources[25] == bundled_source(vst3_plan_view(TargetOs::Windows, debug, verbose).sources[26], "./external/vst3sdk/"@));

        } else if i == 27 {
            reveal_strlit("./external/");
            reveal_strlit("clap-wrapper/src/detail/os/windows.cpp");
            reveal_strlit("./external/clap-wrapper/src/detail/os/windows.cpp");
            assert("./external/"@ + "clap-wrapper/src/detail/os/windows.cpp"@ =~= "./external/clap-wrapper/src/detail/os/windows.cpp"@);
            assert(bundled_vst3_plan_view(TargetOs::Windows, debug).sources[26] == bundled_source(vst3_plan_view(TargetOs::Windows, debug, verbose).sources[27], "./external/vst3sdk/"@));

        }
    }
}

#[verifier::spinoff_prover]
#[verifier::rlimit(60)]
proof fn lemma_vst3_sources_pair_windows_backward(debug: bool, verbose: bool)
    ensures
        forall|j: int| 0 <= j < bundled_vst3_plan_view(TargetOs::Windows, debug).sources.len() ==> exists|i: int| 0 <= i < vst3_plan_view(TargetOs::Windows, debug, verbose).sources.len()
            && #[trigger] bundled_vst3_plan_view(TargetOs::Windows, debug).sources[j] == bundled_source(vst3_plan_view(TargetOs::Windows, debug, verbose).sources[i], "./external/vst3sdk/"@),
{
    assert(bundled_vst3_plan_view(TargetOs::Windows, debug).sources.len() == 27);
    assert forall|j: int| 0 <= j < bundled_vst3_plan_view(TargetOs::Windows, debug).sources.len() implies exists|i: int| 0 <= i < vst3_plan_view(TargetOs::Windows, debug, verbose).sources.len()
        && #[trigger] bundled_vst3_plan_view(TargetOs::Windows, debug).sources[j] == bundled_source(vst3_plan_view(TargetOs::Windows, debug, verbose).sources[i], "./external/vst3sdk/"@) by {
        if j == 0 {
            reveal_strlit("./external/vst3sdk/");
            reveal_strlit("base/source");
            reveal_strlit("./external/vst3sdk/base/source");
            assert("./external/vst3sdk/"@ + "base/source"@ =~= "./external/vst3sdk/base/source"@);
            assert(bundled_vst3_plan_view(TargetOs::Windows, debug).sources[0] == bundled_source(vst3_plan_view(TargetOs::Windows, debug, verbose).sources[0], "./external/vst3sdk/"@));

        } else if j == 1 {
            reveal_strlit("./external/vst3sdk/");
            reveal_strlit("base/thread/source");
            reveal_strlit("./external/vst3sdk/base/thread/source");
            assert("./external/vst3sdk/"@ + "base/thread/source"@ =~= "./external/vst3sdk/base/thread/source"@);
            assert(bundled_vst3_plan_view(TargetOs::Windows, debug).sources[1] == bundled_source(vst3_plan_view(TargetOs::Windows, debug, verbose).sources[1], "./external/vst3sdk/"@));

        } else if j == 2 {
            reveal_strlit("./external/vst3sdk/");
            reveal_strlit("pluginterfaces/base");
            reveal_strlit("./external/vst3sdk/pluginterfaces/base");
            assert("./external/vst3sdk/"@ + "pluginterfaces/base"@ =~= "./external/vst3sdk/pluginterfaces/base"@);
            assert(bundled_vst3_plan_view(TargetOs::Windows, debug).sources[2] == bundled_source(vst3_plan_view(TargetOs::Windows, debug, verbose).sources[3], "./external/vst3sdk/"@));

        } else if j == 3 {
            reveal_strlit("./external/vst3sdk/");
            reveal_strlit("public.sdk/source/common");
            reveal_strlit("./external/vst3sdk/public.sdk/source/common");
            assert("./external/vst3sdk/"@ + "public.sdk/source/common"@ =~= "./external/vst3sdk/public.sdk/source/common"@);
            assert(bundled_vst3_plan_view(TargetOs::Windows, debug).sources[3] == bundled_source(vst3_plan_view(TargetOs::Windows, debug, verbose).sources[2], "./external/vst3sdk/"@));

        } else if j == 4 {
            reveal_strlit("./external/vst3sdk/");
            reveal_strlit("public.sdk/source/main/pluginfactory.cpp");
            reveal_strlit("./external/vst3sdk/public.sdk/source/main/pluginfactory.cpp");
            assert("./external/vst3sdk/"@ + "public.sdk/source/main/pluginfactory.cpp"@ =~= "./external/vst3sdk/public.sdk/source/main/pluginfactory.cpp"@);
            assert(bundled_vst3_plan_view(TargetOs::Windows, debug).sources[4] == bundled_source(vst3_plan_view(TargetOs::Windows, debug, verbose).sources[4], "./external/vst3sdk/"@));

        } else if j == 5 {
            reveal_strlit("./external/vst3sdk/");
            reveal_strlit("public.sdk/source/main/moduleinit.cpp");
            reveal_strlit("./external/vst3sdk/public.sdk/source/main/moduleinit.cpp");
            assert("./external/vst3sdk/"@ + "public.sdk/source/main/moduleinit.cpp"@ =~= "./external/vst3sdk/public.sdk/source/main/moduleinit.cpp"@);
            assert(bundled_vst3_plan_view(TargetOs::Windows, debug).sources[5] == bundled_source(vst3_plan_view(TargetOs::Windows, debug, verbose).sources[5], "./external/vst3sdk/"@));

        } else if j == 6 {
            reveal_strlit("./external/vst3sdk/");
            reveal_strlit("public.sdk/source/vst/vstinitiids.cpp");
            reveal_strlit("./external/vst3sdk/public.sdk/source/vst/vstinitiids.cpp");
            assert("./external/vst3sdk/"@ + "public.sdk/source/vst/vstinitiids.cpp"@ =~= "./external/vst3sdk/public.sdk/source/vst/vstinitiids.cpp"@);
            assert(bundled_vst3_plan_view(TargetOs::Windows, debug).sources[6] == bundled_source(vst3_plan_view(TargetOs::Windows, debug, verbose).sources[6], "./external/vst3sdk/"@));

        } else if j == 7 {
            reveal_strlit("./external/vst3sdk/");
            reveal_strlit("public.sdk/source/vst/vstnoteexpressiontypes.cpp");
            reveal_strlit("./external/vst3sdk/public.sdk/source/vst/vstnoteexpressiontypes.cpp");
            assert("./external/vst3sdk/"@ + "public.sdk/source/vst/vstnoteexpressiontypes.cpp"@ =~= "./external/vst3sdk/public.sdk/source/vst/vstnoteexpressiontypes.cpp"@);
            assert(bundled_vst3_plan_view(TargetOs::Windows, debug).sources[7] == bundled_source(vst3_plan_view(TargetOs::Windows, debug, verbose).sources[7], "./external/vst3sdk/"@));

        } else if j == 8 {
            reveal_strlit("./external/vst3sdk/");
            reveal_strlit("public.sdk/source/vst/vstaudioeffect.cpp");
            reveal_strlit("./external/vst3sdk/public.sdk/source/vst/vstaudioeffect.cpp");
            assert("./external/vst3sdk/"@ + "public.sdk/source/vst/vstaudioeffect.cpp"@ =~= "./external/vst3sdk/public.sdk/source/vst/vstaudioeffect.cpp"@);
            assert(bundled_vst3_plan_view(TargetOs::Windows, debug).sources[8] == bundled_source(vst3_plan_view(TargetOs::Windows, debug, verbose).sources[9], "./external/vst3sdk/"@));

        } else if j == 9 {
            reveal_strlit("./external/vst3sdk/");
            reveal_strlit("public.sdk/source/vst/vstcomponent.cpp");
            reveal_strlit("./external/vst3sdk/public.sdk/source/vst/vstcomponent.cpp");
            assert("./external/vst3sdk/"@ + "public.sdk/source/vst/vstcomponent.cpp"@ =~= "./external/vst3sdk/public.sdk/source/vst/vstcomponent.cpp"@);
            assert(bundled_vst3_plan_view(TargetOs::Windows, debug).sources[9] == bundled_source(vst3_plan_view(TargetOs::Windows, debug, verbose).sources[10], "./external/vst3sdk/"@));

        } else if j == 10 {
            reveal_strlit("./external/vst3sdk/");
            reveal_strlit("public.sdk/source/vst/vstsinglecomponenteffect.cpp");
            reveal_strlit("./external/vst3sdk/public.sdk/source/vst/vstsinglecomponenteffect.cpp");
            assert("./external/vst3sdk/"@ + "public.sdk/source/vst/vstsinglecomponenteffect.cpp"@ =~= "./external/vst3sdk/public.sdk/source/vst/vstsinglecomponenteffect.cpp"@);
            assert(bundled_vst3_plan_view(TargetOs::Windows, debug).sources[10] == bundled_source(vst3_plan_view(TargetOs::Windows, debug, verbose).sources[8], "./external/vst3sdk/"@));

        } else if j == 11 {
            reveal_strlit("./external/vst3sdk/");
            reveal_strlit("public.sdk/source/vst/vstcomponentbase.cpp");
            reveal_strlit("./external/vst3sdk/public.sdk/source/vst/vstcomponentbase.cpp");
            assert("./external/vst3sdk/"@ + "public.sdk/source/vst/vstcomponentbase.cpp"@ =~= "./external/vst3sdk/public.sdk/source/vst/vstcomponentbase.cpp"@);
            assert(bundled_vst3_plan_view(TargetOs::Windows, debug).sources[11] == bundled_source(vst3_plan_view(TargetOs::Windows, debug, verbose).sources[12], "./external/vst3sdk/"@));

        } else if j == 12 {
            reveal_strlit("./external/vst3sdk/");
            reveal_strlit("public.sdk/source/vst/vstbus.cpp");
            reveal_strlit("./external/vst3sdk/public.sdk/source/vst/vstbus.cpp");
            assert("./external/vst3sdk/"@ + "public.sdk/source/vst/vstbus.cpp"@ =~= "./external/vst3sdk/public.sdk/source/vst/vstbus.cpp"@);
            assert(bundled_vst3_plan_view(TargetOs::Windows, debug).sources[12] == bundled_source(vst3_plan_view(TargetOs::Windows, debug, verbose).sources[13], "./external/vst3sdk/"@));

        } else if j == 13 {
            reveal_strlit("./external/vst3sdk/");
            reveal_strlit("public.sdk/source/vst/vstparameters.cpp");
            reveal_strlit("./external/vst3sdk/public.sdk/source/vst/vstparameters.cpp");
            assert("./external/vst3sdk/"@ + "public.sdk/source/vst/vstparameters.cpp"@ =~= "./external/vst3sdk/public.sdk/source/vst/vstparameters.cpp"@);
            assert(bundled_vst3_plan_view(TargetOs::Windows, debug).sources[13] == bundled_source(vst3_plan_view(TargetOs::Windows, debug, verbose).sources[14], "./external/vst3sdk/"@));

        } else if j == 14 {
            reveal_strlit("./external/vst3sdk/");
            reveal_strlit("public.sdk/source/vst/utility/stringconvert.cpp");
            reveal_strlit("./external/vst3sdk/public.sdk/source/vst/utility/stringconvert.cpp");
            assert("./external/vst3sdk/"@ + "public.sdk/source/vst/utility/stringconvert.cpp"@ =~= "./external/vst3sdk/public.sdk/source/vst/utility/stringconvert.cpp"@);
            assert(bundled_vst3_plan_view(TargetOs::Windows, debug).sources[14] == bundled_source(vst3_plan_view(TargetOs::Windows, debug, verbose).sources[15], "./external/vst3sdk/"@));

        } else if j == 15 {
            reveal_strlit("./external/");
            reveal_strlit("clap-wrapper/src/clap_proxy.cpp");
            reveal_strlit("./external/clap-wrapper/src/clap_proxy.cpp");
            assert("./external/"@ + "clap-wrapper/src/clap_proxy.cpp"@ =~= "./external/clap-wrapper/src/clap_proxy.cpp"@);
            assert(bundled_vst3_plan_view(TargetOs::Windows, debug).sources[15] == bundled_source(vst3_plan_view(TargetOs::Windows, debug, verbose).sources[16], "./external/vst3sdk/"@));

        } else if j == 16 {
            reveal_strlit("./external/");
            reveal_strlit("clap-wrapper/src/detail/clap/fsutil.cpp");
            reveal_strlit("./external/clap-wrapper/src/detail/clap/fsutil.cpp");
            assert("./external/"@ + "clap-wrapper/src/detail/clap/fsutil.cpp"@ =~= "./external/clap-wrapper/src/detail/clap/fsutil.cpp"@);
            assert(bundled_vst3_plan_view(TargetOs::Windows, debug).sources[16] == bundled_source(vst3_plan_view(TargetOs::Windows, debug, verbose).sources[17], "./external/vst3sdk/"@));

        } else if j == 17 {
            reveal_strlit("./external/");
            reveal_strlit("clap-wrapper/src/detail/shared/sha1.cpp");
            reveal_strlit("./external/clap-wrapper/src/detail/shared/sha1.cpp");
            assert("./external/"@ + "clap-wrapper/src/detail/shared/sha1.cpp"@ =~= "./external/clap-wrapper/src/detail/shared/sha1.cpp"@);
            assert(bundled_vst3_plan_view(TargetOs::Windows, debug).sources[17] == bundled_source(vst3_plan_view(TargetOs::Windows, debug, verbose).sources[18], "./external/vst3sdk/"@));

        } else if j == 18 {
            reveal_strlit("./external/");
            reveal_strlit("clap-wrapper/src/wrapasvst3_export_entry.cpp");
            reveal_strlit("./external/clap-wrapper/src/wrapasvst3_export_entry.cpp");
            assert("./external/"@ + "clap-wrapper/src/wrapasvst3_export_entry.cpp"@ =~= "./external/clap-wrapper/src/wrapasvst3_export_entry.cpp"@);
            assert(bundled_vst3_plan_view(TargetOs::Windows, debug).sources[18] == bundled_source(vst3_plan_view(TargetOs::Windows, debug, verbose).sources[19], "./external/vst3sdk/"@));

        } else if j == 19 {
            reveal_strlit("./external/");
            reveal_strlit("clap-wrapper/src/wrapasvst3.cpp");
            reveal_strlit("./external/clap-wrapper/src/wrapasvst3.cpp");
            assert("./external/"@ + "clap-wrapper/src/wrapasvst3.cpp"@ =~= "./external/clap-wrapper/src/wrapasvst3.cpp"@);
            assert(bundled_vst3_plan_view(TargetOs::Windows, debug).sources[19] == bundled_source(vst3_plan_view(TargetOs::Windows, debug, verbose).sources[20], "./external/vst3sdk/"@));

        } else if j == 20 {
            reveal_strlit("./external/");
            reveal_strlit("clap-wrapper/src/wrapasvst3_entry.cpp");
            reveal_strlit("./external/clap-wrapper/src/wrapasvst3_entry.cpp");
            assert("./external/"@ + "clap-wrapper/src/wrapasvst3_entry.cpp"@ =~= "./external/clap-wrapper/src/wrapasvst3_entry.cpp"@);
            assert(bundled_vst3_plan_view(TargetOs::Windows, debug).sources[20] == bundled_source(vst3_plan_view(TargetOs::Windows, debug, verbose).sources[21], "./external/vst3sdk/"@));

        } else if j == 21 {
            reveal_strlit("./external/");
            reveal_strlit("clap-wrapper/src/detail/vst3/parameter.cpp");
            reveal_strlit("./external/clap-wrapper/src/detail/vst3/parameter.cpp");
            assert("./external/"@ + "clap-wrapper/src/detail/vst3/parameter.cpp"@ =~= "./external/clap-wrapper/src/detail/vst3/parameter.cpp"@);
            assert(bundled_vst3_plan_view(TargetOs::Windows, debug).sources[21] == bundled_source(vst3_plan_view(TargetOs::Windows, debug, verbose).sources[22], "./external/vst3sdk/"@));

        } else if j == 22 {
            reveal_strlit("./external/");
            reveal_strlit("clap-wrapper/src/detail/vst3/plugview.cpp");
            reveal_strlit("./external/clap-wrapper/src/detail/vst3/plugview.cpp");
            assert("./external/"@ + "clap-wrapper/src/detail/vst3/plugview.cpp"@ =~= "./external/clap-wrapper/src/detail/vst3/plugview.cpp"@);
            assert(bundled_vst3_plan_view(TargetOs::Windows, debug).sources[22] == bundled_source(vst3_plan_view(TargetOs::Windows, debug, verbose).sources[23], "./external/vst3sdk/"@));

        } else if j == 23 {
            reveal_strlit("./external/");
            reveal_strlit("clap-wrapper/src/detail/vst3/process.cpp");
            reveal_strlit("./external/clap-wrapper/src/detail/vst3/process.cpp");
            assert("./external/"@ + "clap-wrapper/src/detail/vst3/process.cpp"@ =~= "./external/clap-wrapper/src/detail/vst3/process.cpp"@);
            assert(bundled_vst3_plan_view(TargetOs::Windows, debug).sources[23] == bundled_source(vst3_plan_view(TargetOs::Windows, debug, verbose).sources[24], "./external/vst3sdk/"@));

        } else if j == 24 {
            reveal_strlit("./external/");
            reveal_strlit("clap-wrapper/src/detail/vst3/categories.cpp");
            reveal_strlit("./external/clap-wrapper/src/detail/vst3/categories.cpp");
            assert("./external/"@ + "clap-wrapper/src/detail/vst3/categories.cpp"@ =~= "./external/clap-wrapper/src/detail/vst3/categories.cpp"@);
            assert(bundled_vst3_plan_view(TargetOs::Windows, debug).sources[24] == bundled_source(vst3_plan_view(TargetOs::Windows, debug, verbose).sources[25], "./external/vst3sdk/"@));

        } else if j == 25 {
            reveal_strlit("./external/vst3sdk/");
            reveal_strlit("public.sdk/source/main/dllmain.cpp");
            reveal_strlit("./external/vst3sdk/public.sdk/source/main/dllmain.cpp");
            assert("./external/vst3sdk/"@ + "public.sdk/source/main/dllmain.cpp"@ =~= "./external/vst3sdk/public.sdk/source/main/dllmain.cpp"@);
            assert(bundled_vst3_plan_view(TargetOs::Windows, debug).sources[25] == bundled_source(vst3_plan_view(TargetOs::Windows, debug, verbose).sources[26], "./external/vst3sdk/"@));

        } else if j == 26 {
            reveal_strlit("./external/");
            reveal_strlit("clap-wrapper/src/detail/os/windows.cpp");
            reveal_strlit("./external/clap-wrapper/src/detail/os/windows.cpp");
            assert("./external/"@ + "clap-wrapper/src/detail/os/windows.cpp"@ =~= "./external/clap-wrapper/src/detail/os/windows.cpp"@);
            assert(bundled_vst3_plan_view(TargetOs::Windows, debug).sources[26] == bundled_source(vst3_plan_view(TargetOs::Windows, debug, verbose).sources[27], "./external/vst3sdk/"@));

        }
    }
}

#[verifier::spinoff_prover]
#[verifier::rlimit(60)]
proof fn lemma_vst3_sources_pair_linux_forward(debug: bool, verbose: bool)
    ensures
        forall|i: int| 0 <= i < vst3_plan_view(TargetOs::Linux, debug, verbose).sources.len() ==> bundled_vst3_plan_view(TargetOs::Linux, debug).sources.contains(
            #[trigger] bundled_source(vst3_plan_view(TargetOs::Linux, debug, verbose).sources[i], "./external/vst3sdk/"@),
        ),
{
    assert(vst3_plan_view(TargetOs::Linux, debug, verbose).sources.len() == 28);
    assert forall|i: int| 0 <= i < vst3_plan_view(TargetOs::Linux, debug, verbose).sources.len() implies bundled_vst3_plan_view(TargetOs::Linux, debug).sources.contains(
        #[trigger] bundled_source(vst3_plan_view(TargetOs::Linux, debug, verbose).sources[i], "./external/vst3sdk/"@),
    ) by {
        if i == 0 {
            reveal_strlit("./external/vst3sdk/");
            reveal_strlit("base/source");
            reveal_strlit("./external/vst3sdk/base/source");
            assert("./external/vst3sdk/"@ + "base/source"@ =~= "./external/vst3sdk/base/source"@);
            assert(bundled_vst3_plan_view(TargetOs::Linux, debug).sources[0] == bundled_source(vst3_plan_view(TargetOs::Linux, debug, verbose).sources[0], "./external/vst3sdk/"@));

        } else if i == 1 {
            reveal_strlit("./external/vst3sdk/");
            reveal_strlit("base/thread/source");
            reveal_strlit("./external/vst3sdk/base/thread/source");
            assert("./external/vst3sdk/"@ + "base/thread/source"@ =~= "./external/vst3sdk/base/thread/source"@);
            assert(bundled_vst3_plan_view(TargetOs::Linux, debug).sources[1] == bundled_source(vst3_plan_view(TargetOs::Linux, debug, verbose).sources[1], "./external/vst3sdk/"@));

        } else if i == 2 {
            reveal_strlit("./external/vst3sdk/");
            reveal_strlit("public.sdk/source/common");
            reveal_strlit("./external/vst3sdk/public.sdk/source/common");
            assert("./external/vst3sdk/"@ + "public.sdk/source/common"@ =~= "./external/vst3sdk/public.sdk/source/common"@);
            assert(bundled_vst3_plan_view(TargetOs::Linux, debug).sources[3] == bundled_source(vst3_plan_view(TargetOs::Linux, debug, verbose).sources[2], "./external/vst3sdk/"@));

        } else if i == 3 {
            reveal_strlit("./external/vst3sdk/");
            reveal_strlit("pluginterfaces/base");
            reveal_strlit("./external/vst3sdk/pluginterfaces/base");
            assert("./external/vst3sdk/"@ + "pluginterfaces/base"@ =~= "./external/vst3sdk/pluginterfaces/base"@);
            assert(bundled_vst3_plan_view(TargetOs::Linux, debug).sources[2] == bundled_source(vst3_plan_view(TargetOs::Linux, debug, verbose).sources[3], "./external/vst3sdk/"@));

        } else if i == 4 {
            reveal_strlit("./external/vst3sdk/");
            reveal_strlit("public.sdk/source/main/pluginfactory.cpp");
            reveal_strlit("./external/vst3sdk/public.sdk/source/main/pluginfactory.cpp");
            assert("./external/vst3sdk/"@ + "public.sdk/source/main/pluginfactory.cpp"@ =~= "./external/vst3sdk/public.sdk/source/main/pluginfactory.cpp"@);
            assert(bundled_vst3_plan_view(TargetOs::Linux, debug).sources[4] == bundled_source(vst3_plan_view(TargetOs::Linux, debug, verbose).sources[4], "./external/vst3sdk/"@));

        } else if i == 5 {
            reveal_strlit("./external/vst3sdk/");
            reveal_strlit("public.sdk/source/main/moduleinit.cpp");
            reveal_strlit("./external/vst3sdk/public.sdk/source/main/moduleinit.cpp");
            assert("./external/vst3sdk/"@ + "public.sdk/source/main/moduleinit.cpp"@ =~= "./external/vst3sdk/public.sdk/source/main/moduleinit.cpp"@);
            assert(bundled_vst3_plan_view(TargetOs::Linux, debug).sources[5] == bundled_source(vst3_plan_view(TargetOs::Linux, debug, verbose).sources[5], "./external/vst3sdk/"@));

        } else if i == 6 {
            reveal_strlit("./external/vst3sdk/");
            reveal_strlit("public.sdk/source/vst/vstinitiids.cpp");
            reveal_strlit("./external/vst3sdk/public.sdk/source/vst/vstinitiids.cpp");
            assert("./external/vst3sdk/"@ + "public.sdk/source/vst/vstinitiids.cpp"@ =~= "./external/vst3sdk/public.sdk/source/vst/vstinitiids.cpp"@);
            assert(bundled_vst3_plan_view(TargetOs::Linux, debug).sources[6] == bundled_source(vst3_plan_view(TargetOs::Linux, debug, verbose).sources[6], "./external/vst3sdk/"@));

        } else if i == 7 {
            reveal_strlit("./external/vst3sdk/");
            reveal_strlit("public.sdk/source/vst/vstnoteexpressiontypes.cpp");
            reveal_strlit("./external/vst3sdk/public.sdk/source/vst/vstnoteexpressiontypes.cpp");
            assert("./external/vst3sdk/"@ + "public.sdk/source/vst/vstnoteexpressiontypes.cpp"@ =~= "./external/vst3sdk/public.sdk/source/vst/vstnoteexpressiontypes.cpp"@);
            assert(bundled_vst3_plan_view(TargetOs::Linux, debug).sources[7] == bundled_source(vst3_plan_view(TargetOs::Linux, debug, verbose).sources[7], "./external/vst3sdk/"@));

        } else if i == 8 {
            reveal_strlit("./external/vst3sdk/");
            reveal_strlit("public.sdk/source/vst/vstsinglecomponenteffect.cpp");
            reveal_strlit("./external/vst3sdk/public.sdk/source/vst/vstsinglecomponenteffect.cpp");
            assert("./external/vst3sdk/"@ + "public.sdk/source/vst/vstsinglecomponenteffect.cpp"@ =~= "./external/vst3sdk/public.sdk/source/vst/vstsinglecomponenteffect.cpp"@);
            assert(bundled_vst3_plan_view(TargetOs::Linux, debug).sources[10] == bundled_source(vst3_plan_view(TargetOs::Linux, debug, verbose).sources[8], "./external/vst3sdk/"@));

        } else if i == 9 {
            reveal_strlit("./external/vst3sdk/");
            reveal_strlit("public.sdk/source/vst/vstaudioeffect.cpp");
            reveal_strlit("./external/vst3sdk/public.sdk/source/vst/vstaudioeffect.cpp");
            assert("./external/vst3sdk/"@ + "public.sdk/source/vst/vstaudioeffect.cpp"@ =~= "./external/vst3sdk/public.sdk/source/vst/vstaudioeffect.cpp"@);
            assert(bundled_vst3_plan_view(TargetOs::Linux, debug).sources[8] == bundled_source(vst3_plan_view(TargetOs::Linux, debug, verbose).sources[9], "./external/vst3sdk/"@));

        } else if i == 10 {
            reveal_strlit("./external/vst3sdk/");
            reveal_strlit("public.sdk/source/vst/vstcomponent.cpp");
            reveal_strlit("./external/vst3sdk/public.sdk/source/vst/vstcomponent.cpp");
            assert("./external/vst3sdk/"@ + "public.sdk/source/vst/vstcomponent.cpp"@ =~= "./external/vst3sdk/public.sdk/source/vst/vstcomponent.cpp"@);
            assert(bundled_vst3_plan_view(TargetOs::Linux, debug).sources[9] == bundled_source(vst3_plan_view(TargetOs::Linux, debug, verbose).sources[10], "./external/vst3sdk/"@));

        } else if i == 11 {
            reveal_strlit("./external/vst3sdk/");
            reveal_strlit("public.sdk/source/vst/vstsinglecomponenteffect.cpp");
            reveal_strlit("./external/vst3sdk/public.sdk/source/vst/vstsinglecomponenteffect.cpp");
            assert("./external/vst3sdk/"@ + "public.sdk/source/vst/vstsinglecomponenteffect.cpp"@ =~= "./external/vst3sdk/public.sdk/source/vst/vstsinglecomponenteffect.cpp"@);
            assert(bundled_vst3_plan_view(TargetOs::Linux, debug).sources[10] == bundled_source(vst3_plan_view(TargetOs::Linux, debug, verbose).sources[11], "./external/vst3sdk/"@));

        } else if i == 12 {
            reveal_strlit("./external/vst3sdk/");
            reveal_strlit("public.sdk/source/vst/vstcomponentbase.cpp");
            reveal_strlit("./external/vst3sdk/public.sdk/source/vst/vstcomponentbase.cpp");
            assert("./external/vst3sdk/"@ + "public.sdk/source/vst/vstcomponentbase.cpp"@ =~= "./external/vst3sdk/public.sdk/source/vst/vstcomponentbase.cpp"@);
            assert(bundled_vst3_plan_view(TargetOs::Linux, debug).sources[11] == bundled_source(vst3_plan_view(TargetOs::Linux, debug, verbose).sources[12], "./external/vst3sdk/"@));

        } else if i == 13 {
            reveal_strlit("./external/vst3sdk/");
            reveal_strlit("public.sdk/source/vst/vstbus.cpp");
            reveal_strlit("./external/vst3sdk/public.sdk/source/vst/vstbus.cpp");
            assert("./external/vst3sdk/"@ + "public.sdk/source/vst/vstbus.cpp"@ =~= "./external/vst3sdk/public.sdk/source/vst/vstbus.cpp"@);
            assert(bundled_vst3_plan_view(TargetOs::Linux, debug).sources[12] == bundled_source(vst3_plan_view(TargetOs::Linux, debug, verbose).sources[13], "./external/vst3sdk/"@));

        } else if i == 14 {
            reveal_strlit("./external/vst3sdk/");
            reveal_strlit("public.sdk/source/vst/vstparameters.cpp");
            reveal_strlit("./external/vst3sdk/public.sdk/source/vst/vstparameters.cpp");
            assert("./external/vst3sdk/"@ + "public.sdk/source/vst/vstparameters.cpp"@ =~= "./external/vst3sdk/public.sdk/source/vst/vstparameters.cpp"@);
            assert(bundled_vst3_plan_view(TargetOs::Linux, debug).sources[13] == bundled_source(vst3_plan_view(TargetOs::Linux, debug, verbose).sources[14], "./external/vst3sdk/"@));

        } else if i == 15 {
            reveal_strlit("./external/vst3sdk/");
            reveal_strlit("public.sdk/source/vst/utility/stringconvert.cpp");
            reveal_strlit("./external/vst3sdk/public.sdk/source/vst/utility/stringconvert.cpp");
            assert("./external/vst3sdk/"@ + "public.sdk/source/vst/utility/stringconvert.cpp"@ =~= "./external/vst3sdk/public.sdk/source/vst/utility/stringconvert.cpp"@);
            assert(bundled_vst3_plan_view(TargetOs::Linux, debug).sources[14] == bundled_source(vst3_plan_view(TargetOs::Linux, debug, verbose).sources[15], "./external/vst3sdk/"@));

        } else if i == 16 {
            reveal_strlit("./external/");
            reveal_strlit("clap-wrapper/src/clap_proxy.cpp");
            reveal_strlit("./external/clap-wrapper/src/clap_proxy.cpp");
            assert("./external/"@ + "clap-wrapper/src/clap_proxy.cpp"@ =~= "./external/clap-wrapper/src/clap_proxy.cpp"@);
            assert(bundled_vst3_plan_view(TargetOs::Linux, debug).sources[15] == bundled_source(vst3_plan_view(TargetOs::Linux, debug, verbose).sources[16], "./external/vst3sdk/"@));

        } else if i == 17 {
            reveal_strlit("./external/");
            reveal_strlit("clap-wrapper/src/detail/clap/fsutil.cpp");
            reveal_strlit("./external/clap-wrapper/src/detail/clap/fsutil.cpp");
            assert("./external/"@ + "clap-wrapper/src/detail/clap/fsutil.cpp"@ =~= "./external/clap-wrapper/src/detail/clap/fsutil.cpp"@);
            assert(bundled_vst3_plan_view(TargetOs::Linux, debug).sources[16] == bundled_source(vst3_plan_view(TargetOs::Linux, debug, verbose).sources[17], "./external/vst3sdk/"@));

        } else if i == 18 {
            reveal_strlit("./external/");
            reveal_strlit("clap-wrapper/src/detail/shared/sha1.cpp");
            reveal_strlit("./external/clap-wrapper/src/detail/shared/sha1.cpp");
            assert("./external/"@ + "clap-wrapper/src/detail/shared/sha1.cpp"@ =~= "./external/clap-wrapper/src/detail/shared/sha1.cpp"@);
            assert(bundled_vst3_plan_view(TargetOs::Linux, debug).sources[17] == bundled_source(vst3_plan_view(TargetOs::Linux, debug, verbose).sources[18], "./external/vst3sdk/"@));

        } else if i == 19 {
            reveal_strlit("./external/");
            reveal_strlit("clap-wrapper/src/wrapasvst3_export_entry.cpp");
            reveal_strlit("./external/clap-wrapper/src/wrapasvst3_export_entry.cpp");
            assert("./external/"@ + "clap-wrapper/src/wrapasvst3_export_entry.cpp"@ =~= "./external/clap-wrapper/src/wrapasvst3_export_entry.cpp"@);
            assert(bundled_vst3_plan_view(TargetOs::Linux, debug).sources[18] == bundled_source(vst3_plan_view(TargetOs::Linux, debug, verbose).sources[19], "./external/vst3sdk/"@));

        } else if i == 20 {
            reveal_strlit("./external/");
            reveal_strlit("clap-wrapper/src/wrapasvst3.cpp");
            reveal_strlit("./external/clap-wrapper/src/wrapasvst3.cpp");
            assert("./external/"@ + "clap-wrapper/src/wrapasvst3.cpp"@ =~= "./external/clap-wrapper/src/wrapasvst3.cpp"@);
            assert(bundled_vst3_plan_view(TargetOs::Linux, debug).sources[19] == bundled_source(vst3_plan_view(TargetOs::Linux, debug, verbose).sources[20], "./external/vst3sdk/"@));

        } else if i == 21 {
            reveal_strlit("./external/");
            reveal_strlit("clap-wrapper/src/wrapasvst3_entry.cpp");
            reveal_strlit("./external/clap-wrapper/src/wrapasvst3_entry.cpp");
            assert("./external/"@ + "clap-wrapper/src/wrapasvst3_entry.cpp"@ =~= "./external/clap-wrapper/src/wrapasvst3_entry.cpp"@);
            assert(bundled_vst3_plan_view(TargetOs::Linux, debug).sources[20] == bundled_source(vst3_plan_view(TargetOs::Linux, debug, verbose).sources[21], "./external/vst3sdk/"@));

        } else if i == 22 {
            reveal_strlit("./external/");
            reveal_strlit("clap-wrapper/src/detail/vst3/parameter.cpp");
            reveal_strlit("./external/clap-wrapper/src/detail/vst3/parameter.cpp");
            assert("./external/"@ + "clap-wrapper/src/detail/vst3/parameter.cpp"@ =~= "./external/clap-wrapper/src/detail/vst3/parameter.cpp"@);
            assert(bundled_vst3_plan_view(TargetOs::Linux, debug).sources[21] == bundled_source(vst3_plan_view(TargetOs::Linux, debug, verbose).sources[22], "./external/vst3sdk/"@));

        } else if i == 23 {
            reveal_strlit("./external/");
            reveal_strlit("clap-wrapper/src/detail/vst3/plugview.cpp");
            reveal_strlit("./external/clap-wrapper/src/detail/vst3/plugview.cpp");
            assert("./external/"@ + "clap-wrapper/src/detail/vst3/plugview.cpp"@ =~= "./external/clap-wrapper/src/detail/vst3/plugview.cpp"@);
            assert(bundled_vst3_plan_view(TargetOs::Linux, debug).sources[22] == bundled_source(vst3_plan_view(TargetOs::Linux, debug, verbose).sources[23], "./external/vst3sdk/"@));

        } else if i == 24 {
            reveal_strlit("./external/");
            reveal_strlit("clap-wrapper/src/detail/vst3/process.cpp");
            reveal_strlit("./external/clap-wrapper/src/detail/vst3/process.cpp");
            assert("./external/"@ + "clap-wrapper/src/detail/vst3/process.cpp"@ =~= "./external/clap-wrapper/src/detail/vst3/process.cpp"@);
            assert(bundled_vst3_plan_view(TargetOs::Linux, debug).sources[23] == bundled_source(vst3_plan_view(TargetOs::Linux, debug, verbose).sources[24], "./external/vst3sdk/"@));

        } else if i == 25 {
            reveal_strlit("./external/");
            reveal_strlit("clap-wrapper/src/detail/vst3/categories.cpp");
            reveal_strlit("./external/clap-wrapper/src/detail/vst3/categories.cpp");
            assert("./external/"@ + "clap-wrapper/src/detail/vst3/categories.cpp"@ =~= "./external/clap-wrapper/src/detail/vst3/categories.cpp"@);
            assert(bundled_vst3_plan_view(TargetOs::Linux, debug).sources[24] == bundled_source(vst3_plan_view(TargetOs::Linux, debug, verbose).sources[25], "./external/vst3sdk/"@));

        } else if i == 26 {
            reveal_strlit("./external/vst3sdk/");
            reveal_strlit("public.sdk/source/main/linuxmain.cpp");
            reveal_strlit("./external/vst3sdk/public.sdk/source/main/linuxmain.cpp");
            assert("./external/vst3sdk/"@ + "public.sdk/source/main/linuxmain.cpp"@ =~= "./external/vst3sdk/public.sdk/source/main/linuxmain.cpp"@);
            assert(bundled_vst3_plan_view(TargetOs::Linux, debug).sources[25] == bundled_source(vst3_plan_view(TargetOs::Linux, debug, verbose).sources[26], "./external/vst3sdk/"@));

        } else if i == 27 {
            reveal_strlit("./external/");
            reveal_strlit("clap-wrapper/src/detail/os/linux.cpp");
            reveal_strlit("./external/clap-wrapper/src/detail/os/linux.cpp");
            assert("./external/"@ + "clap-wrapper/src/detail/os/linux.cpp"@ =~= "./external/clap-wrapper/src/detail/os/linux.cpp"@);
            assert(bundled_vst3_plan_view(TargetOs::Linux, debug).sources[26] == bundled_source(vst3_plan_view(TargetOs::Linux, debug, verbose).sources[27], "./external/vst3sdk/"@));

        }
    }
}

#[verifier::spinoff_prover]
#[verifier::rlimit(60)]
proof fn lemma_vst3_sources_pair_linux_backward(debug: bool, verbose: bool)
    ensures
        forall|j: int| 0 <= j < bundled_vst3_plan_view(TargetOs::Linux, debug).sources.len() ==> exists|i: int| 0 <= i < vst3_plan_view(TargetOs::Linux, debug, verbose).sources.len()
            && #[trigger] bundled_vst3_plan_view(TargetOs::Linux, debug).sources[j] == bundled_source(vst3_plan_view(TargetOs::Linux, debug, verbose).sources[i], "./external/vst3sdk/"@),
{
    assert(bundled_vst3_plan_view(TargetOs::Linux, debug).sources.len() == 27);
    assert forall|j: int| 0 <= j < bundled_vst3_plan_view(TargetOs::Linux, debug).sources.len() implies exists|i: int| 0 <= i < vst3_plan_view(TargetOs::Linux, debug, verbose).sources.len()
        && #[trigger] bundled_vst3_plan_view(TargetOs::Linux, debug).sources[j] == bundled_source(vst3_plan_view(TargetOs::Linux, debug, verbose).sources[i], "./external/vst3sdk/"@) by {
        if j == 0 {
            reveal_strlit("./external/vst3sdk/");
            reveal_strlit("base/source");
            reveal_strlit("./external/vst3sdk/base/source");
            assert("./external/vst3sdk/"@ + "base/source"@ =~= "./external/vst3sdk/base/source"@);
            assert(bundled_vst3_plan_view(TargetOs::Linux, debug).sources[0] == bundled_source(vst3_plan_view(TargetOs::Linux, debug, verbose).sources[0], "./external/vst3sdk/"@));

        } else if j == 1 {
            reveal_strlit("./external/vst3sdk/");
            reveal_strlit("base/thread/source");
            reveal_strlit("./external/vst3sdk/base/thread/source");
            assert("./external/vst3sdk/"@ + "base/thread/source"@ =~= "./external/vst3sdk/base/thread/source"@);
            assert(bundled_vst3_plan_view(TargetOs::Linux, debug).sources[1] == bundled_source(vst3_plan_view(TargetOs::Linux, debug, verbose).sources[1], "./external/vst3sdk/"@));

        } else if j == 2 {
            reveal_strlit("./external/vst3sdk/");
            reveal_strlit("pluginterfaces/base");
            reveal_strlit("./external/vst3sdk/pluginterfaces/base");
            assert("./external/vst3sdk/"@ + "pluginterfaces/base"@ =~= "./external/vst3sdk/pluginterfaces/base"@);
            assert(bundled_vst3_plan_view(TargetOs::Linux, debug).sources[2] == bundled_source(vst3_plan_view(TargetOs::Linux, debug, verbose).sources[3], "./external/vst3sdk/"@));

        } else if j == 3 {
            reveal_strlit("./external/vst3sdk/");
            reveal_strlit("public.sdk/source/common");
            reveal_strlit("./external/vst3sdk/public.sdk/source/common");
            assert("./external/vst3sdk/"@ + "public.sdk/source/common"@ =~= "./external/vst3sdk/public.sdk/source/common"@);
            assert(bundled_vst3_plan_view(TargetOs::Linux, debug).sources[3] == bundled_source(vst3_plan_view(TargetOs::Linux, debug, verbose).sources[2], "./external/vst3sdk/"@));

        } else if j == 4 {
            reveal_strlit("./external/vst3sdk/");
            reveal_strlit("public.sdk/source/main/pluginfactory.cpp");
            reveal_strlit("./external/vst3sdk/public.sdk/source/main/pluginfactory.cpp");
            assert("./external/vst3sdk/"@ + "public.sdk/source/main/pluginfactory.cpp"@ =~= "./external/vst3sdk/public.sdk/source/main/pluginfactory.cpp"@);
            assert(bundled_vst3_plan_view(TargetOs::Linux, debug).sources[4] == bundled_source(vst3_plan_view(TargetOs::Linux, debug, verbose).sources[4], "./external/vst3sdk/"@));

        } else if j == 5 {
            reveal_strlit("./external/vst3sdk/");
            reveal_strlit("public.sdk/source/main/moduleinit.cpp");
            reveal_strlit("./external/vst3sdk/public.sdk/source/main/moduleinit.cpp");
            assert("./external/vst3sdk/"@ + "public.sdk/source/main/moduleinit.cpp"@ =~= "./external/vst3sdk/public.sdk/source/main/moduleinit.cpp"@);
            assert(bundled_vst3_plan_view(TargetOs::Linux, debug).sources[5] == bundled_source(vst3_plan_view(TargetOs::Linux, debug, verbose).sources[5], "./external/vst3sdk/"@));

        } else if j == 6 {
            reveal_strlit("./external/vst3sdk/");
            reveal_strlit("public.sdk/source/vst/vstinitiids.cpp");
            reveal_strlit("./external/vst3sdk/public.sdk/source/vst/vstinitiids.cpp");
            assert("./external/vst3sdk/"@ + "public.sdk/source/vst/vstinitiids.cpp"@ =~= "./external/vst3sdk/public.sdk/source/vst/vstinitiids.cpp"@);
            assert(bundled_vst3_plan_view(TargetOs::Linux, debug).sources[6] == bundled_source(vst3_plan_view(TargetOs::Linux, debug, verbose).sources[6], "./external/vst3sdk/"@));

        } else if j == 7 {
            reveal_strlit("./external/vst3sdk/");
            reveal_strlit("public.sdk/source/vst/vstnoteexpressiontypes.cpp");
            reveal_strlit("./external/vst3sdk/public.sdk/source/vst/vstnoteexpressiontypes.cpp");
            assert("./external/vst3sdk/"@ + "public.sdk/source/vst/vstnoteexpressiontypes.cpp"@ =~= "./external/vst3sdk/public.sdk/source/vst/vstnoteexpressiontypes.cpp"@);
            assert(bundled_vst3_plan_view(TargetOs::Linux, debug).sources[7] == bundled_source(vst3_plan_view(TargetOs::Linux, debug, verbose).sources[7], "./external/vst3sdk/"@));

        } else if j == 8 {
            reveal_strlit("./external/vst3sdk/");
            reveal_strlit("public.sdk/source/vst/vstaudioeffect.cpp");
            reveal_strlit("./external/vst3sdk/public.sdk/source/vst/vstaudioeffect.cpp");
            assert("./external/vst3sdk/"@ + "public.sdk/source/vst/vstaudioeffect.cpp"@ =~= "./external/vst3sdk/public.sdk/source/vst/vstaudioeffect.cpp"@);
            assert(bundled_vst3_plan_view(TargetOs::Linux, debug).sources[8] == bundled_source(vst3_plan_view(TargetOs::Linux, debug, verbose).sources[9], "./external/vst3sdk/"@));

        } else if j == 9 {
            reveal_strlit("./external/vst3sdk/");
            reveal_strlit("public.sdk/source/vst/vstcomponent.cpp");
            reveal_strlit("./external/vst3sdk/public.sdk/source/vst/vstcomponent.cpp");
            assert("./external/vst3sdk/"@ + "public.sdk/source/vst/vstcomponent.cpp"@ =~= "./external/vst3sdk/public.sdk/source/vst/vstcomponent.cpp"@);
            assert(bundled_vst3_plan_view(TargetOs::Linux, debug).sources[9] == bundled_source(vst3_plan_view(TargetOs::Linux, debug, verbose).sources[10], "./external/vst3sdk/"@));

        } else if j == 10 {
            reveal_strlit("./external/vst3sdk/");
            reveal_strlit("public.sdk/source/vst/vstsinglecomponenteffect.cpp");
            reveal_strlit("./external/vst3sdk/public.sdk/source/vst/vstsinglecomponenteffect.cpp");
            assert("./external/vst3sdk/"@ + "public.sdk/source/vst/vstsinglecomponenteffect.cpp"@ =~= "./external/vst3sdk/public.sdk/source/vst/vstsinglecomponenteffect.cpp"@);
            assert(bundled_vst3_plan_view(TargetOs::Linux, debug).sources[10] == bundled_source(vst3_plan_view(TargetOs::Linux, debug, verbose).sources[8], "./external/vst3sdk/"@));

        } else if j == 11 {
            reveal_strlit("./external/vst3sdk/");
            reveal_strlit("public.sdk/source/vst/vstcomponentbase.cpp");
            reveal_strlit("./external/vst3sdk/public.sdk/source/vst/vstcomponentbase.cpp");
            assert("./external/vst3sdk/"@ + "public.sdk/source/vst/vstcomponentbase.cpp"@ =~= "./external/vst3sdk/public.sdk/source/vst/vstcomponentbase.cpp"@);
            assert(bundled_vst3_plan_view(TargetOs::Linux, debug).sources[11] == bundled_source(vst3_plan_view(TargetOs::Linux, debug, verbose).sources[12], "./external/vst3sdk/"@));

        } else if j == 12 {
            reveal_strlit("./external/vst3sdk/");
            reveal_strlit("public.sdk/source/vst/vstbus.cpp");
            reveal_strlit("./external/vst3sdk/public.sdk/source/vst/vstbus.cpp");
            assert("./external/vst3sdk/"@ + "public.sdk/source/vst/vstbus.cpp"@ =~= "./external/vst3sdk/public.sdk/source/vst/vstbus.cpp"@);
            assert(bundled_vst3_plan_view(TargetOs::Linux, debug).sources[12] == bundled_source(vst3_plan_view(TargetOs::Linux, debug, verbose).sources[13], "./external/vst3sdk/"@));

        } else if j == 13 {
            reveal_strlit("./external/vst3sdk/");
            reveal_strlit("public.sdk/source/vst/vstparameters.cpp");
            reveal_strlit("./external/vst3sdk/public.sdk/source/vst/vstparameters.cpp");
            assert("./external/vst3sdk/"@ + "public.sdk/source/vst/vstparameters.cpp"@ =~= "./external/vst3sdk/public.sdk/source/vst/vstparameters.cpp"@);
            assert(bundled_vst3_plan_view(TargetOs::Linux, debug).sources[13] == bundled_source(vst3_plan_view(TargetOs::Linux, debug, verbose).sources[14], "./external/vst3sdk/"@));

        } else if j == 14 {
            reveal_strlit("./external/vst3sdk/");
            reveal_strlit("public.sdk/source/vst/utility/stringconvert.cpp");
            reveal_strlit("./external/vst3sdk/public.sdk/source/vst/utility/stringconvert.cpp");
            assert("./external/vst3sdk/"@ + "public.sdk/source/vst/utility/stringconvert.cpp"@ =~= "./external/vst3sdk/public.sdk/source/vst/utility/stringconvert.cpp"@);
            assert(bundled_vst3_plan_view(TargetOs::Linux, debug).sources[14] == bundled_source(vst3_plan_view(TargetOs::Linux, debug, verbose).sources[15], "./external/vst3sdk/"@));

        } else if j == 15 {
            reveal_strlit("./external/");
            reveal_strlit("clap-wrapper/src/clap_proxy.cpp");
            reveal_strlit("./external/clap-wrapper/src/clap_proxy.cpp");
            assert("./external/"@ + "clap-wrapper/src/clap_proxy.cpp"@ =~= "./external/clap-wrapper/src/clap_proxy.cpp"@);
            assert(bundled_vst3_plan_view(TargetOs::Linux, debug).sources[15] == bundled_source(vst3_plan_view(TargetOs::Linux, debug, verbose).sources[16], "./external/vst3sdk/"@));

        } else if j == 16 {
            reveal_strlit("./external/");
            reveal_strlit("clap-wrapper/src/detail/clap/fsutil.cpp");
            reveal_strlit("./external/clap-wrapper/src/detail/clap/fsutil.cpp");
            assert("./external/"@ + "clap-wrapper/src/detail/clap/fsutil.cpp"@ =~= "./external/clap-wrapper/src/detail/clap/fsutil.cpp"@);
            assert(bundled_vst3_plan_view(TargetOs::Linux, debug).sources[16] == bundled_source(vst3_plan_view(TargetOs::Linux, debug, verbose).sources[17], "./external/vst3sdk/"@));

        } else if j == 17 {
            reveal_strlit("./external/");
            reveal_strlit("clap-wrapper/src/detail/shared/sha1.cpp");
            reveal_strlit("./external/clap-wrapper/src/detail/shared/sha1.cpp");
            assert("./external/"@ + "clap-wrapper/src/detail/shared/sha1.cpp"@ =~= "./external/clap-wrapper/src/detail/shared/sha1.cpp"@);
            assert(bundled_vst3_plan_view(TargetOs::Linux, debug).sources[17] == bundled_source(vst3_plan_view(TargetOs::Linux, debug, verbose).sources[18], "./external/vst3sdk/"@));

        } else if j == 18 {
            reveal_strlit("./external/");
            reveal_strlit("clap-wrapper/src/wrapasvst3_export_entry.cpp");
            reveal_strlit("./external/clap-wrapper/src/wrapasvst3_export_entry.cpp");
            assert("./external/"@ + "clap-wrapper/src/wrapasvst3_export_entry.cpp"@ =~= "./external/clap-wrapper/src/wrapasvst3_export_entry.cpp"@);
            assert(bundled_vst3_plan_view(TargetOs::Linux, debug).sources[18] == bundled_source(vst3_plan_view(TargetOs::Linux, debug, verbose).sources[19], "./external/vst3sdk/"@));

        } else if j == 19 {
            reveal_strlit("./external/");
            reveal_strlit("clap-wrapper/src/wrapasvst3.cpp");
            reveal_strlit("./external/clap-wrapper/src/wrapasvst3.cpp");
            assert("./external/"@ + "clap-wrapper/src/wrapasvst3.cpp"@ =~= "./external/clap-wrapper/src/wrapasvst3.cpp"@);
            assert(bundled_vst3_plan_view(TargetOs::Linux, debug).sources[19] == bundled_source(vst3_plan_view(TargetOs::Linux, debug, verbose).sources[20], "./external/vst3sdk/"@));

        } else if j == 20 {
            reveal_strlit("./external/");
            reveal_strlit("clap-wrapper/src/wrapasvst3_entry.cpp");
            reveal_strlit("./external/clap-wrapper/src/wrapasvst3_entry.cpp");
            assert("./external/"@ + "clap-wrapper/src/wrapasvst3_entry.cpp"@ =~= "./external/clap-wrapper/src/wrapasvst3_entry.cpp"@);
            assert(bundled_vst3_plan_view(TargetOs::Linux, debug).sources[20] == bundled_source(vst3_plan_view(TargetOs::Linux, debug, verbose).sources[21], "./external/vst3sdk/"@));

        } else if j == 21 {
            reveal_strlit("./external/");
            reveal_strlit("clap-wrapper/src/detail/vst3/parameter.cpp");
            reveal_strlit("./external/clap-wrapper/src/detail/vst3/parameter.cpp");
            assert("./external/"@ + "clap-wrapper/src/detail/vst3/parameter.cpp"@ =~= "./external/clap-wrapper/src/detail/vst3/parameter.cpp"@);
            assert(bundled_vst3_plan_view(TargetOs::Linux, debug).sources[21] == bundled_source(vst3_plan_view(TargetOs::Linux, debug, verbose).sources[22], "./external/vst3sdk/"@));

        } else if j == 22 {
            reveal_strlit("./external/");
            reveal_strlit("clap-wrapper/src/detail/vst3/plugview.cpp");
            reveal_strlit("./external/clap-wrapper/src/detail/vst3/plugview.cpp");
            assert("./external/"@ + "clap-wrapper/src/detail/vst3/plugview.cpp"@ =~= "./external/clap-wrapper/src/detail/vst3/plugview.cpp"@);
            assert(bundled_vst3_plan_view(TargetOs::Linux, debug).sources[22] == bundled_source(vst3_plan_view(TargetOs::Linux, debug, verbose).sources[23], "./external/vst3sdk/"@));

        } else if j == 23 {
            reveal_strlit("./external/");
            reveal_strlit("clap-wrapper/src/detail/vst3/process.cpp");
            reveal_strlit("./external/clap-wrapper/src/detail/vst3/process.cpp");
            assert("./external/"@ + "clap-wrapper/src/detail/vst3/process.cpp"@ =~= "./external/clap-wrapper/src/detail/vst3/process.cpp"@);
            assert(bundled_vst3_plan_view(TargetOs::Linux, debug).sources[23] == bundled_source(vst3_plan_view(TargetOs::Linux, debug, verbose).sources[24], "./external/vst3sdk/"@));

        } else if j == 24 {
            reveal_strlit("./external/");
            reveal_strlit("clap-wrapper/src/detail/vst3/categories.cpp");
            reveal_strlit("./external/clap-wrapper/src/detail/vst3/categories.cpp");
            assert("./external/"@ + "clap-wrapper/src/detail/vst3/categories.cpp"@ =~= "./external/clap-wrapper/src/detail/vst3/categories.cpp"@);
            assert(bundled_vst3_plan_view(TargetOs::Linux, debug).sources[24] == bundled_source(vst3_plan_view(TargetOs::Linux, debug, verbose).sources[25], "./external/vst3sdk/"@));

        } else if j == 25 {
            reveal_strlit("./external/vst3sdk/");
            reveal_strlit("public.sdk/source/main/linuxmain.cpp");
            reveal_strlit("./external/vst3sdk/public.sdk/source/main/linuxmain.cpp");
            assert("./external/vst3sdk/"@ + "public.sdk/source/main/linuxmain.cpp"@ =~= "./external/vst3sdk/public.sdk/source/main/linuxmain.cpp"@);
            assert(bundled_vst3_plan_view(TargetOs::Linux, debug).sources[25] == bundled_source(vst3_plan_view(TargetOs::Linux, debug, verbose).sources[26], "./external/vst3sdk/"@));

        } else if j == 26 {
            reveal_strlit("./external/");
            reveal_strlit("clap-wrapper/src/detail/os/linux.cpp");
            reveal_strlit("./external/clap-wrapper/src/detail/os/linux.cpp");
            assert("./external/"@ + "clap-wrapper/src/detail/os/linux.cpp"@ =~= "./external/clap-wrapper/src/detail/os/linux.cpp"@);
            assert(bundled_vst3_plan_view(TargetOs::Linux, debug).sources[26] == bundled_source(vst3_plan_view(TargetOs::Linux, debug, verbose).sources[27], "./external/vst3sdk/"@));

        }
    }
}

#[verifier::spinoff_prover]
#[verifier::rlimit(60)]
proof fn lemma_auv2_sources_pair_forward(debug: bool, verbose: bool)
    ensures
        forall|i: int| 0 <= i < auv2_plan_view(debug, verbose).sources.len() ==> bundled_auv2_plan_view(debug).sources.contains(
            #[trigger] bundled_source(auv2_plan_view(debug, verbose).sources[i], "./external/AudioUnitSDK/"@),
        ),
{
    assert(auv2_plan_view(debug, verbose).sources.len() == 22);
    assert forall|i: int| 0 <= i < auv2_plan_view(debug, verbose).sources.len() implies bundled_auv2_plan_view(debug).sources.contains(
        #[trigger] bundled_source(auv2_plan_view(debug, verbose).sources[i], "./external/AudioUnitSDK/"@),
    ) by {
        if i == 0 {
            reveal_strlit("./external/AudioUnitSDK/");
            reveal_strlit("src/AudioUnitSDK/AUBase.cpp");
            reveal_strlit("./external/AudioUnitSDK/src/AudioUnitSDK/AUBase.cpp");
            assert("./external/AudioUnitSDK/"@ + "src/AudioUnitSDK/AUBase.cpp"@ =~= "./external/AudioUnitSDK/src/AudioUnitSDK/AUBase.cpp"@);
            assert(bundled_auv2_plan_view(debug).sources[0] == bundled_source(auv2_plan_view(debug, verbose).sources[0], "./external/AudioUnitSDK/"@));

        } else if i == 1 {
            reveal_strlit("./external/AudioUnitSDK/");
            reveal_strlit("src/AudioUnitSDK/AUBuffer.cpp");
            reveal_strlit("./external/AudioUnitSDK/src/AudioUnitSDK/AUBuffer.cpp");
            assert("./external/AudioUnitSDK/"@ + "src/AudioUnitSDK/AUBuffer.cpp"@ =~= "./external/AudioUnitSDK/src/AudioUnitSDK/AUBuffer.cpp"@);
            assert(bundled_auv2_plan_view(debug).sources[1] == bundled_source(auv2_plan_view(debug, verbose).sources[1], "./external/AudioUnitSDK/"@));

        } else if i == 2 {
            reveal_strlit("./external/AudioUnitSDK/");
            reveal_strlit("src/AudioUnitSDK/AUBufferAllocator.cpp");
            reveal_strlit("./external/AudioUnitSDK/src/AudioUnitSDK/AUBufferAllocator.cpp");
            assert("./external/AudioUnitSDK/"@ + "src/AudioUnitSDK/AUBufferAllocator.cpp"@ =~= "./external/AudioUnitSDK/src/AudioUnitSDK/AUBufferAllocator.cpp"@);
            assert(bundled_auv2_plan_view(debug).sources[2] == bundled_source(auv2_plan_view(debug, verbose).sources[2], "./external/AudioUnitSDK/"@));

        } else if i == 3 {
            reveal_strlit("./external/AudioUnitSDK/");
            reveal_strlit("src/AudioUnitSDK/AUEffectBase.cpp");
            reveal_strlit("./external/AudioUnitSDK/src/AudioUnitSDK/AUEffectBase.cpp");
            assert("./external/AudioUnitSDK/"@ + "src/AudioUnitSDK/AUEffectBase.cpp"@ =~= "./external/AudioUnitSDK/src/AudioUnitSDK/AUEffectBase.cpp"@);
            assert(bundled_auv2_plan_view(debug).sources[3] == bundled_source(auv2_plan_view(debug, verbose).sources[3], "./external/AudioUnitSDK/"@));

        } else if i == 4 {
            reveal_strlit("./external/AudioUnitSDK/");
            reveal_strlit("src/AudioUnitSDK/AUMIDIBase.cpp");
            reveal_strlit("./external/AudioUnitSDK/src/AudioUnitSDK/AUMIDIBase.cpp");
            assert("./external/AudioUnitSDK/"@ + "src/AudioUnitSDK/AUMIDIBase.cpp"@ =~= "./external/AudioUnitSDK/src/AudioUnitSDK/AUMIDIBase.cpp"@);
            assert(bundled_auv2_plan_view(debug).sources[4] == bundled_source(auv2_plan_view(debug, verbose).sources[4], "./external/AudioUnitSDK/"@));

        } else if i == 5 {
            reveal_strlit("./external/AudioUnitSDK/");
            reveal_strlit("src/AudioUnitSDK/AUMIDIEffectBase.cpp");
            reveal_strlit("./external/AudioUnitSDK/src/AudioUnitSDK/AUMIDIEffectBase.cpp");
            assert("./external/AudioUnitSDK/"@ + "src/AudioUnitSDK/AUMIDIEffectBase.cpp"@ =~= "./external/AudioUnitSDK/src/AudioUnitSDK/AUMIDIEffectBase.cpp"@);
            assert(bundled_auv2_plan_view(debug).sources[5] == bundled_source(auv2_plan_view(debug, verbose).sources[5], "./external/AudioUnitSDK/"@));

        } else if i == 6 {
            reveal_strlit("./external/AudioUnitSDK/");
            reveal_strlit("src/AudioUnitSDK/AUInputElement.cpp");
            reveal_strlit("./external/AudioUnitSDK/src/AudioUnitSDK/AUInputElement.cpp");
            assert("./external/AudioUnitSDK/"@ + "src/AudioUnitSDK/AUInputElement.cpp"@ =~= "./external/AudioUnitSDK/src/AudioUnitSDK/AUInputElement.cpp"@);
            assert(bundled_auv2_plan_view(debug).sources[6] == bundled_source(auv2_plan_view(debug, verbose).sources[6], "./external/AudioUnitSDK/"@));

        } else if i == 7 {
            reveal_strlit("./external/AudioUnitSDK/");
            reveal_strlit("src/AudioUnitSDK/AUOutputElement.cpp");
            reveal_strlit("./external/AudioUnitSDK/src/AudioUnitSDK/AUOutputElement.cpp");
            assert("./external/AudioUnitSDK/"@ + "src/AudioUnitSDK/AUOutputElement.cpp"@ =~= "./external/AudioUnitSDK/src/AudioUnitSDK/AUOutputElement.cpp"@);
            assert(bundled_auv2_plan_view(debug).sources[7] == bundled_source(auv2_plan_view(debug, verbose).sources[7], "./external/AudioUnitSDK/"@));

        } else if i == 8 {
            reveal_strlit("./external/AudioUnitSDK/");
            reveal_strlit("src/AudioUnitSDK/AUScopeElement.cpp");
            reveal_strlit("./external/AudioUnitSDK/src/AudioUnitSDK/AUScopeElement.cpp");
            assert("./external/AudioUnitSDK/"@ + "src/AudioUnitSDK/AUScopeElement.cpp"@ =~= "./external/AudioUnitSDK/src/AudioUnitSDK/AUScopeElement.cpp"@);
            assert(bundled_auv2_plan_view(debug).sources[8] == bundled_source(auv2_plan_view(debug, verbose).sources[8], "./external/AudioUnitSDK/"@));

        } else if i == 9 {
            reveal_strlit("./external/AudioUnitSDK/");
            reveal_strlit("src/AudioUnitSDK/AUPlugInDispatch.cpp");
            reveal_strlit("./external/AudioUnitSDK/src/AudioUnitSDK/AUPlugInDispatch.cpp");
            assert("./external/AudioUnitSDK/"@ + "src/AudioUnitSDK/AUPlugInDispatch.cpp"@ =~= "./external/AudioUnitSDK/src/AudioUnitSDK/AUPlugInDispatch.cpp"@);
            assert(bundled_auv2_plan_view(debug).sources[9] == bundled_source(auv2_plan_view(debug, verbose).sources[9], "./external/AudioUnitSDK/"@));

        } else if i == 10 {
            reveal_strlit("./external/AudioUnitSDK/");
            reveal_strlit("src/AudioUnitSDK/ComponentBase.cpp");
            reveal_strlit("./external/AudioUnitSDK/src/AudioUnitSDK/ComponentBase.cpp");
            assert("./external/AudioUnitSDK/"@ + "src/AudioUnitSDK/ComponentBase.cpp"@ =~= "./external/AudioUnitSDK/src/AudioUnitSDK/ComponentBase.cpp"@);
            assert(bundled_auv2_plan_view(debug).sources[10] == bundled_source(auv2_plan_view(debug, verbose).sources[10], "./external/AudioUnitSDK/"@));

        } else if i == 11 {
            reveal_strlit("./external/AudioUnitSDK/");
            reveal_strlit("src/AudioUnitSDK/MusicDeviceBase.cpp");
            reveal_strlit("./external/AudioUnitSDK/src/AudioUnitSDK/MusicDeviceBase.cpp");
            assert("./external/AudioUnitSDK/"@ + "src/AudioUnitSDK/MusicDeviceBase.cpp"@ =~= "./external/AudioUnitSDK/src/AudioUnitSDK/MusicDeviceBase.cpp"@);
            assert(bundled_auv2_plan_view(debug).sources[11] == bundled_source(auv2_plan_view(debug, verbose).sources[11], "./external/AudioUnitSDK/"@));

        } else if i == 12 {
            reveal_strlit("./external/");
            reveal_strlit("clap-wrapper/src/clap_proxy.cpp");
            reveal_strlit("./external/clap-wrapper/src/clap_proxy.cpp");
            assert("./external/"@ + "clap-wrapper/src/clap_proxy.cpp"@ =~= "./external/clap-wrapper/src/clap_proxy.cpp"@);
            assert(bundled_auv2_plan_view(debug).sources[12] == bundled_source(auv2_plan_view(debug, verbose).sources[12], "./external/AudioUnitSDK/"@));

        } else if i == 13 {
            reveal_strlit("./external/");
            reveal_strlit("clap-wrapper/src/detail/clap/fsutil.cpp");
            reveal_strlit("./external/clap-wrapper/src/detail/clap/fsutil.cpp");
            assert("./external/"@ + "clap-wrapper/src/detail/clap/fsutil.cpp"@ =~= "./external/clap-wrapper/src/detail/clap/fsutil.cpp"@);
            assert(bundled_auv2_plan_view(debug).sources[13] == bundled_source(auv2_plan_view(debug, verbose).sources[13], "./external/AudioUnitSDK/"@));

        } else if i == 14 {
            reveal_strlit("./external/");
            reveal_strlit("clap-wrapper/src/detail/shared/sha1.cpp");
            reveal_strlit("./external/clap-wrapper/src/detail/shared/sha1.cpp");
            assert("./external/"@ + "clap-wrapper/src/detail/shared/sha1.cpp"@ =~= "./external/clap-wrapper/src/detail/shared/sha1.cpp"@);
            assert(bundled_auv2_plan_view(debug).sources[14] == bundled_source(auv2_plan_view(debug, verbose).sources[14], "./external/AudioUnitSDK/"@));

        } else if i == 15 {
            reveal_strlit("./external/");
            reveal_strlit("clap-wrapper/src/wrapasauv2.cpp");
            reveal_strlit("./external/clap-wrapper/src/wrapasauv2.cpp");
            assert("./external/"@ + "clap-wrapper/src/wrapasauv2.cpp"@ =~= "./external/clap-wrapper/src/wrapasauv2.cpp"@);
            assert(bundled_auv2_plan_view(debug).sources[15] == bundled_source(auv2_plan_view(debug, verbose).sources[15], "./external/AudioUnitSDK/"@));

        } else if i == 16 {
            reveal_strlit("./external/");
            reveal_strlit("clap-wrapper/src/detail/auv2/auv2_shared.mm");
            reveal_strlit("./external/clap-wrapper/src/detail/auv2/auv2_shared.mm");
            assert("./external/"@ + "clap-wrapper/src/detail/auv2/auv2_shared.mm"@ =~= "./external/clap-wrapper/src/detail/auv2/auv2_shared.mm"@);
            assert(bundled_auv2_plan_view(debug).sources[16] == bundled_source(auv2_plan_view(debug, verbose).sources[16], "./external/AudioUnitSDK/"@));

        } else if i == 17 {
            reveal_strlit("./external/");
            reveal_strlit("clap-wrapper/src/detail/auv2/process.cpp");
            reveal_strlit("./external/clap-wrapper/src/detail/auv2/process.cpp");
            assert("./external/"@ + "clap-wrapper/src/detail/auv2/process.cpp"@ =~= "./external/clap-wrapper/src/detail/auv2/process.cpp"@);
            assert(bundled_auv2_plan_view(debug).sources[17] == bundled_source(auv2_plan_view(debug, verbose).sources[17], "./external/AudioUnitSDK/"@));

        } else if i == 18 {
            reveal_strlit("./external/");
            reveal_strlit("clap-wrapper/src/detail/auv2/wrappedview.mm");
            reveal_strlit("./external/clap-wrapper/src/detail/auv2/wrappedview.mm");
            assert("./external/"@ + "clap-wrapper/src/detail/auv2/wrappedview.mm"@ =~= "./external/clap-wrapper/src/detail/auv2/wrappedview.mm"@);
            assert(bundled_auv2_plan_view(debug).sources[18] == bundled_source(auv2_plan_view(debug, verbose).sources[18], "./external/AudioUnitSDK/"@));

        } else if i == 19 {
            reveal_strlit("./external/");
            reveal_strlit("clap-wrapper/src/detail/auv2/parameter.cpp");
            reveal_strlit("./external/clap-wrapper/src/detail/auv2/parameter.cpp");
            assert("./external/"@ + "clap-wrapper/src/detail/auv2/parameter.cpp"@ =~= "./external/clap-wrapper/src/detail/auv2/parameter.cpp"@);
            assert(bundled_auv2_plan_view(debug).sources[19] == bundled_source(auv2_plan_view(debug, verbose).sources[19], "./external/AudioUnitSDK/"@));

        } else if i == 20 {
            reveal_strlit("./external/");
            reveal_strlit("clap-wrapper/src/detail/os/macos.mm");
            reveal_strlit("./external/clap-wrapper/src/detail/os/macos.mm");
            assert("./external/"@ + "clap-wrapper/src/detail/os/macos.mm"@ =~= "./external/clap-wrapper/src/detail/os/macos.mm"@);
            assert(bundled_auv2_plan_view(debug).sources[20] == bundled_source(auv2_plan_view(debug, verbose).sources[20], "./external/AudioUnitSDK/"@));

        } else if i == 21 {
            reveal_strlit("./external/");
            reveal_strlit("clap-wrapper/src/detail/clap/mac_helpers.mm");
            reveal_strlit("./external/clap-wrapper/src/detail/clap/mac_helpers.mm");
            assert("./external/"@ + "clap-wrapper/src/detail/clap/mac_helpers.mm"@ =~= "./external/clap-wrapper/src/detail/clap/mac_helpers.mm"@);
            assert(bundled_auv2_plan_view(debug).sources[21] == bundled_source(auv2_plan_view(debug, verbose).sources[21], "./external/AudioUnitSDK/"@));

        }
    }
}

#[verifier::spinoff_prover]
#[verifier::rlimit(60)]
proof fn lemma_auv2_sources_pair_backward(debug: bool, verbose: bool)
    ensures
        forall|j: int| 0 <= j < bundled_auv2_plan_view(debug).sources.len() ==> exists|i: int| 0 <= i < auv2_plan_view(debug, verbose).sources.len()
            && #[trigger] bundled_auv2_plan_view(debug).sources[j] == bundled_source(auv2_plan_view(debug, verbose).sources[i], "./external/AudioUnitSDK/"@),
{
    assert(bundled_auv2_plan_view(debug).sources.len() == 22);
    assert forall|j: int| 0 <= j < bundled_auv2_plan_view(debug).sources.len() implies exists|i: int| 0 <= i < auv2_plan_view(debug, verbose).sources.len()
        && #[trigger] bundled_auv2_plan_view(debug).sources[j] == bundled_source(auv2_plan_view(debug, verbose).sources[i], "./external/AudioUnitSDK/"@) by {
        if j == 0 {
            reveal_strlit("./external/AudioUnitSDK/");
            reveal_strlit("src/AudioUnitSDK/AUBase.cpp");
            reveal_strlit("./external/AudioUnitSDK/src/AudioUnitSDK/AUBase.cpp");
            assert("./external/AudioUnitSDK/"@ + "src/AudioUnitSDK/AUBase.cpp"@ =~= "./external/AudioUnitSDK/src/AudioUnitSDK/AUBase.cpp"@);
            assert(bundled_auv2_plan_view(debug).sources[0] == bundled_source(auv2_plan_view(debug, verbose).sources[0], "./external/AudioUnitSDK/"@));

        } else if j == 1 {
            reveal_strlit("./external/AudioUnitSDK/");
            reveal_strlit("src/AudioUnitSDK/AUBuffer.cpp");
            reveal_strlit("./external/AudioUnitSDK/src/AudioUnitSDK/AUBuffer.cpp");
            assert("./external/AudioUnitSDK/"@ + "src/AudioUnitSDK/AUBuffer.cpp"@ =~= "./external/AudioUnitSDK/src/AudioUnitSDK/AUBuffer.cpp"@);
            assert(bundled_auv2_plan_view(debug).sources[1] == bundled_source(auv2_plan_view(debug, verbose).sources[1], "./external/AudioUnitSDK/"@));

        } else if j == 2 {
            reveal_strlit("./external/AudioUnitSDK/");
            reveal_strlit("src/AudioUnitSDK/AUBufferAllocator.cpp");
            reveal_strlit("./external/AudioUnitSDK/src/AudioUnitSDK/AUBufferAllocator.cpp");
            assert("./external/AudioUnitSDK/"@ + "src/AudioUnitSDK/AUBufferAllocator.cpp"@ =~= "./external/AudioUnitSDK/src/AudioUnitSDK/AUBufferAllocator.cpp"@);
            assert(bundled_auv2_plan_view(debug).sources[2] == bundled_source(auv2_plan_view(debug, verbose).sources[2], "./external/AudioUnitSDK/"@));

        } else if j == 3 {
            reveal_strlit("./external/AudioUnitSDK/");
            reveal_strlit("src/AudioUnitSDK/AUEffectBase.cpp");
            reveal_strlit("./external/AudioUnitSDK/src/AudioUnitSDK/AUEffectBase.cpp");
            assert("./external/AudioUnitSDK/"@ + "src/AudioUnitSDK/AUEffectBase.cpp"@ =~= "./external/AudioUnitSDK/src/AudioUnitSDK/AUEffectBase.cpp"@);
            assert(bundled_auv2_plan_view(debug).sources[3] == bundled_source(auv2_plan_view(debug, verbose).sources[3], "./external/AudioUnitSDK/"@));

        } else if j == 4 {
            reveal_strlit("./external/AudioUnitSDK/");
            reveal_strlit("src/AudioUnitSDK/AUMIDIBase.cpp");
            reveal_strlit("./external/AudioUnitSDK/src/AudioUnitSDK/AUMIDIBase.cpp");
            assert("./external/AudioUnitSDK/"@ + "src/AudioUnitSDK/AUMIDIBase.cpp"@ =~= "./external/AudioUnitSDK/src/AudioUnitSDK/AUMIDIBase.cpp"@);
            assert(bundled_auv2_plan_view(debug).sources[4] == bundled_source(auv2_plan_view(debug, verbose).sources[4], "./external/AudioUnitSDK/"@));

        } else if j == 5 {
            reveal_strlit("./external/AudioUnitSDK/");
            reveal_strlit("src/AudioUnitSDK/AUMIDIEffectBase.cpp");
            reveal_strlit("./external/AudioUnitSDK/src/AudioUnitSDK/AUMIDIEffectBase.cpp");
            assert("./external/AudioUnitSDK/"@ + "src/AudioUnitSDK/AUMIDIEffectBase.cpp"@ =~= "./external/AudioUnitSDK/src/AudioUnitSDK/AUMIDIEffectBase.cpp"@);
            assert(bundled_auv2_plan_view(debug).sources[5] == bundled_source(auv2_plan_view(debug, verbose).sources[5], "./external/AudioUnitSDK/"@));

        } else if j == 6 {
            reveal_strlit("./external/AudioUnitSDK/");
            reveal_strlit("src/AudioUnitSDK/AUInputElement.cpp");
            reveal_strlit("./external/AudioUnitSDK/src/AudioUnitSDK/AUInputElement.cpp");
            assert("./external/AudioUnitSDK/"@ + "src/AudioUnitSDK/AUInputElement.cpp"@ =~= "./external/AudioUnitSDK/src/AudioUnitSDK/AUInputElement.cpp"@);
            assert(bundled_auv2_plan_view(debug).sources[6] == bundled_source(auv2_plan_view(debug, verbose).sources[6], "./external/AudioUnitSDK/"@));

        } else if j == 7 {
            reveal_strlit("./external/AudioUnitSDK/");
            reveal_strlit("src/AudioUnitSDK/AUOutputElement.cpp");
            reveal_strlit("./external/AudioUnitSDK/src/AudioUnitSDK/AUOutputElement.cpp");
            assert("./external/AudioUnitSDK/"@ + "src/AudioUnitSDK/AUOutputElement.cpp"@ =~= "./external/AudioUnitSDK/src/AudioUnitSDK/AUOutputElement.cpp"@);
            assert(bundled_auv2_plan_view(debug).sources[7] == bundled_source(auv2_plan_view(debug, verbose).sources[7], "./external/AudioUnitSDK/"@));

        } else if j == 8 {
            reveal_strlit("./external/AudioUnitSDK/");
            reveal_strlit("src/AudioUnitSDK/AUScopeElement.cpp");
            reveal_strlit("./external/AudioUnitSDK/src/AudioUnitSDK/AUScopeElement.cpp");
            assert("./external/AudioUnitSDK/"@ + "src/AudioUnitSDK/AUScopeElement.cpp"@ =~= "./external/AudioUnitSDK/src/AudioUnitSDK/AUScopeElement.cpp"@);
            assert(bundled_auv2_plan_view(debug).sources[8] == bundled_source(auv2_plan_view(debug, verbose).sources[8], "./external/AudioUnitSDK/"@));

        } else if j == 9 {
            reveal_strlit("./external/AudioUnitSDK/");
            reveal_strlit("src/AudioUnitSDK/AUPlugInDispatch.cpp");
            reveal_strlit("./external/AudioUnitSDK/src/AudioUnitSDK/AUPlugInDispatch.cpp");
            assert("./external/AudioUnitSDK/"@ + "src/AudioUnitSDK/AUPlugInDispatch.cpp"@ =~= "./external/AudioUnitSDK/src/AudioUnitSDK/AUPlugInDispatch.cpp"@);
            assert(bundled_auv2_plan_view(debug).sources[9] == bundled_source(auv2_plan_view(debug, verbose).sources[9], "./external/AudioUnitSDK/"@));

        } else if j == 10 {
            reveal_strlit("./external/AudioUnitSDK/");
            reveal_strlit("src/AudioUnitSDK/ComponentBase.cpp");
            reveal_strlit("./external/AudioUnitSDK/src/AudioUnitSDK/ComponentBase.cpp");
            assert("./external/AudioUnitSDK/"@ + "src/AudioUnitSDK/ComponentBase.cpp"@ =~= "./external/AudioUnitSDK/src/AudioUnitSDK/ComponentBase.cpp"@);
            assert(bundled_auv2_plan_view(debug).sources[10] == bundled_source(auv2_plan_view(debug, verbose).sources[10], "./external/AudioUnitSDK/"@));

        } else if j == 11 {
            reveal_strlit("./external/AudioUnitSDK/");
            reveal_strlit("src/AudioUnitSDK/MusicDeviceBase.cpp");
            reveal_strlit("./external/AudioUnitSDK/src/AudioUnitSDK/MusicDeviceBase.cpp");
            assert("./external/AudioUnitSDK/"@ + "src/AudioUnitSDK/MusicDeviceBase.cpp"@ =~= "./external/AudioUnitSDK/src/AudioUnitSDK/MusicDeviceBase.cpp"@);
            assert(bundled_auv2_plan_view(debug).sources[11] == bundled_source(auv2_plan_view(debug, verbose).sources[11], "./external/AudioUnitSDK/"@));

        } else if j == 12 {
            reveal_strlit("./external/");
            reveal_strlit("clap-wrapper/src/clap_proxy.cpp");
            reveal_strlit("./external/clap-wrapper/src/clap_proxy.cpp");
            assert("./external/"@ + "clap-wrapper/src/clap_proxy.cpp"@ =~= "./external/clap-wrapper/src/clap_proxy.cpp"@);
            assert(bundled_auv2_plan_view(debug).sources[12] == bundled_source(auv2_plan_view(debug, verbose).sources[12], "./external/AudioUnitSDK/"@));

        } else if j == 13 {
            reveal_strlit("./external/");
            reveal_strlit("clap-wrapper/src/detail/clap/fsutil.cpp");
            reveal_strlit("./external/clap-wrapper/src/detail/clap/fsutil.cpp");
            assert("./external/"@ + "clap-wrapper/src/detail/clap/fsutil.cpp"@ =~= "./external/clap-wrapper/src/detail/clap/fsutil.cpp"@);
            assert(bundled_auv2_plan_view(debug).sources[13] == bundled_source(auv2_plan_view(debug, verbose).sources[13], "./external/AudioUnitSDK/"@));

        } else if j == 14 {
            reveal_strlit("./external/");
            reveal_strlit("clap-wrapper/src/detail/shared/sha1.cpp");
            reveal_strlit("./external/clap-wrapper/src/detail/shared/sha1.cpp");
            assert("./external/"@ + "clap-wrapper/src/detail/shared/sha1.cpp"@ =~= "./external/clap-wrapper/src/detail/shared/sha1.cpp"@);
            assert(bundled_auv2_plan_view(debug).sources[14] == bundled_source(auv2_plan_view(debug, verbose).sources[14], "./external/AudioUnitSDK/"@));

        } else if j == 15 {
            reveal_strlit("./external/");
            reveal_strlit("clap-wrapper/src/wrapasauv2.cpp");
            reveal_strlit("./external/clap-wrapper/src/wrapasauv2.cpp");
            assert("./external/"@ + "clap-wrapper/src/wrapasauv2.cpp"@ =~= "./external/clap-wrapper/src/wrapasauv2.cpp"@);
            assert(bundled_auv2_plan_view(debug).sources[15] == bundled_source(auv2_plan_view(debug, verbose).sources[15], "./external/AudioUnitSDK/"@));

        } else if j == 16 {
            reveal_strlit("./external/");
            reveal_strlit("clap-wrapper/src/detail/auv2/auv2_shared.mm");
            reveal_strlit("./external/clap-wrapper/src/detail/auv2/auv2_shared.mm");
            assert("./external/"@ + "clap-wrapper/src/detail/auv2/auv2_shared.mm"@ =~= "./external/clap-wrapper/src/detail/auv2/auv2_shared.mm"@);
            assert(bundled_auv2_plan_view(debug).sources[16] == bundled_source(auv2_plan_view(debug, verbose).sources[16], "./external/AudioUnitSDK/"@));

        } else if j == 17 {
            reveal_strlit("./external/");
            reveal_strlit("clap-wrapper/src/detail/auv2/process.cpp");
            reveal_strlit("./external/clap-wrapper/src/detail/auv2/process.cpp");
            assert("./external/"@ + "clap-wrapper/src/detail/auv2/process.cpp"@ =~= "./external/clap-wrapper/src/detail/auv2/process.cpp"@);
            assert(bundled_auv2_plan_view(debug).sources[17] == bundled_source(auv2_plan_view(debug, verbose).sources[17], "./external/AudioUnitSDK/"@));

        } else if j == 18 {
            reveal_strlit("./external/");
            reveal_strlit("clap-wrapper/src/detail/auv2/wrappedview.mm");
            reveal_strlit("./external/clap-wrapper/src/detail/auv2/wrappedview.mm");
            assert("./external/"@ + "clap-wrapper/src/detail/auv2/wrappedview.mm"@ =~= "./external/clap-wrapper/src/detail/auv2/wrappedview.mm"@);
            assert(bundled_auv2_plan_view(debug).sources[18] == bundled_source(auv2_plan_view(debug, verbose).sources[18], "./external/AudioUnitSDK/"@));

        } else if j == 19 {
            reveal_strlit("./external/");
            reveal_strlit("clap-wrapper/src/detail/auv2/parameter.cpp");
            reveal_strlit("./external/clap-wrapper/src/detail/auv2/parameter.cpp");
            assert("./external/"@ + "clap-wrapper/src/detail/auv2/parameter.cpp"@ =~= "./external/clap-wrapper/src/detail/auv2/parameter.cpp"@);
            assert(bundled_auv2_plan_view(debug).sources[19] == bundled_source(auv2_plan_view(debug, verbose).sources[19], "./external/AudioUnitSDK/"@));

        } else if j == 20 {
            reveal_strlit("./external/");
            reveal_strlit("clap-wrapper/src/detail/os/macos.mm");
            reveal_strlit("./external/clap-wrapper/src/detail/os/macos.mm");
            assert("./external/"@ + "clap-wrapper/src/detail/os/macos.mm"@ =~= "./external/clap-wrapper/src/detail/os/macos.mm"@);
            assert(bundled_auv2_plan_view(debug).sources[20] == bundled_source(auv2_plan_view(debug, verbose).sources[20], "./external/AudioUnitSDK/"@));

        } else if j == 21 {
            reveal_strlit("./external/");
            reveal_strlit("clap-wrapper/src/detail/clap/mac_helpers.mm");
            reveal_strlit("./external/clap-wrapper/src/detail/clap/mac_helpers.mm");
            assert("./external/"@ + "clap-wrapper/src/detail/clap/mac_helpers.mm"@ =~= "./external/clap-wrapper/src/detail/clap/mac_helpers.mm"@);
            assert(bundled_auv2_plan_view(debug).sources[21] == bundled_source(auv2_plan_view(debug, verbose).sources[21], "./external/AudioUnitSDK/"@));

        }
    }
}

/// The bundled VST3 crate compiles exactly the sources of the VST3 build against an SDK path,
/// for the same system: each source of the one is a source of the other, with the crate's
/// paths under `./external/` and the SDK's under `./external/vst3sdk/`.
pub proof fn law_vst3_builds_compile_same_sources(os: TargetOs, debug: bool, verbose: bool)
    ensures
        forall|i: int| 0 <= i < vst3_plan_view(os, debug, verbose).sources.len()
            ==> bundled_vst3_plan_view(os, debug).sources.contains(
            #[trigger] bundled_source(vst3_plan_view(os, debug, verbose).sources[i], "./external/vst3sdk/"@),
        ),
        forall|j: int| 0 <= j < bundled_vst3_plan_view(os, debug).sources.len()
            ==> exists|i: int| 0 <= i < vst3_plan_view(os, debug, verbose).sources.len()
            && #[trigger] bundled_vst3_plan_view(os, debug).sources[j] == bundled_source(
            vst3_plan_view(os, debug, verbose).sources[i],
            "./external/vst3sdk/"@,
        ),
{
    match os {
        TargetOs::MacOs => {
            lemma_vst3_sources_pair_macos_forward(debug, verbose);
            lemma_vst3_sources_pair_macos_backward(debug, verbose);
        },
        TargetOs::Windows => {
            lemma_vst3_sources_pair_windows_forward(debug, verbose);
            lemma_vst3_sources_pair_windows_backward(debug, verbose);
        },
        TargetOs::Linux => {
            lemma_vst3_sources_pair_linux_forward(debug, verbose);
            lemma_vst3_sources_pair_linux_backward(debug, verbose);
        },
    }
}

/// The bundled AUv2 crate compiles exactly the sources of the AUv2 build against an SDK path:
/// each source of the one is a source of the other, with the crate's paths under
/// `./external/` and the SDK's under `./external/AudioUnitSDK/`.
pub proof fn law_auv2_builds_compile_same_sources(debug: bool, verbose: bool)
    ensures
        forall|i: int| 0 <= i < auv2_plan_view(debug, verbose).sources.len()
            ==> bundled_auv2_plan_view(debug).sources.contains(
            #[trigger] bundled_source(auv2_plan_view(debug, verbose).sources[i], "./external/AudioUnitSDK/"@),
        ),
        forall|j: int| 0 <= j < bundled_auv2_plan_view(debug).sources.len()
            ==> exists|i: int| 0 <= i < auv2_plan_view(debug, verbose).sources.len()
            && #[trigger] bundled_auv2_plan_view(debug).sources[j] == bundled_source(
            auv2_plan_view(debug, verbose).sources[i],
            "./external/AudioUnitSDK/"@,
        ),
{
    lemma_auv2_sources_pair_forward(debug, verbose);
    lemma_auv2_sources_pair_backward(debug, verbose);
}

#[verifier::spinoff_prover]
#[verifier::rlimit(60)]
proof fn lemma_auv2_no_vst3_files(debug: bool, verbose: bool)
    ensures
        forall|i: int| 0 <= i < auv2_plan_view(debug, verbose).sources.len() ==> !names_crate_file_under(#[trigger] auv2_plan_view(debug, verbose).sources[i], "clap-wrapper/src/detail/vst3/"@),
{
    reveal_strlit("clap-wrapper/src/detail/vst3/");
    assert(auv2_plan_view(debug, verbose).sources.len() == 22);
    assert forall|i: int| 0 <= i < auv2_plan_view(debug, verbose).sources.len() implies !names_crate_file_under(#[trigger] auv2_plan_view(debug, verbose).sources[i], "clap-wrapper/src/detail/vst3/"@) by {
        if i == 12 {
            reveal_strlit("clap-wrapper/src/clap_proxy.cpp");
            assert(auv2_plan_view(debug, verbose).sources[12] == file_in_crate("clap-wrapper/src/clap_proxy.cpp"@));
            assert("clap-wrapper/src/clap_proxy.cpp"@[17] != "clap-wrapper/src/detail/vst3/"@[17]);

        } else if i == 13 {
            reveal_strlit("clap-wrapper/src/detail/clap/fsutil.cpp");
            assert(auv2_plan_view(debug, verbose).sources[13] == file_in_crate("clap-wrapper/src/detail/clap/fsutil.cpp"@));
            assert("clap-wrapper/src/detail/clap/fsutil.cpp"@[24] != "clap-wrapper/src/detail/vst3/"@[24]);

        } else if i == 14 {
            reveal_strlit("clap-wrapper/src/detail/shared/sha1.cpp");
            assert(auv2_plan_view(debug, verbose).sources[14] == file_in_crate("clap-wrapper/src/detail/shared/sha1.cpp"@));
            assert("clap-wrapper/src/detail/shared/sha1.cpp"@[24] != "clap-wrapper/src/detail/vst3/"@[24]);

        } else if i == 15 {
            reveal_strlit("clap-wrapper/src/wrapasauv2.cpp");
            assert(auv2_plan_view(debug, verbose).sources[15] == file_in_crate("clap-wrapper/src/wrapasauv2.cpp"@));
            assert("clap-wrapper/src/wrapasauv2.cpp"@[17] != "clap-wrapper/src/detail/vst3/"@[17]);

        } else if i == 16 {
            reveal_strlit("clap-wrapper/src/detail/auv2/auv2_shared.mm");
            assert(auv2_plan_view(debug, verbose).sources[16] == file_in_crate("clap-wrapper/src/detail/auv2/auv2_shared.mm"@));
            assert("clap-wrapper/src/detail/auv2/auv2_shared.mm"@[24] != "clap-wrapper/src/detail/vst3/"@[24]);

        } else if i == 17 {
            reveal_strlit("clap-wrapper/src/detail/auv2/process.cpp");
            assert(auv2_plan_view(debug, verbose).sources[17] == file_in_crate("clap-wrapper/src/detail/auv2/process.cpp"@));
            assert("clap-wrapper/src/detail/auv2/process.cpp"@[24] != "clap-wrapper/src/detail/vst3/"@[24]);

        } else if i == 18 {
            reveal_strlit("clap-wrapper/src/detail/auv2/wrappedview.mm");
            assert(auv2_plan_view(debug, verbose).sources[18] == file_in_crate("clap-wrapper/src/detail/auv2/wrappedview.mm"@));
            assert("clap-wrapper/src/detail/auv2/wrappedview.mm"@[24] != "clap-wrapper/src/detail/vst3/"@[24]);

        } else if i == 19 {
            reveal_strlit("clap-wrapper/src/detail/auv2/parameter.cpp");
            assert(auv2_plan_view(debug, verbose).sources[19] == file_in_crate("clap-wrapper/src/detail/auv2/parameter.cpp"@));
            assert("clap-wrapper/src/detail/auv2/parameter.cpp"@[24] != "clap-wrapper/src/detail/vst3/"@[24]);

        } else if i == 20 {
            reveal_strlit("clap-wrapper/src/detail/os/macos.mm");
            assert(auv2_plan_view(debug, verbose).sources[20] == file_in_crate("clap-wrapper/src/detail/os/macos.mm"@));
            assert("clap-wrapper/src/detail/os/macos.mm"@[24] != "clap-wrapper/src/detail/vst3/"@[24]);

        } else if i == 21 {
            reveal_strlit("clap-wrapper/src/detail/clap/mac_helpers.mm");
            assert(auv2_plan_view(debug, verbose).sources[21] == file_in_crate("clap-wrapper/src/detail/clap/mac_helpers.mm"@));
            assert("clap-wrapper/src/detail/clap/mac_helpers.mm"@[24] != "clap-wrapper/src/detail/vst3/"@[24]);

        }
    }
}

#[verifier::spinoff_prover]
#[verifier::rlimit(60)]
proof fn lemma_bundled_auv2_no_vst3_files(debug: bool)
    ensures
        forall|i: int| 0 <= i < bundled_auv2_plan_view(debug).sources.len() ==> !names_crate_file_under(#[trigger] bundled_auv2_plan_view(debug).sources[i], "./external/clap-wrapper/src/detail/vst3/"@),
{
    reveal_strlit("./external/clap-wrapper/src/detail/vst3/");
    assert(bundled_auv2_plan_view(debug).sources.len() == 22);
    assert forall|i: int| 0 <= i < bundled_auv2_plan_view(debug).sources.len() implies !names_crate_file_under(#[trigger] bundled_auv2_plan_view(debug).sources[i], "./external/clap-wrapper/src/detail/vst3/"@) by {
        if i == 0 {
            reveal_strlit("./external/AudioUnitSDK/src/AudioUnitSDK/AUBase.cpp");
            assert(bundled_auv2_plan_view(debug).sources[0] == file_in_crate("./external/AudioUnitSDK/src/AudioUnitSDK/AUBase.cpp"@));
            assert("./external/AudioUnitSDK/src/AudioUnitSDK/AUBase.cpp"@[11] != "./external/clap-wrapper/src/detail/vst3/"@[11]);

        } else if i == 1 {
            reveal_strlit("./external/AudioUnitSDK/src/AudioUnitSDK/AUBuffer.cpp");
            assert(bundled_auv2_plan_view(debug).sources[1] == file_in_crate("./external/AudioUnitSDK/src/AudioUnitSDK/AUBuffer.cpp"@));
            assert("./external/AudioUnitSDK/src/AudioUnitSDK/AUBuffer.cpp"@[11] != "./external/clap-wrapper/src/detail/vst3/"@[11]);

        } else if i == 2 {
            reveal_strlit("./external/AudioUnitSDK/src/AudioUnitSDK/AUBufferAllocator.cpp");
            assert(bundled_auv2_plan_view(debug).sources[2] == file_in_crate("./external/AudioUnitSDK/src/AudioUnitSDK/AUBufferAllocator.cpp"@));
            assert("./external/AudioUnitSDK/src/AudioUnitSDK/AUBufferAllocator.cpp"@[11] != "./external/clap-wrapper/src/detail/vst3/"@[11]);

        } else if i == 3 {
            reveal_strlit("./external/AudioUnitSDK/src/AudioUnitSDK/AUEffectBase.cpp");
            assert(bundled_auv2_plan_view(debug).sources[3] == file_in_crate("./external/AudioUnitSDK/src/AudioUnitSDK/AUEffectBase.cpp"@));
            assert("./external/AudioUnitSDK/src/AudioUnitSDK/AUEffectBase.cpp"@[11] != "./external/clap-wrapper/src/detail/vst3/"@[11]);

        } else if i == 4 {
            reveal_strlit("./external/AudioUnitSDK/src/AudioUnitSDK/AUMIDIBase.cpp");
            assert(bundled_auv2_plan_view(debug).sources[4] == file_in_crate("./external/AudioUnitSDK/src/AudioUnitSDK/AUMIDIBase.cpp"@));
            assert("./external/AudioUnitSDK/src/AudioUnitSDK/AUMIDIBase.cpp"@[11] != "./external/clap-wrapper/src/detail/vst3/"@[11]);

        } else if i == 5 {
            reveal_strlit("./external/AudioUnitSDK/src/AudioUnitSDK/AUMIDIEffectBase.cpp");
            assert(bundled_auv2_plan_view(debug).sources[5] == file_in_crate("./external/AudioUnitSDK/src/AudioUnitSDK/AUMIDIEffectBase.cpp"@));
            assert("./external/AudioUnitSDK/src/AudioUnitSDK/AUMIDIEffectBase.cpp"@[11] != "./external/clap-wrapper/src/detail/vst3/"@[11]);

        } else if i == 6 {
            reveal_strlit("./external/AudioUnitSDK/src/AudioUnitSDK/AUInputElement.cpp");
            assert(bundled_auv2_plan_view(debug).sources[6] == file_in_crate("./external/AudioUnitSDK/src/AudioUnitSDK/AUInputElement.cpp"@));
            assert("./external/AudioUnitSDK/src/AudioUnitSDK/AUInputElement.cpp"@[11] != "./external/clap-wrapper/src/detail/vst3/"@[11]);

        } else if i == 7 {
            reveal_strlit("./external/AudioUnitSDK/src/AudioUnitSDK/AUOutputElement.cpp");
            assert(bundled_auv2_plan_view(debug).sources[7] == file_in_crate("./external/AudioUnitSDK/src/AudioUnitSDK/AUOutputElement.cpp"@));
            assert("./external/AudioUnitSDK/src/AudioUnitSDK/AUOutputElement.cpp"@[11] != "./external/clap-wrapper/src/detail/vst3/"@[11]);

        } else if i == 8 {
            reveal_strlit("./external/AudioUnitSDK/src/AudioUnitSDK/AUScopeElement.cpp");
            assert(bundled_auv2_plan_view(debug).sources[8] == file_in_crate("./external/AudioUnitSDK/src/AudioUnitSDK/AUScopeElement.cpp"@));
            assert("./external/AudioUnitSDK/src/AudioUnitSDK/AUScopeElement.cpp"@[11] != "./external/clap-wrapper/src/detail/vst3/"@[11]);

        } else if i == 9 {
            reveal_strlit("./external/AudioUnitSDK/src/AudioUnitSDK/AUPlugInDispatch.cpp");
            assert(bundled_auv2_plan_view(debug).sources[9] == file_in_crate("./external/AudioUnitSDK/src/AudioUnitSDK/AUPlugInDispatch.cpp"@));
            assert("./external/AudioUnitSDK/src/AudioUnitSDK/AUPlugInDispatch.cpp"@[11] != "./external/clap-wrapper/src/detail/vst3/"@[11]);

        } else if i == 10 {
            reveal_strlit("./external/AudioUnitSDK/src/AudioUnitSDK/ComponentBase.cpp");
            assert(bundled_auv2_plan_view(debug).sources[10] == file_in_crate("./external/AudioUnitSDK/src/AudioUnitSDK/ComponentBase.cpp"@));
            assert("./external/AudioUnitSDK/src/AudioUnitSDK/ComponentBase.cpp"@[11] != "./external/clap-wrapper/src/detail/vst3/"@[11]);

        } else if i == 11 {
            reveal_strlit("./external/AudioUnitSDK/src/AudioUnitSDK/MusicDeviceBase.cpp");
            assert(bundled_auv2_plan_view(debug).sources[11] == file_in_crate("./external/AudioUnitSDK/src/AudioUnitSDK/MusicDeviceBase.cpp"@));
            assert("./external/AudioUnitSDK/src/AudioUnitSDK/MusicDeviceBase.cpp"@[11] != "./external/clap-wrapper/src/detail/vst3/"@[11]);

        } else if i == 12 {
            reveal_strlit("./external/clap-wrapper/src/clap_proxy.cpp");
            assert(bundled_auv2_plan_view(debug).sources[12] == file_in_crate("./external/clap-wrapper/src/clap_proxy.cpp"@));
            assert("./external/clap-wrapper/src/clap_proxy.cpp"@[28] != "./external/clap-wrapper/src/detail/vst3/"@[28]);

        } else if i == 13 {
            reveal_strlit("./external/clap-wrapper/src/detail/clap/fsutil.cpp");
            assert(bundled_auv2_plan_view(debug).sources[13] == file_in_crate("./external/clap-wrapper/src/detail/clap/fsutil.cpp"@));
            assert("./external/clap-wrapper/src/detail/clap/fsutil.cpp"@[35] != "./external/clap-wrapper/src/detail/vst3/"@[35]);

        } else if i == 14 {
            reveal_strlit("./external/clap-wrapper/src/detail/shared/sha1.cpp");
            assert(bundled_auv2_plan_view(debug).sources[14] == file_in_crate("./external/clap-wrapper/src/detail/shared/sha1.cpp"@));
            assert("./external/clap-wrapper/src/detail/shared/sha1.cpp"@[35] != "./external/clap-wrapper/src/detail/vst3/"@[35]);

        } else if i == 15 {
            reveal_strlit("./external/clap-wrapper/src/wrapasauv2.cpp");
            assert(bundled_auv2_plan_view(debug).sources[15] == file_in_crate("./external/clap-wrapper/src/wrapasauv2.cpp"@));
            assert("./external/clap-wrapper/src/wrapasauv2.cpp"@[28] != "./external/clap-wrapper/src/detail/vst3/"@[28]);

        } else if i == 16 {
            reveal_strlit("./external/clap-wrapper/src/detail/auv2/auv2_shared.mm");
            assert(bundled_auv2_plan_view(debug).sources[16] == file_in_crate("./external/clap-wrapper/src/detail/auv2/auv2_shared.mm"@));
            assert("./external/clap-wrapper/src/detail/auv2/auv2_shared.mm"@[35] != "./external/clap-wrapper/src/detail/vst3/"@[35]);

        } else if i == 17 {
            reveal_strlit("./external/clap-wrapper/src/detail/auv2/process.cpp");
            assert(bundled_auv2_plan_view(debug).sources[17] == file_in_crate("./external/clap-wrapper/src/detail/auv2/process.cpp"@));
            assert("./external/clap-wrapper/src/detail/auv2/process.cpp"@[35] != "./external/clap-wrapper/src/detail/vst3/"@[35]);

        } else if i == 18 {
            reveal_strlit("./external/clap-wrapper/src/detail/auv2/wrappedview.mm");
            assert(bundled_auv2_plan_view(debug).sources[18] == file_in_crate("./external/clap-wrapper/src/detail/auv2/wrappedview.mm"@));
            assert("./external/clap-wrapper/src/detail/auv2/wrappedview.mm"@[35] != "./external/clap-wrapper/src/detail/vst3/"@[35]);

        } else if i == 19 {
            reveal_strlit("./external/clap-wrapper/src/detail/auv2/parameter.cpp");
            assert(bundled_auv2_plan_view(debug).sources[19] == file_in_crate("./external/clap-wrapper/src/detail/auv2/parameter.cpp"@));
            assert("./external/clap-wrapper/src/detail/auv2/parameter.cpp"@[35] != "./external/clap-wrapper/src/detail/vst3/"@[35]);

        } else if i == 20 {
            reveal_strlit("./external/clap-wrapper/src/detail/os/macos.mm");
            assert(bundled_auv2_plan_view(debug).sources[20] == file_in_crate("./external/clap-wrapper/src/detail/os/macos.mm"@));
            assert("./external/clap-wrapper/src/detail/os/macos.mm"@[35] != "./external/clap-wrapper/src/detail/vst3/"@[35]);

        } else if i == 21 {
            reveal_strlit("./external/clap-wrapper/src/detail/clap/mac_helpers.mm");
            assert(bundled_auv2_plan_view(debug).sources[21] == file_in_crate("./external/clap-wrapper/src/detail/clap/mac_helpers.mm"@));
            assert("./external/clap-wrapper/src/detail/clap/mac_helpers.mm"@[35] != "./external/clap-wrapper/src/detail/vst3/"@[35]);

        }
    }
}

#[verifier::spinoff_prover]
#[verifier::rlimit(60)]
proof fn lemma_vst3_no_auv2_files_macos(debug: bool, verbose: bool)
    ensures
        forall|i: int| 0 <= i < vst3_plan_view(TargetOs::MacOs, debug, verbose).sources.len() ==> !names_crate_file_under(#[trigger] vst3_plan_view(TargetOs::MacOs, debug, verbose).sources[i], "clap-wrapper/src/detail/auv2/"@),
{
    reveal_strlit("clap-wrapper/src/detail/auv2/");
    assert(vst3_plan_view(TargetOs::MacOs, debug, verbose).sources.len() == 29);
    assert forall|i: int| 0 <= i < vst3_plan_view(TargetOs::MacOs, debug, verbose).sources.len() implies !names_crate_file_under(#[trigger] vst3_plan_view(TargetOs::MacOs, debug, verbose).sources[i], "clap-wrapper/src/detail/auv2/"@) by {
        if i == 16 {
            reveal_strlit("clap-wrapper/src/clap_proxy.cpp");
            assert(vst3_plan_view(TargetOs::MacOs, debug, verbose).sources[16] == file_in_crate("clap-wrapper/src/clap_proxy.cpp"@));
            assert("clap-wrapper/src/clap_proxy.cpp"@[17] != "clap-wrapper/src/detail/auv2/"@[17]);

        } else if i == 17 {
            reveal_strlit("clap-wrapper/src/detail/clap/fsutil.cpp");
            assert(vst3_plan_view(TargetOs::MacOs, debug, verbose).sources[17] == file_in_crate("clap-wrapper/src/detail/clap/fsutil.cpp"@));
            assert("clap-wrapper/src/detail/clap/fsutil.cpp"@[24] != "clap-wrapper/src/detail/auv2/"@[24]);

        } else if i == 18 {
            reveal_strlit("clap-wrapper/src/detail/shared/sha1.cpp");
            assert(vst3_plan_view(TargetOs::MacOs, debug, verbose).sources[18] == file_in_crate("clap-wrapper/src/detail/shared/sha1.cpp"@));
            assert("clap-wrapper/src/detail/shared/sha1.cpp"@[24] != "clap-wrapper/src/detail/auv2/"@[24]);

        } else if i == 19 {
            reveal_strlit("clap-wrapper/src/wrapasvst3_export_entry.cpp");
            assert(vst3_plan_view(TargetOs::MacOs, debug, verbose).sources[19] == file_in_crate("clap-wrapper/src/wrapasvst3_export_entry.cpp"@));
            assert("clap-wrapper/src/wrapasvst3_export_entry.cpp"@[17] != "clap-wrapper/src/detail/auv2/"@[17]);

        } else if i == 20 {
            reveal_strlit("clap-wrapper/src/wrapasvst3.cpp");
            assert(vst3_plan_view(TargetOs::MacOs, debug, verbose).sources[20] == file_in_crate("clap-wrapper/src/wrapasvst3.cpp"@));
            assert("clap-wrapper/src/wrapasvst3.cpp"@[17] != "clap-wrapper/src/detail/auv2/"@[17]);

        } else if i == 21 {
            reveal_strlit("clap-wrapper/src/wrapasvst3_entry.cpp");
            assert(vst3_plan_view(TargetOs::MacOs, debug, verbose).sources[21] == file_in_crate("clap-wrapper/src/wrapasvst3_entry.cpp"@));
            assert("clap-wrapper/src/wrapasvst3_entry.cpp"@[17] != "clap-wrapper/src/detail/auv2/"@[17]);

        } else if i == 22 {
            reveal_strlit("clap-wrapper/src/detail/vst3/parameter.cpp");
            assert(vst3_plan_view(TargetOs::MacOs, debug, verbose).sources[22] == file_in_crate("clap-wrapper/src/detail/vst3/parameter.cpp"@));
            assert("clap-wrapper/src/detail/vst3/parameter.cpp"@[24] != "clap-wrapper/src/detail/auv2/"@[24]);

        } else if i == 23 {
            reveal_strlit("clap-wrapper/src/detail/vst3/plugview.cpp");
            assert(vst3_plan_view(TargetOs::MacOs, debug, verbose).sources[23] == file_in_crate("clap-wrapper/src/detail/vst3/plugview.cpp"@));
            assert("clap-wrapper/src/detail/vst3/plugview.cpp"@[24] != "clap-wrapper/src/detail/auv2/"@[24]);

        } else if i == 24 {
            reveal_strlit("clap-wrapper/src/detail/vst3/process.cpp");
            assert(vst3_plan_view(TargetOs::MacOs, debug, verbose).sources[24] == file_in_crate("clap-wrapper/src/detail/vst3/process.cpp"@));
            assert("clap-wrapper/src/detail/vst3/process.cpp"@[24] != "clap-wrapper/src/detail/auv2/"@[24]);

        } else if i == 25 {
            reveal_strlit("clap-wrapper/src/detail/vst3/categories.cpp");
            assert(vst3_plan_view(TargetOs::MacOs, debug, verbose).sources[25] == file_in_crate("clap-wrapper/src/detail/vst3/categories.cpp"@));
            assert("clap-wrapper/src/detail/vst3/categories.cpp"@[24] != "clap-wrapper/src/detail/auv2/"@[24]);

        } else if i == 27 {
            reveal_strlit("clap-wrapper/src/detail/os/macos.mm");
            assert(vst3_plan_view(TargetOs::MacOs, debug, verbose).sources[27] == file_in_crate("clap-wrapper/src/detail/os/macos.mm"@));
            assert("clap-wrapper/src/detail/os/macos.mm"@[24] != "clap-wrapper/src/detail/auv2/"@[24]);

        } else if i == 28 {
            reveal_strlit("clap-wrapper/src/detail/clap/mac_helpers.mm");
            assert(vst3_plan_view(TargetOs::MacOs, debug, verbose).sources[28] == file_in_crate("clap-wrapper/src/detail/clap/mac_helpers.mm"@));
            assert("clap-wrapper/src/detail/clap/mac_helpers.mm"@[24] != "clap-wrapper/src/detail/auv2/"@[24]);

        }
    }
}

#[verifier::spinoff_prover]
#[verifier::rlimit(60)]
proof fn lemma_vst3_no_auv2_files_windows(debug: bool, verbose: bool)
    ensures
        forall|i: int| 0 <= i < vst3_plan_view(TargetOs::Windows, debug, verbose).sources.len() ==> !names_crate_file_under(#[trigger] vst3_plan_view(TargetOs::Windows, debug, verbose).sources[i], "clap-wrapper/src/detail/auv2/"@),
{
    reveal_strlit("clap-wrapper/src/detail/auv2/");
    assert(vst3_plan_view(TargetOs::Windows, debug, verbose).sources.len() == 28);
    assert forall|i: int| 0 <= i < vst3_plan_view(TargetOs::Windows, debug, verbose).sources.len() implies !names_crate_file_under(#[trigger] vst3_plan_view(TargetOs::Windows, debug, verbose).sources[i], "clap-wrapper/src/detail/auv2/"@) by {
        if i == 16 {
            reveal_strlit("clap-wrapper/src/clap_proxy.cpp");
            assert(vst3_plan_view(TargetOs::Windows, debug, verbose).sources[16] == file_in_crate("clap-wrapper/src/clap_proxy.cpp"@));
            assert("clap-wrapper/src/clap_proxy.cpp"@[17] != "clap-wrapper/src/detail/auv2/"@[17]);

        } else if i == 17 {
            reveal_strlit("clap-wrapper/src/detail/clap/fsutil.cpp");
            assert(vst3_plan_view(TargetOs::Windows, debug, verbose).sources[17] == file_in_crate("clap-wrapper/src/detail/clap/fsutil.cpp"@));
            assert("clap-wrapper/src/detail/clap/fsutil.cpp"@[24] != "clap-wrapper/src/detail/auv2/"@[24]);

        } else if i == 18 {
            reveal_strlit("clap-wrapper/src/detail/shared/sha1.cpp");
            assert(vst3_plan_view(TargetOs::Windows, debug, verbose).sources[18] == file_in_crate("clap-wrapper/src/detail/shared/sha1.cpp"@));
            assert("clap-wrapper/src/detail/shared/sha1.cpp"@[24] != "clap-wrapper/src/detail/auv2/"@[24]);

        } else if i == 19 {
            reveal_strlit("clap-wrapper/src/wrapasvst3_export_entry.cpp");
            assert(vst3_plan_view(TargetOs::Windows, debug, verbose).sources[19] == file_in_crate("clap-wrapper/src/wrapasvst3_export_entry.cpp"@));
            assert("clap-wrapper/src/wrapasvst3_export_entry.cpp"@[17] != "clap-wrapper/src/detail/auv2/"@[17]);

        } else if i == 20 {
            reveal_strlit("clap-wrapper/src/wrapasvst3.cpp");
            assert(vst3_plan_view(TargetOs::Windows, debug, verbose).sources[20] == file_in_crate("clap-wrapper/src/wrapasvst3.cpp"@));
            assert("clap-wrapper/src/wrapasvst3.cpp"@[17] != "clap-wrapper/src/detail/auv2/"@[17]);

        } else if i == 21 {
            reveal_strlit("clap-wrapper/src/wrapasvst3_entry.cpp");
            assert(vst3_plan_view(TargetOs::Windows, debug, verbose).sources[21] == file_in_crate("clap-wrapper/src/wrapasvst3_entry.cpp"@));
            assert("clap-wrapper/src/wrapasvst3_entry.cpp"@[17] != "clap-wrapper/src/detail/auv2/"@[17]);

        } else if i == 22 {
            reveal_strlit("clap-wrapper/src/detail/vst3/parameter.cpp");
            assert(vst3_plan_view(TargetOs::Windows, debug, verbose).sources[22] == file_in_crate("clap-wrapper/src/detail/vst3/parameter.cpp"@));
            assert("clap-wrapper/src/detail/vst3/parameter.cpp"@[24] != "clap-wrapper/src/detail/auv2/"@[24]);

        } else if i == 23 {
            reveal_strlit("clap-wrapper/src/detail/vst3/plugview.cpp");
            assert(vst3_plan_view(TargetOs::Windows, debug, verbose).sources[23] == file_in_crate("clap-wrapper/src/detail/vst3/plugview.cpp"@));
            assert("clap-wrapper/src/detail/vst3/plugview.cpp"@[24] != "clap-wrapper/src/detail/auv2/"@[24]);

        } else if i == 24 {
            reveal_strlit("clap-wrapper/src/detail/vst3/process.cpp");
            assert(vst3_plan_view(TargetOs::Windows, debug, verbose).sources[24] == file_in_crate("clap-wrapper/src/detail/vst3/process.cpp"@));
            assert("clap-wrapper/src/detail/vst3/process.cpp"@[24] != "clap-wrapper/src/detail/auv2/"@[24]);

        } else if i == 25 {
            reveal_strlit("clap-wrapper/src/detail/vst3/categories.cpp");
            assert(vst3_plan_view(TargetOs::Windows, debug, verbose).sources[25] == file_in_crate("clap-wrapper/src/detail/vst3/categories.cpp"@));
            assert("clap-wrapper/src/detail/vst3/categories.cpp"@[24] != "clap-wrapper/src/detail/auv2/"@[24]);

        } else if i == 27 {
            reveal_strlit("clap-wrapper/src/detail/os/windows.cpp");
            assert(vst3_plan_view(TargetOs::Windows, debug, verbose).sources[27] == file_in_crate("clap-wrapper/src/detail/os/windows.cpp"@));
            assert("clap-wrapper/src/detail/os/windows.cpp"@[24] != "clap-wrapper/src/detail/auv2/"@[24]);

        }
    }
}

#[verifier::spinoff_prover]
#[verifier::rlimit(60)]
proof fn lemma_vst3_no_auv2_files_linux(debug: bool, verbose: bool)
    ensures
        forall|i: int| 0 <= i < vst3_plan_view(TargetOs::Linux, debug, verbose).sources.len() ==> !names_crate_file_under(#[trigger] vst3_plan_view(TargetOs::Linux, debug, verbose).sources[i], "clap-wrapper/src/detail/auv2/"@),
{
    reveal_strlit("clap-wrapper/src/detail/auv2/");
    assert(vst3_plan_view(TargetOs::Linux, debug, verbose).sources.len() == 28);
    assert forall|i: int| 0 <= i < vst3_plan_view(TargetOs::Linux, debug, verbose).sources.len() implies !names_crate_file_under(#[trigger] vst3_plan_view(TargetOs::Linux, debug, verbose).sources[i], "clap-wrapper/src/detail/auv2/"@) by {
        if i == 16 {
            reveal_strlit("clap-wrapper/src/clap_proxy.cpp");
            assert(vst3_plan_view(TargetOs::Linux, debug, verbose).sources[16] == file_in_crate("clap-wrapper/src/clap_proxy.cpp"@));
            assert("clap-wrapper/src/clap_proxy.cpp"@[17] != "clap-wrapper/src/detail/auv2/"@[17]);

        } else if i == 17 {
            reveal_strlit("clap-wrapper/src/detail/clap/fsutil.cpp");
            assert(vst3_plan_view(TargetOs::Linux, debug, verbose).sources[17] == file_in_crate("clap-wrapper/src/detail/clap/fsutil.cpp"@));
            assert("clap-wrapper/src/detail/clap/fsutil.cpp"@[24] != "clap-wrapper/src/detail/auv2/"@[24]);

        } else if i == 18 {
            reveal_strlit("clap-wrapper/src/detail/shared/sha1.cpp");
            assert(vst3_plan_view(TargetOs::Linux, debug, verbose).sources[18] == file_in_crate("clap-wrapper/src/detail/shared/sha1.cpp"@));
            assert("clap-wrapper/src/detail/shared/sha1.cpp"@[24] != "clap-wrapper/src/detail/auv2/"@[24]);

        } else if i == 19 {
            reveal_strlit("clap-wrapper/src/wrapasvst3_export_entry.cpp");
            assert(vst3_plan_view(TargetOs::Linux, debug, verbose).sources[19] == file_in_crate("clap-wrapper/src/wrapasvst3_export_entry.cpp"@));
            assert("clap-wrapper/src/wrapasvst3_export_entry.cpp"@[17] != "clap-wrapper/src/detail/auv2/"@[17]);

        } else if i == 20 {
            reveal_strlit("clap-wrapper/src/wrapasvst3.cpp");
            assert(vst3_plan_view(TargetOs::Linux, debug, verbose).sources[20] == file_in_crate("clap-wrapper/src/wrapasvst3.cpp"@));
            assert("clap-wrapper/src/wrapasvst3.cpp"@[17] != "clap-wrapper/src/detail/auv2/"@[17]);

        } else if i == 21 {
            reveal_strlit("clap-wrapper/src/wrapasvst3_entry.cpp");
            assert(vst3_plan_view(TargetOs::Linux, debug, verbose).sources[21] == file_in_crate("clap-wrapper/src/wrapasvst3_entry.cpp"@));
            assert("clap-wrapper/src/wrapasvst3_entry.cpp"@[17] != "clap-wrapper/src/detail/auv2/"@[17]);

        } else if i == 22 {
            reveal_strlit("clap-wrapper/src/detail/vst3/parameter.cpp");
            assert(vst3_plan_view(TargetOs::Linux, debug, verbose).sources[22] == file_in_crate("clap-wrapper/src/detail/vst3/parameter.cpp"@));
            assert("clap-wrapper/src/detail/vst3/parameter.cpp"@[24] != "clap-wrapper/src/detail/auv2/"@[24]);

        } else if i == 23 {
            reveal_strlit("clap-wrapper/src/detail/vst3/plugview.cpp");
            assert(vst3_plan_view(TargetOs::Linux, debug, verbose).sources[23] == file_in_crate("clap-wrapper/src/detail/vst3/plugview.cpp"@));
            assert("clap-wrapper/src/detail/vst3/plugview.cpp"@[24] != "clap-wrapper/src/detail/auv2/"@[24]);

        } else if i == 24 {
            reveal_strlit("clap-wrapper/src/detail/vst3/process.cpp");
            assert(vst3_plan_view(TargetOs::Linux, debug, verbose).sources[24] == file_in_crate("clap-wrapper/src/detail/vst3/process.cpp"@));
            assert("clap-wrapper/src/detail/vst3/process.cpp"@[24] != "clap-wrapper/src/detail/auv2/"@[24]);

        } else if i == 25 {
            reveal_strlit("clap-wrapper/src/detail/vst3/categories.cpp");
            assert(vst3_plan_view(TargetOs::Linux, debug, verbose).sources[25] == file_in_crate("clap-wrapper/src/detail/vst3/categories.cpp"@));
            assert("clap-wrapper/src/detail/vst3/categories.cpp"@[24] != "clap-wrapper/src/detail/auv2/"@[24]);

        } else if i == 27 {
            reveal_strlit("clap-wrapper/src/detail/os/linux.cpp");
            assert(vst3_plan_view(TargetOs::Linux, debug, verbose).sources[27] == file_in_crate("clap-wrapper/src/detail/os/linux.cpp"@));
            assert("clap-wrapper/src/detail/os/linux.cpp"@[24] != "clap-wrapper/src/detail/auv2/"@[24]);

        }
    }
}

/// Both VST3 builds compile, for each system, the SDK file that defines that system's module
/// entry points (`macmain.cpp`, `dllmain.cpp` or `linuxmain.cpp`) and the wrapper's support
/// file for that system.
pub proof fn law_vst3_compiles_system_files(os: TargetOs, debug: bool, verbose: bool)
    ensures
        vst3_plan_view(os, debug, verbose).sources.contains(file_in_sdk(sdk_system_file(os))),
        vst3_plan_view(os, debug, verbose).sources.contains(file_in_crate(wrapper_system_file(os))),
        bundled_vst3_plan_view(os, debug).sources.contains(
            bundled_source(file_in_sdk(sdk_system_file(os)), "./external/vst3sdk/"@),
        ),
        bundled_vst3_plan_view(os, debug).sources.contains(
            bundled_source(file_in_crate(wrapper_system_file(os)), "./external/vst3sdk/"@),
        ),
{
    let r = vst3_plan_view(os, debug, verbose).sources;
    assert(r[26] == file_in_sdk(sdk_system_file(os)));
    assert(r[27] == file_in_crate(wrapper_system_file(os)));
    law_vst3_builds_compile_same_sources(os, debug, verbose);
    assert(bundled_vst3_plan_view(os, debug).sources.contains(
        bundled_source(r[26], "./external/vst3sdk/"@),
    ));
    assert(bundled_vst3_plan_view(os, debug).sources.contains(
        bundled_source(r[27], "./external/vst3sdk/"@),
    ));
}

/// On macOS both VST3 builds link the CoreFoundation and Foundation frameworks, and on every
/// system but Windows (where the bundled crate adds the Windows libraries) both VST3 builds
/// link the same libraries.
pub proof fn law_vst3_link_libs(os: TargetOs, debug: bool, verbose: bool)
    ensures
        os != TargetOs::Windows ==> bundled_vst3_plan_view(os, debug).link_libs == vst3_plan_view(
            os,
            debug,
            verbose,
        ).link_libs,
        os == TargetOs::MacOs ==> vst3_plan_view(os, debug, verbose).link_libs.contains(
            "framework=CoreFoundation"@,
        ),
        os == TargetOs::MacOs ==> vst3_plan_view(os, debug, verbose).link_libs.contains(
            "framework=Foundation"@,
        ),
        os == TargetOs::MacOs ==> bundled_vst3_plan_view(os, debug).link_libs.contains(
            "framework=Foundation"@,
        ),
{
    if os == TargetOs::MacOs {
        assert(vst3_plan_view(os, debug, verbose).link_libs[0] == "framework=CoreFoundation"@);
        assert(vst3_plan_view(os, debug, verbose).link_libs[1] == "framework=Foundation"@);
        assert(bundled_vst3_plan_view(os, debug).link_libs[1] == "framework=Foundation"@);
    }
}

/// The AUv2 builds compile the AUv2 wrapper and nothing of the VST3 one: the AUv2 parameter
/// and processing files are among their sources, and no file under
/// `clap-wrapper/src/detail/vst3/` is; likewise the VST3 build against an SDK path compiles
/// no file under `clap-wrapper/src/detail/auv2/`.
pub proof fn law_wrappers_compile_their_own_files(os: TargetOs, debug: bool, verbose: bool)
    ensures
        auv2_plan_view(debug, verbose).sources.contains(
            file_in_crate("clap-wrapper/src/detail/auv2/parameter.cpp"@),
        ),
        auv2_plan_view(debug, verbose).sources.contains(
            file_in_crate("clap-wrapper/src/detail/auv2/process.cpp"@),
        ),
        bundled_auv2_plan_view(debug).sources.contains(
            file_in_crate("./external/clap-wrapper/src/detail/auv2/parameter.cpp"@),
        ),
        bundled_auv2_plan_view(debug).sources.contains(
            file_in_crate("./external/clap-wrapper/src/detail/auv2/process.cpp"@),
        ),
        forall|i: int| 0 <= i < auv2_plan_view(debug, verbose).sources.len()
            ==> !names_crate_file_under(
            #[trigger] auv2_plan_view(debug, verbose).sources[i],
            "clap-wrapper/src/detail/vst3/"@,
        ),
        forall|i: int| 0 <= i < bundled_auv2_plan_view(debug).sources.len()
            ==> !names_crate_file_under(
            #[trigger] bundled_auv2_plan_view(debug).sources[i],
            "./external/clap-wrapper/src/detail/vst3/"@,
        ),
        forall|i: int| 0 <= i < vst3_plan_view(os, debug, verbose).sources.len()
            ==> !names_crate_file_under(
            #[trigger] vst3_plan_view(os, debug, verbose).sources[i],
            "clap-wrapper/src/detail/auv2/"@,
        ),
{
    assert(auv2_plan_view(debug, verbose).sources[19] == file_in_crate(
        "clap-wrapper/src/detail/auv2/parameter.cpp"@,
    ));
    assert(auv2_plan_view(debug, verbose).sources[17] == file_in_crate(
        "clap-wrapper/src/detail/auv2/process.cpp"@,
    ));
    assert(bundled_auv2_plan_view(debug).sources[19] == file_in_crate(
        "./external/clap-wrapper/src/detail/auv2/parameter.cpp"@,
    ));
    assert(bundled_auv2_plan_view(debug).sources[17] == file_in_crate(
        "./external/clap-wrapper/src/detail/auv2/process.cpp"@,
    ));
    lemma_auv2_no_vst3_files(debug, verbose);
    lemma_bundled_auv2_no_vst3_files(debug);
    match os {
        TargetOs::MacOs => lemma_vst3_no_auv2_files_macos(debug, verbose),
        TargetOs::Windows => lemma_vst3_no_auv2_files_windows(debug, verbose),
        TargetOs::Linux => lemma_vst3_no_auv2_files_linux(debug, verbose),
    }
}

/// The bundled VST3 crate searches every include directory of the VST3 build against an SDK
/// path (the crate's under `./external/`, the SDK's under `./external/vst3sdk/`, the SDK root
/// as `./external/vst3sdk`), and the build against an SDK path searches the SDK root and its
/// `public.sdk` and `pluginterfaces` directories.
pub proof fn law_vst3_includes(os: TargetOs, debug: bool, verbose: bool)
    ensures
        forall|i: int| 0 <= i < vst3_plan_view(os, debug, verbose).includes.len()
            && vst3_plan_view(os, debug, verbose).includes[i] != LocView::SdkRoot
            ==> bundled_vst3_plan_view(os, debug).includes.contains(
            #[trigger] bundled_loc(vst3_plan_view(os, debug, verbose).includes[i], "./external/vst3sdk/"@),
        ),
        vst3_plan_view(os, debug, verbose).includes.contains(LocView::SdkRoot),
        vst3_plan_view(os, debug, verbose).includes.contains(LocView::InSdk("public.sdk"@)),
        vst3_plan_view(os, debug, verbose).includes.contains(LocView::InSdk("pluginterfaces"@)),
        bundled_vst3_plan_view(os, debug).includes.contains(LocView::Crate("./external/vst3sdk"@)),
{
    let r = vst3_plan_view(os, debug, verbose).includes;
    let b = bundled_vst3_plan_view(os, debug).includes;
    assert(r.len() == 7);
    assert(r[4] == LocView::SdkRoot);
    assert(r[5] == LocView::InSdk("public.sdk"@));
    assert(r[6] == LocView::InSdk("pluginterfaces"@));
    assert(b[5] == LocView::Crate("./external/vst3sdk"@));
    assert forall|i: int| 0 <= i < r.len() && r[i] != LocView::SdkRoot
        implies b.contains(#[trigger] bundled_loc(r[i], "./external/vst3sdk/"@)) by {
        if i == 0 {
            reveal_strlit("./external/");
            reveal_strlit("clap/include");
            reveal_strlit("./external/clap/include");
            assert("./external/"@ + "clap/include"@ =~= "./external/clap/include"@);
            assert(b[0] == bundled_loc(r[0], "./external/vst3sdk/"@));
        } else if i == 1 {
            reveal_strlit("./external/");
            reveal_strlit("clap-wrapper/include");
            reveal_strlit("./external/clap-wrapper/include");
            assert("./external/"@ + "clap-wrapper/include"@ =~= "./external/clap-wrapper/include"@);
            assert(b[1] == bundled_loc(r[1], "./external/vst3sdk/"@));
        } else if i == 2 {
            reveal_strlit("./external/");
            reveal_strlit("clap-wrapper/libs/fmt");
            reveal_strlit("./external/clap-wrapper/libs/fmt");
            assert("./external/"@ + "clap-wrapper/libs/fmt"@ =~= "./external/clap-wrapper/libs/fmt"@);
            assert(b[2] == bundled_loc(r[2], "./external/vst3sdk/"@));
        } else if i == 3 {
            reveal_strlit("./external/");
            reveal_strlit("clap-wrapper/src");
            reveal_strlit("./external/clap-wrapper/src");
            assert("./external/"@ + "clap-wrapper/src"@ =~= "./external/clap-wrapper/src"@);
            assert(b[4] == bundled_loc(r[3], "./external/vst3sdk/"@));
        } else if i == 5 {
            reveal_strlit("./external/vst3sdk/");
            reveal_strlit("public.sdk");
            reveal_strlit("./external/vst3sdk/public.sdk");
            assert("./external/vst3sdk/"@ + "public.sdk"@ =~= "./external/vst3sdk/public.sdk"@);
            assert(b[6] == bundled_loc(r[5], "./external/vst3sdk/"@));
        } else if i == 6 {
            reveal_strlit("./external/vst3sdk/");
            reveal_strlit("pluginterfaces");
            reveal_strlit("./external/vst3sdk/pluginterfaces");
            assert("./external/vst3sdk/"@ + "pluginterfaces"@ =~= "./external/vst3sdk/pluginterfaces"@);
            assert(b[7] == bundled_loc(r[6], "./external/vst3sdk/"@));
        }
    }
}

/// The AUv2 builds search the Audio Unit SDK's `include` directory and the wrapper's own
/// `src/cpp` helpers.
pub proof fn law_auv2_includes(debug: bool, verbose: bool)
    ensures
        auv2_plan_view(debug, verbose).includes.contains(LocView::InSdk("include"@)),
        auv2_plan_view(debug, verbose).includes.contains(LocView::Crate("src/cpp"@)),
        bundled_auv2_plan_view(debug).includes.contains(
            LocView::Crate("./external/AudioUnitSDK/include"@),
        ),
        bundled_auv2_plan_view(debug).includes.contains(LocView::Crate("./src/cpp"@)),
{
    assert(auv2_plan_view(debug, verbose).includes[5] == LocView::InSdk("include"@));
    assert(auv2_plan_view(debug, verbose).includes[0] == LocView::Crate("src/cpp"@));
    assert(bundled_auv2_plan_view(debug).includes[5] == LocView::Crate(
        "./external/AudioUnitSDK/include"@,
    ));
    assert(bundled_auv2_plan_view(debug).includes[0] == LocView::Crate("./src/cpp"@));
}

/// Each build selects its wrapper by its definitions: all of them name the wrapper version
/// `"0.11.0"` and the statically linked CLAP entry; the VST3 builds define
/// `CLAP_WRAPPER_BUILD_FOR_VST3`, the AUv2 builds `CLAP_WRAPPER_BUILD_AUV2`, the dictionary
/// stream format and `MAC`.
pub proof fn law_build_definitions(os: TargetOs, debug: bool, verbose: bool)
    ensures
        vst3_plan_view(os, debug, verbose).defines.contains(define_value("CLAP_WRAPPER_VERSION"@, "\"0.11.0\""@)),
        vst3_plan_view(os, debug, verbose).defines.contains(define_value("CLAP_WRAPPER_BUILD_FOR_VST3"@, "1"@)),
        vst3_plan_view(os, debug, verbose).defines.contains(define_value("STATICALLY_LINKED_CLAP_ENTRY"@, "1"@)),
        bundled_vst3_plan_view(os, debug).defines.contains(define_value("CLAP_WRAPPER_VERSION"@, "\"0.11.0\""@)),
        bundled_vst3_plan_view(os, debug).defines.contains(define_value("CLAP_WRAPPER_BUILD_FOR_VST3"@, "1"@)),
        bundled_vst3_plan_view(os, debug).defines.contains(define_value("STATICALLY_LINKED_CLAP_ENTRY"@, "1"@)),
        auv2_plan_view(debug, verbose).defines.contains(define_value("CLAP_WRAPPER_VERSION"@, "\"0.11.0\""@)),
        auv2_plan_view(debug, verbose).defines.contains(define_value("CLAP_WRAPPER_BUILD_AUV2"@, "1"@)),
        auv2_plan_view(debug, verbose).defines.contains(define_value("STATICALLY_LINKED_CLAP_ENTRY"@, "1"@)),
        auv2_plan_view(debug, verbose).defines.contains(define_value("DICTIONARY_STREAM_FORMAT_WRAPPER"@, "1"@)),
        auv2_plan_view(debug, verbose).defines.contains(define_flag("MAC"@)),
        bundled_auv2_plan_view(debug).defines.contains(define_value("CLAP_WRAPPER_VERSION"@, "\"0.11.0\""@)),
        bundled_auv2_plan_view(debug).defines.contains(define_value("CLAP_WRAPPER_BUILD_AUV2"@, "1"@)),
        bundled_auv2_plan_view(debug).defines.contains(define_value("STATICALLY_LINKED_CLAP_ENTRY"@, "1"@)),
        bundled_auv2_plan_view(debug).defines.contains(define_value("DICTIONARY_STREAM_FORMAT_WRAPPER"@, "1"@)),
        bundled_auv2_plan_view(debug).defines.contains(define_flag("MAC"@)),
{
    let v = vst3_plan_view(os, debug, verbose).defines;
    let bv = bundled_vst3_plan_view(os, debug).defines;
    let a = auv2_plan_view(debug, verbose).defines;
    let ba = bundled_auv2_plan_view(debug).defines;
    assert(v[0] == define_value("CLAP_WRAPPER_VERSION"@, "\"0.11.0\""@));
    assert(v[1] == define_value("CLAP_WRAPPER_BUILD_FOR_VST3"@, "1"@));
    assert(v[2] == define_value("STATICALLY_LINKED_CLAP_ENTRY"@, "1"@));
    assert(bv[0] == define_value("CLAP_WRAPPER_VERSION"@, "\"0.11.0\""@));
    assert(bv[1] == define_value("CLAP_WRAPPER_BUILD_FOR_VST3"@, "1"@));
    assert(bv[2] == define_value("STATICALLY_LINKED_CLAP_ENTRY"@, "1"@));
    assert(a[0] == define_value("CLAP_WRAPPER_VERSION"@, "\"0.11.0\""@));
    assert(a[1] == define_value("CLAP_WRAPPER_BUILD_AUV2"@, "1"@));
    assert(a[2] == define_value("STATICALLY_LINKED_CLAP_ENTRY"@, "1"@));
    assert(a[3] == define_value("DICTIONARY_STREAM_FORMAT_WRAPPER"@, "1"@));
    assert(a[5] == define_flag("MAC"@));
    assert(ba[0] == define_value("CLAP_WRAPPER_VERSION"@, "\"0.11.0\""@));
    assert(ba[1] == define_value("CLAP_WRAPPER_BUILD_AUV2"@, "1"@));
    assert(ba[2] == define_value("STATICALLY_LINKED_CLAP_ENTRY"@, "1"@));
    assert(ba[3] == define_value("DICTIONARY_STREAM_FORMAT_WRAPPER"@, "1"@));
    assert(ba[5] == define_flag("MAC"@));
}

/// The frameworks that an Audio Unit links.
pub open spec fn auv2_frameworks() -> Seq<Seq<char>> {
    seq![
        "framework=Foundation"@,
        "framework=CoreFoundation"@,
        "framework=AudioToolbox"@,
        "framework=CoreMIDI"@,
        "framework=AppKit"@,
    ]
}

/// The VST3 builds compile C++17 and ask MSVC for UTF-8 sources and standard exception
/// handling; the AUv2 builds compile C++20 without `char8_t`; both AUv2 builds link the
/// Foundation, CoreFoundation, AudioToolbox, CoreMIDI and AppKit frameworks.
pub proof fn law_compiler_settings(os: TargetOs, debug: bool, verbose: bool)
    ensures
        vst3_plan_view(os, debug, verbose).std == "c++17"@,
        bundled_vst3_plan_view(os, debug).std == "c++17"@,
        auv2_plan_view(debug, verbose).std == "c++20"@,
        bundled_auv2_plan_view(debug).std == "c++20"@,
        vst3_plan_view(os, debug, verbose).flags_if_supported.contains("/utf-8"@),
        vst3_plan_view(os, debug, verbose).flags_if_supported.contains("/EHsc"@),
        bundled_vst3_plan_view(os, debug).flags_if_supported.contains("/utf-8"@),
        bundled_vst3_plan_view(os, debug).flags_if_supported.contains("/EHsc"@),
        auv2_plan_view(debug, verbose).flags_if_supported.contains("-fno-char8_t"@),
        bundled_auv2_plan_view(debug).flags_if_supported.contains("-fno-char8_t"@),
        forall|lib: Seq<char>| auv2_frameworks().contains(lib)
            ==> #[trigger] auv2_plan_view(debug, verbose).link_libs.contains(lib)
            && bundled_auv2_plan_view(debug).link_libs.contains(lib),
{
    assert(vst3_plan_view(os, debug, verbose).flags_if_supported[0] == "/utf-8"@);
    assert(vst3_plan_view(os, debug, verbose).flags_if_supported[1] == "/EHsc"@);
    assert(bundled_vst3_plan_view(os, debug).flags_if_supported[0] == "/utf-8"@);
    assert(bundled_vst3_plan_view(os, debug).flags_if_supported[1] == "/EHsc"@);
    assert(auv2_plan_view(debug, verbose).flags_if_supported[0] == "-fno-char8_t"@);
    assert(bundled_auv2_plan_view(debug).flags_if_supported[0] == "-fno-char8_t"@);
    let l = auv2_plan_view(debug, verbose).link_libs;
    let bl = bundled_auv2_plan_view(debug).link_libs;
    assert forall|lib: Seq<char>| auv2_frameworks().contains(lib) implies #[trigger] l.contains(lib)
        && bl.contains(lib) by {
        let k = choose|k: int| 0 <= k < auv2_frameworks().len() && auv2_frameworks()[k] == lib;
        assert(l[k] == lib);
        assert(bl[k] == lib);
    }
}

} // verus!
