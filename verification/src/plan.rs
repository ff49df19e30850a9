//! What a compilation of the C++ wrapper consists of: the compiler settings, include
//! directories, preprocessor definitions, source files and link requests.
use vstd::prelude::*;

use crate::text::str_eq;

verus! {

/// The views of the elements of a sequence, in order.
pub open spec fn views<T: View>(s: Seq<T>) -> Seq<T::V> {
    s.map_values(|x: T| x@)
}

/// Appends `x` to `v`; the views follow.
pub fn push_view<T: View>(v: &mut Vec<T>, x: T)
    ensures
        views(final(v)@) == views(old(v)@).push(x@),
{
    let ghost before = views(v@);
    let ghost xv = x@;
    v.push(x);
    proof {
        assert(views(v@) =~= before.push(xv));
    }
}

/// A path named by the build: relative to the crate's own directory, the root of the SDK, or
/// relative to the root of the SDK.
pub enum Loc {
    Crate(String),
    SdkRoot,
    InSdk(String),
}

pub enum LocView {
    Crate(Seq<char>),
    SdkRoot,
    InSdk(Seq<char>),
}

impl View for Loc {
    type V = LocView;

    open spec fn view(&self) -> LocView {
        match self {
            Loc::Crate(p) => LocView::Crate(p@),
            Loc::SdkRoot => LocView::SdkRoot,
            Loc::InSdk(p) => LocView::InSdk(p@),
        }
    }
}

/// Sources to compile: one file, or every file with the given extension below a directory
/// (found by a walk of the directory tree, see `walk`).
pub enum Source {
    File(Loc),
    Tree(Loc, String),
}

pub enum SourceView {
    File(LocView),
    Tree(LocView, Seq<char>),
}

impl View for Source {
    type V = SourceView;

    open spec fn view(&self) -> SourceView {
        match self {
            Source::File(l) => SourceView::File(l@),
            Source::Tree(l, ext) => SourceView::Tree(l@, ext@),
        }
    }
}

/// A preprocessor definition, with or without a value.
pub struct Define {
    pub name: String,
    pub value: Option<String>,
}

pub struct DefineView {
    pub name: Seq<char>,
    pub value: Option<Seq<char>>,
}

impl View for Define {
    type V = DefineView;

    open spec fn view(&self) -> DefineView {
        DefineView {
            name: self.name@,
            value: match self.value {
                Some(v) => Some(v@),
                None => None,
            },
        }
    }
}

/// One compilation of the wrapper into a static library.
pub struct CompilePlan {
    /// The C++ standard passed to the compiler.
    pub std: String,
    /// Flags passed where the compiler accepts them.
    pub flags_if_supported: Vec<String>,
    /// Include directories, in order.
    pub includes: Vec<Loc>,
    /// Preprocessor definitions, in order.
    pub defines: Vec<Define>,
    /// Sources, in order.
    pub sources: Vec<Source>,
    /// Libraries to link the final artifact against (`cargo:rustc-link-lib=` values).
    pub link_libs: Vec<String>,
    /// Whether compiler warnings are silenced.
    pub quiet: bool,
    /// The name of the static library produced.
    pub lib_name: String,
    /// The configuration flag set once the library is built (`cargo:rustc-cfg=` value).
    pub cfg: String,
}

pub struct PlanView {
    pub std: Seq<char>,
    pub flags_if_supported: Seq<Seq<char>>,
    pub includes: Seq<LocView>,
    pub defines: Seq<DefineView>,
    pub sources: Seq<SourceView>,
    pub link_libs: Seq<Seq<char>>,
    pub quiet: bool,
    pub lib_name: Seq<char>,
    pub cfg: Seq<char>,
}

impl View for CompilePlan {
    type V = PlanView;

    open spec fn view(&self) -> PlanView {
        PlanView {
            std: self.std@,
            flags_if_supported: views(self.flags_if_supported@),
            includes: views(self.includes@),
            defines: views(self.defines@),
            sources: views(self.sources@),
            link_libs: views(self.link_libs@),
            quiet: self.quiet,
            lib_name: self.lib_name@,
            cfg: self.cfg@,
        }
    }
}

/// The operating systems that the wrapper supports.
#[derive(Clone, Copy, PartialEq, Eq, Structural, Debug)]
pub enum TargetOs {
    MacOs,
    Windows,
    Linux,
}

/// The supported system that Cargo names `os` (`CARGO_CFG_TARGET_OS`), if any.
pub open spec fn os_of(os: Seq<char>) -> Option<TargetOs> {
    if os == "macos"@ {
        Some(TargetOs::MacOs)
    } else if os == "windows"@ {
        Some(TargetOs::Windows)
    } else if os == "linux"@ {
        Some(TargetOs::Linux)
    } else {
        None
    }
}

/// Recognises the name of a supported operating system.
pub fn parse_os(os: &str) -> (r: Option<TargetOs>)
    ensures
        r == os_of(os@),
{
    if str_eq(os, "macos") {
        Some(TargetOs::MacOs)
    } else if str_eq(os, "windows") {
        Some(TargetOs::Windows)
    } else if str_eq(os, "linux") {
        Some(TargetOs::Linux)
    } else {
        None
    }
}

/// Why no plan could be made.
pub enum PlanError {
    /// The SDK path that the environment gives for a format is not a directory.
    InvalidSdkPath { format: crate::cache::WrapperFormat, path: String },
    /// The target system is none of the supported ones.
    UnsupportedOs(String),
}

/// A file relative to the crate.
pub open spec fn file_in_crate(p: Seq<char>) -> SourceView {
    SourceView::File(LocView::Crate(p))
}

/// A file relative to the SDK.
pub open spec fn file_in_sdk(p: Seq<char>) -> SourceView {
    SourceView::File(LocView::InSdk(p))
}

/// The `.cpp` files below a directory of the crate.
pub open spec fn cpp_tree_in_crate(p: Seq<char>) -> SourceView {
    SourceView::Tree(LocView::Crate(p), "cpp"@)
}

/// The `.cpp` files below a directory of the SDK.
pub open spec fn cpp_tree_in_sdk(p: Seq<char>) -> SourceView {
    SourceView::Tree(LocView::InSdk(p), "cpp"@)
}

/// A definition with a value.
pub open spec fn define_value(name: Seq<char>, value: Seq<char>) -> DefineView {
    DefineView { name, value: Some(value) }
}

/// A definition without a value.
pub open spec fn define_flag(name: Seq<char>) -> DefineView {
    DefineView { name, value: None }
}

/// The definition that selects the configuration of the build: `DEVELOPMENT=1` for a debug
/// build, `RELEASE=1` otherwise.
pub open spec fn mode_define(debug: bool) -> DefineView {
    if debug {
        define_value("DEVELOPMENT"@, "1"@)
    } else {
        define_value("RELEASE"@, "1"@)
    }
}

/// The prefix under which the compiled wrapper exports its entry points.
pub open spec fn renamed_prefix() -> Seq<char> {
    "clap_wrapper_"@
}

/// The definition that renames the C symbol `sym` to `clap_wrapper_<sym>`.
pub open spec fn entry_rename(sym: Seq<char>) -> DefineView {
    DefineView { name: sym, value: Some(renamed_prefix() + sym) }
}

/// The VST3 entry points that the library exports on behalf of the compiled wrapper.
pub open spec fn vst3_entry_points() -> Seq<Seq<char>> {
    seq![
        "GetPluginFactory"@,
        "ModuleEntry"@,
        "ModuleExit"@,
        "InitDll"@,
        "ExitDll"@,
        "bundleEntry"@,
        "bundleExit"@,
    ]
}

/// The renaming definitions of all VST3 entry points, in order.
pub open spec fn entry_renames() -> Seq<DefineView> {
    vst3_entry_points().map_values(|sym: Seq<char>| entry_rename(sym))
}

pub fn new_string(s: &str) -> (r: String)
    ensures
        r@ == s@,
{
    String::from_str(s)
}

pub fn new_file_in_crate(p: &str) -> (r: Source)
    ensures
        r@ == file_in_crate(p@),
{
    Source::File(Loc::Crate(String::from_str(p)))
}

pub fn new_file_in_sdk(p: &str) -> (r: Source)
    ensures
        r@ == file_in_sdk(p@),
{
    Source::File(Loc::InSdk(String::from_str(p)))
}

pub fn new_cpp_tree_in_crate(p: &str) -> (r: Source)
    ensures
        r@ == cpp_tree_in_crate(p@),
{
    Source::Tree(Loc::Crate(String::from_str(p)), String::from_str("cpp"))
}

pub fn new_cpp_tree_in_sdk(p: &str) -> (r: Source)
    ensures
        r@ == cpp_tree_in_sdk(p@),
{
    Source::Tree(Loc::InSdk(String::from_str(p)), String::from_str("cpp"))
}

pub fn new_crate_dir(p: &str) -> (r: Loc)
    ensures
        r@ == LocView::Crate(p@),
{
    Loc::Crate(String::from_str(p))
}

pub fn new_sdk_dir(p: &str) -> (r: Loc)
    ensures
        r@ == LocView::InSdk(p@),
{
    Loc::InSdk(String::from_str(p))
}

pub fn new_define_value(name: &str, value: &str) -> (r: Define)
    ensures
        r@ == define_value(name@, value@),
{
    Define { name: String::from_str(name), value: Some(String::from_str(value)) }
}

pub fn new_define_flag(name: &str) -> (r: Define)
    ensures
        r@ == define_flag(name@),
{
    Define { name: String::from_str(name), value: None }
}

/// The definition that selects the configuration of the build.
pub fn new_mode_define(debug: bool) -> (r: Define)
    ensures
        r@ == mode_define(debug),
{
    if debug {
        new_define_value("DEVELOPMENT", "1")
    } else {
        new_define_value("RELEASE", "1")
    }
}

/// The definition that renames the C symbol `sym` to `clap_wrapper_<sym>`.
pub fn new_entry_rename(sym: &str) -> (r: Define)
    ensures
        r@ == entry_rename(sym@),
{
    Define {
        name: String::from_str(sym),
        value: Some(String::from_str("clap_wrapper_").concat(sym)),
    }
}

/// Appends the renaming definitions of all VST3 entry points.
pub fn push_entry_renames(v: &mut Vec<Define>)
    ensures
        views(final(v)@) == views(old(v)@) + entry_renames(),
{
    let ghost start = views(v@);
    push_view(v, new_entry_rename("GetPluginFactory"));
    push_view(v, new_entry_rename("ModuleEntry"));
    push_view(v, new_entry_rename("ModuleExit"));
    push_view(v, new_entry_rename("InitDll"));
    push_view(v, new_entry_rename("ExitDll"));
    push_view(v, new_entry_rename("bundleEntry"));
    push_view(v, new_entry_rename("bundleExit"));
    proof {
        assert(views(v@) =~= start + entry_renames());
    }
}

} // verus!
