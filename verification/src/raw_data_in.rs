//! Project configuration as it was written, before it is resolved.

use crate::text::strings_of;
use vstd::prelude::*;

verus! {

/// The kinds of build output.
#[derive(Clone, Copy, Debug, PartialEq, Eq, Hash, Structural)]
pub enum OutputItemType {
    Executable,
    CompiledLib,
    StaticLib,
    SharedLib,
    HeaderOnlyLib,
}

/// The links of one output, as written: one list, or lists under `public` and `private`.
#[derive(Clone, Debug)]
pub enum LinkSection {
    Uncategorized(Vec<String>),
    PublicPrivateCategorized { public: Option<Vec<String>>, private: Option<Vec<String>> },
}

/// The mathematical form of a `LinkSection`.
pub ghost enum LinkSectionModel {
    Uncategorized(Seq<Seq<char>>),
    PublicPrivateCategorized { public: Option<Seq<Seq<char>>>, private: Option<Seq<Seq<char>>> },
}

/// The views of an optional list of strings.
pub open spec fn maybe_strings_of(list: Option<Vec<String>>) -> Option<Seq<Seq<char>>> {
    match list {
        Some(items) => Some(strings_of(items@)),
        None => None,
    }
}

impl View for LinkSection {
    type V = LinkSectionModel;

    open spec fn view(&self) -> LinkSectionModel {
        match self {
            Self::Uncategorized(links) => LinkSectionModel::Uncategorized(strings_of(links@)),
            Self::PublicPrivateCategorized { public, private } =>
                LinkSectionModel::PublicPrivateCategorized {
                    public: maybe_strings_of(*public),
                    private: maybe_strings_of(*private),
                },
        }
    }
}

/// The build types of a whole project.
#[derive(Clone, Copy, Debug, PartialEq, Eq, Hash, Structural)]
pub enum BuildType {
    Debug,
    Release,
    MinSizeRel,
    RelWithDebInfo,
}

/// The build types that one output can configure: all of them at once, or one.
#[derive(Clone, Copy, Debug, PartialEq, Eq, Hash, Structural)]
pub enum TargetSpecificBuildType {
    AllConfigs,
    Debug,
    Release,
    MinSizeRel,
    RelWithDebInfo,
}

/// The compilers that a build configuration can address.
#[derive(Clone, Copy, Debug, PartialEq, Eq, Hash, Structural)]
pub enum BuildConfigCompilerSpecifier {
    AllCompilers,
    GCC,
    Clang,
    MSVC,
    Emscripten,
}

/// The flags and defines of one build type and compiler, as written.
#[derive(Clone, Debug)]
pub struct RawBuildConfig {
    pub compiler_flags: Option<Vec<String>>,
    pub link_time_flags: Option<Vec<String>>,
    pub linker_flags: Option<Vec<String>>,
    pub defines: Option<Vec<String>>,
}

/// The mathematical form of a `RawBuildConfig`.
pub ghost struct RawBuildConfigModel {
    pub compiler_flags: Option<Seq<Seq<char>>>,
    pub link_time_flags: Option<Seq<Seq<char>>>,
    pub linker_flags: Option<Seq<Seq<char>>>,
    pub defines: Option<Seq<Seq<char>>>,
}

impl View for RawBuildConfig {
    type V = RawBuildConfigModel;

    open spec fn view(&self) -> RawBuildConfigModel {
        RawBuildConfigModel {
            compiler_flags: maybe_strings_of(self.compiler_flags),
            link_time_flags: maybe_strings_of(self.link_time_flags),
            linker_flags: maybe_strings_of(self.linker_flags),
            defines: maybe_strings_of(self.defines),
        }
    }
}

/// Build configurations by compiler. The first entry for a compiler counts.
pub type BuildTypeOptionMap = Vec<(BuildConfigCompilerSpecifier, RawBuildConfig)>;

/// Build configurations by build type and compiler. The first entry for a build type counts.
pub type BuildConfigMap = Vec<(BuildType, BuildTypeOptionMap)>;

/// Build configurations of one output, by build type and compiler.
pub type TargetBuildConfigMap = Vec<(TargetSpecificBuildType, BuildTypeOptionMap)>;

/// One build output, as written.
#[derive(Clone, Debug)]
pub struct RawCompiledItem {
    pub output_type: OutputItemType,
    pub entry_file: String,
    pub windows_icon: Option<String>,
    pub emscripten_html_shell: Option<String>,
    pub build_config: Option<TargetBuildConfigMap>,
    pub link: Option<LinkSection>,
    pub requires_custom_main: Option<bool>,
}

/// Which kind of library a compiled library of unspecified kind becomes.
#[derive(Clone, Copy, Debug, PartialEq, Eq, Structural)]
pub enum DefaultCompiledLibType {
    Static,
    Shared,
}

/// Properties that hold for a whole project tree, as written.
#[derive(Clone, Debug)]
pub struct RawGlobalPropertyConfig {
    pub ipo_enabled_by_default: Option<bool>,
    pub default_compiled_lib_type: Option<DefaultCompiledLibType>,
}

/// A shortcut that an installer creates, as written.
#[derive(Clone, Debug)]
pub struct RawShortcutConfig {
    pub name: String,
}

/// A feature of a project, as written: whether it is on by default, and the
/// features that it switches on, each as `feature` or `dependency/feature`.
#[derive(Clone, Debug)]
pub struct RawFeatureConfig {
    pub default: bool,
    pub enables: Option<Vec<String>>,
}

} // verus!
