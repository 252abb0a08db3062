//! What the command line asks for, as plain values.

use vstd::prelude::*;

verus! {

/// The kind of output that a new project is asked to have.
#[derive(Clone, Copy, Debug, PartialEq, Eq, Structural)]
pub enum CLIProjectOutputTypeIn {
    Exe,
    StaticLib,
    SharedLib,
    HeaderOnly,
    CompiledLib,
}

/// The whole command line.
#[derive(Debug)]
pub struct Opts {
    pub project_root: String,
    pub subcommand: Option<SubCommandStruct>,
}

/// The subcommands.
#[derive(Debug)]
pub enum SubCommandStruct {
    /// Generates a new root project, subproject or test.
    New(NewProjectSubcommand),
    /// Generates code files in the tree.
    GenFile(CreateFilesCommand),
    /// Works on the repository of dependency configurations.
    DepConfig(DepConfigSubCommand),
    /// Copies a default file into the project root.
    UseFile(UseFilesCommand),
    /// Prints information about outputs and the pre-build script.
    TargetInfo(TargetInfoCommand),
    /// Prints information about projects.
    ProjectInfo(ProjectInfoCommand),
    /// Prints information about predefined dependencies.
    PredepInfo(PredepInfoCommand),
}

/// What is to be generated.
#[derive(Debug)]
pub enum NewProjectSubcommand {
    RootProject(NewProjectCommand),
    Subproject(NewSubprojectCommand),
    Test(NewTestProjectCommand),
}

/// A new root project.
#[derive(Debug)]
pub struct NewProjectCommand {
    pub new_project_name: String,
    pub c: bool,
    pub cpp: bool,
    pub cpp2: bool,
    pub no_emscripten: bool,
    pub project_type: Option<CLIProjectOutputTypeIn>,
}

/// A new subproject.
#[derive(Debug)]
pub struct NewSubprojectCommand {
    pub new_project_name: String,
    pub c: bool,
    pub cpp: bool,
    pub cpp2: bool,
    pub subproject_type: Option<CLIProjectOutputTypeIn>,
}

/// A new test. Every test is an executable written in C++.
#[derive(Debug)]
pub struct NewTestProjectCommand {
    pub new_project_name: String,
}

/// The language of generated code files.
#[derive(Clone, Copy, Debug, PartialEq, Eq, Structural)]
pub enum FileCreationLang {
    C,
    Cpp,
}

/// Code files to generate.
#[derive(Debug)]
pub struct CreateFilesCommand {
    pub language: FileCreationLang,
    /// Some of `h`, `s` and `t`: header, source, template implementation.
    pub which: String,
    /// Names of the files, relative to any code folder.
    pub relative_file_names: Vec<String>,
    pub use_pragma_guards: bool,
}

/// Work on the repository of dependency configurations.
#[derive(Debug)]
pub enum DepConfigSubCommand {
    Update(UpdateDependencyConfigsCommand),
}

/// Updates the repository of dependency configurations.
#[derive(Debug)]
pub struct UpdateDependencyConfigsCommand {
    pub branch: Option<String>,
}

/// A default file that can be copied into a project.
#[derive(Clone, Copy, Debug, PartialEq, Eq, Structural)]
pub enum UseFileOption {
    ClangTidy,
    ClangFormat,
    GitIgnore,
}

impl UseFileOption {
    /// The name of the file.
    pub fn to_file_name(&self) -> (r: &'static str)
        ensures
            r@ == match *self {
                Self::ClangTidy => ".clang-tidy"@,
                Self::ClangFormat => ".clang-format"@,
                Self::GitIgnore => ".gitignore"@,
            },
    {
        match self {
            Self::ClangTidy => ".clang-tidy",
            Self::ClangFormat => ".clang-format",
            Self::GitIgnore => ".gitignore",
        }
    }
}

/// Copies a default file.
#[derive(Debug)]
pub struct UseFilesCommand {
    pub file: UseFileOption,
}

/// Prints information about targets.
#[derive(Debug)]
pub struct TargetInfoCommand {
    pub selectors: Vec<String>,
    pub export_header: bool,
}

/// Prints information about projects.
#[derive(Debug)]
pub struct ProjectInfoCommand {
    pub selectors: Vec<String>,
    pub show_include_prefix: bool,
    pub show_subprojects: bool,
}

/// Prints information about predefined dependencies.
#[derive(Debug)]
pub struct PredepInfoCommand {
    pub selectors: Vec<String>,
    pub show_targets: bool,
}

/// The language of the main file of a generated project.
#[derive(Clone, Copy, Debug, PartialEq, Eq, Structural)]
pub enum MainFileLanguage {
    C,
    Cpp,
    Cpp2,
}

/// The kind of a generated library.
#[derive(Clone, Copy, Debug, PartialEq, Eq, Structural)]
pub enum OutputLibType {
    Static,
    Shared,
    ToggleStaticOrShared,
    HeaderOnly,
}

/// The kind of output of a generated project.
#[derive(Clone, Copy, Debug, PartialEq, Eq, Structural)]
pub enum CreationProjectOutputType {
    Executable,
    Library(OutputLibType),
}

/// The kind of project that is generated.
#[derive(Clone, Copy, Debug, PartialEq, Eq, Structural)]
pub enum CLIProjectTypeGenerating {
    RootProject,
    Subproject,
    Test,
}

/// What is known of a project to generate before anything is asked.
#[derive(Debug, PartialEq, Eq)]
pub struct CLIProjectGenerationInfo {
    pub language: Option<MainFileLanguage>,
    pub project_name: String,
    pub project_type: CLIProjectTypeGenerating,
    pub project_output_type: Option<CreationProjectOutputType>,
    pub should_include_emscripten_support: bool,
    pub should_use_cpp2_main_if_possible: bool,
}

/// The language that the flags ask for: C++ before cppfront before C.
pub open spec fn language_asked(c: bool, cpp: bool, cpp2: bool) -> Option<MainFileLanguage> {
    if cpp {
        Some(MainFileLanguage::Cpp)
    } else if cpp2 {
        Some(MainFileLanguage::Cpp2)
    } else if c {
        Some(MainFileLanguage::C)
    } else {
        None
    }
}

/// The kind of output that stands for a kind given on the command line.
pub open spec fn output_type_for(given: CLIProjectOutputTypeIn) -> CreationProjectOutputType {
    match given {
        CLIProjectOutputTypeIn::Exe => CreationProjectOutputType::Executable,
        CLIProjectOutputTypeIn::CompiledLib => CreationProjectOutputType::Library(
            OutputLibType::ToggleStaticOrShared,
        ),
        CLIProjectOutputTypeIn::StaticLib => CreationProjectOutputType::Library(
            OutputLibType::Static,
        ),
        CLIProjectOutputTypeIn::SharedLib => CreationProjectOutputType::Library(
            OutputLibType::Shared,
        ),
        CLIProjectOutputTypeIn::HeaderOnly => CreationProjectOutputType::Library(
            OutputLibType::HeaderOnly,
        ),
    }
}

/// As `output_type_for`, where a kind may not have been given.
pub open spec fn maybe_output_type_for(
    given: Option<CLIProjectOutputTypeIn>,
) -> Option<CreationProjectOutputType> {
    match given {
        Some(kind) => Some(output_type_for(kind)),
        None => None,
    }
}

/// What is known of the project that `command` asks for. A subproject and a
/// test never get Emscripten support of their own; a test is an executable in C++.
pub open spec fn generation_info(command: NewProjectSubcommand) -> CLIProjectGenerationInfo {
    match command {
        NewProjectSubcommand::RootProject(info) => CLIProjectGenerationInfo {
            project_name: info.new_project_name,
            language: language_asked(info.c, info.cpp, info.cpp2),
            project_type: CLIProjectTypeGenerating::RootProject,
            project_output_type: maybe_output_type_for(info.project_type),
            should_include_emscripten_support: !info.no_emscripten,
            should_use_cpp2_main_if_possible: info.cpp2,
        },
        NewProjectSubcommand::Subproject(info) => CLIProjectGenerationInfo {
            project_name: info.new_project_name,
            language: language_asked(info.c, info.cpp, info.cpp2),
            project_type: CLIProjectTypeGenerating::Subproject,
            project_output_type: maybe_output_type_for(info.subproject_type),
            should_include_emscripten_support: false,
            should_use_cpp2_main_if_possible: info.cpp2,
        },
        NewProjectSubcommand::Test(info) => CLIProjectGenerationInfo {
            project_name: info.new_project_name,
            language: Some(MainFileLanguage::Cpp),
            project_type: CLIProjectTypeGenerating::Test,
            project_output_type: Some(CreationProjectOutputType::Executable),
            should_include_emscripten_support: false,
            should_use_cpp2_main_if_possible: false,
        },
    }
}

/// The language that the flags ask for.
fn language_from_flags(c: bool, cpp: bool, cpp2: bool) -> (r: Option<MainFileLanguage>)
    ensures
        r == language_asked(c, cpp, cpp2),
{
    if cpp {
        Some(MainFileLanguage::Cpp)
    } else if cpp2 {
        Some(MainFileLanguage::Cpp2)
    } else if c {
        Some(MainFileLanguage::C)
    } else {
        None
    }
}

impl From<NewProjectSubcommand> for CLIProjectGenerationInfo {
    fn from(command: NewProjectSubcommand) -> (r: Self) {
        match command {
            NewProjectSubcommand::RootProject(project_info) => CLIProjectGenerationInfo {
                language: language_from_flags(project_info.c, project_info.cpp, project_info.cpp2),
                project_type: CLIProjectTypeGenerating::RootProject,
                project_output_type: convert_given_project_type(&project_info.project_type),
                should_include_emscripten_support: !project_info.no_emscripten,
                should_use_cpp2_main_if_possible: project_info.cpp2,
                project_name: project_info.new_project_name,
            },
            NewProjectSubcommand::Subproject(subproject_info) => CLIProjectGenerationInfo {
                language: language_from_flags(
                    subproject_info.c,
                    subproject_info.cpp,
                    subproject_info.cpp2,
                ),
                project_type: CLIProjectTypeGenerating::Subproject,
                project_output_type: convert_given_project_type(&subproject_info.subproject_type),
                should_include_emscripten_support: false,
                should_use_cpp2_main_if_possible: subproject_info.cpp2,
                project_name: subproject_info.new_project_name,
            },
            NewProjectSubcommand::Test(test_project_info) => CLIProjectGenerationInfo {
                project_name: test_project_info.new_project_name,
                language: Some(MainFileLanguage::Cpp),
                project_type: CLIProjectTypeGenerating::Test,
                project_output_type: Some(CreationProjectOutputType::Executable),
                should_include_emscripten_support: false,
                should_use_cpp2_main_if_possible: false,
            },
        }
    }
}

impl vstd::std_specs::convert::FromSpecImpl<NewProjectSubcommand> for CLIProjectGenerationInfo {
    open spec fn obeys_from_spec() -> bool {
        true
    }

    open spec fn from_spec(command: NewProjectSubcommand) -> Self {
        generation_info(command)
    }
}

/// The kind of output that stands for the kind given on the command line, if one was given.
pub fn convert_given_project_type(given_type: &Option<CLIProjectOutputTypeIn>) -> (r: Option<
    CreationProjectOutputType,
>)
    ensures
        r == maybe_output_type_for(*given_type),
{
    match given_type {
        None => None,
        Some(given_project_type) => Some(
            match given_project_type {
                CLIProjectOutputTypeIn::Exe => CreationProjectOutputType::Executable,
                CLIProjectOutputTypeIn::CompiledLib => CreationProjectOutputType::Library(
                    OutputLibType::ToggleStaticOrShared,
                ),
                CLIProjectOutputTypeIn::StaticLib => CreationProjectOutputType::Library(
                    OutputLibType::Static,
                ),
                CLIProjectOutputTypeIn::SharedLib => CreationProjectOutputType::Library(
                    OutputLibType::Shared,
                ),
                CLIProjectOutputTypeIn::HeaderOnly => CreationProjectOutputType::Library(
                    OutputLibType::HeaderOnly,
                ),
            },
        ),
    }
}

} // verus!
