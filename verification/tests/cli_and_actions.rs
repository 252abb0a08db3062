use gcmake::cli_config::{
    convert_given_project_type, CLIProjectGenerationInfo, CLIProjectOutputTypeIn,
    CLIProjectTypeGenerating, CreationProjectOutputType, FileCreationLang, MainFileLanguage,
    NewProjectCommand, NewProjectSubcommand, NewSubprojectCommand, NewTestProjectCommand,
    OutputLibType, UseFileOption,
};
use gcmake::cmake_utils_writer::{CMakeUtilWriter, TOGGLE_LIB_UTIL_TEXT};
use gcmake::final_project_configurables::FinalShortcutConfig;
use gcmake::program_actions::{
    ensure_directory_structure, extension_for, get_parent_project_for_new_project,
    make_project_creating_info, project_root_generating, to_include_path, write_code_files,
    CodeDirectories, CodeFile, CodeFileType, FileGuardStyle, FileTypeGeneratingInfo,
    ProjectLoadFailureReason, ProjectTypeCreating, SharedFileInfo,
};
use gcmake::raw_data_in::RawShortcutConfig;
use gcmake::text::underscore_separators;
use gcmake::validators::target_name_verdict;

#[test]
fn default_files_have_names() {
    assert_eq!(UseFileOption::ClangTidy.to_file_name(), ".clang-tidy");
    assert_eq!(UseFileOption::ClangFormat.to_file_name(), ".clang-format");
    assert_eq!(UseFileOption::GitIgnore.to_file_name(), ".gitignore");
}

#[test]
fn project_types_are_converted() {
    assert_eq!(convert_given_project_type(&None), None);
    assert_eq!(
        convert_given_project_type(&Some(CLIProjectOutputTypeIn::Exe)),
        Some(CreationProjectOutputType::Executable)
    );
    assert_eq!(
        convert_given_project_type(&Some(CLIProjectOutputTypeIn::CompiledLib)),
        Some(CreationProjectOutputType::Library(OutputLibType::ToggleStaticOrShared))
    );
    assert_eq!(
        convert_given_project_type(&Some(CLIProjectOutputTypeIn::StaticLib)),
        Some(CreationProjectOutputType::Library(OutputLibType::Static))
    );
    assert_eq!(
        convert_given_project_type(&Some(CLIProjectOutputTypeIn::SharedLib)),
        Some(CreationProjectOutputType::Library(OutputLibType::Shared))
    );
    assert_eq!(
        convert_given_project_type(&Some(CLIProjectOutputTypeIn::HeaderOnly)),
        Some(CreationProjectOutputType::Library(OutputLibType::HeaderOnly))
    );
}

#[test]
fn root_project_command_is_converted() {
    let info = CLIProjectGenerationInfo::from(NewProjectSubcommand::RootProject(NewProjectCommand {
        new_project_name: "app".to_string(),
        c: true,
        cpp: false,
        cpp2: true,
        no_emscripten: false,
        project_type: Some(CLIProjectOutputTypeIn::Exe),
    }));
    assert_eq!(
        info,
        CLIProjectGenerationInfo {
            language: Some(MainFileLanguage::Cpp2),
            project_name: "app".to_string(),
            project_type: CLIProjectTypeGenerating::RootProject,
            project_output_type: Some(CreationProjectOutputType::Executable),
            should_include_emscripten_support: true,
            should_use_cpp2_main_if_possible: true,
        }
    );
}

#[test]
fn subproject_and_test_commands_are_converted() {
    let info = CLIProjectGenerationInfo::from(NewProjectSubcommand::Subproject(NewSubprojectCommand {
        new_project_name: "sub".to_string(),
        c: true,
        cpp: true,
        cpp2: true,
        subproject_type: None,
    }));
    assert_eq!(info.language, Some(MainFileLanguage::Cpp));
    assert_eq!(info.project_type, CLIProjectTypeGenerating::Subproject);
    assert_eq!(info.project_output_type, None);
    assert!(!info.should_include_emscripten_support);
    assert!(info.should_use_cpp2_main_if_possible);
    let info = CLIProjectGenerationInfo::from(NewProjectSubcommand::Subproject(NewSubprojectCommand {
        new_project_name: "sub".to_string(),
        c: false,
        cpp: false,
        cpp2: false,
        subproject_type: Some(CLIProjectOutputTypeIn::HeaderOnly),
    }));
    assert_eq!(info.language, None);
    let info = CLIProjectGenerationInfo::from(NewProjectSubcommand::Test(NewTestProjectCommand {
        new_project_name: "checks".to_string(),
    }));
    assert_eq!(
        info,
        CLIProjectGenerationInfo {
            language: Some(MainFileLanguage::Cpp),
            project_name: "checks".to_string(),
            project_type: CLIProjectTypeGenerating::Test,
            project_output_type: Some(CreationProjectOutputType::Executable),
            should_include_emscripten_support: false,
            should_use_cpp2_main_if_possible: false,
        }
    );
}

#[test]
fn extensions() {
    assert_eq!(extension_for(CodeFileType::Header(FileCreationLang::C)), ".h");
    assert_eq!(extension_for(CodeFileType::Header(FileCreationLang::Cpp)), ".hpp");
    assert_eq!(extension_for(CodeFileType::Source(FileCreationLang::C)), ".c");
    assert_eq!(extension_for(CodeFileType::Source(FileCreationLang::Cpp)), ".cpp");
    assert_eq!(extension_for(CodeFileType::TemplateImpl(FileCreationLang::C)), ".tpp");
    assert_eq!(extension_for(CodeFileType::TemplateImpl(FileCreationLang::Cpp)), ".tpp");
}

#[test]
fn include_path_starts_at_the_first_prefix() {
    assert_eq!(
        to_include_path("PROJ", "/any/path/include/PROJ/path/to/file.hpp"),
        Some("PROJ/path/to/file.hpp".to_string())
    );
    assert_eq!(
        to_include_path("a", "x/a/b/a/c.h"),
        Some("a/b/a/c.h".to_string())
    );
    assert_eq!(to_include_path("PROJ", "/any/path/include/PROJ"), None);
    assert_eq!(to_include_path("PROJ", ""), None);
    assert_eq!(to_include_path("", "a/b"), Some("/b".to_string()));
}

#[test]
fn project_creation_is_decided() {
    assert_eq!(make_project_creating_info(true, Some(3)), Ok(ProjectTypeCreating::Subproject(3)));
    assert_eq!(make_project_creating_info(false, None), Ok(ProjectTypeCreating::RootProject));
    let message = "Unable to find the current project operating on while attempting to generate a subproject. Make sure you are currently in a directory which contains a cmake_data.yaml file.";
    assert_eq!(make_project_creating_info(true, None), Err(message.to_string()));
    assert_eq!(make_project_creating_info(false, Some(0)), Err(message.to_string()));
}

#[test]
fn project_root_is_chosen() {
    assert_eq!(project_root_generating("tool", false), Ok("./tool".to_string()));
    assert_eq!(project_root_generating("tool", true), Ok("./subprojects/tool".to_string()));
    assert_eq!(
        project_root_generating("a/b", true),
        Err("When generating a project, the project root cannot be a path. However, \"a/b\" is a path.".to_string())
    );
}

fn directories() -> CodeDirectories {
    CodeDirectories {
        include_dir: "./include/PROJ".to_string(),
        src_dir: "./src/PROJ".to_string(),
        template_impl_dir: "./template_impls/PROJ".to_string(),
        include_prefix: "PROJ".to_string(),
    }
}

#[test]
fn code_file_paths() {
    let shared =
        SharedFileInfo { shared_name: "SomeClass".to_string(), leading_dir_path: String::new() };
    assert_eq!(ensure_directory_structure("./src/PROJ", &shared, ".cpp"), "./src/PROJ/SomeClass.cpp");
    let shared = SharedFileInfo {
        shared_name: "SomeClass".to_string(),
        leading_dir_path: "nested/deep".to_string(),
    };
    assert_eq!(
        ensure_directory_structure("./include/PROJ", &shared, ".hpp"),
        "./include/PROJ/nested/deep/SomeClass.hpp"
    );
}

#[test]
fn all_three_code_files_are_planned() {
    let which = FileTypeGeneratingInfo {
        generating_header: true,
        generating_source: true,
        generating_template_impl: true,
    };
    let shared =
        SharedFileInfo { shared_name: "Thing".to_string(), leading_dir_path: "core".to_string() };
    let files = write_code_files(
        &which,
        &shared,
        &FileGuardStyle::IncludeGuard("THING_HPP".to_string()),
        &directories(),
        &FileCreationLang::Cpp,
    );
    assert_eq!(
        files,
        vec![
            CodeFile {
                path: "./template_impls/PROJ/core/Thing.tpp".to_string(),
                contents: "// Implement the template in ./template_impls/PROJ/core/Thing.tpp here\n"
                    .to_string(),
            },
            CodeFile {
                path: "./include/PROJ/core/Thing.hpp".to_string(),
                contents: "#ifndef THING_HPP\n#define THING_HPP\n\n\n\n#include \"PROJ/core/Thing.tpp\"\n#endif\n"
                    .to_string(),
            },
            CodeFile {
                path: "./src/PROJ/core/Thing.cpp".to_string(),
                contents: "#include \"PROJ/core/Thing.hpp\"\n".to_string(),
            },
        ]
    );
}

#[test]
fn some_code_files_are_planned() {
    let shared = SharedFileInfo { shared_name: "util".to_string(), leading_dir_path: String::new() };
    let files = write_code_files(
        &FileTypeGeneratingInfo {
            generating_header: true,
            generating_source: false,
            generating_template_impl: false,
        },
        &shared,
        &FileGuardStyle::PragmaOnce,
        &directories(),
        &FileCreationLang::C,
    );
    assert_eq!(
        files,
        vec![CodeFile {
            path: "./include/PROJ/util.h".to_string(),
            contents: "#pragma once\n\n\n\n".to_string(),
        }]
    );
    let files = write_code_files(
        &FileTypeGeneratingInfo {
            generating_header: false,
            generating_source: true,
            generating_template_impl: true,
        },
        &shared,
        &FileGuardStyle::PragmaOnce,
        &directories(),
        &FileCreationLang::C,
    );
    assert_eq!(files.len(), 2);
    assert_eq!(files[1], CodeFile { path: "./src/PROJ/util.c".to_string(), contents: String::new() });
    let files = write_code_files(
        &FileTypeGeneratingInfo {
            generating_header: false,
            generating_source: false,
            generating_template_impl: false,
        },
        &shared,
        &FileGuardStyle::PragmaOnce,
        &directories(),
        &FileCreationLang::C,
    );
    assert!(files.is_empty());
}

#[test]
fn utility_scripts_are_listed() {
    let writer = CMakeUtilWriter::new("build/cmake".to_string());
    let names: Vec<&str> = writer.get_utils().iter().map(|(name, _)| *name).collect();
    assert_eq!(names, vec!["toggle-lib-util", "exe-prebuild-util", "python-prebuild-util"]);
    assert_eq!(writer.get_utils()[0].1, TOGGLE_LIB_UTIL_TEXT);
    assert!(writer.get_utils()[1].1.starts_with("function( use_executable_prebuild_script\n"));
    assert!(writer.get_utils()[2].1.ends_with("endfunction()\n"));
    assert_eq!(writer.get_utils_path(), "build/cmake");
    assert_eq!(writer.file_path_for("toggle-lib-util"), "build/cmake/toggle-lib-util.cmake");
}

#[test]
fn shortcut_is_converted() {
    let shortcut = FinalShortcutConfig::from(RawShortcutConfig { name: "Start".to_string() });
    assert_eq!(shortcut.shortcut_name, "Start");
}

#[test]
fn separators_become_underscores() {
    assert_eq!(underscore_separators("a b-c_d"), "a_b_c_d");
    assert_eq!(underscore_separators(""), "");
    assert_eq!(underscore_separators("\u{e9}-\u{4e2d}"), "\u{e9}_\u{4e2d}");
}

#[test]
fn verdict_follows_the_search() {
    assert!(target_name_verdict(Some(true)));
    assert!(!target_name_verdict(Some(false)));
    assert!(!target_name_verdict(None));
}

#[test]
fn parent_project_is_decided() {
    assert_eq!(get_parent_project_for_new_project(Ok(5usize)), Ok(Some(5usize)));
    assert_eq!(
        get_parent_project_for_new_project::<usize>(Err(ProjectLoadFailureReason::MissingYaml(
            "nothing here".to_string()
        ))),
        Ok(None)
    );
    assert_eq!(
        get_parent_project_for_new_project::<usize>(Err(ProjectLoadFailureReason::Other(
            "bad yaml".to_string()
        ))),
        Err("bad yaml".to_string())
    );
}
