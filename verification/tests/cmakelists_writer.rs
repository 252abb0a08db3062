use gcmake::cmakelists_writer::{
    join, CMakeListsWriter, ImplementationLanguage, LanguageConfig, ProjectFiles,
};
use gcmake::final_project_configurables::CompiledOutputItem;
use gcmake::raw_data_in::{OutputItemType, RawCompiledItem};
use gcmake::text::remove_all;

fn strings(items: &[&str]) -> Vec<String> {
    items.iter().map(|item| item.to_string()).collect()
}

fn output(kind: OutputItemType, entry_file: &str) -> CompiledOutputItem {
    let raw = RawCompiledItem {
        output_type: kind,
        entry_file: entry_file.to_string(),
        windows_icon: None,
        emscripten_html_shell: None,
        build_config: None,
        link: None,
        requires_custom_main: None,
    };
    CompiledOutputItem::make_from("out", &raw, None, None).unwrap()
}

fn project() -> ProjectFiles {
    ProjectFiles {
        project_root: "/work/app".to_string(),
        project_name: "app".to_string(),
        include_prefix: "APP".to_string(),
        src_dir: "/work/app/src/APP".to_string(),
        include_dir: "/work/app/include/APP".to_string(),
        template_impl_dir: "/work/app/template_impls/APP".to_string(),
        src_files: strings(&["/work/app/src/APP/a.cpp", "/work/app/src/APP/sub/b.cpp"]),
        include_files: strings(&["/work/app/include/APP/a.hpp"]),
        template_impl_files: Vec::new(),
        language_info: vec![
            (
                ImplementationLanguage::C,
                LanguageConfig {
                    default_standard: "11".to_string(),
                    sorted_standards: strings(&["99", "11"]),
                },
            ),
            (
                ImplementationLanguage::Cpp,
                LanguageConfig {
                    default_standard: "17".to_string(),
                    sorted_standards: strings(&["11", "14", "17"]),
                },
            ),
        ],
        outputs: vec![
            ("tool".to_string(), output(OutputItemType::Executable, "./main.cpp")),
            ("helper".to_string(), output(OutputItemType::StaticLib, "helper.hpp")),
        ],
    }
}

const EXPECTED: &str = "cmake_minimum_required( VERSION 3.12 )
project( app )

# ////////////////////////////////////////////////////////////////////////////////
# Language Configuration
# ////////////////////////////////////////////////////////////////////////////////

set( CMAKE_C_STANDARD 11 CACHE STRING \"C Compiler Standard\" )
set_property( CACHE CMAKE_C_STANDARD PROPERTY STRINGS 99 11 )

set( CMAKE_CXX_STANDARD 17 CACHE STRING \"CXX Compiler Standard\" )
set_property( CACHE CMAKE_CXX_STANDARD PROPERTY STRINGS 11 14 17 )

set( CMAKE_C_STANDARD_REQUIRED ON )
set( CMAKE_C_EXTENSIONS OFF )

set( CMAKE_CXX_STANDARD_REQUIRED ON )
set( CMAKE_CXX_EXTENSIONS OFF )

# ////////////////////////////////////////////////////////////////////////////////
# Outputs
# ////////////////////////////////////////////////////////////////////////////////

set( app_SRC_ROOT ${CMAKE_CURRENT_SOURCE_DIR}/src/APP )
set( app_HEADER_ROOT ${CMAKE_CURRENT_SOURCE_DIR}/include/APP )
set( app_TEMPLATE_IMPLS_ROOT ${CMAKE_CURRENT_SOURCE_DIR}/template_impls/APP )
set( app_INCLUDE_DIR ${CMAKE_CURRENT_SOURCE_DIR}/include )

set( app_SOURCES
\t${app_SRC_ROOT}/a.cpp
\t${app_SRC_ROOT}/sub/b.cpp
)
set( app_HEADERS
\t${app_HEADER_ROOT}/a.hpp
)
set( app_TEMPLATE_IMPLS
)
add_executable( tool
\t# SOURCES
\t\t${CMAKE_CURRENT_SOURCE_DIR}/main.cpp ${app_SOURCES}
\t# HEADERS
\t\t${app_HEADERS} ${app_TEMPLATE_IMPLS}
)
target_include_directories( tool
\tPRIVATE ${app_INCLUDE_DIR}
)
";

#[test]
fn build_file_text_is_written() {
    let mut writer = CMakeListsWriter::new(project());
    assert_eq!(writer.get_text(), "");
    assert_eq!(writer.file_name(), "/work/app/CMakeLists.txt");
    writer.write_cmakelists();
    assert_eq!(writer.get_text(), EXPECTED);
}

#[test]
fn text_is_appended_to_what_was_written() {
    let mut writer = CMakeListsWriter::new(project());
    writer.write_cmakelists();
    writer.write_cmakelists();
    assert_eq!(writer.get_text(), format!("{}{}", EXPECTED, EXPECTED));
}

#[test]
fn texts_are_joined() {
    assert_eq!(join(&strings(&["a", "b", "c"]), ", "), "a, b, c");
    assert_eq!(join(&strings(&["a"]), ", "), "a");
    assert_eq!(join(&Vec::new(), ", "), "");
    assert_eq!(join(&strings(&["", ""]), "-"), "-");
}

#[test]
fn occurrences_are_removed() {
    assert_eq!(remove_all("./src/./main.cpp", "./"), "src/main.cpp");
    assert_eq!(remove_all("aaa", "aa"), "a");
    assert_eq!(remove_all("abc", ""), "abc");
    assert_eq!(remove_all("", "x"), "");
    assert_eq!(remove_all("abab", "abab"), "");
    assert_eq!(remove_all("xaxbx", "x"), "ab");
    for (text, part) in [("banana", "an"), ("aaaa", "aa"), ("abcabc", "bc"), ("\u{e9}x\u{e9}", "\u{e9}")] {
        assert_eq!(remove_all(text, part), text.replace(part, ""));
    }
}
