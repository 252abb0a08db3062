//! The utility scripts that every generated build tree carries.

use vstd::prelude::*;
use vstd::string::*;

verus! {

/// The utility scripts and the directory that they are written to.
#[derive(Debug)]
pub struct CMakeUtilWriter {
    cmake_utils_path: String,
    utils: Vec<(&'static str, &'static str)>,
}

/// The script that makes a library whose kind is chosen when the project is configured.
pub const TOGGLE_LIB_UTIL_TEXT: &'static str =
    "function( make_toggle_lib\n  lib_name\n  default_lib_type\n  lib_entry_file\n  lib_sources\n  lib_headers\n  lib_template_impls\n)\n  if (NOT \"${default_lib_type}\" STREQUAL \"STATIC\" AND NOT \"${default_lib_type}\" STREQUAL \"SHARED\")\n    message( FATAL_ERROR \"Invalid default lib type '${default_lib_type}' given to type toggleable library ${lib_name}\" )\n  endif()\n\n  if( NOT ${lib_name}_LIB_TYPE )\n    set( ${lib_name}_LIB_TYPE ${default_lib_type} CACHE STRING \"Library type for ${lib_name}\" )\n  endif()\n\n  set_property( CACHE ${lib_name}_LIB_TYPE PROPERTY STRINGS \"STATIC\" \"SHARED\" )\n\n  set( all_lib_files ${lib_entry_file} ${lib_sources} ${lib_headers} ${lib_template_impls} )\n\n  if ( ${lib_name}_LIB_TYPE STREQUAL STATIC )\n    add_library( ${lib_name} STATIC ${all_lib_files})\n  elseif( ${lib_name}_LIB_TYPE STREQUAL SHARED )\n    add_library( ${lib_name} SHARED ${all_lib_files})\n  endif()\nendfunction()\n";

/// The script that runs an executable before the build.
pub const EXE_PREBUILD_UTIL_TEXT: &'static str =
    "function( use_executable_prebuild_script\n  target_name\n)\n  add_custom_target( ${PROJECT_NAME}-pre-build-step\n    ALL\n    COMMAND ${target_name}\n    DEPENDS ${target_name}\n    COMMENT \"Running ${PROJECT_NAME} pre-build executable script\"\n    WORKING_DIRECTORY ${CMAKE_CURRENT_SOURCE_DIR}\n  )\nendfunction()\n";

/// The script that runs a Python file before the build.
pub const PYTHON_PREBUILD_UTIL_TEXT: &'static str =
    "function( use_python_prebuild_script\n  python_prebuild_file\n)\n  include( FindPython3 )\n  find_package( Python3 COMPONENTS Interpreter )\n\n  if( ${Python3_FOUND} AND ${Python3_Interpreter_FOUND} )\n    add_custom_target( ${PROJECT_NAME}-pre-build-step\n      ALL\n      COMMAND Python3::Interpreter ${python_prebuild_file}\n      COMMENT \"Running ${PROJECT_NAME} pre-build python script\"\n      WORKING_DIRECTORY ${CMAKE_CURRENT_SOURCE_DIR}\n    )\n  else()\n    if( NOT ${Python3_Interpreter_FOUND} )\n      message( FATAL_ERROR \"A Python 3 interpreter is needed to run the pre-build script for project ${PROJECT_NAME}, however a valid interpreter was not found.\" )\n    else()\n      message( FATAL_ERROR \"Unable to find a valid Python 3 configuration when configuring project ${PROJECT_NAME}\" )\n    endif()\n  endif()\nendfunction()\n";

/// The names of the utility scripts, each with its text.
pub open spec fn all_utils() -> Seq<(&'static str, &'static str)> {
    seq![
        ("toggle-lib-util", TOGGLE_LIB_UTIL_TEXT),
        ("exe-prebuild-util", EXE_PREBUILD_UTIL_TEXT),
        ("python-prebuild-util", PYTHON_PREBUILD_UTIL_TEXT),
    ]
}

/// The file that the script `util_name` is written to in the directory `directory`.
pub open spec fn util_file_path(directory: Seq<char>, util_name: Seq<char>) -> Seq<char> {
    directory + "/"@ + util_name + ".cmake"@
}

impl CMakeUtilWriter {
    /// The directory, seen as a text.
    pub closed spec fn directory(&self) -> Seq<char> {
        self.cmake_utils_path@
    }

    /// The scripts, for contracts.
    pub closed spec fn scripts(&self) -> Seq<(&'static str, &'static str)> {
        self.utils@
    }

    /// A writer of all the utility scripts to the directory `cmake_utils_path`.
    pub fn new(cmake_utils_path: String) -> (r: Self)
        ensures
            r.directory() == cmake_utils_path@,
            r.scripts() == all_utils(),
    {
        let mut utils: Vec<(&'static str, &'static str)> = Vec::new();
        utils.push(("toggle-lib-util", TOGGLE_LIB_UTIL_TEXT));
        utils.push(("exe-prebuild-util", EXE_PREBUILD_UTIL_TEXT));
        utils.push(("python-prebuild-util", PYTHON_PREBUILD_UTIL_TEXT));
        assert(utils@ =~= all_utils());
        Self { cmake_utils_path, utils }
    }

    /// The directory that the scripts are written to.
    pub fn get_utils_path(&self) -> (r: &str)
        ensures
            r@ == self.directory(),
    {
        self.cmake_utils_path.as_str()
    }

    /// The names of the scripts, each with its text.
    pub fn get_utils(&self) -> (r: &Vec<(&'static str, &'static str)>)
        ensures
            r@ == self.scripts(),
    {
        &self.utils
    }

    /// The file that the script `util_name` is written to.
    pub fn file_path_for(&self, util_name: &str) -> (r: String)
        ensures
            r@ == util_file_path(self.directory(), util_name@),
    {
        let mut path = self.cmake_utils_path.clone();
        path.append("/");
        path.append(util_name);
        path.append(".cmake");
        path
    }
}

} // verus!
