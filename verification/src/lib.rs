//! Resolution engine of a build-configuration compiler for C/C++ project trees.

pub mod cli_config;
pub mod cmake_utils_writer;
pub mod cmakelists_writer;
pub mod dependency_graph;
pub mod final_dependencies;
pub mod final_project_configurables;
pub mod lexical;
pub mod parsers;
pub mod program_actions;
pub mod raw_data_in;
pub mod raw_dependencies;
pub mod sequences;
pub mod text;
pub mod validators;
