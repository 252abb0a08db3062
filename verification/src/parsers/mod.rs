//! The small parsing language used by link, system and feature specifiers.

pub mod general_parser;
pub mod link_specifier;
pub mod system_specifier;
