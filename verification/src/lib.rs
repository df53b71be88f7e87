//! The decisions of a CMake build driver: what the command lines are, in which order the stages
//! run, and how a run goes on after each outcome. Nothing here touches a file or a process; the
//! program around this library performs what the library asks for.

pub mod app_context;
pub mod cmake_build;
pub mod command_args;
pub mod error;
pub mod json_helper;
pub mod pipeline;
pub mod string_map;
pub mod text;
pub mod utility_helper;
