//! Resolution and installation planning for per-project toolchains.
//!
//! The library decides what is to be fetched, where it is cached, which
//! environment changes follow and which commands run, for a list of named
//! dependencies on one platform. It performs no input or output itself: every
//! function takes plain values and returns plain values.

pub mod error;
pub mod path_buf_ext;
pub mod solipath_cli;
pub mod solipath_dependency_download;
pub mod solipath_dependency_metadata;
pub mod solipath_directory;
pub mod solipath_download;
pub mod solipath_environment_variable;
pub mod solipath_execute;
pub mod solipath_instructions;
pub mod solipath_platform;
pub mod solipath_shell;
pub mod solipath_template;
pub mod text;
pub mod text_map;
