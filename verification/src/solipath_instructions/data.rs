//! The instruction document and its parts.

pub mod dependency_instructions;
pub mod download_instruction;
pub mod environment_variable;
pub mod install_command;
pub mod install_instructions;
pub mod template;
