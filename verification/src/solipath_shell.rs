//! Commands: the install commands of the dependencies and the command that
//! the run is for.

pub mod command_executor;
pub mod install_command_executor;
pub mod install_command_filter;
pub mod looping_install_command_executor;
