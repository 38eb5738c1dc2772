//! The run as a whole: its phases and what each of them asks for.

pub mod command_with_path_executor;
pub mod pipeline;
