//! Install instructions: what they hold and where they are found.

pub mod data;
pub mod dependency_instructions_retriever;
pub mod install_file_looper;
pub mod looping_dependency_instructions_retriever;
