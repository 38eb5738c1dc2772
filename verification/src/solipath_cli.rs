//! The commands that are meant for the tool itself.

pub mod cli;
