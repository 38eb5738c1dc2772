//! The environment that the commands of a run see.

pub mod environment;
pub mod environment_setter;
pub mod looping_environment_setter;
