//! What a project asks for: named dependencies with a version.

pub mod dependency;
