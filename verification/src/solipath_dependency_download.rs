//! The downloads of the dependencies of a run.

pub mod dependency_downloader;
pub mod looping_dependency_downloader;
