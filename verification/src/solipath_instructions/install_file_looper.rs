use crate::solipath_dependency_metadata::dependency::{Dependency, DependencyView};
use vstd::prelude::*;

verus! {

/// The dependency that an instruction document belongs to, given the names
/// of the directories that lead to it: the last is its version and the one
/// before that its name. A document with fewer than two directories above it
/// belongs to none.
pub open spec fn dependency_of(directories: Seq<Seq<char>>) -> Option<DependencyView> {
    if directories.len() >= 2 {
        Some(
            DependencyView {
                name: directories[directories.len() - 2],
                version: directories[directories.len() - 1],
                platform_filters: Seq::empty(),
            },
        )
    } else {
        None
    }
}

/// Reads instruction documents as they lie in a directory tree, each in the
/// directory of its version below the directory of its dependency.
pub struct InstallFileLooper;

impl InstallFileLooper {
    pub fn new() -> Self {
        InstallFileLooper
    }

    /// The dependency that the instruction document in the directory with
    /// the path `directories` belongs to.
    pub fn retrieve_dependency(&self, directories: &[String]) -> (dependency: Option<Dependency>)
        ensures
            dependency.deep_view() == dependency_of(directories.deep_view()),
    {
        if directories.len() >= 2 {
            let version = &directories[directories.len() - 1];
            let dependency_name = &directories[directories.len() - 2];
            Some(Dependency::new(dependency_name.as_str(), version.as_str()))
        } else {
            None
        }
    }
}

} // verus!
