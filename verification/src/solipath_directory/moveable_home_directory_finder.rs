use crate::solipath_directory::cache_path::{CachePath, CachePathView};
use crate::solipath_directory::solipath_directory_finder::SolipathDirectoryFinderTrait;
use vstd::prelude::*;

verus! {

/// Keeps the cache in a directory that the caller chooses.
pub struct MoveableHomeDirectoryFinder {
    base_dir: CachePath,
}

impl MoveableHomeDirectoryFinder {
    pub fn new(base_dir: CachePath) -> (finder: Self)
        ensures
            finder.base_directory() == base_dir@,
    {
        MoveableHomeDirectoryFinder { base_dir }
    }
}

impl SolipathDirectoryFinderTrait for MoveableHomeDirectoryFinder {
    closed spec fn base_directory(&self) -> CachePathView {
        self.base_dir@
    }

    fn get_base_solipath_directory(&self) -> (path: CachePath) {
        self.base_dir.clone()
    }
}

} // verus!
