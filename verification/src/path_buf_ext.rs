use crate::solipath_directory::cache_path::CachePath;
use vstd::prelude::*;

verus! {

/// Pushing onto a copy of a path, which leaves the path itself as it was.
pub trait PathBufExt: Sized {
    /// Whether `longer` is `self` with `path` pushed onto it.
    spec fn is_pushed(&self, path: Seq<char>, longer: Self) -> bool;

    fn clone_push(&self, path: &str) -> (new_path: Self)
        ensures
            self.is_pushed(path@, new_path),
    ;
}

impl PathBufExt for CachePath {
    open spec fn is_pushed(&self, path: Seq<char>, longer: CachePath) -> bool {
        longer@ == self@.push(path)
    }

    fn clone_push(&self, path: &str) -> (new_path: CachePath) {
        let mut new_path = self.clone();
        new_path.push(path);
        new_path
    }
}

} // verus!
