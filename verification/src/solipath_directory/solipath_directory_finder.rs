use crate::solipath_dependency_metadata::dependency::{Dependency, DependencyView};
use crate::solipath_directory::cache_path::{CachePath, CachePathView};
use vstd::prelude::*;

verus! {

/// Where the instruction document of one version of a dependency is cached:
/// below `base`, then the name, then the version.
pub open spec fn dependency_version_directory(
    base: CachePathView,
    dependency: DependencyView,
) -> CachePathView {
    base.push(dependency.name).push(dependency.version)
}

/// Where the artifacts of a dependency are unpacked: below `base`, then the
/// name, then `downloads`. All versions of a dependency share it.
pub open spec fn dependency_downloads_directory(
    base: CachePathView,
    dependency: DependencyView,
) -> CachePathView {
    base.push(dependency.name).push("downloads"@)
}

/// Where the template documents of a dependency are cached: below `base`,
/// then the name, then `templates`.
pub open spec fn dependency_template_directory(
    base: CachePathView,
    dependency: DependencyView,
) -> CachePathView {
    base.push(dependency.name).push("templates"@)
}

/// Knows the root of the cache and lays out the directories below it.
pub trait SolipathDirectoryFinderTrait {
    /// The root of the cache.
    spec fn base_directory(&self) -> CachePathView;

    fn get_base_solipath_directory(&self) -> (path: CachePath)
        ensures
            path@ == self.base_directory(),
    ;

    fn get_dependency_version_directory(&self, dependency: &Dependency) -> (path: CachePath)
        ensures
            path@ == dependency_version_directory(self.base_directory(), dependency@),
    {
        let mut path = self.get_base_solipath_directory();
        path.push(dependency.get_name().as_str());
        path.push(dependency.get_version().as_str());
        path
    }

    fn get_dependency_downloads_directory(&self, dependency: &Dependency) -> (path: CachePath)
        ensures
            path@ == dependency_downloads_directory(self.base_directory(), dependency@),
    {
        let mut path = self.get_base_solipath_directory();
        path.push(dependency.get_name().as_str());
        path.push("downloads");
        path
    }

    fn get_dependency_template_directory(&self, dependency: &Dependency) -> (path: CachePath)
        ensures
            path@ == dependency_template_directory(self.base_directory(), dependency@),
    {
        let mut path = self.get_base_solipath_directory();
        path.push(dependency.get_name().as_str());
        path.push("templates");
        path
    }
}

/// The home directory of the current user.
///
/// Trusted: the body calls `directories::BaseDirs::new` and reads `home_dir`
/// of what it returns. That function asks the environment of the process
/// and the operating system for the directory, parses no file itself, and
/// returns on every outcome. The result depends on the environment, so
/// nothing is stated of it. It is `None` where the crate finds no home
/// directory, or where the path it finds is not valid Unicode.
#[verifier::external_body]
fn home_dir() -> (home: Option<String>) {
    match directories::BaseDirs::new() {
        Some(base_dirs) => base_dirs.home_dir().to_str().map(String::from),
        None => None,
    }
}

/// Keeps the cache in the directory `solipath` of the user's home directory.
pub struct SolipathDirectoryFinder {
    home: String,
}

impl SolipathDirectoryFinder {
    /// A finder for the home directory of the current user; `None` where the
    /// user has none. Which directory that is depends on the environment;
    /// whichever it is, the cache is its directory `solipath`.
    pub fn new() -> (finder: Option<Self>)
        ensures
            finder matches Some(finder) ==> finder.base_directory().pieces == seq!["solipath"@],
    {
        SolipathDirectoryFinder::new_with_found_home(home_dir())
    }

    /// A finder for the home directory `home`.
    pub fn new_with_home(home: &str) -> (finder: Self)
        ensures
            finder.base_directory() == (CachePathView { root: home@, pieces: seq!["solipath"@] }),
    {
        SolipathDirectoryFinder { home: String::from_str(home) }
    }

    /// A finder for the home directory that was found, where one was found;
    /// `None` where none was.
    pub fn new_with_found_home(home: Option<String>) -> (finder: Option<Self>)
        ensures
            match home {
                Some(home) => {
                    &&& finder matches Some(finder) && finder.base_directory() == (CachePathView {
                        root: home@,
                        pieces: seq!["solipath"@],
                    })
                },
                None => finder is None,
            },
    {
        match home {
            Some(home) => Some(SolipathDirectoryFinder::new_with_home(home.as_str())),
            None => None,
        }
    }
}

impl SolipathDirectoryFinderTrait for SolipathDirectoryFinder {
    closed spec fn base_directory(&self) -> CachePathView {
        CachePathView { root: self.home@, pieces: seq!["solipath"@] }
    }

    fn get_base_solipath_directory(&self) -> (path: CachePath) {
        let mut solipath = CachePath::new(self.home.as_str());
        solipath.push("solipath");
        assert(solipath@.pieces =~= seq!["solipath"@]);
        solipath
    }
}

} // verus!
