use crate::solipath_dependency_metadata::dependency::{Dependency, DependencyView};
use crate::solipath_directory::cache_path::{CachePath, CachePathView};
use crate::solipath_directory::solipath_directory_finder::{
    dependency_version_directory,
    SolipathDirectoryFinderTrait,
};
use crate::solipath_download::fetch_request::{FetchRequest, FetchRequestView};
use vstd::prelude::*;

verus! {

/// The URL of the public instruction repository.
pub const BASE_SOLIPATH_URL: &'static str =
    "https://raw.githubusercontent.com/Solipath/Solipath-Install-Instructions/main";

/// Where the instruction document of `dependency` is found: below the base
/// URL, then the name, then the version, then `install_instructions.json`.
pub open spec fn instructions_url(base_url: Seq<char>, dependency: DependencyView) -> Seq<char> {
    base_url + "/"@ + dependency.name + "/"@ + dependency.version + "/install_instructions.json"@
}

/// Where the instruction document of `dependency` is cached: in the directory
/// of its version, as `install_instructions.json`.
pub open spec fn instructions_path(
    base: CachePathView,
    dependency: DependencyView,
) -> CachePathView {
    dependency_version_directory(base, dependency).push("install_instructions.json"@)
}

/// Says where the instruction document of a dependency is fetched from and
/// where it is cached.
pub trait DependencyInstructionsRetrieverTrait {
    /// What is fetched for `dependency`.
    spec fn request_for(&self, dependency: DependencyView) -> FetchRequestView;

    fn retrieve_dependency_instructions(&self, dependency: &Dependency) -> (request: FetchRequest)
        ensures
            request@ == self.request_for(dependency@),
    ;
}

/// Finds instruction documents below a base URL and caches them below the
/// root of a cache.
pub struct DependencyInstructionsRetriever<'a, D: SolipathDirectoryFinderTrait> {
    base_dependency_url: String,
    directory_finder: &'a D,
}

impl<'a, D: SolipathDirectoryFinderTrait> DependencyInstructionsRetriever<'a, D> {
    /// A retriever for the public instruction repository.
    pub fn new(directory_finder: &'a D) -> (retriever: Self)
        ensures
            retriever.base_url() == BASE_SOLIPATH_URL@,
            retriever.base_directory() == directory_finder.base_directory(),
    {
        DependencyInstructionsRetriever {
            base_dependency_url: String::from_str(BASE_SOLIPATH_URL),
            directory_finder,
        }
    }

    /// A retriever for the instruction repository at `base_dependency_url`.
    pub fn new_with_alternate_url(
        base_dependency_url: String,
        directory_finder: &'a D,
    ) -> (retriever: Self)
        ensures
            retriever.base_url() == base_dependency_url@,
            retriever.base_directory() == directory_finder.base_directory(),
    {
        DependencyInstructionsRetriever { base_dependency_url, directory_finder }
    }

    /// The URL below which the instruction documents are found.
    pub closed spec fn base_url(&self) -> Seq<char> {
        self.base_dependency_url@
    }

    /// The root of the cache.
    pub closed spec fn base_directory(&self) -> CachePathView {
        self.directory_finder.base_directory()
    }

    pub fn get_path_to_save_file(&self, dependency: &Dependency) -> (path: CachePath)
        ensures
            path@ == instructions_path(self.base_directory(), dependency@),
    {
        let mut path_to_save_file = self.directory_finder.get_dependency_version_directory(
            dependency,
        );
        path_to_save_file.push("install_instructions.json");
        path_to_save_file
    }

    pub fn get_url(&self, dependency: &Dependency) -> (url: String)
        ensures
            url@ == instructions_url(self.base_url(), dependency@),
    {
        let mut url = self.base_dependency_url.clone();
        url.append("/");
        url.append(dependency.get_name().as_str());
        url.append("/");
        url.append(dependency.get_version().as_str());
        url.append("/install_instructions.json");
        url
    }
}

impl<
    'a,
    D: SolipathDirectoryFinderTrait,
> DependencyInstructionsRetrieverTrait for DependencyInstructionsRetriever<'a, D> {
    open spec fn request_for(&self, dependency: DependencyView) -> FetchRequestView {
        FetchRequestView {
            url: instructions_url(self.base_url(), dependency),
            destination: instructions_path(self.base_directory(), dependency),
        }
    }

    fn retrieve_dependency_instructions(&self, dependency: &Dependency) -> (request: FetchRequest) {
        let path_to_save_file = self.get_path_to_save_file(dependency);
        let url = self.get_url(dependency);
        FetchRequest::new(url, path_to_save_file)
    }
}

} // verus!
