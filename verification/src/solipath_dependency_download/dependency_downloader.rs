use crate::path_buf_ext::PathBufExt;
use crate::solipath_dependency_metadata::dependency::{Dependency, DependencyView};
use crate::solipath_directory::cache_path::CachePathView;
use crate::solipath_directory::solipath_directory_finder::{
    dependency_downloads_directory,
    SolipathDirectoryFinderTrait,
};
use crate::solipath_download::fetch_request::{FetchRequest, FetchRequestView};
use crate::solipath_instructions::data::download_instruction::{
    DownloadInstruction,
    DownloadInstructionView,
};
use vstd::prelude::*;

verus! {

/// What is fetched for a download of a dependency: the artifact at the URL
/// of the instruction, unpacked into the directory that the instruction
/// names, below the downloads directory of the dependency.
pub open spec fn download_request(
    base: CachePathView,
    dependency: DependencyView,
    download_instruction: DownloadInstructionView,
) -> FetchRequestView {
    FetchRequestView {
        url: download_instruction.url,
        destination: dependency_downloads_directory(base, dependency).push(
            download_instruction.destination_directory,
        ),
    }
}

/// Says what is fetched for a download of a dependency, and where to.
pub trait DependencyDownloaderTrait {
    /// What is fetched for `download_instruction` of `dependency`.
    spec fn request_for(
        &self,
        dependency: DependencyView,
        download_instruction: DownloadInstructionView,
    ) -> FetchRequestView;

    fn download_dependency(
        &self,
        dependency: &Dependency,
        download_instruction: &DownloadInstruction,
    ) -> (request: FetchRequest)
        ensures
            request@ == self.request_for(dependency@, download_instruction@),
    ;
}

/// Places the downloads of a dependency in its downloads directory.
pub struct DependencyDownloader<'a, D: SolipathDirectoryFinderTrait> {
    directory_finder: &'a D,
}

impl<'a, D: SolipathDirectoryFinderTrait> DependencyDownloader<'a, D> {
    pub fn new(directory_finder: &'a D) -> (downloader: Self)
        ensures
            downloader.base_directory() == directory_finder.base_directory(),
    {
        DependencyDownloader { directory_finder }
    }

    /// The root of the cache.
    pub closed spec fn base_directory(&self) -> CachePathView {
        self.directory_finder.base_directory()
    }
}

impl<'a, D: SolipathDirectoryFinderTrait> DependencyDownloaderTrait for DependencyDownloader<
    'a,
    D,
> {
    open spec fn request_for(
        &self,
        dependency: DependencyView,
        download_instruction: DownloadInstructionView,
    ) -> FetchRequestView {
        download_request(self.base_directory(), dependency, download_instruction)
    }

    fn download_dependency(
        &self,
        dependency: &Dependency,
        download_instruction: &DownloadInstruction,
    ) -> (request: FetchRequest) {
        let downloads_directory = self.directory_finder.get_dependency_downloads_directory(
            dependency,
        ).clone_push(download_instruction.get_destination_directory().as_str());
        FetchRequest::new(download_instruction.get_url(), downloads_directory)
    }
}

} // verus!
