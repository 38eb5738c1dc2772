use crate::solipath_dependency_download::dependency_downloader::DependencyDownloaderTrait;
use crate::solipath_dependency_metadata::dependency::DependencyView;
use crate::solipath_download::fetch_request::{FetchRequest, FetchRequestView};
use crate::solipath_instructions::data::dependency_instructions::{
    applicable,
    filter_pairs,
    grouped,
    DependencyInstructions,
    DependencyInstructionsView,
    VecDependencyInstructions,
};
use crate::solipath_instructions::data::download_instruction::{
    DownloadInstruction,
    DownloadInstructionView,
};
use crate::solipath_platform::platform_filter::PlatformFilterTrait;
use vstd::prelude::*;

verus! {

/// Lists what is fetched for the downloads of a run.
pub struct LoopingDependencyDownloader<'a, L: DependencyDownloaderTrait, F: PlatformFilterTrait> {
    dependency_downloader: &'a L,
    platform_filter: &'a F,
}

impl<'a, L: DependencyDownloaderTrait, F: PlatformFilterTrait> LoopingDependencyDownloader<
    'a,
    L,
    F,
> {
    pub fn new(dependency_downloader: &'a L, platform_filter: &'a F) -> (downloader: Self)
        ensures
            downloader.downloader() == dependency_downloader,
            downloader.filter() == platform_filter,
    {
        LoopingDependencyDownloader { dependency_downloader, platform_filter }
    }

    /// The downloader that says what is fetched for one download.
    pub closed spec fn downloader(&self) -> &'a L {
        self.dependency_downloader
    }

    /// The filter that downloads are held against.
    pub closed spec fn filter(&self) -> &'a F {
        self.platform_filter
    }

    /// What is fetched for the downloads of `list`: the downloads of every
    /// entry that apply on the platform, in the order of the entries and of
    /// each entry's own list, each with the request that the downloader
    /// makes of it.
    pub open spec fn requests_for(
        &self,
        list: Seq<DependencyInstructionsView>,
    ) -> Seq<FetchRequestView> {
        applicable::<F, DownloadInstruction>(
            self.filter(),
            grouped::<DownloadInstruction>(list),
        ).map_values(
            |pair: (DependencyView, DownloadInstructionView)|
                self.downloader().request_for(pair.0, pair.1),
        )
    }

    /// What is fetched for the downloads of the list.
    pub fn download_dependencies(
        &self,
        dependency_instructions_list: &Vec<DependencyInstructions>,
    ) -> (requests: Vec<FetchRequest>)
        ensures
            requests.deep_view() == self.requests_for(dependency_instructions_list.deep_view()),
    {
        let downloads = filter_pairs(
            self.platform_filter,
            dependency_instructions_list.get_downloads(),
        );
        let mut requests: Vec<FetchRequest> = Vec::new();
        let mut i: usize = 0;
        while i < downloads.len()
            invariant
                i <= downloads.len(),
                downloads.deep_view() == applicable::<F, DownloadInstruction>(
                    self.filter(),
                    grouped::<DownloadInstruction>(dependency_instructions_list.deep_view()),
                ),
                requests.deep_view() =~= self.requests_for(
                    dependency_instructions_list.deep_view(),
                ).take(i as int),
            decreases downloads.len() - i,
        {
            let ghost before = requests.deep_view();
            let (dependency, download) = downloads[i];
            let request = self.dependency_downloader.download_dependency(dependency, download);
            assert(downloads.deep_view()[i as int] == (dependency@, download@));
            requests.push(request);
            assert(requests.deep_view() =~= before.push(request@));
            i += 1;
        }
        requests
    }
}

} // verus!
