use crate::solipath_directory::cache_path::{CachePath, CachePathView};
use vstd::prelude::*;

verus! {

/// The model of a [`FetchStep`].
pub enum FetchStepView {
    AlreadyThere,
    Download { url: Seq<char>, path_to_save_to: CachePathView },
    DownloadAndDecompress { url: Seq<char>, directory_to_save_to: CachePathView },
}

/// What a fetch comes to, once it is known whether its destination exists.
#[derive(Debug, PartialEq, Eq)]
pub enum FetchStep {
    /// The destination exists: nothing is fetched.
    AlreadyThere,
    /// Fetch `url` and write the body to the file `path_to_save_to`.
    Download { url: String, path_to_save_to: CachePath },
    /// Fetch `url` into a temporary directory and unpack what came into
    /// `directory_to_save_to`.
    DownloadAndDecompress { url: String, directory_to_save_to: CachePath },
}

impl DeepView for FetchStep {
    type V = FetchStepView;

    open spec fn deep_view(&self) -> FetchStepView {
        match self {
            FetchStep::AlreadyThere => FetchStepView::AlreadyThere,
            FetchStep::Download { url, path_to_save_to } => FetchStepView::Download {
                url: url@,
                path_to_save_to: path_to_save_to@,
            },
            FetchStep::DownloadAndDecompress { url, directory_to_save_to } => {
                FetchStepView::DownloadAndDecompress {
                    url: url@,
                    directory_to_save_to: directory_to_save_to@,
                }
            },
        }
    }
}

impl View for FetchStep {
    type V = FetchStepView;

    open spec fn view(&self) -> FetchStepView {
        self.deep_view()
    }
}

impl FetchStepView {
    /// The number of requests that carrying out this step sends to the
    /// network, each counted once however often it is tried.
    pub open spec fn network_operations(self) -> nat {
        match self {
            FetchStepView::AlreadyThere => 0,
            _ => 1,
        }
    }

    /// Whether the destination exists once this step has been carried out,
    /// given whether it existed before.
    pub open spec fn destination_exists_afterwards(self, existed_before: bool) -> bool {
        match self {
            FetchStepView::AlreadyThere => existed_before,
            _ => true,
        }
    }
}

/// The step for a file: nothing where it exists, a download where it does
/// not.
pub open spec fn file_fetch_step(
    url: Seq<char>,
    path_to_save_to: CachePathView,
    exists: bool,
) -> FetchStepView {
    if exists {
        FetchStepView::AlreadyThere
    } else {
        FetchStepView::Download { url, path_to_save_to }
    }
}

/// The step for a directory: nothing where it exists, a download that is
/// then unpacked where it does not.
pub open spec fn directory_fetch_step(
    url: Seq<char>,
    directory_to_save_to: CachePathView,
    exists: bool,
) -> FetchStepView {
    if exists {
        FetchStepView::AlreadyThere
    } else {
        FetchStepView::DownloadAndDecompress { url, directory_to_save_to }
    }
}

/// Fetches only what is not in the cache yet. Whether the destination exists
/// is looked up by the caller and handed in.
pub trait ConditionalFileDownloaderTrait {
    fn download_file_if_not_exists(
        &self,
        url: &str,
        path_to_save_to: &CachePath,
        exists: bool,
    ) -> (step: FetchStep)
        ensures
            step@ == file_fetch_step(url@, path_to_save_to@, exists),
    ;

    fn download_and_decompress_file_if_directory_not_exists(
        &self,
        url: &str,
        directory_to_save_to: &CachePath,
        exists: bool,
    ) -> (step: FetchStep)
        ensures
            step@ == directory_fetch_step(url@, directory_to_save_to@, exists),
    ;
}

/// Fetches what does not exist and nothing else.
pub struct ConditionalFileDownloader;

impl ConditionalFileDownloader {
    pub fn new() -> Self {
        ConditionalFileDownloader
    }
}

impl ConditionalFileDownloaderTrait for ConditionalFileDownloader {
    fn download_file_if_not_exists(
        &self,
        url: &str,
        path_to_save_to: &CachePath,
        exists: bool,
    ) -> (step: FetchStep) {
        if !exists {
            FetchStep::Download {
                url: String::from_str(url),
                path_to_save_to: path_to_save_to.clone(),
            }
        } else {
            FetchStep::AlreadyThere
        }
    }

    fn download_and_decompress_file_if_directory_not_exists(
        &self,
        url: &str,
        directory_to_save_to: &CachePath,
        exists: bool,
    ) -> (step: FetchStep) {
        if !exists {
            FetchStep::DownloadAndDecompress {
                url: String::from_str(url),
                directory_to_save_to: directory_to_save_to.clone(),
            }
        } else {
            FetchStep::AlreadyThere
        }
    }
}

/// Two fetches of one destination, the second after the first has been
/// carried out, send at most one request to the network between them; and
/// where the destination exists before the first, they send none.
pub proof fn lemma_fetch_happens_at_most_once(
    url: Seq<char>,
    destination: CachePathView,
    exists_before: bool,
)
    ensures
        ({
            let first = directory_fetch_step(url, destination, exists_before);
            let second = directory_fetch_step(
                url,
                destination,
                first.destination_exists_afterwards(exists_before),
            );
            &&& first.network_operations() + second.network_operations() <= 1
            &&& exists_before ==> first.network_operations() + second.network_operations() == 0
        }),
        ({
            let first = file_fetch_step(url, destination, exists_before);
            let second = file_fetch_step(
                url,
                destination,
                first.destination_exists_afterwards(exists_before),
            );
            &&& first.network_operations() + second.network_operations() <= 1
            &&& exists_before ==> first.network_operations() + second.network_operations() == 0
        }),
{
}

} // verus!
