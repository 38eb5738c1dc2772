use crate::solipath_platform::platform::{clone_platforms, Platform, PlatformView};
use crate::solipath_platform::platform_filter::HasPlatformFilter;
use vstd::prelude::*;

verus! {

/// The model of a [`DownloadInstruction`].
pub struct DownloadInstructionView {
    pub url: Seq<char>,
    pub destination_directory: Seq<char>,
    pub platform_filters: Seq<PlatformView>,
}

/// An artifact to fetch and the directory, relative to the downloads
/// directory of its dependency, that it is unpacked into.
#[derive(Debug, PartialEq, Eq)]
pub struct DownloadInstruction {
    url: String,
    destination_directory: String,
    platform_filters: Vec<Platform>,
}

impl DeepView for DownloadInstruction {
    type V = DownloadInstructionView;

    closed spec fn deep_view(&self) -> DownloadInstructionView {
        DownloadInstructionView {
            url: self.url@,
            destination_directory: self.destination_directory@,
            platform_filters: self.platform_filters.deep_view(),
        }
    }
}

impl View for DownloadInstruction {
    type V = DownloadInstructionView;

    open spec fn view(&self) -> DownloadInstructionView {
        self.deep_view()
    }
}

impl Clone for DownloadInstruction {
    fn clone(&self) -> (copy: Self)
        ensures
            copy@ == self@,
    {
        DownloadInstruction {
            url: self.url.clone(),
            destination_directory: self.destination_directory.clone(),
            platform_filters: clone_platforms(self.platform_filters.as_slice()),
        }
    }
}

impl DownloadInstruction {
    pub fn new(
        url: &str,
        destination_directory: &str,
        platform_filters: Vec<Platform>,
    ) -> (download: Self)
        ensures
            download@ == (DownloadInstructionView {
                url: url@,
                destination_directory: destination_directory@,
                platform_filters: platform_filters.deep_view(),
            }),
    {
        DownloadInstruction {
            url: String::from_str(url),
            destination_directory: String::from_str(destination_directory),
            platform_filters,
        }
    }

    pub fn get_url(&self) -> (url: String)
        ensures
            url@ == self@.url,
    {
        self.url.clone()
    }

    pub fn get_destination_directory(&self) -> (destination_directory: String)
        ensures
            destination_directory@ == self@.destination_directory,
    {
        self.destination_directory.clone()
    }
}

impl HasPlatformFilter for DownloadInstruction {
    open spec fn filters_of(item: DownloadInstructionView) -> Seq<PlatformView> {
        item.platform_filters
    }

    fn get_platform_filters(&self) -> (filters: &[Platform]) {
        self.platform_filters.as_slice()
    }

    proof fn lemma_clone_keeps_model(original: &Self, copy: &Self) {
    }
}

} // verus!
