use crate::solipath_directory::cache_path::{CachePath, CachePathView};
use vstd::prelude::*;

verus! {

/// The model of a [`FetchRequest`].
pub struct FetchRequestView {
    pub url: Seq<char>,
    pub destination: CachePathView,
}

/// Something to fetch and the place in the cache where it is kept.
#[derive(Debug, PartialEq, Eq)]
pub struct FetchRequest {
    url: String,
    destination: CachePath,
}

impl DeepView for FetchRequest {
    type V = FetchRequestView;

    closed spec fn deep_view(&self) -> FetchRequestView {
        FetchRequestView { url: self.url@, destination: self.destination@ }
    }
}

impl View for FetchRequest {
    type V = FetchRequestView;

    open spec fn view(&self) -> FetchRequestView {
        self.deep_view()
    }
}

impl FetchRequest {
    pub fn new(url: String, destination: CachePath) -> (request: Self)
        ensures
            request@ == (FetchRequestView { url: url@, destination: destination@ }),
    {
        FetchRequest { url, destination }
    }

    pub fn get_url(&self) -> (url: &String)
        ensures
            url@ == self@.url,
    {
        &self.url
    }

    pub fn get_destination(&self) -> (destination: &CachePath)
        ensures
            destination@ == self@.destination,
    {
        &self.destination
    }
}

} // verus!
