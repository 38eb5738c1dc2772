use crate::solipath_platform::platform::{Platform, PlatformView};
use vstd::prelude::*;

verus! {

/// Source of the one platform that a run is decided for.
pub trait CurrentPlatformRetrieverTrait {
    /// The platform that `get_current_platform` hands out.
    spec fn current_platform(&self) -> PlatformView;

    fn get_current_platform(&self) -> (platform: Platform)
        ensures
            platform@ == self.current_platform(),
    ;
}

/// Holds the platform snapshot taken when the run began.
pub struct CurrentPlatformRetriever {
    platform: Platform,
}

impl CurrentPlatformRetriever {
    /// A retriever for the platform with this operating system and
    /// architecture.
    pub fn new(operating_system: &str, architecture: &str) -> (retriever: Self)
        ensures
            retriever.current_platform() == (PlatformView {
                os: operating_system@,
                arch: Some(architecture@),
            }),
    {
        CurrentPlatformRetriever { platform: Platform::new(operating_system, architecture) }
    }
}

impl CurrentPlatformRetrieverTrait for CurrentPlatformRetriever {
    closed spec fn current_platform(&self) -> PlatformView {
        self.platform@
    }

    fn get_current_platform(&self) -> (platform: Platform) {
        self.platform.clone()
    }
}

} // verus!
