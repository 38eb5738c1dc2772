use crate::solipath_platform::platform::{Platform, PlatformView};
use crate::solipath_platform::platform_filter::PlatformFilterTrait;
use vstd::prelude::*;

verus! {

/// A filter that lets every item through, whatever platforms it names.
pub struct UnfilteredPlatform;

impl UnfilteredPlatform {
    pub fn new() -> Self {
        UnfilteredPlatform
    }
}

impl PlatformFilterTrait for UnfilteredPlatform {
    open spec fn applies_to(&self, filters: Seq<PlatformView>) -> bool {
        true
    }

    fn current_platform_is_match(&self, platform_filter: &[Platform]) -> (is_match: bool) {
        true
    }
}

} // verus!
