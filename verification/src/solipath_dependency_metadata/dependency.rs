use crate::solipath_platform::platform::{clone_platforms, Platform, PlatformView};
use crate::solipath_platform::platform_filter::HasPlatformFilter;
use vstd::prelude::*;

verus! {

/// The model of a [`Dependency`].
pub struct DependencyView {
    pub name: Seq<char>,
    pub version: Seq<char>,
    pub platform_filters: Seq<PlatformView>,
}

/// A named, versioned installable unit, with the platforms it is restricted
/// to. Name and version identify it.
#[derive(Debug, PartialEq, Eq)]
pub struct Dependency {
    pub name: String,
    pub version: String,
    platform_filters: Vec<Platform>,
}

impl DeepView for Dependency {
    type V = DependencyView;

    closed spec fn deep_view(&self) -> DependencyView {
        DependencyView {
            name: self.name@,
            version: self.version@,
            platform_filters: self.platform_filters.deep_view(),
        }
    }
}

impl View for Dependency {
    type V = DependencyView;

    open spec fn view(&self) -> DependencyView {
        self.deep_view()
    }
}

impl Clone for Dependency {
    fn clone(&self) -> (copy: Self)
        ensures
            copy@ == self@,
    {
        Dependency {
            name: self.name.clone(),
            version: self.version.clone(),
            platform_filters: clone_platforms(self.platform_filters.as_slice()),
        }
    }
}

impl Dependency {
    /// A dependency that applies on every platform.
    pub fn new(name: &str, version: &str) -> (dependency: Self)
        ensures
            dependency@ == (DependencyView {
                name: name@,
                version: version@,
                platform_filters: Seq::empty(),
            }),
    {
        let dependency = Dependency {
            name: String::from_str(name),
            version: String::from_str(version),
            platform_filters: Vec::new(),
        };
        assert(dependency.platform_filters.deep_view() =~= Seq::empty());
        dependency
    }

    /// A dependency restricted to the platforms of `platform_filters`.
    pub fn new_with_platform_filters(
        name: &str,
        version: &str,
        platform_filters: Vec<Platform>,
    ) -> (dependency: Self)
        ensures
            dependency@ == (DependencyView {
                name: name@,
                version: version@,
                platform_filters: platform_filters.deep_view(),
            }),
    {
        Dependency {
            name: String::from_str(name),
            version: String::from_str(version),
            platform_filters,
        }
    }

    pub fn get_name(&self) -> (name: &String)
        ensures
            name@ == self@.name,
    {
        &self.name
    }

    pub fn get_version(&self) -> (version: &String)
        ensures
            version@ == self@.version,
    {
        &self.version
    }

    pub fn get_platform_filters(&self) -> (filters: &[Platform])
        ensures
            filters.deep_view() == self@.platform_filters,
    {
        self.platform_filters.as_slice()
    }
}

impl HasPlatformFilter for Dependency {
    open spec fn filters_of(item: DependencyView) -> Seq<PlatformView> {
        item.platform_filters
    }

    fn get_platform_filters(&self) -> (filters: &[Platform]) {
        self.platform_filters.as_slice()
    }

    proof fn lemma_clone_keeps_model(original: &Self, copy: &Self) {
    }
}

} // verus!
