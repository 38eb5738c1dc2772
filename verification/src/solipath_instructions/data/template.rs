use crate::solipath_platform::platform::{clone_platforms, Platform, PlatformView};
use crate::solipath_platform::platform_filter::HasPlatformFilter;
use crate::text_map::{Entries, TextMap};
use vstd::prelude::*;

verus! {

/// The model of a [`Template`].
pub struct TemplateView {
    pub name: Seq<char>,
    pub variables: Entries,
    pub platform_filters: Seq<PlatformView>,
}

/// A reference to a named instruction fragment of a dependency, with the
/// values that are put in for the fragment's variables.
#[derive(Debug, PartialEq, Eq)]
pub struct Template {
    name: String,
    variables: TextMap,
    platform_filters: Vec<Platform>,
}

impl DeepView for Template {
    type V = TemplateView;

    closed spec fn deep_view(&self) -> TemplateView {
        TemplateView {
            name: self.name@,
            variables: self.variables@,
            platform_filters: self.platform_filters.deep_view(),
        }
    }
}

impl View for Template {
    type V = TemplateView;

    open spec fn view(&self) -> TemplateView {
        self.deep_view()
    }
}

impl Clone for Template {
    fn clone(&self) -> (copy: Self)
        ensures
            copy@ == self@,
    {
        Template {
            name: self.name.clone(),
            variables: self.variables.clone(),
            platform_filters: clone_platforms(self.platform_filters.as_slice()),
        }
    }
}

impl Template {
    pub fn new(name: &str, variables: TextMap, platform_filters: Vec<Platform>) -> (template: Self)
        ensures
            template@ == (TemplateView {
                name: name@,
                variables: variables@,
                platform_filters: platform_filters.deep_view(),
            }),
    {
        Template { name: String::from_str(name), variables, platform_filters }
    }

    pub fn get_platform_filters(&self) -> (filters: &[Platform])
        ensures
            filters.deep_view() == self@.platform_filters,
    {
        self.platform_filters.as_slice()
    }

    pub fn get_variables(&self) -> (variables: &TextMap)
        ensures
            variables@ == self@.variables,
    {
        &self.variables
    }

    pub fn get_name(&self) -> (name: String)
        ensures
            name@ == self@.name,
    {
        self.name.clone()
    }
}

impl HasPlatformFilter for Template {
    open spec fn filters_of(item: TemplateView) -> Seq<PlatformView> {
        item.platform_filters
    }

    fn get_platform_filters(&self) -> (filters: &[Platform]) {
        self.platform_filters.as_slice()
    }

    proof fn lemma_clone_keeps_model(original: &Self, copy: &Self) {
    }
}

} // verus!
