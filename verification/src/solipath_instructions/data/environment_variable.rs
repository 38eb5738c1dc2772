use crate::solipath_platform::platform::{clone_platforms, Platform, PlatformView};
use crate::solipath_platform::platform_filter::HasPlatformFilter;
use vstd::prelude::*;

verus! {

/// The model of an [`EnvironmentVariable`].
pub struct EnvironmentVariableView {
    pub name: Seq<char>,
    pub relative_path: Option<Seq<char>>,
    pub value: Option<Seq<char>>,
    pub platform_filters: Seq<PlatformView>,
}

/// A variable to set: either to a literal value, or to a path given relative
/// to the downloads directory of its dependency.
#[derive(Debug, PartialEq, Eq)]
pub struct EnvironmentVariable {
    name: String,
    relative_path: Option<String>,
    value: Option<String>,
    platform_filters: Vec<Platform>,
}

impl DeepView for EnvironmentVariable {
    type V = EnvironmentVariableView;

    closed spec fn deep_view(&self) -> EnvironmentVariableView {
        EnvironmentVariableView {
            name: self.name@,
            relative_path: self.relative_path.deep_view(),
            value: self.value.deep_view(),
            platform_filters: self.platform_filters.deep_view(),
        }
    }
}

impl View for EnvironmentVariable {
    type V = EnvironmentVariableView;

    open spec fn view(&self) -> EnvironmentVariableView {
        self.deep_view()
    }
}

/// A copy of an optional text.
pub fn clone_optional_text(text: &Option<String>) -> (copy: Option<String>)
    ensures
        copy.deep_view() == text.deep_view(),
{
    match text {
        Some(text) => Some(text.clone()),
        None => None,
    }
}

impl Clone for EnvironmentVariable {
    fn clone(&self) -> (copy: Self)
        ensures
            copy@ == self@,
    {
        EnvironmentVariable {
            name: self.name.clone(),
            relative_path: clone_optional_text(&self.relative_path),
            value: clone_optional_text(&self.value),
            platform_filters: clone_platforms(self.platform_filters.as_slice()),
        }
    }
}

impl EnvironmentVariable {
    pub fn new(
        name: &str,
        relative_path: Option<String>,
        value: Option<String>,
        platform_filters: Vec<Platform>,
    ) -> (environment_variable: Self)
        ensures
            environment_variable@ == (EnvironmentVariableView {
                name: name@,
                relative_path: relative_path.deep_view(),
                value: value.deep_view(),
                platform_filters: platform_filters.deep_view(),
            }),
    {
        EnvironmentVariable { name: String::from_str(name), relative_path, value, platform_filters }
    }

    pub fn get_name(&self) -> (name: String)
        ensures
            name@ == self@.name,
    {
        self.name.clone()
    }

    pub fn get_relative_path(&self) -> (relative_path: &Option<String>)
        ensures
            relative_path.deep_view() == self@.relative_path,
    {
        &self.relative_path
    }

    pub fn get_value(&self) -> (value: &Option<String>)
        ensures
            value.deep_view() == self@.value,
    {
        &self.value
    }
}

impl HasPlatformFilter for EnvironmentVariable {
    open spec fn filters_of(item: EnvironmentVariableView) -> Seq<PlatformView> {
        item.platform_filters
    }

    fn get_platform_filters(&self) -> (filters: &[Platform]) {
        self.platform_filters.as_slice()
    }

    proof fn lemma_clone_keeps_model(original: &Self, copy: &Self) {
    }
}

} // verus!
