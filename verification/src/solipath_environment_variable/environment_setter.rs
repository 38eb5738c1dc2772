use crate::error::{result_view, SolipathError, SolipathErrorView};
use crate::path_buf_ext::PathBufExt;
use crate::solipath_dependency_metadata::dependency::{Dependency, DependencyView};
use crate::solipath_directory::cache_path::{CachePath, CachePathView};
use crate::solipath_directory::solipath_directory_finder::{
    dependency_downloads_directory,
    SolipathDirectoryFinderTrait,
};
use crate::solipath_environment_variable::environment::{
    EnvironmentChange,
    EnvironmentChangeView,
    VariableValue,
    VariableValueView,
};
use crate::solipath_instructions::data::environment_variable::{
    EnvironmentVariable,
    EnvironmentVariableView,
};
use crate::text::same_text;
use vstd::prelude::*;

verus! {

/// What a variable of a dependency is set to: its literal value where it has
/// one, else its relative path below the downloads directory of the
/// dependency. A variable with neither has no value.
pub open spec fn resolved_value(
    base: CachePathView,
    dependency: DependencyView,
    environment_variable: EnvironmentVariableView,
) -> Option<VariableValueView> {
    match environment_variable.value {
        Some(value) => Some(VariableValueView::Text(value)),
        None => match environment_variable.relative_path {
            Some(relative_path) => Some(
                VariableValueView::Path(
                    dependency_downloads_directory(base, dependency).push(relative_path),
                ),
            ),
            None => None,
        },
    }
}

/// The change that a variable of a dependency stands for: the variable
/// `PATH` puts its value in front of the search path, every other variable
/// is set to its value. A variable without a value is an error.
pub open spec fn change_for(
    base: CachePathView,
    dependency: DependencyView,
    environment_variable: EnvironmentVariableView,
) -> Result<EnvironmentChangeView, SolipathErrorView> {
    match resolved_value(base, dependency, environment_variable) {
        Some(value) => Ok(
            if environment_variable.name == "PATH"@ {
                EnvironmentChangeView::PrependToPath { entry: value }
            } else {
                EnvironmentChangeView::SetVariable { name: environment_variable.name, value }
            },
        ),
        None => Err(
            SolipathErrorView::EnvironmentVariableWithoutValue {
                variable_name: environment_variable.name,
                dependency_name: dependency.name,
            },
        ),
    }
}

/// Turns a variable of a dependency into a change to the environment.
pub trait EnvironmentSetterTrait {
    /// The change that `environment_variable` of `dependency` stands for.
    spec fn change(
        &self,
        dependency: DependencyView,
        environment_variable: EnvironmentVariableView,
    ) -> Result<EnvironmentChangeView, SolipathErrorView>;

    fn set_variable(
        &self,
        dependency: &Dependency,
        environment_variable: &EnvironmentVariable,
    ) -> (change: Result<EnvironmentChange, SolipathError>)
        ensures
            result_view(change) == self.change(dependency@, environment_variable@),
    ;
}

/// Resolves relative paths below the downloads directories of a cache.
pub struct EnvironmentSetter<'a, D: SolipathDirectoryFinderTrait> {
    directory_finder: &'a D,
}

impl<'a, D: SolipathDirectoryFinderTrait> EnvironmentSetter<'a, D> {
    pub fn new(directory_finder: &'a D) -> (setter: Self)
        ensures
            setter.base_directory() == directory_finder.base_directory(),
    {
        EnvironmentSetter { directory_finder }
    }

    /// The root of the cache.
    pub closed spec fn base_directory(&self) -> CachePathView {
        self.directory_finder.base_directory()
    }

    /// The location that `relative_path` names below the downloads directory
    /// of `dependency`.
    pub fn convert_relative_path_from_downloads_directory_to_absolute_path(
        &self,
        dependency: &Dependency,
        relative_path: &str,
    ) -> (path: CachePath)
        ensures
            path@ == dependency_downloads_directory(self.base_directory(), dependency@).push(
                relative_path@,
            ),
    {
        self.directory_finder.get_dependency_downloads_directory(dependency).clone_push(
            relative_path,
        )
    }
}

impl<'a, D: SolipathDirectoryFinderTrait> EnvironmentSetterTrait for EnvironmentSetter<'a, D> {
    open spec fn change(
        &self,
        dependency: DependencyView,
        environment_variable: EnvironmentVariableView,
    ) -> Result<EnvironmentChangeView, SolipathErrorView> {
        change_for(self.base_directory(), dependency, environment_variable)
    }

    fn set_variable(
        &self,
        dependency: &Dependency,
        environment_variable: &EnvironmentVariable,
    ) -> (change: Result<EnvironmentChange, SolipathError>) {
        let name = environment_variable.get_name();
        let value = match environment_variable.get_value() {
            Some(value) => VariableValue::Text(value.clone()),
            None => match environment_variable.get_relative_path() {
                Some(relative_path) => VariableValue::Path(
                    self.convert_relative_path_from_downloads_directory_to_absolute_path(
                        dependency,
                        relative_path.as_str(),
                    ),
                ),
                None => {
                    return Err(
                        SolipathError::EnvironmentVariableWithoutValue {
                            variable_name: name,
                            dependency_name: dependency.get_name().clone(),
                        },
                    );
                },
            },
        };
        if same_text(name.as_str(), "PATH") {
            Ok(EnvironmentChange::PrependToPath { entry: value })
        } else {
            Ok(EnvironmentChange::SetVariable { name, value })
        }
    }
}

} // verus!
