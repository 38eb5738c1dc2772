use crate::error::{result_view, SolipathError, SolipathErrorView};
use crate::solipath_dependency_metadata::dependency::{Dependency, DependencyView};
use crate::solipath_directory::cache_path::{CachePath, CachePathView};
use crate::solipath_directory::solipath_directory_finder::{
    dependency_downloads_directory,
    SolipathDirectoryFinderTrait,
};
use crate::solipath_instructions::data::install_command::{InstallCommand, InstallCommandView};
use crate::solipath_shell::install_command_filter::{
    checks_for,
    InstallCommandFilter,
    WhenToRunCheck,
    WhenToRunCheckView,
};
use crate::text::{joined, same_text};
use vstd::prelude::*;

verus! {

/// The model of an [`InstallStep`].
pub struct InstallStepView {
    pub checks: Seq<WhenToRunCheckView>,
    pub downloads_directory: CachePathView,
    pub command: Seq<char>,
}

/// An install command made ready: where all of `checks` are met, the
/// downloads directory is created with its parents and `command` is run in
/// it as one shell line.
#[derive(Debug, PartialEq, Eq)]
pub struct InstallStep {
    checks: Vec<WhenToRunCheck>,
    downloads_directory: CachePath,
    command: String,
}

impl DeepView for InstallStep {
    type V = InstallStepView;

    closed spec fn deep_view(&self) -> InstallStepView {
        InstallStepView {
            checks: self.checks.deep_view(),
            downloads_directory: self.downloads_directory@,
            command: self.command@,
        }
    }
}

impl View for InstallStep {
    type V = InstallStepView;

    open spec fn view(&self) -> InstallStepView {
        self.deep_view()
    }
}

/// The shell words that change into `downloads_directory`: `cd /d` and the
/// directory on Windows, where the drive may change too, `cd` and the
/// directory elsewhere.
pub open spec fn switch_command(
    operating_system: Seq<char>,
    downloads_directory: Seq<char>,
) -> Seq<char> {
    if operating_system == "windows"@ {
        "cd /d "@ + downloads_directory
    } else {
        "cd "@ + downloads_directory
    }
}

/// The shell line that runs `command` in `downloads_directory`.
pub open spec fn shell_line(
    operating_system: Seq<char>,
    downloads_directory: Seq<char>,
    command: Seq<char>,
) -> Seq<char> {
    switch_command(operating_system, downloads_directory) + " && "@ + command
}

/// The shell words that change into `downloads_directory`.
pub fn switch_to_download_directory_command(
    operating_system: &str,
    downloads_directory: &str,
) -> (command: String)
    ensures
        command@ == switch_command(operating_system@, downloads_directory@),
{
    if same_text(operating_system, "windows") {
        joined("cd /d ", downloads_directory)
    } else {
        joined("cd ", downloads_directory)
    }
}

impl InstallStep {
    pub fn get_checks(&self) -> (checks: &Vec<WhenToRunCheck>)
        ensures
            checks.deep_view() == self@.checks,
    {
        &self.checks
    }

    pub fn get_downloads_directory(&self) -> (downloads_directory: &CachePath)
        ensures
            downloads_directory@ == self@.downloads_directory,
    {
        &self.downloads_directory
    }

    pub fn get_command(&self) -> (command: &String)
        ensures
            command@ == self@.command,
    {
        &self.command
    }

    /// The shell line that runs the command of this step, given the text
    /// that the platform writes for its downloads directory.
    pub fn command_string(
        &self,
        operating_system: &str,
        downloads_directory: &str,
    ) -> (command_string: String)
        ensures
            command_string@ == shell_line(
                operating_system@,
                downloads_directory@,
                self@.command,
            ),
    {
        let mut command_string = switch_to_download_directory_command(
            operating_system,
            downloads_directory,
        );
        command_string.append(" && ");
        command_string.append(self.command.as_str());
        command_string
    }
}

/// What an install command of a dependency comes to: its checks, the
/// downloads directory of the dependency and its shell line. A rule that the
/// library does not know is an error.
pub open spec fn install_step_for(
    base: CachePathView,
    dependency: DependencyView,
    install_command: InstallCommandView,
) -> Result<InstallStepView, SolipathErrorView> {
    match checks_for(base, dependency, install_command.when_to_run_rules) {
        Ok(checks) => Ok(
            InstallStepView {
                checks,
                downloads_directory: dependency_downloads_directory(base, dependency),
                command: install_command.command,
            },
        ),
        Err(error) => Err(error),
    }
}

/// Makes an install command of a dependency ready to run.
pub trait InstallCommandExecutorTrait {
    /// What `install_command` of `dependency` comes to.
    spec fn step_for(
        &self,
        dependency: DependencyView,
        install_command: InstallCommandView,
    ) -> Result<InstallStepView, SolipathErrorView>;

    fn execute_command(
        &self,
        dependency: &Dependency,
        install_command: &InstallCommand,
    ) -> (step: Result<InstallStep, SolipathError>)
        ensures
            result_view(step) == self.step_for(dependency@, install_command@),
    ;
}

/// Reads the rules of install commands and places the commands in the
/// downloads directory of their dependency.
pub struct InstallCommandExecutor<'a, D: SolipathDirectoryFinderTrait> {
    install_command_filter: InstallCommandFilter<'a, D>,
    directory_finder: &'a D,
}

impl<'a, D: SolipathDirectoryFinderTrait> InstallCommandExecutor<'a, D> {
    pub fn new(directory_finder: &'a D) -> (executor: Self)
        ensures
            executor.base_directory() == directory_finder.base_directory(),
    {
        InstallCommandExecutor {
            install_command_filter: InstallCommandFilter::new(directory_finder),
            directory_finder,
        }
    }

    /// The root of the cache.
    pub closed spec fn base_directory(&self) -> CachePathView {
        self.directory_finder.base_directory()
    }

    #[verifier::type_invariant]
    spec fn well_formed(self) -> bool {
        self.install_command_filter.base_directory() == self.directory_finder.base_directory()
    }
}

impl<'a, D: SolipathDirectoryFinderTrait> InstallCommandExecutorTrait for InstallCommandExecutor<
    'a,
    D,
> {
    open spec fn step_for(
        &self,
        dependency: DependencyView,
        install_command: InstallCommandView,
    ) -> Result<InstallStepView, SolipathErrorView> {
        install_step_for(self.base_directory(), dependency, install_command)
    }

    fn execute_command(
        &self,
        dependency: &Dependency,
        install_command: &InstallCommand,
    ) -> (step: Result<InstallStep, SolipathError>) {
        proof {
            use_type_invariant(self);
        }
        match self.install_command_filter.checks(
            dependency,
            install_command.get_when_to_run_rules(),
        ) {
            Ok(checks) => Ok(
                InstallStep {
                    checks,
                    downloads_directory: self.directory_finder.get_dependency_downloads_directory(
                        dependency,
                    ),
                    command: install_command.get_command(),
                },
            ),
            Err(error) => Err(error),
        }
    }
}

} // verus!
