use crate::error::{attempted, lemma_failure_ends_the_list, UntilFailure, UntilFailureView};
use crate::solipath_dependency_metadata::dependency::DependencyView;
use crate::solipath_instructions::data::dependency_instructions::{
    applicable,
    filter_pairs,
    grouped,
    DependencyInstructions,
    DependencyInstructionsView,
    VecDependencyInstructions,
};
use crate::solipath_instructions::data::install_command::{InstallCommand, InstallCommandView};
use crate::solipath_platform::platform_filter::PlatformFilterTrait;
use crate::solipath_shell::install_command_executor::{
    InstallCommandExecutorTrait,
    InstallStep,
    InstallStepView,
};
use vstd::prelude::*;

verus! {

/// The steps that the pairs come to, in their order up to the first pair
/// that comes to none.
pub open spec fn steps_of<E: InstallCommandExecutorTrait>(
    executor: &E,
    pairs: Seq<(DependencyView, InstallCommandView)>,
) -> UntilFailureView<InstallStepView> {
    attempted(
        pairs,
        |pair: (DependencyView, InstallCommandView)| executor.step_for(pair.0, pair.1),
    )
}

/// Lists the install commands of a run, made ready in the order in which
/// they are to run.
pub struct LoopingInstallCommandExecutor<
    'a,
    E: InstallCommandExecutorTrait,
    F: PlatformFilterTrait,
> {
    install_command_executor: &'a E,
    platform_filter: &'a F,
}

impl<'a, E: InstallCommandExecutorTrait, F: PlatformFilterTrait> LoopingInstallCommandExecutor<
    'a,
    E,
    F,
> {
    pub fn new(install_command_executor: &'a E, platform_filter: &'a F) -> (executor: Self)
        ensures
            executor.executor() == install_command_executor,
            executor.filter() == platform_filter,
    {
        LoopingInstallCommandExecutor { install_command_executor, platform_filter }
    }

    /// The executor that makes one command ready.
    pub closed spec fn executor(&self) -> &'a E {
        self.install_command_executor
    }

    /// The filter that commands are held against.
    pub closed spec fn filter(&self) -> &'a F {
        self.platform_filter
    }

    /// The steps for `list`: those of the install commands of every entry
    /// that apply on the platform, in the order of the entries and of each
    /// entry's own list, up to the first command with a rule that the
    /// library does not know.
    pub open spec fn steps_for(
        &self,
        list: Seq<DependencyInstructionsView>,
    ) -> UntilFailureView<InstallStepView> {
        steps_of(
            self.executor(),
            applicable::<F, InstallCommand>(self.filter(), grouped::<InstallCommand>(list)),
        )
    }

    /// The install commands of the list, made ready.
    pub fn run_install_commands(
        &self,
        dependency_instructions_list: &Vec<DependencyInstructions>,
    ) -> (steps: UntilFailure<InstallStep>)
        ensures
            steps.deep_view() == self.steps_for(dependency_instructions_list.deep_view()),
    {
        let commands = filter_pairs(
            self.platform_filter,
            dependency_instructions_list.get_install_commands(),
        );
        let ghost outcome = |pair: (DependencyView, InstallCommandView)|
            self.executor().step_for(pair.0, pair.1);
        let mut steps: Vec<InstallStep> = Vec::new();
        let mut i: usize = 0;
        assert(commands.deep_view().take(0) =~= Seq::empty());
        assert(steps.deep_view() =~= Seq::empty());
        while i < commands.len()
            invariant
                i <= commands.len(),
                commands.deep_view() == applicable::<F, InstallCommand>(
                    self.filter(),
                    grouped::<InstallCommand>(dependency_instructions_list.deep_view()),
                ),
                outcome == |pair: (DependencyView, InstallCommandView)|
                    self.executor().step_for(pair.0, pair.1),
                attempted(commands.deep_view().take(i as int), outcome) == (UntilFailureView {
                    results: steps.deep_view(),
                    failure: None,
                }),
            decreases commands.len() - i,
        {
            let ghost before = steps.deep_view();
            let (dependency, install_command) = commands[i];
            proof {
                let next = commands.deep_view().take(i + 1);
                assert(next.drop_last() =~= commands.deep_view().take(i as int));
                assert(next.last() == (dependency@, install_command@));
            }
            match self.install_command_executor.execute_command(dependency, install_command) {
                Ok(step) => {
                    steps.push(step);
                    assert(steps.deep_view() =~= before.push(step@));
                },
                Err(error) => {
                    proof {
                        assert(attempted(commands.deep_view().take(i + 1), outcome)
                            == (UntilFailureView { results: before, failure: Some(error@) }));
                        lemma_failure_ends_the_list(commands.deep_view(), outcome, i + 1);
                    }
                    return UntilFailure { results: steps, failure: Some(error) };
                },
            }
            i += 1;
        }
        assert(commands.deep_view().take(i as int) =~= commands.deep_view());
        UntilFailure { results: steps, failure: None }
    }
}

} // verus!
