use crate::error::{attempted, lemma_failure_ends_the_list, UntilFailure, UntilFailureView};
use crate::solipath_dependency_metadata::dependency::DependencyView;
use crate::solipath_environment_variable::environment::{EnvironmentChange, EnvironmentChangeView};
use crate::solipath_environment_variable::environment_setter::EnvironmentSetterTrait;
use crate::solipath_instructions::data::dependency_instructions::{
    applicable,
    filter_pairs,
    grouped,
    DependencyInstructions,
    DependencyInstructionsView,
    VecDependencyInstructions,
};
use crate::solipath_instructions::data::environment_variable::{
    EnvironmentVariable,
    EnvironmentVariableView,
};
use crate::solipath_platform::platform_filter::PlatformFilterTrait;
use vstd::prelude::*;

verus! {

/// The changes that the pairs stand for, in their order up to the first
/// pair that stands for none.
pub open spec fn changes_of<S: EnvironmentSetterTrait>(
    setter: &S,
    pairs: Seq<(DependencyView, EnvironmentVariableView)>,
) -> UntilFailureView<EnvironmentChangeView> {
    attempted(
        pairs,
        |pair: (DependencyView, EnvironmentVariableView)| setter.change(pair.0, pair.1),
    )
}

/// Lists the changes to the environment that the variables of a run stand
/// for.
pub struct LoopingEnvironmentSetter<'a, S: EnvironmentSetterTrait, F: PlatformFilterTrait> {
    environment_setter: &'a S,
    platform_filter: &'a F,
}

impl<'a, S: EnvironmentSetterTrait, F: PlatformFilterTrait> LoopingEnvironmentSetter<'a, S, F> {
    pub fn new(environment_setter: &'a S, platform_filter: &'a F) -> (setter: Self)
        ensures
            setter.setter() == environment_setter,
            setter.filter() == platform_filter,
    {
        LoopingEnvironmentSetter { environment_setter, platform_filter }
    }

    /// The setter that says what one variable stands for.
    pub closed spec fn setter(&self) -> &'a S {
        self.environment_setter
    }

    /// The filter that variables are held against.
    pub closed spec fn filter(&self) -> &'a F {
        self.platform_filter
    }

    /// The changes for `list`: those of the variables of every entry that
    /// apply on the platform, in the order of the entries and of each
    /// entry's own list, up to the first variable that has no value.
    pub open spec fn changes_for(
        &self,
        list: Seq<DependencyInstructionsView>,
    ) -> UntilFailureView<EnvironmentChangeView> {
        changes_of(
            self.setter(),
            applicable::<F, EnvironmentVariable>(
                self.filter(),
                grouped::<EnvironmentVariable>(list),
            ),
        )
    }

    /// The changes that the variables of the list stand for.
    pub fn set_environment_variables(
        &self,
        dependency_instructions_list: &Vec<DependencyInstructions>,
    ) -> (changes: UntilFailure<EnvironmentChange>)
        ensures
            changes.deep_view() == self.changes_for(dependency_instructions_list.deep_view()),
    {
        let variables = filter_pairs(
            self.platform_filter,
            dependency_instructions_list.get_environment_variables(),
        );
        let ghost outcome = |pair: (DependencyView, EnvironmentVariableView)|
            self.setter().change(pair.0, pair.1);
        let mut changes: Vec<EnvironmentChange> = Vec::new();
        let mut i: usize = 0;
        assert(variables.deep_view().take(0) =~= Seq::empty());
        assert(changes.deep_view() =~= Seq::empty());
        while i < variables.len()
            invariant
                i <= variables.len(),
                variables.deep_view() == applicable::<F, EnvironmentVariable>(
                    self.filter(),
                    grouped::<EnvironmentVariable>(dependency_instructions_list.deep_view()),
                ),
                outcome == |pair: (DependencyView, EnvironmentVariableView)|
                    self.setter().change(pair.0, pair.1),
                attempted(variables.deep_view().take(i as int), outcome) == (UntilFailureView {
                    results: changes.deep_view(),
                    failure: None,
                }),
            decreases variables.len() - i,
        {
            let ghost before = changes.deep_view();
            let (dependency, environment_variable) = variables[i];
            proof {
                let next = variables.deep_view().take(i + 1);
                assert(next.drop_last() =~= variables.deep_view().take(i as int));
                assert(next.last() == (dependency@, environment_variable@));
            }
            match self.environment_setter.set_variable(dependency, environment_variable) {
                Ok(change) => {
                    changes.push(change);
                    assert(changes.deep_view() =~= before.push(change@));
                },
                Err(error) => {
                    proof {
                        assert(attempted(variables.deep_view().take(i + 1), outcome)
                            == (UntilFailureView { results: before, failure: Some(error@) }));
                        lemma_failure_ends_the_list(variables.deep_view(), outcome, i + 1);
                    }
                    return UntilFailure { results: changes, failure: Some(error) };
                },
            }
            i += 1;
        }
        assert(variables.deep_view().take(i as int) =~= variables.deep_view());
        UntilFailure { results: changes, failure: None }
    }
}

} // verus!
