//! What makes a run fail before anything outside the library has gone wrong.

use crate::text::joined;
use vstd::prelude::*;

verus! {

/// The model of a [`SolipathError`].
pub enum SolipathErrorView {
    UnrecognizedRule { rule_name: Seq<char>, dependency_name: Seq<char> },
    EnvironmentVariableWithoutValue { variable_name: Seq<char>, dependency_name: Seq<char> },
    NoCommandGiven,
    FailureReported,
    UnexpectedEvent,
}

/// What ends a run before its command has run.
#[derive(Debug, PartialEq, Eq)]
pub enum SolipathError {
    /// An install command names a rule that the library does not know.
    UnrecognizedRule { rule_name: String, dependency_name: String },
    /// An environment variable has neither a value nor a relative path.
    EnvironmentVariableWithoutValue { variable_name: String, dependency_name: String },
    /// There is no command to run at the end.
    NoCommandGiven,
    /// Something outside the library failed, and the caller said so.
    FailureReported,
    /// The caller reported something that does not belong to the phase that
    /// the run is in.
    UnexpectedEvent,
}

impl DeepView for SolipathError {
    type V = SolipathErrorView;

    open spec fn deep_view(&self) -> SolipathErrorView {
        match self {
            SolipathError::UnrecognizedRule { rule_name, dependency_name } => {
                SolipathErrorView::UnrecognizedRule {
                    rule_name: rule_name@,
                    dependency_name: dependency_name@,
                }
            },
            SolipathError::EnvironmentVariableWithoutValue { variable_name, dependency_name } => {
                SolipathErrorView::EnvironmentVariableWithoutValue {
                    variable_name: variable_name@,
                    dependency_name: dependency_name@,
                }
            },
            SolipathError::NoCommandGiven => SolipathErrorView::NoCommandGiven,
            SolipathError::FailureReported => SolipathErrorView::FailureReported,
            SolipathError::UnexpectedEvent => SolipathErrorView::UnexpectedEvent,
        }
    }
}

impl View for SolipathError {
    type V = SolipathErrorView;

    open spec fn view(&self) -> SolipathErrorView {
        self.deep_view()
    }
}

/// The model of what a function that may fail hands back.
pub open spec fn result_view<T: DeepView>(
    result: Result<T, SolipathError>,
) -> Result<T::V, SolipathErrorView> {
    match result {
        Ok(value) => Ok(value.deep_view()),
        Err(error) => Err(error@),
    }
}

/// The model of [`UntilFailure`].
pub struct UntilFailureView<B> {
    pub results: Seq<B>,
    pub failure: Option<SolipathErrorView>,
}

impl<B> UntilFailureView<B> {
    /// All the results where nothing failed, else the failure.
    pub open spec fn as_result(self) -> Result<Seq<B>, SolipathErrorView> {
        match self.failure {
            Some(error) => Err(error),
            None => Ok(self.results),
        }
    }
}

/// What came of steps that are taken in order and may fail: the results of
/// those before the first that failed, and its failure. Where none failed,
/// the results of all.
#[derive(Debug, PartialEq, Eq)]
pub struct UntilFailure<T> {
    pub results: Vec<T>,
    pub failure: Option<SolipathError>,
}

impl<T: DeepView> DeepView for UntilFailure<T> {
    type V = UntilFailureView<T::V>;

    open spec fn deep_view(&self) -> UntilFailureView<T::V> {
        UntilFailureView { results: self.results.deep_view(), failure: self.failure.deep_view() }
    }
}

/// What `outcome` gives for the items of `items`, taken in order up to the
/// first for which it gives an error.
pub open spec fn attempted<A, B>(
    items: Seq<A>,
    outcome: spec_fn(A) -> Result<B, SolipathErrorView>,
) -> UntilFailureView<B>
    decreases items.len(),
{
    if items.len() == 0 {
        UntilFailureView { results: Seq::empty(), failure: None }
    } else {
        let before = attempted(items.drop_last(), outcome);
        match before.failure {
            Some(_) => before,
            None => match outcome(items.last()) {
                Ok(result) => UntilFailureView {
                    results: before.results.push(result),
                    failure: None,
                },
                Err(error) => UntilFailureView { results: before.results, failure: Some(error) },
            },
        }
    }
}

/// A failure among the first `count` items ends the list: what comes behind
/// it changes nothing.
pub proof fn lemma_failure_ends_the_list<A, B>(
    items: Seq<A>,
    outcome: spec_fn(A) -> Result<B, SolipathErrorView>,
    count: int,
)
    requires
        0 <= count <= items.len(),
        attempted(items.take(count), outcome).failure is Some,
    ensures
        attempted(items, outcome) == attempted(items.take(count), outcome),
    decreases items.len() - count,
{
    if count < items.len() {
        assert(items.take(count + 1).drop_last() =~= items.take(count));
        lemma_failure_ends_the_list(items, outcome, count + 1);
    } else {
        assert(items.take(count) =~= items);
    }
}

/// Two functions that agree on every item give the same.
pub proof fn lemma_attempted_agrees<A, B>(
    items: Seq<A>,
    outcome: spec_fn(A) -> Result<B, SolipathErrorView>,
    other: spec_fn(A) -> Result<B, SolipathErrorView>,
)
    requires
        forall|i: int| 0 <= i < items.len() ==> outcome(#[trigger] items[i]) == other(items[i]),
    ensures
        attempted(items, outcome) == attempted(items, other),
    decreases items.len(),
{
    if items.len() > 0 {
        let front = items.drop_last();
        assert forall|i: int| 0 <= i < front.len() implies outcome(#[trigger] front[i]) == other(
            front[i],
        ) by {
            assert(front[i] == items[i]);
        }
        lemma_attempted_agrees(front, outcome, other);
        assert(items.last() == items[items.len() - 1]);
    }
}

impl SolipathErrorView {
    /// The sentence that reports this error.
    pub open spec fn message(self) -> Seq<char> {
        match self {
            SolipathErrorView::UnrecognizedRule { rule_name, dependency_name } => {
                "unrecognized command filter option '"@ + rule_name + "' in '"@ + dependency_name
                    + "' dependency!"@
            },
            SolipathErrorView::EnvironmentVariableWithoutValue {
                variable_name,
                dependency_name,
            } => {
                "expected relative path to be defined for environment variable '"@ + variable_name
                    + "' in '"@ + dependency_name + "' dependency!"@
            },
            SolipathErrorView::NoCommandGiven => "expected at least one command!"@,
            SolipathErrorView::FailureReported => "a step of the run failed"@,
            SolipathErrorView::UnexpectedEvent => "the run was continued out of order"@,
        }
    }
}

impl SolipathError {
    /// The sentence that reports this error.
    pub fn message(&self) -> (message: String)
        ensures
            message@ == self@.message(),
    {
        match self {
            SolipathError::UnrecognizedRule { rule_name, dependency_name } => {
                let mut message = joined(
                    "unrecognized command filter option '",
                    rule_name.as_str(),
                );
                message.append("' in '");
                message.append(dependency_name.as_str());
                message.append("' dependency!");
                message
            },
            SolipathError::EnvironmentVariableWithoutValue { variable_name, dependency_name } => {
                let mut message = joined(
                    "expected relative path to be defined for environment variable '",
                    variable_name.as_str(),
                );
                message.append("' in '");
                message.append(dependency_name.as_str());
                message.append("' dependency!");
                message
            },
            SolipathError::NoCommandGiven => String::from_str("expected at least one command!"),
            SolipathError::FailureReported => String::from_str("a step of the run failed"),
            SolipathError::UnexpectedEvent => String::from_str(
                "the run was continued out of order",
            ),
        }
    }
}

} // verus!
