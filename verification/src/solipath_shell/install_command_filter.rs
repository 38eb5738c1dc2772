use crate::error::{
    attempted,
    lemma_failure_ends_the_list,
    result_view,
    SolipathError,
    SolipathErrorView,
    UntilFailureView,
};
use crate::path_buf_ext::PathBufExt;
use crate::solipath_dependency_metadata::dependency::{Dependency, DependencyView};
use crate::solipath_directory::cache_path::{CachePath, CachePathView};
use crate::solipath_directory::solipath_directory_finder::{
    dependency_downloads_directory,
    SolipathDirectoryFinderTrait,
};
use crate::text::same_text;
use crate::text_map::{Entries, TextMap};
use vstd::prelude::*;

verus! {

/// The model of a [`WhenToRunCheck`].
pub enum WhenToRunCheckView {
    FileDoesNotExist { path: CachePathView },
}

impl WhenToRunCheckView {
    /// Whether the check is met, given whether its path exists.
    pub open spec fn is_met(self, path_exists: bool) -> bool {
        !path_exists
    }
}

/// A condition on the cache that an install command waits for.
#[derive(Debug, PartialEq, Eq)]
pub enum WhenToRunCheck {
    /// Met where nothing exists at `path`.
    FileDoesNotExist { path: CachePath },
}

impl DeepView for WhenToRunCheck {
    type V = WhenToRunCheckView;

    open spec fn deep_view(&self) -> WhenToRunCheckView {
        match self {
            WhenToRunCheck::FileDoesNotExist { path } => WhenToRunCheckView::FileDoesNotExist {
                path: path@,
            },
        }
    }
}

impl View for WhenToRunCheck {
    type V = WhenToRunCheckView;

    open spec fn view(&self) -> WhenToRunCheckView {
        self.deep_view()
    }
}

impl WhenToRunCheck {
    /// The path that the check looks at.
    pub fn get_path(&self) -> (path: &CachePath)
        ensures
            self@ == (WhenToRunCheckView::FileDoesNotExist { path: path@ }),
    {
        match self {
            WhenToRunCheck::FileDoesNotExist { path } => path,
        }
    }

    /// Whether the check is met, given whether its path exists.
    pub fn is_met(&self, path_exists: bool) -> (met: bool)
        ensures
            met == self@.is_met(path_exists),
    {
        !path_exists
    }
}

/// The check that one rule of a dependency stands for. The rule
/// `file_does_not_exist` names a path below the downloads directory of the
/// dependency; a rule of any other name is an error.
pub open spec fn check_for(
    base: CachePathView,
    dependency: DependencyView,
    rule_name: Seq<char>,
    rule_value: Seq<char>,
) -> Result<WhenToRunCheckView, SolipathErrorView> {
    if rule_name == "file_does_not_exist"@ {
        Ok(
            WhenToRunCheckView::FileDoesNotExist {
                path: dependency_downloads_directory(base, dependency).push(rule_value),
            },
        )
    } else {
        Err(SolipathErrorView::UnrecognizedRule { rule_name, dependency_name: dependency.name })
    }
}

/// The checks that the rules of a dependency stand for, in the order of the
/// rules; the error of the first rule that has one, where any has.
pub open spec fn checks_for(
    base: CachePathView,
    dependency: DependencyView,
    rules: Entries,
) -> Result<Seq<WhenToRunCheckView>, SolipathErrorView> {
    attempted(
        rules,
        |rule: (Seq<char>, Seq<char>)| check_for(base, dependency, rule.0, rule.1),
    ).as_result()
}

/// Every check is met.
pub open spec fn all_met(checks_met: Seq<bool>) -> bool {
    forall|i: int| 0 <= i < checks_met.len() ==> checks_met[i]
}

/// Reads the rules that say when an install command runs.
pub struct InstallCommandFilter<'a, D: SolipathDirectoryFinderTrait> {
    directory_finder: &'a D,
}

impl<'a, D: SolipathDirectoryFinderTrait> InstallCommandFilter<'a, D> {
    pub fn new(directory_finder: &'a D) -> (filter: Self)
        ensures
            filter.base_directory() == directory_finder.base_directory(),
    {
        InstallCommandFilter { directory_finder }
    }

    /// The root of the cache.
    pub closed spec fn base_directory(&self) -> CachePathView {
        self.directory_finder.base_directory()
    }

    /// The check that nothing exists at `relative_file_path` below the
    /// downloads directory of `dependency`.
    pub fn check_file_does_not_exist(
        &self,
        dependency: &Dependency,
        relative_file_path: &str,
    ) -> (check: WhenToRunCheck)
        ensures
            check@ == (WhenToRunCheckView::FileDoesNotExist {
                path: dependency_downloads_directory(self.base_directory(), dependency@).push(
                    relative_file_path@,
                ),
            }),
    {
        let downloads_path = self.directory_finder.get_dependency_downloads_directory(
            dependency,
        ).clone_push(relative_file_path);
        WhenToRunCheck::FileDoesNotExist { path: downloads_path }
    }

    /// The check that the rule `rule_name` with the value `rule_value`
    /// stands for.
    pub fn check_single_rule(
        &self,
        dependency: &Dependency,
        rule_name: &String,
        rule_value: &String,
    ) -> (check: Result<WhenToRunCheck, SolipathError>)
        ensures
            result_view(check) == check_for(
                self.base_directory(),
                dependency@,
                rule_name@,
                rule_value@,
            ),
    {
        if same_text(rule_name.as_str(), "file_does_not_exist") {
            Ok(self.check_file_does_not_exist(dependency, rule_value.as_str()))
        } else {
            Err(
                SolipathError::UnrecognizedRule {
                    rule_name: rule_name.clone(),
                    dependency_name: dependency.get_name().clone(),
                },
            )
        }
    }

    /// The checks that `when_to_run_rules` stand for. Every rule is read,
    /// so a rule that the library does not know is reported wherever it
    /// stands.
    pub fn checks(
        &self,
        dependency: &Dependency,
        when_to_run_rules: &TextMap,
    ) -> (checks: Result<Vec<WhenToRunCheck>, SolipathError>)
        ensures
            result_view(checks) == checks_for(
                self.base_directory(),
                dependency@,
                when_to_run_rules@,
            ),
    {
        let rules = when_to_run_rules.get_entries();
        let ghost outcome = |rule: (Seq<char>, Seq<char>)|
            check_for(self.base_directory(), dependency@, rule.0, rule.1);
        let mut checks: Vec<WhenToRunCheck> = Vec::new();
        let mut i: usize = 0;
        assert(rules.deep_view().take(0) =~= Entries::empty());
        assert(checks.deep_view() =~= Seq::empty());
        while i < rules.len()
            invariant
                i <= rules.len(),
                rules.deep_view() == when_to_run_rules@,
                outcome == |rule: (Seq<char>, Seq<char>)|
                    check_for(self.base_directory(), dependency@, rule.0, rule.1),
                attempted(rules.deep_view().take(i as int), outcome) == (UntilFailureView {
                    results: checks.deep_view(),
                    failure: None,
                }),
            decreases rules.len() - i,
        {
            let ghost before = checks.deep_view();
            proof {
                let next = rules.deep_view().take(i + 1);
                assert(next.drop_last() =~= rules.deep_view().take(i as int));
                assert(next.last() == rules.deep_view()[i as int]);
            }
            match self.check_single_rule(dependency, &rules[i].0, &rules[i].1) {
                Ok(check) => {
                    checks.push(check);
                    assert(checks.deep_view() =~= before.push(check@));
                },
                Err(error) => {
                    proof {
                        assert(attempted(rules.deep_view().take(i + 1), outcome).failure == Some(
                            error@,
                        ));
                        lemma_failure_ends_the_list(rules.deep_view(), outcome, i + 1);
                    }
                    return Err(error);
                },
            }
            i += 1;
        }
        assert(rules.deep_view().take(i as int) =~= rules.deep_view());
        Ok(checks)
    }
}

/// Whether a command runs, given for each of its checks whether it is
/// met: it runs where all are met, and so where there is none.
pub fn command_should_be_run(checks_met: &[bool]) -> (should_run: bool)
    ensures
        should_run == all_met(checks_met@),
{
    let mut should_run = true;
    let mut i: usize = 0;
    while i < checks_met.len()
        invariant
            i <= checks_met.len(),
            should_run == all_met(checks_met@.take(i as int)),
        decreases checks_met.len() - i,
    {
        assert(checks_met@.take(i + 1).drop_last() =~= checks_met@.take(i as int));
        proof {
            let next = checks_met@.take(i + 1);
            if all_met(next) {
                assert forall|j: int| 0 <= j < i implies checks_met@.take(i as int)[j] by {
                    assert(next[j]);
                }
                assert(next[i as int]);
            }
        }
        let met = checks_met[i];
        should_run = should_run && met;
        i += 1;
    }
    assert(checks_met@.take(i as int) =~= checks_met@);
    should_run
}

} // verus!
