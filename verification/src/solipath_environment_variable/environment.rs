use crate::solipath_directory::cache_path::{CachePath, CachePathView};
use vstd::prelude::*;

verus! {

/// The model of a [`VariableValue`].
pub enum VariableValueView {
    Text(Seq<char>),
    Path(CachePathView),
}

/// What a variable is set to: a text as it stands, or a location.
#[derive(Debug, PartialEq, Eq)]
pub enum VariableValue {
    Text(String),
    Path(CachePath),
}

impl DeepView for VariableValue {
    type V = VariableValueView;

    open spec fn deep_view(&self) -> VariableValueView {
        match self {
            VariableValue::Text(text) => VariableValueView::Text(text@),
            VariableValue::Path(path) => VariableValueView::Path(path@),
        }
    }
}

impl View for VariableValue {
    type V = VariableValueView;

    open spec fn view(&self) -> VariableValueView {
        self.deep_view()
    }
}

impl Clone for VariableValue {
    fn clone(&self) -> (copy: Self)
        ensures
            copy@ == self@,
    {
        match self {
            VariableValue::Text(text) => VariableValue::Text(text.clone()),
            VariableValue::Path(path) => VariableValue::Path(path.clone()),
        }
    }
}

/// The model of an [`EnvironmentChange`].
pub enum EnvironmentChangeView {
    PrependToPath { entry: VariableValueView },
    SetVariable { name: Seq<char>, value: VariableValueView },
}

/// One change to the environment.
#[derive(Debug, PartialEq, Eq)]
pub enum EnvironmentChange {
    /// Put `entry` in front of the entries of the search path.
    PrependToPath { entry: VariableValue },
    /// Set the variable `name` to `value`, whatever it was before.
    SetVariable { name: String, value: VariableValue },
}

impl DeepView for EnvironmentChange {
    type V = EnvironmentChangeView;

    open spec fn deep_view(&self) -> EnvironmentChangeView {
        match self {
            EnvironmentChange::PrependToPath { entry } => EnvironmentChangeView::PrependToPath {
                entry: entry@,
            },
            EnvironmentChange::SetVariable { name, value } => EnvironmentChangeView::SetVariable {
                name: name@,
                value: value@,
            },
        }
    }
}

impl View for EnvironmentChange {
    type V = EnvironmentChangeView;

    open spec fn view(&self) -> EnvironmentChangeView {
        self.deep_view()
    }
}

/// The model of an [`Environment`]: the entries of the search path, first
/// searched first, and the other variables as the list of what they were set
/// to, latest last.
pub struct EnvironmentView {
    pub path: Seq<VariableValueView>,
    pub assignments: Seq<(Seq<char>, VariableValueView)>,
}

impl EnvironmentView {
    /// This environment after `change`.
    pub open spec fn changed(self, change: EnvironmentChangeView) -> EnvironmentView {
        match change {
            EnvironmentChangeView::PrependToPath { entry } => EnvironmentView {
                path: seq![entry] + self.path,
                assignments: self.assignments,
            },
            EnvironmentChangeView::SetVariable { name, value } => EnvironmentView {
                path: self.path,
                assignments: self.assignments.push((name, value)),
            },
        }
    }

    /// This environment after `changes`, made one after the other.
    pub open spec fn changed_by_all(self, changes: Seq<EnvironmentChangeView>) -> EnvironmentView
        decreases changes.len(),
    {
        if changes.len() == 0 {
            self
        } else {
            self.changed_by_all(changes.drop_last()).changed(changes.last())
        }
    }

    /// What the variable `name` holds: what it was set to last.
    pub open spec fn value_of(self, name: Seq<char>) -> Option<VariableValueView>
        decreases self.assignments.len(),
    {
        if self.assignments.len() == 0 {
            None
        } else if self.assignments.last().0 == name {
            Some(self.assignments.last().1)
        } else {
            let earlier = EnvironmentView {
                path: self.path,
                assignments: self.assignments.drop_last(),
            };
            earlier.value_of(name)
        }
    }
}

/// The entries that `changes` put in front of the search path, in the order
/// of the changes.
pub open spec fn prepended_entries(changes: Seq<EnvironmentChangeView>) -> Seq<VariableValueView>
    decreases changes.len(),
{
    if changes.len() == 0 {
        Seq::empty()
    } else {
        match changes.last() {
            EnvironmentChangeView::PrependToPath { entry } => prepended_entries(
                changes.drop_last(),
            ).push(entry),
            _ => prepended_entries(changes.drop_last()),
        }
    }
}

/// After a list of changes the search path begins with what the changes put
/// in front of it, the latest first, and goes on as it was: what is declared
/// later is found before what is declared earlier.
pub proof fn lemma_later_entries_come_first(
    environment: EnvironmentView,
    changes: Seq<EnvironmentChangeView>,
)
    ensures
        environment.changed_by_all(changes).path == prepended_entries(changes).reverse()
            + environment.path,
    decreases changes.len(),
{
    if changes.len() == 0 {
        assert(prepended_entries(changes).reverse() + environment.path =~= environment.path);
    } else {
        lemma_later_entries_come_first(environment, changes.drop_last());
        let earlier = prepended_entries(changes.drop_last());
        match changes.last() {
            EnvironmentChangeView::PrependToPath { entry } => {
                assert(earlier.push(entry).reverse() =~= seq![entry] + earlier.reverse());
                assert(seq![entry] + (earlier.reverse() + environment.path) =~= (seq![entry]
                    + earlier.reverse()) + environment.path);
            },
            _ => {},
        }
    }
}

/// A variable holds what it was set to last, whatever it held before.
pub proof fn lemma_set_overwrites(
    environment: EnvironmentView,
    name: Seq<char>,
    value: VariableValueView,
)
    ensures
        ({
            let change = EnvironmentChangeView::SetVariable { name, value };
            environment.changed(change).value_of(name) == Some(value)
        }),
{
}

/// An environment: the entries of the search path and the other variables.
#[derive(Debug, PartialEq, Eq)]
pub struct Environment {
    path: Vec<VariableValue>,
    assignments: Vec<(String, VariableValue)>,
}

impl DeepView for Environment {
    type V = EnvironmentView;

    closed spec fn deep_view(&self) -> EnvironmentView {
        EnvironmentView { path: self.path.deep_view(), assignments: self.assignments.deep_view() }
    }
}

impl View for Environment {
    type V = EnvironmentView;

    open spec fn view(&self) -> EnvironmentView {
        self.deep_view()
    }
}

impl Environment {
    /// An environment with the search path `path` and no other variable.
    pub fn new(path: Vec<VariableValue>) -> (environment: Self)
        ensures
            environment@ == (EnvironmentView { path: path.deep_view(), assignments: Seq::empty() }),
    {
        let environment = Environment { path, assignments: Vec::new() };
        assert(environment.assignments.deep_view() =~= Seq::empty());
        environment
    }

    /// The entries of the search path, first searched first.
    pub fn get_path(&self) -> (path: &Vec<VariableValue>)
        ensures
            path.deep_view() == self@.path,
    {
        &self.path
    }

    /// What the other variables were set to, latest last.
    pub fn get_assignments(&self) -> (assignments: &Vec<(String, VariableValue)>)
        ensures
            assignments.deep_view() == self@.assignments,
    {
        &self.assignments
    }

    /// Makes one change.
    pub fn apply(&mut self, change: EnvironmentChange)
        ensures
            final(self)@ == old(self)@.changed(change@),
    {
        match change {
            EnvironmentChange::PrependToPath { entry } => {
                let ghost before = self.path.deep_view();
                self.path.insert(0, entry);
                assert(self.path.deep_view() =~= seq![entry@] + before);
            },
            EnvironmentChange::SetVariable { name, value } => {
                let ghost before = self.assignments.deep_view();
                self.assignments.push((name, value));
                assert(self.assignments.deep_view() =~= before.push((name@, value@)));
            },
        }
    }

    /// Makes the changes one after the other.
    pub fn apply_all(&mut self, changes: Vec<EnvironmentChange>)
        ensures
            final(self)@ == old(self)@.changed_by_all(changes.deep_view()),
    {
        let ghost all = changes.deep_view();
        let mut changes = changes;
        let mut done: usize = 0;
        let total = changes.len();
        assert(all.take(0) =~= Seq::empty());
        while changes.len() > 0
            invariant
                done + changes.len() == total,
                total == all.len(),
                changes.deep_view() =~= all.skip(done as int),
                self@ == old(self)@.changed_by_all(all.take(done as int)),
            decreases changes.len(),
        {
            let ghost rest = changes.deep_view();
            let change = changes.remove(0);
            assert(change@ == rest[0]);
            assert(changes.deep_view() =~= rest.skip(1));
            assert(all.take(done + 1).drop_last() =~= all.take(done as int));
            assert(all.take(done + 1).last() == change@);
            self.apply(change);
            done += 1;
        }
        assert(all.take(done as int) =~= all);
    }
}

} // verus!
