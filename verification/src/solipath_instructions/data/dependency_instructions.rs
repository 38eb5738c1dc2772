use crate::solipath_dependency_metadata::dependency::{Dependency, DependencyView};
use crate::solipath_instructions::data::download_instruction::{
    DownloadInstruction,
    DownloadInstructionView,
};
use crate::solipath_instructions::data::environment_variable::{
    EnvironmentVariable,
    EnvironmentVariableView,
};
use crate::solipath_instructions::data::install_command::{InstallCommand, InstallCommandView};
use crate::solipath_instructions::data::install_instructions::{
    InstallInstructions,
    InstallInstructionsView,
};
use crate::solipath_instructions::data::template::{Template, TemplateView};
use crate::solipath_platform::platform_filter::{
    lemma_filter_keeps_only_what_was_there,
    HasPlatformFilter,
    PlatformFilterTrait,
};
use vstd::prelude::*;

verus! {

/// The model of [`DependencyInstructions`].
pub struct DependencyInstructionsView {
    pub dependency: DependencyView,
    pub install_instructions: InstallInstructionsView,
}

impl DependencyInstructionsView {
    /// The same dependency with its instructions filtered.
    pub open spec fn filtered<F: PlatformFilterTrait>(self, platform_filter: &F) -> Self {
        DependencyInstructionsView {
            dependency: self.dependency,
            install_instructions: self.install_instructions.filtered(platform_filter),
        }
    }
}

/// A dependency together with instructions resolved for it.
#[derive(Debug, PartialEq, Eq)]
pub struct DependencyInstructions {
    dependency: Dependency,
    install_instructions: InstallInstructions,
}

impl DeepView for DependencyInstructions {
    type V = DependencyInstructionsView;

    closed spec fn deep_view(&self) -> DependencyInstructionsView {
        DependencyInstructionsView {
            dependency: self.dependency@,
            install_instructions: self.install_instructions@,
        }
    }
}

impl View for DependencyInstructions {
    type V = DependencyInstructionsView;

    open spec fn view(&self) -> DependencyInstructionsView {
        self.deep_view()
    }
}

impl Clone for DependencyInstructions {
    fn clone(&self) -> (copy: Self)
        ensures
            copy@ == self@,
    {
        DependencyInstructions {
            dependency: self.dependency.clone(),
            install_instructions: self.install_instructions.clone(),
        }
    }
}

impl DependencyInstructions {
    pub fn new(
        dependency: Dependency,
        install_instructions: InstallInstructions,
    ) -> (instructions: Self)
        ensures
            instructions@ == (DependencyInstructionsView {
                dependency: dependency@,
                install_instructions: install_instructions@,
            }),
    {
        DependencyInstructions { dependency, install_instructions }
    }

    pub fn get_dependency(&self) -> (dependency: &Dependency)
        ensures
            dependency@ == self@.dependency,
    {
        &self.dependency
    }

    pub fn get_environment_variables(&self) -> (environment_variables: &Vec<EnvironmentVariable>)
        ensures
            environment_variables.deep_view() == self@.install_instructions.environment_variables,
    {
        self.install_instructions.get_environment_variables()
    }

    pub fn get_downloads(&self) -> (downloads: &Vec<DownloadInstruction>)
        ensures
            downloads.deep_view() == self@.install_instructions.downloads,
    {
        self.install_instructions.get_downloads()
    }

    pub fn get_templates(&self) -> (templates: &Vec<Template>)
        ensures
            templates.deep_view() == self@.install_instructions.templates,
    {
        self.install_instructions.get_templates()
    }

    pub fn get_install_commands(&self) -> (install_commands: &Vec<InstallCommand>)
        ensures
            install_commands.deep_view() == self@.install_instructions.install_commands,
    {
        self.install_instructions.get_install_commands()
    }

    /// The same dependency with the instructions that apply under
    /// `platform_filter`.
    pub fn filter_platform<F: PlatformFilterTrait>(&self, platform_filter: &F) -> (filtered: Self)
        ensures
            filtered@ == self@.filtered(platform_filter),
    {
        DependencyInstructions {
            dependency: self.dependency.clone(),
            install_instructions: self.install_instructions.filter_platform(platform_filter),
        }
    }
}

/// One of the four kinds of item that instructions hold.
pub trait InstructionField: DeepView + Sized {
    /// The list of items of this kind in `instructions`.
    spec fn field_of(instructions: InstallInstructionsView) -> Seq<Self::V>;

    fn get_field(instructions: &DependencyInstructions) -> (items: &Vec<Self>)
        ensures
            items.deep_view() == Self::field_of(instructions@.install_instructions),
    ;
}

impl InstructionField for EnvironmentVariable {
    open spec fn field_of(instructions: InstallInstructionsView) -> Seq<EnvironmentVariableView> {
        instructions.environment_variables
    }

    fn get_field(instructions: &DependencyInstructions) -> (items: &Vec<Self>) {
        instructions.get_environment_variables()
    }
}

impl InstructionField for DownloadInstruction {
    open spec fn field_of(instructions: InstallInstructionsView) -> Seq<DownloadInstructionView> {
        instructions.downloads
    }

    fn get_field(instructions: &DependencyInstructions) -> (items: &Vec<Self>) {
        instructions.get_downloads()
    }
}

impl InstructionField for InstallCommand {
    open spec fn field_of(instructions: InstallInstructionsView) -> Seq<InstallCommandView> {
        instructions.install_commands
    }

    fn get_field(instructions: &DependencyInstructions) -> (items: &Vec<Self>) {
        instructions.get_install_commands()
    }
}

impl InstructionField for Template {
    open spec fn field_of(instructions: InstallInstructionsView) -> Seq<TemplateView> {
        instructions.templates
    }

    fn get_field(instructions: &DependencyInstructions) -> (items: &Vec<Self>) {
        instructions.get_templates()
    }
}

/// Each item paired with `dependency`, in the order of `items`.
pub open spec fn paired<V>(dependency: DependencyView, items: Seq<V>) -> Seq<(DependencyView, V)> {
    Seq::new(items.len(), |i: int| (dependency, items[i]))
}

/// The items of one kind of every entry of `list`, each paired with the
/// dependency that owns it: first those of the first entry in their order,
/// then those of the second, and so on.
pub open spec fn grouped<T: InstructionField>(
    list: Seq<DependencyInstructionsView>,
) -> Seq<(DependencyView, T::V)>
    decreases list.len(),
{
    if list.len() == 0 {
        Seq::empty()
    } else {
        grouped::<T>(list.drop_last()) + paired(
            list.last().dependency,
            T::field_of(list.last().install_instructions),
        )
    }
}

/// Every entry of `list` filtered, in the order of `list`.
pub open spec fn all_filtered<F: PlatformFilterTrait>(
    list: Seq<DependencyInstructionsView>,
    platform_filter: &F,
) -> Seq<DependencyInstructionsView> {
    Seq::new(list.len(), |i: int| list[i].filtered(platform_filter))
}

/// A dependency with the items `first` and `second`, followed by another with
/// the item `third`, group to the three pairs in exactly that order.
pub proof fn lemma_grouped_keeps_declaration_order<T: InstructionField>(
    one: DependencyInstructionsView,
    other: DependencyInstructionsView,
    first: T::V,
    second: T::V,
    third: T::V,
)
    requires
        T::field_of(one.install_instructions) == seq![first, second],
        T::field_of(other.install_instructions) == seq![third],
    ensures
        grouped::<T>(seq![one, other]) == seq![
            (one.dependency, first),
            (one.dependency, second),
            (other.dependency, third),
        ],
{
    let list = seq![one, other];
    assert(list.drop_last() =~= seq![one]);
    assert(seq![one].drop_last() =~= Seq::<DependencyInstructionsView>::empty());
    assert(grouped::<T>(Seq::<DependencyInstructionsView>::empty()) =~= Seq::empty());
    assert(grouped::<T>(seq![one]) =~= paired(one.dependency, seq![first, second]));
    assert(grouped::<T>(list) =~= seq![
        (one.dependency, first),
        (one.dependency, second),
        (other.dependency, third),
    ]);
}

/// The items of one kind of every entry of `list`, each with the dependency
/// that owns it, in the order of `list` and of each entry's own list.
pub fn group_dependency_with_field<'a, T: InstructionField>(
    list: &'a Vec<DependencyInstructions>,
) -> (pairs: Vec<(&'a Dependency, &'a T)>)
    ensures
        pairs.deep_view() == grouped::<T>(list.deep_view()),
{
    let mut pairs: Vec<(&'a Dependency, &'a T)> = Vec::new();
    let mut i: usize = 0;
    assert(list.deep_view().take(0) =~= Seq::empty());
    assert(pairs.deep_view() =~= Seq::empty());
    while i < list.len()
        invariant
            i <= list.len(),
            pairs.deep_view() == grouped::<T>(list.deep_view().take(i as int)),
        decreases list.len() - i,
    {
        let instructions = &list[i];
        let dependency = instructions.get_dependency();
        let items = T::get_field(instructions);
        let ghost before = pairs.deep_view();
        let ghost next = list.deep_view().take(i + 1);
        assert(next.drop_last() =~= list.deep_view().take(i as int));
        assert(next.last() == instructions@);
        let mut k: usize = 0;
        while k < items.len()
            invariant
                k <= items.len(),
                dependency@ == instructions@.dependency,
                items.deep_view() == T::field_of(instructions@.install_instructions),
                pairs.deep_view() =~= before + paired(
                    dependency@,
                    items.deep_view().take(k as int),
                ),
            decreases items.len() - k,
        {
            let ghost so_far = pairs.deep_view();
            pairs.push((dependency, &items[k]));
            assert(pairs.deep_view() =~= so_far.push((dependency@, items[k as int].deep_view())));
            k += 1;
        }
        assert(items.deep_view().take(k as int) =~= items.deep_view());
        i += 1;
    }
    assert(list.deep_view().take(i as int) =~= list.deep_view());
    pairs
}

/// Each of `instructions` with the dependency at the same place of
/// `dependencies`.
pub open spec fn attributed(
    dependencies: Seq<DependencyView>,
    instructions: Seq<InstallInstructionsView>,
) -> Seq<DependencyInstructionsView> {
    Seq::new(
        dependencies.len(),
        |i: int|
            DependencyInstructionsView {
                dependency: dependencies[i],
                install_instructions: instructions[i],
            },
    )
}

/// Each of `instructions` with the dependency at the same place of
/// `dependencies`; `None` where the two lists differ in length.
pub fn attribute(
    dependencies: &Vec<Dependency>,
    instructions: &Vec<InstallInstructions>,
) -> (list: Option<Vec<DependencyInstructions>>)
    ensures
        list is Some <==> dependencies.len() == instructions.len(),
        list matches Some(list) ==> list.deep_view() == attributed(
            dependencies.deep_view(),
            instructions.deep_view(),
        ),
{
    if dependencies.len() != instructions.len() {
        return None;
    }
    let mut list: Vec<DependencyInstructions> = Vec::new();
    let mut i: usize = 0;
    while i < dependencies.len()
        invariant
            i <= dependencies.len(),
            dependencies.len() == instructions.len(),
            list.deep_view() =~= attributed(
                dependencies.deep_view(),
                instructions.deep_view(),
            ).take(i as int),
        decreases dependencies.len() - i,
    {
        let ghost before = list.deep_view();
        let entry = DependencyInstructions::new(dependencies[i].clone(), instructions[i].clone());
        list.push(entry);
        assert(list.deep_view() =~= before.push(entry@));
        i += 1;
    }
    Some(list)
}

/// The dependencies of the entries of `list`, in their order.
pub open spec fn owners(list: Seq<DependencyInstructionsView>) -> Seq<DependencyView> {
    list.map_values(|entry: DependencyInstructionsView| entry.dependency)
}

/// Every pair of the grouped items carries the dependency of one of the
/// entries.
pub proof fn lemma_grouped_items_keep_their_owner<T: InstructionField>(
    list: Seq<DependencyInstructionsView>,
)
    ensures
        forall|i: int|
            0 <= i < grouped::<T>(list).len() ==> exists|k: int|
                0 <= k < list.len() && (#[trigger] grouped::<T>(list)[i]).0
                    == (#[trigger] list[k]).dependency,
    decreases list.len(),
{
    if list.len() > 0 {
        let front = list.drop_last();
        lemma_grouped_items_keep_their_owner::<T>(front);
        assert forall|i: int| 0 <= i < grouped::<T>(list).len() implies exists|k: int|
            0 <= k < list.len() && (#[trigger] grouped::<T>(list)[i]).0
                == (#[trigger] list[k]).dependency by {
            if i < grouped::<T>(front).len() {
                assert(grouped::<T>(list)[i] == grouped::<T>(front)[i]);
                let k = choose|k: int|
                    0 <= k < front.len() && grouped::<T>(front)[i].0 == (
                    #[trigger] front[k]).dependency;
                assert(front[k] == list[k]);
            } else {
                assert(grouped::<T>(list)[i].0 == list[list.len() - 1].dependency);
            }
        }
    }
}

/// The pairs whose item applies under `platform_filter`, in their order.
pub open spec fn applicable<F: PlatformFilterTrait, T: HasPlatformFilter>(
    platform_filter: &F,
    pairs: Seq<(DependencyView, T::V)>,
) -> Seq<(DependencyView, T::V)> {
    pairs.filter(|pair: (DependencyView, T::V)| platform_filter.applies_to(T::filters_of(pair.1)))
}

/// Every pair that is kept was among the pairs, and its item applies under
/// the filter.
pub proof fn lemma_applicable_pairs<F: PlatformFilterTrait, T: HasPlatformFilter>(
    platform_filter: &F,
    pairs: Seq<(DependencyView, T::V)>,
)
    ensures
        forall|i: int|
            0 <= i < applicable::<F, T>(platform_filter, pairs).len() ==> {
                &&& platform_filter.applies_to(
                    T::filters_of((#[trigger] applicable::<F, T>(platform_filter, pairs)[i]).1),
                )
                &&& exists|j: int|
                    0 <= j < pairs.len() && applicable::<F, T>(platform_filter, pairs)[i]
                        == #[trigger] pairs[j]
            },
{
    let keep = |pair: (DependencyView, T::V)| platform_filter.applies_to(T::filters_of(pair.1));
    #[allow(deprecated)]
    pairs.filter_lemma(keep);
    lemma_filter_keeps_only_what_was_there(pairs, keep);
}

/// The pairs whose item applies under `platform_filter`, in their order.
pub fn filter_pairs<'a, F: PlatformFilterTrait, T: HasPlatformFilter>(
    platform_filter: &F,
    pairs: Vec<(&'a Dependency, &'a T)>,
) -> (kept: Vec<(&'a Dependency, &'a T)>)
    ensures
        kept.deep_view() == applicable::<F, T>(platform_filter, pairs.deep_view()),
{
    let ghost applies = |pair: (DependencyView, T::V)|
        platform_filter.applies_to(T::filters_of(pair.1));
    let mut kept: Vec<(&'a Dependency, &'a T)> = Vec::new();
    let mut i: usize = 0;
    proof {
        reveal(Seq::filter);
        assert(pairs.deep_view().take(0).len() == 0);
        assert(kept.deep_view() =~= Seq::empty());
    }
    while i < pairs.len()
        invariant
            i <= pairs.len(),
            applies == |pair: (DependencyView, T::V)|
                platform_filter.applies_to(T::filters_of(pair.1)),
            kept.deep_view() == pairs.deep_view().take(i as int).filter(applies),
        decreases pairs.len() - i,
    {
        let ghost before = kept.deep_view();
        let (dependency, item) = pairs[i];
        proof {
            reveal(Seq::filter);
            let next = pairs.deep_view().take(i + 1);
            assert(next.drop_last() =~= pairs.deep_view().take(i as int));
            assert(next.last() == (dependency@, item.deep_view()));
        }
        if platform_filter.current_platform_is_match(item.get_platform_filters()) {
            kept.push((dependency, item));
            assert(kept.deep_view() =~= before.push((dependency@, item.deep_view())));
        }
        i += 1;
    }
    assert(pairs.deep_view().take(i as int) =~= pairs.deep_view());
    kept
}

/// What a list of resolved instructions offers as a whole.
pub trait VecDependencyInstructions: DeepView<V = Seq<DependencyInstructionsView>> + Sized {
    fn get_environment_variables(&self) -> (pairs: Vec<(&Dependency, &EnvironmentVariable)>)
        ensures
            pairs.deep_view() == grouped::<EnvironmentVariable>(self.deep_view()),
    ;

    fn get_downloads(&self) -> (pairs: Vec<(&Dependency, &DownloadInstruction)>)
        ensures
            pairs.deep_view() == grouped::<DownloadInstruction>(self.deep_view()),
    ;

    fn get_install_commands(&self) -> (pairs: Vec<(&Dependency, &InstallCommand)>)
        ensures
            pairs.deep_view() == grouped::<InstallCommand>(self.deep_view()),
    ;

    fn get_templates(&self) -> (pairs: Vec<(&Dependency, &Template)>)
        ensures
            pairs.deep_view() == grouped::<Template>(self.deep_view()),
    ;

    fn filter_platform<F: PlatformFilterTrait>(&self, platform_filter: &F) -> (filtered: Self)
        ensures
            filtered.deep_view() == all_filtered(self.deep_view(), platform_filter),
    ;
}

impl VecDependencyInstructions for Vec<DependencyInstructions> {
    fn get_environment_variables(&self) -> (pairs: Vec<(&Dependency, &EnvironmentVariable)>) {
        group_dependency_with_field::<EnvironmentVariable>(self)
    }

    fn get_downloads(&self) -> (pairs: Vec<(&Dependency, &DownloadInstruction)>) {
        group_dependency_with_field::<DownloadInstruction>(self)
    }

    fn get_install_commands(&self) -> (pairs: Vec<(&Dependency, &InstallCommand)>) {
        group_dependency_with_field::<InstallCommand>(self)
    }

    fn get_templates(&self) -> (pairs: Vec<(&Dependency, &Template)>) {
        group_dependency_with_field::<Template>(self)
    }

    fn filter_platform<F: PlatformFilterTrait>(&self, platform_filter: &F) -> (filtered: Self) {
        let mut filtered: Vec<DependencyInstructions> = Vec::new();
        let mut i: usize = 0;
        while i < self.len()
            invariant
                i <= self.len(),
                filtered.deep_view() =~= all_filtered(self.deep_view(), platform_filter).take(
                    i as int,
                ),
            decreases self.len() - i,
        {
            let ghost before = filtered.deep_view();
            let entry = self[i].filter_platform(platform_filter);
            filtered.push(entry);
            assert(filtered.deep_view() =~= before.push(entry@));
            i += 1;
        }
        assert(all_filtered(self.deep_view(), platform_filter).take(i as int) =~= all_filtered(
            self.deep_view(),
            platform_filter,
        ));
        filtered
    }
}

} // verus!
