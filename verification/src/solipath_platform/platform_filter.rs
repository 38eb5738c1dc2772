use crate::solipath_platform::current_platform_retriever::CurrentPlatformRetrieverTrait;
use crate::solipath_platform::platform::{Platform, PlatformView};
use vstd::prelude::*;

verus! {

/// Some platform of `filters` covers `current`.
pub open spec fn match_found(filters: Seq<PlatformView>, current: PlatformView) -> bool {
    exists|i: int| 0 <= i < filters.len() && #[trigger] filters[i].is_superset_of(current)
}

/// An item with the filter list `filters` applies on `current`: the list is
/// empty, or one of its platforms covers `current`.
pub open spec fn platform_matches(current: PlatformView, filters: Seq<PlatformView>) -> bool {
    filters.len() == 0 || match_found(filters, current)
}

/// Decides whether an item applies, given the platforms it is restricted to.
pub trait PlatformFilterTrait {
    /// Whether an item restricted to `filters` applies.
    spec fn applies_to(&self, filters: Seq<PlatformView>) -> bool;

    fn current_platform_is_match(&self, platform_filter: &[Platform]) -> (is_match: bool)
        ensures
            is_match == self.applies_to(platform_filter.deep_view()),
    ;
}

/// An item that carries a list of platforms it is restricted to.
pub trait HasPlatformFilter: DeepView + Clone + Sized {
    /// The filter list, read off the model of an item.
    spec fn filters_of(item: Self::V) -> Seq<PlatformView>;

    fn get_platform_filters(&self) -> (filters: &[Platform])
        ensures
            filters.deep_view() == Self::filters_of(self.deep_view()),
    ;

    /// A clone of an item has the model of the item.
    proof fn lemma_clone_keeps_model(original: &Self, copy: &Self)
        requires
            cloned(*original, *copy),
        ensures
            copy.deep_view() == original.deep_view(),
    ;
}

/// The items of `list` that apply under `platform_filter`, in their order.
pub open spec fn kept_items<F: PlatformFilterTrait, T: HasPlatformFilter>(
    platform_filter: &F,
    list: Seq<T::V>,
) -> Seq<T::V> {
    list.filter(|item: T::V| platform_filter.applies_to(T::filters_of(item)))
}

/// A list whose items all satisfy `keep` is left whole.
proof fn lemma_filter_keeps_all<A>(list: Seq<A>, keep: spec_fn(A) -> bool)
    requires
        forall|i: int| 0 <= i < list.len() ==> keep(#[trigger] list[i]),
    ensures
        list.filter(keep) == list,
    decreases list.len(),
{
    reveal(Seq::filter);
    if list.len() > 0 {
        let front = list.drop_last();
        assert forall|i: int| 0 <= i < front.len() implies keep(#[trigger] front[i]) by {
            assert(front[i] == list[i]);
        }
        lemma_filter_keeps_all(front, keep);
        assert(keep(list[list.len() - 1]));
        assert(front.push(list.last()) =~= list);
    }
}

/// What a filter keeps was in the list.
pub proof fn lemma_filter_keeps_only_what_was_there<A>(list: Seq<A>, keep: spec_fn(A) -> bool)
    ensures
        forall|i: int|
            0 <= i < list.filter(keep).len() ==> exists|j: int|
                0 <= j < list.len() && #[trigger] list.filter(keep)[i] == #[trigger] list[j],
    decreases list.len(),
{
    reveal(Seq::filter);
    if list.len() > 0 {
        let front = list.drop_last();
        lemma_filter_keeps_only_what_was_there(front, keep);
        assert forall|i: int| 0 <= i < list.filter(keep).len() implies exists|j: int|
            0 <= j < list.len() && #[trigger] list.filter(keep)[i] == #[trigger] list[j] by {
            if i < front.filter(keep).len() {
                assert(list.filter(keep)[i] == front.filter(keep)[i]);
                let j = choose|j: int|
                    0 <= j < front.len() && front.filter(keep)[i] == #[trigger] front[j];
                assert(front[j] == list[j]);
            } else {
                assert(list.filter(keep)[i] == list[list.len() - 1]);
            }
        }
    }
}

/// Every item that is kept applies under the filter.
pub proof fn lemma_kept_items_apply<F: PlatformFilterTrait, T: HasPlatformFilter>(
    platform_filter: &F,
    list: Seq<T::V>,
)
    ensures
        forall|i: int|
            0 <= i < kept_items::<F, T>(platform_filter, list).len() ==> platform_filter.applies_to(
                T::filters_of(#[trigger] kept_items::<F, T>(platform_filter, list)[i]),
            ),
{
    let keep = |item: T::V| platform_filter.applies_to(T::filters_of(item));
    #[allow(deprecated)]
    list.filter_lemma(keep);
}

/// Filtering what has been filtered keeps all of it: whether an item applies
/// is the same however often it is asked.
pub proof fn lemma_filtering_again_keeps_everything<F: PlatformFilterTrait, T: HasPlatformFilter>(
    platform_filter: &F,
    list: Seq<T::V>,
)
    ensures
        kept_items::<F, T>(platform_filter, kept_items::<F, T>(platform_filter, list))
            == kept_items::<F, T>(platform_filter, list),
{
    let keep = |item: T::V| platform_filter.applies_to(T::filters_of(item));
    lemma_kept_items_apply::<F, T>(platform_filter, list);
    lemma_filter_keeps_all(list.filter(keep), keep);
}

/// Copies of the items of `list` that apply under `platform_filter`, in their
/// order.
pub fn filter_list<F: PlatformFilterTrait, T: HasPlatformFilter>(
    platform_filter: &F,
    list: &Vec<T>,
) -> (kept: Vec<T>)
    ensures
        kept.deep_view() == kept_items::<F, T>(platform_filter, list.deep_view()),
{
    let ghost applies = |item: T::V| platform_filter.applies_to(T::filters_of(item));
    let mut kept: Vec<T> = Vec::new();
    let mut i: usize = 0;
    proof {
        reveal(Seq::filter);
        assert(list.deep_view().take(0).len() == 0);
    }
    while i < list.len()
        invariant
            i <= list.len(),
            applies == |item: T::V| platform_filter.applies_to(T::filters_of(item)),
            kept.deep_view() == list.deep_view().take(i as int).filter(applies),
        decreases list.len() - i,
    {
        let ghost before = kept.deep_view();
        let item = &list[i];
        let is_match = platform_filter.current_platform_is_match(item.get_platform_filters());
        proof {
            reveal(Seq::filter);
            let next = list.deep_view().take(i + 1);
            assert(next.drop_last() =~= list.deep_view().take(i as int));
            assert(next.last() == item.deep_view());
        }
        if is_match {
            let copy = item.clone();
            proof {
                T::lemma_clone_keeps_model(item, &copy);
            }
            kept.push(copy);
            assert(kept.deep_view() =~= before.push(item.deep_view()));
        }
        i += 1;
    }
    assert(list.deep_view().take(i as int) =~= list.deep_view());
    kept
}

/// Matches filter lists against the platform of a retriever.
pub struct PlatformFilter<R: CurrentPlatformRetrieverTrait> {
    current_platform_retriever: R,
}

impl<R: CurrentPlatformRetrieverTrait> PlatformFilter<R> {
    pub fn new(current_platform_retriever: R) -> (platform_filter: Self)
        ensures
            platform_filter.current_platform() == current_platform_retriever.current_platform(),
    {
        PlatformFilter { current_platform_retriever }
    }

    /// The platform that filter lists are matched against.
    pub closed spec fn current_platform(&self) -> PlatformView {
        self.current_platform_retriever.current_platform()
    }

    /// Whether some platform of the list covers the current platform.
    pub fn match_found_in_list(&self, platform_list: &[Platform]) -> (found: bool)
        ensures
            found == match_found(platform_list.deep_view(), self.current_platform()),
    {
        let current_platform = self.current_platform_retriever.get_current_platform();
        let mut i: usize = 0;
        while i < platform_list.len()
            invariant
                i <= platform_list.len(),
                current_platform@ == self.current_platform(),
                forall|j: int|
                    0 <= j < i ==> !(#[trigger] platform_list.deep_view()[j]).is_superset_of(
                        current_platform@,
                    ),
            decreases platform_list.len() - i,
        {
            if platform_list[i].is_superset_of(&current_platform) {
                assert(platform_list.deep_view()[i as int].is_superset_of(current_platform@));
                return true;
            }
            i += 1;
        }
        false
    }
}

impl<R: CurrentPlatformRetrieverTrait> PlatformFilterTrait for PlatformFilter<R> {
    open spec fn applies_to(&self, filters: Seq<PlatformView>) -> bool {
        platform_matches(self.current_platform(), filters)
    }

    fn current_platform_is_match(&self, platform_list: &[Platform]) -> (is_match: bool) {
        platform_list.len() == 0 || self.match_found_in_list(platform_list)
    }
}

/// A filter that names an operating system and no architecture matches every
/// platform with that operating system, whatever its architecture.
pub proof fn lemma_os_only_filter_matches_any_architecture(
    os: Seq<char>,
    arch: Option<Seq<char>>,
)
    ensures
        platform_matches(
            PlatformView { os, arch },
            seq![PlatformView { os, arch: None }],
        ),
{
    let filters = seq![PlatformView { os, arch: None }];
    assert(filters[0].is_superset_of(PlatformView { os, arch }));
}

/// A filter with both fields set matches a platform exactly when the
/// operating systems are equal and the architectures are equal.
pub proof fn lemma_full_filter_matches_iff_equal(
    filter_os: Seq<char>,
    filter_arch: Seq<char>,
    current: PlatformView,
)
    ensures
        platform_matches(current, seq![PlatformView { os: filter_os, arch: Some(filter_arch) }])
            <==> (current.os == filter_os && current.arch == Some(filter_arch)),
{
    let filters = seq![PlatformView { os: filter_os, arch: Some(filter_arch) }];
    if current.os == filter_os && current.arch == Some(filter_arch) {
        assert(filters[0].is_superset_of(current));
    }
}

/// An item with an empty filter list applies on every platform.
pub proof fn lemma_empty_filter_list_matches(current: PlatformView)
    ensures
        platform_matches(current, Seq::empty()),
{
}

} // verus!
