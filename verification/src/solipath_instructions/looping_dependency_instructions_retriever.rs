use crate::solipath_dependency_metadata::dependency::{Dependency, DependencyView};
use crate::solipath_download::fetch_request::{FetchRequest, FetchRequestView};
use crate::solipath_instructions::dependency_instructions_retriever::{
    DependencyInstructionsRetrieverTrait,
};
use crate::solipath_platform::platform_filter::{filter_list, kept_items, PlatformFilterTrait};
use vstd::prelude::*;

verus! {

/// The model of an [`InstructionRequest`].
pub struct InstructionRequestView {
    pub dependency: DependencyView,
    pub request: FetchRequestView,
}

/// The instruction document to fetch for a dependency.
#[derive(Debug, PartialEq, Eq)]
pub struct InstructionRequest {
    dependency: Dependency,
    request: FetchRequest,
}

impl DeepView for InstructionRequest {
    type V = InstructionRequestView;

    closed spec fn deep_view(&self) -> InstructionRequestView {
        InstructionRequestView { dependency: self.dependency@, request: self.request@ }
    }
}

impl View for InstructionRequest {
    type V = InstructionRequestView;

    open spec fn view(&self) -> InstructionRequestView {
        self.deep_view()
    }
}

impl InstructionRequest {
    pub fn get_dependency(&self) -> (dependency: &Dependency)
        ensures
            dependency@ == self@.dependency,
    {
        &self.dependency
    }

    pub fn get_request(&self) -> (request: &FetchRequest)
        ensures
            request@ == self@.request,
    {
        &self.request
    }
}

/// Lists the instruction documents to fetch for the dependencies of a run.
pub struct LoopingDependencyInstructionsRetriever<
    'a,
    I: DependencyInstructionsRetrieverTrait,
    F: PlatformFilterTrait,
> {
    dependency_instructions_retriever: &'a I,
    platform_filter: &'a F,
}

impl<
    'a,
    I: DependencyInstructionsRetrieverTrait,
    F: PlatformFilterTrait,
> LoopingDependencyInstructionsRetriever<'a, I, F> {
    pub fn new(
        dependency_instructions_retriever: &'a I,
        platform_filter: &'a F,
    ) -> (retriever: Self)
        ensures
            retriever.retriever() == dependency_instructions_retriever,
            retriever.filter() == platform_filter,
    {
        LoopingDependencyInstructionsRetriever {
            dependency_instructions_retriever,
            platform_filter,
        }
    }

    /// The retriever that says what is fetched for one dependency.
    pub closed spec fn retriever(&self) -> &'a I {
        self.dependency_instructions_retriever
    }

    /// The filter that dependencies are held against.
    pub closed spec fn filter(&self) -> &'a F {
        self.platform_filter
    }

    /// What is fetched for `dependencies`: for every dependency that applies
    /// on the platform, in the order of the list, the request that the
    /// retriever makes of it.
    pub open spec fn requests_for(
        &self,
        dependencies: Seq<DependencyView>,
    ) -> Seq<InstructionRequestView> {
        kept_items::<F, Dependency>(self.filter(), dependencies).map_values(
            |dependency: DependencyView|
                InstructionRequestView {
                    dependency,
                    request: self.retriever().request_for(dependency),
                },
        )
    }

    /// The instruction documents to fetch for the dependencies of the list.
    pub fn retrieve_dependency_instructions_list(
        &self,
        dependency_list: &Vec<Dependency>,
    ) -> (requests: Vec<InstructionRequest>)
        ensures
            requests.deep_view() == self.requests_for(dependency_list.deep_view()),
    {
        let ghost wanted = self.requests_for(dependency_list.deep_view());
        let dependency_list = filter_list(self.platform_filter, dependency_list);
        let mut requests: Vec<InstructionRequest> = Vec::new();
        let mut i: usize = 0;
        while i < dependency_list.len()
            invariant
                i <= dependency_list.len(),
                wanted.len() == dependency_list.len(),
                forall|j: int|
                    0 <= j < wanted.len() ==> (#[trigger] wanted[j]) == (InstructionRequestView {
                        dependency: dependency_list.deep_view()[j],
                        request: self.retriever().request_for(dependency_list.deep_view()[j]),
                    }),
                requests.deep_view() =~= wanted.take(i as int),
            decreases dependency_list.len() - i,
        {
            let ghost before = requests.deep_view();
            let dependency = dependency_list[i].clone();
            let request = self.dependency_instructions_retriever.retrieve_dependency_instructions(
                &dependency,
            );
            let entry = InstructionRequest { dependency, request };
            requests.push(entry);
            assert(requests.deep_view() =~= before.push(entry@));
            i += 1;
        }
        requests
    }
}

} // verus!
