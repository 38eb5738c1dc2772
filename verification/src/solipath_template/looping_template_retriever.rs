use crate::solipath_dependency_metadata::dependency::{Dependency, DependencyView};
use crate::solipath_download::fetch_request::{FetchRequest, FetchRequestView};
use crate::solipath_instructions::data::dependency_instructions::{
    applicable,
    filter_pairs,
    grouped,
    DependencyInstructions,
    DependencyInstructionsView,
    VecDependencyInstructions,
};
use crate::solipath_instructions::data::template::{Template, TemplateView};
use crate::solipath_platform::platform_filter::PlatformFilterTrait;
use crate::solipath_template::template_retriever::TemplateRetrieverTrait;
use vstd::prelude::*;

verus! {

/// The model of a [`TemplateRequest`].
pub struct TemplateRequestView {
    pub dependency: DependencyView,
    pub template: TemplateView,
    pub request: FetchRequestView,
}

/// The template document to fetch for a template of a dependency. What is
/// made of the document belongs to that same dependency.
#[derive(Debug, PartialEq, Eq)]
pub struct TemplateRequest {
    dependency: Dependency,
    template: Template,
    request: FetchRequest,
}

impl DeepView for TemplateRequest {
    type V = TemplateRequestView;

    closed spec fn deep_view(&self) -> TemplateRequestView {
        TemplateRequestView {
            dependency: self.dependency@,
            template: self.template@,
            request: self.request@,
        }
    }
}

impl View for TemplateRequest {
    type V = TemplateRequestView;

    open spec fn view(&self) -> TemplateRequestView {
        self.deep_view()
    }
}

impl TemplateRequest {
    pub fn get_dependency(&self) -> (dependency: &Dependency)
        ensures
            dependency@ == self@.dependency,
    {
        &self.dependency
    }

    pub fn get_template(&self) -> (template: &Template)
        ensures
            template@ == self@.template,
    {
        &self.template
    }

    pub fn get_request(&self) -> (request: &FetchRequest)
        ensures
            request@ == self@.request,
    {
        &self.request
    }
}

/// Lists the template documents to fetch for the templates of resolved
/// instructions.
pub struct LoopingTemplateRetriever<'a, T: TemplateRetrieverTrait, F: PlatformFilterTrait> {
    template_retriever: &'a T,
    platform_filter: &'a F,
}

impl<'a, T: TemplateRetrieverTrait, F: PlatformFilterTrait> LoopingTemplateRetriever<'a, T, F> {
    pub fn new(template_retriever: &'a T, platform_filter: &'a F) -> (retriever: Self)
        ensures
            retriever.retriever() == template_retriever,
            retriever.filter() == platform_filter,
    {
        LoopingTemplateRetriever { template_retriever, platform_filter }
    }

    /// The retriever that says what is fetched for one template.
    pub closed spec fn retriever(&self) -> &'a T {
        self.template_retriever
    }

    /// The filter that templates are held against.
    pub closed spec fn filter(&self) -> &'a F {
        self.platform_filter
    }

    /// What is fetched for the templates of `list`: for every template that
    /// applies on the platform, in the order of the entries and of each
    /// entry's own list, the request that the retriever makes of it. Each
    /// request keeps the dependency that owns the template.
    pub open spec fn requests_for(
        &self,
        list: Seq<DependencyInstructionsView>,
    ) -> Seq<TemplateRequestView> {
        applicable::<F, Template>(self.filter(), grouped::<Template>(list)).map_values(
            |pair: (DependencyView, TemplateView)|
                TemplateRequestView {
                    dependency: pair.0,
                    template: pair.1,
                    request: self.retriever().request_for(pair.0, pair.1),
                },
        )
    }

    /// The template documents to fetch for the templates of the list.
    pub fn retrieve_instructions_from_templates(
        &self,
        instructions_list: &Vec<DependencyInstructions>,
    ) -> (requests: Vec<TemplateRequest>)
        ensures
            requests.deep_view() == self.requests_for(instructions_list.deep_view()),
    {
        let templates = filter_pairs(self.platform_filter, instructions_list.get_templates());
        let ghost wanted = self.requests_for(instructions_list.deep_view());
        let mut requests: Vec<TemplateRequest> = Vec::new();
        let mut i: usize = 0;
        while i < templates.len()
            invariant
                i <= templates.len(),
                wanted.len() == templates.len(),
                forall|j: int|
                    0 <= j < wanted.len() ==> (#[trigger] wanted[j]) == (TemplateRequestView {
                        dependency: templates.deep_view()[j].0,
                        template: templates.deep_view()[j].1,
                        request: self.retriever().request_for(
                            templates.deep_view()[j].0,
                            templates.deep_view()[j].1,
                        ),
                    }),
                requests.deep_view() =~= wanted.take(i as int),
            decreases templates.len() - i,
        {
            let ghost before = requests.deep_view();
            let (dependency, template) = templates[i];
            assert(templates.deep_view()[i as int] == (dependency@, template@));
            let request = self.template_retriever.retrieve_instructions_from_template(
                dependency,
                template,
            );
            let entry = TemplateRequest {
                dependency: dependency.clone(),
                template: template.clone(),
                request,
            };
            requests.push(entry);
            assert(requests.deep_view() =~= before.push(entry@));
            i += 1;
        }
        requests
    }
}

} // verus!
