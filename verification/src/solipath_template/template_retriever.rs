use crate::solipath_dependency_metadata::dependency::{Dependency, DependencyView};
use crate::solipath_directory::cache_path::{CachePath, CachePathView};
use crate::solipath_directory::solipath_directory_finder::{
    dependency_template_directory,
    SolipathDirectoryFinderTrait,
};
use crate::solipath_download::fetch_request::{FetchRequest, FetchRequestView};
use crate::solipath_instructions::data::template::{Template, TemplateView};
use crate::solipath_instructions::dependency_instructions_retriever::BASE_SOLIPATH_URL;
use crate::solipath_template::template_variable_replacer::{
    substituted,
    TemplateVariableReplacerTrait,
};
use crate::text::joined;
use vstd::prelude::*;

verus! {

/// Where the template document `template` of `dependency` is found: below the
/// base URL, then the name of the dependency, then `templates`, then the name
/// of the template with `.json` behind it.
pub open spec fn template_url(
    base_url: Seq<char>,
    dependency: DependencyView,
    template: TemplateView,
) -> Seq<char> {
    base_url + "/"@ + dependency.name + "/templates/"@ + template.name + ".json"@
}

/// Where the template document is cached: in the template directory of the
/// dependency, under the name of the template with `.json` behind it.
pub open spec fn template_path(
    base: CachePathView,
    dependency: DependencyView,
    template: TemplateView,
) -> CachePathView {
    dependency_template_directory(base, dependency).push(template.name + ".json"@)
}

/// Resolves a template of a dependency: says where its document is fetched
/// from and cached, and puts the variables into the fetched text.
pub trait TemplateRetrieverTrait {
    /// What is fetched for `template` of `dependency`.
    spec fn request_for(
        &self,
        dependency: DependencyView,
        template: TemplateView,
    ) -> FetchRequestView;

    fn retrieve_instructions_from_template(
        &self,
        dependency: &Dependency,
        template: &Template,
    ) -> (request: FetchRequest)
        ensures
            request@ == self.request_for(dependency@, template@),
    ;

    fn replace_variables(
        &self,
        template_content: &str,
        template: &Template,
    ) -> (replaced_template_content: String)
        ensures
            replaced_template_content@ == substituted(template_content@, template@.variables),
    ;
}

/// Finds template documents below a base URL, caches them below the root
/// of a cache and fills them in.
pub struct TemplateRetriever<
    'a,
    D: SolipathDirectoryFinderTrait,
    V: TemplateVariableReplacerTrait,
> {
    base_dependency_url: String,
    directory_finder: &'a D,
    template_variable_replacer: &'a V,
}

impl<'a, D: SolipathDirectoryFinderTrait, V: TemplateVariableReplacerTrait> TemplateRetriever<
    'a,
    D,
    V,
> {
    /// A retriever for the public instruction repository.
    pub fn new(directory_finder: &'a D, template_variable_replacer: &'a V) -> (retriever: Self)
        ensures
            retriever.base_url() == BASE_SOLIPATH_URL@,
            retriever.base_directory() == directory_finder.base_directory(),
    {
        TemplateRetriever {
            base_dependency_url: String::from_str(BASE_SOLIPATH_URL),
            directory_finder,
            template_variable_replacer,
        }
    }

    /// A retriever for the instruction repository at `base_dependency_url`.
    pub fn new_with_alternate_url(
        base_dependency_url: String,
        directory_finder: &'a D,
        template_variable_replacer: &'a V,
    ) -> (retriever: Self)
        ensures
            retriever.base_url() == base_dependency_url@,
            retriever.base_directory() == directory_finder.base_directory(),
    {
        TemplateRetriever { base_dependency_url, directory_finder, template_variable_replacer }
    }

    /// The URL below which the template documents are found.
    pub closed spec fn base_url(&self) -> Seq<char> {
        self.base_dependency_url@
    }

    /// The root of the cache.
    pub closed spec fn base_directory(&self) -> CachePathView {
        self.directory_finder.base_directory()
    }

    pub fn get_path_to_save_file(
        &self,
        dependency: &Dependency,
        template: &Template,
    ) -> (path: CachePath)
        ensures
            path@ == template_path(self.base_directory(), dependency@, template@),
    {
        let mut path_to_save_file = self.directory_finder.get_dependency_template_directory(
            dependency,
        );
        let file_name = joined(template.get_name().as_str(), ".json");
        path_to_save_file.push(file_name.as_str());
        path_to_save_file
    }

    pub fn get_url(&self, dependency: &Dependency, template: &Template) -> (url: String)
        ensures
            url@ == template_url(self.base_url(), dependency@, template@),
    {
        let mut url = self.base_dependency_url.clone();
        url.append("/");
        url.append(dependency.get_name().as_str());
        url.append("/templates/");
        url.append(template.get_name().as_str());
        url.append(".json");
        url
    }
}

impl<
    'a,
    D: SolipathDirectoryFinderTrait,
    V: TemplateVariableReplacerTrait,
> TemplateRetrieverTrait for TemplateRetriever<'a, D, V> {
    open spec fn request_for(
        &self,
        dependency: DependencyView,
        template: TemplateView,
    ) -> FetchRequestView {
        FetchRequestView {
            url: template_url(self.base_url(), dependency, template),
            destination: template_path(self.base_directory(), dependency, template),
        }
    }

    fn retrieve_instructions_from_template(
        &self,
        dependency: &Dependency,
        template: &Template,
    ) -> (request: FetchRequest) {
        let url = self.get_url(dependency, template);
        let output_path = self.get_path_to_save_file(dependency, template);
        FetchRequest::new(url, output_path)
    }

    fn replace_variables(
        &self,
        template_content: &str,
        template: &Template,
    ) -> (replaced_template_content: String) {
        self.template_variable_replacer.replace_variables(template_content, template)
    }
}

} // verus!
