use crate::error::{attempted, lemma_attempted_agrees, UntilFailure, UntilFailureView};
use crate::solipath_dependency_download::dependency_downloader::{
    download_request,
    DependencyDownloader,
};
use crate::solipath_dependency_download::looping_dependency_downloader::LoopingDependencyDownloader;
use crate::solipath_dependency_metadata::dependency::{Dependency, DependencyView};
use crate::solipath_directory::cache_path::CachePathView;
use crate::solipath_directory::solipath_directory_finder::{
    SolipathDirectoryFinder,
    SolipathDirectoryFinderTrait,
};
use crate::solipath_download::fetch_request::{FetchRequest, FetchRequestView};
use crate::solipath_environment_variable::environment::{EnvironmentChange, EnvironmentChangeView};
use crate::solipath_environment_variable::environment_setter::{
    change_for,
    EnvironmentSetter,
    EnvironmentSetterTrait,
};
use crate::solipath_environment_variable::looping_environment_setter::LoopingEnvironmentSetter;
use crate::solipath_instructions::data::dependency_instructions::{
    all_filtered,
    applicable,
    grouped,
    DependencyInstructions,
    DependencyInstructionsView,
    VecDependencyInstructions,
};
use crate::solipath_instructions::data::download_instruction::{
    DownloadInstruction,
    DownloadInstructionView,
};
use crate::solipath_instructions::data::environment_variable::{
    EnvironmentVariable,
    EnvironmentVariableView,
};
use crate::solipath_instructions::data::install_command::{InstallCommand, InstallCommandView};
use crate::solipath_instructions::data::template::{Template, TemplateView};
use crate::solipath_instructions::dependency_instructions_retriever::{
    instructions_path,
    instructions_url,
    DependencyInstructionsRetriever,
    BASE_SOLIPATH_URL,
};
use crate::solipath_instructions::looping_dependency_instructions_retriever::{
    InstructionRequest,
    InstructionRequestView,
    LoopingDependencyInstructionsRetriever,
};
use crate::solipath_platform::current_platform_retriever::{
    CurrentPlatformRetriever,
    CurrentPlatformRetrieverTrait,
};
use crate::solipath_platform::platform::PlatformView;
use crate::solipath_platform::platform_filter::{
    kept_items,
    lemma_kept_items_apply,
    HasPlatformFilter,
    PlatformFilter,
    PlatformFilterTrait,
};
use crate::solipath_shell::command_executor::{
    command_line_of,
    shell_command_line_of,
    CommandExecutor,
    CommandLine,
    CommandLineView,
};
use crate::solipath_shell::install_command_executor::{
    install_step_for,
    shell_line,
    InstallCommandExecutor,
    InstallCommandExecutorTrait,
    InstallStep,
    InstallStepView,
};
use crate::solipath_shell::looping_install_command_executor::LoopingInstallCommandExecutor;
use crate::solipath_template::looping_template_retriever::{
    LoopingTemplateRetriever,
    TemplateRequest,
    TemplateRequestView,
};
use crate::solipath_template::template_retriever::{
    template_path,
    template_url,
    TemplateRetriever,
};
use crate::solipath_template::template_variable_replacer::{
    substituted,
    TemplateVariableReplacer,
    TemplateVariableReplacerTrait,
};
use vstd::prelude::*;

verus! {

/// What the first phase asks for: for every dependency that applies on the
/// platform, in the order of the list, its instruction document.
pub open spec fn instruction_requests_of<F: PlatformFilterTrait>(
    platform_filter: &F,
    base_url: Seq<char>,
    base: CachePathView,
    dependencies: Seq<DependencyView>,
) -> Seq<InstructionRequestView> {
    kept_items::<F, Dependency>(platform_filter, dependencies).map_values(
        |dependency: DependencyView|
            InstructionRequestView {
                dependency,
                request: FetchRequestView {
                    url: instructions_url(base_url, dependency),
                    destination: instructions_path(base, dependency),
                },
            },
    )
}

/// Nothing is asked for a dependency that does not apply on the platform:
/// every request of the first phase is for a dependency that applies.
pub proof fn lemma_only_applicable_dependencies_are_resolved<F: PlatformFilterTrait>(
    platform_filter: &F,
    base_url: Seq<char>,
    base: CachePathView,
    dependencies: Seq<DependencyView>,
)
    ensures
        forall|i: int|
            0 <= i < instruction_requests_of(platform_filter, base_url, base, dependencies).len()
                ==> platform_filter.applies_to(
                (#[trigger] instruction_requests_of(
                    platform_filter,
                    base_url,
                    base,
                    dependencies,
                )[i]).dependency.platform_filters,
            ),
{
    lemma_kept_items_apply::<F, Dependency>(platform_filter, dependencies);
    let kept = kept_items::<F, Dependency>(platform_filter, dependencies);
    assert forall|i: int|
        0 <= i < instruction_requests_of(
            platform_filter,
            base_url,
            base,
            dependencies,
        ).len() implies platform_filter.applies_to(
        (#[trigger] instruction_requests_of(
            platform_filter,
            base_url,
            base,
            dependencies,
        )[i]).dependency.platform_filters,
    ) by {
        assert(platform_filter.applies_to(Dependency::filters_of(kept[i])));
    }
}

/// What the second phase asks for: for every template of the resolved
/// instructions that applies on the platform, in the order of the entries
/// and of each entry's own list, its template document.
pub open spec fn template_requests_of<F: PlatformFilterTrait>(
    platform_filter: &F,
    base_url: Seq<char>,
    base: CachePathView,
    resolved: Seq<DependencyInstructionsView>,
) -> Seq<TemplateRequestView> {
    applicable::<F, Template>(platform_filter, grouped::<Template>(resolved)).map_values(
        |pair: (DependencyView, TemplateView)|
            TemplateRequestView {
                dependency: pair.0,
                template: pair.1,
                request: FetchRequestView {
                    url: template_url(base_url, pair.0, pair.1),
                    destination: template_path(base, pair.0, pair.1),
                },
            },
    )
}

/// What the third phase asks for: for every download of the working list
/// that applies on the platform, in the order of the entries and of each
/// entry's own list, its artifact.
pub open spec fn download_requests_of<F: PlatformFilterTrait>(
    platform_filter: &F,
    base: CachePathView,
    working: Seq<DependencyInstructionsView>,
) -> Seq<FetchRequestView> {
    applicable::<F, DownloadInstruction>(
        platform_filter,
        grouped::<DownloadInstruction>(working),
    ).map_values(
        |pair: (DependencyView, DownloadInstructionView)| download_request(base, pair.0, pair.1),
    )
}

/// What the fourth phase asks for: the changes of the variables of the
/// working list that apply on the platform, in the order of the entries and
/// of each entry's own list, up to the first variable that has no value.
pub open spec fn environment_changes_of<F: PlatformFilterTrait>(
    platform_filter: &F,
    base: CachePathView,
    working: Seq<DependencyInstructionsView>,
) -> UntilFailureView<EnvironmentChangeView> {
    attempted(
        applicable::<F, EnvironmentVariable>(
            platform_filter,
            grouped::<EnvironmentVariable>(working),
        ),
        |pair: (DependencyView, EnvironmentVariableView)| change_for(base, pair.0, pair.1),
    )
}

/// What the fifth phase asks for first: the install commands of the working
/// list that apply on the platform, made ready, in the order of the entries
/// and of each entry's own list, up to the first command with a rule that
/// the library does not know.
pub open spec fn install_steps_of<F: PlatformFilterTrait>(
    platform_filter: &F,
    base: CachePathView,
    working: Seq<DependencyInstructionsView>,
) -> UntilFailureView<InstallStepView> {
    attempted(
        applicable::<F, InstallCommand>(platform_filter, grouped::<InstallCommand>(working)),
        |pair: (DependencyView, InstallCommandView)| install_step_for(base, pair.0, pair.1),
    )
}

/// How the command of an install step is started on the operating system
/// `operating_system`: as the shell line that changes into the downloads
/// directory and then runs the command, handed to the shell of that
/// operating system.
pub open spec fn install_command_line_of(
    operating_system: Seq<char>,
    downloads_directory: Seq<char>,
    step: InstallStepView,
) -> CommandLineView {
    shell_command_line_of(
        operating_system,
        shell_line(operating_system, downloads_directory, step.command),
    )
}

/// Says, phase by phase, what a run asks for.
pub struct CommandWithPathExecutor<
    D: SolipathDirectoryFinderTrait,
    R: CurrentPlatformRetrieverTrait,
> {
    base_solipath_url: String,
    directory_finder: D,
    platform_filter: PlatformFilter<R>,
    template_variable_replacer: TemplateVariableReplacer,
    command_executor: CommandExecutor,
}

impl CommandWithPathExecutor<SolipathDirectoryFinder, CurrentPlatformRetriever> {
    /// An executor for the public instruction repository and the cache in
    /// the home directory of the current user, on the platform with that
    /// operating system and architecture; `None` where the user has no home
    /// directory.
    pub fn new(operating_system: &str, architecture: &str) -> (executor: Option<Self>)
        ensures
            executor matches Some(executor) ==> {
                &&& executor.base_url() == BASE_SOLIPATH_URL@
                &&& executor.current_platform() == (PlatformView {
                    os: operating_system@,
                    arch: Some(architecture@),
                })
                &&& executor.operating_system() == operating_system@
                &&& executor.base_directory().pieces == seq!["solipath"@]
            },
    {
        CommandWithPathExecutor::new_with_found_directory_finder(
            SolipathDirectoryFinder::new(),
            operating_system,
            architecture,
        )
    }

    /// An executor for the public instruction repository and the cache of
    /// the directory finder that was found, where one was found, on the
    /// platform with that operating system and architecture; `None` where
    /// none was found.
    pub fn new_with_found_directory_finder(
        directory_finder: Option<SolipathDirectoryFinder>,
        operating_system: &str,
        architecture: &str,
    ) -> (executor: Option<Self>)
        ensures
            match directory_finder {
                Some(directory_finder) => {
                    &&& executor matches Some(executor) && {
                        &&& executor.base_url() == BASE_SOLIPATH_URL@
                        &&& executor.base_directory() == directory_finder.base_directory()
                        &&& executor.current_platform() == (PlatformView {
                            os: operating_system@,
                            arch: Some(architecture@),
                        })
                        &&& executor.operating_system() == operating_system@
                    }
                },
                None => executor is None,
            },
    {
        match directory_finder {
            Some(directory_finder) => Some(
                CommandWithPathExecutor::new_with_injected_values(
                    String::from_str(BASE_SOLIPATH_URL),
                    directory_finder,
                    CurrentPlatformRetriever::new(operating_system, architecture),
                    CommandExecutor::new(operating_system),
                ),
            ),
            None => None,
        }
    }
}

impl<D: SolipathDirectoryFinderTrait, R: CurrentPlatformRetrieverTrait> CommandWithPathExecutor<
    D,
    R,
> {
    /// An executor for the instruction repository at `base_solipath_url`, the
    /// cache of `directory_finder`, the platform of `platform_retriever` and
    /// the operating system of `command_executor`.
    pub fn new_with_injected_values(
        base_solipath_url: String,
        directory_finder: D,
        platform_retriever: R,
        command_executor: CommandExecutor,
    ) -> (executor: Self)
        ensures
            executor.base_url() == base_solipath_url@,
            executor.base_directory() == directory_finder.base_directory(),
            executor.current_platform() == platform_retriever.current_platform(),
            executor.operating_system() == command_executor.operating_system(),
    {
        CommandWithPathExecutor {
            base_solipath_url,
            directory_finder,
            platform_filter: PlatformFilter::new(platform_retriever),
            template_variable_replacer: TemplateVariableReplacer::new(),
            command_executor,
        }
    }

    /// The URL of the instruction repository.
    pub closed spec fn base_url(&self) -> Seq<char> {
        self.base_solipath_url@
    }

    /// The root of the cache.
    pub closed spec fn base_directory(&self) -> CachePathView {
        self.directory_finder.base_directory()
    }

    /// The filter that every item is held against.
    pub closed spec fn filter(&self) -> &PlatformFilter<R> {
        &self.platform_filter
    }

    /// The platform that the run is decided for.
    pub open spec fn current_platform(&self) -> PlatformView {
        self.filter().current_platform()
    }

    /// The operating system that commands are started on.
    pub closed spec fn operating_system(&self) -> Seq<char> {
        self.command_executor.operating_system()
    }

    /// Whether commands are started on Windows.
    pub fn is_windows(&self) -> (windows: bool)
        ensures
            windows == (self.operating_system() == "windows"@),
    {
        self.command_executor.is_windows()
    }

    /// First phase: the instruction documents to fetch.
    pub fn resolve(&self, dependency_list: &Vec<Dependency>) -> (requests: Vec<InstructionRequest>)
        ensures
            requests.deep_view() == instruction_requests_of(
                self.filter(),
                self.base_url(),
                self.base_directory(),
                dependency_list.deep_view(),
            ),
    {
        let dependency_instructions_retriever =
            DependencyInstructionsRetriever::new_with_alternate_url(
            self.base_solipath_url.clone(),
            &self.directory_finder,
        );
        let retriever = LoopingDependencyInstructionsRetriever::new(
            &dependency_instructions_retriever,
            &self.platform_filter,
        );
        let requests = retriever.retrieve_dependency_instructions_list(dependency_list);
        assert(requests.deep_view() =~= instruction_requests_of(
            self.filter(),
            self.base_url(),
            self.base_directory(),
            dependency_list.deep_view(),
        ));
        requests
    }

    /// First phase, once the documents are there: the instructions that
    /// apply on the platform.
    pub fn filter_resolved(
        &self,
        fetched: &Vec<DependencyInstructions>,
    ) -> (resolved: Vec<DependencyInstructions>)
        ensures
            resolved.deep_view() == all_filtered(fetched.deep_view(), self.filter()),
    {
        fetched.filter_platform(&self.platform_filter)
    }

    /// Second phase: the template documents to fetch.
    pub fn expand(&self, resolved: &Vec<DependencyInstructions>) -> (requests: Vec<TemplateRequest>)
        ensures
            requests.deep_view() == template_requests_of(
                self.filter(),
                self.base_url(),
                self.base_directory(),
                resolved.deep_view(),
            ),
    {
        let template_retriever = TemplateRetriever::new_with_alternate_url(
            self.base_solipath_url.clone(),
            &self.directory_finder,
            &self.template_variable_replacer,
        );
        let retriever = LoopingTemplateRetriever::new(&template_retriever, &self.platform_filter);
        let requests = retriever.retrieve_instructions_from_templates(resolved);
        assert(requests.deep_view() =~= template_requests_of(
            self.filter(),
            self.base_url(),
            self.base_directory(),
            resolved.deep_view(),
        ));
        requests
    }

    /// Second phase, once a template document is there: its text with the
    /// variables of the template put in.
    pub fn replace_variables(
        &self,
        template_content: &str,
        template: &Template,
    ) -> (replaced_template_content: String)
        ensures
            replaced_template_content@ == substituted(template_content@, template@.variables),
    {
        self.template_variable_replacer.replace_variables(template_content, template)
    }

    /// Second phase, once the templates are resolved: the working list of
    /// the run. It is the resolved instructions followed by those of the
    /// templates that apply on the platform.
    pub fn merge(
        &self,
        resolved: Vec<DependencyInstructions>,
        template_instructions: &Vec<DependencyInstructions>,
    ) -> (working: Vec<DependencyInstructions>)
        ensures
            working.deep_view() == resolved.deep_view() + all_filtered(
                template_instructions.deep_view(),
                self.filter(),
            ),
    {
        let mut working = resolved;
        let mut template_instructions = template_instructions.filter_platform(
            &self.platform_filter,
        );
        let ghost front = working.deep_view();
        let ghost back = template_instructions.deep_view();
        working.append(&mut template_instructions);
        assert(working.deep_view() =~= front + back);
        working
    }

    /// Third phase: the artifacts to fetch and unpack.
    pub fn downloads(&self, working: &Vec<DependencyInstructions>) -> (requests: Vec<FetchRequest>)
        ensures
            requests.deep_view() == download_requests_of(
                self.filter(),
                self.base_directory(),
                working.deep_view(),
            ),
    {
        let dependency_downloader = DependencyDownloader::new(&self.directory_finder);
        let downloader = LoopingDependencyDownloader::new(
            &dependency_downloader,
            &self.platform_filter,
        );
        let requests = downloader.download_dependencies(working);
        assert(requests.deep_view() =~= download_requests_of(
            self.filter(),
            self.base_directory(),
            working.deep_view(),
        ));
        requests
    }

    /// Fourth phase: the changes to the environment, in the order in which
    /// they are to be made, and what ends the run once they are made, if
    /// anything does.
    pub fn environment_changes(
        &self,
        working: &Vec<DependencyInstructions>,
    ) -> (changes: UntilFailure<EnvironmentChange>)
        ensures
            changes.deep_view() == environment_changes_of(
                self.filter(),
                self.base_directory(),
                working.deep_view(),
            ),
    {
        let environment_setter = EnvironmentSetter::new(&self.directory_finder);
        let setter = LoopingEnvironmentSetter::new(&environment_setter, &self.platform_filter);
        proof {
            let base = self.base_directory();
            lemma_attempted_agrees(
                applicable::<PlatformFilter<R>, EnvironmentVariable>(
                    self.filter(),
                    grouped::<EnvironmentVariable>(working.deep_view()),
                ),
                |pair: (DependencyView, EnvironmentVariableView)|
                    setter.setter().change(pair.0, pair.1),
                |pair: (DependencyView, EnvironmentVariableView)| change_for(base, pair.0, pair.1),
            );
        }
        setter.set_environment_variables(working)
    }

    /// Fifth phase: the install commands, made ready in the order in which
    /// they are to run, and what ends the run once they have run, if
    /// anything does.
    pub fn install_steps(
        &self,
        working: &Vec<DependencyInstructions>,
    ) -> (steps: UntilFailure<InstallStep>)
        ensures
            steps.deep_view() == install_steps_of(
                self.filter(),
                self.base_directory(),
                working.deep_view(),
            ),
    {
        let install_command_executor = InstallCommandExecutor::new(&self.directory_finder);
        let executor = LoopingInstallCommandExecutor::new(
            &install_command_executor,
            &self.platform_filter,
        );
        proof {
            let base = self.base_directory();
            lemma_attempted_agrees(
                applicable::<PlatformFilter<R>, InstallCommand>(
                    self.filter(),
                    grouped::<InstallCommand>(working.deep_view()),
                ),
                |pair: (DependencyView, InstallCommandView)|
                    executor.executor().step_for(pair.0, pair.1),
                |pair: (DependencyView, InstallCommandView)|
                    install_step_for(base, pair.0, pair.1),
            );
        }
        executor.run_install_commands(working)
    }

    /// Fifth phase: how the command of one install step is started, given
    /// the text that the platform writes for the downloads directory of the
    /// step.
    pub fn install_command(
        &self,
        step: &InstallStep,
        downloads_directory: &str,
    ) -> (command: CommandLine)
        ensures
            command@ == install_command_line_of(
                self.operating_system(),
                downloads_directory@,
                step@,
            ),
    {
        let command_string = step.command_string(
            self.command_executor.get_operating_system().as_str(),
            downloads_directory,
        );
        self.command_executor.setup_single_string_command(&command_string)
    }

    /// Fifth phase, last: how the command of the caller is started. Off
    /// Windows there has to be a first word.
    pub fn final_command(&self, commands: &[String]) -> (command: CommandLine)
        requires
            self.operating_system() == "windows"@ || commands@.len() > 0,
        ensures
            command@ == command_line_of(self.operating_system(), commands.deep_view()),
    {
        self.command_executor.setup_command(commands)
    }
}

} // verus!
