use crate::error::{SolipathError, SolipathErrorView};
use crate::solipath_dependency_metadata::dependency::{Dependency, DependencyView};
use crate::solipath_directory::solipath_directory_finder::SolipathDirectoryFinderTrait;
use crate::solipath_download::fetch_request::{FetchRequest, FetchRequestView};
use crate::solipath_environment_variable::environment::{EnvironmentChange, EnvironmentChangeView};
use crate::solipath_execute::command_with_path_executor::{
    download_requests_of,
    environment_changes_of,
    install_steps_of,
    instruction_requests_of,
    template_requests_of,
    CommandWithPathExecutor,
};
use crate::solipath_instructions::data::dependency_instructions::{
    all_filtered,
    applicable,
    attribute,
    attributed,
    grouped,
    lemma_applicable_pairs,
    lemma_grouped_items_keep_their_owner,
    owners,
    DependencyInstructions,
    DependencyInstructionsView,
};
use crate::solipath_instructions::data::install_instructions::{
    InstallInstructions,
    InstallInstructionsView,
};
use crate::solipath_instructions::data::template::Template;
use crate::solipath_instructions::looping_dependency_instructions_retriever::{
    InstructionRequest,
    InstructionRequestView,
};
use crate::solipath_platform::current_platform_retriever::CurrentPlatformRetrieverTrait;
use crate::solipath_platform::platform_filter::{
    kept_items,
    lemma_kept_items_apply,
    PlatformFilter,
    PlatformFilterTrait,
};
use crate::solipath_shell::command_executor::{command_line_of, CommandLine, CommandLineView};
use crate::solipath_shell::install_command_executor::{InstallStep, InstallStepView};
use crate::solipath_template::looping_template_retriever::{TemplateRequest, TemplateRequestView};
use vstd::prelude::*;

verus! {

/// The model of a [`PipelineState`].
pub enum PipelineStateView {
    NotStarted,
    Resolving { dependencies: Seq<DependencyView>, commands: Seq<Seq<char>> },
    Expanding {
        resolved: Seq<DependencyInstructionsView>,
        template_owners: Seq<DependencyView>,
        commands: Seq<Seq<char>>,
    },
    Downloading { working: Seq<DependencyInstructionsView>, commands: Seq<Seq<char>> },
    SettingEnvironment {
        working: Seq<DependencyInstructionsView>,
        commands: Seq<Seq<char>>,
        failure: Option<SolipathErrorView>,
    },
    Installing { commands: Seq<Seq<char>>, failure: Option<SolipathErrorView> },
    Executing,
    Finished { exit_code: i32 },
    Aborted,
}

/// Where a run stands. Each state but the first and the last two names the
/// phase whose work has been handed out and is awaited.
#[derive(Debug, PartialEq, Eq)]
pub enum PipelineState {
    NotStarted,
    /// The instruction documents of `dependencies` are being fetched.
    Resolving { dependencies: Vec<Dependency>, commands: Vec<String> },
    /// The template documents are being fetched. `template_owners` holds,
    /// for each of them, the dependency that it is fetched for.
    Expanding {
        resolved: Vec<DependencyInstructions>,
        template_owners: Vec<Dependency>,
        commands: Vec<String>,
    },
    /// The artifacts are being fetched and unpacked.
    Downloading { working: Vec<DependencyInstructions>, commands: Vec<String> },
    /// The environment is being changed. `failure` is what ends the run
    /// once the changes that were handed out are made.
    SettingEnvironment {
        working: Vec<DependencyInstructions>,
        commands: Vec<String>,
        failure: Option<SolipathError>,
    },
    /// The install commands are running. `failure` is what ends the run
    /// once the commands that were handed out have run.
    Installing { commands: Vec<String>, failure: Option<SolipathError> },
    /// The command of the caller is running.
    Executing,
    /// The command of the caller has ended with `exit_code`.
    Finished { exit_code: i32 },
    /// The run has been given up.
    Aborted,
}

impl DeepView for PipelineState {
    type V = PipelineStateView;

    open spec fn deep_view(&self) -> PipelineStateView {
        match self {
            PipelineState::NotStarted => PipelineStateView::NotStarted,
            PipelineState::Resolving { dependencies, commands } => PipelineStateView::Resolving {
                dependencies: dependencies.deep_view(),
                commands: commands.deep_view(),
            },
            PipelineState::Expanding { resolved, template_owners, commands } => {
                PipelineStateView::Expanding {
                    resolved: resolved.deep_view(),
                    template_owners: template_owners.deep_view(),
                    commands: commands.deep_view(),
                }
            },
            PipelineState::Downloading { working, commands } => PipelineStateView::Downloading {
                working: working.deep_view(),
                commands: commands.deep_view(),
            },
            PipelineState::SettingEnvironment { working, commands, failure } => {
                PipelineStateView::SettingEnvironment {
                    working: working.deep_view(),
                    commands: commands.deep_view(),
                    failure: failure.deep_view(),
                }
            },
            PipelineState::Installing { commands, failure } => PipelineStateView::Installing {
                commands: commands.deep_view(),
                failure: failure.deep_view(),
            },
            PipelineState::Executing => PipelineStateView::Executing,
            PipelineState::Finished { exit_code } => PipelineStateView::Finished {
                exit_code: *exit_code,
            },
            PipelineState::Aborted => PipelineStateView::Aborted,
        }
    }
}

impl View for PipelineState {
    type V = PipelineStateView;

    open spec fn view(&self) -> PipelineStateView {
        self.deep_view()
    }
}

impl PipelineStateView {
    /// How far the run has come: the number of phases whose work has been
    /// handed out.
    pub open spec fn phases_begun(self) -> nat {
        match self {
            PipelineStateView::NotStarted => 0,
            PipelineStateView::Resolving { .. } => 1,
            PipelineStateView::Expanding { .. } => 2,
            PipelineStateView::Downloading { .. } => 3,
            PipelineStateView::SettingEnvironment { .. } => 4,
            PipelineStateView::Installing { .. } => 5,
            PipelineStateView::Executing => 6,
            PipelineStateView::Finished { .. } => 7,
            PipelineStateView::Aborted => 7,
        }
    }

    /// The run is over.
    pub open spec fn is_terminal(self) -> bool {
        self is Finished || self is Aborted
    }

    /// Everything that the run holds belongs to a dependency that applies
    /// under `platform_filter`.
    pub open spec fn holds_only_applicable_dependencies<F: PlatformFilterTrait>(
        self,
        platform_filter: &F,
    ) -> bool {
        match self {
            PipelineStateView::Resolving { dependencies, .. } => all_apply(
                platform_filter,
                dependencies,
            ),
            PipelineStateView::Expanding { resolved, template_owners, .. } => {
                &&& all_apply(platform_filter, owners(resolved))
                &&& all_apply(platform_filter, template_owners)
            },
            PipelineStateView::Downloading { working, .. } => all_apply(
                platform_filter,
                owners(working),
            ),
            PipelineStateView::SettingEnvironment { working, .. } => all_apply(
                platform_filter,
                owners(working),
            ),
            _ => true,
        }
    }
}

/// Every one of `dependencies` applies under `platform_filter`.
pub open spec fn all_apply<F: PlatformFilterTrait>(
    platform_filter: &F,
    dependencies: Seq<DependencyView>,
) -> bool {
    forall|i: int|
        0 <= i < dependencies.len() ==> platform_filter.applies_to(
            (#[trigger] dependencies[i]).platform_filters,
        )
}

/// The model of a [`PipelineEvent`].
pub enum PipelineEventView {
    Started { dependency_list: Seq<DependencyView>, commands: Seq<Seq<char>> },
    InstructionsFetched { instructions: Seq<InstallInstructionsView> },
    TemplatesFetched { instructions: Seq<InstallInstructionsView> },
    DownloadsCompleted,
    EnvironmentChanged,
    InstallCommandsCompleted,
    CommandExited { exit_code: i32 },
    Failed,
}

/// What the caller reports to the run.
#[derive(Debug, PartialEq, Eq)]
pub enum PipelineEvent {
    /// The run begins, for these dependencies and this command.
    Started { dependency_list: Vec<Dependency>, commands: Vec<String> },
    /// Every instruction document has been fetched and read: one entry for
    /// each request, in the order of the requests.
    InstructionsFetched { instructions: Vec<InstallInstructions> },
    /// Every template document has been fetched, filled in and read: one
    /// entry for each request, in the order of the requests.
    TemplatesFetched { instructions: Vec<InstallInstructions> },
    /// Every artifact is in the cache.
    DownloadsCompleted,
    /// Every change to the environment has been made.
    EnvironmentChanged,
    /// Every install command that was to run has run.
    InstallCommandsCompleted,
    /// The command of the caller has ended.
    CommandExited { exit_code: i32 },
    /// Something has failed.
    Failed,
}

impl DeepView for PipelineEvent {
    type V = PipelineEventView;

    open spec fn deep_view(&self) -> PipelineEventView {
        match self {
            PipelineEvent::Started { dependency_list, commands } => PipelineEventView::Started {
                dependency_list: dependency_list.deep_view(),
                commands: commands.deep_view(),
            },
            PipelineEvent::InstructionsFetched { instructions } => {
                PipelineEventView::InstructionsFetched { instructions: instructions.deep_view() }
            },
            PipelineEvent::TemplatesFetched { instructions } => {
                PipelineEventView::TemplatesFetched { instructions: instructions.deep_view() }
            },
            PipelineEvent::DownloadsCompleted => PipelineEventView::DownloadsCompleted,
            PipelineEvent::EnvironmentChanged => PipelineEventView::EnvironmentChanged,
            PipelineEvent::InstallCommandsCompleted => PipelineEventView::InstallCommandsCompleted,
            PipelineEvent::CommandExited { exit_code } => PipelineEventView::CommandExited {
                exit_code: *exit_code,
            },
            PipelineEvent::Failed => PipelineEventView::Failed,
        }
    }
}

impl View for PipelineEvent {
    type V = PipelineEventView;

    open spec fn view(&self) -> PipelineEventView {
        self.deep_view()
    }
}

/// The model of a [`PipelineAction`].
pub enum PipelineActionView {
    FetchInstructions { instruction_requests: Seq<InstructionRequestView> },
    FetchTemplates { template_requests: Seq<TemplateRequestView> },
    Download { download_requests: Seq<FetchRequestView> },
    ChangeEnvironment { changes: Seq<EnvironmentChangeView> },
    RunInstallCommands { steps: Seq<InstallStepView> },
    Execute { command: CommandLineView },
    Exit { exit_code: i32 },
    Abort { error: SolipathErrorView },
}

/// What the run asks of the caller next.
#[derive(Debug, PartialEq, Eq)]
pub enum PipelineAction {
    /// Fetch each document unless it is cached, read it, and report
    /// `InstructionsFetched`. The requests may be served at the same time.
    FetchInstructions { instruction_requests: Vec<InstructionRequest> },
    /// Fetch each document unless it is cached, put the variables of its
    /// template in, read it, and report `TemplatesFetched`. The requests may
    /// be served at the same time.
    FetchTemplates { template_requests: Vec<TemplateRequest> },
    /// Fetch and unpack each artifact unless its directory exists, and
    /// report `DownloadsCompleted`. The requests may be served at the same
    /// time.
    Download { download_requests: Vec<FetchRequest> },
    /// Make the changes one after the other, in this order, and report
    /// `EnvironmentChanged`.
    ChangeEnvironment { changes: Vec<EnvironmentChange> },
    /// Run the steps one after the other, in this order, and report
    /// `InstallCommandsCompleted`.
    RunInstallCommands { steps: Vec<InstallStep> },
    /// Start the command in the environment as it is now, wait for it, and
    /// report `CommandExited`.
    Execute { command: CommandLine },
    /// End with the exit code of the command.
    Exit { exit_code: i32 },
    /// Give the run up.
    Abort { error: SolipathError },
}

impl DeepView for PipelineAction {
    type V = PipelineActionView;

    open spec fn deep_view(&self) -> PipelineActionView {
        match self {
            PipelineAction::FetchInstructions { instruction_requests } => {
                PipelineActionView::FetchInstructions {
                    instruction_requests: instruction_requests.deep_view(),
                }
            },
            PipelineAction::FetchTemplates { template_requests } => {
                PipelineActionView::FetchTemplates {
                    template_requests: template_requests.deep_view(),
                }
            },
            PipelineAction::Download { download_requests } => PipelineActionView::Download {
                download_requests: download_requests.deep_view(),
            },
            PipelineAction::ChangeEnvironment { changes } => PipelineActionView::ChangeEnvironment {
                changes: changes.deep_view(),
            },
            PipelineAction::RunInstallCommands { steps } => PipelineActionView::RunInstallCommands {
                steps: steps.deep_view(),
            },
            PipelineAction::Execute { command } => PipelineActionView::Execute {
                command: command@,
            },
            PipelineAction::Exit { exit_code } => PipelineActionView::Exit {
                exit_code: *exit_code,
            },
            PipelineAction::Abort { error } => PipelineActionView::Abort { error: error@ },
        }
    }
}

impl View for PipelineAction {
    type V = PipelineActionView;

    open spec fn view(&self) -> PipelineActionView {
        self.deep_view()
    }
}

/// The dependencies that the requests are for, in the order of the requests.
pub fn requested_dependencies(requests: &Vec<InstructionRequest>) -> (dependencies: Vec<Dependency>)
    ensures
        dependencies.deep_view() == requests.deep_view().map_values(
            |request: InstructionRequestView| request.dependency,
        ),
{
    let mut dependencies: Vec<Dependency> = Vec::new();
    let mut i: usize = 0;
    while i < requests.len()
        invariant
            i <= requests.len(),
            dependencies.deep_view() =~= requests.deep_view().map_values(
                |request: InstructionRequestView| request.dependency,
            ).take(i as int),
        decreases requests.len() - i,
    {
        let ghost before = dependencies.deep_view();
        let dependency = requests[i].get_dependency().clone();
        dependencies.push(dependency);
        assert(dependencies.deep_view() =~= before.push(dependency@));
        i += 1;
    }
    dependencies
}

/// The dependencies that the requests are for, in the order of the requests.
pub fn template_owners(requests: &Vec<TemplateRequest>) -> (dependencies: Vec<Dependency>)
    ensures
        dependencies.deep_view() == requests.deep_view().map_values(
            |request: TemplateRequestView| request.dependency,
        ),
{
    let mut dependencies: Vec<Dependency> = Vec::new();
    let mut i: usize = 0;
    while i < requests.len()
        invariant
            i <= requests.len(),
            dependencies.deep_view() =~= requests.deep_view().map_values(
                |request: TemplateRequestView| request.dependency,
            ).take(i as int),
        decreases requests.len() - i,
    {
        let ghost before = dependencies.deep_view();
        let dependency = requests[i].get_dependency().clone();
        dependencies.push(dependency);
        assert(dependencies.deep_view() =~= before.push(dependency@));
        i += 1;
    }
    dependencies
}

/// Giving the run up for `error`.
pub open spec fn aborted(error: SolipathErrorView) -> (PipelineStateView, PipelineActionView) {
    (PipelineStateView::Aborted, PipelineActionView::Abort { error })
}

impl<D: SolipathDirectoryFinderTrait, R: CurrentPlatformRetrieverTrait> CommandWithPathExecutor<
    D,
    R,
> {
    /// The state that follows `state` on `event`, and what is asked of the
    /// caller then.
    ///
    /// Each phase begins when the caller reports the one before it as
    /// complete, and with nothing else. A failure that the caller reports
    /// and a report that does not belong to the phase end the run at once.
    /// An instruction that the library cannot act on ends it once what
    /// stands before that instruction in its phase has been done. A run
    /// that is over stays over.
    pub open spec fn transition(&self, state: PipelineStateView, event: PipelineEventView) -> (
        PipelineStateView,
        PipelineActionView,
    ) {
        match (state, event) {
            (PipelineStateView::Finished { exit_code }, _) => (
                PipelineStateView::Finished { exit_code },
                PipelineActionView::Exit { exit_code },
            ),
            (PipelineStateView::Aborted, _) => aborted(SolipathErrorView::UnexpectedEvent),
            (_, PipelineEventView::Failed) => aborted(SolipathErrorView::FailureReported),
            (
                PipelineStateView::NotStarted,
                PipelineEventView::Started { dependency_list, commands },
            ) => (
                PipelineStateView::Resolving {
                    dependencies: kept_items::<PlatformFilter<R>, Dependency>(
                        self.filter(),
                        dependency_list,
                    ),
                    commands,
                },
                PipelineActionView::FetchInstructions {
                    instruction_requests: instruction_requests_of(
                        self.filter(),
                        self.base_url(),
                        self.base_directory(),
                        dependency_list,
                    ),
                },
            ),
            (
                PipelineStateView::Resolving { dependencies, commands },
                PipelineEventView::InstructionsFetched { instructions },
            ) => if instructions.len() == dependencies.len() {
                let resolved = all_filtered(attributed(dependencies, instructions), self.filter());
                let template_requests = template_requests_of(
                    self.filter(),
                    self.base_url(),
                    self.base_directory(),
                    resolved,
                );
                (
                    PipelineStateView::Expanding {
                        resolved,
                        template_owners: template_requests.map_values(
                            |request: TemplateRequestView| request.dependency,
                        ),
                        commands,
                    },
                    PipelineActionView::FetchTemplates { template_requests },
                )
            } else {
                aborted(SolipathErrorView::UnexpectedEvent)
            },
            (
                PipelineStateView::Expanding { resolved, template_owners, commands },
                PipelineEventView::TemplatesFetched { instructions },
            ) => if instructions.len() == template_owners.len() {
                let working = resolved + all_filtered(
                    attributed(template_owners, instructions),
                    self.filter(),
                );
                (
                    PipelineStateView::Downloading { working, commands },
                    PipelineActionView::Download {
                        download_requests: download_requests_of(
                            self.filter(),
                            self.base_directory(),
                            working,
                        ),
                    },
                )
            } else {
                aborted(SolipathErrorView::UnexpectedEvent)
            },
            (
                PipelineStateView::Downloading { working, commands },
                PipelineEventView::DownloadsCompleted,
            ) => {
                let changes = environment_changes_of(
                    self.filter(),
                    self.base_directory(),
                    working,
                );
                (
                    PipelineStateView::SettingEnvironment {
                        working,
                        commands,
                        failure: changes.failure,
                    },
                    PipelineActionView::ChangeEnvironment { changes: changes.results },
                )
            },
            (
                PipelineStateView::SettingEnvironment { working, commands, failure },
                PipelineEventView::EnvironmentChanged,
            ) => match failure {
                Some(error) => aborted(error),
                None => {
                    let steps = install_steps_of(self.filter(), self.base_directory(), working);
                    (
                        PipelineStateView::Installing { commands, failure: steps.failure },
                        PipelineActionView::RunInstallCommands { steps: steps.results },
                    )
                },
            },
            (
                PipelineStateView::Installing { commands, failure },
                PipelineEventView::InstallCommandsCompleted,
            ) => match failure {
                Some(error) => aborted(error),
                None => if self.operating_system() == "windows"@ || commands.len() > 0 {
                    (
                        PipelineStateView::Executing,
                        PipelineActionView::Execute {
                            command: command_line_of(self.operating_system(), commands),
                        },
                    )
                } else {
                    aborted(SolipathErrorView::NoCommandGiven)
                },
            },
            (PipelineStateView::Executing, PipelineEventView::CommandExited { exit_code }) => (
                PipelineStateView::Finished { exit_code },
                PipelineActionView::Exit { exit_code },
            ),
            _ => aborted(SolipathErrorView::UnexpectedEvent),
        }
    }

    /// Takes the run one step on.
    pub fn advance(&self, state: PipelineState, event: PipelineEvent) -> (next: (
        PipelineState,
        PipelineAction,
    ))
        ensures
            (next.0@, next.1@) == self.transition(state@, event@),
    {
        match (state, event) {
            (PipelineState::Finished { exit_code }, _) => (
                PipelineState::Finished { exit_code },
                PipelineAction::Exit { exit_code },
            ),
            (PipelineState::Aborted, _) => (
                PipelineState::Aborted,
                PipelineAction::Abort { error: SolipathError::UnexpectedEvent },
            ),
            (_, PipelineEvent::Failed) => (
                PipelineState::Aborted,
                PipelineAction::Abort { error: SolipathError::FailureReported },
            ),
            (PipelineState::NotStarted, PipelineEvent::Started { dependency_list, commands }) => {
                let instruction_requests = self.resolve(&dependency_list);
                let dependencies = requested_dependencies(&instruction_requests);
                assert(dependencies.deep_view() =~= kept_items::<PlatformFilter<R>, Dependency>(
                    self.filter(),
                    dependency_list.deep_view(),
                ));
                (
                    PipelineState::Resolving { dependencies, commands },
                    PipelineAction::FetchInstructions { instruction_requests },
                )
            },
            (
                PipelineState::Resolving { dependencies, commands },
                PipelineEvent::InstructionsFetched { instructions },
            ) => {
                match attribute(&dependencies, &instructions) {
                    Some(fetched) => {
                        let resolved = self.filter_resolved(&fetched);
                        let template_requests = self.expand(&resolved);
                        let template_owners = template_owners(&template_requests);
                        (
                            PipelineState::Expanding { resolved, template_owners, commands },
                            PipelineAction::FetchTemplates { template_requests },
                        )
                    },
                    None => (
                        PipelineState::Aborted,
                        PipelineAction::Abort { error: SolipathError::UnexpectedEvent },
                    ),
                }
            },
            (
                PipelineState::Expanding { resolved, template_owners, commands },
                PipelineEvent::TemplatesFetched { instructions },
            ) => {
                match attribute(&template_owners, &instructions) {
                    Some(template_instructions) => {
                        let working = self.merge(resolved, &template_instructions);
                        let download_requests = self.downloads(&working);
                        (
                            PipelineState::Downloading { working, commands },
                            PipelineAction::Download { download_requests },
                        )
                    },
                    None => (
                        PipelineState::Aborted,
                        PipelineAction::Abort { error: SolipathError::UnexpectedEvent },
                    ),
                }
            },
            (
                PipelineState::Downloading { working, commands },
                PipelineEvent::DownloadsCompleted,
            ) => {
                let changes = self.environment_changes(&working);
                (
                    PipelineState::SettingEnvironment {
                        working,
                        commands,
                        failure: changes.failure,
                    },
                    PipelineAction::ChangeEnvironment { changes: changes.results },
                )
            },
            (
                PipelineState::SettingEnvironment { working, commands, failure },
                PipelineEvent::EnvironmentChanged,
            ) => {
                match failure {
                    Some(error) => (PipelineState::Aborted, PipelineAction::Abort { error }),
                    None => {
                        let steps = self.install_steps(&working);
                        (
                            PipelineState::Installing { commands, failure: steps.failure },
                            PipelineAction::RunInstallCommands { steps: steps.results },
                        )
                    },
                }
            },
            (
                PipelineState::Installing { commands, failure },
                PipelineEvent::InstallCommandsCompleted,
            ) => {
                match failure {
                    Some(error) => (PipelineState::Aborted, PipelineAction::Abort { error }),
                    None => {
                        if self.is_windows() || commands.len() > 0 {
                            let command = self.final_command(commands.as_slice());
                            (PipelineState::Executing, PipelineAction::Execute { command })
                        } else {
                            (
                                PipelineState::Aborted,
                                PipelineAction::Abort { error: SolipathError::NoCommandGiven },
                            )
                        }
                    },
                }
            },
            (PipelineState::Executing, PipelineEvent::CommandExited { exit_code }) => (
                PipelineState::Finished { exit_code },
                PipelineAction::Exit { exit_code },
            ),
            _ => (
                PipelineState::Aborted,
                PipelineAction::Abort { error: SolipathError::UnexpectedEvent },
            ),
        }
    }

    /// A step either ends the run or begins exactly the next phase: none is
    /// left out and none begins before the one before it is reported
    /// complete.
    pub proof fn lemma_phases_follow_in_order(
        &self,
        state: PipelineStateView,
        event: PipelineEventView,
    )
        requires
            !state.is_terminal(),
        ensures
            ({
                let next = self.transition(state, event).0;
                next is Aborted || next.phases_begun() == state.phases_begun() + 1
            }),
    {
    }

    /// Each kind of work is handed out in one state only: the environment
    /// is changed only once the downloads are reported complete, the
    /// install commands run only once the environment is reported changed,
    /// and the command of the caller runs only once the install commands
    /// are reported complete.
    pub proof fn lemma_actions_belong_to_their_phase(
        &self,
        state: PipelineStateView,
        event: PipelineEventView,
    )
        ensures
            ({
                let action = self.transition(state, event).1;
                &&& action is FetchInstructions ==> state is NotStarted && event is Started
                &&& action is FetchTemplates ==> state is Resolving && event is InstructionsFetched
                &&& action is Download ==> state is Expanding && event is TemplatesFetched
                &&& action is ChangeEnvironment ==> state is Downloading
                    && event is DownloadsCompleted
                &&& action is RunInstallCommands ==> state is SettingEnvironment
                    && event is EnvironmentChanged
                &&& action is Execute ==> state is Installing && event is InstallCommandsCompleted
            }),
    {
    }

    /// A run never holds anything that belongs to a dependency which does
    /// not apply on the platform: nothing is fetched, unpacked, set or run
    /// for such a dependency.
    pub proof fn lemma_run_keeps_to_applicable_dependencies(
        &self,
        state: PipelineStateView,
        event: PipelineEventView,
    )
        requires
            state.holds_only_applicable_dependencies(self.filter()),
        ensures
            self.transition(state, event).0.holds_only_applicable_dependencies(self.filter()),
    {
        let next = self.transition(state, event).0;
        match (state, event) {
            (
                PipelineStateView::NotStarted,
                PipelineEventView::Started { dependency_list, commands },
            ) => {
                lemma_kept_items_apply::<PlatformFilter<R>, Dependency>(
                    self.filter(),
                    dependency_list,
                );
            },
            (
                PipelineStateView::Resolving { dependencies, commands },
                PipelineEventView::InstructionsFetched { instructions },
            ) => {
                if instructions.len() == dependencies.len() {
                    let resolved = all_filtered(
                        attributed(dependencies, instructions),
                        self.filter(),
                    );
                    assert(owners(resolved) =~= dependencies);
                    self.lemma_template_owners_apply(resolved);
                }
            },
            (
                PipelineStateView::Expanding { resolved, template_owners, commands },
                PipelineEventView::TemplatesFetched { instructions },
            ) => {
                if instructions.len() == template_owners.len() {
                    let expanded = all_filtered(
                        attributed(template_owners, instructions),
                        self.filter(),
                    );
                    assert(owners(expanded) =~= template_owners);
                    assert(owners(resolved + expanded) =~= owners(resolved) + owners(expanded));
                }
            },
            _ => {},
        }
    }

    /// The templates of entries whose dependencies apply are fetched for
    /// dependencies that apply.
    proof fn lemma_template_owners_apply(&self, resolved: Seq<DependencyInstructionsView>)
        requires
            all_apply(self.filter(), owners(resolved)),
        ensures
            all_apply(
                self.filter(),
                template_requests_of(
                    self.filter(),
                    self.base_url(),
                    self.base_directory(),
                    resolved,
                ).map_values(|request: TemplateRequestView| request.dependency),
            ),
    {
        let pairs = grouped::<Template>(resolved);
        let kept = applicable::<PlatformFilter<R>, Template>(self.filter(), pairs);
        lemma_applicable_pairs::<PlatformFilter<R>, Template>(self.filter(), pairs);
        lemma_grouped_items_keep_their_owner::<Template>(resolved);
        let template_owners = template_requests_of(
            self.filter(),
            self.base_url(),
            self.base_directory(),
            resolved,
        ).map_values(|request: TemplateRequestView| request.dependency);
        assert forall|i: int| 0 <= i < template_owners.len() implies self.filter().applies_to(
            (#[trigger] template_owners[i]).platform_filters,
        ) by {
            assert(template_owners[i] == kept[i].0);
            let j = choose|j: int| 0 <= j < pairs.len() && kept[i] == #[trigger] pairs[j];
            let k = choose|k: int|
                0 <= k < resolved.len() && pairs[j].0 == (#[trigger] resolved[k]).dependency;
            assert(owners(resolved)[k] == resolved[k].dependency);
        }
    }

    /// The exit code of the command is handed on as it came, and a run that
    /// is over stays over.
    pub proof fn lemma_exit_code_passes_through(&self, exit_code: i32, event: PipelineEventView)
        ensures
            self.transition(
                PipelineStateView::Executing,
                PipelineEventView::CommandExited { exit_code },
            ) == (
                PipelineStateView::Finished { exit_code },
                PipelineActionView::Exit { exit_code },
            ),
            self.transition(PipelineStateView::Finished { exit_code }, event).0
                == (PipelineStateView::Finished { exit_code }),
            self.transition(PipelineStateView::Aborted, event).0 == PipelineStateView::Aborted,
    {
    }
}

} // verus!
