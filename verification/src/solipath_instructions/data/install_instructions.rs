use crate::solipath_instructions::data::download_instruction::{
    DownloadInstruction,
    DownloadInstructionView,
};
use crate::solipath_instructions::data::environment_variable::{
    EnvironmentVariable,
    EnvironmentVariableView,
};
use crate::solipath_instructions::data::install_command::{InstallCommand, InstallCommandView};
use crate::solipath_instructions::data::template::{Template, TemplateView};
use crate::solipath_platform::platform_filter::{
    filter_list,
    kept_items,
    HasPlatformFilter,
    PlatformFilterTrait,
};
use vstd::prelude::*;

verus! {

/// The model of [`InstallInstructions`]: four lists, each in the order of the
/// document.
pub struct InstallInstructionsView {
    pub downloads: Seq<DownloadInstructionView>,
    pub environment_variables: Seq<EnvironmentVariableView>,
    pub templates: Seq<TemplateView>,
    pub install_commands: Seq<InstallCommandView>,
}

impl InstallInstructionsView {
    /// These instructions without the items that do not apply under
    /// `platform_filter`.
    pub open spec fn filtered<F: PlatformFilterTrait>(self, platform_filter: &F) -> Self {
        InstallInstructionsView {
            downloads: kept_items::<F, DownloadInstruction>(platform_filter, self.downloads),
            environment_variables: kept_items::<F, EnvironmentVariable>(
                platform_filter,
                self.environment_variables,
            ),
            templates: kept_items::<F, Template>(platform_filter, self.templates),
            install_commands: kept_items::<F, InstallCommand>(
                platform_filter,
                self.install_commands,
            ),
        }
    }
}

/// What is to be done for one dependency version or one template: downloads,
/// environment variables, templates and install commands.
#[derive(Debug, PartialEq, Eq)]
pub struct InstallInstructions {
    downloads: Vec<DownloadInstruction>,
    environment_variables: Vec<EnvironmentVariable>,
    templates: Vec<Template>,
    install_commands: Vec<InstallCommand>,
}

impl DeepView for InstallInstructions {
    type V = InstallInstructionsView;

    closed spec fn deep_view(&self) -> InstallInstructionsView {
        InstallInstructionsView {
            downloads: self.downloads.deep_view(),
            environment_variables: self.environment_variables.deep_view(),
            templates: self.templates.deep_view(),
            install_commands: self.install_commands.deep_view(),
        }
    }
}

impl View for InstallInstructions {
    type V = InstallInstructionsView;

    open spec fn view(&self) -> InstallInstructionsView {
        self.deep_view()
    }
}

/// A copy of a list of items.
pub fn clone_items<T: HasPlatformFilter>(list: &Vec<T>) -> (copy: Vec<T>)
    ensures
        copy.deep_view() == list.deep_view(),
{
    let copy = list.clone();
    proof {
        assert forall|i: int| 0 <= i < list.len() implies copy[i].deep_view()
            == list[i].deep_view() by {
            T::lemma_clone_keeps_model(&list[i], &copy[i]);
        }
        assert(copy.deep_view() =~= list.deep_view());
    }
    copy
}

impl Clone for InstallInstructions {
    fn clone(&self) -> (copy: Self)
        ensures
            copy@ == self@,
    {
        InstallInstructions {
            downloads: clone_items(&self.downloads),
            environment_variables: clone_items(&self.environment_variables),
            templates: clone_items(&self.templates),
            install_commands: clone_items(&self.install_commands),
        }
    }
}

impl InstallInstructions {
    pub fn new(
        templates: Vec<Template>,
        downloads: Vec<DownloadInstruction>,
        environment_variables: Vec<EnvironmentVariable>,
        install_commands: Vec<InstallCommand>,
    ) -> (instructions: Self)
        ensures
            instructions@ == (InstallInstructionsView {
                downloads: downloads.deep_view(),
                environment_variables: environment_variables.deep_view(),
                templates: templates.deep_view(),
                install_commands: install_commands.deep_view(),
            }),
    {
        InstallInstructions { templates, downloads, environment_variables, install_commands }
    }

    pub fn get_downloads(&self) -> (downloads: &Vec<DownloadInstruction>)
        ensures
            downloads.deep_view() == self@.downloads,
    {
        &self.downloads
    }

    pub fn get_environment_variables(&self) -> (environment_variables: &Vec<EnvironmentVariable>)
        ensures
            environment_variables.deep_view() == self@.environment_variables,
    {
        &self.environment_variables
    }

    pub fn get_templates(&self) -> (templates: &Vec<Template>)
        ensures
            templates.deep_view() == self@.templates,
    {
        &self.templates
    }

    pub fn get_install_commands(&self) -> (install_commands: &Vec<InstallCommand>)
        ensures
            install_commands.deep_view() == self@.install_commands,
    {
        &self.install_commands
    }

    /// These instructions without the items that do not apply under
    /// `platform_filter`. What stays keeps its order.
    pub fn filter_platform<F: PlatformFilterTrait>(&self, platform_filter: &F) -> (filtered: Self)
        ensures
            filtered@ == self@.filtered(platform_filter),
    {
        let templates = filter_list(platform_filter, self.get_templates());
        let downloads = filter_list(platform_filter, self.get_downloads());
        let environment_variables = filter_list(platform_filter, self.get_environment_variables());
        let install_commands = filter_list(platform_filter, self.get_install_commands());
        InstallInstructions { templates, downloads, environment_variables, install_commands }
    }
}

} // verus!
