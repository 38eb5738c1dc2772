use crate::solipath_platform::platform::{clone_platforms, Platform, PlatformView};
use crate::solipath_platform::platform_filter::HasPlatformFilter;
use crate::text_map::{Entries, TextMap};
use vstd::prelude::*;

verus! {

/// The model of an [`InstallCommand`].
pub struct InstallCommandView {
    pub command: Seq<char>,
    pub platform_filters: Seq<PlatformView>,
    pub when_to_run_rules: Entries,
}

/// A shell line to run after the downloads, with the rules that say when.
#[derive(Debug, PartialEq, Eq)]
pub struct InstallCommand {
    command: String,
    platform_filters: Vec<Platform>,
    when_to_run_rules: TextMap,
}

impl DeepView for InstallCommand {
    type V = InstallCommandView;

    closed spec fn deep_view(&self) -> InstallCommandView {
        InstallCommandView {
            command: self.command@,
            platform_filters: self.platform_filters.deep_view(),
            when_to_run_rules: self.when_to_run_rules@,
        }
    }
}

impl View for InstallCommand {
    type V = InstallCommandView;

    open spec fn view(&self) -> InstallCommandView {
        self.deep_view()
    }
}

impl Clone for InstallCommand {
    fn clone(&self) -> (copy: Self)
        ensures
            copy@ == self@,
    {
        InstallCommand {
            command: self.command.clone(),
            platform_filters: clone_platforms(self.platform_filters.as_slice()),
            when_to_run_rules: self.when_to_run_rules.clone(),
        }
    }
}

impl InstallCommand {
    pub fn new(
        command: &str,
        platform_filters: Vec<Platform>,
        when_to_run_rules: TextMap,
    ) -> (install_command: Self)
        ensures
            install_command@ == (InstallCommandView {
                command: command@,
                platform_filters: platform_filters.deep_view(),
                when_to_run_rules: when_to_run_rules@,
            }),
    {
        InstallCommand { command: String::from_str(command), platform_filters, when_to_run_rules }
    }

    pub fn get_command(&self) -> (command: String)
        ensures
            command@ == self@.command,
    {
        self.command.clone()
    }

    pub fn get_platform_filters(&self) -> (filters: &[Platform])
        ensures
            filters.deep_view() == self@.platform_filters,
    {
        self.platform_filters.as_slice()
    }

    pub fn get_when_to_run_rules(&self) -> (rules: &TextMap)
        ensures
            rules@ == self@.when_to_run_rules,
    {
        &self.when_to_run_rules
    }
}

impl HasPlatformFilter for InstallCommand {
    open spec fn filters_of(item: InstallCommandView) -> Seq<PlatformView> {
        item.platform_filters
    }

    fn get_platform_filters(&self) -> (filters: &[Platform]) {
        self.platform_filters.as_slice()
    }

    proof fn lemma_clone_keeps_model(original: &Self, copy: &Self) {
    }
}

} // verus!
