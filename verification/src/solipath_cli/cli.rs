use crate::path_buf_ext::PathBufExt;
use crate::solipath_directory::cache_path::{CachePath, CachePathView};
use crate::solipath_directory::solipath_directory_finder::SolipathDirectoryFinderTrait;
use crate::solipath_platform::current_platform_retriever::CurrentPlatformRetrieverTrait;
use crate::solipath_platform::platform::PlatformView;
use crate::text::{joined, has_prefix, same_text, starts_with};
use vstd::prelude::*;

verus! {

/// Whether the words on the command line are meant for the tool itself: the
/// first of them begins with two dashes.
pub fn is_solipath_command(commands: &[String]) -> (is_command: bool)
    requires
        commands@.len() > 0,
    ensures
        is_command == has_prefix(commands@[0]@, "--"@),
{
    starts_with(commands[0].as_str(), "--")
}

/// What an executable's name ends in on the operating system `os`.
pub open spec fn executable_file_extension(os: Seq<char>) -> Seq<char> {
    if os == "windows"@ {
        ".exe"@
    } else {
        ""@
    }
}

/// What an executable's name ends in on the operating system `os`.
pub fn get_executable_file_extension(os: &str) -> (extension: String)
    ensures
        extension@ == executable_file_extension(os@),
{
    if same_text(os, "windows") {
        String::from_str(".exe")
    } else {
        String::from_str("")
    }
}

/// The model of an [`Update`].
pub struct UpdateView {
    pub url: Seq<char>,
    pub download_directory: CachePathView,
    pub original_executable: CachePathView,
    pub renamed_executable: CachePathView,
}

/// How the tool replaces its own executable: the executable is moved aside
/// from `original_executable` to `renamed_executable`, the release at `url`
/// is fetched into `download_directory`, and then either the new file is
/// made executable or, where the download failed, the old one is moved
/// back.
#[derive(Debug, PartialEq, Eq)]
pub struct Update {
    url: String,
    download_directory: CachePath,
    original_executable: CachePath,
    renamed_executable: CachePath,
}

impl DeepView for Update {
    type V = UpdateView;

    closed spec fn deep_view(&self) -> UpdateView {
        UpdateView {
            url: self.url@,
            download_directory: self.download_directory@,
            original_executable: self.original_executable@,
            renamed_executable: self.renamed_executable@,
        }
    }
}

impl View for Update {
    type V = UpdateView;

    open spec fn view(&self) -> UpdateView {
        self.deep_view()
    }
}

/// The model of an [`UpdateCompletion`].
pub enum UpdateCompletionView {
    SetFileAsExecutable { executable: CachePathView },
    MoveExecutableBack { from: CachePathView, to: CachePathView },
}

/// What ends an update.
#[derive(Debug, PartialEq, Eq)]
pub enum UpdateCompletion {
    /// The download succeeded: the new file is made executable.
    SetFileAsExecutable { executable: CachePath },
    /// The download failed: the old executable is moved back, and the
    /// failure of the download is reported.
    MoveExecutableBack { from: CachePath, to: CachePath },
}

impl DeepView for UpdateCompletion {
    type V = UpdateCompletionView;

    open spec fn deep_view(&self) -> UpdateCompletionView {
        match self {
            UpdateCompletion::SetFileAsExecutable { executable } => {
                UpdateCompletionView::SetFileAsExecutable { executable: executable@ }
            },
            UpdateCompletion::MoveExecutableBack { from, to } => {
                UpdateCompletionView::MoveExecutableBack { from: from@, to: to@ }
            },
        }
    }
}

impl View for UpdateCompletion {
    type V = UpdateCompletionView;

    open spec fn view(&self) -> UpdateCompletionView {
        self.deep_view()
    }
}

impl Update {
    pub fn get_url(&self) -> (url: &String)
        ensures
            url@ == self@.url,
    {
        &self.url
    }

    pub fn get_download_directory(&self) -> (download_directory: &CachePath)
        ensures
            download_directory@ == self@.download_directory,
    {
        &self.download_directory
    }

    pub fn get_original_executable(&self) -> (original_executable: &CachePath)
        ensures
            original_executable@ == self@.original_executable,
    {
        &self.original_executable
    }

    pub fn get_renamed_executable(&self) -> (renamed_executable: &CachePath)
        ensures
            renamed_executable@ == self@.renamed_executable,
    {
        &self.renamed_executable
    }

    /// What ends this update, given whether the download succeeded.
    pub fn complete(&self, download_succeeded: bool) -> (completion: UpdateCompletion)
        ensures
            completion@ == if download_succeeded {
                UpdateCompletionView::SetFileAsExecutable { executable: self@.original_executable }
            } else {
                UpdateCompletionView::MoveExecutableBack {
                    from: self@.renamed_executable,
                    to: self@.original_executable,
                }
            },
    {
        if download_succeeded {
            UpdateCompletion::SetFileAsExecutable { executable: self.original_executable.clone() }
        } else {
            UpdateCompletion::MoveExecutableBack {
                from: self.renamed_executable.clone(),
                to: self.original_executable.clone(),
            }
        }
    }
}

/// Where the latest release for a platform is found.
pub open spec fn release_url(os: Seq<char>, arch: Seq<char>) -> Seq<char> {
    "https://github.com/Solipath/Solipath/releases/download/latest-"@ + os + "_"@ + arch
        + "/solipath"@ + executable_file_extension(os)
}

/// The update of the tool in the directory `solipath_directory` on the
/// platform with the operating system `os` and the architecture `arch`.
pub open spec fn update_for(
    solipath_directory: CachePathView,
    os: Seq<char>,
    arch: Seq<char>,
) -> UpdateView {
    UpdateView {
        url: release_url(os, arch),
        download_directory: solipath_directory,
        original_executable: solipath_directory.push("solipath"@ + executable_file_extension(os)),
        renamed_executable: solipath_directory.push("solipathold"@ + executable_file_extension(os)),
    }
}

/// The model of a [`CliAction`].
pub enum CliActionView {
    UpdateSolipath { update: UpdateView },
    Nothing,
}

/// What a command for the tool itself asks for.
#[derive(Debug, PartialEq, Eq)]
pub enum CliAction {
    UpdateSolipath { update: Update },
    /// The command is not one that the tool knows: nothing is done.
    Nothing,
}

impl DeepView for CliAction {
    type V = CliActionView;

    open spec fn deep_view(&self) -> CliActionView {
        match self {
            CliAction::UpdateSolipath { update } => CliActionView::UpdateSolipath {
                update: update@,
            },
            CliAction::Nothing => CliActionView::Nothing,
        }
    }
}

impl View for CliAction {
    type V = CliActionView;

    open spec fn view(&self) -> CliActionView {
        self.deep_view()
    }
}

/// Reads the commands that are meant for the tool itself.
pub struct SolipathCli<'a, D: SolipathDirectoryFinderTrait, R: CurrentPlatformRetrieverTrait> {
    directory_finder: &'a D,
    current_platform_retriever: &'a R,
}

impl<'a, D: SolipathDirectoryFinderTrait, R: CurrentPlatformRetrieverTrait> SolipathCli<'a, D, R> {
    pub fn new(directory_finder: &'a D, current_platform_retriever: &'a R) -> (cli: Self)
        ensures
            cli.base_directory() == directory_finder.base_directory(),
            cli.current_platform() == current_platform_retriever.current_platform(),
    {
        SolipathCli { directory_finder, current_platform_retriever }
    }

    /// The directory that holds the executable of the tool.
    pub closed spec fn base_directory(&self) -> CachePathView {
        self.directory_finder.base_directory()
    }

    /// The platform that the tool runs on.
    pub closed spec fn current_platform(&self) -> PlatformView {
        self.current_platform_retriever.current_platform()
    }

    /// The update of the tool on the current platform, whose architecture
    /// has to be known.
    pub fn update_solipath(&self) -> (update: Update)
        requires
            self.current_platform().arch is Some,
        ensures
            update@ == update_for(
                self.base_directory(),
                self.current_platform().os,
                self.current_platform().arch->0,
            ),
    {
        let platform = self.current_platform_retriever.get_current_platform();
        let os = platform.get_os();
        let solipath_directory = self.directory_finder.get_base_solipath_directory();
        let file_extension = get_executable_file_extension(os.as_str());
        let mut solipath_url = joined(
            "https://github.com/Solipath/Solipath/releases/download/latest-",
            os.as_str(),
        );
        solipath_url.append("_");
        match platform.get_arch() {
            Some(arch) => {
                solipath_url.append(arch.as_str());
            },
            None => {},
        }
        solipath_url.append("/solipath");
        solipath_url.append(file_extension.as_str());
        let original_executable = solipath_directory.clone_push(
            joined("solipath", file_extension.as_str()).as_str(),
        );
        let renamed_executable = solipath_directory.clone_push(
            joined("solipathold", file_extension.as_str()).as_str(),
        );
        Update {
            url: solipath_url,
            download_directory: solipath_directory,
            original_executable,
            renamed_executable,
        }
    }

    /// What the command with the words `commands` asks for: `--update`
    /// asks for an update, any other first word for nothing.
    pub fn run_solipath_command(&self, commands: &[String]) -> (action: CliAction)
        requires
            commands@.len() > 0,
            commands@[0]@ == "--update"@ ==> self.current_platform().arch is Some,
        ensures
            action@ == if commands@[0]@ == "--update"@ {
                CliActionView::UpdateSolipath {
                    update: update_for(
                        self.base_directory(),
                        self.current_platform().os,
                        self.current_platform().arch->0,
                    ),
                }
            } else {
                CliActionView::Nothing
            },
    {
        if same_text(commands[0].as_str(), "--update") {
            CliAction::UpdateSolipath { update: self.update_solipath() }
        } else {
            CliAction::Nothing
        }
    }
}

} // verus!
