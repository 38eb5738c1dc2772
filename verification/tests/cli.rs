use solipath::solipath_cli::cli::{
    get_executable_file_extension, is_solipath_command, CliAction, SolipathCli, UpdateCompletion,
};
use solipath::solipath_directory::cache_path::CachePath;
use solipath::solipath_directory::moveable_home_directory_finder::MoveableHomeDirectoryFinder;
use solipath::solipath_platform::current_platform_retriever::CurrentPlatformRetriever;

fn path(root: &str, pieces: &[&str]) -> CachePath {
    let mut path = CachePath::new(root);
    for piece in pieces {
        path.push(piece);
    }
    path
}

#[test]
fn is_solipath_command_returns_true_if_first_starts_with_dashes() {
    assert_eq!(is_solipath_command(&["--a-command".to_string()]), true);
}

#[test]
fn is_solipath_command_returns_false_if_first_command_does_not_start_with_dashes() {
    assert_eq!(is_solipath_command(&["a-command".to_string()]), false);
}

#[test]
fn is_solipath_command_returns_false_for_a_single_dash() {
    assert_eq!(is_solipath_command(&["-".to_string(), "--update".to_string()]), false);
}

#[test]
fn executable_file_extension_is_exe_on_windows_only() {
    assert_eq!(get_executable_file_extension("windows"), ".exe");
    assert_eq!(get_executable_file_extension("linux"), "");
    assert_eq!(get_executable_file_extension("macos"), "");
}

#[test]
fn invalid_command_does_nothing() {
    let directory_finder = MoveableHomeDirectoryFinder::new(CachePath::new("solipath_temp_dir"));
    let current_platform_retriever = CurrentPlatformRetriever::new("linux", "x86_64");
    let solipath_cli = SolipathCli::new(&directory_finder, &current_platform_retriever);
    assert_eq!(
        solipath_cli.run_solipath_command(&["--not-real-command".to_string()]),
        CliAction::Nothing
    );
}

#[test]
fn linux_downloads_solipath_without_extention() {
    let directory_finder = MoveableHomeDirectoryFinder::new(CachePath::new("solipath_temp_dir"));
    let current_platform_retriever = CurrentPlatformRetriever::new("linux", "x86_64");
    let solipath_cli = SolipathCli::new(&directory_finder, &current_platform_retriever);
    match solipath_cli.run_solipath_command(&["--update".to_string()]) {
        CliAction::UpdateSolipath { update } => {
            assert_eq!(
                update.get_url(),
                "https://github.com/Solipath/Solipath/releases/download/latest-linux_x86_64/solipath"
            );
            assert_eq!(update.get_download_directory(), &path("solipath_temp_dir", &[]));
            assert_eq!(update.get_original_executable(), &path("solipath_temp_dir", &["solipath"]));
            assert_eq!(
                update.get_renamed_executable(),
                &path("solipath_temp_dir", &["solipathold"])
            );
            assert_eq!(
                update.complete(true),
                UpdateCompletion::SetFileAsExecutable {
                    executable: path("solipath_temp_dir", &["solipath"])
                }
            );
        }
        CliAction::Nothing => panic!("expected an update"),
    }
}

#[test]
fn linux_downloads_solipath_fails_download_and_moves_solipath_back() {
    let directory_finder = MoveableHomeDirectoryFinder::new(CachePath::new("solipath_temp_dir"));
    let current_platform_retriever = CurrentPlatformRetriever::new("linux", "x86_64");
    let solipath_cli = SolipathCli::new(&directory_finder, &current_platform_retriever);
    let update = match solipath_cli.run_solipath_command(&["--update".to_string()]) {
        CliAction::UpdateSolipath { update } => update,
        CliAction::Nothing => panic!("expected an update"),
    };
    assert_eq!(
        update.get_url(),
        "https://github.com/Solipath/Solipath/releases/download/latest-linux_x86_64/solipath"
    );
    assert_eq!(update.get_download_directory(), &path("solipath_temp_dir", &[]));
    assert_eq!(
        update.complete(false),
        UpdateCompletion::MoveExecutableBack {
            from: path("solipath_temp_dir", &["solipathold"]),
            to: path("solipath_temp_dir", &["solipath"])
        }
    );
}

#[test]
fn windows_downloads_an_exe() {
    let directory_finder = MoveableHomeDirectoryFinder::new(CachePath::new("solipath_temp_dir"));
    let current_platform_retriever = CurrentPlatformRetriever::new("windows", "x86_64");
    let solipath_cli = SolipathCli::new(&directory_finder, &current_platform_retriever);
    let update = match solipath_cli.run_solipath_command(&["--update".to_string()]) {
        CliAction::UpdateSolipath { update } => update,
        CliAction::Nothing => panic!("expected an update"),
    };
    assert_eq!(update, solipath_cli.update_solipath());
    assert_eq!(
        update.get_url(),
        "https://github.com/Solipath/Solipath/releases/download/latest-windows_x86_64/solipath.exe"
    );
    assert_eq!(update.get_download_directory(), &path("solipath_temp_dir", &[]));
    assert_eq!(update.get_original_executable(), &path("solipath_temp_dir", &["solipath.exe"]));
    assert_eq!(update.get_renamed_executable(), &path("solipath_temp_dir", &["solipathold.exe"]));
}
