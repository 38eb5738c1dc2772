use solipath::error::{SolipathError, UntilFailure};
use solipath::solipath_dependency_metadata::dependency::Dependency;
use solipath::solipath_directory::cache_path::CachePath;
use solipath::solipath_directory::moveable_home_directory_finder::MoveableHomeDirectoryFinder;
use solipath::solipath_execute::command_with_path_executor::CommandWithPathExecutor;
use solipath::solipath_instructions::data::dependency_instructions::DependencyInstructions;
use solipath::solipath_instructions::data::install_command::InstallCommand;
use solipath::solipath_instructions::data::install_instructions::InstallInstructions;
use solipath::solipath_platform::current_platform_retriever::CurrentPlatformRetriever;
use solipath::solipath_platform::platform::Platform;
use solipath::solipath_platform::platform_filter::PlatformFilter;
use solipath::solipath_shell::command_executor::CommandExecutor;
use solipath::solipath_shell::install_command_executor::{
    switch_to_download_directory_command, InstallCommandExecutor, InstallCommandExecutorTrait,
};
use solipath::solipath_shell::install_command_filter::{
    command_should_be_run, InstallCommandFilter, WhenToRunCheck,
};
use solipath::solipath_shell::looping_install_command_executor::LoopingInstallCommandExecutor;
use solipath::text_map::TextMap;

fn path(root: &str, pieces: &[&str]) -> CachePath {
    let mut path = CachePath::new(root);
    for piece in pieces {
        path.push(piece);
    }
    path
}

fn rules(pairs: &[(&str, &str)]) -> TextMap {
    let mut map = TextMap::new();
    for (key, value) in pairs {
        map.insert(key, value);
    }
    map
}

fn with_install_commands(install_commands: Vec<InstallCommand>) -> InstallInstructions {
    InstallInstructions::new(Vec::new(), Vec::new(), Vec::new(), install_commands)
}

#[test]
fn setup_command_starts_the_first_word_off_windows() {
    let command_executor = CommandExecutor::new("linux");
    let command = command_executor
        .setup_command(&vec!["echo".to_string(), "the test worked!!!".to_string()]);
    assert_eq!(command.get_program(), "echo");
    assert_eq!(command.get_arguments(), &vec!["the test worked!!!".to_string()]);

    let command_executor = CommandExecutor::new("windows");
    let command = command_executor
        .setup_command(&vec!["echo".to_string(), "the test worked!!!".to_string()]);
    assert_eq!(command.get_program(), "cmd");
    assert_eq!(
        command.get_arguments(),
        &vec!["/C".to_string(), "echo".to_string(), "the test worked!!!".to_string()]
    );
}

#[test]
fn setup_single_string_command_goes_through_the_shell() {
    let command_executor = CommandExecutor::new("windows");
    let command = command_executor.setup_single_string_command(&"cd tests && dir /b".to_string());
    assert_eq!(command.get_program(), "cmd");
    assert_eq!(command.get_arguments(), &vec!["/C".to_string(), "cd tests && dir /b".to_string()]);

    let command_executor = CommandExecutor::new("linux");
    let command = command_executor.setup_single_string_command(&"cd tests && ls".to_string());
    assert_eq!(command.get_program(), "bash");
    assert_eq!(command.get_arguments(), &vec!["-c".to_string(), "cd tests && ls".to_string()]);
}

#[test]
fn command_of_one_word_has_no_arguments() {
    let command_executor = CommandExecutor::new("macos");
    assert!(!command_executor.is_windows());
    let command = command_executor.setup_command(&vec!["java".to_string()]);
    assert_eq!(command.get_program(), "java");
    assert_eq!(command.get_arguments(), &Vec::<String>::new());
    let on_windows = CommandExecutor::new("windows");
    assert!(on_windows.is_windows());
    let command = on_windows.setup_command(&Vec::new());
    assert_eq!(command.get_program(), "cmd");
    assert_eq!(command.get_arguments(), &vec!["/C".to_string()]);
}

#[test]
fn filter_commands_no_rules_returns_true() {
    let directory_finder = MoveableHomeDirectoryFinder::new(CachePath::new("base"));
    let dependency = Dependency::new("depend", "version");
    let install_command_filter = InstallCommandFilter::new(&directory_finder);
    assert_eq!(install_command_filter.checks(&dependency, &TextMap::new()), Ok(Vec::new()));
    assert_eq!(command_should_be_run(&[]), true);
}

#[test]
fn filter_commands_file_exists_already_on_a_file_does_not_exist_rule_returns_false() {
    let directory_finder = MoveableHomeDirectoryFinder::new(CachePath::new("temp_dir"));
    let dependency = Dependency::new("depend", "version");
    let map = rules(&[("file_does_not_exist", "somepath")]);
    let install_command_filter = InstallCommandFilter::new(&directory_finder);
    let checks = install_command_filter.checks(&dependency, &map).unwrap();
    assert_eq!(
        checks,
        vec![WhenToRunCheck::FileDoesNotExist {
            path: path("temp_dir", &["depend", "downloads", "somepath"])
        }]
    );
    let file_exists = true;
    let checks_met: Vec<bool> = checks.iter().map(|check| check.is_met(file_exists)).collect();
    assert_eq!(command_should_be_run(&checks_met), false);
}

#[test]
fn filter_commands_file_does_not_exist_on_a_file_does_not_exist_rule_returns_true() {
    let directory_finder = MoveableHomeDirectoryFinder::new(CachePath::new("temp_dir"));
    let dependency = Dependency::new("depend", "version");
    let map = rules(&[("file_does_not_exist", "somepath")]);
    let install_command_filter = InstallCommandFilter::new(&directory_finder);
    let checks = install_command_filter.checks(&dependency, &map).unwrap();
    assert_eq!(checks[0].get_path(), &path("temp_dir", &["depend", "downloads", "somepath"]));
    let file_exists = false;
    let checks_met: Vec<bool> = checks.iter().map(|check| check.is_met(file_exists)).collect();
    assert_eq!(command_should_be_run(&checks_met), true);
}

#[test]
fn filter_commands_unrecognized_filter_is_an_error() {
    let directory_finder = MoveableHomeDirectoryFinder::new(CachePath::new("base"));
    let dependency = Dependency::new("depend", "version");
    let map = rules(&[("nonexistent_filter", "something")]);
    let install_command_filter = InstallCommandFilter::new(&directory_finder);
    let error = install_command_filter.checks(&dependency, &map).unwrap_err();
    assert_eq!(
        error,
        SolipathError::UnrecognizedRule {
            rule_name: "nonexistent_filter".to_string(),
            dependency_name: "depend".to_string()
        }
    );
    assert_eq!(
        error.message(),
        "unrecognized command filter option 'nonexistent_filter' in 'depend' dependency!"
    );
}

#[test]
fn unrecognized_rule_is_reported_wherever_it_stands() {
    let directory_finder = MoveableHomeDirectoryFinder::new(CachePath::new("base"));
    let dependency = Dependency::new("depend", "version");
    let install_command_filter = InstallCommandFilter::new(&directory_finder);
    let last = rules(&[("file_does_not_exist", "a"), ("unknown", "b")]);
    assert_eq!(
        install_command_filter.checks(&dependency, &last),
        Err(SolipathError::UnrecognizedRule {
            rule_name: "unknown".to_string(),
            dependency_name: "depend".to_string()
        })
    );
    let two = rules(&[("first_unknown", "a"), ("second_unknown", "b")]);
    assert_eq!(
        install_command_filter.checks(&dependency, &two),
        Err(SolipathError::UnrecognizedRule {
            rule_name: "first_unknown".to_string(),
            dependency_name: "depend".to_string()
        })
    );
}

#[test]
fn every_check_has_to_be_met() {
    assert_eq!(command_should_be_run(&[true, true, true]), true);
    assert_eq!(command_should_be_run(&[true, false, true]), false);
    assert_eq!(command_should_be_run(&[false]), false);
    let directory_finder = MoveableHomeDirectoryFinder::new(CachePath::new("base"));
    let install_command_filter = InstallCommandFilter::new(&directory_finder);
    let dependency = Dependency::new("depend", "version");
    assert_eq!(
        install_command_filter.check_single_rule(
            &dependency,
            &"file_does_not_exist".to_string(),
            &"marker".to_string()
        ),
        Ok(install_command_filter.check_file_does_not_exist(&dependency, "marker"))
    );
}

#[test]
fn run_command_if_rules_pass() {
    let dependency = Dependency::new("depend", "version");
    let directory_finder = MoveableHomeDirectoryFinder::new(CachePath::new("base"));
    let install_command_executor = InstallCommandExecutor::new(&directory_finder);
    let install_command =
        InstallCommand::new("do something", Vec::new(), rules(&[("file_does_not_exist", "thefile")]));
    let step = install_command_executor.execute_command(&dependency, &install_command).unwrap();
    assert_eq!(
        step.get_checks(),
        &vec![WhenToRunCheck::FileDoesNotExist {
            path: path("base", &["depend", "downloads", "thefile"])
        }]
    );
    assert_eq!(step.get_downloads_directory(), &path("base", &["depend", "downloads"]));
    assert_eq!(step.get_command(), "do something");
    assert_eq!(
        step.command_string("windows", "downloads_directory"),
        "cd /d downloads_directory && do something"
    );
    assert_eq!(
        step.command_string("linux", "downloads_directory"),
        "cd downloads_directory && do something"
    );
}

#[test]
fn do_not_run_command_if_rules_fail() {
    let dependency = Dependency::new("depend", "version");
    let directory_finder = MoveableHomeDirectoryFinder::new(CachePath::new("base"));
    let install_command_executor = InstallCommandExecutor::new(&directory_finder);
    let install_command =
        InstallCommand::new("do something", Vec::new(), rules(&[("file_does_not_exist", "thefile")]));
    let step = install_command_executor.execute_command(&dependency, &install_command).unwrap();
    let the_file_exists = true;
    let checks_met: Vec<bool> =
        step.get_checks().iter().map(|check| check.is_met(the_file_exists)).collect();
    assert_eq!(command_should_be_run(&checks_met), false);
}

#[test]
fn install_command_runs_on_a_fresh_cache_and_not_again_once_the_marker_is_there() {
    let dependency = Dependency::new("depend", "version");
    let directory_finder = MoveableHomeDirectoryFinder::new(CachePath::new("base"));
    let install_command_executor = InstallCommandExecutor::new(&directory_finder);
    let install_command =
        InstallCommand::new("touch marker", Vec::new(), rules(&[("file_does_not_exist", "marker")]));
    let marker = path("base", &["depend", "downloads", "marker"]);
    let mut existing: Vec<CachePath> = Vec::new();
    let mut runs = 0;
    for _ in 0..2 {
        let step = install_command_executor.execute_command(&dependency, &install_command).unwrap();
        let checks_met: Vec<bool> = step
            .get_checks()
            .iter()
            .map(|check| check.is_met(existing.contains(check.get_path())))
            .collect();
        if command_should_be_run(&checks_met) {
            runs += 1;
            existing.push(marker.clone());
        }
    }
    assert_eq!(runs, 1);
}

#[test]
fn switch_to_download_directory_command_changes_the_drive_on_windows() {
    assert_eq!(switch_to_download_directory_command("windows", "C:\\cache"), "cd /d C:\\cache");
    assert_eq!(switch_to_download_directory_command("linux", "/cache"), "cd /cache");
}

#[test]
fn can_set_command_executor() {
    let dependency = Dependency::new("dependency", "123.12");
    let dependency_instructions_list = vec![DependencyInstructions::new(
        dependency.clone(),
        with_install_commands(vec![InstallCommand::new("do something", Vec::new(), TextMap::new())]),
    )];
    let directory_finder = MoveableHomeDirectoryFinder::new(CachePath::new("base"));
    let install_command_executor = InstallCommandExecutor::new(&directory_finder);
    let platform_filter = PlatformFilter::new(CurrentPlatformRetriever::new("linux", "x86_64"));
    let looping_install_command_executor =
        LoopingInstallCommandExecutor::new(&install_command_executor, &platform_filter);
    let planned =
        looping_install_command_executor.run_install_commands(&dependency_instructions_list);
    assert_eq!(planned.failure, None);
    let steps = planned.results;
    assert_eq!(
        steps,
        vec![install_command_executor
            .execute_command(
                &dependency,
                &InstallCommand::new("do something", Vec::new(), TextMap::new())
            )
            .unwrap()]
    );
    assert_eq!(steps[0].get_command(), "do something");
}

#[test]
fn can_set_command_executor_loops() {
    let dependency = Dependency::new("dependency", "123.12");
    let dependency_instructions_list = vec![DependencyInstructions::new(
        dependency.clone(),
        with_install_commands(vec![
            InstallCommand::new("do something", Vec::new(), TextMap::new()),
            InstallCommand::new("do something2", Vec::new(), TextMap::new()),
        ]),
    )];
    let directory_finder = MoveableHomeDirectoryFinder::new(CachePath::new("base"));
    let install_command_executor = InstallCommandExecutor::new(&directory_finder);
    let platform_filter = PlatformFilter::new(CurrentPlatformRetriever::new("linux", "x86_64"));
    let looping_install_command_executor =
        LoopingInstallCommandExecutor::new(&install_command_executor, &platform_filter);
    let planned =
        looping_install_command_executor.run_install_commands(&dependency_instructions_list);
    assert_eq!(planned.failure, None);
    let steps = planned.results;
    assert_eq!(
        steps,
        vec![
            install_command_executor
                .execute_command(
                    &dependency,
                    &InstallCommand::new("do something", Vec::new(), TextMap::new())
                )
                .unwrap(),
            install_command_executor
                .execute_command(
                    &dependency,
                    &InstallCommand::new("do something2", Vec::new(), TextMap::new())
                )
                .unwrap()
        ]
    );
    assert_eq!(
        steps.iter().map(|step| step.get_command().clone()).collect::<Vec<String>>(),
        vec!["do something".to_string(), "do something2".to_string()]
    );
    assert_eq!(steps[0].get_downloads_directory(), &path("base", &["dependency", "downloads"]));
}

#[test]
fn can_set_command_executor_and_filter_result() {
    let dependency = Dependency::new("dependency", "123.12");
    let dependency_instructions_list = vec![DependencyInstructions::new(
        dependency.clone(),
        with_install_commands(vec![
            InstallCommand::new(
                "do something",
                vec![Platform::new("a good match", "x86")],
                TextMap::new(),
            ),
            InstallCommand::new(
                "do something2",
                vec![Platform::new("a bad match", "x86")],
                TextMap::new(),
            ),
        ]),
    )];
    let directory_finder = MoveableHomeDirectoryFinder::new(CachePath::new("base"));
    let install_command_executor = InstallCommandExecutor::new(&directory_finder);
    let platform_filter = PlatformFilter::new(CurrentPlatformRetriever::new("a good match", "x86"));
    let looping_install_command_executor =
        LoopingInstallCommandExecutor::new(&install_command_executor, &platform_filter);
    let planned =
        looping_install_command_executor.run_install_commands(&dependency_instructions_list);
    assert_eq!(planned.failure, None);
    let steps = planned.results;
    assert_eq!(
        steps,
        vec![install_command_executor
            .execute_command(
                &dependency,
                &InstallCommand::new(
                    "do something",
                    vec![Platform::new("a good match", "x86")],
                    TextMap::new()
                )
            )
            .unwrap()]
    );
    assert_eq!(steps[0].get_command(), "do something");
}

#[test]
fn install_commands_before_one_with_an_unrecognized_rule_still_run() {
    let dependency_instructions_list = vec![DependencyInstructions::new(
        Dependency::new("dependency", "123.12"),
        with_install_commands(vec![
            InstallCommand::new("fine", Vec::new(), TextMap::new()),
            InstallCommand::new("not fine", Vec::new(), rules(&[("run_on_tuesdays", "yes")])),
            InstallCommand::new("never reached", Vec::new(), TextMap::new()),
        ]),
    )];
    let directory_finder = MoveableHomeDirectoryFinder::new(CachePath::new("base"));
    let install_command_executor = InstallCommandExecutor::new(&directory_finder);
    let platform_filter = PlatformFilter::new(CurrentPlatformRetriever::new("linux", "x86_64"));
    let looping_install_command_executor =
        LoopingInstallCommandExecutor::new(&install_command_executor, &platform_filter);
    let UntilFailure { results, failure } =
        looping_install_command_executor.run_install_commands(&dependency_instructions_list);
    assert_eq!(
        results.iter().map(|step| step.get_command().clone()).collect::<Vec<String>>(),
        vec!["fine".to_string()]
    );
    assert_eq!(
        failure,
        Some(SolipathError::UnrecognizedRule {
            rule_name: "run_on_tuesdays".to_string(),
            dependency_name: "dependency".to_string()
        })
    );
}

#[test]
fn install_command_is_started_through_the_shell_of_the_injected_operating_system() {
    let dependency = Dependency::new("depend", "version");
    let directory_finder = MoveableHomeDirectoryFinder::new(CachePath::new("base"));
    let install_command_executor = InstallCommandExecutor::new(&directory_finder);
    let install_command = InstallCommand::new("do something", Vec::new(), TextMap::new());
    let step = install_command_executor.execute_command(&dependency, &install_command).unwrap();

    let on_linux = CommandWithPathExecutor::new_with_injected_values(
        "url".to_string(),
        MoveableHomeDirectoryFinder::new(CachePath::new("base")),
        CurrentPlatformRetriever::new("linux", "x86_64"),
        CommandExecutor::new("linux"),
    );
    let command = on_linux.install_command(&step, "downloads_directory");
    assert_eq!(command.get_program(), "bash");
    assert_eq!(
        command.get_arguments(),
        &vec!["-c".to_string(), "cd downloads_directory && do something".to_string()]
    );

    let on_windows = CommandWithPathExecutor::new_with_injected_values(
        "url".to_string(),
        MoveableHomeDirectoryFinder::new(CachePath::new("base")),
        CurrentPlatformRetriever::new("windows", "x86_64"),
        CommandExecutor::new("windows"),
    );
    let command = on_windows.install_command(&step, "downloads_directory");
    assert_eq!(command.get_program(), "cmd");
    assert_eq!(
        command.get_arguments(),
        &vec!["/C".to_string(), "cd /d downloads_directory && do something".to_string()]
    );
    assert_eq!(CommandExecutor::new("windows").get_operating_system(), "windows");
}
