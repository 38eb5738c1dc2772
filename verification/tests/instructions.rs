use solipath::solipath_dependency_metadata::dependency::Dependency;
use solipath::solipath_instructions::data::dependency_instructions::{
    filter_pairs, DependencyInstructions, VecDependencyInstructions,
};
use solipath::solipath_instructions::data::download_instruction::DownloadInstruction;
use solipath::solipath_instructions::data::environment_variable::EnvironmentVariable;
use solipath::solipath_instructions::data::install_command::InstallCommand;
use solipath::solipath_instructions::data::install_instructions::InstallInstructions;
use solipath::solipath_instructions::data::template::Template;
use solipath::solipath_instructions::install_file_looper::InstallFileLooper;
use solipath::solipath_platform::current_platform_retriever::CurrentPlatformRetriever;
use solipath::solipath_platform::platform::Platform;
use solipath::solipath_platform::platform_filter::PlatformFilter;
use solipath::text_map::TextMap;

fn variables(pairs: &[(&str, &str)]) -> TextMap {
    let mut map = TextMap::new();
    for (key, value) in pairs {
        map.insert(key, value);
    }
    map
}

fn with_environment_variables(environment_variables: Vec<EnvironmentVariable>) -> InstallInstructions {
    InstallInstructions::new(Vec::new(), Vec::new(), environment_variables, Vec::new())
}

fn with_downloads(downloads: Vec<DownloadInstruction>) -> InstallInstructions {
    InstallInstructions::new(Vec::new(), downloads, Vec::new(), Vec::new())
}

fn with_install_commands(install_commands: Vec<InstallCommand>) -> InstallInstructions {
    InstallInstructions::new(Vec::new(), Vec::new(), Vec::new(), install_commands)
}

fn with_templates(templates: Vec<Template>) -> InstallInstructions {
    InstallInstructions::new(templates, Vec::new(), Vec::new(), Vec::new())
}

fn rust_test(name: &str, os: &str) -> EnvironmentVariable {
    EnvironmentVariable::new(
        name,
        Some("some/path/location".to_string()),
        None,
        vec![Platform::new(os, "x86")],
    )
}

fn create_platform_filter() -> PlatformFilter<CurrentPlatformRetriever> {
    PlatformFilter::new(CurrentPlatformRetriever::new("Matching OS", "Matching Arch"))
}

#[test]
fn can_get_aggregated_list_of_environment_variables() {
    let dependency_instructions = vec![
        DependencyInstructions::new(
            Dependency::new("Dependency1", "1.0"),
            with_environment_variables(vec![
                rust_test("RUST_TEST", "a good match"),
                rust_test("RUST_TEST", "a bad match"),
            ]),
        ),
        DependencyInstructions::new(
            Dependency::new("Dependency2", "2.0"),
            with_environment_variables(vec![rust_test("RUST_TEST2", "another match")]),
        ),
    ];
    assert_eq!(
        vec![
            (
                dependency_instructions[0].get_dependency(),
                &dependency_instructions[0].get_environment_variables()[0]
            ),
            (
                dependency_instructions[0].get_dependency(),
                &dependency_instructions[0].get_environment_variables()[1]
            ),
            (
                dependency_instructions[1].get_dependency(),
                &dependency_instructions[1].get_environment_variables()[0]
            )
        ],
        dependency_instructions.get_environment_variables()
    )
}

#[test]
fn can_get_aggregated_list_of_downloads() {
    let dependency_instructions = vec![
        DependencyInstructions::new(
            Dependency::new("Dependency1", "1.0"),
            with_downloads(vec![
                DownloadInstruction::new(
                    "www.github.com/node15.zip",
                    "node15Folder",
                    vec![Platform::new("a good match", "x86")],
                ),
                DownloadInstruction::new(
                    "www.github.com/gradle.zip",
                    "gradleFolder",
                    vec![Platform::new("a bad match", "arm")],
                ),
            ]),
        ),
        DependencyInstructions::new(
            Dependency::new("Dependency2", "2.0"),
            with_downloads(vec![DownloadInstruction::new(
                "www.github.com/node15.zip",
                "node15Folder",
                vec![Platform::new("a good match", "x86")],
            )]),
        ),
    ];
    assert_eq!(
        vec![
            (
                dependency_instructions[0].get_dependency(),
                &dependency_instructions[0].get_downloads()[0]
            ),
            (
                dependency_instructions[0].get_dependency(),
                &dependency_instructions[0].get_downloads()[1]
            ),
            (
                dependency_instructions[1].get_dependency(),
                &dependency_instructions[1].get_downloads()[0]
            )
        ],
        dependency_instructions.get_downloads()
    )
}

#[test]
fn can_get_aggregated_install_commands() {
    let dependency_instructions = vec![
        DependencyInstructions::new(
            Dependency::new("Dependency1", "1.0"),
            with_install_commands(vec![
                InstallCommand::new(
                    "do something",
                    vec![Platform::new("a good match", "x86")],
                    TextMap::new(),
                ),
                InstallCommand::new(
                    "do something2",
                    vec![Platform::new("a bad match", "x86")],
                    TextMap::new(),
                ),
            ]),
        ),
        DependencyInstructions::new(
            Dependency::new("Dependency2", "2.0"),
            with_install_commands(vec![InstallCommand::new(
                "do something2",
                vec![Platform::new("a bad match", "x86")],
                TextMap::new(),
            )]),
        ),
    ];
    assert_eq!(
        vec![
            (
                dependency_instructions[0].get_dependency(),
                &dependency_instructions[0].get_install_commands()[0]
            ),
            (
                dependency_instructions[0].get_dependency(),
                &dependency_instructions[0].get_install_commands()[1]
            ),
            (
                dependency_instructions[1].get_dependency(),
                &dependency_instructions[1].get_install_commands()[0]
            )
        ],
        dependency_instructions.get_install_commands()
    )
}

#[test]
fn can_get_aggregated_templates() {
    let dependency_instructions = vec![
        DependencyInstructions::new(
            Dependency::new("Dependency1", "1.0"),
            with_templates(vec![
                Template::new(
                    "template1",
                    variables(&[("key1", "value1"), ("key2", "value2")]),
                    Vec::new(),
                ),
                Template::new(
                    "template2",
                    variables(&[("key1", "value2"), ("key2", "value3")]),
                    Vec::new(),
                ),
            ]),
        ),
        DependencyInstructions::new(
            Dependency::new("Dependency2", "2.0"),
            with_templates(vec![Template::new(
                "template1",
                variables(&[("key1", "value1"), ("key2", "value2")]),
                Vec::new(),
            )]),
        ),
    ];
    assert_eq!(
        vec![
            (
                dependency_instructions[0].get_dependency(),
                &dependency_instructions[0].get_templates()[0]
            ),
            (
                dependency_instructions[0].get_dependency(),
                &dependency_instructions[0].get_templates()[1]
            ),
            (
                dependency_instructions[1].get_dependency(),
                &dependency_instructions[1].get_templates()[0]
            )
        ],
        dependency_instructions.get_templates()
    )
}

#[test]
fn aggregated_list_of_nothing_is_empty() {
    let nothing: Vec<DependencyInstructions> = Vec::new();
    assert_eq!(nothing.get_downloads(), Vec::new());
    let without_downloads = vec![DependencyInstructions::new(
        Dependency::new("Dependency1", "1.0"),
        with_templates(Vec::new()),
    )];
    assert_eq!(without_downloads.get_downloads(), Vec::new());
}

#[test]
fn can_filter_instructions_list() {
    let platform_filter = create_platform_filter();
    let dependency_instructions = vec![
        DependencyInstructions::new(
            Dependency::new("Dependency1", "1.0"),
            with_templates(vec![
                Template::new(
                    "template1",
                    variables(&[("key1", "value1"), ("key2", "value2")]),
                    vec![Platform::new("Matching OS", "Matching Arch")],
                ),
                Template::new(
                    "template2",
                    variables(&[("key1", "value2"), ("key2", "value3")]),
                    vec![Platform::new("Non Matching OS", "Non Matching Arch")],
                ),
            ]),
        ),
        DependencyInstructions::new(
            Dependency::new("Dependency2", "2.0"),
            with_templates(vec![Template::new(
                "template3",
                variables(&[("key1", "value1"), ("key2", "value2")]),
                Vec::new(),
            )]),
        ),
    ];
    assert_eq!(
        vec![
            DependencyInstructions::new(
                Dependency::new("Dependency1", "1.0"),
                with_templates(vec![Template::new(
                    "template1",
                    variables(&[("key1", "value1"), ("key2", "value2")]),
                    vec![Platform::new("Matching OS", "Matching Arch")],
                )]),
            ),
            DependencyInstructions::new(
                Dependency::new("Dependency2", "2.0"),
                with_templates(vec![Template::new(
                    "template3",
                    variables(&[("key1", "value1"), ("key2", "value2")]),
                    Vec::new(),
                )]),
            ),
        ],
        dependency_instructions.filter_platform(&platform_filter)
    );
}

#[test]
fn filter_pairs_keeps_the_pairs_whose_item_applies() {
    let platform_filter = create_platform_filter();
    let dependency_instructions = vec![DependencyInstructions::new(
        Dependency::new("Dependency1", "1.0"),
        with_downloads(vec![
            DownloadInstruction::new("first", "a", vec![Platform::new("a bad match", "arm")]),
            DownloadInstruction::new("second", "b", Vec::new()),
            DownloadInstruction::new(
                "third",
                "c",
                vec![Platform::any_architecture("Matching OS")],
            ),
        ]),
    )];
    let kept = filter_pairs(&platform_filter, dependency_instructions.get_downloads());
    assert_eq!(
        kept.iter()
            .map(|(dependency, download)| (dependency.name.clone(), download.get_url()))
            .collect::<Vec<(String, String)>>(),
        vec![
            ("Dependency1".to_string(), "second".to_string()),
            ("Dependency1".to_string(), "third".to_string())
        ]
    );
}

#[test]
fn can_set_only_relative_path() {
    let environment_variable = EnvironmentVariable::new(
        "RUST_TEST",
        Some("some/path/location".to_string()),
        None,
        Vec::new(),
    );

    assert_eq!(
        Some("some/path/location".to_string()),
        environment_variable.get_relative_path().clone()
    );
    assert_eq!(None, environment_variable.get_value().clone());
}

#[test]
fn can_set_only_value() {
    let environment_variable =
        EnvironmentVariable::new("RUST_TEST", None, Some("the value".to_string()), Vec::new());

    assert_eq!(None, environment_variable.get_relative_path().clone());
    assert_eq!(Some("the value".to_string()), environment_variable.get_value().clone());
    assert_eq!("RUST_TEST", environment_variable.get_name());
}

#[test]
fn can_filter_environment_variables() {
    let platform_filter = create_platform_filter();
    let install_instructions = with_environment_variables(vec![
        EnvironmentVariable::new(
            "RUST_TEST",
            Some("some/path/location".to_string()),
            None,
            vec![Platform::new("Matching OS", "Matching Arch")],
        ),
        rust_test("RUST_TEST", "a bad match"),
    ]);

    let filtered_instructions = install_instructions.filter_platform(&platform_filter);
    assert_eq!(
        &vec![install_instructions.get_environment_variables()[0].clone()],
        filtered_instructions.get_environment_variables()
    )
}

#[test]
fn can_filter_downloads() {
    let platform_filter = create_platform_filter();
    let install_instructions = with_downloads(vec![
        DownloadInstruction::new(
            "www.github.com/node15.zip",
            "node15Folder",
            vec![Platform::new("Matching OS", "Matching Arch")],
        ),
        DownloadInstruction::new(
            "www.github.com/gradle.zip",
            "gradleFolder",
            vec![Platform::new("a bad match", "arm")],
        ),
    ]);

    let filtered_instructions = install_instructions.filter_platform(&platform_filter);
    assert_eq!(
        &vec![install_instructions.get_downloads()[0].clone()],
        filtered_instructions.get_downloads()
    )
}

#[test]
fn can_filter_install_commands() {
    let platform_filter = create_platform_filter();
    let install_instructions = with_install_commands(vec![
        InstallCommand::new(
            "do something",
            vec![Platform::new("Matching OS", "Matching Arch")],
            TextMap::new(),
        ),
        InstallCommand::new(
            "do something2",
            vec![Platform::new("a bad match", "x86")],
            TextMap::new(),
        ),
    ]);

    let filtered_instructions = install_instructions.filter_platform(&platform_filter);
    assert_eq!(
        &vec![install_instructions.get_install_commands()[0].clone()],
        filtered_instructions.get_install_commands()
    )
}

#[test]
fn can_filter_templates() {
    let platform_filter = create_platform_filter();
    let install_instructions = with_templates(vec![
        Template::new(
            "template1",
            variables(&[("key1", "value1"), ("key2", "value2")]),
            vec![Platform::new("Matching OS", "Matching Arch")],
        ),
        Template::new(
            "template2",
            variables(&[("key1", "value2"), ("key2", "value3")]),
            vec![Platform::new("a bad match", "x86")],
        ),
    ]);

    let filtered_instructions = install_instructions.filter_platform(&platform_filter);
    assert_eq!(
        &vec![install_instructions.get_templates()[0].clone()],
        filtered_instructions.get_templates()
    )
}

#[test]
fn filtering_twice_changes_nothing_more() {
    let platform_filter = create_platform_filter();
    let install_instructions = with_downloads(vec![
        DownloadInstruction::new("kept", "a", vec![Platform::any_architecture("Matching OS")]),
        DownloadInstruction::new("dropped", "b", vec![Platform::new("a bad match", "arm")]),
    ]);
    let once = install_instructions.filter_platform(&platform_filter);
    let twice = once.filter_platform(&platform_filter);
    assert_eq!(once, twice);
}

#[test]
fn getters_hand_out_what_the_constructors_took() {
    let download = DownloadInstruction::new("the url", "the directory", Vec::new());
    assert_eq!(download.get_url(), "the url");
    assert_eq!(download.get_destination_directory(), "the directory");
    let rules = variables(&[("file_does_not_exist", "marker")]);
    let command =
        InstallCommand::new("do it", vec![Platform::new("linux", "x86_64")], rules.clone());
    assert_eq!(command.get_command(), "do it");
    assert_eq!(command.get_platform_filters(), &[Platform::new("linux", "x86_64")]);
    assert_eq!(command.get_when_to_run_rules(), &rules);
    let template = Template::new("template1", variables(&[("key", "value")]), Vec::new());
    assert_eq!(template.get_name(), "template1");
    assert_eq!(template.get_variables(), &variables(&[("key", "value")]));
    assert_eq!(template.get_platform_filters(), &[]);
    let dependency = Dependency::new_with_platform_filters(
        "node",
        "15",
        vec![Platform::any_architecture("linux")],
    );
    assert_eq!(dependency.get_name(), "node");
    assert_eq!(dependency.get_version(), "15");
    assert_eq!(dependency.get_platform_filters(), &[Platform::any_architecture("linux")]);
    assert_eq!(Dependency::new("node", "15").get_platform_filters(), &[]);
}

#[test]
fn instruction_document_belongs_to_the_dependency_that_its_directories_name() {
    let install_file_looper = InstallFileLooper::new();
    let directories =
        vec!["tmp".to_string(), "base".to_string(), "name1".to_string(), "version1".to_string()];
    assert_eq!(
        install_file_looper.retrieve_dependency(&directories),
        Some(Dependency::new("name1", "version1"))
    );
    assert_eq!(
        install_file_looper.retrieve_dependency(&["name2".to_string(), "version2".to_string()]),
        Some(Dependency::new("name2", "version2"))
    );
    assert_eq!(install_file_looper.retrieve_dependency(&["version".to_string()]), None);
    assert_eq!(install_file_looper.retrieve_dependency(&[]), None);
}
