use solipath::error::{SolipathError, UntilFailure};
use solipath::solipath_dependency_metadata::dependency::Dependency;
use solipath::solipath_directory::cache_path::CachePath;
use solipath::solipath_directory::moveable_home_directory_finder::MoveableHomeDirectoryFinder;
use solipath::solipath_environment_variable::environment::{
    Environment, EnvironmentChange, VariableValue,
};
use solipath::solipath_environment_variable::environment_setter::{
    EnvironmentSetter, EnvironmentSetterTrait,
};
use solipath::solipath_environment_variable::looping_environment_setter::LoopingEnvironmentSetter;
use solipath::solipath_instructions::data::dependency_instructions::DependencyInstructions;
use solipath::solipath_instructions::data::environment_variable::EnvironmentVariable;
use solipath::solipath_instructions::data::install_instructions::InstallInstructions;
use solipath::solipath_platform::current_platform_retriever::CurrentPlatformRetriever;
use solipath::solipath_platform::platform::Platform;
use solipath::solipath_platform::platform_filter::PlatformFilter;

fn path(root: &str, pieces: &[&str]) -> CachePath {
    let mut path = CachePath::new(root);
    for piece in pieces {
        path.push(piece);
    }
    path
}

fn relative(name: &str, relative_path: &str, platform_filters: Vec<Platform>) -> EnvironmentVariable {
    EnvironmentVariable::new(name, Some(relative_path.to_string()), None, platform_filters)
}

fn with_environment_variables(environment_variables: Vec<EnvironmentVariable>) -> InstallInstructions {
    InstallInstructions::new(Vec::new(), Vec::new(), environment_variables, Vec::new())
}

fn original_path() -> Vec<VariableValue> {
    vec![VariableValue::Text("/usr/bin".to_string()), VariableValue::Text("/bin".to_string())]
}

#[test]
fn relative_path_variable_is_set_to_a_path_below_downloads() {
    let dependency = Dependency::new("dependency", "123.12");
    let environment_variable = relative("RUST_TEST", "some/path/location", Vec::new());
    let directory_finder = MoveableHomeDirectoryFinder::new(CachePath::new("solipath/home"));
    let environment_setter = EnvironmentSetter::new(&directory_finder);
    let mut environment = Environment::new(original_path());
    environment.apply(environment_setter.set_variable(&dependency, &environment_variable).unwrap());
    assert_eq!(
        environment.get_assignments(),
        &vec![(
            "RUST_TEST".to_string(),
            VariableValue::Path(path(
                "solipath/home",
                &["dependency", "downloads", "some/path/location"]
            ))
        )]
    );
    assert_eq!(environment.get_path(), &original_path());
}

#[test]
fn can_set_variable_as_value() {
    let dependency = Dependency::new("dependency", "123.12");
    let environment_variable =
        EnvironmentVariable::new("RUST_TEST", None, Some("someValue".to_string()), Vec::new());
    let directory_finder = MoveableHomeDirectoryFinder::new(CachePath::new("solipath/home"));
    let environment_setter = EnvironmentSetter::new(&directory_finder);
    assert_eq!(
        environment_setter.set_variable(&dependency, &environment_variable),
        Ok(EnvironmentChange::SetVariable {
            name: "RUST_TEST".to_string(),
            value: VariableValue::Text("someValue".to_string())
        })
    );
}

#[test]
fn can_append_value_to_path() {
    let dependency = Dependency::new("dependency", "555.213");
    let environment_variable =
        EnvironmentVariable::new("PATH", None, Some("~/path/location".to_string()), Vec::new());
    let directory_finder = MoveableHomeDirectoryFinder::new(CachePath::new("solipath/home"));
    let environment_setter = EnvironmentSetter::new(&directory_finder);
    let mut environment = Environment::new(original_path());
    environment.apply(environment_setter.set_variable(&dependency, &environment_variable).unwrap());
    assert_eq!(environment.get_path()[0], VariableValue::Text("~/path/location".to_string()));
    assert_eq!(&environment.get_path()[1..], &original_path()[..]);
    assert_eq!(environment.get_assignments(), &Vec::new());
}

#[test]
fn path_variable_with_relative_path_is_put_in_front() {
    let dependency = Dependency::new("dependency", "555.213");
    let environment_variable = relative("PATH", "some/path/location", Vec::new());
    let directory_finder = MoveableHomeDirectoryFinder::new(CachePath::new("solipath/home"));
    let environment_setter = EnvironmentSetter::new(&directory_finder);
    let mut environment = Environment::new(original_path());
    environment.apply(environment_setter.set_variable(&dependency, &environment_variable).unwrap());
    assert_eq!(
        environment.get_path()[0],
        VariableValue::Path(path(
            "solipath/home",
            &["dependency", "downloads", "some/path/location"]
        ))
    );
    assert_eq!(&environment.get_path()[1..], &original_path()[..]);
}

#[test]
fn value_wins_over_relative_path() {
    let dependency = Dependency::new("dependency", "1");
    let environment_variable = EnvironmentVariable::new(
        "BOTH",
        Some("some/path".to_string()),
        Some("the value".to_string()),
        Vec::new(),
    );
    let directory_finder = MoveableHomeDirectoryFinder::new(CachePath::new("base"));
    let environment_setter = EnvironmentSetter::new(&directory_finder);
    assert_eq!(
        environment_setter.set_variable(&dependency, &environment_variable),
        Ok(EnvironmentChange::SetVariable {
            name: "BOTH".to_string(),
            value: VariableValue::Text("the value".to_string())
        })
    );
}

#[test]
fn variable_without_value_and_relative_path_is_an_error() {
    let dependency = Dependency::new("dependency", "1");
    let environment_variable = EnvironmentVariable::new("NOTHING", None, None, Vec::new());
    let directory_finder = MoveableHomeDirectoryFinder::new(CachePath::new("base"));
    let environment_setter = EnvironmentSetter::new(&directory_finder);
    let error = environment_setter.set_variable(&dependency, &environment_variable).unwrap_err();
    assert_eq!(
        error,
        SolipathError::EnvironmentVariableWithoutValue {
            variable_name: "NOTHING".to_string(),
            dependency_name: "dependency".to_string()
        }
    );
    assert_eq!(
        error.message(),
        "expected relative path to be defined for environment variable 'NOTHING' in 'dependency' dependency!"
    );
}

#[test]
fn relative_path_is_resolved_below_the_downloads_directory() {
    let dependency = Dependency::new("node", "15");
    let directory_finder = MoveableHomeDirectoryFinder::new(CachePath::new("/cache"));
    let environment_setter = EnvironmentSetter::new(&directory_finder);
    assert_eq!(
        environment_setter.convert_relative_path_from_downloads_directory_to_absolute_path(
            &dependency,
            "node/bin"
        ),
        path("/cache", &["node", "downloads", "node/bin"])
    );
}

#[test]
fn later_path_entries_come_before_earlier_ones() {
    let mut environment = Environment::new(original_path());
    environment.apply_all(vec![
        EnvironmentChange::PrependToPath { entry: VariableValue::Text("first".to_string()) },
        EnvironmentChange::SetVariable {
            name: "NAME".to_string(),
            value: VariableValue::Text("old".to_string()),
        },
        EnvironmentChange::PrependToPath { entry: VariableValue::Text("second".to_string()) },
        EnvironmentChange::SetVariable {
            name: "NAME".to_string(),
            value: VariableValue::Text("new".to_string()),
        },
    ]);
    assert_eq!(
        environment.get_path(),
        &vec![
            VariableValue::Text("second".to_string()),
            VariableValue::Text("first".to_string()),
            VariableValue::Text("/usr/bin".to_string()),
            VariableValue::Text("/bin".to_string())
        ]
    );
    assert_eq!(
        environment.get_assignments().last(),
        Some(&("NAME".to_string(), VariableValue::Text("new".to_string())))
    );
}

#[test]
fn set_single_environment_variable() {
    let dependency = Dependency::new("dependency", "123.12");
    let dependency_instructions_list = vec![DependencyInstructions::new(
        dependency.clone(),
        with_environment_variables(vec![relative("RUST_TEST", "some/path/location", Vec::new())]),
    )];
    let directory_finder = MoveableHomeDirectoryFinder::new(CachePath::new("base"));
    let environment_setter = EnvironmentSetter::new(&directory_finder);
    let platform_filter = PlatformFilter::new(CurrentPlatformRetriever::new("linux", "x86_64"));
    let looping_environment_setter =
        LoopingEnvironmentSetter::new(&environment_setter, &platform_filter);
    assert_eq!(
        looping_environment_setter.set_environment_variables(&dependency_instructions_list),
        UntilFailure {
            results: vec![EnvironmentChange::SetVariable {
                name: "RUST_TEST".to_string(),
                value: VariableValue::Path(path(
                    "base",
                    &["dependency", "downloads", "some/path/location"]
                ))
            }],
            failure: None
        }
    );
}

#[test]
fn set_single_environment_variable_one_filtered_out() {
    let dependency = Dependency::new("dependency", "123.12");
    let dependency_instructions_list = vec![DependencyInstructions::new(
        dependency.clone(),
        with_environment_variables(vec![
            relative("RUST_TEST", "some/path/location", vec![Platform::new("a good match", "x86")]),
            relative("RUST_TEST", "some/path/location", vec![Platform::new("a bad match", "x86")]),
        ]),
    )];
    let directory_finder = MoveableHomeDirectoryFinder::new(CachePath::new("base"));
    let environment_setter = EnvironmentSetter::new(&directory_finder);
    let platform_filter = PlatformFilter::new(CurrentPlatformRetriever::new("a good match", "x86"));
    let looping_environment_setter =
        LoopingEnvironmentSetter::new(&environment_setter, &platform_filter);
    assert_eq!(
        looping_environment_setter.set_environment_variables(&dependency_instructions_list),
        UntilFailure {
            results: vec![EnvironmentChange::SetVariable {
                name: "RUST_TEST".to_string(),
                value: VariableValue::Path(path(
                    "base",
                    &["dependency", "downloads", "some/path/location"]
                ))
            }],
            failure: None
        }
    );
}

#[test]
fn set_multiple_environment_variables() {
    let dependency1 = Dependency::new("dependency", "123.12");
    let dependency2 = Dependency::new("dependency2", "123.123");
    let dependency_instructions_list = vec![
        DependencyInstructions::new(
            dependency1.clone(),
            with_environment_variables(vec![
                relative("RUST_TEST", "some/path/location", Vec::new()),
                relative("RUST_TEST2", "some/path/location2", Vec::new()),
            ]),
        ),
        DependencyInstructions::new(
            dependency2.clone(),
            with_environment_variables(vec![relative(
                "RUST_TEST3",
                "some/path/location3",
                Vec::new(),
            )]),
        ),
    ];
    let directory_finder = MoveableHomeDirectoryFinder::new(CachePath::new("base"));
    let environment_setter = EnvironmentSetter::new(&directory_finder);
    let platform_filter = PlatformFilter::new(CurrentPlatformRetriever::new("linux", "x86_64"));
    let looping_environment_setter =
        LoopingEnvironmentSetter::new(&environment_setter, &platform_filter);
    assert_eq!(
        looping_environment_setter.set_environment_variables(&dependency_instructions_list),
        UntilFailure { results: vec![
            EnvironmentChange::SetVariable {
                name: "RUST_TEST".to_string(),
                value: VariableValue::Path(path(
                    "base",
                    &["dependency", "downloads", "some/path/location"]
                ))
            },
            EnvironmentChange::SetVariable {
                name: "RUST_TEST2".to_string(),
                value: VariableValue::Path(path(
                    "base",
                    &["dependency", "downloads", "some/path/location2"]
                ))
            },
            EnvironmentChange::SetVariable {
                name: "RUST_TEST3".to_string(),
                value: VariableValue::Path(path(
                    "base",
                    &["dependency2", "downloads", "some/path/location3"]
                ))
            },
        ], failure: None }
    );
}

#[test]
fn first_variable_without_a_value_stops_the_list() {
    let dependency_instructions_list = vec![DependencyInstructions::new(
        Dependency::new("dependency", "1"),
        with_environment_variables(vec![
            relative("FINE", "some/path", Vec::new()),
            EnvironmentVariable::new("FIRST_BAD", None, None, Vec::new()),
            EnvironmentVariable::new("SECOND_BAD", None, None, Vec::new()),
        ]),
    )];
    let directory_finder = MoveableHomeDirectoryFinder::new(CachePath::new("base"));
    let environment_setter = EnvironmentSetter::new(&directory_finder);
    let platform_filter = PlatformFilter::new(CurrentPlatformRetriever::new("linux", "x86_64"));
    let looping_environment_setter =
        LoopingEnvironmentSetter::new(&environment_setter, &platform_filter);
    assert_eq!(
        looping_environment_setter.set_environment_variables(&dependency_instructions_list),
        UntilFailure {
            results: vec![EnvironmentChange::SetVariable {
                name: "FINE".to_string(),
                value: VariableValue::Path(path("base", &["dependency", "downloads", "some/path"]))
            }],
            failure: Some(SolipathError::EnvironmentVariableWithoutValue {
                variable_name: "FIRST_BAD".to_string(),
                dependency_name: "dependency".to_string()
            })
        }
    );
}
