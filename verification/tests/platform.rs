use solipath::solipath_platform::current_platform_retriever::{
    CurrentPlatformRetriever, CurrentPlatformRetrieverTrait,
};
use solipath::solipath_platform::platform::Platform;
use solipath::solipath_dependency_metadata::dependency::Dependency;
use solipath::solipath_platform::platform_filter::{
    filter_list, PlatformFilter, PlatformFilterTrait,
};
use solipath::solipath_platform::unfiltered_platform::UnfilteredPlatform;

#[test]
fn is_superset_returns_true_for_exact_match() {
    let platform = Platform::new("windows", "x86_64");
    assert_eq!(platform.is_superset_of(&Platform::new("windows", "x86_64")), true);
}

#[test]
fn is_superset_returns_false_for_incorrect_match() {
    let platform = Platform::new("linux", "x64");
    assert_eq!(platform.is_superset_of(&Platform::new("windows", "x86_64")), false);
}

#[test]
fn is_superset_returns_true_when_operating_system_matches_and_architecture_is_none_on_left_side() {
    let platform = Platform::any_architecture("windows");
    assert_eq!(platform.is_superset_of(&Platform::new("windows", "x86_64")), true);
}

#[test]
fn is_superset_returns_false_when_architecture_is_none_on_right_side_only() {
    let platform = Platform::new("windows", "x86_64");
    assert_eq!(platform.is_superset_of(&Platform::any_architecture("windows")), false);
}

#[test]
fn is_superset_returns_false_when_only_the_architecture_differs() {
    let platform = Platform::new("linux", "x86_64");
    assert_eq!(platform.is_superset_of(&Platform::new("linux", "aarch64")), false);
}

#[test]
fn current_platform_retriever_hands_out_its_platform() {
    assert_eq!(
        CurrentPlatformRetriever::new("linux", "x86_64").get_current_platform(),
        Platform::new("linux", "x86_64")
    );
}

#[test]
fn empty_platform_filter_list_returns_true() {
    let current_platform_retriever = CurrentPlatformRetriever::new("linux", "x86_64");
    let platform_filter = PlatformFilter::new(current_platform_retriever);

    assert_eq!(platform_filter.current_platform_is_match(&Vec::new()), true);
}

#[test]
fn one_item_that_does_not_match_current_operating_system_returns_false() {
    let current_platform_retriever = CurrentPlatformRetriever::new("linux", "x86_64");
    let platform_filter = PlatformFilter::new(current_platform_retriever);
    let platform_list = vec![Platform::new("windows", "x86_64")];

    assert_eq!(platform_filter.current_platform_is_match(&platform_list), false);
}

#[test]
fn two_items_one_match_operating_system_returns_true() {
    let current_platform_retriever = CurrentPlatformRetriever::new("linux", "x86_64");
    let platform_filter = PlatformFilter::new(current_platform_retriever);
    let platform_list = vec![Platform::new("windows", "x86_64"), Platform::new("linux", "x86_64")];
    assert_eq!(platform_filter.current_platform_is_match(&platform_list), true);
}

#[test]
fn match_found_in_list_is_false_for_an_empty_list() {
    let platform_filter = PlatformFilter::new(CurrentPlatformRetriever::new("linux", "x86_64"));
    assert_eq!(platform_filter.match_found_in_list(&Vec::new()), false);
}

fn test_platform_list(name: &str, platform_filter: Vec<Platform>) -> Dependency {
    Dependency::new_with_platform_filters(name, "1.0", platform_filter)
}

#[test]
fn can_filter_has_platform_filter_list() {
    let platform_retriever = CurrentPlatformRetriever::new("Matching OS", "Matching Arch");
    let platform_filter = PlatformFilter::new(platform_retriever);
    let input = vec![
        test_platform_list("included nothing filtered", Vec::new()),
        test_platform_list("included no arch", vec![Platform::any_architecture("Matching OS")]),
        test_platform_list(
            "included exact match",
            vec![Platform::new("Matching OS", "Matching Arch")],
        ),
        test_platform_list(
            "included one match",
            vec![
                Platform::new("Non Matching OS", "Non Match Arch"),
                Platform::new("Matching OS", "Matching Arch"),
            ],
        ),
        test_platform_list(
            "not included",
            vec![Platform::new("Non Matching OS", "Non Match Arch")],
        ),
    ];

    assert_eq!(
        vec![
            "included nothing filtered".to_string(),
            "included no arch".to_string(),
            "included exact match".to_string(),
            "included one match".to_string()
        ],
        filter_list(&platform_filter, &input)
            .iter()
            .map(|output| output.name.to_string())
            .collect::<Vec<String>>()
    );
}

#[test]
fn filter_list_on_an_unfiltered_platform_keeps_every_item() {
    let input = vec![
        test_platform_list("first", vec![Platform::new("Non Matching OS", "Non Match Arch")]),
        test_platform_list("second", Vec::new()),
    ];
    assert_eq!(filter_list(&UnfilteredPlatform::new(), &input), input);
}

#[test]
fn unfiltered_platform_lets_everything_through() {
    let platform_filter = UnfilteredPlatform::new();
    assert_eq!(
        platform_filter.current_platform_is_match(&vec![Platform::new("some OS", "some arch")]),
        true
    );
    assert_eq!(platform_filter.current_platform_is_match(&Vec::new()), true);
}
