use solipath::solipath_download::file_name_retriever::{
    choose_file_name, get_file_name, get_file_name_from_content_disposition,
    get_string_after_last_forward_slash, has_forward_slash,
};

#[test]
fn get_file_name_from_response_no_content_disposition() {
    let url = "https://download.com/something.json";
    assert_eq!(get_file_name(url, None), Some("something.json".to_string()));
}

#[test]
fn get_file_name_from_response_no_content_disposition_but_with_query_parameter() {
    let url = "https://download.com/android-studio-2023.3.1.18-linux.tar.gz?cms_redirect=yes&mh=0E&mip=67.149.128.201&mm=28&mn=sn-fvf-quf6&ms=nvh&mt=1717283768&mv=m&mvi=3&pcm2cms=yes&pl=21&shardbypass=sd";
    assert_eq!(
        get_file_name(url, None),
        Some("android-studio-2023.3.1.18-linux.tar.gz".to_string())
    );
}

#[test]
fn get_file_name_from_response_simple_content_disposition_with_file_name() {
    let url = "https://download.com/";
    assert_eq!(
        get_file_name(url, Some("attachment; filename=\"filename.jpg\"")),
        Some("filename.jpg".to_string())
    );
}

#[test]
fn get_file_name_from_response_simple_content_disposition_with_utf8_file_name() {
    let url = "https://download.com/";
    assert_eq!(
        get_file_name(url, Some("attachment; filename*=UTF-8''filename2.jpg")),
        Some("filename2.jpg".to_string())
    );
}

#[test]
fn get_file_name_from_response_simple_content_disposition_with_only_attachment_should_use_url() {
    let url = "https://download.com/something2.jpg";
    assert_eq!(get_file_name(url, Some("attachment")), Some("something2.jpg".to_string()));
}

#[test]
fn get_string_after_last_forward_slash_should_not_include_leading_slash() {
    let url = "https://download.com/something.json";
    assert_eq!(get_string_after_last_forward_slash(url), "something.json");
}

#[test]
fn get_string_after_last_forward_slash_is_empty_for_a_trailing_slash() {
    assert_eq!(get_string_after_last_forward_slash("https://download.com/"), "");
}

#[test]
fn get_string_after_last_forward_slash_cuts_at_the_last_question_mark() {
    assert_eq!(get_string_after_last_forward_slash("https://download.com/a?b?c"), "a?b");
}

#[test]
fn content_disposition_filename_is_the_first_parameter_of_that_key() {
    let params = vec![
        ("creation-date".to_string(), "today".to_string()),
        ("filename".to_string(), "first.txt".to_string()),
        ("filename".to_string(), "second.txt".to_string()),
    ];
    assert_eq!(get_file_name_from_content_disposition(&params), Some("first.txt".to_string()));
    assert_eq!(get_file_name_from_content_disposition(&Vec::new()), None);
}

#[test]
fn choose_file_name_falls_back_to_the_url() {
    let params = vec![("name".to_string(), "ignored.txt".to_string())];
    assert_eq!(choose_file_name("https://download.com/from-url.zip", Some(&params)), "from-url.zip");
    let with_file_name = vec![("filename".to_string(), "from-header.zip".to_string())];
    assert_eq!(
        choose_file_name("https://download.com/from-url.zip", Some(&with_file_name)),
        "from-header.zip"
    );
}

#[test]
fn file_without_a_name_in_the_header_and_without_a_slash_in_the_url_has_no_name() {
    assert_eq!(get_file_name("no-slash-here", None), None);
    assert_eq!(get_file_name("no-slash-here", Some("attachment")), None);
    assert_eq!(
        get_file_name("no-slash-here", Some("attachment; filename=\"named.txt\"")),
        Some("named.txt".to_string())
    );
    assert!(has_forward_slash("a/b"));
    assert!(!has_forward_slash("ab"));
}
