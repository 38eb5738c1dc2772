use crate::text::{find_last, from_chars, last_position, same_text, to_chars};
use crate::text_map::Entries;
use vstd::prelude::*;

verus! {

/// The parameters that `mailparse` reads out of the value of a
/// Content-Disposition header, as pairs of key and value in the order of
/// their keys.
pub uninterp spec fn content_disposition_params(header: Seq<char>) -> Seq<(Seq<char>, Seq<char>)>;

/// The parameters of a Content-Disposition header value.
///
/// Trusted: the body calls `mailparse::parse_content_disposition` and hands
/// out the `params` of what it returns, key by key in the order of the map
/// that holds them. The contract claims only that the pairs are a function of
/// the header value.
#[verifier::external_body]
fn parse_content_disposition(header: &str) -> (params: Vec<(String, String)>)
    ensures
        params.deep_view() == content_disposition_params(header@),
{
    mailparse::parse_content_disposition(header).params.into_iter().collect()
}

/// The value of the first parameter with the key `filename`.
pub open spec fn filename_parameter(params: Entries) -> Option<Seq<char>>
    decreases params.len(),
{
    if params.len() == 0 {
        None
    } else if params[0].0 == "filename"@ {
        Some(params[0].1)
    } else {
        filename_parameter(params.skip(1))
    }
}

/// What stands behind the last `/` of `url`, up to the last `?` behind that
/// slash where there is one. A URL without a slash counts from its start.
pub open spec fn after_last_forward_slash(url: Seq<char>) -> Seq<char> {
    let start = match last_position(url, '/') {
        Some(at) => at + 1,
        None => 0,
    };
    let tail = url.skip(start);
    match last_position(tail, '?') {
        Some(question_mark) => tail.take(question_mark),
        None => tail,
    }
}

/// Whether the name of a fetched file has to be read off its URL: it has
/// where the response had no Content-Disposition header, or one without a
/// `filename` parameter.
pub open spec fn url_names_the_file(params: Option<Entries>) -> bool {
    match params {
        Some(params) => filename_parameter(params) is None,
        None => true,
    }
}

/// The name under which a fetched file is kept: the `filename` parameter of
/// the Content-Disposition header where the response has one, else the last
/// segment of the URL.
pub open spec fn file_name_for(url: Seq<char>, params: Option<Entries>) -> Seq<char> {
    match params {
        Some(params) => match filename_parameter(params) {
            Some(file_name) => file_name,
            None => after_last_forward_slash(url),
        },
        None => after_last_forward_slash(url),
    }
}

/// The name under which a fetched file is kept, where it has one: a file
/// whose name has to be read off a URL without a `/` has none.
pub open spec fn file_name_if_any(url: Seq<char>, params: Option<Entries>) -> Option<Seq<char>> {
    if url_names_the_file(params) && last_position(url, '/') is None {
        None
    } else {
        Some(file_name_for(url, params))
    }
}

/// What `mailparse` reads out of the Content-Disposition header of a
/// response, where the response had one.
pub open spec fn params_of(content_disposition: Option<Seq<char>>) -> Option<Entries> {
    match content_disposition {
        Some(header) => Some(content_disposition_params(header)),
        None => None,
    }
}

/// The last segment of `url`, without its query.
pub fn get_string_after_last_forward_slash(url: &str) -> (file_name: String)
    requires
        last_position(url@, '/') is Some,
    ensures
        file_name@ == after_last_forward_slash(url@),
{
    let url_chars = to_chars(url);
    let start: usize = match find_last(url_chars.as_slice(), '/') {
        Some(index_of_forward_slash) => {
            assert(index_of_forward_slash < url_chars.len());
            index_of_forward_slash + 1
        },
        None => 0,
    };
    let mut string_after_last_slash: Vec<char> = Vec::new();
    let mut i: usize = start;
    while i < url_chars.len()
        invariant
            start <= i <= url_chars.len(),
            string_after_last_slash@ =~= url_chars@.subrange(start as int, i as int),
        decreases url_chars.len() - i,
    {
        string_after_last_slash.push(url_chars[i]);
        i += 1;
    }
    assert(string_after_last_slash@ =~= url@.skip(start as int));
    match find_last(string_after_last_slash.as_slice(), '?') {
        Some(index_of_question_mark) => {
            string_after_last_slash.truncate(index_of_question_mark);
            assert(string_after_last_slash@ =~= url@.skip(start as int).take(
                index_of_question_mark as int,
            ));
            from_chars(string_after_last_slash.as_slice())
        },
        None => from_chars(string_after_last_slash.as_slice()),
    }
}

/// The value of the `filename` parameter among `params`.
pub fn get_file_name_from_content_disposition(
    params: &Vec<(String, String)>,
) -> (file_name: Option<String>)
    ensures
        file_name.deep_view() == filename_parameter(params.deep_view()),
{
    let mut i: usize = 0;
    assert(params.deep_view().skip(0) =~= params.deep_view());
    while i < params.len()
        invariant
            i <= params.len(),
            filename_parameter(params.deep_view()) == filename_parameter(
                params.deep_view().skip(i as int),
            ),
        decreases params.len() - i,
    {
        let ghost rest = params.deep_view().skip(i as int);
        assert(rest[0] == params.deep_view()[i as int]);
        if same_text(params[i].0.as_str(), "filename") {
            return Some(params[i].1.clone());
        }
        assert(rest.skip(1) =~= params.deep_view().skip(i + 1));
        i += 1;
    }
    assert(params.deep_view().skip(i as int).len() == 0);
    None
}

/// The name for a fetched file, given the parameters of its
/// Content-Disposition header where the response had one. Where the name
/// has to be read off the URL, the URL has to hold a `/`.
pub fn choose_file_name(url: &str, params: Option<&Vec<(String, String)>>) -> (file_name: String)
    requires
        url_names_the_file(params.deep_view()) ==> last_position(url@, '/') is Some,
    ensures
        file_name@ == file_name_for(url@, params.deep_view()),
{
    match params {
        Some(params) => match get_file_name_from_content_disposition(params) {
            Some(file_name) => file_name,
            None => get_string_after_last_forward_slash(url),
        },
        None => get_string_after_last_forward_slash(url),
    }
}

/// Whether `url` holds a `/`.
pub fn has_forward_slash(url: &str) -> (found: bool)
    ensures
        found == (last_position(url@, '/') is Some),
{
    let url_chars = to_chars(url);
    find_last(url_chars.as_slice(), '/').is_some()
}

/// The name under which the file fetched from `url` is kept, given the value
/// of the Content-Disposition header where the response had one. There is
/// none where the name has to be read off the URL and the URL holds no `/`.
pub fn get_file_name(url: &str, content_disposition: Option<&str>) -> (file_name: Option<String>)
    ensures
        file_name.deep_view() == file_name_if_any(url@, params_of(content_disposition.deep_view())),
{
    match content_disposition {
        Some(header) => {
            let params = parse_content_disposition(header);
            let from_header = get_file_name_from_content_disposition(&params);
            if from_header.is_some() || has_forward_slash(url) {
                Some(choose_file_name(url, Some(&params)))
            } else {
                None
            }
        },
        None => {
            if has_forward_slash(url) {
                Some(choose_file_name(url, None))
            } else {
                None
            }
        },
    }
}

} // verus!
