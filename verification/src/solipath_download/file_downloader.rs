use crate::path_buf_ext::PathBufExt;
use crate::solipath_directory::cache_path::CachePath;
use crate::solipath_download::file_name_retriever::{file_name_if_any, get_file_name, params_of};
use crate::text::joined;
use vstd::prelude::*;

verus! {

/// How often a request that failed is sent again before the download is
/// given up.
pub const MAX_NUMBER_OF_TRIES: u64 = 3;

/// The model of a [`RetryStep`].
pub enum RetryStepView {
    Finished,
    TryAgain { seconds_to_sleep_afterwards: u64 },
    GiveUp { message: Seq<char> },
}

/// What follows a request.
#[derive(Debug, PartialEq, Eq)]
pub enum RetryStep {
    /// The request succeeded: go on with its response.
    Finished,
    /// The request failed: send it again, then sleep that many seconds
    /// whatever came back, and ask again.
    TryAgain { seconds_to_sleep_afterwards: u64 },
    /// The request failed once too often.
    GiveUp { message: String },
}

impl DeepView for RetryStep {
    type V = RetryStepView;

    open spec fn deep_view(&self) -> RetryStepView {
        match self {
            RetryStep::Finished => RetryStepView::Finished,
            RetryStep::TryAgain { seconds_to_sleep_afterwards } => RetryStepView::TryAgain {
                seconds_to_sleep_afterwards: *seconds_to_sleep_afterwards,
            },
            RetryStep::GiveUp { message } => RetryStepView::GiveUp { message: message@ },
        }
    }
}

impl View for RetryStep {
    type V = RetryStepView;

    open spec fn view(&self) -> RetryStepView {
        self.deep_view()
    }
}

/// What follows a request for `url`, given whether it failed and how many
/// times it has been sent again so far. The pause grows with each retry: two
/// seconds after the first, four after the second, six after the third.
pub open spec fn retry_step(
    url: Seq<char>,
    request_failed: bool,
    number_of_tries: u64,
) -> RetryStepView {
    if !request_failed {
        RetryStepView::Finished
    } else if number_of_tries < MAX_NUMBER_OF_TRIES {
        RetryStepView::TryAgain { seconds_to_sleep_afterwards: (2 * (number_of_tries + 1)) as u64 }
    } else {
        RetryStepView::GiveUp { message: "failed to download file: "@ + url }
    }
}

/// The number of requests sent for one download, where `failures[i]` tells
/// whether the request sent after `i` retries fails.
pub open spec fn requests_sent(failures: spec_fn(u64) -> bool, number_of_tries: u64) -> nat
    decreases MAX_NUMBER_OF_TRIES - number_of_tries,
{
    if failures(number_of_tries) && number_of_tries < MAX_NUMBER_OF_TRIES {
        1 + requests_sent(failures, (number_of_tries + 1) as u64)
    } else {
        1
    }
}

/// However the requests fare, one download sends at most one request more
/// than the bound on retries.
pub proof fn lemma_requests_are_bounded(failures: spec_fn(u64) -> bool, number_of_tries: u64)
    requires
        number_of_tries <= MAX_NUMBER_OF_TRIES,
    ensures
        requests_sent(failures, number_of_tries) <= 1 + MAX_NUMBER_OF_TRIES - number_of_tries,
    decreases MAX_NUMBER_OF_TRIES - number_of_tries,
{
    if failures(number_of_tries) && number_of_tries < MAX_NUMBER_OF_TRIES {
        lemma_requests_are_bounded(failures, (number_of_tries + 1) as u64);
    }
}

/// Knows how a download goes on after each request, and where its file is
/// kept.
pub struct FileDownloader;

impl FileDownloader {
    pub fn new() -> Self {
        FileDownloader
    }

    /// What follows a request for `url`.
    pub fn repeat_request(
        &self,
        url: &str,
        request_failed: bool,
        number_of_tries: u64,
    ) -> (step: RetryStep)
        ensures
            step@ == retry_step(url@, request_failed, number_of_tries),
    {
        if !request_failed {
            RetryStep::Finished
        } else if number_of_tries < MAX_NUMBER_OF_TRIES {
            RetryStep::TryAgain { seconds_to_sleep_afterwards: 2 * (number_of_tries + 1) }
        } else {
            RetryStep::GiveUp { message: joined("failed to download file: ", url) }
        }
    }

    /// Where the file fetched from `url` is kept in `directory_to_save_to`.
    /// `url` is the address that the response came from, and
    /// `content_disposition` the value of its Content-Disposition header
    /// where it has one. There is no such place where the file has no name.
    pub fn download_file_to_directory(
        &self,
        url: &str,
        content_disposition: Option<&str>,
        directory_to_save_to: &CachePath,
    ) -> (path_to_save_to: Option<CachePath>)
        ensures
            path_to_save_to.deep_view() == match file_name_if_any(
                url@,
                params_of(content_disposition.deep_view()),
            ) {
                Some(file_name) => Some(directory_to_save_to@.push(file_name)),
                None => None,
            },
    {
        match get_file_name(url, content_disposition) {
            Some(file_name) => Some(directory_to_save_to.clone_push(file_name.as_str())),
            None => None,
        }
    }
}

} // verus!
