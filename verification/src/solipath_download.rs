//! Fetching artifacts: what to fetch, when to skip it, how often to try, what
//! the fetched file is called and how it is unpacked.

pub mod conditional_file_downloader;
pub mod fetch_request;
pub mod file_decompressor;
pub mod file_downloader;
pub mod file_name_retriever;
