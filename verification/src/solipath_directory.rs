//! Where the cache keeps what it has fetched.

pub mod cache_path;
pub mod moveable_home_directory_finder;
pub mod solipath_directory_finder;
