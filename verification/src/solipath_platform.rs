//! Platforms and the filter that decides whether an item applies to one.

pub mod current_platform_retriever;
pub mod platform;
pub mod platform_filter;
pub mod unfiltered_platform;
