//! The second source: series pages, releases, search and streams.
pub mod anime_details;
pub mod anime_recent;
pub mod anime_search;
pub mod anime_stream;
