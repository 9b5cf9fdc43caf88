//! The first source: series pages, lists, releases and streams.
pub mod anime_details;
pub mod anime_list;
pub mod anime_stream;
pub mod anime_streaming_url;
pub mod anime_popular;
pub mod anime_recent;
pub mod anime_search;
