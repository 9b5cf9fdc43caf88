//! The rating site: series pages and search.
pub mod anime_details;
pub mod anime_search;
