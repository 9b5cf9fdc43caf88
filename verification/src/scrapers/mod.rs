//! Reading series, episodes and releases out of the pages of the source sites.
pub mod dom;
pub mod common;
pub mod gogoanime;
pub mod animegg;
pub mod mal;
pub mod anime_schedule;
