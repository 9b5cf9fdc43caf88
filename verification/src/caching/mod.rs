//! Gathering new series, refreshing stored ones and rebuilding the home page.
pub mod cache_anime;
pub mod cache_home;
pub mod refresh;
pub mod create;
pub mod home_build;
