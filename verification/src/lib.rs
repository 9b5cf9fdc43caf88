//! Kartof-Play: the logic of an anime catalogue server that gathers its data
//! from several anime sites, verified with Verus.
pub mod text;
pub mod utils;
pub mod caching;
pub mod scrapers;
pub mod routes;
