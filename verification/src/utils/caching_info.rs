//! When the catalogue-wide caching tasks last ran.
use vstd::prelude::*;
use crate::utils::get_timestamp;

verus! {

pub struct CachingInfo {
    pub last_all_anime_cache: i64,
    pub last_all_images_cache: i64,
}

impl CachingInfo {
    /// The record of tasks last run at `anime` (every series refreshed) and
    /// `images` (every cover saved).
    pub fn stamped(anime: i64, images: i64) -> (c: CachingInfo)
        ensures
            c.last_all_anime_cache == anime,
            c.last_all_images_cache == images,
    {
        CachingInfo { last_all_anime_cache: anime, last_all_images_cache: images }
    }

    /// Both tasks stamped with the current time.
    pub fn default() -> CachingInfo {
        CachingInfo::stamped(get_timestamp(), get_timestamp())
    }

    /// When every series was last refreshed.
    pub fn get_all_anime_time(&self) -> (r: i64)
        ensures
            r == self.last_all_anime_cache,
    {
        self.last_all_anime_cache
    }

    /// When every cover image was last saved.
    pub fn get_all_images_time(&self) -> (r: i64)
        ensures
            r == self.last_all_images_cache,
    {
        self.last_all_images_cache
    }

    /// The record to run with: the stored one when there is one, otherwise a
    /// fresh one stamped now, which is then saved.
    pub fn init(stored: Option<CachingInfo>) -> (c: CachingInfo)
        ensures
            stored matches Some(t) ==> c == t,
    {
        match stored {
            Some(t) => t,
            None => CachingInfo::default(),
        }
    }
}

} // verus!
