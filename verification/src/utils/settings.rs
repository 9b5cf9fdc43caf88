//! The server's settings: source addresses, task frequencies and limits.
use std::time::Duration;
use vstd::prelude::*;

verus! {

broadcast use vstd::string::group_string_axioms;

/// The `Duration` that `Duration::from_secs(secs)` gives.
pub uninterp spec fn secs_duration(secs: u64) -> Duration;

/// The `Duration` that `Duration::from_millis(ms)` gives.
pub uninterp spec fn millis_duration(ms: u64) -> Duration;

/// `Duration::from_secs`: a duration of `secs` whole seconds.
#[verifier::external_body]
fn duration_from_secs(secs: u64) -> (d: Duration)
    ensures
        d == secs_duration(secs),
{
    Duration::from_secs(secs)
}

/// `Duration::from_millis`: a duration of `ms` milliseconds.
#[verifier::external_body]
fn duration_from_millis(ms: u64) -> (d: Duration)
    ensures
        d == millis_duration(ms),
{
    Duration::from_millis(ms)
}

#[allow(non_snake_case)]
pub struct Settings {
    pub ANIMESCHEDULE: String,
    pub ANIMEGG: String,
    pub MALURL: String,
    pub GOGOANIMEURL: String,
    pub GOGOANIMEURL_AJAX: String,
    pub UPDATE_ALL_ANIME_THREADS: usize,
    /// Seconds before a stored series may be refreshed.
    pub CACHE_COUNTDOWN: i64,
    /// Seconds between home page rebuilds.
    pub CACHE_HOME_FREQUENCY_NUM: i64,
    pub CACHE_HOME_FREQUENCY: Duration,
    pub CACHE_ALL_ANIME_FREQUENCY: Duration,
    pub CACHE_ALL_IMAGES_FREQUENCY: Duration,
    pub HTTP_REQUEST_TIMEOUT: Duration,
    pub HTTP_FREQUENCY_TIMEOUT: Duration,
    pub IMAGES_PATH: String,
    pub CACHE_SLEEP: Duration,
    pub REPORT_COUNT: usize,
}

impl Settings {
    /// The settings `Settings::default` gives.
    pub open spec fn is_default(self) -> bool {
        &&& self.ANIMESCHEDULE@ == "https://animeschedule.net/"@
        &&& self.ANIMEGG@ == "https://www.animegg.org/"@
        &&& self.MALURL@ == "https://myanimelist.net/"@
        &&& self.GOGOANIMEURL@ == "https://gogoanime3.co/"@
        &&& self.GOGOANIMEURL_AJAX@ == "https://ajax.gogocdn.net/ajax/"@
        &&& self.UPDATE_ALL_ANIME_THREADS == 100
        &&& self.CACHE_COUNTDOWN == 300
        &&& self.CACHE_HOME_FREQUENCY_NUM == 300
        &&& self.CACHE_HOME_FREQUENCY == secs_duration(300)
        &&& self.CACHE_ALL_ANIME_FREQUENCY == secs_duration(604800)
        &&& self.CACHE_ALL_IMAGES_FREQUENCY == secs_duration(259200)
        &&& self.HTTP_REQUEST_TIMEOUT == secs_duration(4)
        &&& self.HTTP_FREQUENCY_TIMEOUT == secs_duration(2)
        &&& self.IMAGES_PATH@ == "./images"@
        &&& self.CACHE_SLEEP == millis_duration(100)
        &&& self.REPORT_COUNT == 100
    }

    /// The built-in settings.
    pub fn default() -> (s: Settings)
        ensures
            s.is_default(),
    {
        Settings {
            ANIMESCHEDULE: "https://animeschedule.net/".to_string(),
            ANIMEGG: "https://www.animegg.org/".to_string(),
            MALURL: "https://myanimelist.net/".to_string(),
            GOGOANIMEURL: "https://gogoanime3.co/".to_string(),
            GOGOANIMEURL_AJAX: "https://ajax.gogocdn.net/ajax/".to_string(),
            UPDATE_ALL_ANIME_THREADS: 100,
            CACHE_COUNTDOWN: 300,
            CACHE_HOME_FREQUENCY_NUM: 300,
            CACHE_HOME_FREQUENCY: duration_from_secs(300),
            CACHE_ALL_ANIME_FREQUENCY: duration_from_secs(604800),
            CACHE_ALL_IMAGES_FREQUENCY: duration_from_secs(259200),
            HTTP_REQUEST_TIMEOUT: duration_from_secs(4),
            HTTP_FREQUENCY_TIMEOUT: duration_from_secs(2),
            IMAGES_PATH: "./images".to_string(),
            CACHE_SLEEP: duration_from_millis(100),
            REPORT_COUNT: 100,
        }
    }

    /// The settings to run with: those stored in the settings file when there
    /// is one (`stored`), otherwise the built-in ones, which are then saved.
    pub fn init(stored: Option<Settings>) -> (s: Settings)
        ensures
            stored matches Some(t) ==> s == t,
            stored is None ==> s.is_default(),
    {
        match stored {
            Some(t) => t,
            None => Settings::default(),
        }
    }
}

} // verus!
