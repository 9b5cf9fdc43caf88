//! Rate limiting of requests to the sites that throttle.
use vstd::prelude::*;
use crate::text::{chars_of, contains, contains_exec};

verus! {

broadcast use vstd::string::group_string_axioms;

/// Whether a request to `url` waits for the shared rate limiter: pages of
/// the schedule site other than its front page, and pages of the second
/// streaming site other than its release list.
pub open spec fn is_rate_limited(url: Seq<char>) -> bool {
    ||| (contains(url, "animeschedule.net"@) && url != "https://animeschedule.net/"@)
    ||| (contains(url, "animegg.org"@) && url != "https://www.animegg.org/releases"@)
}

pub fn rate_limited(url: &str) -> (r: bool)
    ensures
        r == is_rate_limited(url@),
{
    let u = chars_of(url);
    let a = chars_of("animeschedule.net");
    let b = chars_of("animegg.org");
    let front = "https://animeschedule.net/".to_string();
    let releases = "https://www.animegg.org/releases".to_string();
    let own = url.to_string();
    (contains_exec(&u, &a) && own != front) || (contains_exec(&u, &b) && own != releases)
}

/// How long a rate-limited request waits, in milliseconds: what is left of
/// the `interval` since the last request `elapsed` ago.
pub open spec fn wait_for(elapsed: int, interval: int) -> int {
    if elapsed < interval {
        interval - elapsed
    } else {
        0
    }
}

pub fn cooldown_wait(elapsed: u64, interval: u64) -> (r: u64)
    ensures
        r == wait_for(elapsed as int, interval as int),
{
    if elapsed < interval {
        interval - elapsed
    } else {
        0
    }
}

/// Rate-limited requests are spaced at least `interval` apart: when the
/// limiter was last stamped at `last` and a request comes at `now` (no
/// earlier), it waits `wait_for(now - last, interval)`, so it is sent, and
/// stamps the limiter, at `sent`, at least `interval` after `last`.
pub proof fn law_requests_spaced(last: int, now: int, sent: int, interval: int)
    requires
        last <= now,
        0 <= interval,
        sent >= now + wait_for(now - last, interval),
    ensures
        sent >= last + interval,
        sent >= now,
{
}

} // verus!
