//! Clock, identifiers and the shared building blocks.
pub mod caching_info;
pub mod http;
pub mod images;
pub mod mongodb;
pub mod settings;
pub mod types;

use chrono::Datelike;
use rand::Rng;
use vstd::prelude::*;
use crate::caching::cache_home::{date_string, date_text};

verus! {

/// The current UNIX time in seconds (`chrono::Utc::now().timestamp()`).
#[verifier::external_body]
pub fn get_timestamp() -> i64 {
    chrono::Utc::now().timestamp()
}

/// The current UNIX time in milliseconds (`chrono::Utc::now().timestamp_millis()`).
#[verifier::external_body]
fn now_millis() -> i64 {
    chrono::Utc::now().timestamp_millis()
}

/// Today's day of month, month and year in UTC (`Datelike::day`, `month`
/// and `year` of `chrono::Utc::now()`); chrono documents the day as 1 to 31
/// and the month as 1 to 12.
#[verifier::external_body]
fn today() -> (r: (u32, u32, i32))
    ensures
        1 <= r.0 <= 31,
        1 <= r.1 <= 12,
{
    let now = chrono::Utc::now();
    (now.day(), now.month(), now.year())
}

/// A random number in `0..bound` (`rand::Rng::gen_range` on the thread's
/// generator); rand documents the result as within the range.
#[verifier::external_body]
fn random_below(bound: i64) -> (r: i64)
    requires
        bound > 0,
    ensures
        0 <= r < bound,
{
    rand::thread_rng().gen_range(0..bound)
}

/// The key of today's home page, `day:month:year`.
pub fn get_date_string() -> (r: String)
    ensures
        exists|d: u32, m: u32, y: i32| 1 <= d <= 31 && 1 <= m <= 12 && r@ == date_text(d, m, y),
{
    let (d, m, y) = today();
    date_string(d, m, y)
}

/// The catalogue id made of the time `ms` (milliseconds) and the random
/// number `r`: their sum, or the time alone if the sum would not fit.
pub fn id_from(ms: i64, r: i64) -> (id: i64)
    requires
        0 <= r < 999999,
    ensures
        ms + r <= i64::MAX ==> id == ms + r,
        ms + r > i64::MAX ==> id == ms,
{
    match ms.checked_add(r) {
        Some(v) => v,
        None => ms,
    }
}

/// A new catalogue id: the current time in milliseconds plus a random number
/// below 999999 (the time alone if the sum would not fit).
pub fn generate_id() -> i64 {
    let ms = now_millis();
    let r = random_below(999999);
    id_from(ms, r)
}

} // verus!
