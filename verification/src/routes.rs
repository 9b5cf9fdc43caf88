//! The decisions behind the pages the server serves: what the watch page
//! shows of a series, and where the player gets its stream address.
use vstd::prelude::*;
use crate::text::{chars_of, parse_unsigned, parse_unsigned_exec};
use crate::scrapers::common::concat3;
use crate::utils::types::{Anime, AnimeDetails, StreamUrlEpisode};

verus! {

broadcast use vstd::string::group_string_axioms;

/// The series as the watch page shows it: without its ids on the source
/// sites, nor the source ids inside its details.
pub fn watch_view(anime: Anime) -> (r: Anime)
    ensures
        r.gogo_id@ == Seq::<char>::empty(),
        r.animegg_id@ == Seq::<char>::empty(),
        r.schedule_id@ == Seq::<char>::empty(),
        r.details == (AnimeDetails { movie_id: None, id: None, ..anime.details }),
        r.title == anime.title,
        r.id == anime.id,
        r.mal_id == anime.mal_id,
        r.episodes == anime.episodes,
        r.last_updated == anime.last_updated,
{
    let mut a = anime;
    a.gogo_id = String::new();
    a.animegg_id = String::new();
    a.schedule_id = String::new();
    a.details.movie_id = None;
    a.details.id = None;
    a
}

/// The episode a player request asks for: the number it gives, or the
/// first episode when it gives none.
pub open spec fn requested_episode(ep: Seq<char>) -> nat {
    match parse_unsigned(ep, usize::MAX as nat) {
        Some(n) => n,
        None => 1,
    }
}

pub fn player_episode(ep: &str) -> (r: usize)
    ensures
        r == requested_episode(ep@),
{
    match parse_unsigned_exec(&chars_of(ep), usize::MAX as u64) {
        Some(n) => n as usize,
        None => 1,
    }
}

/// The episode id the first source gives episode `ep` of series `gogo_id`.
pub fn gogo_episode_id(gogo_id: &str, ep: &str) -> (r: String)
    ensures
        r@ == gogo_id@ + "-episode-"@ + ep@,
{
    concat3(gogo_id, "-episode-", ep)
}

/// What the player does for a request.
pub enum PlayerStep {
    /// Serve this address.
    Serve(String),
    /// Find the address anew, store it and serve it.
    Refresh,
}

/// What the player does for a request on the series with catalogue id
/// `anime_id` (empty when no series has it), the address stored for the
/// episode being `stored`, at time `now`, addresses being kept `max_age`
/// seconds: an unknown series gets no address; a missing, empty or
/// expired address is found anew; a stored one is served.
pub fn player_step(anime_id: &str, stored: Option<StreamUrlEpisode>, now: i64, max_age: i64) -> (r:
    PlayerStep)
    ensures
        anime_id@.len() == 0 ==> (r matches PlayerStep::Serve(u) && u@ == Seq::<char>::empty()),
        anime_id@.len() > 0 ==> match stored {
            None => r is Refresh,
            Some(e) => if e.expired(now as int, max_age as int) || e.url@.len() == 0 {
                r is Refresh
            } else {
                r == PlayerStep::Serve(e.url)
            },
        },
{
    if anime_id.is_empty() {
        return PlayerStep::Serve(String::new());
    }
    match stored {
        None => PlayerStep::Refresh,
        Some(e) => {
            if e.is_expired(now, max_age) || e.url.as_str().is_empty() {
                PlayerStep::Refresh
            } else {
                PlayerStep::Serve(e.url)
            }
        },
    }
}

} // verus!
