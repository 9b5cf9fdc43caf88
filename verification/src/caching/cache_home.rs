//! Assembling the home page: the day's key, the recent releases and the
//! popular series, each joined with the series the catalogue stores.
use vstd::prelude::*;
use crate::caching::cache_anime::opt_text;
use crate::text::{i64_text, int_text, push_all, string_of};
use crate::utils::types::{Anime, AnimeDetails, AnimeRelease, CacheResult};

verus! {

/// The key of a day: `day:month:year`, without padding.
pub open spec fn date_text(day: u32, month: u32, year: i32) -> Seq<char> {
    int_text(day as int) + seq![':'] + int_text(month as int) + seq![':'] + int_text(year as int)
}

/// The key of the day `day`/`month`/`year`.
pub fn date_string(day: u32, month: u32, year: i32) -> (r: String)
    ensures
        r@ == date_text(day, month, year),
{
    let mut v = i64_text(day as i64);
    v.push(':');
    push_all(&mut v, &i64_text(month as i64));
    v.push(':');
    push_all(&mut v, &i64_text(year as i64));
    assert(v@ =~= date_text(day, month, year));
    string_of(&v)
}

/// Whether the stored home page of the day (last updated at `stored`, `None`
/// when there is none) is too fresh to rebuild at time `now`.
pub fn home_on_cooldown(stored: Option<i64>, now: i64, countdown: i64) -> (r: bool)
    requires
        stored matches Some(t) ==> i64::MIN <= now - t <= i64::MAX,
    ensures
        r == (stored matches Some(t) && now - t < countdown),
{
    match stored {
        Some(t) => now - t < countdown,
        None => false,
    }
}

/// Whether the home page last updated at `last_updated` is due again at `now`.
pub fn home_due(now: i64, last_updated: i64, frequency: i64) -> (r: bool)
    requires
        i64::MIN <= now - last_updated <= i64::MAX,
    ensures
        r == (now - last_updated >= frequency),
{
    now - last_updated >= frequency
}

/// The ids to look each release up by (empty where a release has none).
pub fn release_lookup_ids(releases: &Vec<AnimeRelease>) -> (r: Vec<String>)
    ensures
        r@.len() == releases@.len(),
        forall|i: int| 0 <= i < r@.len() ==> (#[trigger] r@[i])@ == opt_text(releases@[i].id),
{
    let mut out: Vec<String> = Vec::new();
    let mut k: usize = 0;
    while k < releases.len()
        invariant
            0 <= k <= releases.len(),
            out@.len() == k,
            forall|i: int| 0 <= i < k ==> (#[trigger] out@[i])@ == opt_text(releases@[i].id),
        decreases releases.len() - k,
    {
        let id = match &releases[k].id {
            Some(s) => s.clone(),
            None => String::new(),
        };
        out.push(id);
        k = k + 1;
    }
    out
}

/// The ids to look each series up by (empty where a series has none).
pub fn details_lookup_ids(list: &Vec<AnimeDetails>) -> (r: Vec<String>)
    ensures
        r@.len() == list@.len(),
        forall|i: int| 0 <= i < r@.len() ==> (#[trigger] r@[i])@ == opt_text(list@[i].id),
{
    let mut out: Vec<String> = Vec::new();
    let mut k: usize = 0;
    while k < list.len()
        invariant
            0 <= k <= list.len(),
            out@.len() == k,
            forall|i: int| 0 <= i < k ==> (#[trigger] out@[i])@ == opt_text(list@[i].id),
        decreases list.len() - k,
    {
        let id = match &list[k].id {
            Some(s) => s.clone(),
            None => String::new(),
        };
        out.push(id);
        k = k + 1;
    }
    out
}

/// A recent release joined with the stored series it belongs to.
pub open spec fn release_entry(r: AnimeRelease, a: Anime) -> AnimeRelease {
    AnimeRelease {
        id: Some(a.id),
        title: Some(a.title),
        episode_num: r.episode_num,
        is_sub: r.is_sub,
        is_out: true,
        cover_url: a.details.cover_url,
        release_time: r.release_time,
    }
}

/// The recent releases whose series is stored, joined with it, in order.
pub open spec fn recent_spec(rs: Seq<AnimeRelease>, found: Seq<Option<Anime>>) -> Seq<AnimeRelease>
    decreases rs.len(),
{
    if rs.len() == 0 {
        Seq::empty()
    } else {
        let rest = recent_spec(rs.drop_last(), found.drop_last());
        match found.last() {
            Some(a) => rest.push(release_entry(rs.last(), a)),
            None => rest,
        }
    }
}

/// How many of the releases have a stored series.
pub open spec fn stored_count(found: Seq<Option<Anime>>) -> nat
    decreases found.len(),
{
    if found.len() == 0 {
        0
    } else {
        stored_count(found.drop_last()) + if found.last() is Some {
            1nat
        } else {
            0nat
        }
    }
}

proof fn lemma_stored_count_prefix(found: Seq<Option<Anime>>, i: int)
    requires
        0 <= i < found.len(),
        found[i] is Some,
    ensures
        stored_count(found.take(i)) < stored_count(found),
    decreases found.len(),
{
    if i < found.len() - 1 {
        lemma_stored_count_prefix(found.drop_last(), i);
        assert(found.drop_last().take(i) =~= found.take(i));
    } else {
        assert(found.take(i) =~= found.drop_last());
    }
}

/// The recent releases of the home page hold one entry per release whose
/// series is stored, in the order of the releases: the release `i` with
/// stored series `a` gives the entry after the stored releases before it,
/// naming the stored series (its id, title and cover) and keeping the
/// release's episode, its sub or dub flag and its time, marked out.
pub proof fn law_recent_entries(rs: Seq<AnimeRelease>, found: Seq<Option<Anime>>)
    requires
        rs.len() == found.len(),
    ensures
        recent_spec(rs, found).len() == stored_count(found),
        forall|i: int|
            0 <= i < rs.len() && #[trigger] found[i] is Some ==> {
                let e = recent_spec(rs, found)[stored_count(found.take(i)) as int];
                let a = found[i]->Some_0;
                &&& e.is_sub == rs[i].is_sub
                &&& e.episode_num == rs[i].episode_num
                &&& e.release_time == rs[i].release_time
                &&& e.is_out
                &&& e.id == Some(a.id)
                &&& e.title == Some(a.title)
                &&& e.cover_url == a.details.cover_url
            },
    decreases rs.len(),
{
    if rs.len() > 0 {
        let rs0 = rs.drop_last();
        let f0 = found.drop_last();
        law_recent_entries(rs0, f0);
        assert forall|i: int| 0 <= i < rs.len() && #[trigger] found[i] is Some implies {
            let e = recent_spec(rs, found)[stored_count(found.take(i)) as int];
            let a = found[i]->Some_0;
            &&& e.is_sub == rs[i].is_sub
            &&& e.episode_num == rs[i].episode_num
            &&& e.release_time == rs[i].release_time
            &&& e.is_out
            &&& e.id == Some(a.id)
            &&& e.title == Some(a.title)
            &&& e.cover_url == a.details.cover_url
        } by {
            if i < rs.len() - 1 {
                assert(f0[i] == found[i]);
                assert(f0.take(i) =~= found.take(i));
                assert(rs0[i] == rs[i]);
                lemma_stored_count_prefix(f0, i);
            } else {
                assert(found.take(i) =~= f0);
            }
        }
    }
}

/// The recent releases of the home page, from the releases of the chosen
/// source and the stored series found for each (`found[i]` for `recent[i]`).
pub fn get_recent(recent: &Vec<AnimeRelease>, found: &Vec<Option<Anime>>) -> (r: (CacheResult, Vec<AnimeRelease>))
    requires
        recent@.len() == found@.len(),
    ensures
        recent@.len() == 0 ==> r.0.is_error && r.0.reason@ == "Empty sources"@ && r.1@.len() == 0,
        recent@.len() > 0 ==> !r.0.is_error && r.0.reason@ == "No errors"@ && r.1@ == recent_spec(recent@, found@),
        r.1@.len() == stored_count(found@),
        forall|i: int|
            0 <= i < recent@.len() && #[trigger] found@[i] is Some ==> r.1@[stored_count(found@.take(i)) as int].is_sub
                == recent@[i].is_sub && r.1@[stored_count(found@.take(i)) as int].episode_num
                == recent@[i].episode_num,
{
    proof {
        law_recent_entries(recent@, found@);
    }
    if recent.len() == 0 {
        return (CacheResult::new("Empty sources", true), Vec::new());
    }
    let mut out: Vec<AnimeRelease> = Vec::new();
    let mut k: usize = 0;
    while k < recent.len()
        invariant
            0 <= k <= recent.len(),
            recent@.len() == found@.len(),
            out@ == recent_spec(recent@.take(k as int), found@.take(k as int)),
        decreases recent.len() - k,
    {
        assert(recent@.take(k + 1).drop_last() =~= recent@.take(k as int));
        assert(found@.take(k + 1).drop_last() =~= found@.take(k as int));
        assert(recent@.take(k + 1).last() == recent@[k as int]);
        assert(found@.take(k + 1).last() == found@[k as int]);
        match &found[k] {
            Some(a) => {
                let r = &recent[k];
                out.push(
                    AnimeRelease {
                        id: Some(a.id.clone()),
                        title: Some(a.title.clone()),
                        episode_num: r.episode_num.clone(),
                        is_sub: r.is_sub,
                        is_out: true,
                        cover_url: a.details.cover_url.clone(),
                        release_time: r.release_time,
                    },
                );
            },
            None => {},
        }
        k = k + 1;
    }
    assert(recent@.take(k as int) =~= recent@);
    assert(found@.take(k as int) =~= found@);
    (CacheResult::new("No errors", false), out)
}

/// A popular series joined with the stored series: what the home page shows.
pub open spec fn popular_entry(p: AnimeDetails, a: Anime) -> AnimeDetails {
    AnimeDetails {
        id: Some(a.id),
        title: Some(a.title),
        rating: a.details.rating,
        episodes: a.details.episodes,
        new_ep: a.details.new_ep,
        cover_url: a.details.cover_url,
        released: if a.details.released is None {
            p.released
        } else {
            a.details.released
        },
        movie_id: None,
        other_names: p.other_names,
        genres: p.genres,
        description: a.details.description,
    }
}

/// What the home page keeps of a popular series: `popular_entry` with no
/// names, genres or description.
pub open spec fn popular_shown(e: AnimeDetails) -> bool {
    &&& e.movie_id is None
    &&& e.other_names@.len() == 0
    &&& e.genres@.len() == 0
    &&& e.description@ == Seq::<char>::empty()
}

/// The popular series that are stored, joined with them, in order.
pub open spec fn popular_spec(ps: Seq<AnimeDetails>, found: Seq<Option<Anime>>) -> Seq<(AnimeDetails, Anime)>
    decreases ps.len(),
{
    if ps.len() == 0 {
        Seq::empty()
    } else {
        let rest = popular_spec(ps.drop_last(), found.drop_last());
        match found.last() {
            Some(a) => rest.push((ps.last(), a)),
            None => rest,
        }
    }
}

/// The popular series of the home page: each stored one, joined with what
/// the catalogue stores of it, in order.
pub open spec fn popular_joined(ps: Seq<AnimeDetails>, found: Seq<Option<Anime>>, out: Seq<AnimeDetails>) -> bool {
    let pairs = popular_spec(ps, found);
    &&& out.len() == pairs.len()
    &&& forall|i: int|
        0 <= i < pairs.len() ==> {
            let e = #[trigger] out[i];
            let (p, a) = pairs[i];
            &&& popular_shown(e)
            &&& e == (AnimeDetails {
                movie_id: None,
                other_names: e.other_names,
                genres: e.genres,
                description: e.description,
                ..popular_entry(p, a)
            })
        }
}

/// The popular series of the home page, from those the first source lists
/// and the stored series found for each (`found[i]` for `popular[i]`).
pub fn get_popular(popular: &Vec<AnimeDetails>, found: &Vec<Option<Anime>>) -> (r: (CacheResult, Vec<AnimeDetails>))
    requires
        popular@.len() == found@.len(),
    ensures
        popular@.len() == 0 ==> r.0.is_error && r.0.reason@ == "Empty sources"@ && r.1@.len() == 0,
        popular@.len() > 0 ==> !r.0.is_error && r.0.reason@ == "No errors"@ && popular_joined(popular@, found@, r.1@),
{
    if popular.len() == 0 {
        return (CacheResult::new("Empty sources", true), Vec::new());
    }
    let mut out: Vec<AnimeDetails> = Vec::new();
    let mut k: usize = 0;
    while k < popular.len()
        invariant
            0 <= k <= popular.len(),
            popular@.len() == found@.len(),
            out@.len() == popular_spec(popular@.take(k as int), found@.take(k as int)).len(),
            forall|i: int|
                0 <= i < out@.len() ==> {
                    let e = #[trigger] out@[i];
                    let (p, a) = popular_spec(popular@.take(k as int), found@.take(k as int))[i];
                    &&& popular_shown(e)
                    &&& e == (AnimeDetails {
                        movie_id: None,
                        other_names: e.other_names,
                        genres: e.genres,
                        description: e.description,
                        ..popular_entry(p, a)
                    })
                },
        decreases popular.len() - k,
    {
        assert(popular@.take(k + 1).drop_last() =~= popular@.take(k as int));
        assert(found@.take(k + 1).drop_last() =~= found@.take(k as int));
        assert(popular@.take(k + 1).last() == popular@[k as int]);
        assert(found@.take(k + 1).last() == found@[k as int]);
        match &found[k] {
            Some(a) => {
                let p = &popular[k];
                let mut d = AnimeDetails::new();
                d.id = Some(a.id.clone());
                d.title = Some(a.title.clone());
                d.rating = a.details.rating.clone();
                d.episodes = a.details.episodes;
                d.new_ep = a.details.new_ep;
                d.cover_url = a.details.cover_url.clone();
                d.released = if a.details.released.is_none() {
                    p.released.clone()
                } else {
                    a.details.released.clone()
                };
                out.push(d);
            },
            None => {},
        }
        k = k + 1;
    }
    assert(popular@.take(k as int) =~= popular@);
    assert(found@.take(k as int) =~= found@);
    (CacheResult::new("No errors", false), out)
}

/// The ids of the releases that have one, in order: the series to cache
/// after the home page is rebuilt.
pub open spec fn release_ids_spec(rs: Seq<AnimeRelease>) -> Seq<Seq<char>>
    decreases rs.len(),
{
    if rs.len() == 0 {
        Seq::empty()
    } else {
        let rest = release_ids_spec(rs.drop_last());
        match rs.last().id {
            Some(id) => rest.push(id@),
            None => rest,
        }
    }
}

pub fn release_ids(releases: &Vec<AnimeRelease>) -> (r: Vec<String>)
    ensures
        r@.map_values(|s: String| s@) == release_ids_spec(releases@),
{
    let mut out: Vec<String> = Vec::new();
    let mut k: usize = 0;
    while k < releases.len()
        invariant
            0 <= k <= releases.len(),
            out@.map_values(|s: String| s@) == release_ids_spec(releases@.take(k as int)),
        decreases releases.len() - k,
    {
        assert(releases@.take(k + 1).drop_last() =~= releases@.take(k as int));
        assert(releases@.take(k + 1).last() == releases@[k as int]);
        let ghost before = out@;
        match &releases[k].id {
            Some(id) => {
                out.push(id.clone());
                assert(out@.map_values(|s: String| s@) =~= before.map_values(|s: String| s@).push(id@));
            },
            None => {},
        }
        k = k + 1;
    }
    assert(releases@.take(k as int) =~= releases@);
    out
}

} // verus!
