//! The decisions of the catalogue store: which field an id is looked up by,
//! which stored series answers a lookup, what a home page write sets, how
//! search results are merged, and the stream-address records.
use vstd::prelude::*;
use crate::text::{chars_of, contains, contains_exec, replace_exec, replaced, string_of};
use crate::utils::types::{
    Anime, AnimeDetails, AnimeRelease, Episode, Home, IdType, StreamUrl, ep_entry,
};

verus! {

/// The field of a stored series that holds ids of the site `id_type`.
pub open spec fn id_field(id_type: IdType) -> Seq<char> {
    match id_type {
        IdType::KartofPlay => "id"@,
        IdType::AnimeGG => "animegg_id"@,
        IdType::Gogoanime => "gogo_id"@,
        IdType::AnimeSchedule => "schedule_id"@,
        IdType::MAL => "mal_id"@,
    }
}

/// The field to look a series up by for ids of the site `id_type`.
pub fn anime_id_field(id_type: &IdType) -> (r: &'static str)
    ensures
        r@ == id_field(*id_type),
{
    match id_type {
        IdType::KartofPlay => "id",
        IdType::AnimeGG => "animegg_id",
        IdType::Gogoanime => "gogo_id",
        IdType::AnimeSchedule => "schedule_id",
        IdType::MAL => "mal_id",
    }
}

pub open spec fn dub_marker() -> Seq<char> {
    seq!['D', 'u', 'b']
}

/// Whether a stored series answers a lookup: any series does for the
/// catalogue's own ids; for the ids of a source site, a dubbed series (one
/// whose title holds `Dub`) answers exactly when a dub is asked for.
pub open spec fn answers(a: Anime, id_type: IdType, is_dub: bool) -> bool {
    id_type == IdType::KartofPlay || contains(a.title@, dub_marker()) == is_dub
}

/// A lookup by the catalogue's own id is answered by any series; a lookup by
/// the id of any source site is answered by a series whose title holds
/// `Dub` exactly when a dub is asked for, and by one whose title does not
/// exactly when the sub is.
pub proof fn law_lookup_dub_choice(a: Anime, is_dub: bool)
    ensures
        answers(a, IdType::KartofPlay, is_dub),
        answers(a, IdType::Gogoanime, is_dub) <==> (contains(a.title@, seq!['D', 'u', 'b']) == is_dub),
        answers(a, IdType::AnimeGG, is_dub) <==> (contains(a.title@, seq!['D', 'u', 'b']) == is_dub),
        answers(a, IdType::AnimeSchedule, is_dub) <==> (contains(a.title@, seq!['D', 'u', 'b']) == is_dub),
        answers(a, IdType::MAL, is_dub) <==> (contains(a.title@, seq!['D', 'u', 'b']) == is_dub),
{
}

/// The first of the series found by a lookup that answers it.
pub fn pick_anime(found: Vec<Anime>, id_type: IdType, is_dub: bool) -> (r: Option<Anime>)
    ensures
        r matches Some(a) ==> exists|i: int|
            0 <= i < found@.len() && found@[i] == a && answers(a, id_type, is_dub) && forall|k: int|
                0 <= k < i ==> !answers(#[trigger] found@[k], id_type, is_dub),
        r is None ==> forall|k: int| 0 <= k < found@.len() ==> !answers(#[trigger] found@[k], id_type, is_dub),
{
    let dub = "Dub";
    proof {
        reveal_strlit("Dub");
    }
    assert(dub@ =~= dub_marker());
    let marker = chars_of(dub);
    let mut k: usize = 0;
    while k < found.len()
        invariant
            0 <= k <= found@.len(),
            marker@ == dub_marker(),
            forall|j: int| 0 <= j < k ==> !answers(#[trigger] found@[j], id_type, is_dub),
        ensures
            0 <= k <= found@.len(),
            forall|j: int| 0 <= j < k ==> !answers(#[trigger] found@[j], id_type, is_dub),
            k < found@.len() ==> answers(found@[k as int], id_type, is_dub),
        decreases found@.len() - k,
    {
        let has_dub = contains_exec(&chars_of(found[k].title.as_str()), &marker);
        if id_type == IdType::KartofPlay || has_dub == is_dub {
            break;
        }
        k = k + 1;
    }
    if k < found.len() {
        let ghost all = found@;
        let mut rest = found;
        let a = rest.remove(k);
        assert(0 <= k < all.len() && all[k as int] == a && answers(a, id_type, is_dub));
        Some(a)
    } else {
        None
    }
}

/// What a home page write stores.
pub enum HomeWrite {
    /// A new home page document.
    Insert(Home),
    /// Fields to set on the stored home page of `date`; a list is set only
    /// when it has entries.
    Update {
        date: String,
        popular: Option<Vec<AnimeDetails>>,
        recent: Option<Vec<AnimeRelease>>,
        schedule: Option<Vec<AnimeRelease>>,
        last_updated: i64,
    },
}

/// The write that stores the home page `data` at time `now`: a new document
/// when the day has none (`exists` is false), otherwise the non-empty lists
/// and the time set on the stored one.
pub open spec fn home_write(data: Home, exists: bool, now: i64) -> HomeWrite {
    if !exists {
        HomeWrite::Insert(Home { last_updated: now, ..data })
    } else {
        HomeWrite::Update {
            date: data.date,
            popular: if data.popular@.len() > 0 {
                Some(data.popular)
            } else {
                None
            },
            recent: if data.recent@.len() > 0 {
                Some(data.recent)
            } else {
                None
            },
            schedule: if data.schedule@.len() > 0 {
                Some(data.schedule)
            } else {
                None
            },
            last_updated: now,
        }
    }
}

/// The home page the store holds once `w` is applied to the stored page
/// `stored` of the same day.
pub open spec fn home_after(w: HomeWrite, stored: Home) -> Home {
    match w {
        HomeWrite::Insert(h) => h,
        HomeWrite::Update { date, popular, recent, schedule, last_updated } => Home {
            popular: match popular {
                Some(p) => p,
                None => stored.popular,
            },
            recent: match recent {
                Some(r) => r,
                None => stored.recent,
            },
            schedule: match schedule {
                Some(x) => x,
                None => stored.schedule,
            },
            last_updated,
            ..stored
        },
    }
}

/// Storing a rebuilt home page over the day's stored one keeps each stored
/// list that the rebuild found empty, takes every other list from the
/// rebuild, and stamps the page with the time of the write; a day with no
/// stored page gets the rebuilt page as it is, stamped.
pub proof fn law_home_rebuild(data: Home, stored: Home, now: i64)
    requires
        stored.date@ == data.date@,
    ensures
        ({
            let after = home_after(home_write(data, true, now), stored);
            &&& after.date@ == data.date@
            &&& after.last_updated == now
            &&& after.popular@ == if data.popular@.len() > 0 {
                data.popular@
            } else {
                stored.popular@
            }
            &&& after.recent@ == if data.recent@.len() > 0 {
                data.recent@
            } else {
                stored.recent@
            }
            &&& after.schedule@ == if data.schedule@.len() > 0 {
                data.schedule@
            } else {
                stored.schedule@
            }
        }),
        home_after(home_write(data, false, now), stored) == (Home { last_updated: now, ..data }),
{
}

/// The write that stores the home page `data` at time `now`.
pub fn update_home(data: Home, exists: bool, now: i64) -> (w: HomeWrite)
    ensures
        w == home_write(data, exists, now),
{
    if !exists {
        let mut h = data;
        h.last_updated = now;
        HomeWrite::Insert(h)
    } else {
        let popular = if data.popular.len() > 0 {
            Some(data.popular)
        } else {
            None
        };
        let recent = if data.recent.len() > 0 {
            Some(data.recent)
        } else {
            None
        };
        let schedule = if data.schedule.len() > 0 {
            Some(data.schedule)
        } else {
            None
        };
        HomeWrite::Update { date: data.date, popular, recent, schedule, last_updated: now }
    }
}

/// A search query with each `+` read as a space.
pub fn search_title(title: &str) -> (r: String)
    ensures
        r@ == replaced(title@, seq!['+'], seq![' ']),
{
    let plus = "+";
    let space = " ";
    proof {
        reveal_strlit("+");
        reveal_strlit(" ");
    }
    assert(plus@ =~= seq!['+']);
    assert(space@ =~= seq![' ']);
    string_of(&replace_exec(&chars_of(title), &chars_of(plus), &chars_of(space)))
}

/// Reading `+` as a space in a text that starts with `c`: `c` is read, then
/// the rest.
proof fn lemma_plus_as_space_step(c: char, rest: Seq<char>)
    ensures
        replaced(seq![c] + rest, seq!['+'], seq![' ']) == (if c == '+' {
            seq![' ']
        } else {
            seq![c]
        }) + replaced(rest, seq!['+'], seq![' ']),
{
    let s = seq![c] + rest;
    assert(s.take(1) =~= seq![c]);
    assert(s.skip(1) =~= rest);
    if c != '+' {
        assert(seq![c][0] != seq!['+'][0]);
        assert(s.take(1) !~= seq!['+']);
    }
}

/// A search query reads the same once its `+` are read as spaces: reading
/// them a second time changes nothing, so searching for `title` and for
/// `title` with each `+` made a space is the same search.
pub proof fn law_search_title_idempotent(title: Seq<char>)
    ensures
        replaced(replaced(title, seq!['+'], seq![' ']), seq!['+'], seq![' ']) == replaced(
            title,
            seq!['+'],
            seq![' '],
        ),
    decreases title.len(),
{
    if title.len() > 0 {
        let c = title[0];
        let rest = title.skip(1);
        assert(title =~= seq![c] + rest);
        lemma_plus_as_space_step(c, rest);
        law_search_title_idempotent(rest);
        let d = if c == '+' {
            ' '
        } else {
            c
        };
        assert((if c == '+' {
            seq![' ']
        } else {
            seq![c]
        }) =~= seq![d]);
        lemma_plus_as_space_step(d, replaced(rest, seq!['+'], seq![' ']));
    }
}

pub open spec fn has_title(rs: Seq<Anime>, t: Seq<char>) -> bool {
    exists|i: int| 0 <= i < rs.len() && (#[trigger] rs[i]).title@ == t
}

/// Text-search results added after `results`: each one whose title is not
/// there yet, stopping once there are `max` results.
pub open spec fn add_text_results(results: Seq<Anime>, text: Seq<Anime>, max: nat) -> Seq<Anime>
    decreases text.len(),
{
    if text.len() == 0 {
        results
    } else {
        let a = text[0];
        let r2 = if has_title(results, a.title@) {
            results
        } else {
            results.push(a)
        };
        if r2.len() >= max {
            r2
        } else {
            add_text_results(r2, text.drop_first(), max)
        }
    }
}

/// The results of a search: the title matches first, and when they fill the
/// page (at least one, and `max`) only those; otherwise followed by the
/// text-search matches with a title not yet listed.
pub open spec fn search_results(exact: Seq<Anime>, text: Seq<Anime>, max: nat) -> Seq<Anime> {
    if exact.len() > 0 && exact.len() >= max {
        exact.take(if max == 0 {
            1
        } else {
            max as int
        })
    } else {
        add_text_results(exact, text, max)
    }
}

/// The most results a search gives for a page of `max`: `max`, and at least one.
pub open spec fn result_cap(max: nat) -> nat {
    if max == 0 {
        1
    } else {
        max
    }
}

/// The results from index `from` on have titles that no earlier result has.
pub open spec fn new_titles_from(rs: Seq<Anime>, from: int) -> bool {
    forall|i: int, j: int| from <= i < rs.len() && 0 <= j < i ==> #[trigger] rs[j].title@ != #[trigger] rs[i].title@
}

proof fn lemma_add_text_results(results: Seq<Anime>, text: Seq<Anime>, max: nat, from: int)
    requires
        results.len() < result_cap(max),
        new_titles_from(results, from),
        0 <= from <= results.len(),
    ensures
        add_text_results(results, text, max).len() <= result_cap(max),
        add_text_results(results, text, max).take(results.len() as int) == results,
        new_titles_from(add_text_results(results, text, max), from),
        results.len() <= add_text_results(results, text, max).len(),
    decreases text.len(),
{
    if text.len() > 0 {
        let a = text[0];
        let r2 = if has_title(results, a.title@) {
            results
        } else {
            results.push(a)
        };
        if !has_title(results, a.title@) {
            assert forall|i: int, j: int| from <= i < r2.len() && 0 <= j < i implies #[trigger] r2[j].title@
                != #[trigger] r2[i].title@ by {
                if i == results.len() {
                    assert(r2[j] == results[j]);
                    if results[j].title@ == a.title@ {
                        assert(has_title(results, a.title@));
                    }
                } else {
                    assert(r2[i] == results[i]);
                    assert(r2[j] == results[j]);
                }
            }
        }
        assert(r2.take(results.len() as int) =~= results);
        if r2.len() < max {
            lemma_add_text_results(r2, text.drop_first(), max, from);
            let out = add_text_results(r2, text.drop_first(), max);
            assert(out.take(results.len() as int) =~= out.take(r2.len() as int).take(results.len() as int));
        }
    } else {
        assert(results.take(results.len() as int) =~= results);
    }
}

/// A search gives at most a page of results (at least one when it finds
/// any); the title matches come first, in their order, as far as the page
/// goes; and each result added from the text search has a title that no
/// result before it has.
pub proof fn law_search_results(exact: Seq<Anime>, text: Seq<Anime>, max: nat)
    ensures
        search_results(exact, text, max).len() <= result_cap(max),
        ({
            let n = if exact.len() < result_cap(max) {
                exact.len()
            } else {
                result_cap(max)
            };
            search_results(exact, text, max).take(n as int) == exact.take(n as int)
        }),
        new_titles_from(search_results(exact, text, max), exact.len() as int),
{
    if exact.len() > 0 && exact.len() >= max {
        let r = exact.take(result_cap(max) as int);
        assert(r.take(result_cap(max) as int) =~= exact.take(result_cap(max) as int));
    } else {
        lemma_add_text_results(exact, text, max, exact.len() as int);
        assert(exact.take(exact.len() as int) =~= exact);
    }
}

proof fn lemma_add_text_results_extends(results: Seq<Anime>, text: Seq<Anime>, max: nat)
    ensures
        add_text_results(results, text, max).len() >= results.len(),
        forall|i: int| 0 <= i < results.len() ==> add_text_results(results, text, max)[i] == results[i],
    decreases text.len(),
{
    if text.len() > 0 {
        let a = text[0];
        let r2 = if has_title(results, a.title@) {
            results
        } else {
            results.push(a)
        };
        assert forall|i: int| 0 <= i < results.len() implies r2[i] == results[i] by {}
        if r2.len() < max {
            lemma_add_text_results_extends(r2, text.drop_first(), max);
            let out = add_text_results(r2, text.drop_first(), max);
            assert forall|i: int| 0 <= i < results.len() implies out[i] == results[i] by {
                assert(out[i] == r2[i]);
            }
        }
    }
}

proof fn lemma_has_title_kept(results: Seq<Anime>, text: Seq<Anime>, max: nat, t: Seq<char>)
    requires
        has_title(results, t),
    ensures
        has_title(add_text_results(results, text, max), t),
{
    lemma_add_text_results_extends(results, text, max);
    let i = choose|i: int| 0 <= i < results.len() && (#[trigger] results[i]).title@ == t;
    assert(add_text_results(results, text, max)[i] == results[i]);
}

proof fn lemma_add_text_results_complete(results: Seq<Anime>, text: Seq<Anime>, max: nat)
    ensures
        add_text_results(results, text, max).len() < max ==> forall|j: int|
            0 <= j < text.len() ==> has_title(add_text_results(results, text, max), #[trigger] text[j].title@),
    decreases text.len(),
{
    if text.len() > 0 {
        let a = text[0];
        let r2 = if has_title(results, a.title@) {
            results
        } else {
            results.push(a)
        };
        assert(has_title(r2, a.title@)) by {
            if !has_title(results, a.title@) {
                assert(r2[results.len() as int] == a);
            }
        }
        if r2.len() < max {
            let rest = text.drop_first();
            lemma_add_text_results_complete(r2, rest, max);
            lemma_has_title_kept(r2, rest, max, a.title@);
            let out = add_text_results(r2, rest, max);
            assert forall|j: int| 0 <= j < text.len() && out.len() < max implies has_title(
                out,
                #[trigger] text[j].title@,
            ) by {
                if j > 0 {
                    assert(text[j] == rest[j - 1]);
                }
            }
        }
    }
}

/// A search that does not fill its page lists every text-search match: when
/// fewer than `max` results come back, each text-search result's title is
/// among them (a match is left out only as a repeat of a title listed
/// before it).
pub proof fn law_search_complete(exact: Seq<Anime>, text: Seq<Anime>, max: nat)
    ensures
        search_results(exact, text, max).len() < max ==> forall|j: int|
            0 <= j < text.len() ==> has_title(search_results(exact, text, max), #[trigger] text[j].title@),
{
    if !(exact.len() > 0 && exact.len() >= max) {
        lemma_add_text_results_complete(exact, text, max);
    }
}

proof fn lemma_add_all_new(results: Seq<Anime>, text: Seq<Anime>, max: nat)
    requires
        results.len() + text.len() <= max,
        forall|i: int, j: int| 0 <= i < j < text.len() ==> #[trigger] text[i].title@ != #[trigger] text[j].title@,
        forall|j: int| 0 <= j < text.len() ==> !has_title(results, #[trigger] text[j].title@),
    ensures
        add_text_results(results, text, max) == results + text,
    decreases text.len(),
{
    if text.len() == 0 {
        assert(results + text =~= results);
    } else {
        let a = text[0];
        assert(!has_title(results, text[0].title@));
        let r2 = results.push(a);
        let rest = text.drop_first();
        if r2.len() >= max {
            assert(rest.len() == 0);
            assert(results + text =~= r2);
        } else {
            assert forall|j: int| 0 <= j < rest.len() implies !has_title(r2, #[trigger] rest[j].title@) by {
                assert(rest[j] == text[j + 1]);
                assert(!has_title(results, text[j + 1].title@));
                assert(text[0].title@ != text[j + 1].title@);
                if has_title(r2, rest[j].title@) {
                    let i = choose|i: int| 0 <= i < r2.len() && (#[trigger] r2[i]).title@ == rest[j].title@;
                    if i < results.len() {
                        assert(r2[i] == results[i]);
                    }
                }
            }
            assert forall|i: int, j: int| 0 <= i < j < rest.len() implies #[trigger] rest[i].title@
                != #[trigger] rest[j].title@ by {
                assert(rest[i] == text[i + 1]);
                assert(rest[j] == text[j + 1]);
            }
            lemma_add_all_new(r2, rest, max);
            assert(r2 + rest =~= results + text);
        }
    }
}

/// With no title match, a search whose text-search matches have distinct
/// titles and fit the page lists exactly those matches, in their order.
pub proof fn law_search_text_fills_page(text: Seq<Anime>, max: nat)
    requires
        text.len() <= max,
        forall|i: int, j: int| 0 <= i < j < text.len() ==> #[trigger] text[i].title@ != #[trigger] text[j].title@,
    ensures
        search_results(Seq::empty(), text, max) == text,
{
    lemma_add_all_new(Seq::empty(), text, max);
    assert(Seq::<Anime>::empty() + text =~= text);
}

/// Merge the title matches and the text-search matches of a search.
#[verifier::loop_isolation(false)]
pub fn merge_search(exact: Vec<Anime>, text: Vec<Anime>, max_results: usize) -> (r: Vec<Anime>)
    ensures
        r@ == search_results(exact@, text@, max_results as nat),
{
    let ghost ex = exact@;
    let mut results: Vec<Anime> = Vec::new();
    let mut exact = exact;
    while exact.len() > 0
        invariant
            results@ + exact@ == ex,
            results@.len() < max_results || results@.len() == 0,
        decreases exact@.len(),
    {
        let ghost len_before = results@.len();
        let a = exact.remove(0);
        results.push(a);
        assert(ex =~= results@ + exact@);
        if results.len() >= max_results {
            assert(ex.take(results@.len() as int) =~= results@);
            assert(results@.len() == if max_results == 0 {
                1
            } else {
                max_results as int
            });
            return results;
        }
    }
    assert(results@ =~= ex);
    let ghost tx = text@;
    let mut text = text;
    while text.len() > 0
        invariant
            add_text_results(results@, text@, max_results as nat) == add_text_results(ex, tx, max_results as nat),
            results@.len() < max_results || (results@.len() == 0 && ex.len() == 0),
            ex.len() > 0 ==> ex.len() < max_results,
        decreases text@.len(),
    {
        let ghost before = results@;
        let ghost tv = text@;
        let a = text.remove(0);
        assert(text@ =~= tv.drop_first());
        let mut seen = false;
        let mut k: usize = 0;
        while k < results.len()
            invariant
                0 <= k <= results@.len(),
                !seen ==> forall|j: int| 0 <= j < k ==> (#[trigger] results@[j]).title@ != a.title@,
                seen ==> has_title(results@, a.title@),
            decreases results@.len() - k,
        {
            if results[k].title == a.title {
                seen = true;
            }
            k = k + 1;
        }
        proof {
            if !seen {
                assert(!has_title(before, a.title@));
            }
        }
        if !seen {
            results.push(a);
        }
        assert(add_text_results(before, tv, max_results as nat) == if results@.len() >= max_results {
            results@
        } else {
            add_text_results(results@, text@, max_results as nat)
        });
        if results.len() >= max_results {
            return results;
        }
    }
    results
}

/// A new stream-address record for series `id` with `ep_count` episodes,
/// holding `url`, found at `now`, for episode `ep`.
pub fn new_stream_record(id: &str, ep: usize, url: &str, ep_count: usize, now: i64) -> (s: StreamUrl)
    requires
        1 <= ep <= ep_count,
    ensures
        s.id@ == id@,
        s.episodes@.len() == ep_count,
        s.episodes@[ep - 1].url@ == url@,
        s.episodes@[ep - 1].saved_at == now,
        forall|i: int|
            0 <= i < ep_count && i != ep - 1 ==> #[trigger] s.episodes@[i].url@ == Seq::<char>::empty()
                && s.episodes@[i].saved_at == 0,
{
    let mut s = StreamUrl::new_ep_count(id, ep_count);
    s.set_ep_url(ep, url, now);
    s
}

/// What storing a stream address writes.
pub enum StreamWrite {
    /// Set the address at this index of the stored record's episodes,
    /// leaving everything else of the record as it is.
    SetUrl(usize, String),
    /// A new record.
    Insert(StreamUrl),
}

/// What storing `url`, found at `now`, for episode `ep` of series `id`
/// writes, the stored record being `found` (`None` when there is none) and
/// the series having `ep_count` episodes: a stored record has the address of
/// that episode set and nothing else changed; otherwise a new record holds
/// the address, found at `now`.
pub fn stream_write(found: Option<StreamUrl>, id: &str, ep: usize, url: &str, ep_count: usize, now: i64) -> (w:
    StreamWrite)
    requires
        ep >= 1,
        found is None ==> ep <= ep_count,
    ensures
        match found {
            Some(r) => w matches StreamWrite::SetUrl(i, u) && i == ep - 1 && u@ == url@,
            None => w matches StreamWrite::Insert(s) && s.id@ == id@ && s.episodes@.len() == ep_count && (ep_entry(
                s.episodes@,
                ep as int,
            ) matches Some(e) && e.url@ == url@ && e.saved_at == now) && forall|i: int|
                0 <= i < ep_count && i != ep - 1 ==> #[trigger] s.episodes@[i].url@ == Seq::<char>::empty()
                    && s.episodes@[i].saved_at == 0,
        },
{
    match found {
        Some(_) => StreamWrite::SetUrl(ep - 1, url.to_string()),
        None => StreamWrite::Insert(new_stream_record(id, ep, url, ep_count, now)),
    }
}

/// A stored series with the fields an update sets.
pub struct AnimeUpdate {
    pub details: Option<AnimeDetails>,
    pub episodes: Option<Vec<Episode>>,
    pub animegg_id: Option<String>,
    pub mal_id: Option<String>,
    pub schedule_id: Option<String>,
    pub last_updated: i64,
}

/// The update that stores the given fields of a series at time `now`.
pub fn update_anime(
    details: Option<AnimeDetails>,
    episodes: Option<Vec<Episode>>,
    animegg_id: Option<&str>,
    mal_id: Option<&str>,
    schedule_id: Option<&str>,
    now: i64,
) -> (u: AnimeUpdate)
    ensures
        u.details == details,
        u.episodes == episodes,
        u.animegg_id matches Some(x) ==> animegg_id matches Some(y) && x@ == y@,
        u.animegg_id is None <==> animegg_id is None,
        u.mal_id matches Some(x) ==> mal_id matches Some(y) && x@ == y@,
        u.mal_id is None <==> mal_id is None,
        u.schedule_id matches Some(x) ==> schedule_id matches Some(y) && x@ == y@,
        u.schedule_id is None <==> schedule_id is None,
        u.last_updated == now,
{
    AnimeUpdate {
        details,
        episodes,
        animegg_id: match animegg_id {
            Some(x) => Some(x.to_string()),
            None => None,
        },
        mal_id: match mal_id {
            Some(x) => Some(x.to_string()),
            None => None,
        },
        schedule_id: match schedule_id {
            Some(x) => Some(x.to_string()),
            None => None,
        },
        last_updated: now,
    }
}

} // verus!
