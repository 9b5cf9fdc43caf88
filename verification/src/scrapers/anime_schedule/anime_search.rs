//! The search results of the airing-schedule site.
use vstd::prelude::*;
use visdom::types::Elements;
use crate::caching::cache_anime::{opt_string, opt_text};
use crate::scrapers::anime_schedule::{parse_rfc3339_secs, release_text, release_text_str, rfc3339_timestamp};
use crate::scrapers::common::{
    concat3, http_error, http_failure, opt_view, parse_error, parse_failure, texts,
};
use crate::scrapers::dom::{all_tags, 
    at, attr, attr_of, children, children_of, find, html_loads, length, load, loaded, nodes_of, nth, selected,
    text, text_of,
};
use crate::text::{replace_str, replaced, split, split_str, trim, trim_str};
use crate::utils::types::{AnimeDetails, ScraperError};

verus! {

broadcast use vstd::string::group_string_axioms;

/// What one result tile holds.
pub struct ScheduleTile {
    pub id: Option<String>,
    /// The tile's comma-separated genres.
    pub genres: Option<String>,
    pub title: String,
    pub image: Option<String>,
    pub description: String,
}

/// What a search that led straight to a series page holds instead of tiles.
pub struct SeriesFallback {
    /// Whether the page has a release-time element.
    pub has_time: bool,
    /// The `datetime` of that element.
    pub datetime: Option<String>,
    /// The page's canonical address.
    pub og_url: Option<String>,
}

/// The address of the search for `query`, its spaces written as `+`.
pub fn search_url(base: &str, query: &str) -> (r: String)
    ensures
        r@ == base@ + "shows?mt=all&st=search&q="@ + replaced(query@, " "@, "+"@),
{
    proof {
        reveal_strlit(" ");
        reveal_strlit("+");
    }
    let q = replace_str(query, " ", "+");
    concat3(base, "shows?mt=all&st=search&q=", q.as_str())
}

/// The series a tile gives.
pub open spec fn tile_result(t: ScheduleTile, d: AnimeDetails) -> bool {
    &&& opt_view(d.id) == opt_view(t.id)
    &&& texts(d.genres@) == match t.genres {
        Some(g) => split(g@, ","@),
        None => Seq::empty(),
    }
    &&& opt_view(d.title) == Some(t.title@)
    &&& d.cover_url@ == opt_text(t.image)
    &&& d.description@ == trim(t.description@)
    &&& d.released is None
    &&& d.movie_id is None
    &&& d.episodes == 0
    &&& d.other_names@.len() == 0
    &&& d.rating@ == Seq::<char>::empty()
    &&& d.new_ep == 0
}

/// Whether the series page a search led to can be read: a release-time
/// element must have a `datetime` that reads as RFC 3339.
pub open spec fn fallback_readable(f: SeriesFallback) -> bool {
    f.has_time ==> (f.datetime matches Some(t) && rfc3339_timestamp(release_text(t@)) is Some)
}

/// The single series that the series page a search led to gives.
pub open spec fn fallback_result(f: SeriesFallback, d: AnimeDetails) -> bool {
    &&& d.new_ep == if f.has_time {
        match f.datetime {
            Some(t) => match rfc3339_timestamp(release_text(t@)) {
                Some(v) => v,
                None => 0,
            },
            None => 0,
        }
    } else {
        0
    }
    &&& opt_view(d.id) == match f.og_url {
        Some(u) => Some(replaced(u@, "https://animeschedule.net/anime/"@, Seq::empty())),
        None => None,
    }
    &&& d.title is None
    &&& d.released is None
    &&& d.movie_id is None
    &&& d.episodes == 0
    &&& d.other_names@.len() == 0
    &&& d.genres@.len() == 0
    &&& d.description@ == Seq::<char>::empty()
    &&& d.cover_url@ == Seq::<char>::empty()
    &&& d.rating@ == Seq::<char>::empty()
}

/// The tiles that have an id, in order.
pub open spec fn with_id(tiles: Seq<ScheduleTile>) -> Seq<ScheduleTile>
    decreases tiles.len(),
{
    if tiles.len() == 0 {
        Seq::empty()
    } else {
        let rest = with_id(tiles.drop_last());
        if tiles.last().id is Some {
            rest.push(tiles.last())
        } else {
            rest
        }
    }
}

/// The series a search page gives: one per tile with an id, or, when there
/// is none, the one series of the page the search led to.
pub open spec fn results_of(tiles: Seq<ScheduleTile>, f: SeriesFallback, list: Seq<AnimeDetails>) -> bool {
    let t = with_id(tiles);
    if t.len() > 0 {
        t.len() == list.len() && forall|i: int|
            0 <= i < list.len() ==> tile_result(t[i], #[trigger] list[i])
    } else {
        list.len() == 1 && fallback_result(f, list[0])
    }
}

/// A search page that gives series gives at least one: the tiles with an
/// id, or else the series of the page the search led to.
pub proof fn law_results_never_empty(tiles: Seq<ScheduleTile>, f: SeriesFallback, list: Seq<AnimeDetails>)
    requires
        results_of(tiles, f, list),
    ensures
        list.len() >= 1,
        with_id(tiles).len() > 0 ==> list.len() == with_id(tiles).len(),
{
}

pub fn result_from_tile(t: ScheduleTile) -> (d: AnimeDetails)
    ensures
        tile_result(t, d),
{
    proof {
        reveal_strlit(",");
    }
    let mut d = AnimeDetails::new();
    d.id = t.id;
    match &t.genres {
        Some(g) => {
            let gs = split_str(g.as_str(), ",");
            d.genres = gs;
            assert(texts(d.genres@) =~= split(g@, ","@));
        },
        None => {
            assert(texts(d.genres@) =~= Seq::<Seq<char>>::empty());
        },
    }
    d.title = Some(t.title);
    d.cover_url = opt_string(t.image);
    d.description = trim_str(t.description.as_str());
    d
}

/// The series of the page a search led to, its release-time element
/// having read as `next` when there is one.
pub fn fallback_from_page(f: SeriesFallback, next: i64) -> (d: AnimeDetails)
    requires
        f.has_time ==> (f.datetime matches Some(t) && rfc3339_timestamp(release_text(t@)) == Some(next)),
    ensures
        fallback_result(f, d),
{
    proof {
        reveal_strlit("https://animeschedule.net/anime/");
        reveal_strlit("");
        assert(""@ =~= Seq::<char>::empty());
    }
    let mut d = AnimeDetails::new();
    if f.has_time {
        d.new_ep = next;
    }
    d.id = match &f.og_url {
        Some(u) => Some(replace_str(u.as_str(), "https://animeschedule.net/anime/", "")),
        None => None,
    };
    d
}

fn tiles_with_id(tiles: Vec<ScheduleTile>) -> (r: Vec<AnimeDetails>)
    ensures
        r@.len() == with_id(tiles@).len(),
        forall|i: int| 0 <= i < r@.len() ==> tile_result(with_id(tiles@)[i], #[trigger] r@[i]),
{
    let ghost all = tiles@;
    let total = tiles.len();
    let mut tiles = tiles;
    let mut out: Vec<AnimeDetails> = Vec::new();
    let mut k: usize = 0;
    assert(all.take(0) =~= Seq::<ScheduleTile>::empty());
    while tiles.len() > 0
        invariant
            all.len() == total,
            k + tiles@.len() == all.len(),
            tiles@ == all.skip(k as int),
            out@.len() == with_id(all.take(k as int)).len(),
            forall|i: int|
                0 <= i < out@.len() ==> tile_result(with_id(all.take(k as int))[i], #[trigger] out@[i]),
        decreases tiles@.len(),
    {
        let t = tiles.remove(0);
        assert(t == all[k as int]);
        assert(all.take(k + 1).drop_last() =~= all.take(k as int));
        assert(all.take(k + 1).last() == t);
        if t.id.is_some() {
            out.push(result_from_tile(t));
        }
        k = k + 1;
        assert(tiles@ =~= all.skip(k as int));
    }
    assert(all.take(k as int) =~= all);
    out
}

/// The series a search page gives; the page a search led to cannot be
/// read when its release time is there but does not read as RFC 3339.
pub fn results_from_page(tiles: Vec<ScheduleTile>, f: SeriesFallback) -> (r: Result<
    Vec<AnimeDetails>,
    ScraperError,
>)
    ensures
        with_id(tiles@).len() == 0 && !fallback_readable(f) <==> r is Err,
        r matches Err(e) ==> e.reason@ == parse_failure(),
        r matches Ok(list) ==> results_of(tiles@, f, list@),
{
    let ghost tv = tiles@;
    let mut list = tiles_with_id(tiles);
    if list.len() > 0 {
        return Ok(list);
    }
    let next: Option<i64> = if f.has_time {
        match &f.datetime {
            Some(t) => parse_rfc3339_secs(release_text_str(t.as_str()).as_str()),
            None => None,
        }
    } else {
        Some(0)
    };
    match next {
        Some(v) => {
            list.push(fallback_from_page(f, v));
            Ok(list)
        },
        None => Err(parse_error()),
    }
}

/// The tile record read from the result tile `e`.
pub open spec fn tile_read(e: Seq<(Seq<char>, int)>, t: ScheduleTile) -> bool {
    let kids = children_of(e, ""@);
    &&& opt_view(t.id) == attr_of(e, "id"@)
    &&& opt_view(t.genres) == attr_of(e, "genres"@)
    &&& t.title@ == text_of(selected(kids, "h2.anime-tile-title"@))
    &&& opt_view(t.image) == attr_of(selected(kids, "img.anime-tile-thumbnail"@), "src"@)
    &&& t.description@ == text_of(selected(kids, "p.anime-tile-description"@))
}

/// The tile records read from the parsed search page `n`, one per tile.
pub open spec fn tiles_read(n: Seq<(Seq<char>, int)>, tiles: Seq<ScheduleTile>) -> bool {
    let found = selected(n, "div.anime-tile.lozad"@);
    &&& tiles.len() == found.len()
    &&& forall|i: int| 0 <= i < tiles.len() ==> tile_read(at(found, i), #[trigger] tiles[i])
}

/// What the parsed page `n` holds of the series page a search led to.
pub open spec fn fallback_read(n: Seq<(Seq<char>, int)>, f: SeriesFallback) -> bool {
    let time = selected(n, "time[id='release-time-subs']"@);
    &&& f.has_time == (time.len() > 0)
    &&& opt_view(f.datetime) == attr_of(time, "datetime"@)
    &&& opt_view(f.og_url) == attr_of(selected(n, "html head meta[property='og:url']"@), "content"@)
}

fn read_tiles(root: &Elements<'_>) -> (tiles: Vec<ScheduleTile>)
    ensures
        tiles_read(nodes_of(*root), tiles@),
{
    let results = find(root, "div.anime-tile.lozad");
    let n = length(&results);
    let mut tiles: Vec<ScheduleTile> = Vec::new();
    let mut k: usize = 0;
    while k < n
        invariant
            n == nodes_of(results).len(),
            all_tags(nodes_of(results)),
            nodes_of(results) == selected(nodes_of(*root), "div.anime-tile.lozad"@),
            k <= n,
            tiles@.len() == k,
            forall|i: int| 0 <= i < k ==> tile_read(at(nodes_of(results), i), #[trigger] tiles@[i]),
        decreases n - k,
    {
        let result = nth(&results, k);
        let kids = children(&result, "");
        tiles.push(
            ScheduleTile {
                id: attr(&result, "id"),
                genres: attr(&result, "genres"),
                title: text(&find(&kids, "h2.anime-tile-title")),
                image: attr(&find(&kids, "img.anime-tile-thumbnail"), "src"),
                description: text(&find(&kids, "p.anime-tile-description")),
            },
        );
        k = k + 1;
    }
    tiles
}

fn read_fallback(root: &Elements<'_>) -> (f: SeriesFallback)
    ensures
        fallback_read(nodes_of(*root), f),
{
    let time = find(root, "time[id='release-time-subs']");
    SeriesFallback {
        has_time: length(&time) > 0,
        datetime: attr(&time, "datetime"),
        og_url: attr(&find(root, "html head meta[property='og:url']"), "content"),
    }
}

/// The series found, from the answer to the search request.
pub fn get(response: Option<String>) -> (r: Result<Vec<AnimeDetails>, ScraperError>)
    ensures
        response is None ==> (r matches Err(e) && e.reason@ == http_failure()),
        response matches Some(h) && !html_loads(h@) ==> (r matches Err(e) && e.reason@ == parse_failure()),
        r is Err && response is Some ==> r->Err_0.reason@ == parse_failure(),
        response matches Some(h) ==> (html_loads(h@) ==> exists|tiles: Seq<ScheduleTile>, f: SeriesFallback|
            #[trigger] tiles_read(loaded(h@), tiles) && #[trigger] fallback_read(loaded(h@), f) && (r is Err <==> (
            with_id(tiles).len() == 0 && !fallback_readable(f))) && (r matches Ok(list) ==> results_of(
                tiles,
                f,
                list@,
            ))),
{
    match response {
        None => Err(http_error()),
        Some(h) => match load(h.as_str()) {
            Some(root) => {
                let tiles = read_tiles(&root);
                let f = read_fallback(&root);
                let ghost tv = tiles@;
                let ghost fv = f;
                let r = results_from_page(tiles, f);
                assert(tiles_read(loaded(h@), tv) && fallback_read(loaded(h@), fv));
                assert(r matches Ok(l) ==> results_of(tv, fv, l@));
                r
            },
            None => Err(parse_error()),
        },
    }
}

} // verus!
