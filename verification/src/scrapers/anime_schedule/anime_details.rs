//! The series page of the airing-schedule site.
use vstd::prelude::*;
use visdom::types::Elements;
use crate::caching::cache_anime::{opt_string, opt_text};
use crate::scrapers::anime_schedule::{parse_rfc3339_secs, release_text, release_text_str, rfc3339_timestamp};
use crate::scrapers::common::{concat3, http_error, http_failure, opt_view, parse_error, parse_failure};
use crate::scrapers::dom::{attr, attr_of, find, html_loads, load, loaded, nodes_of, selected, text, text_of};
use crate::text::{replace_str, replaced};
use crate::utils::types::{AnimeDetails, ScraperError};

verus! {

broadcast use vstd::string::group_string_axioms;

/// What the series page of the airing-schedule site holds.
pub struct SchedulePage {
    /// The `datetime` of the next subbed release.
    pub datetime: Option<String>,
    pub title: String,
    pub description: String,
    pub poster: Option<String>,
}

/// The address of the series page of `id`.
pub fn details_url(base: &str, id: &str) -> (r: String)
    ensures
        r@ == base@ + "anime/"@ + id@,
{
    concat3(base, "anime/", id)
}

/// The details that the page of series `id` gives, its next release being
/// at `next` (UNIX seconds).
pub open spec fn details_at(id: Seq<char>, page: SchedulePage, next: i64, d: AnimeDetails) -> bool {
    &&& d.cover_url@ == opt_text(page.poster)
    &&& match d.id {
        Some(s) => s@ == id,
        None => false,
    }
    &&& d.new_ep == next
    &&& opt_view(d.title) == Some(page.title@)
    &&& d.description@ == replaced(page.description@, "\n"@, Seq::empty())
    &&& d.released is None
    &&& d.movie_id is None
    &&& d.episodes == 0
    &&& d.other_names@.len() == 0
    &&& d.genres@.len() == 0
    &&& d.rating@ == Seq::<char>::empty()
}

/// The details that the page of series `id` gives: its release time must
/// be there and read as RFC 3339.
pub open spec fn details_of(id: Seq<char>, page: SchedulePage, d: AnimeDetails) -> bool {
    &&& page.datetime matches Some(t) && rfc3339_timestamp(release_text(t@)) == Some(d.new_ep)
    &&& details_at(id, page, d.new_ep, d)
}

/// The details of series `id` from its page and the time of its next release.
pub fn details_from_page(id: &str, page: SchedulePage, next: i64) -> (d: AnimeDetails)
    ensures
        details_at(id@, page, next, d),
{
    proof {
        reveal_strlit("\n");
        reveal_strlit("");
        assert(""@ =~= Seq::<char>::empty());
    }
    let mut d = AnimeDetails::new();
    d.cover_url = opt_string(page.poster);
    d.id = Some(id.to_string());
    d.new_ep = next;
    d.title = Some(page.title);
    d.description = replace_str(page.description.as_str(), "\n", "");
    d
}

/// The time of the next release a page gives, when it has a readable one.
pub open spec fn next_release(page: SchedulePage) -> Option<i64> {
    match page.datetime {
        Some(t) => rfc3339_timestamp(release_text(t@)),
        None => None,
    }
}

/// The page record read from the parsed series page `n`.
pub open spec fn page_read(n: Seq<(Seq<char>, int)>, p: SchedulePage) -> bool {
    &&& opt_view(p.datetime) == attr_of(selected(n, "time[id='release-time-subs']"@), "datetime"@)
    &&& p.title@ == text_of(selected(n, "#anime-header-main-title"@))
    &&& p.description@ == text_of(selected(n, "#description"@))
    &&& opt_view(p.poster) == attr_of(selected(n, "#anime-poster"@), "src"@)
}

fn read_page(root: &Elements<'_>) -> (p: SchedulePage)
    ensures
        page_read(nodes_of(*root), p),
{
    SchedulePage {
        datetime: attr(&find(root, "time[id='release-time-subs']"), "datetime"),
        title: text(&find(root, "#anime-header-main-title")),
        description: text(&find(root, "#description")),
        poster: attr(&find(root, "#anime-poster"), "src"),
    }
}

/// The details of series `id` from the answer to the request for its page;
/// a page without a readable release time cannot be read.
pub fn get(id: &str, response: Option<String>) -> (r: Result<AnimeDetails, ScraperError>)
    ensures
        response is None ==> (r matches Err(e) && e.reason@ == http_failure()),
        response matches Some(h) && !html_loads(h@) ==> (r matches Err(e) && e.reason@ == parse_failure()),
        response is Some && r is Err ==> r->Err_0.reason@ == parse_failure(),
        response matches Some(h) ==> (html_loads(h@) ==> exists|p: SchedulePage| #[trigger] page_read(loaded(h@), p)
            && (r is Ok <==> next_release(p) is Some) && (r matches Ok(d) ==> details_of(id@, p, d))),
{
    match response {
        None => Err(http_error()),
        Some(h) => match load(h.as_str()) {
            Some(root) => {
                let page = read_page(&root);
                let ghost p = page;
                assert(page_read(loaded(h@), p));
                let next = match &page.datetime {
                    Some(t) => parse_rfc3339_secs(release_text_str(t.as_str()).as_str()),
                    None => None,
                };
                match next {
                    Some(ts) => {
                        let d = details_from_page(id, page, ts);
                        assert(details_of(id@, p, d));
                        Ok(d)
                    },
                    None => Err(parse_error()),
                }
            },
            None => Err(parse_error()),
        },
    }
}

} // verus!
