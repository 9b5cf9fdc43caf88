//! Today's timetable on the airing-schedule site.
use vstd::prelude::*;
use visdom::types::Elements;
use crate::caching::cache_anime::{opt_string, opt_text};
use crate::scrapers::anime_schedule::{parse_rfc3339, release_text, release_text_str, rfc3339_instant};
use crate::scrapers::common::{http_error, http_failure, opt_view, parse_error, parse_failure};
use crate::scrapers::dom::{all_tags, 
    at, attr, attr_of, children, children_of, find, first, html, html_loads, html_of, length, load, loaded,
    nodes_of, nth, parent, parents_of, selected, text, text_of,
};
use crate::text::{contains, contains_str, same_text};
use crate::utils::types::{AnimeRelease, ScraperError};

verus! {

broadcast use vstd::string::group_string_axioms;

/// What one column entry of today's timetable holds.
pub struct ScheduleItem {
    pub class: Option<String>,
    /// The text of the entry's episode label.
    pub episode: String,
    /// The `datetime` of the entry's air time.
    pub datetime: Option<String>,
    pub image: Option<String>,
    pub route: Option<String>,
    pub title: String,
    /// The entry's whole inner HTML.
    pub inner_html: String,
}

/// Whether an entry is a show (aired or not) rather than decoration.
pub open spec fn is_show(it: ScheduleItem) -> bool {
    match it.class {
        Some(c) => c@ == "timetable-column-show aired expanded"@ || c@
            == "timetable-column-show unaired expanded"@,
        None => false,
    }
}

/// Whether an entry can be read: a show must have an air time and a route.
pub open spec fn readable(it: ScheduleItem) -> bool {
    is_show(it) ==> (it.datetime is Some && it.route is Some)
}

/// Whether an entry gives a release: a show with an episode label.
pub open spec fn listed(it: ScheduleItem) -> bool {
    is_show(it) && it.episode@.len() > 0
}

/// The instant an entry's air time reads as (UNIX seconds and nanoseconds
/// past them); the start of 1970 when it does not read as RFC 3339.
pub open spec fn air_instant(parsed: Option<(i64, u32)>) -> (i64, u32) {
    match parsed {
        Some(t) => t,
        None => (0, 0),
    }
}

/// Whether the instant `a` comes before the instant `b`.
pub open spec fn before(a: (i64, u32), b: (i64, u32)) -> bool {
    a.0 < b.0 || (a.0 == b.0 && a.1 < b.1)
}

/// The release an entry gives when its air time reads as `parsed`, at the
/// instant `now`: out once its air time has passed.
pub open spec fn release_at(it: ScheduleItem, parsed: Option<(i64, u32)>, now: (i64, u32), r: AnimeRelease) -> bool {
    &&& r.is_out == before(air_instant(parsed), now)
    &&& r.cover_url@ == opt_text(it.image)
    &&& opt_view(r.episode_num) == Some(it.episode@)
    &&& opt_view(r.id) == opt_view(it.route)
    &&& opt_view(r.title) == Some(it.title@)
    &&& r.release_time == Some(air_instant(parsed).0)
    &&& r.is_sub == contains(it.inner_html@, "SUB</span>"@)
}

/// The release an entry gives, its air time read as RFC 3339.
pub open spec fn release_of(it: ScheduleItem, now: (i64, u32), r: AnimeRelease) -> bool {
    let parsed = match it.datetime {
        Some(t) => rfc3339_instant(release_text(t@)),
        None => None,
    };
    release_at(it, parsed, now, r)
}

/// The entries that give a release, in order.
pub open spec fn listed_items(items: Seq<ScheduleItem>) -> Seq<ScheduleItem>
    decreases items.len(),
{
    if items.len() == 0 {
        Seq::empty()
    } else {
        let rest = listed_items(items.drop_last());
        if listed(items.last()) {
            rest.push(items.last())
        } else {
            rest
        }
    }
}

/// The releases a timetable gives at the instant `now`.
pub open spec fn releases_of(items: Seq<ScheduleItem>, now: (i64, u32), list: Seq<AnimeRelease>) -> bool {
    let t = listed_items(items);
    t.len() == list.len() && forall|i: int|
        0 <= i < list.len() ==> release_of(t[i], now, #[trigger] list[i])
}

/// The release of an entry whose air time read as `parsed`, at the instant
/// `now_secs` seconds and `now_nanos` nanoseconds past the UNIX epoch.
pub fn release_from_item(it: ScheduleItem, parsed: Option<(i64, u32)>, now_secs: i64, now_nanos: u32) -> (r: AnimeRelease)
    ensures
        release_at(it, parsed, (now_secs, now_nanos), r),
{
    proof {
        reveal_strlit("SUB</span>");
    }
    let t: (i64, u32) = match parsed {
        Some(v) => v,
        None => (0, 0),
    };
    let mut r = AnimeRelease::new();
    r.is_out = t.0 < now_secs || (t.0 == now_secs && t.1 < now_nanos);
    r.is_sub = contains_str(it.inner_html.as_str(), "SUB</span>");
    r.cover_url = opt_string(it.image);
    r.episode_num = Some(it.episode);
    r.id = it.route;
    r.title = Some(it.title);
    r.release_time = Some(t.0);
    r
}

/// The releases of the listed entries, in order, at the instant `now_secs`
/// seconds and `now_nanos` nanoseconds past the UNIX epoch.
pub fn releases_from_items(items: Vec<ScheduleItem>, now_secs: i64, now_nanos: u32) -> (r: Vec<AnimeRelease>)
    ensures
        releases_of(items@, (now_secs, now_nanos), r@),
{
    let ghost all = items@;
    let total = items.len();
    let mut items = items;
    let mut out: Vec<AnimeRelease> = Vec::new();
    let mut k: usize = 0;
    assert(all.take(0) =~= Seq::<ScheduleItem>::empty());
    while items.len() > 0
        invariant
            all.len() == total,
            k + items@.len() == all.len(),
            items@ == all.skip(k as int),
            releases_of(all.take(k as int), (now_secs, now_nanos), out@),
        decreases items@.len(),
    {
        proof {
            reveal_strlit("timetable-column-show aired expanded");
            reveal_strlit("timetable-column-show unaired expanded");
        }
        let it = items.remove(0);
        assert(it == all[k as int]);
        assert(all.take(k + 1).drop_last() =~= all.take(k as int));
        assert(all.take(k + 1).last() == it);
        let show = match &it.class {
            Some(c) => same_text(c.as_str(), "timetable-column-show aired expanded") || same_text(
                c.as_str(),
                "timetable-column-show unaired expanded",
            ),
            None => false,
        };
        if show && !it.episode.as_str().is_empty() {
            let parsed = match &it.datetime {
                Some(t) => parse_rfc3339(release_text_str(t.as_str()).as_str()),
                None => None,
            };
            out.push(release_from_item(it, parsed, now_secs, now_nanos));
        }
        k = k + 1;
        assert(items@ =~= all.skip(k as int));
    }
    assert(all.take(k as int) =~= all);
    out
}

/// The entry record read from the timetable entry `e`.
pub open spec fn item_read(e: Seq<(Seq<char>, int)>, it: ScheduleItem) -> bool {
    let own = parents_of(children_of(e, ""@), ""@);
    let bar = selected(own, "h3.time-bar"@);
    let show = selected(own, "a.show-link"@);
    &&& opt_view(it.class) == attr_of(e, "class"@)
    &&& it.episode@ == text_of(selected(bar, "span.show-episode"@))
    &&& opt_view(it.datetime) == attr_of(selected(bar, "time.show-air-time"@), "datetime"@)
    &&& opt_view(it.image) == attr_of(selected(show, "img"@), "src"@)
    &&& opt_view(it.route) == attr_of(own, "route"@)
    &&& it.title@ == text_of(selected(show, "h2.show-title-bar"@))
    &&& it.inner_html@ == html_of(own)
}

/// The entries of today's column of the parsed timetable `n`.
pub open spec fn entry_nodes(n: Seq<(Seq<char>, int)>) -> Seq<(Seq<char>, int)> {
    children_of(at(selected(n, "#active-day"@), 0), ""@)
}

/// The entry records read from the parsed timetable `n`, one per entry.
pub open spec fn items_read(n: Seq<(Seq<char>, int)>, items: Seq<ScheduleItem>) -> bool {
    &&& items.len() == entry_nodes(n).len()
    &&& forall|i: int| 0 <= i < items.len() ==> item_read(at(entry_nodes(n), i), #[trigger] items[i])
}

/// Whether every entry of `items` can be read.
pub open spec fn all_read(items: Seq<ScheduleItem>) -> bool {
    forall|i: int| 0 <= i < items.len() ==> readable(#[trigger] items[i])
}

fn read_items(root: &Elements<'_>) -> (items: Vec<ScheduleItem>)
    ensures
        items_read(nodes_of(*root), items@),
{
    let entries = children(&first(&find(root, "#active-day")), "");
    let n = length(&entries);
    let mut items: Vec<ScheduleItem> = Vec::new();
    let mut k: usize = 0;
    while k < n
        invariant
            n == nodes_of(entries).len(),
            all_tags(nodes_of(entries)),
            nodes_of(entries) == entry_nodes(nodes_of(*root)),
            k <= n,
            items@.len() == k,
            forall|i: int| 0 <= i < k ==> item_read(at(nodes_of(entries), i), #[trigger] items@[i]),
        decreases n - k,
    {
        let entry = nth(&entries, k);
        let own = parent(&children(&entry, ""), "");
        let bar = find(&own, "h3.time-bar");
        let show = find(&own, "a.show-link");
        items.push(
            ScheduleItem {
                class: attr(&entry, "class"),
                episode: text(&find(&bar, "span.show-episode")),
                datetime: attr(&find(&bar, "time.show-air-time"), "datetime"),
                image: attr(&find(&show, "img"), "src"),
                route: attr(&own, "route"),
                title: text(&find(&show, "h2.show-title-bar")),
                inner_html: html(&own),
            },
        );
        k = k + 1;
    }
    items
}

fn all_readable(items: &Vec<ScheduleItem>) -> (r: bool)
    ensures
        r == forall|i: int| 0 <= i < items@.len() ==> readable(#[trigger] items@[i]),
{
    let mut k: usize = 0;
    while k < items.len()
        invariant
            0 <= k <= items@.len(),
            forall|i: int| 0 <= i < k ==> readable(#[trigger] items@[i]),
        decreases items@.len() - k,
    {
        proof {
            reveal_strlit("timetable-column-show aired expanded");
            reveal_strlit("timetable-column-show unaired expanded");
        }
        let show = match &items[k].class {
            Some(c) => same_text(c.as_str(), "timetable-column-show aired expanded") || same_text(
                c.as_str(),
                "timetable-column-show unaired expanded",
            ),
            None => false,
        };
        if show && (items[k].datetime.is_none() || items[k].route.is_none()) {
            return false;
        }
        k = k + 1;
    }
    true
}

/// Today's releases from the answer to the request for the timetable, at
/// the instant `now_secs` seconds and `now_nanos` nanoseconds past the UNIX
/// epoch; a show without an air time or a route makes the page unreadable.
pub fn get(response: Option<String>, now_secs: i64, now_nanos: u32) -> (r: Result<Vec<AnimeRelease>, ScraperError>)
    ensures
        response is None ==> (r matches Err(e) && e.reason@ == http_failure()),
        response matches Some(h) && !html_loads(h@) ==> (r matches Err(e) && e.reason@ == parse_failure()),
        r is Err && response is Some ==> r->Err_0.reason@ == parse_failure(),
        response matches Some(h) ==> (html_loads(h@) ==> exists|items: Seq<ScheduleItem>|
            #[trigger] items_read(loaded(h@), items) && (r is Ok <==> all_read(items)) && (r matches Ok(list)
                ==> releases_of(items, (now_secs, now_nanos), list@))),
{
    match response {
        None => Err(http_error()),
        Some(h) => match load(h.as_str()) {
            Some(root) => {
                let items = read_items(&root);
                if !all_readable(&items) {
                    assert(items_read(loaded(h@), items@));
                    return Err(parse_error());
                }
                let ghost it = items@;
                let list = releases_from_items(items, now_secs, now_nanos);
                let r = Ok(list);
                assert(items_read(loaded(h@), it) && (r matches Ok(l) && releases_of(it, (now_secs, now_nanos), l@)));
                r
            },
            None => Err(parse_error()),
        },
    }
}

} // verus!
