//! A page of the recent releases of the first source.
use vstd::prelude::*;
use visdom::types::Elements;
use crate::caching::cache_anime::{opt_string, opt_text};
use crate::scrapers::common::{concat3, http_error, http_failure, opt_view, parse_error, parse_failure};
use crate::scrapers::dom::{all_tags, 
    at, attr, attr_of, children, children_of, find, html, html_loads, html_of, length, load, loaded, nodes_of,
    nth, selected,
};
use crate::text::{contains, contains_str, split, split_str};
use crate::utils::types::{AnimeRelease, ScraperError};

verus! {

broadcast use vstd::string::group_string_axioms;

/// What one entry of the release list holds.
pub struct RecentItem {
    pub title: Option<String>,
    pub image: Option<String>,
    pub href: Option<String>,
    /// The inner HTML of the first child of the entry.
    pub inner_html: String,
}

/// The address of page `page` of the release list.
pub fn recent_url(ajax_base: &str, page: &str) -> (r: String)
    ensures
        r@ == ajax_base@ + "page-recent-release.html?page="@ + page@,
{
    concat3(ajax_base, "page-recent-release.html?page=", page)
}

/// Whether an entry can be read: a titled entry's link must have a path
/// segment after the first `/`.
pub open spec fn readable(it: RecentItem) -> bool {
    it.title is None || match it.href {
        Some(h) => split(h@, "/"@).len() >= 2,
        None => true,
    }
}

/// The path segment after the first `/` of the entry's link.
pub open spec fn link_segment(it: RecentItem) -> Option<Seq<char>> {
    match it.href {
        Some(h) => Some(split(h@, "/"@)[1]),
        None => None,
    }
}

pub open spec fn seq_or_empty(o: Option<Seq<char>>) -> Seq<char> {
    match o {
        Some(s) => s,
        None => Seq::empty(),
    }
}

/// The release an entry gives: the series id and episode number are the
/// two halves of the link segment around `-episode-`.
pub open spec fn release_of(it: RecentItem, r: AnimeRelease) -> bool {
    let seg = link_segment(it);
    let parts = split(seq_or_empty(seg), "-episode-"@);
    &&& opt_view(r.title) == opt_view(it.title)
    &&& r.cover_url@ == opt_text(it.image)
    &&& opt_view(r.id) == if parts.len() == 2 {
        Some(parts[0])
    } else {
        seg
    }
    &&& opt_view(r.episode_num) == Some(
        if parts.len() == 2 {
            parts[1]
        } else {
            Seq::<char>::empty()
        },
    )
    &&& r.is_out
    &&& r.is_sub == contains(it.inner_html@, "ic-SUB"@)
    &&& r.release_time is None
}

/// The entries that have a title, in order.
pub open spec fn titled(items: Seq<RecentItem>) -> Seq<RecentItem>
    decreases items.len(),
{
    if items.len() == 0 {
        Seq::empty()
    } else {
        let rest = titled(items.drop_last());
        if items.last().title is Some {
            rest.push(items.last())
        } else {
            rest
        }
    }
}

/// The releases a page gives for its entries.
pub open spec fn releases_of(items: Seq<RecentItem>, list: Seq<AnimeRelease>) -> bool {
    let t = titled(items);
    t.len() == list.len() && forall|i: int| 0 <= i < list.len() ==> release_of(t[i], #[trigger] list[i])
}

pub fn release_from_item(it: RecentItem) -> (r: AnimeRelease)
    requires
        readable(it),
        it.title is Some,
    ensures
        release_of(it, r),
{
    let ghost g = it;
    proof {
        reveal_strlit("/");
        reveal_strlit("-episode-");
    }
    let seg: Option<String> = match &it.href {
        Some(h) => {
            let parts = split_str(h.as_str(), "/");
            Some(parts[1].clone())
        },
        None => None,
    };
    let seg_text = match &seg {
        Some(s) => s.clone(),
        None => String::new(),
    };
    let parts = split_str(seg_text.as_str(), "-episode-");
    let mut r = AnimeRelease::new();
    if parts.len() == 2 {
        r.id = Some(parts[0].clone());
        r.episode_num = Some(parts[1].clone());
    } else {
        r.id = seg;
        r.episode_num = Some(String::new());
    }
    r.is_sub = contains_str(it.inner_html.as_str(), "ic-SUB");
    r.title = it.title;
    r.cover_url = opt_string(it.image);
    r.is_out = true;
    r
}

/// The releases of the titled entries, in order.
pub fn releases_from_items(items: Vec<RecentItem>) -> (r: Vec<AnimeRelease>)
    requires
        forall|i: int| 0 <= i < items@.len() ==> readable(#[trigger] items@[i]),
    ensures
        releases_of(items@, r@),
{
    let ghost all = items@;
    let total = items.len();
    let mut items = items;
    let mut out: Vec<AnimeRelease> = Vec::new();
    let mut k: usize = 0;
    assert(all.take(0) =~= Seq::<RecentItem>::empty());
    while items.len() > 0
        invariant
            all.len() == total,
            k + items@.len() == all.len(),
            items@ == all.skip(k as int),
            forall|i: int| 0 <= i < all.len() ==> readable(#[trigger] all[i]),
            releases_of(all.take(k as int), out@),
        decreases items@.len(),
    {
        let it = items.remove(0);
        assert(it == all[k as int]);
        assert(all.take(k + 1).drop_last() =~= all.take(k as int));
        assert(all.take(k + 1).last() == it);
        if it.title.is_some() {
            let r = release_from_item(it);
            out.push(r);
        }
        k = k + 1;
        assert(items@ =~= all.skip(k as int));
    }
    assert(all.take(k as int) =~= all);
    out
}

/// The entry record read from the children `kids` of one list entry.
pub open spec fn item_read(kids: Seq<(Seq<char>, int)>, it: RecentItem) -> bool {
    let a = selected(kids, "a"@);
    &&& opt_view(it.title) == attr_of(a, "title"@)
    &&& opt_view(it.image) == attr_of(selected(kids, "img"@), "src"@)
    &&& opt_view(it.href) == attr_of(a, "href"@)
    &&& it.inner_html@ == html_of(kids)
}

/// The list entries of the parsed release page `n`.
pub open spec fn entry_nodes(n: Seq<(Seq<char>, int)>) -> Seq<(Seq<char>, int)> {
    children_of(selected(n, "ul.items"@), ""@)
}

/// The entry records read from the parsed release page `n`, one per entry.
pub open spec fn items_read(n: Seq<(Seq<char>, int)>, items: Seq<RecentItem>) -> bool {
    &&& items.len() == entry_nodes(n).len()
    &&& forall|i: int|
        0 <= i < items.len() ==> item_read(children_of(at(entry_nodes(n), i), ""@), #[trigger] items[i])
}

/// Whether every entry of `items` can be read.
pub open spec fn all_read(items: Seq<RecentItem>) -> bool {
    forall|i: int| 0 <= i < items.len() ==> readable(#[trigger] items[i])
}

fn read_items(root: &Elements<'_>) -> (items: Vec<RecentItem>)
    ensures
        items_read(nodes_of(*root), items@),
{
    let results = children(&find(root, "ul.items"), "");
    let n = length(&results);
    let mut items: Vec<RecentItem> = Vec::new();
    let mut k: usize = 0;
    while k < n
        invariant
            n == nodes_of(results).len(),
            all_tags(nodes_of(results)),
            nodes_of(results) == entry_nodes(nodes_of(*root)),
            k <= n,
            items@.len() == k,
            forall|i: int|
                0 <= i < k ==> item_read(children_of(at(nodes_of(results), i), ""@), #[trigger] items@[i]),
        decreases n - k,
    {
        let kids = children(&nth(&results, k), "");
        let a = find(&kids, "a");
        items.push(
            RecentItem {
                title: attr(&a, "title"),
                image: attr(&find(&kids, "img"), "src"),
                href: attr(&a, "href"),
                inner_html: html(&kids),
            },
        );
        k = k + 1;
    }
    items
}

fn all_readable(items: &Vec<RecentItem>) -> (r: bool)
    ensures
        r == forall|i: int| 0 <= i < items@.len() ==> readable(#[trigger] items@[i]),
{
    proof {
        reveal_strlit("/");
    }
    let mut k: usize = 0;
    while k < items.len()
        invariant
            0 <= k <= items@.len(),
            forall|i: int| 0 <= i < k ==> readable(#[trigger] items@[i]),
        decreases items@.len() - k,
    {
        proof {
            reveal_strlit("/");
        }
        if items[k].title.is_some() {
            match &items[k].href {
                Some(h) => {
                    if split_str(h.as_str(), "/").len() < 2 {
                        return false;
                    }
                },
                None => {},
            }
        }
        k = k + 1;
    }
    true
}

/// The recent releases from the answer to the request for a page of the
/// list; a titled entry whose link has no path segment makes the page
/// unreadable.
pub fn get(response: Option<String>) -> (r: Result<Vec<AnimeRelease>, ScraperError>)
    ensures
        response is None ==> (r matches Err(e) && e.reason@ == http_failure()),
        response matches Some(h) && !html_loads(h@) ==> (r matches Err(e) && e.reason@ == parse_failure()),
        r is Err && response is Some ==> r->Err_0.reason@ == parse_failure(),
        response matches Some(h) ==> (html_loads(h@) ==> exists|items: Seq<RecentItem>|
            #[trigger] items_read(loaded(h@), items) && (r is Ok <==> all_read(items)) && (r matches Ok(list)
                ==> releases_of(items, list@))),
{
    match response {
        None => Err(http_error()),
        Some(h) => match load(h.as_str()) {
            Some(root) => {
                let items = read_items(&root);
                if !all_readable(&items) {
                    assert(items_read(loaded(h@), items@));
                    return Err(parse_error());
                }
                let ghost it = items@;
                let list = releases_from_items(items);
                let r = Ok(list);
                assert(items_read(loaded(h@), it) && (r matches Ok(l) && releases_of(it, l@)));
                r
            },
            None => Err(parse_error()),
        },
    }
}

} // verus!
