//! The search results of the first source.
use vstd::prelude::*;
use visdom::types::Elements;
use crate::caching::cache_anime::{opt_string, opt_text};
use crate::scrapers::common::{
    concat3, encode, http_error, http_failure, nonempty, nonempty_string, opt_view, parse_error,
    parse_failure, url_encoded,
};
use crate::scrapers::dom::{all_tags, 
    at, attr, attr_of, children, children_of, find, html, html_loads, html_of, length, load, loaded, nodes_of,
    nth, selected,
};
use crate::text::{piece, piece_str, split, split_str, trim, trim_str};
use crate::utils::types::{AnimeDetails, ScraperError};

verus! {

broadcast use vstd::string::group_string_axioms;

/// What one search result holds.
pub struct SearchItem {
    pub title: Option<String>,
    pub image: Option<String>,
    pub href: Option<String>,
    /// The inner HTML of its release-date paragraph.
    pub released_html: String,
}

/// The address of the search for `query` (trimmed and URL-encoded).
pub fn search_url(base: &str, query: &str) -> (r: String)
    ensures
        r@ == base@ + "search.html?keyword="@ + url_encoded(trim(query@)),
{
    let q = encode(trim_str(query).as_str());
    concat3(base, "search.html?keyword=", q.as_str())
}

/// Whether a result can be read: a titled result's link must have a path
/// segment after the first `/`.
pub open spec fn readable(it: SearchItem) -> bool {
    it.title is None || match it.href {
        Some(h) => split(h@, "/"@).len() >= 2,
        None => true,
    }
}

/// The series a search result gives.
pub open spec fn result_of(it: SearchItem, d: AnimeDetails) -> bool {
    &&& opt_view(d.title) == opt_view(it.title)
    &&& d.cover_url@ == opt_text(it.image)
    &&& opt_view(d.id) == match it.href {
        Some(h) => Some(split(h@, "/"@)[1]),
        None => None,
    }
    &&& opt_view(d.released) == nonempty(piece(trim(it.released_html@), " "@, 1))
    &&& d.movie_id is None
    &&& d.episodes == 0
    &&& d.other_names@.len() == 0
    &&& d.genres@.len() == 0
    &&& d.description@ == Seq::<char>::empty()
    &&& d.rating@ == Seq::<char>::empty()
    &&& d.new_ep == 0
}

/// The results that have a title, in order.
pub open spec fn titled(items: Seq<SearchItem>) -> Seq<SearchItem>
    decreases items.len(),
{
    if items.len() == 0 {
        Seq::empty()
    } else {
        let rest = titled(items.drop_last());
        if items.last().title is Some {
            rest.push(items.last())
        } else {
            rest
        }
    }
}

/// The series a search page gives for its results.
pub open spec fn results_of(items: Seq<SearchItem>, list: Seq<AnimeDetails>) -> bool {
    let t = titled(items);
    t.len() == list.len() && forall|i: int| 0 <= i < list.len() ==> result_of(t[i], #[trigger] list[i])
}

pub fn result_from_item(it: SearchItem) -> (d: AnimeDetails)
    requires
        readable(it),
        it.title is Some,
    ensures
        result_of(it, d),
{
    proof {
        reveal_strlit("/");
        reveal_strlit(" ");
    }
    let id: Option<String> = match &it.href {
        Some(h) => {
            let parts = split_str(h.as_str(), "/");
            Some(parts[1].clone())
        },
        None => None,
    };
    let released = piece_str(trim_str(it.released_html.as_str()).as_str(), " ", 1);
    let mut d = AnimeDetails::new();
    d.title = it.title;
    d.cover_url = opt_string(it.image);
    d.id = id;
    d.released = nonempty_string(released);
    d
}

pub fn results_from_items(items: Vec<SearchItem>) -> (r: Vec<AnimeDetails>)
    requires
        forall|i: int| 0 <= i < items@.len() ==> readable(#[trigger] items@[i]),
    ensures
        results_of(items@, r@),
{
    let ghost all = items@;
    let total = items.len();
    let mut items = items;
    let mut out: Vec<AnimeDetails> = Vec::new();
    let mut k: usize = 0;
    assert(all.take(0) =~= Seq::<SearchItem>::empty());
    while items.len() > 0
        invariant
            all.len() == total,
            k + items@.len() == all.len(),
            items@ == all.skip(k as int),
            forall|i: int| 0 <= i < all.len() ==> readable(#[trigger] all[i]),
            results_of(all.take(k as int), out@),
        decreases items@.len(),
    {
        let it = items.remove(0);
        assert(it == all[k as int]);
        assert(all.take(k + 1).drop_last() =~= all.take(k as int));
        assert(all.take(k + 1).last() == it);
        if it.title.is_some() {
            out.push(result_from_item(it));
        }
        k = k + 1;
        assert(items@ =~= all.skip(k as int));
    }
    assert(all.take(k as int) =~= all);
    out
}

/// The result record read from the children `kids` of one result entry.
pub open spec fn item_read(kids: Seq<(Seq<char>, int)>, it: SearchItem) -> bool {
    let a = selected(kids, "a"@);
    &&& opt_view(it.title) == attr_of(a, "title"@)
    &&& opt_view(it.image) == attr_of(selected(kids, "img"@), "src"@)
    &&& opt_view(it.href) == attr_of(a, "href"@)
    &&& it.released_html@ == html_of(selected(kids, "p.released"@))
}

/// The result entries of the parsed search page `n`.
pub open spec fn result_nodes(n: Seq<(Seq<char>, int)>) -> Seq<(Seq<char>, int)> {
    children_of(selected(n, "ul.items"@), ""@)
}

/// The result records read from the parsed search page `n`, one per entry.
pub open spec fn items_read(n: Seq<(Seq<char>, int)>, items: Seq<SearchItem>) -> bool {
    &&& items.len() == result_nodes(n).len()
    &&& forall|i: int|
        0 <= i < items.len() ==> item_read(children_of(at(result_nodes(n), i), ""@), #[trigger] items[i])
}

/// Whether every result of `items` can be read.
pub open spec fn all_read(items: Seq<SearchItem>) -> bool {
    forall|i: int| 0 <= i < items.len() ==> readable(#[trigger] items[i])
}

fn read_items(root: &Elements<'_>) -> (items: Vec<SearchItem>)
    ensures
        items_read(nodes_of(*root), items@),
{
    let results = children(&find(root, "ul.items"), "");
    let n = length(&results);
    let mut items: Vec<SearchItem> = Vec::new();
    let mut k: usize = 0;
    while k < n
        invariant
            n == nodes_of(results).len(),
            all_tags(nodes_of(results)),
            nodes_of(results) == result_nodes(nodes_of(*root)),
            k <= n,
            items@.len() == k,
            forall|i: int|
                0 <= i < k ==> item_read(children_of(at(nodes_of(results), i), ""@), #[trigger] items@[i]),
        decreases n - k,
    {
        let kids = children(&nth(&results, k), "");
        let a = find(&kids, "a");
        items.push(
            SearchItem {
                title: attr(&a, "title"),
                image: attr(&find(&kids, "img"), "src"),
                href: attr(&a, "href"),
                released_html: html(&find(&kids, "p.released")),
            },
        );
        k = k + 1;
    }
    items
}

fn all_readable(items: &Vec<SearchItem>) -> (r: bool)
    ensures
        r == forall|i: int| 0 <= i < items@.len() ==> readable(#[trigger] items@[i]),
{
    let mut k: usize = 0;
    while k < items.len()
        invariant
            0 <= k <= items@.len(),
            forall|i: int| 0 <= i < k ==> readable(#[trigger] items@[i]),
        decreases items@.len() - k,
    {
        proof {
            reveal_strlit("/");
        }
        if items[k].title.is_some() {
            match &items[k].href {
                Some(h) => {
                    if split_str(h.as_str(), "/").len() < 2 {
                        return false;
                    }
                },
                None => {},
            }
        }
        k = k + 1;
    }
    true
}

/// The series found, from the answer to the search request; a titled result
/// whose link has no path segment makes the page unreadable.
pub fn get(response: Option<String>) -> (r: Result<Vec<AnimeDetails>, ScraperError>)
    ensures
        response is None ==> (r matches Err(e) && e.reason@ == http_failure()),
        response matches Some(h) && !html_loads(h@) ==> (r matches Err(e) && e.reason@ == parse_failure()),
        r is Err && response is Some ==> r->Err_0.reason@ == parse_failure(),
        response matches Some(h) ==> (html_loads(h@) ==> exists|items: Seq<SearchItem>|
            #[trigger] items_read(loaded(h@), items) && (r is Ok <==> all_read(items)) && (r matches Ok(list)
                ==> results_of(items, list@))),
{
    match response {
        None => Err(http_error()),
        Some(h) => match load(h.as_str()) {
            Some(root) => {
                let items = read_items(&root);
                if !all_readable(&items) {
                    assert(items_read(loaded(h@), items@));
                    return Err(parse_error());
                }
                let ghost it = items@;
                let list = results_from_items(items);
                let r = Ok(list);
                assert(items_read(loaded(h@), it) && (r matches Ok(l) && results_of(it, l@)));
                r
            },
            None => Err(parse_error()),
        },
    }
}

} // verus!
