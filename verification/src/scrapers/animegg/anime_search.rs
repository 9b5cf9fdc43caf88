//! The search results of the second source.
use vstd::prelude::*;
use visdom::types::Elements;
use crate::caching::cache_anime::{opt_string, opt_text};
use crate::scrapers::common::{
    concat3, encode, http_error, http_failure, opt_view, parse_error, parse_failure, url_encoded,
};
use crate::scrapers::dom::{all_tags, 
    at, attr, attr_of, children, children_of, find, first, html_loads, length, load, loaded, nodes_of, nth,
    selected, text, text_of,
};
use crate::text::{replace_str, replaced, trim, trim_str, u32_or_zero, u32_or_zero_str};
use crate::utils::types::{AnimeDetails, ScraperError};

verus! {

broadcast use vstd::string::group_string_axioms;

/// What one search result holds.
pub struct EggSearchItem {
    pub href: Option<String>,
    pub image: Option<String>,
    pub title: String,
    /// The text of the first episode-count block, when there is one.
    pub episodes_text: Option<String>,
}

/// The address of the search for `query` (trimmed and URL-encoded).
pub fn search_url(base: &str, query: &str) -> (r: String)
    ensures
        r@ == base@ + "search/?q="@ + url_encoded(trim(query@)),
{
    let q = encode(trim_str(query).as_str());
    concat3(base, "search/?q=", q.as_str())
}

/// The episode count a result states, or 0.
pub open spec fn result_episodes(t: Option<Seq<char>>) -> u32 {
    match t {
        Some(s) => u32_or_zero(replaced(s, "Episodes: "@, Seq::empty())),
        None => 0,
    }
}

/// The series a search result gives.
pub open spec fn result_of(it: EggSearchItem, d: AnimeDetails) -> bool {
    &&& opt_view(d.id) == match it.href {
        Some(h) => Some(replaced(h@, "/series/"@, Seq::empty())),
        None => None,
    }
    &&& d.cover_url@ == opt_text(it.image)
    &&& opt_view(d.title) == Some(it.title@)
    &&& d.episodes == result_episodes(opt_view(it.episodes_text))
    &&& d.released is None
    &&& d.movie_id is None
    &&& d.other_names@.len() == 0
    &&& d.genres@.len() == 0
    &&& d.description@ == Seq::<char>::empty()
    &&& d.rating@ == Seq::<char>::empty()
    &&& d.new_ep == 0
}

/// The results that link somewhere, in order.
pub open spec fn linked(items: Seq<EggSearchItem>) -> Seq<EggSearchItem>
    decreases items.len(),
{
    if items.len() == 0 {
        Seq::empty()
    } else {
        let rest = linked(items.drop_last());
        if items.last().href is Some {
            rest.push(items.last())
        } else {
            rest
        }
    }
}

/// The series a search page gives for its results.
pub open spec fn results_of(items: Seq<EggSearchItem>, list: Seq<AnimeDetails>) -> bool {
    let t = linked(items);
    t.len() == list.len() && forall|i: int| 0 <= i < list.len() ==> result_of(t[i], #[trigger] list[i])
}

pub fn result_from_item(it: EggSearchItem) -> (d: AnimeDetails)
    ensures
        result_of(it, d),
{
    proof {
        reveal_strlit("/series/");
        reveal_strlit("Episodes: ");
        reveal_strlit("");
        assert(""@ =~= Seq::<char>::empty());
    }
    let mut d = AnimeDetails::new();
    d.id = match &it.href {
        Some(h) => Some(replace_str(h.as_str(), "/series/", "")),
        None => None,
    };
    d.cover_url = opt_string(it.image);
    d.title = Some(it.title);
    d.episodes = match &it.episodes_text {
        Some(t) => u32_or_zero_str(replace_str(t.as_str(), "Episodes: ", "").as_str()),
        None => 0,
    };
    d
}

pub fn results_from_items(items: Vec<EggSearchItem>) -> (r: Vec<AnimeDetails>)
    ensures
        results_of(items@, r@),
{
    let ghost all = items@;
    let total = items.len();
    let mut items = items;
    let mut out: Vec<AnimeDetails> = Vec::new();
    let mut k: usize = 0;
    assert(all.take(0) =~= Seq::<EggSearchItem>::empty());
    while items.len() > 0
        invariant
            all.len() == total,
            k + items@.len() == all.len(),
            items@ == all.skip(k as int),
            results_of(all.take(k as int), out@),
        decreases items@.len(),
    {
        let it = items.remove(0);
        assert(it == all[k as int]);
        assert(all.take(k + 1).drop_last() =~= all.take(k as int));
        assert(all.take(k + 1).last() == it);
        if it.href.is_some() {
            out.push(result_from_item(it));
        }
        k = k + 1;
        assert(items@ =~= all.skip(k as int));
    }
    assert(all.take(k as int) =~= all);
    out
}

/// The result record read from the result link `e`.
pub open spec fn item_read(e: Seq<(Seq<char>, int)>, it: EggSearchItem) -> bool {
    let kids = children_of(e, ""@);
    let counts = selected(children_of(selected(kids, "div"@), ""@), "div"@);
    &&& opt_view(it.href) == attr_of(e, "href"@)
    &&& opt_view(it.image) == attr_of(selected(kids, "img.media-object"@), "src"@)
    &&& it.title@ == text_of(selected(kids, "h2"@))
    &&& opt_view(it.episodes_text) == (if counts.len() > 0 {
        Some(text_of(at(counts, 0)))
    } else {
        None
    })
}

/// The result links of the parsed search page `n`.
pub open spec fn result_nodes(n: Seq<(Seq<char>, int)>) -> Seq<(Seq<char>, int)> {
    children_of(selected(n, "div[class='moose page']"@), "a"@)
}

/// The result records read from the parsed search page `n`, one per link.
pub open spec fn items_read(n: Seq<(Seq<char>, int)>, items: Seq<EggSearchItem>) -> bool {
    &&& items.len() == result_nodes(n).len()
    &&& forall|i: int| 0 <= i < items.len() ==> item_read(at(result_nodes(n), i), #[trigger] items[i])
}

fn read_items(root: &Elements<'_>) -> (items: Vec<EggSearchItem>)
    ensures
        items_read(nodes_of(*root), items@),
{
    let results = children(&find(root, "div[class='moose page']"), "a");
    let n = length(&results);
    let mut items: Vec<EggSearchItem> = Vec::new();
    let mut k: usize = 0;
    while k < n
        invariant
            n == nodes_of(results).len(),
            all_tags(nodes_of(results)),
            nodes_of(results) == result_nodes(nodes_of(*root)),
            k <= n,
            items@.len() == k,
            forall|i: int| 0 <= i < k ==> item_read(at(nodes_of(results), i), #[trigger] items@[i]),
        decreases n - k,
    {
        let result = nth(&results, k);
        let kids = children(&result, "");
        let counts = find(&children(&find(&kids, "div"), ""), "div");
        items.push(
            EggSearchItem {
                href: attr(&result, "href"),
                image: attr(&find(&kids, "img.media-object"), "src"),
                title: text(&find(&kids, "h2")),
                episodes_text: if length(&counts) > 0 {
                    Some(text(&first(&counts)))
                } else {
                    None
                },
            },
        );
        k = k + 1;
    }
    items
}

/// The series found, from the answer to the search request.
pub fn get(response: Option<String>) -> (r: Result<Vec<AnimeDetails>, ScraperError>)
    ensures
        response is None ==> (r matches Err(e) && e.reason@ == http_failure()),
        response matches Some(h) ==> (r is Err <==> !html_loads(h@)),
        r is Err && response is Some ==> r->Err_0.reason@ == parse_failure(),
        r matches Ok(list) ==> response matches Some(h) && exists|items: Seq<EggSearchItem>|
            items_read(loaded(h@), items) && #[trigger] results_of(items, list@),
{
    match response {
        None => Err(http_error()),
        Some(h) => match load(h.as_str()) {
            Some(root) => {
                let items = read_items(&root);
                let ghost it = items@;
                let list = results_from_items(items);
                let r = Ok(list);
                assert(items_read(loaded(h@), it) && (r matches Ok(l) && results_of(it, l@)));
                r
            },
            None => Err(parse_error()),
        },
    }
}

} // verus!
