//! A page of the popular series of the first source.
use vstd::prelude::*;
use visdom::types::Elements;
use crate::caching::cache_anime::{opt_string, opt_text};
use crate::scrapers::common::{
    concat3, http_error, http_failure, nonempty, nonempty_string, opt_view, parse_error, parse_failure,
};
use crate::scrapers::dom::{all_tags, 
    at, attr, attr_of, children, children_of, find, html_loads, length, load, loaded, nodes_of, nth, selected,
    text, text_of,
};
use crate::text::{piece, piece_str, replace_str, replaced, trim, trim_str};
use crate::utils::types::{AnimeDetails, ScraperError};

verus! {

broadcast use vstd::string::group_string_axioms;

/// What one entry of the popular list holds.
pub struct PopularItem {
    pub title: Option<String>,
    pub href: Option<String>,
    pub image: Option<String>,
    pub text: String,
}

/// The address of page `page` of the popular list.
pub fn popular_url(base: &str, page: &str) -> (r: String)
    ensures
        r@ == base@ + "popular.html?page="@ + page@,
{
    concat3(base, "popular.html?page=", page)
}

/// The series an entry of the popular list gives.
pub open spec fn popular_of(item: PopularItem, d: AnimeDetails) -> bool {
    &&& opt_view(d.title) == opt_view(item.title)
    &&& d.cover_url@ == opt_text(item.image)
    &&& opt_view(d.id) == nonempty(piece(opt_text(item.href), "/category/"@, 1))
    &&& opt_view(d.released) == nonempty(
        piece(replaced(trim(item.text@), " "@, Seq::empty()), "Released:"@, 1),
    )
    &&& d.movie_id is None
    &&& d.episodes == 0
    &&& d.other_names@.len() == 0
    &&& d.genres@.len() == 0
    &&& d.description@ == Seq::<char>::empty()
    &&& d.rating@ == Seq::<char>::empty()
    &&& d.new_ep == 0
}

/// The list a popular page gives for its entries.
pub open spec fn popular_list_of(items: Seq<PopularItem>, list: Seq<AnimeDetails>) -> bool {
    items.len() == list.len() && forall|i: int| 0 <= i < list.len() ==> popular_of(items[i], #[trigger] list[i])
}

pub fn popular_from_item(item: PopularItem) -> (d: AnimeDetails)
    ensures
        popular_of(item, d),
{
    let ghost it = item;
    proof {
        reveal_strlit("/category/");
        reveal_strlit(" ");
        reveal_strlit("Released:");
        reveal_strlit("");
        assert(""@ =~= Seq::<char>::empty());
    }
    let href = opt_string(item.href);
    let id = piece_str(href.as_str(), "/category/", 1);
    let squeezed = replace_str(trim_str(item.text.as_str()).as_str(), " ", "");
    let released = piece_str(squeezed.as_str(), "Released:", 1);
    let mut d = AnimeDetails::new();
    d.title = item.title;
    d.cover_url = opt_string(item.image);
    d.id = nonempty_string(id);
    d.released = nonempty_string(released);
    d
}

/// The series of the popular list, one for each entry, in order.
pub fn popular_from_items(items: Vec<PopularItem>) -> (r: Vec<AnimeDetails>)
    ensures
        r@.len() == items@.len(),
        forall|i: int| 0 <= i < r@.len() ==> popular_of(items@[i], #[trigger] r@[i]),
{
    let ghost all = items@;
    let mut items = items;
    let mut out: Vec<AnimeDetails> = Vec::new();
    while items.len() > 0
        invariant
            out@.len() + items@.len() == all.len(),
            items@ == all.skip(out@.len() as int),
            forall|i: int| 0 <= i < out@.len() ==> popular_of(all[i], #[trigger] out@[i]),
        decreases items@.len(),
    {
        let ghost k = out@.len();
        let item = items.remove(0);
        assert(item == all[k as int]);
        out.push(popular_from_item(item));
        assert(items@ =~= all.skip(out@.len() as int));
    }
    out
}

/// The entry record read from the list entry `e`.
pub open spec fn item_read(e: Seq<(Seq<char>, int)>, it: PopularItem) -> bool {
    let kids = children_of(e, ""@);
    let name_el = selected(kids, "a"@);
    &&& opt_view(it.title) == attr_of(name_el, "title"@)
    &&& opt_view(it.href) == attr_of(name_el, "href"@)
    &&& opt_view(it.image) == attr_of(selected(kids, "img"@), "src"@)
    &&& it.text@ == text_of(e)
}

/// The list entries of the parsed popular page `n`.
pub open spec fn entry_nodes(n: Seq<(Seq<char>, int)>) -> Seq<(Seq<char>, int)> {
    selected(n, "div.last_episodes > ul > li"@)
}

/// The entry records read from the parsed popular page `n`, one per entry.
pub open spec fn items_read(n: Seq<(Seq<char>, int)>, items: Seq<PopularItem>) -> bool {
    &&& items.len() == entry_nodes(n).len()
    &&& forall|i: int| 0 <= i < items.len() ==> item_read(at(entry_nodes(n), i), #[trigger] items[i])
}

fn read_items(root: &Elements<'_>) -> (items: Vec<PopularItem>)
    ensures
        items_read(nodes_of(*root), items@),
{
    let results = find(root, "div.last_episodes > ul > li");
    let n = length(&results);
    let mut items: Vec<PopularItem> = Vec::new();
    let mut k: usize = 0;
    while k < n
        invariant
            n == nodes_of(results).len(),
            all_tags(nodes_of(results)),
            nodes_of(results) == entry_nodes(nodes_of(*root)),
            k <= n,
            items@.len() == k,
            forall|i: int| 0 <= i < k ==> item_read(at(nodes_of(results), i), #[trigger] items@[i]),
        decreases n - k,
    {
        let result = nth(&results, k);
        let kids = children(&result, "");
        let name_el = find(&kids, "a");
        items.push(
            PopularItem {
                title: attr(&name_el, "title"),
                href: attr(&name_el, "href"),
                image: attr(&find(&kids, "img"), "src"),
                text: text(&result),
            },
        );
        k = k + 1;
    }
    items
}

/// The popular series from the answer to the request for a page of the list.
pub fn get(response: Option<String>) -> (r: Result<Vec<AnimeDetails>, ScraperError>)
    ensures
        response is None ==> (r matches Err(e) && e.reason@ == http_failure()),
        response matches Some(h) ==> (r is Err <==> !html_loads(h@)),
        response is Some && r is Err ==> r->Err_0.reason@ == parse_failure(),
        r matches Ok(list) ==> response matches Some(h) && exists|items: Seq<PopularItem>|
            items_read(loaded(h@), items) && #[trigger] popular_list_of(items, list@),
{
    match response {
        None => Err(http_error()),
        Some(h) => match load(h.as_str()) {
            Some(root) => {
                let items = read_items(&root);
                let ghost it = items@;
                let list = popular_from_items(items);
                assert(popular_list_of(it, list@));
                let r = Ok(list);
                assert(items_read(loaded(h@), it) && (r matches Ok(l) && popular_list_of(it, l@)));
                r
            },
            None => Err(parse_error()),
        },
    }
}

} // verus!
