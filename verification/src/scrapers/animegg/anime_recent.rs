//! The release list of the second source.
use vstd::prelude::*;
use visdom::types::Elements;
use crate::caching::cache_anime::{opt_string, opt_text};
use crate::scrapers::common::{http_error, http_failure, opt_view, parse_error, parse_failure};
use crate::scrapers::dom::{all_tags, 
    at, attr, attr_of, children, children_of, find, html_loads, length, load, loaded, nodes_of, nth, selected,
    text, text_of,
};
use crate::text::{piece, piece_str, replace_str, replaced};
use crate::utils::types::{AnimeRelease, ScraperError};

verus! {

broadcast use vstd::string::group_string_axioms;

/// What one entry of the release list holds.
pub struct EggReleaseItem {
    /// Whether the entry has a release link at all.
    pub has_link: bool,
    /// The text of the release link.
    pub title: String,
    pub href: Option<String>,
    pub image: Option<String>,
    /// The text of the entry's bold line (`<series> Episode <n>`).
    pub label: String,
}

/// The address of the release list.
pub fn recent_url(base: &str) -> (r: String)
    ensures
        r@ == base@ + "releases/"@,
{
    base.to_string().concat("releases/")
}

/// The release an entry gives.
pub open spec fn release_of(it: EggReleaseItem, r: AnimeRelease) -> bool {
    &&& opt_view(r.title) == Some(it.title@)
    &&& opt_view(r.id) == match it.href {
        Some(h) => Some(replaced(h@, "/series/"@, Seq::empty())),
        None => None,
    }
    &&& r.cover_url@ == opt_text(it.image)
    &&& opt_view(r.episode_num) == Some(piece(it.label@, " Episode "@, 1))
    &&& !r.is_out
    &&& !r.is_sub
    &&& r.release_time is None
}

/// The entries that have a release link, in order.
pub open spec fn linked(items: Seq<EggReleaseItem>) -> Seq<EggReleaseItem>
    decreases items.len(),
{
    if items.len() == 0 {
        Seq::empty()
    } else {
        let rest = linked(items.drop_last());
        if items.last().has_link {
            rest.push(items.last())
        } else {
            rest
        }
    }
}

/// The releases a list gives for its entries.
pub open spec fn releases_of(items: Seq<EggReleaseItem>, list: Seq<AnimeRelease>) -> bool {
    let t = linked(items);
    t.len() == list.len() && forall|i: int| 0 <= i < list.len() ==> release_of(t[i], #[trigger] list[i])
}

pub fn release_from_item(it: EggReleaseItem) -> (r: AnimeRelease)
    ensures
        release_of(it, r),
{
    proof {
        reveal_strlit("/series/");
        reveal_strlit(" Episode ");
        reveal_strlit("");
        assert(""@ =~= Seq::<char>::empty());
    }
    let mut r = AnimeRelease::new();
    r.id = match &it.href {
        Some(h) => Some(replace_str(h.as_str(), "/series/", "")),
        None => None,
    };
    r.episode_num = Some(piece_str(it.label.as_str(), " Episode ", 1));
    r.title = Some(it.title);
    r.cover_url = opt_string(it.image);
    r
}

/// The releases of the linked entries, in order.
pub fn releases_from_items(items: Vec<EggReleaseItem>) -> (r: Vec<AnimeRelease>)
    ensures
        releases_of(items@, r@),
{
    let ghost all = items@;
    let total = items.len();
    let mut items = items;
    let mut out: Vec<AnimeRelease> = Vec::new();
    let mut k: usize = 0;
    assert(all.take(0) =~= Seq::<EggReleaseItem>::empty());
    while items.len() > 0
        invariant
            all.len() == total,
            k + items@.len() == all.len(),
            items@ == all.skip(k as int),
            releases_of(all.take(k as int), out@),
        decreases items@.len(),
    {
        let it = items.remove(0);
        assert(it == all[k as int]);
        assert(all.take(k + 1).drop_last() =~= all.take(k as int));
        assert(all.take(k + 1).last() == it);
        if it.has_link {
            out.push(release_from_item(it));
        }
        k = k + 1;
        assert(items@ =~= all.skip(k as int));
    }
    assert(all.take(k as int) =~= all);
    out
}

/// The entry record read from the children `kids` of one list entry.
pub open spec fn item_read(kids: Seq<(Seq<char>, int)>, it: EggReleaseItem) -> bool {
    let link = selected(kids, "a.releaseLink"@);
    &&& it.has_link == (link.len() > 0)
    &&& it.title@ == text_of(link)
    &&& opt_view(it.href) == attr_of(link, "href"@)
    &&& opt_view(it.image) == attr_of(selected(selected(kids, "div.releaseImg"@), "img"@), "src"@)
    &&& it.label@ == text_of(selected(kids, "strong"@))
}

/// The list entries of the parsed release page `n`.
pub open spec fn entry_nodes(n: Seq<(Seq<char>, int)>) -> Seq<(Seq<char>, int)> {
    children_of(selected(n, "ul[class='popanime cats']"@), "li"@)
}

/// The entry records read from the parsed release page `n`, one per entry.
pub open spec fn items_read(n: Seq<(Seq<char>, int)>, items: Seq<EggReleaseItem>) -> bool {
    &&& items.len() == entry_nodes(n).len()
    &&& forall|i: int|
        0 <= i < items.len() ==> item_read(children_of(at(entry_nodes(n), i), ""@), #[trigger] items[i])
}

fn read_items(root: &Elements<'_>) -> (items: Vec<EggReleaseItem>)
    ensures
        items_read(nodes_of(*root), items@),
{
    let results = children(&find(root, "ul[class='popanime cats']"), "li");
    let n = length(&results);
    let mut items: Vec<EggReleaseItem> = Vec::new();
    let mut k: usize = 0;
    while k < n
        invariant
            n == nodes_of(results).len(),
            all_tags(nodes_of(results)),
            nodes_of(results) == entry_nodes(nodes_of(*root)),
            k <= n,
            items@.len() == k,
            forall|i: int|
                0 <= i < k ==> item_read(children_of(at(nodes_of(results), i), ""@), #[trigger] items@[i]),
        decreases n - k,
    {
        let kids = children(&nth(&results, k), "");
        let link = find(&kids, "a.releaseLink");
        items.push(
            EggReleaseItem {
                has_link: length(&link) > 0,
                title: text(&link),
                href: attr(&link, "href"),
                image: attr(&find(&find(&kids, "div.releaseImg"), "img"), "src"),
                label: text(&find(&kids, "strong")),
            },
        );
        k = k + 1;
    }
    items
}

/// The releases from the answer to the request for the release list.
pub fn get(response: Option<String>) -> (r: Result<Vec<AnimeRelease>, ScraperError>)
    ensures
        response is None ==> (r matches Err(e) && e.reason@ == http_failure()),
        response matches Some(h) ==> (r is Err <==> !html_loads(h@)),
        r is Err && response is Some ==> r->Err_0.reason@ == parse_failure(),
        r matches Ok(list) ==> response matches Some(h) && exists|items: Seq<EggReleaseItem>|
            items_read(loaded(h@), items) && #[trigger] releases_of(items, list@),
{
    match response {
        None => Err(http_error()),
        Some(h) => match load(h.as_str()) {
            Some(root) => {
                let items = read_items(&root);
                let ghost it = items@;
                let list = releases_from_items(items);
                let r = Ok(list);
                assert(items_read(loaded(h@), it) && (r matches Ok(l) && releases_of(it, l@)));
                r
            },
            None => Err(parse_error()),
        },
    }
}

} // verus!
