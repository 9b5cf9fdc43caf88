//! The series page of the second source, and its episode links.
use vstd::prelude::*;
use visdom::types::Elements;
use crate::caching::cache_anime::{opt_string, opt_text};
use crate::scrapers::common::{
    concat3, http_error, http_failure, opt_texts, opt_view, parse_error, parse_failure, texts,
};
use crate::scrapers::dom::{all_tags, 
    at, attr, attr_of, children, children_of, find, html, html_loads, html_of, length, load, loaded, nodes_of,
    nth, selected,
};
use crate::text::{
    replace_str, replaced, split, split_str, starts_with, starts_with_str, trim, trim_str,
    u32_or_zero, u32_or_zero_str,
};
use crate::utils::types::{AnimeDetails, ScraperError};

verus! {

broadcast use vstd::string::group_string_axioms;

/// What the series page of the second source holds.
pub struct EggDetailsPage {
    pub cover: Option<String>,
    pub title_html: String,
    pub description_html: String,
    /// The inner HTML of each entry of the information paragraph, in order.
    pub infos: Vec<String>,
}

/// The address of the series page of `id`.
pub fn details_url(base: &str, id: &str) -> (r: String)
    ensures
        r@ == base@ + "series/"@ + id@,
{
    concat3(base, "series/", id)
}

/// The episode count an information entry gives, when it is the episode entry.
pub open spec fn info_episodes(info: Seq<char>) -> Option<u32> {
    if starts_with(info, "Episodes:"@) {
        Some(u32_or_zero(trim(replaced(info, "Episodes: "@, Seq::empty()))))
    } else {
        None
    }
}

/// The other names an information entry gives, when it is the alternate
/// titles entry.
pub open spec fn info_names(info: Seq<char>) -> Option<Seq<Seq<char>>> {
    if !starts_with(info, "Episodes:"@) && starts_with(info, "Alternate"@) {
        Some(split(replaced(info, "Alternate Titles: "@, Seq::empty()), "; "@))
    } else {
        None
    }
}

/// The episode count of the last episode entry, or 0.
pub open spec fn episodes_of(infos: Seq<Seq<char>>) -> u32
    decreases infos.len(),
{
    if infos.len() == 0 {
        0
    } else {
        match info_episodes(infos.last()) {
            Some(n) => n,
            None => episodes_of(infos.drop_last()),
        }
    }
}

/// The names of the last alternate titles entry, or none.
pub open spec fn names_of(infos: Seq<Seq<char>>) -> Seq<Seq<char>>
    decreases infos.len(),
{
    if infos.len() == 0 {
        Seq::empty()
    } else {
        match info_names(infos.last()) {
            Some(ns) => ns,
            None => names_of(infos.drop_last()),
        }
    }
}

/// The details that the page of series `id` gives.
pub open spec fn details_of(id: Seq<char>, page: EggDetailsPage, d: AnimeDetails) -> bool {
    &&& d.cover_url@ == opt_text(page.cover)
    &&& opt_view(d.title) == Some(page.title_html@)
    &&& d.description@ == page.description_html@
    &&& match d.id {
        Some(s) => s@ == id,
        None => false,
    }
    &&& d.episodes == episodes_of(texts(page.infos@))
    &&& texts(d.other_names@) == names_of(texts(page.infos@))
    &&& d.released is None
    &&& d.movie_id is None
    &&& d.genres@.len() == 0
    &&& d.rating@ == Seq::<char>::empty()
    &&& d.new_ep == 0
}

/// The details of series `id` from what its page holds.
pub fn details_from_page(id: &str, page: EggDetailsPage) -> (d: AnimeDetails)
    ensures
        details_of(id@, page, d),
{
    let ghost infos = texts(page.infos@);
    proof {
        reveal_strlit("Episodes:");
        reveal_strlit("Episodes: ");
        reveal_strlit("Alternate");
        reveal_strlit("Alternate Titles: ");
        reveal_strlit("; ");
        reveal_strlit("");
        assert(""@ =~= Seq::<char>::empty());
    }
    let mut episodes: u32 = 0;
    let mut names: Vec<String> = Vec::new();
    let mut k: usize = 0;
    assert(infos.take(0) =~= Seq::<Seq<char>>::empty());
    while k < page.infos.len()
        invariant
            0 <= k <= page.infos@.len(),
            infos == texts(page.infos@),
            episodes == episodes_of(infos.take(k as int)),
            texts(names@) == names_of(infos.take(k as int)),
        decreases page.infos@.len() - k,
    {
        proof {
            reveal_strlit("Episodes:");
            reveal_strlit("Episodes: ");
            reveal_strlit("Alternate");
            reveal_strlit("Alternate Titles: ");
            reveal_strlit("; ");
            reveal_strlit("");
            assert(""@ =~= Seq::<char>::empty());
        }
        let info = page.infos[k].as_str();
        assert(infos.take(k + 1).drop_last() =~= infos.take(k as int));
        assert(infos.take(k + 1).last() == info@);
        if starts_with_str(info, "Episodes:") {
            let body = replace_str(info, "Episodes: ", "");
            episodes = u32_or_zero_str(trim_str(body.as_str()).as_str());
        } else if starts_with_str(info, "Alternate") {
            let body = replace_str(info, "Alternate Titles: ", "");
            names = split_str(body.as_str(), "; ");
            assert(texts(names@) =~= split(body@, "; "@));
        }
        k = k + 1;
    }
    assert(infos.take(k as int) =~= infos);
    let mut d = AnimeDetails::new();
    d.cover_url = opt_string(page.cover);
    d.title = Some(page.title_html);
    d.description = page.description_html;
    d.id = Some(id.to_string());
    d.episodes = episodes;
    d.other_names = names;
    d
}

/// The page record read from the parsed series page `n`.
pub open spec fn page_read(n: Seq<(Seq<char>, int)>, p: EggDetailsPage) -> bool {
    let entries = children_of(selected(n, "p.infoami"@), ""@);
    &&& opt_view(p.cover) == attr_of(selected(n, "body > div.navbar.navbar-inverse.bs-docs-nav > div.fattynav > div.fattynavinside > div > div > a > img"@), "src"@)
    &&& p.title_html@ == html_of(selected(n, "body > div.navbar.navbar-inverse.bs-docs-nav > div.fattynav > div.fattynavinside > div > div > div > div.first > h1"@))
    &&& p.description_html@ == html_of(selected(n, "body > div.navbar.navbar-inverse.bs-docs-nav > div.fattynav > div.container > p"@))
    &&& texts(p.infos@) == Seq::new(entries.len(), |i: int| html_of(at(entries, i)))
}

fn read_page(root: &Elements<'_>) -> (p: EggDetailsPage)
    ensures
        page_read(nodes_of(*root), p),
{
    let cover = attr(
        &find(
            root,
            "body > div.navbar.navbar-inverse.bs-docs-nav > div.fattynav > div.fattynavinside > div > div > a > img",
        ),
        "src",
    );
    let title_html = html(
        &find(
            root,
            "body > div.navbar.navbar-inverse.bs-docs-nav > div.fattynav > div.fattynavinside > div > div > div > div.first > h1",
        ),
    );
    let description_html = html(
        &find(root, "body > div.navbar.navbar-inverse.bs-docs-nav > div.fattynav > div.container > p"),
    );
    let entries = children(&find(root, "p.infoami"), "");
    let n = length(&entries);
    let mut infos: Vec<String> = Vec::new();
    let mut k: usize = 0;
    while k < n
        invariant
            n == nodes_of(entries).len(),
            all_tags(nodes_of(entries)),
            k <= n,
            infos@.len() == k,
            forall|i: int| 0 <= i < k ==> (#[trigger] infos@[i])@ == html_of(at(nodes_of(entries), i)),
        decreases n - k,
    {
        infos.push(html(&nth(&entries, k)));
        k = k + 1;
    }
    assert(texts(infos@) =~= Seq::new(nodes_of(entries).len(), |i: int| html_of(at(nodes_of(entries), i))));
    EggDetailsPage { cover, title_html, description_html, infos }
}

/// The details of series `id` from the answer to the request for its page
/// (`None` when the request failed).
pub fn get(id: &str, response: Option<String>) -> (r: Result<AnimeDetails, ScraperError>)
    ensures
        response is None ==> (r matches Err(e) && e.reason@ == http_failure()),
        response matches Some(h) ==> (r is Err <==> !html_loads(h@)),
        response is Some && r is Err ==> r->Err_0.reason@ == parse_failure(),
        r matches Ok(d) ==> response matches Some(h) && exists|p: EggDetailsPage|
            page_read(loaded(h@), p) && #[trigger] details_of(id@, p, d),
{
    match response {
        None => Err(http_error()),
        Some(h) => match load(h.as_str()) {
            Some(root) => {
                let page = read_page(&root);
                let ghost p = page;
                let d = details_from_page(id, page);
                assert(page_read(loaded(h@), p) && details_of(id@, p, d));
                Ok(d)
            },
            None => Err(parse_error()),
        },
    }
}

/// The episode id a link target gives: trimmed, with every `/` removed.
pub open spec fn episode_id_of(href: Seq<char>) -> Seq<char> {
    replaced(trim(href), "/"@, Seq::empty())
}

/// The episode ids of the links that have a target, in order.
pub open spec fn episode_ids_of(hrefs: Seq<Option<Seq<char>>>) -> Seq<Seq<char>>
    decreases hrefs.len(),
{
    if hrefs.len() == 0 {
        Seq::empty()
    } else {
        let rest = episode_ids_of(hrefs.drop_last());
        match hrefs.last() {
            Some(h) => rest.push(episode_id_of(h)),
            None => rest,
        }
    }
}

pub fn episode_ids(hrefs: &Vec<Option<String>>) -> (r: Vec<String>)
    ensures
        texts(r@) == episode_ids_of(opt_texts(hrefs@)),
{
    let ghost hv = opt_texts(hrefs@);
    let mut out: Vec<String> = Vec::new();
    let mut k: usize = 0;
    while k < hrefs.len()
        invariant
            0 <= k <= hrefs@.len(),
            hv == opt_texts(hrefs@),
            texts(out@) == episode_ids_of(hv.take(k as int)),
        decreases hrefs@.len() - k,
    {
        proof {
            reveal_strlit("/");
            reveal_strlit("");
            assert(""@ =~= Seq::<char>::empty());
        }
        assert(hv.take(k + 1).drop_last() =~= hv.take(k as int));
        let ghost before = out@;
        match &hrefs[k] {
            Some(h) => {
                out.push(replace_str(trim_str(h.as_str()).as_str(), "/", ""));
                assert(texts(out@) =~= texts(before).push(out@.last()@));
            },
            None => {},
        }
        k = k + 1;
    }
    assert(hv.take(k as int) =~= hv);
    out
}

/// The link targets of the episode links of the parsed series page `n`, in
/// order.
pub open spec fn episode_hrefs(n: Seq<(Seq<char>, int)>) -> Seq<Option<Seq<char>>> {
    let els = selected(n, "a.anm_det_pop"@);
    Seq::new(els.len(), |i: int| attr_of(at(els, i), "href"@))
}

/// The episode ids from the answer to the request for a series page (none
/// when the request failed or the page could not be parsed).
pub fn get_episodes(response: Option<String>) -> (r: Vec<String>)
    ensures
        response is None ==> r@.len() == 0,
        response matches Some(h) && !html_loads(h@) ==> r@.len() == 0,
        response matches Some(h) ==> (html_loads(h@) ==> texts(r@) == episode_ids_of(episode_hrefs(loaded(h@)))),
{
    match response {
        None => Vec::new(),
        Some(h) => match load(h.as_str()) {
            Some(root) => {
                let els = find(&root, "a.anm_det_pop");
                let n = length(&els);
                let mut hrefs: Vec<Option<String>> = Vec::new();
                let mut k: usize = 0;
                while k < n
                    invariant
                        n == nodes_of(els).len(),
                        all_tags(nodes_of(els)),
                        nodes_of(els) == selected(loaded(h@), "a.anm_det_pop"@),
                        k <= n,
                        hrefs@.len() == k,
                        forall|i: int|
                            0 <= i < k ==> opt_view(#[trigger] hrefs@[i]) == attr_of(at(nodes_of(els), i), "href"@),
                    decreases n - k,
                {
                    hrefs.push(attr(&nth(&els, k), "href"));
                    k = k + 1;
                }
                assert(opt_texts(hrefs@) =~= episode_hrefs(loaded(h@)));
                let r = episode_ids(&hrefs);
                assert(texts(r@) == episode_ids_of(opt_texts(hrefs@)));
                r
            },
            None => Vec::new(),
        },
    }
}

} // verus!
