//! The series page of the first source, and its episode list.
use vstd::prelude::*;
use visdom::types::Elements;
use crate::caching::cache_anime::{opt_string, opt_text};
use crate::scrapers::common::{
    concat3, http_error, http_failure, opt_texts, opt_view, parse_error, parse_failure, texts,
};
use crate::scrapers::dom::{all_tags, 
    at, attr, attr_of, children, children_of, find, first, html_loads, length, load, loaded, nodes_of, nth,
    selected, text, text_of,
};
use crate::text::{
    contains, contains_str, ends_with, ends_with_str, lowercase, piece, piece_str, replace_str,
    replaced, split, split_str, to_lowercase, trim, trim_str, u32_or_zero, u32_or_zero_str,
    byte_len_exceeds, utf8_len,
};
use crate::utils::types::{AnimeDetails, ScraperError};

verus! {

broadcast use vstd::string::group_string_axioms;

/// A link in the type paragraphs of a series page.
pub struct GenreLink {
    pub href: Option<String>,
    pub title: Option<String>,
}

/// What the series page of the first source holds.
pub struct DetailsPage {
    pub cover: Option<String>,
    pub title: String,
    pub description: String,
    pub other_names: String,
    pub links: Vec<GenreLink>,
    /// The text of the last episode-range entry, when there is one.
    pub last_episode_range: Option<String>,
    pub movie_id: Option<String>,
}

/// The address of the series page of `id`.
pub fn details_url(base: &str, id: &str) -> (r: String)
    ensures
        r@ == base@ + "category/"@ + id@,
{
    concat3(base, "category/", id)
}

/// The description a series page gives: its text without the label, kept
/// only when longer than one byte.
pub open spec fn description_of(raw: Seq<char>) -> Seq<char> {
    let d = replaced(raw, "Plot Summary: "@, Seq::empty());
    if utf8_len(d) > 1 {
        d
    } else {
        Seq::empty()
    }
}

/// The other names a series page gives: the `; `-separated names after the
/// label, none when the first is empty.
pub open spec fn other_names_of(raw: Seq<char>) -> Seq<Seq<char>> {
    let ps = split(replaced(raw, "Other name: "@, Seq::empty()), "; "@);
    if ps.len() > 0 && ps[0].len() > 0 {
        ps
    } else {
        Seq::empty()
    }
}

/// The genre a link names: its title, when it points to a genre page whose
/// address ends with the title in lower case with dashes for spaces.
pub open spec fn genre_of(href: Option<Seq<char>>, title: Option<Seq<char>>) -> Option<Seq<char>> {
    match (href, title) {
        (Some(h), Some(t)) => if contains(h, "genre"@) && ends_with(h, replaced(lowercase(t), " "@, "-"@)) {
            Some(t)
        } else {
            None
        },
        _ => None,
    }
}

pub open spec fn link_view(l: GenreLink) -> (Option<Seq<char>>, Option<Seq<char>>) {
    (
        match l.href {
            Some(s) => Some(s@),
            None => None,
        },
        match l.title {
            Some(s) => Some(s@),
            None => None,
        },
    )
}

/// The genres the links name, in order.
pub open spec fn genres_of(links: Seq<GenreLink>) -> Seq<Seq<char>>
    decreases links.len(),
{
    if links.len() == 0 {
        Seq::empty()
    } else {
        let rest = genres_of(links.drop_last());
        let (h, t) = link_view(links.last());
        match genre_of(h, t) {
            Some(g) => rest.push(g),
            None => rest,
        }
    }
}

/// The episode count a series page gives: the upper end of the last
/// episode range (`start-end`), or 0.
pub open spec fn episode_count_of(last: Option<Seq<char>>) -> u32 {
    match last {
        Some(t) => u32_or_zero(piece(trim(t), "-"@, 1)),
        None => 0,
    }
}

/// The details that `page` gives.
pub open spec fn details_of(page: DetailsPage, d: AnimeDetails) -> bool {
    &&& d.cover_url@ == opt_text(page.cover)
    &&& opt_view(d.title) == if page.title@.len() == 0 {
        None
    } else {
        Some(page.title@)
    }
    &&& d.description@ == description_of(page.description@)
    &&& texts(d.other_names@) == other_names_of(page.other_names@)
    &&& texts(d.genres@) == genres_of(page.links@)
    &&& d.episodes == episode_count_of(
        match page.last_episode_range {
            Some(s) => Some(s@),
            None => None,
        },
    )
    &&& opt_view(d.movie_id) == opt_view(page.movie_id)
    &&& d.id is None
    &&& d.released is None
    &&& d.rating@ == Seq::<char>::empty()
    &&& d.new_ep == 0
}

fn genre_from_link(l: &GenreLink) -> (r: Option<String>)
    ensures
        match r {
            Some(s) => genre_of(link_view(*l).0, link_view(*l).1) == Some(s@),
            None => genre_of(link_view(*l).0, link_view(*l).1) is None,
        },
{
    match (&l.href, &l.title) {
        (Some(h), Some(t)) => {
            proof {
                reveal_strlit(" ");
            }
            let slug = replace_str(to_lowercase(t.as_str()).as_str(), " ", "-");
            if contains_str(h.as_str(), "genre") && ends_with_str(h.as_str(), slug.as_str()) {
                Some(t.clone())
            } else {
                None
            }
        },
        _ => None,
    }
}

/// The details of a series from what its page holds.
pub fn details_from_page(page: DetailsPage) -> (d: AnimeDetails)
    ensures
        details_of(page, d),
{
    let ghost p = page;
    let mut d = AnimeDetails::new();
    d.cover_url = opt_string(page.cover);
    d.title = if page.title.as_str().is_empty() {
        None
    } else {
        Some(page.title)
    };
    proof {
        reveal_strlit("Plot Summary: ");
        reveal_strlit("");
        assert(""@ =~= Seq::<char>::empty());
        reveal_strlit("Other name: ");
        reveal_strlit("; ");
        reveal_strlit("-");
    }
    let desc = replace_str(page.description.as_str(), "Plot Summary: ", "");
    if byte_len_exceeds(desc.as_str(), 1) {
        d.description = desc;
    }
    let stripped = replace_str(page.other_names.as_str(), "Other name: ", "");
    assert(stripped@ == replaced(p.other_names@, "Other name: "@, Seq::empty()));
    let names = split_str(stripped.as_str(), "; ");
    assert(names@.len() == split(stripped@, "; "@).len());
    if names.len() > 0 && !names[0].as_str().is_empty() {
        d.other_names = names;
        assert(texts(d.other_names@) =~= other_names_of(p.other_names@));
    } else {
        assert(texts(d.other_names@) =~= other_names_of(p.other_names@));
    }
    let mut genres: Vec<String> = Vec::new();
    let mut k: usize = 0;
    while k < page.links.len()
        invariant
            0 <= k <= p.links@.len(),
            page.links == p.links,
            texts(genres@) == genres_of(p.links@.take(k as int)),
        decreases p.links@.len() - k,
    {
        assert(p.links@.take(k + 1).drop_last() =~= p.links@.take(k as int));
        assert(p.links@.take(k + 1).last() == p.links@[k as int]);
        let ghost before = genres@;
        match genre_from_link(&page.links[k]) {
            Some(g) => {
                genres.push(g);
                assert(texts(genres@) =~= texts(before).push(genres@.last()@));
            },
            None => {},
        }
        k = k + 1;
    }
    assert(p.links@.take(k as int) =~= p.links@);
    d.genres = genres;
    d.episodes = match &page.last_episode_range {
        Some(t) => u32_or_zero_str(piece_str(trim_str(t.as_str()).as_str(), "-", 1).as_str()),
        None => 0,
    };
    d.movie_id = page.movie_id;
    d
}

/// The links read from the anchors `anchors`, one per anchor.
pub open spec fn links_read(anchors: Seq<(Seq<char>, int)>, links: Seq<GenreLink>) -> bool {
    &&& links.len() == anchors.len()
    &&& forall|i: int|
        0 <= i < links.len() ==> opt_view((#[trigger] links[i]).href) == attr_of(at(anchors, i), "href"@)
            && opt_view(links[i].title) == attr_of(at(anchors, i), "title"@)
}

/// The page record read from the parsed series page `n`.
pub open spec fn page_read(n: Seq<(Seq<char>, int)>, p: DetailsPage) -> bool {
    let ranges = selected(n, "#episode_page > li"@);
    &&& opt_view(p.cover) == attr_of(selected(n, "#wrapper_bg > section > section.content_left > div.main_body > div.anime_info_body > div.anime_info_body_bg > img"@), "src"@)
    &&& p.title@ == text_of(selected(n, "#wrapper_bg > section > section.content_left > div.main_body > div.anime_info_body > div.anime_info_body_bg > h1"@))
    &&& p.description@ == text_of(selected(n, "html body div#wrapper_inside div#wrapper div#wrapper_bg section.content section.content_left div.main_body div.anime_info_body div.anime_info_body_bg div.description"@))
    &&& p.other_names@ == text_of(selected(n, "html body div#wrapper_inside div#wrapper div#wrapper_bg section.content section.content_left div.main_body div.anime_info_body div.anime_info_body_bg p.type.other-name a"@))
    &&& links_read(selected(selected(n, "html body div#wrapper_inside div#wrapper div#wrapper_bg section.content section.content_left div.main_body div.anime_info_body div.anime_info_body_bg p.type"@), "a"@), p.links@)
    &&& opt_view(p.last_episode_range) == (if ranges.len() > 0 {
        Some(text_of(at(ranges, ranges.len() - 1)))
    } else {
        None
    })
    &&& opt_view(p.movie_id) == attr_of(at(selected(n, "input.movie_id"@), 0), "value"@)
}

/// Read what the series page holds.
fn read_details_page(root: &Elements<'_>) -> (p: DetailsPage)
    ensures
        page_read(nodes_of(*root), p),
{
    let cover = attr(
        &find(
            root,
            "#wrapper_bg > section > section.content_left > div.main_body > div.anime_info_body > div.anime_info_body_bg > img",
        ),
        "src",
    );
    let title = text(
        &find(
            root,
            "#wrapper_bg > section > section.content_left > div.main_body > div.anime_info_body > div.anime_info_body_bg > h1",
        ),
    );
    let description = text(
        &find(
            root,
            "html body div#wrapper_inside div#wrapper div#wrapper_bg section.content section.content_left div.main_body div.anime_info_body div.anime_info_body_bg div.description",
        ),
    );
    let other_names = text(
        &find(
            root,
            "html body div#wrapper_inside div#wrapper div#wrapper_bg section.content section.content_left div.main_body div.anime_info_body div.anime_info_body_bg p.type.other-name a",
        ),
    );
    let anchors = find(
        &find(
            root,
            "html body div#wrapper_inside div#wrapper div#wrapper_bg section.content section.content_left div.main_body div.anime_info_body div.anime_info_body_bg p.type",
        ),
        "a",
    );
    let mut links: Vec<GenreLink> = Vec::new();
    let n = length(&anchors);
    let mut k: usize = 0;
    while k < n
        invariant
            n == nodes_of(anchors).len(),
            all_tags(nodes_of(anchors)),
            k <= n,
            links@.len() == k,
            forall|i: int|
                0 <= i < k ==> opt_view((#[trigger] links@[i]).href) == attr_of(at(nodes_of(anchors), i), "href"@)
                    && opt_view(links@[i].title) == attr_of(at(nodes_of(anchors), i), "title"@),
        decreases n - k,
    {
        let a = nth(&anchors, k);
        links.push(GenreLink { href: attr(&a, "href"), title: attr(&a, "title") });
        k = k + 1;
    }
    let ranges = find(root, "#episode_page > li");
    let count = length(&ranges);
    let last_episode_range = if count > 0 {
        Some(text(&nth(&ranges, count - 1)))
    } else {
        None
    };
    let movie_id = attr(&first(&find(root, "input.movie_id")), "value");
    DetailsPage { cover, title, description, other_names, links, last_episode_range, movie_id }
}

/// The details of a series from the answer to the request for its page
/// (`None` when the request failed).
pub fn get(response: Option<String>) -> (r: Result<AnimeDetails, ScraperError>)
    ensures
        response is None ==> (r matches Err(e) && e.reason@ == http_failure()),
        response matches Some(h) ==> (r is Err <==> !html_loads(h@)),
        response is Some && r is Err ==> r->Err_0.reason@ == parse_failure(),
        r matches Ok(d) ==> response matches Some(h) && exists|p: DetailsPage|
            page_read(loaded(h@), p) && #[trigger] details_of(p, d),
{
    match response {
        None => Err(http_error()),
        Some(h) => match load(h.as_str()) {
            Some(root) => {
                let page = read_details_page(&root);
                let ghost p = page;
                let d = details_from_page(page);
                assert(page_read(loaded(h@), p) && details_of(p, d));
                Ok(d)
            },
            None => Err(parse_error()),
        },
    }
}

/// The address of the episode list of the series with `movie_id`.
pub fn episodes_url(ajax_base: &str, movie_id: &str) -> (r: String)
    ensures
        r@ == ajax_base@ + "load-list-episode?ep_start=0&ep_end=999999&id="@ + movie_id@,
{
    concat3(ajax_base, "load-list-episode?ep_start=0&ep_end=999999&id=", movie_id)
}

/// The episode paths a list of link targets gives: each target there is, trimmed.
pub open spec fn episode_paths_of(hrefs: Seq<Option<Seq<char>>>) -> Seq<Seq<char>>
    decreases hrefs.len(),
{
    if hrefs.len() == 0 {
        Seq::empty()
    } else {
        let rest = episode_paths_of(hrefs.drop_last());
        match hrefs.last() {
            Some(h) => rest.push(trim(h)),
            None => rest,
        }
    }
}

pub fn episode_paths(hrefs: &Vec<Option<String>>) -> (r: Vec<String>)
    ensures
        texts(r@) == episode_paths_of(opt_texts(hrefs@)),
{
    let ghost hv = opt_texts(hrefs@);
    let mut out: Vec<String> = Vec::new();
    let mut k: usize = 0;
    while k < hrefs.len()
        invariant
            0 <= k <= hrefs@.len(),
            hv == opt_texts(hrefs@),
            texts(out@) == episode_paths_of(hv.take(k as int)),
        decreases hrefs@.len() - k,
    {
        assert(hv.take(k + 1).drop_last() =~= hv.take(k as int));
        let ghost before = out@;
        match &hrefs[k] {
            Some(h) => {
                out.push(trim_str(h.as_str()));
                assert(texts(out@) =~= texts(before).push(out@.last()@));
            },
            None => {},
        }
        k = k + 1;
    }
    assert(hv.take(k as int) =~= hv);
    out
}

/// The link targets of the list entries of the parsed episode list `n`: the
/// `href` of each child of its `li` elements, in order.
pub open spec fn list_hrefs(n: Seq<(Seq<char>, int)>) -> Seq<Option<Seq<char>>> {
    let els = children_of(selected(n, "li"@), ""@);
    Seq::new(els.len(), |i: int| attr_of(at(els, i), "href"@))
}

/// The episode paths from the answer to the request for an episode list
/// (none when the request failed or the page could not be parsed).
pub fn get_episodes(response: Option<String>) -> (r: Vec<String>)
    ensures
        response is None ==> r@.len() == 0,
        response matches Some(h) && !html_loads(h@) ==> r@.len() == 0,
        response matches Some(h) ==> (html_loads(h@) ==> texts(r@) == episode_paths_of(list_hrefs(loaded(h@)))),
{
    match response {
        None => Vec::new(),
        Some(h) => match load(h.as_str()) {
            Some(root) => {
                let els = children(&find(&root, "li"), "");
                let n = length(&els);
                let mut hrefs: Vec<Option<String>> = Vec::new();
                let mut k: usize = 0;
                while k < n
                    invariant
                        n == nodes_of(els).len(),
                        all_tags(nodes_of(els)),
                        nodes_of(els) == children_of(selected(loaded(h@), "li"@), ""@),
                        k <= n,
                        hrefs@.len() == k,
                        forall|i: int|
                            0 <= i < k ==> opt_view(#[trigger] hrefs@[i]) == attr_of(at(nodes_of(els), i), "href"@),
                    decreases n - k,
                {
                    hrefs.push(attr(&nth(&els, k), "href"));
                    k = k + 1;
                }
                assert(opt_texts(hrefs@) =~= list_hrefs(loaded(h@)));
                let r = episode_paths(&hrefs);
                assert(texts(r@) == episode_paths_of(opt_texts(hrefs@)));
                r
            },
            None => Vec::new(),
        },
    }
}

} // verus!
