//! The series page of the rating site.
use vstd::prelude::*;
use visdom::types::Elements;
use crate::scrapers::common::{concat3, http_error, http_failure, opt_view, parse_error, parse_failure, texts};
use crate::scrapers::dom::{
    at, attr, attr_of, children, children_of, find, first, html_loads, length, load, loaded, nodes_of, nth,
    parent, parents_of, selected, text, text_of, texts_in,
};
use crate::text::{
    after_first, after_first_str, piece, piece_str, replace_str, replaced, trim, trim_str,
    u32_or_zero, u32_or_zero_str,
};
use crate::utils::types::{AnimeDetails, ScraperError};

verus! {

broadcast use vstd::string::group_string_axioms;

/// What the series page of the rating site holds.
pub struct MalPage {
    pub title: String,
    pub image_src: Option<String>,
    pub image_data_src: Option<String>,
    pub description: String,
    pub rating: String,
    pub genres: Vec<String>,
    /// The text of each alternative-title line (`<language>: <title>`).
    pub alt_titles: Vec<String>,
    /// The text of the block holding the `Premiered:` label.
    pub premiered: String,
    /// The text of the block holding the `Episodes:` label.
    pub episodes: String,
}

/// The address of the series page of `id`.
pub fn details_url(base: &str, id: &str) -> (r: String)
    ensures
        r@ == base@ + "anime/"@ + id@,
{
    concat3(base, "anime/", id)
}

/// The value of a labelled block: what follows the first `:`, trimmed, once
/// the block's line breaks and indentation are removed.
pub open spec fn field_value(block: Seq<char>) -> Seq<char> {
    trim(piece(replaced(block, "\n          "@, Seq::empty()), ":"@, 1))
}

/// The name an alternative-title line gives.
pub open spec fn alt_name(line: Seq<char>) -> Seq<char> {
    replaced(trim(after_first(line, ": "@)), "\n"@, Seq::empty())
}

/// The description a page gives.
pub open spec fn description_of(raw: Seq<char>) -> Seq<char> {
    trim(replaced(raw, "\n[Written by MAL Rewrite]"@, Seq::empty()))
}

/// The cover a page gives: the image's `src`, else its `data-src`.
pub open spec fn cover_of(src: Option<Seq<char>>, data_src: Option<Seq<char>>) -> Seq<char> {
    match src {
        Some(s) => s,
        None => match data_src {
            Some(s) => s,
            None => Seq::empty(),
        },
    }
}

/// The details that the page of series `id` gives.
pub open spec fn details_of(id: Seq<char>, p: MalPage, d: AnimeDetails) -> bool {
    &&& opt_view(d.title) == Some(trim(p.title@))
    &&& opt_view(d.id) == Some(id)
    &&& d.cover_url@ == cover_of(opt_view(p.image_src), opt_view(p.image_data_src))
    &&& d.description@ == description_of(p.description@)
    &&& d.rating@ == p.rating@
    &&& texts(d.genres@) == texts(p.genres@)
    &&& texts(d.other_names@) == Seq::new(p.alt_titles@.len(), |i: int| alt_name(p.alt_titles@[i]@))
    &&& opt_view(d.released) == Some(field_value(p.premiered@))
    &&& d.episodes == u32_or_zero(field_value(p.episodes@))
    &&& d.movie_id is None
    &&& d.new_ep == 0
}

fn field_value_str(block: &str) -> (r: String)
    ensures
        r@ == field_value(block@),
{
    proof {
        reveal_strlit("\n          ");
        reveal_strlit(":");
        reveal_strlit("");
        assert(""@ =~= Seq::<char>::empty());
    }
    let flat = replace_str(block, "\n          ", "");
    trim_str(piece_str(flat.as_str(), ":", 1).as_str())
}

/// The details of series `id` from what its page holds.
pub fn details_from_page(id: &str, p: MalPage) -> (d: AnimeDetails)
    ensures
        details_of(id@, p, d),
{
    let ghost g = p;
    proof {
        reveal_strlit("\n[Written by MAL Rewrite]");
        reveal_strlit(": ");
        reveal_strlit("\n");
        reveal_strlit("");
        assert(""@ =~= Seq::<char>::empty());
    }
    let mut names: Vec<String> = Vec::new();
    let mut k: usize = 0;
    while k < p.alt_titles.len()
        invariant
            0 <= k <= g.alt_titles@.len(),
            p.alt_titles == g.alt_titles,
            names@.len() == k,
            forall|i: int| 0 <= i < k ==> (#[trigger] names@[i])@ == alt_name(g.alt_titles@[i]@),
        decreases g.alt_titles@.len() - k,
    {
        proof {
            reveal_strlit(": ");
            reveal_strlit("\n");
            reveal_strlit("");
            assert(""@ =~= Seq::<char>::empty());
        }
        let rest = after_first_str(p.alt_titles[k].as_str(), ": ");
        names.push(replace_str(trim_str(rest.as_str()).as_str(), "\n", ""));
        k = k + 1;
    }
    let cover = match p.image_src {
        Some(s) => s,
        None => match p.image_data_src {
            Some(s) => s,
            None => String::new(),
        },
    };
    let mut d = AnimeDetails::new();
    d.title = Some(trim_str(p.title.as_str()));
    d.id = Some(id.to_string());
    d.cover_url = cover;
    d.description = trim_str(replace_str(p.description.as_str(), "\n[Written by MAL Rewrite]", "").as_str());
    d.rating = p.rating;
    d.genres = p.genres;
    d.other_names = names;
    d.released = Some(field_value_str(p.premiered.as_str()));
    d.episodes = u32_or_zero_str(field_value_str(p.episodes.as_str()).as_str());
    assert(texts(d.other_names@) =~= Seq::new(g.alt_titles@.len(), |i: int| alt_name(g.alt_titles@[i]@)));
    d
}

fn texts_of(e: &Elements<'_>) -> (r: Vec<String>)
    ensures
        texts(r@) == texts_in(nodes_of(*e)),
{
    let n = length(e);
    let mut out: Vec<String> = Vec::new();
    let mut k: usize = 0;
    while k < n
        invariant
            n == nodes_of(*e).len(),
            k <= n,
            out@.len() == k,
            forall|i: int| 0 <= i < k ==> (#[trigger] out@[i])@ == text_of(at(nodes_of(*e), i)),
        decreases n - k,
    {
        out.push(text(&nth(e, k)));
        k = k + 1;
    }
    assert(texts(out@) =~= texts_in(nodes_of(*e)));
    out
}

/// The page record read from the parsed page `n`: each field is the text or
/// attribute of the nodes its selector picks.
pub open spec fn page_read(n: Seq<(Seq<char>, int)>, p: MalPage) -> bool {
    let image = at(selected(n, ".leftside > div:nth-child(1) > a:nth-child(1) > img.lazyload"@), 0);
    &&& p.title@ == text_of(selected(n, ".title-name > strong:nth-child(1)"@))
    &&& opt_view(p.image_src) == attr_of(image, "src"@)
    &&& opt_view(p.image_data_src) == attr_of(image, "data-src"@)
    &&& p.description@ == text_of(selected(n, "p[itemprop='description']"@))
    &&& p.rating@ == text_of(selected(n, "span.score-label[itemprop='ratingValue']"@))
    &&& texts(p.genres@) == texts_in(selected(n, "span[itemprop='genre']"@))
    &&& texts(p.alt_titles@) == texts_in(
        children_of(selected(n, "div.js-alternative-titles"@), "div.spaceit_pad"@),
    )
    &&& p.premiered@ == text_of(parents_of(selected(n, "span:contains('Premiered:')"@), ""@))
    &&& p.episodes@ == text_of(parents_of(selected(n, "span:contains('Episodes:')"@), ""@))
}

fn read_page(root: &Elements<'_>) -> (p: MalPage)
    ensures
        page_read(nodes_of(*root), p),
{
    let image = first(&find(root, ".leftside > div:nth-child(1) > a:nth-child(1) > img.lazyload"));
    MalPage {
        title: text(&find(root, ".title-name > strong:nth-child(1)")),
        image_src: attr(&image, "src"),
        image_data_src: attr(&image, "data-src"),
        description: text(&find(root, "p[itemprop='description']")),
        rating: text(&find(root, "span.score-label[itemprop='ratingValue']")),
        genres: texts_of(&find(root, "span[itemprop='genre']")),
        alt_titles: texts_of(&children(&find(root, "div.js-alternative-titles"), "div.spaceit_pad")),
        premiered: text(&parent(&find(root, "span:contains('Premiered:')"), "")),
        episodes: text(&parent(&find(root, "span:contains('Episodes:')"), "")),
    }
}

/// The details of series `id` from the answer to the request for its page
/// (`None` when the request failed).
pub fn get(id: &str, response: Option<String>) -> (r: Result<AnimeDetails, ScraperError>)
    ensures
        response is None ==> (r matches Err(e) && e.reason@ == http_failure()),
        response matches Some(h) ==> (r is Err <==> !html_loads(h@)),
        response is Some && r is Err ==> r->Err_0.reason@ == parse_failure(),
        r matches Ok(d) ==> response matches Some(h) && exists|p: MalPage|
            page_read(loaded(h@), p) && #[trigger] details_of(id@, p, d),
{
    match response {
        None => Err(http_error()),
        Some(h) => match load(h.as_str()) {
            Some(root) => {
                let page = read_page(&root);
                let ghost p = page;
                let d = details_from_page(id, page);
                assert(page_read(loaded(h@), p) && details_of(id@, p, d));
                Ok(d)
            },
            None => Err(parse_error()),
        },
    }
}

} // verus!
