//! A page of the full series list of the first source.
use vstd::prelude::*;
use crate::scrapers::common::{
    concat3, http_error, http_failure, opt_texts, opt_view, parse_error, parse_failure, texts,
};
use crate::scrapers::dom::{all_tags, at, attr, attr_of, find, html_loads, length, load, loaded, nodes_of, nth, selected};
use crate::text::{replace_str, replaced};
use crate::utils::types::ScraperError;

verus! {

broadcast use vstd::string::group_string_axioms;

/// The address of page `page` of the series list.
pub fn list_url(base: &str, page: &str) -> (r: String)
    ensures
        r@ == base@ + "anime-list.html?page="@ + page@,
{
    concat3(base, "anime-list.html?page=", page)
}

/// The series ids a list page gives: each link target there is, without
/// the `/category/` prefix.
pub open spec fn list_ids_of(hrefs: Seq<Option<Seq<char>>>) -> Seq<Seq<char>>
    decreases hrefs.len(),
{
    if hrefs.len() == 0 {
        Seq::empty()
    } else {
        let rest = list_ids_of(hrefs.drop_last());
        match hrefs.last() {
            Some(h) => rest.push(replaced(h, "/category/"@, Seq::empty())),
            None => rest,
        }
    }
}

pub fn list_ids(hrefs: &Vec<Option<String>>) -> (r: Vec<String>)
    ensures
        texts(r@) == list_ids_of(opt_texts(hrefs@)),
{
    proof {
        reveal_strlit("/category/");
        reveal_strlit("");
        assert(""@ =~= Seq::<char>::empty());
    }
    let ghost hv = opt_texts(hrefs@);
    let mut out: Vec<String> = Vec::new();
    let mut k: usize = 0;
    while k < hrefs.len()
        invariant
            0 <= k <= hrefs@.len(),
            hv == opt_texts(hrefs@),
            ""@ == Seq::<char>::empty(),
            "/category/"@.len() > 0,
            texts(out@) == list_ids_of(hv.take(k as int)),
        decreases hrefs@.len() - k,
    {
        assert(hv.take(k + 1).drop_last() =~= hv.take(k as int));
        let ghost before = out@;
        match &hrefs[k] {
            Some(h) => {
                out.push(replace_str(h.as_str(), "/category/", ""));
                assert(texts(out@) =~= texts(before).push(out@.last()@));
            },
            None => {},
        }
        k = k + 1;
    }
    assert(hv.take(k as int) =~= hv);
    out
}

/// The link targets of the series links of the parsed list page `n`, in
/// order.
pub open spec fn list_hrefs(n: Seq<(Seq<char>, int)>) -> Seq<Option<Seq<char>>> {
    let links = selected(n, "div.anime_list_body > ul > li > a"@);
    Seq::new(links.len(), |i: int| attr_of(at(links, i), "href"@))
}

/// The series ids of a list page, from the answer to the request for it.
pub fn get(response: Option<String>) -> (r: Result<Vec<String>, ScraperError>)
    ensures
        response is None ==> (r matches Err(e) && e.reason@ == http_failure()),
        response matches Some(h) ==> (r is Err <==> !html_loads(h@)),
        response is Some && r is Err ==> r->Err_0.reason@ == parse_failure(),
        r matches Ok(ids) ==> response matches Some(h) && texts(ids@) == list_ids_of(list_hrefs(loaded(h@))),
{
    match response {
        None => Err(http_error()),
        Some(h) => match load(h.as_str()) {
            Some(root) => {
                let links = find(&root, "div.anime_list_body > ul > li > a");
                let n = length(&links);
                let mut hrefs: Vec<Option<String>> = Vec::new();
                let mut k: usize = 0;
                while k < n
                    invariant
                        n == nodes_of(links).len(),
                        all_tags(nodes_of(links)),
                        nodes_of(links) == selected(loaded(h@), "div.anime_list_body > ul > li > a"@),
                        k <= n,
                        hrefs@.len() == k,
                        forall|i: int|
                            0 <= i < k ==> opt_view(#[trigger] hrefs@[i]) == attr_of(at(nodes_of(links), i), "href"@),
                    decreases n - k,
                {
                    hrefs.push(attr(&nth(&links, k), "href"));
                    k = k + 1;
                }
                assert(opt_texts(hrefs@) =~= list_hrefs(loaded(h@)));
                let ids = list_ids(&hrefs);
                assert(texts(ids@) == list_ids_of(opt_texts(hrefs@)));
                Ok(ids)
            },
            None => Err(parse_error()),
        },
    }
}

} // verus!
