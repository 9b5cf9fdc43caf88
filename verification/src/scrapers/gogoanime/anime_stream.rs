//! The embedded player address on an episode page of the first source.
use vstd::prelude::*;
use crate::scrapers::common::{http_error, http_failure, parse_error, parse_failure};
use crate::scrapers::dom::{at, attr, attr_of, find, first, html_loads, load, loaded, selected};
use crate::utils::types::ScraperError;

verus! {

broadcast use vstd::string::group_string_axioms;

/// The address of the episode page `ep_id`.
pub fn stream_url(base: &str, ep_id: &str) -> (r: String)
    ensures
        r@ == base@ + ep_id@,
{
    base.to_string().concat(ep_id)
}

/// The player address of an episode page, from the `src` of its player
/// frame (`None` when the frame has none).
pub fn stream_from_source(src: Option<String>) -> (r: Result<String, ScraperError>)
    ensures
        src matches Some(u) ==> r == Ok::<String, ScraperError>(u),
        src is None ==> (r matches Err(e) && e.reason@ == "Error getting the url"@),
{
    match src {
        Some(u) => Ok(u),
        None => Err(ScraperError { reason: "Error getting the url".to_string() }),
    }
}

/// The `src` of the player frame of the parsed episode page `n`.
pub open spec fn frame_source(n: Seq<(Seq<char>, int)>) -> Option<Seq<char>> {
    attr_of(at(selected(n, "#load_anime > div > div > iframe"@), 0), "src"@)
}

/// The player address from the answer to the request for an episode page.
pub fn get(response: Option<String>) -> (r: Result<String, ScraperError>)
    ensures
        response is None ==> (r matches Err(e) && e.reason@ == http_failure()),
        response matches Some(h) && !html_loads(h@) ==> (r matches Err(e) && e.reason@ == parse_failure()),
        response matches Some(h) ==> (html_loads(h@) ==> match frame_source(loaded(h@)) {
            Some(s) => r matches Ok(u) && u@ == s,
            None => r matches Err(e) && e.reason@ == "Error getting the url"@,
        }),
{
    match response {
        None => Err(http_error()),
        Some(h) => match load(h.as_str()) {
            Some(root) => {
                let frame = first(&find(&root, "#load_anime > div > div > iframe"));
                let src = attr(&frame, "src");
                let r = stream_from_source(src);
                r
            },
            None => Err(parse_error()),
        },
    }
}

} // verus!
