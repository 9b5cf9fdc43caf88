//! The player address on an episode page of the second source.
use vstd::prelude::*;
use crate::scrapers::common::{http_error, http_failure, opt_view, parse_error, parse_failure};
use crate::scrapers::dom::{attr, attr_of, find, html_loads, length, load, loaded, selected};
use crate::text::{replace_str, replaced};
use crate::utils::types::ScraperError;

verus! {

broadcast use vstd::string::group_string_axioms;

/// The address of the episode page `ep_id`.
pub fn stream_url(base: &str, ep_id: &str) -> (r: String)
    ensures
        r@ == base@ + ep_id@,
{
    base.to_string().concat(ep_id)
}

/// The player address an episode page gives for the `src` of its video
/// frame: the frame's address made absolute on `base`, or `/error` when
/// there is no frame source.
pub open spec fn player_of(base: Seq<char>, src: Option<Seq<char>>) -> Seq<char> {
    match src {
        Some(u) => base + replaced(u, "/embed"@, "embed"@),
        None => "/error"@,
    }
}

pub fn player_from_source(base: &str, src: Option<String>) -> (r: String)
    ensures
        r@ == player_of(base@, opt_view(src)),
{
    proof {
        reveal_strlit("/embed");
        reveal_strlit("embed");
    }
    match src {
        Some(u) => base.to_string().concat(replace_str(u.as_str(), "/embed", "embed").as_str()),
        None => "/error".to_string(),
    }
}

/// The `src` of the video frame of the parsed episode page `n`, when there
/// is a frame.
pub open spec fn frame_source(n: Seq<(Seq<char>, int)>) -> Option<Seq<char>> {
    let frame = selected(n, "iframe.video"@);
    if frame.len() > 0 {
        attr_of(frame, "src"@)
    } else {
        None
    }
}

/// The player address from the answer to the request for an episode page.
pub fn get(base: &str, response: Option<String>) -> (r: Result<String, ScraperError>)
    ensures
        response is None ==> (r matches Err(e) && e.reason@ == http_failure()),
        response matches Some(h) ==> (r is Err <==> !html_loads(h@)),
        r is Err && response is Some ==> r->Err_0.reason@ == parse_failure(),
        r matches Ok(u) ==> response matches Some(h) && u@ == player_of(base@, frame_source(loaded(h@))),
{
    match response {
        None => Err(http_error()),
        Some(h) => match load(h.as_str()) {
            Some(root) => {
                let frame = find(&root, "iframe.video");
                let src = if length(&frame) > 0 {
                    attr(&frame, "src")
                } else {
                    None
                };
                let ghost sv = opt_view(src);
                let u = player_from_source(base, src);
                let r = Ok(u);
                assert(r matches Ok(x) && x@ == player_of(base@, sv));
                r
            },
            None => Err(parse_error()),
        },
    }
}

} // verus!
