//! The search results of the rating site.
use vstd::prelude::*;
use visdom::types::Elements;
use crate::scrapers::common::{concat3, http_error, http_failure, opt_view, parse_error, parse_failure};
use crate::scrapers::dom::{all_tags, 
    at, attr, attr_of, children, children_of, find, first, html_loads, length, load, loaded, nodes_of, nth,
    selected, text, text_of,
};
use crate::text::{
    byte_len_exceeds, piece, piece_str, replace_str, replaced, split, split_str, trim, trim_str,
    u32_or_zero, u32_or_zero_str, utf8_len,
};
use crate::utils::types::{AnimeDetails, ScraperError};

verus! {

broadcast use vstd::string::group_string_axioms;

/// What one result row holds.
pub struct MalRow {
    /// The `data-srcset` of the row's thumbnail.
    pub srcset: Option<String>,
    /// The `alt` of the row's thumbnail.
    pub alt: Option<String>,
    pub description: String,
    /// The text of the row's last cell.
    pub last_cell: String,
    /// The text of the first cell's first child, when the row has at least
    /// four cells.
    pub episodes_text: Option<String>,
    /// The link around the row's picture.
    pub href: Option<String>,
}

/// The query actually sent: a query longer than 100 bytes is cut down to
/// its second comma-separated part.
pub open spec fn sent_query(query: Seq<char>) -> Seq<char> {
    if utf8_len(query) > 100 {
        piece(query, ","@, 1)
    } else {
        query
    }
}

pub fn search_query(query: &str) -> (r: String)
    ensures
        r@ == sent_query(query@),
{
    proof {
        reveal_strlit(",");
    }
    if byte_len_exceeds(query, 100) {
        piece_str(query, ",", 1)
    } else {
        query.to_string()
    }
}

/// The address of the search for `query`.
pub fn search_url(base: &str, query: &str) -> (r: String)
    ensures
        r@ == base@ + "anime.php?cat=anime&q="@ + sent_query(query@),
{
    let q = search_query(query);
    concat3(base, "anime.php?cat=anime&q=", q.as_str())
}

/// The cover a thumbnail's source set gives: its third space-separated
/// part, in the large size and without the resize path.
pub open spec fn cover_of(srcset: Option<Seq<char>>) -> Seq<char> {
    match srcset {
        Some(s) => {
            let parts = split(s, " "@);
            if parts.len() >= 3 {
                replaced(replaced(parts[2], ".jpg"@, "l.jpg"@), "/r/100x140"@, Seq::empty())
            } else {
                Seq::empty()
            }
        },
        None => Seq::empty(),
    }
}

/// The id a picture link gives: the segment between `anime/` and the next
/// `/` of a link of the form `…anime/<id>/<name>`.
pub open spec fn id_of(href: Option<Seq<char>>) -> Option<Seq<char>> {
    match href {
        Some(h) => {
            let parts = split(h, "anime/"@);
            if parts.len() == 2 {
                let it = split(parts[1], "/"@);
                if it.len() == 2 {
                    Some(it[0])
                } else {
                    None
                }
            } else {
                None
            }
        },
        None => None,
    }
}

pub open spec fn text_or_empty(o: Option<Seq<char>>) -> Seq<char> {
    match o {
        Some(s) => s,
        None => Seq::empty(),
    }
}

/// The series a result row gives.
pub open spec fn result_of(row: MalRow, d: AnimeDetails) -> bool {
    &&& opt_view(d.id) == id_of(opt_view(row.href))
    &&& opt_view(d.title) == Some(text_or_empty(opt_view(row.alt)))
    &&& d.cover_url@ == cover_of(opt_view(row.srcset))
    &&& d.description@ == row.description@
    &&& d.rating@ == trim(row.last_cell@)
    &&& d.episodes == match row.episodes_text {
        Some(t) => u32_or_zero(t@),
        None => 0,
    }
    &&& d.released is None
    &&& d.movie_id is None
    &&& d.other_names@.len() == 0
    &&& d.genres@.len() == 0
    &&& d.new_ep == 0
}

/// The rows after the table's header row.
pub open spec fn body_rows(rows: Seq<MalRow>) -> Seq<MalRow> {
    if rows.len() == 0 {
        Seq::empty()
    } else {
        rows.skip(1)
    }
}

/// The series a result table gives: one per row after the header.
pub open spec fn results_of(rows: Seq<MalRow>, list: Seq<AnimeDetails>) -> bool {
    let t = body_rows(rows);
    t.len() == list.len() && forall|i: int| 0 <= i < list.len() ==> result_of(t[i], #[trigger] list[i])
}

fn cover_from_srcset(srcset: &Option<String>) -> (r: String)
    ensures
        r@ == cover_of(opt_view(*srcset)),
{
    proof {
        reveal_strlit(" ");
        reveal_strlit(".jpg");
        reveal_strlit("l.jpg");
        reveal_strlit("/r/100x140");
        reveal_strlit("");
        assert(""@ =~= Seq::<char>::empty());
    }
    match srcset {
        Some(s) => {
            let parts = split_str(s.as_str(), " ");
            if parts.len() >= 3 {
                let large = replace_str(parts[2].as_str(), ".jpg", "l.jpg");
                replace_str(large.as_str(), "/r/100x140", "")
            } else {
                String::new()
            }
        },
        None => String::new(),
    }
}

fn id_from_href(href: &Option<String>) -> (r: Option<String>)
    ensures
        opt_view(r) == id_of(opt_view(*href)),
{
    proof {
        reveal_strlit("anime/");
        reveal_strlit("/");
    }
    match href {
        Some(h) => {
            let parts = split_str(h.as_str(), "anime/");
            if parts.len() == 2 {
                let it = split_str(parts[1].as_str(), "/");
                if it.len() == 2 {
                    Some(it[0].clone())
                } else {
                    None
                }
            } else {
                None
            }
        },
        None => None,
    }
}

pub fn result_from_row(row: MalRow) -> (d: AnimeDetails)
    ensures
        result_of(row, d),
{
    let mut d = AnimeDetails::new();
    d.id = id_from_href(&row.href);
    d.cover_url = cover_from_srcset(&row.srcset);
    d.title = Some(
        match row.alt {
            Some(a) => a,
            None => String::new(),
        },
    );
    d.rating = trim_str(row.last_cell.as_str());
    d.episodes = match &row.episodes_text {
        Some(t) => u32_or_zero_str(t.as_str()),
        None => 0,
    };
    d.description = row.description;
    d
}

pub fn results_from_rows(rows: Vec<MalRow>) -> (r: Vec<AnimeDetails>)
    ensures
        results_of(rows@, r@),
{
    let ghost all = rows@;
    let mut rows = rows;
    let mut out: Vec<AnimeDetails> = Vec::new();
    if rows.len() == 0 {
        return out;
    }
    let _header = rows.remove(0);
    let ghost body = rows@;
    assert(body =~= body_rows(all));
    let total = rows.len();
    let mut k: usize = 0;
    while rows.len() > 0
        invariant
            body.len() == total,
            k + rows@.len() == body.len(),
            rows@ == body.skip(k as int),
            out@.len() == k,
            forall|i: int| 0 <= i < k ==> result_of(body[i], #[trigger] out@[i]),
        decreases rows@.len(),
    {
        let row = rows.remove(0);
        assert(row == body[k as int]);
        out.push(result_from_row(row));
        k = k + 1;
        assert(rows@ =~= body.skip(k as int));
    }
    out
}

/// The row record read from the table row `n`.
pub open spec fn row_read(n: Seq<(Seq<char>, int)>, row: MalRow) -> bool {
    let cells = children_of(n, ""@);
    let thumb = at(children_of(selected(cells, "a.hoverinfo_trigger"@), ""@), 0);
    let tds = selected(cells, "td"@);
    &&& opt_view(row.srcset) == attr_of(thumb, "data-srcset"@)
    &&& opt_view(row.alt) == attr_of(thumb, "alt"@)
    &&& row.description@ == text_of(selected(cells, "div.pt4"@))
    &&& row.last_cell@ == (if cells.len() > 0 {
        text_of(at(cells, cells.len() - 1))
    } else {
        Seq::empty()
    })
    &&& opt_view(row.episodes_text) == (if tds.len() >= 4 {
        Some(text_of(at(children_of(tds, ""@), 0)))
    } else {
        None
    })
    &&& opt_view(row.href) == attr_of(
        at(children_of(at(selected(cells, "div.picSurround"@), 0), "a"@), 0),
        "href"@,
    )
}

/// The rows of the result table of the parsed page `n`, header included.
pub open spec fn table_rows(n: Seq<(Seq<char>, int)>) -> Seq<(Seq<char>, int)> {
    children_of(selected(n, "div.js-categories-seasonal.js-block-list.list > table"@), "tr"@)
}

/// The row records read from the parsed page `n`, one per table row.
pub open spec fn rows_read(n: Seq<(Seq<char>, int)>, rows: Seq<MalRow>) -> bool {
    &&& rows.len() == table_rows(n).len()
    &&& forall|i: int| 0 <= i < rows.len() ==> row_read(at(table_rows(n), i), #[trigger] rows[i])
}

fn read_rows(root: &Elements<'_>) -> (rows: Vec<MalRow>)
    ensures
        rows_read(nodes_of(*root), rows@),
{
    let results = children(&find(root, "div.js-categories-seasonal.js-block-list.list > table"), "tr");
    let n = length(&results);
    let mut rows: Vec<MalRow> = Vec::new();
    let mut k: usize = 0;
    while k < n
        invariant
            n == nodes_of(results).len(),
            all_tags(nodes_of(results)),
            nodes_of(results) == table_rows(nodes_of(*root)),
            k <= n,
            rows@.len() == k,
            forall|i: int| 0 <= i < k ==> row_read(at(nodes_of(results), i), #[trigger] rows@[i]),
        decreases n - k,
    {
        let cells = children(&nth(&results, k), "");
        let thumb = first(&children(&find(&cells, "a.hoverinfo_trigger"), ""));
        let tds = find(&cells, "td");
        let count = length(&cells);
        let last_cell = if count > 0 {
            text(&nth(&cells, count - 1))
        } else {
            String::new()
        };
        rows.push(
            MalRow {
                srcset: attr(&thumb, "data-srcset"),
                alt: attr(&thumb, "alt"),
                description: text(&find(&cells, "div.pt4")),
                last_cell,
                episodes_text: if length(&tds) >= 4 {
                    Some(text(&first(&children(&tds, ""))))
                } else {
                    None
                },
                href: attr(&first(&children(&first(&find(&cells, "div.picSurround")), "a")), "href"),
            },
        );
        k = k + 1;
    }
    rows
}

/// The series found, from the answer to the search request.
pub fn get(response: Option<String>) -> (r: Result<Vec<AnimeDetails>, ScraperError>)
    ensures
        response is None ==> (r matches Err(e) && e.reason@ == http_failure()),
        response matches Some(h) ==> (r is Err <==> !html_loads(h@)),
        r is Err && response is Some ==> r->Err_0.reason@ == parse_failure(),
        r matches Ok(list) ==> response matches Some(h) && exists|rows: Seq<MalRow>|
            rows_read(loaded(h@), rows) && #[trigger] results_of(rows, list@),
{
    match response {
        None => Err(http_error()),
        Some(h) => match load(h.as_str()) {
            Some(root) => {
                let rows = read_rows(&root);
                let ghost rv = rows@;
                let list = results_from_rows(rows);
                let r = Ok(list);
                assert(r matches Ok(l) && rows_read(loaded(h@), rv) && results_of(rv, l@));
                r
            },
            None => Err(parse_error()),
        },
    }
}

} // verus!
