//! The HTML queries the scrapers make, through the `visdom` crate.
//!
//! An `Elements` collection is modelled by the nodes it holds (`nodes_of`),
//! each node being the text of the document it was parsed from together with
//! its place in that document. Parsing and every query are functions of the
//! document text, the nodes queried and the query's arguments alone, so each
//! query result is named by a function of those plain values; where the
//! crate's source shows the result in a few lines (`length`, `eq`, `first`),
//! it is stated outright.
use vstd::prelude::*;
use visdom::types::Elements;
use visdom::Vis;
use crate::scrapers::common::opt_view;

verus! {

#[verifier::external_type_specification]
#[verifier::external_body]
pub struct ExElements<'a>(Elements<'a>);

/// The nodes a collection holds, in order: each is the text of its document
/// and its place in that document.
pub uninterp spec fn nodes_of(e: Elements<'_>) -> Seq<(Seq<char>, int)>;

/// Whether `visdom::Vis::load` accepts `html`.
pub uninterp spec fn html_loads(html: Seq<char>) -> bool;

/// The nodes `Vis::load` gives for the document `html`.
pub uninterp spec fn loaded(html: Seq<char>) -> Seq<(Seq<char>, int)>;

/// The nodes `Elements::find` gives for `nodes` and `selector`.
pub uninterp spec fn found(nodes: Seq<(Seq<char>, int)>, selector: Seq<char>) -> Seq<(Seq<char>, int)>;

/// The nodes `Elements::children` gives for `nodes` and `selector`.
pub uninterp spec fn children_of(nodes: Seq<(Seq<char>, int)>, selector: Seq<char>) -> Seq<(Seq<char>, int)>;

/// The nodes `Elements::parent` gives for `nodes` and `selector`.
pub uninterp spec fn parents_of(nodes: Seq<(Seq<char>, int)>, selector: Seq<char>) -> Seq<(Seq<char>, int)>;

/// The text `Elements::text` gives for `nodes`.
pub uninterp spec fn text_of(nodes: Seq<(Seq<char>, int)>) -> Seq<char>;

/// The inner HTML `Elements::html` gives for `nodes`.
pub uninterp spec fn html_of(nodes: Seq<(Seq<char>, int)>) -> Seq<char>;

/// The value `Elements::attr` gives for the attribute `name` of `nodes`.
pub uninterp spec fn attr_of(nodes: Seq<(Seq<char>, int)>, name: Seq<char>) -> Option<Seq<char>>;

/// Whether `node` is a tag of its document (rather than the document itself,
/// text or a comment).
pub uninterp spec fn is_tag(node: (Seq<char>, int)) -> bool;

/// The node `node` sits directly in, if any.
pub uninterp spec fn parent_node(node: (Seq<char>, int)) -> Option<(Seq<char>, int)>;

/// Every node of `nodes` is a tag.
pub open spec fn all_tags(nodes: Seq<(Seq<char>, int)>) -> bool {
    forall|i: int| 0 <= i < nodes.len() ==> is_tag(#[trigger] nodes[i])
}

/// The first node of `nodes`, if any, is a tag: what reading an attribute or
/// the inner HTML needs.
pub open spec fn first_is_tag(nodes: Seq<(Seq<char>, int)>) -> bool {
    nodes.len() > 0 ==> is_tag(nodes[0])
}

/// The collection holding the node at `index` of `nodes` alone, or nothing.
pub open spec fn at(nodes: Seq<(Seq<char>, int)>, index: int) -> Seq<(Seq<char>, int)> {
    if 0 <= index < nodes.len() {
        seq![nodes[index]]
    } else {
        Seq::empty()
    }
}

/// What a search for `selector` below `nodes` gives: nothing below nothing.
pub open spec fn selected(nodes: Seq<(Seq<char>, int)>, selector: Seq<char>) -> Seq<(Seq<char>, int)> {
    if nodes.len() == 0 {
        Seq::empty()
    } else {
        found(nodes, selector)
    }
}

/// The text of each node of `nodes`, in order.
pub open spec fn texts_in(nodes: Seq<(Seq<char>, int)>) -> Seq<Seq<char>> {
    Seq::new(nodes.len(), |i: int| text_of(at(nodes, i)))
}

/// `Vis::load`: the document `html` parses to, or `None` when it cannot be
/// parsed.
#[verifier::external_body]
pub(crate) fn load(html: &str) -> (r: Option<Elements<'_>>)
    ensures
        r is Some <==> html_loads(html@),
        r matches Some(e) ==> nodes_of(e) == loaded(html@),
{
    match Vis::load(html) {
        Ok(e) => Some(e),
        Err(_) => None,
    }
}

/// `Elements::find`: the descendants of the nodes that match `selector`,
/// which are tags (the search walks tag children only). visdom reports a
/// selector it cannot parse through the first node's document, so the
/// collection must not be empty.
#[verifier::external_body]
fn find_below<'a>(e: &Elements<'a>, selector: &str) -> (r: Elements<'a>)
    requires
        nodes_of(*e).len() > 0,
    ensures
        nodes_of(r) == found(nodes_of(*e), selector@),
        forall|i: int| 0 <= i < nodes_of(r).len() ==> is_tag(#[trigger] nodes_of(r)[i]),
{
    e.find(selector)
}

/// The descendants of the nodes of `e` that match `selector`; nothing when
/// `e` holds nothing.
pub(crate) fn find<'a>(e: &Elements<'a>, selector: &str) -> (r: Elements<'a>)
    ensures
        nodes_of(r) == selected(nodes_of(*e), selector@),
        all_tags(nodes_of(r)),
{
    if length(e) == 0 {
        first(e)
    } else {
        find_below(e, selector)
    }
}

/// `Elements::children`: the tag children of the nodes that match
/// `selector` (all of them for an empty selector); each sits directly in a
/// node of `e`.
#[verifier::external_body]
pub(crate) fn children<'a>(e: &Elements<'a>, selector: &str) -> (r: Elements<'a>)
    ensures
        nodes_of(r) == children_of(nodes_of(*e), selector@),
        forall|i: int| 0 <= i < nodes_of(r).len() ==> is_tag(#[trigger] nodes_of(r)[i]),
        forall|i: int|
            0 <= i < nodes_of(r).len() ==> exists|j: int|
                0 <= j < nodes_of(*e).len() && parent_node(#[trigger] nodes_of(r)[i]) == Some(nodes_of(*e)[j]),
{
    e.children(selector)
}

/// `Elements::parent`: the parents of the nodes, filtered by `selector`;
/// each is the node some node of `e` sits directly in.
#[verifier::external_body]
pub(crate) fn parent<'a>(e: &Elements<'a>, selector: &str) -> (r: Elements<'a>)
    ensures
        nodes_of(r) == parents_of(nodes_of(*e), selector@),
        forall|i: int|
            0 <= i < nodes_of(r).len() ==> exists|j: int|
                0 <= j < nodes_of(*e).len() && parent_node(nodes_of(*e)[j]) == Some(#[trigger] nodes_of(r)[i]),
{
    e.parent(selector)
}

/// `Elements::first`: the first node, if any.
#[verifier::external_body]
pub(crate) fn first<'a>(e: &Elements<'a>) -> (r: Elements<'a>)
    ensures
        nodes_of(r) == at(nodes_of(*e), 0),
{
    e.first()
}

/// `Elements::eq`: the node at `index`, if any.
#[verifier::external_body]
pub(crate) fn nth<'a>(e: &Elements<'a>, index: usize) -> (r: Elements<'a>)
    ensures
        nodes_of(r) == at(nodes_of(*e), index as int),
{
    e.eq(index)
}

/// `Elements::length`: how many nodes there are.
#[verifier::external_body]
pub(crate) fn length(e: &Elements<'_>) -> (r: usize)
    ensures
        r == nodes_of(*e).len(),
{
    e.length()
}

/// `Elements::attr`: the value of the attribute `name` of the first node,
/// as text; `None` when there is no node. Only a tag has attributes: visdom
/// panics on any other first node.
#[verifier::external_body]
pub(crate) fn attr(e: &Elements<'_>, name: &str) -> (r: Option<String>)
    requires
        first_is_tag(nodes_of(*e)),
    ensures
        opt_view(r) == attr_of(nodes_of(*e), name@),
        nodes_of(*e).len() == 0 ==> r is None,
{
    match e.attr(name) {
        Some(v) => Some(v.to_string()),
        None => None,
    }
}

/// `Elements::text`: the text content of all the nodes, one after another.
#[verifier::external_body]
pub(crate) fn text(e: &Elements<'_>) -> (r: String)
    ensures
        r@ == text_of(nodes_of(*e)),
{
    e.text()
}

/// `Elements::html`: the inner HTML of the first node; empty when there is
/// no node. rphtml renders inner HTML for a tag only and panics on any other
/// first node.
#[verifier::external_body]
pub(crate) fn html(e: &Elements<'_>) -> (r: String)
    requires
        first_is_tag(nodes_of(*e)),
    ensures
        r@ == html_of(nodes_of(*e)),
        nodes_of(*e).len() == 0 ==> r@.len() == 0,
{
    e.html()
}

} // verus!
