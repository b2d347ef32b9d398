//! The serialized corpus resource, modelled as a tree of plain values.
//!
//! The corpus for each language arrives as one serialized document. The
//! `json` crate turns the document's text into its own value tree; that tree
//! is renamed, node for node, into [`JsonNode`], which holds only what the
//! corpus format reads: unsigned numbers, texts and ordered lists. All
//! shape checking then happens on [`JsonNode`], in verified code.

use vstd::prelude::*;

verus! {

broadcast use vstd::std_specs::vec::group_vec_axioms;

/// One node of a parsed resource document, as a mathematical value.
pub enum JsonNodeView {
    Num(nat),
    Text(Seq<char>),
    List(Seq<JsonNodeView>),
    Other,
}

/// One node of a parsed resource document: an unsigned number, a text, an
/// ordered list of nodes, or `Other` for anything the corpus format never
/// reads (null, booleans, objects, numbers out of range). The shape check
/// rejects `Other` wherever it appears.
pub enum JsonNode {
    Num(usize),
    Text(String),
    List(Vec<JsonNode>),
    Other,
}

/// The mathematical value of a node: numbers widen to `nat`, texts become
/// their character sequences, lists become sequences of node values.
pub open spec fn node_view(n: JsonNode) -> JsonNodeView
    decreases n,
{
    match n {
        JsonNode::Num(v) => JsonNodeView::Num(v as nat),
        JsonNode::Text(t) => JsonNodeView::Text(t@),
        JsonNode::List(items) => JsonNodeView::List(nodes_view(items@)),
        JsonNode::Other => JsonNodeView::Other,
    }
}

/// The mathematical values of a sequence of nodes, in order.
pub open spec fn nodes_view(s: Seq<JsonNode>) -> Seq<JsonNodeView>
    decreases s,
{
    if s.len() == 0 {
        Seq::empty()
    } else {
        nodes_view(s.drop_last()).push(node_view(s.last()))
    }
}

/// A sequence of nodes and its value are the same length, matched index
/// by index.
pub proof fn lemma_nodes_view(s: Seq<JsonNode>)
    ensures
        nodes_view(s).len() == s.len(),
        forall|i: int| 0 <= i < s.len() ==> nodes_view(s)[i] == node_view(s[i]),
    decreases s.len(),
{
    if s.len() > 0 {
        lemma_nodes_view(s.drop_last());
    }
}

impl View for JsonNode {
    type V = JsonNodeView;

    open spec fn view(&self) -> JsonNodeView {
        node_view(*self)
    }
}

/// `json::JsonValue`, the `json` crate's own parsed value tree, declared
/// so it can stand in a signature; the verifier sees nothing inside it.
#[verifier::external_type_specification]
#[verifier::external_body]
pub struct ExJsonValue(json::JsonValue);

/// The node tree that parsing yields for a document, abstractly: `None`
/// where the document is not valid structured data. Parsing reads nothing
/// but the document's characters, so the result is a function of them alone.
pub uninterp spec fn parsed_resource(s: Seq<char>) -> Option<JsonNodeView>;

/// What a parse result stands for: node values in place of nodes.
pub open spec fn parse_outcome(r: Option<JsonNode>) -> Option<JsonNodeView> {
    match r {
        Some(n) => Some(n@),
        None => None,
    }
}

/// Relies on `json::JsonValue`: each arm renames one of its variants into
/// the library's node tree, `as_usize` converting a number. Numbers that do
/// not fit `usize`, and variants the corpus format never reads, become
/// `Other`.
#[verifier::external_body]
fn node_of_value(v: &json::JsonValue) -> JsonNode {
    match v {
        json::JsonValue::Number(_) => match v.as_usize() {
            Some(n) => JsonNode::Num(n),
            None => JsonNode::Other,
        },
        json::JsonValue::Short(t) => JsonNode::Text(t.as_str().to_string()),
        json::JsonValue::String(t) => JsonNode::Text(t.clone()),
        json::JsonValue::Array(items) => JsonNode::List(items.iter().map(node_of_value).collect()),
        _ => JsonNode::Other,
    }
}

/// Relies on `json::parse`: it reads only the document's characters and
/// returns `Err` exactly on text that is not valid structured data, so the
/// outcome is the same on every call with the same document.
#[verifier::external_body]
pub(crate) fn parse_resource(document: &str) -> (r: Option<JsonNode>)
    ensures
        parse_outcome(r) == parsed_resource(document@),
{
    match json::parse(document) {
        Ok(v) => Some(node_of_value(&v)),
        Err(_) => None,
    }
}

} // verus!
