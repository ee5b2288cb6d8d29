//! A JSON document, as far as the status decoder looks into it: what
//! stands at a JSON Pointer, by its kind and, where it is a single
//! value, by that value. The document itself stays with serde_json.

use vstd::prelude::*;

verus! {

#[verifier::external_type_specification]
#[verifier::external_body]
pub struct ExValue(serde_json::Value);

/// What stands at one place of a document.
pub enum Node {
    Null,
    Bool(bool),
    /// A number that is an integer of 64 bits.
    Integer(i64),
    /// Any other number.
    Number,
    Text(Seq<char>),
    /// A list of this many entries.
    List(nat),
    Object,
}

/// What was found at one place of a document.
#[derive(Debug, Clone, PartialEq, Eq)]
pub enum Found {
    /// The document does not reach there.
    Absent,
    Null,
    Bool(bool),
    /// A number that is an integer of 64 bits.
    Integer(i64),
    /// Any other number.
    Number,
    Text(String),
    /// A list of this many entries.
    List(usize),
    Object,
}

impl View for Found {
    type V = Option<Node>;

    open spec fn view(&self) -> Option<Node> {
        match self {
            Found::Absent => None,
            Found::Null => Some(Node::Null),
            Found::Bool(b) => Some(Node::Bool(*b)),
            Found::Integer(i) => Some(Node::Integer(*i)),
            Found::Number => Some(Node::Number),
            Found::Text(s) => Some(Node::Text(s@)),
            Found::List(n) => Some(Node::List(*n as nat)),
            Found::Object => Some(Node::Object),
        }
    }
}

/// What a document holds: for every JSON Pointer at which its `pointer`
/// finds a value, what that value is.
pub uninterp spec fn json_contents(document: serde_json::Value) -> Map<Seq<char>, Node>;

/// What the document that `from_str` of serde_json reads from `text`
/// holds; `None` where `from_str` refuses `text`.
pub uninterp spec fn json_document(text: Seq<char>) -> Option<Map<Seq<char>, Node>>;

/// What stands in a document at `pointer`, if anything.
pub open spec fn spec_node(contents: Map<Seq<char>, Node>, pointer: Seq<char>) -> Option<Node> {
    if contents.dom().contains(pointer) {
        Some(contents[pointer])
    } else {
        None
    }
}

/// `from_str` of serde_json, for a `Value`. The contract gives what the
/// document holds the name `json_document`, `None` standing for a text
/// that `from_str` refused; it claims nothing else.
#[verifier::external_body]
pub(crate) fn json_parse(text: &str) -> (res: Option<serde_json::Value>)
    ensures
        match res {
            Some(document) => json_document(text@) == Some(json_contents(document)),
            None => json_document(text@) is None,
        },
{
    serde_json::from_str(text).ok()
}

/// `pointer` of serde_json's `Value`, and of the value it finds the
/// variant and what it carries, a number by its `as_i64`, a list by its
/// `len`. The contract says that this is what the document holds at
/// `pointer`, by the name `json_contents`.
#[verifier::external_body]
pub(crate) fn json_node(document: &serde_json::Value, pointer: &str) -> (found: Found)
    ensures
        found@ == spec_node(json_contents(*document), pointer@),
{
    match document.pointer(pointer) {
        None => Found::Absent,
        Some(serde_json::Value::Null) => Found::Null,
        Some(serde_json::Value::Bool(b)) => Found::Bool(*b),
        Some(serde_json::Value::Number(n)) => n.as_i64().map_or(Found::Number, Found::Integer),
        Some(serde_json::Value::String(s)) => Found::Text(s.clone()),
        Some(serde_json::Value::Array(list)) => Found::List(list.len()),
        Some(serde_json::Value::Object(_)) => Found::Object,
    }
}

} // verus!
