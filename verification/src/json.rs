use vstd::prelude::*;
use crate::tree::{node_outcome, Entry, Node, NodeModel};

verus! {

/// The compact JSON text that `serde_json::to_string` writes for a document.
pub uninterp spec fn json_text(node: NodeModel) -> Seq<char>;

/// What `serde_json::from_str` makes of a text: the document it holds, or the
/// parser's message.
pub uninterp spec fn json_parsed(text: Seq<char>) -> Result<NodeModel, Seq<char>>;

/// Whether `a` comes strictly before `b` when texts are ordered character by
/// character, a proper prefix first.
pub open spec fn text_precedes(a: Seq<char>, b: Seq<char>) -> bool {
    exists|k: int|
        0 <= k <= a.len() && k <= b.len() && #[trigger] a.take(k) == b.take(k) && (k == a.len()
            && k < b.len() || k < a.len() && k < b.len() && (a[k] as u32) < (b[k] as u32))
}

/// Whether a document survives being written as JSON and read back: it holds
/// no `Other`, its tables list their fields in strictly increasing order of
/// name, and nothing in it is nested deeper than `depth`.
pub open spec fn json_exact(node: NodeModel, depth: nat) -> bool
    decreases depth,
{
    match node {
        NodeModel::Other => false,
        NodeModel::List(items) => depth > 0 && forall|i: int|
            0 <= i < items.len() ==> json_exact(#[trigger] items[i], (depth - 1) as nat),
        NodeModel::Table(fields) => depth > 0 && (forall|i: int, j: int|
            0 <= i < j < fields.len() ==> text_precedes(
                (#[trigger] fields[i]).0,
                (#[trigger] fields[j]).0,
            )) && forall|i: int|
            0 <= i < fields.len() ==> json_exact((#[trigger] fields[i]).1, (depth - 1) as nat),
        _ => true,
    }
}

/// `serde_json::Value`: a JSON value, of which nothing is known here.
#[verifier::external_type_specification]
#[verifier::external_body]
pub struct ExJsonValue(serde_json::Value);

/// Builds the `serde_json::Value` that stands for a document: each kind of
/// node becomes the variant of the same kind, `Other` becomes null, and a
/// table's fields are collected into a `serde_json::Map`.
#[verifier::external_body]
fn json_value_of(node: &Node) -> serde_json::Value {
    match node {
        Node::Null => serde_json::Value::Null,
        Node::Other => serde_json::Value::Null,
        Node::Bool(b) => serde_json::Value::Bool(*b),
        Node::Integer(i) => serde_json::Value::from(*i),
        Node::Text(s) => serde_json::Value::String(s.clone()),
        Node::List(items) => serde_json::Value::Array(items.iter().map(json_value_of).collect()),
        Node::Table(fields) => serde_json::Value::Object(
            fields.iter().map(|e| (e.key.clone(), json_value_of(&e.value))).collect(),
        ),
    }
}

/// Takes a `serde_json::Value` apart into a document, variant by variant; a
/// number is an `Integer` where `Number::as_i64` gives one, else `Other`.
#[verifier::external_body]
fn node_of_json_value(value: serde_json::Value) -> Node {
    match value {
        serde_json::Value::Null => Node::Null,
        serde_json::Value::Bool(b) => Node::Bool(b),
        serde_json::Value::Number(n) => match n.as_i64() {
            Some(i) => Node::Integer(i),
            None => Node::Other,
        },
        serde_json::Value::String(s) => Node::Text(s),
        serde_json::Value::Array(items) => Node::List(
            items.into_iter().map(node_of_json_value).collect(),
        ),
        serde_json::Value::Object(fields) => Node::Table(
            fields.into_iter().map(|(key, value)| Entry { key, value: node_of_json_value(value) }).collect(),
        ),
    }
}

/// Calls `serde_json::to_string` on the document's `serde_json::Value`. The
/// text depends on the document alone. Reading back the text of a document
/// that is `json_exact` gives that document: `serde_json` writes integers,
/// strings, lists and maps so that its parser restores them, keeps a map's
/// keys sorted and unique, and reads up to 127 levels of nesting.
#[verifier::external_body]
pub(crate) fn render_json(node: &Node) -> (r: String)
    ensures
        r@ == json_text(node@),
        json_exact(node@, 64) ==> json_parsed(r@) is Ok && json_parsed(r@)->Ok_0 == node@,
{
    match serde_json::to_string(&json_value_of(node)) {
        Ok(text) => text,
        Err(_) => String::new(),
    }
}

/// Calls `serde_json::from_str` for a `serde_json::Value`. The outcome, the
/// document or the error's message, depends on the text alone.
#[verifier::external_body]
pub(crate) fn parse_json(text: &str) -> (r: Result<Node, String>)
    ensures
        node_outcome(r) == json_parsed(text@),
{
    match serde_json::from_str::<serde_json::Value>(text) {
        Ok(value) => Ok(node_of_json_value(value)),
        Err(e) => Err(e.to_string()),
    }
}

} // verus!
