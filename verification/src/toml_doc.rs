use vstd::prelude::*;
use crate::nesting::within_nesting;
use crate::tree::{node_outcome, Entry, Node, NodeModel};

verus! {

/// What `toml::from_str` makes of a text: the document it holds, or the
/// parser's message.
pub uninterp spec fn toml_parsed(text: Seq<char>) -> Result<NodeModel, Seq<char>>;

/// `toml::Value`: a TOML value, of which nothing is known here.
#[verifier::external_type_specification]
#[verifier::external_body]
pub struct ExTomlValue(toml::Value);

/// Takes a `toml::Value` apart into a document, variant by variant; a float
/// and a date-time both become `Other`.
#[verifier::external_body]
fn node_of_toml_value(value: toml::Value) -> Node {
    match value {
        toml::Value::String(s) => Node::Text(s),
        toml::Value::Integer(i) => Node::Integer(i),
        toml::Value::Float(_) => Node::Other,
        toml::Value::Boolean(b) => Node::Bool(b),
        toml::Value::Datetime(_) => Node::Other,
        toml::Value::Array(items) => Node::List(
            items.into_iter().map(node_of_toml_value).collect(),
        ),
        toml::Value::Table(fields) => Node::Table(
            fields.into_iter().map(|(key, value)| Entry { key, value: node_of_toml_value(value) }).collect(),
        ),
    }
}

/// Calls `toml::from_str` for a `toml::Value`. The outcome, the document or
/// the error's message, depends on the text alone. The parser goes one call
/// deeper with every array and inline table that stands in another and with
/// every segment of a key, and has no limit of its own, so `requires` admits
/// only texts within the bounds on nesting.
#[verifier::external_body]
pub(crate) fn parse_toml(text: &str) -> (r: Result<Node, String>)
    requires
        within_nesting(text@),
    ensures
        node_outcome(r) == toml_parsed(text@),
{
    match toml::from_str::<toml::Value>(text) {
        Ok(value) => Ok(node_of_toml_value(value)),
        Err(e) => Err(e.to_string()),
    }
}

} // verus!
