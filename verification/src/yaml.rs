//! YAML documents as trees of plain values. The text is read by `serde_yaml`;
//! what it finds is handed on as a `YamlNode`.
use vstd::prelude::*;

verus! {

/// A number of a YAML document.
#[derive(Clone, Debug, PartialEq, Eq)]
pub struct YamlNumber {
    /// The number, if it is an integer from 0 to `u64::MAX`.
    pub unsigned: Option<u64>,
    /// The number as text.
    pub text: String,
}

/// A node of a YAML document.
#[derive(Debug, PartialEq, Eq)]
pub enum YamlNode {
    Null,
    Bool(bool),
    Number(YamlNumber),
    Text(String),
    Sequence(Vec<YamlNode>),
    /// The entries of a mapping, key and value, in the order of the document.
    Mapping(Vec<(YamlNode, YamlNode)>),
    /// A node under a `!tag`.
    Tagged(String, Box<YamlNode>),
}

/// `serde_yaml::Value`: a document as `serde_yaml` holds it. Nothing is known
/// of what is inside.
#[verifier::external_type_specification]
#[verifier::external_body]
pub struct ExYamlValue(serde_yaml::Value);

/// `serde_yaml::Error`: why a text is no YAML document. Nothing is known of
/// what is inside.
#[verifier::external_type_specification]
#[verifier::external_body]
pub struct ExYamlError(serde_yaml::Error);

/// The document that `text` holds when it is read as YAML, or `None` where it
/// is not one YAML document.
pub uninterp spec fn yaml_document(text: Seq<char>) -> Option<YamlNode>;

/// Calls `serde_yaml::from_str` for a `serde_yaml::Value`, which reads `text`
/// as one YAML document: scalars are resolved to null, booleans, numbers and
/// strings, and mappings keep the order of their entries. What it reads
/// depends on the text alone, so the result is named `yaml_document`; the
/// value is handed on node by node as a `YamlNode`.
#[verifier::external_body]
pub(crate) fn parse_document(text: &str) -> (parsed: Result<YamlNode, serde_yaml::Error>)
    ensures
        parsed is Ok <==> yaml_document(text@) is Some,
        parsed matches Ok(node) ==> yaml_document(text@) == Some(node),
{
    serde_yaml::from_str::<serde_yaml::Value>(text).map(node_of_value)
}

/// Turns a `serde_yaml::Value` into a `YamlNode`, variant by variant. A number
/// keeps what `Number::as_u64` and its `Display` give.
#[verifier::external_body]
fn node_of_value(value: serde_yaml::Value) -> YamlNode {
    match value {
        serde_yaml::Value::Null => YamlNode::Null,
        serde_yaml::Value::Bool(b) => YamlNode::Bool(b),
        serde_yaml::Value::Number(n) => YamlNode::Number(
            YamlNumber { unsigned: n.as_u64(), text: n.to_string() },
        ),
        serde_yaml::Value::String(s) => YamlNode::Text(s),
        serde_yaml::Value::Sequence(s) => YamlNode::Sequence(s.into_iter().map(node_of_value).collect()),
        serde_yaml::Value::Mapping(m) => YamlNode::Mapping(
            m.into_iter().map(|(key, value)| (node_of_value(key), node_of_value(value))).collect(),
        ),
        serde_yaml::Value::Tagged(t) => YamlNode::Tagged(t.tag.to_string(), Box::new(node_of_value(t.value))),
    }
}

/// Calls `to_string` on a `serde_yaml::Error`: the message of a failed parse,
/// of which nothing is stated.
#[verifier::external_body]
pub(crate) fn error_message(error: &serde_yaml::Error) -> (message: String) {
    error.to_string()
}

} // verus!
