use vstd::prelude::*;

use yaml_rust::Yaml;

use crate::node::Node;

verus! {

#[verifier::external_type_specification]
#[verifier::external_body]
pub struct ExYaml(Yaml);

#[verifier::external_type_specification]
#[verifier::external_body]
pub struct ExScanError(yaml_rust::ScanError);

/// The documents that the YAML parser reads from `text`, or `None` where it
/// rejects the text.
pub uninterp spec fn yaml_documents(text: Seq<char>) -> Option<Seq<Node>>;

/// Relies on yaml_rust::YamlLoader::load_from_str, which reads all documents
/// of the text in order, or returns a ScanError; its result depends on the
/// text alone (mappings keep their entries in document order).
#[verifier::external_body]
pub(crate) fn load_documents(text: &str) -> (r: Result<Vec<Node>, yaml_rust::ScanError>)
    ensures
        match yaml_documents(text@) {
            Some(docs) => r matches Ok(d) && d@ == docs,
            None => r is Err,
        },
{
    let docs = yaml_rust::YamlLoader::load_from_str(text)?;
    Ok(docs.into_iter().map(node_from_yaml).collect())
}

/// Moves a yaml_rust::Yaml value into the `Node` variant of the same name,
/// children included; used by `load_documents` to hand its result over.
#[verifier::external_body]
fn node_from_yaml(y: Yaml) -> Node {
    match y {
        Yaml::Real(s) => Node::Real(s),
        Yaml::Integer(n) => Node::Integer(n),
        Yaml::String(s) => Node::Str(s),
        Yaml::Boolean(b) => Node::Boolean(b),
        Yaml::Array(a) => Node::List(a.into_iter().map(node_from_yaml).collect()),
        Yaml::Hash(h) => Node::Dict(
            h.into_iter().map(|(k, v)| (node_from_yaml(k), node_from_yaml(v))).collect(),
        ),
        Yaml::Alias(n) => Node::Alias(n),
        Yaml::Null => Node::Null,
        Yaml::BadValue => Node::BadValue,
    }
}

} // verus!
