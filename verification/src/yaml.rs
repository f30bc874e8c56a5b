//! Reading documents out of YAML text with `yaml_rust`.

use crate::node::Node;
use vstd::prelude::*;

verus! {

#[verifier::external_type_specification]
#[verifier::external_body]
pub struct ExScanError(yaml_rust::ScanError);

#[verifier::external_type_specification]
#[verifier::external_body]
pub struct ExYaml(yaml_rust::Yaml);

/// What a `yaml_rust::Yaml` value holds, as a node: the same variant with
/// the same contents, a hash with its entries in the order of insertion.
pub uninterp spec fn yaml_node(yaml: yaml_rust::Yaml) -> Node;

/// The documents that `yaml_rust::YamlLoader::load_from_str` reads out of a
/// text, each as a node; `None` where it reports a scan error.
pub uninterp spec fn yaml_documents(text: Seq<char>) -> Option<Seq<Node>>;

/// Turns a `yaml_rust::Yaml` value into the node that it holds, variant for
/// variant. The entries of a hash come in the order in which
/// `linked_hash_map` walks them, which is the order of insertion.
#[verifier::external_body]
fn node_of_yaml(yaml: &yaml_rust::Yaml) -> (node: Node)
    ensures
        node == yaml_node(*yaml),
{
    match yaml {
        yaml_rust::Yaml::Real(v) => Node::Real(v.clone()),
        yaml_rust::Yaml::Integer(v) => Node::Integer(*v),
        yaml_rust::Yaml::String(v) => Node::Text(v.clone()),
        yaml_rust::Yaml::Boolean(v) => Node::Boolean(*v),
        yaml_rust::Yaml::Array(v) => Node::Sequence(v.iter().map(node_of_yaml).collect()),
        yaml_rust::Yaml::Hash(h) => Node::Mapping(
            h.iter().map(|(k, v)| (node_of_yaml(k), node_of_yaml(v))).collect(),
        ),
        yaml_rust::Yaml::Alias(v) => Node::Alias(*v),
        yaml_rust::Yaml::Null => Node::Null,
        yaml_rust::Yaml::BadValue => Node::Bad,
    }
}

/// Calls `yaml_rust::YamlLoader::load_from_str`. The loader is a function of
/// the text alone: it yields either the documents of the text or the scan
/// error that stopped it.
#[verifier::external_body]
fn load_from_str(source: &str) -> (loaded: Result<Vec<yaml_rust::Yaml>, yaml_rust::ScanError>)
    ensures
        match loaded {
            Ok(docs) => yaml_documents(source@) == Some(
                docs@.map_values(|doc: yaml_rust::Yaml| yaml_node(doc)),
            ),
            Err(_) => yaml_documents(source@) is None,
        },
{
    yaml_rust::YamlLoader::load_from_str(source)
}

/// Reads the documents of a text as nodes.
pub(crate) fn load_nodes(source: &str) -> (loaded: Result<Vec<Node>, yaml_rust::ScanError>)
    ensures
        match loaded {
            Ok(docs) => yaml_documents(source@) == Some(docs@),
            Err(_) => yaml_documents(source@) is None,
        },
{
    let docs = load_from_str(source)?;
    let mut nodes: Vec<Node> = Vec::new();
    let mut i: usize = 0;
    while i < docs.len()
        invariant
            i <= docs.len(),
            nodes@.len() == i,
            forall|k: int| 0 <= k < i ==> nodes@[k] == yaml_node(docs@[k]),
        decreases docs.len() - i,
    {
        nodes.push(node_of_yaml(&docs[i]));
        i = i + 1;
    }
    assert(nodes@ =~= docs@.map_values(|doc: yaml_rust::Yaml| yaml_node(doc)));
    Ok(nodes)
}

} // verus!
