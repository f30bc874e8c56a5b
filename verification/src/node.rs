//! A structured document as a tree of nodes, and the few ways a schema is
//! read out of it.

use vstd::prelude::*;

verus! {

/// One node of a document. A mapping keeps its entries in the order in which
/// they were written.
#[derive(Debug)]
pub enum Node {
    Real(String),
    Integer(i64),
    Text(String),
    Boolean(bool),
    Sequence(Vec<Node>),
    Mapping(Vec<(Node, Node)>),
    Alias(usize),
    Null,
    Bad,
}

/// The empty text has no characters.
pub proof fn lemma_empty_text()
    ensures
        ""@ == Seq::<char>::empty(),
{
    reveal_strlit("");
    assert(""@ =~= Seq::<char>::empty());
}

/// The value of the first entry at or after `from` whose key is the text
/// `key`.
pub open spec fn lookup(entries: Seq<(Node, Node)>, key: Seq<char>, from: int) -> Option<Node>
    decreases entries.len() - from,
{
    if from < 0 || from >= entries.len() {
        None
    } else if entries[from].0.text() == Some(key) {
        Some(entries[from].1)
    } else {
        lookup(entries, key, from + 1)
    }
}

fn find_entry<'a>(entries: &'a Vec<(Node, Node)>, key: &str) -> (found: Option<&'a Node>)
    ensures
        found is Some == lookup(entries@, key@, 0) is Some,
        found is Some ==> *found.unwrap() == lookup(entries@, key@, 0).unwrap(),
{
    let wanted = key.to_owned();
    let mut i: usize = 0;
    while i < entries.len()
        invariant
            i <= entries.len(),
            wanted@ == key@,
            lookup(entries@, key@, 0) == lookup(entries@, key@, i as int),
        decreases entries.len() - i,
    {
        let entry = &entries[i];
        let is_key = match &entry.0 {
            Node::Text(s) => *s == wanted,
            _ => false,
        };
        if is_key {
            return Some(&entry.1);
        }
        i = i + 1;
    }
    None
}

impl Node {
    /// The characters of a text node.
    pub open spec fn text(&self) -> Option<Seq<char>> {
        match self {
            Node::Text(s) => Some(s@),
            _ => None,
        }
    }

    /// The items of a sequence node.
    pub open spec fn items(&self) -> Option<Seq<Node>> {
        match self {
            Node::Sequence(items) => Some(items@),
            _ => None,
        }
    }

    /// What a mapping node holds under the text key `key`.
    pub open spec fn field(&self, key: Seq<char>) -> Option<Node> {
        match self {
            Node::Mapping(entries) => lookup(entries@, key, 0),
            _ => None,
        }
    }

    /// The text that a mapping node holds under `key`.
    pub open spec fn field_text(&self, key: Seq<char>) -> Option<Seq<char>> {
        match self.field(key) {
            Some(node) => node.text(),
            None => None,
        }
    }

    /// The items of the sequence that a mapping node holds under `key`.
    pub open spec fn field_items(&self, key: Seq<char>) -> Option<Seq<Node>> {
        match self.field(key) {
            Some(node) => node.items(),
            None => None,
        }
    }

    pub fn as_str(&self) -> (text: Option<&str>)
        ensures
            text is Some == self.text() is Some,
            text is Some ==> text.unwrap()@ == self.text().unwrap(),
    {
        match self {
            Node::Text(s) => Some(s.as_str()),
            _ => None,
        }
    }

    pub fn as_vec(&self) -> (items: Option<&Vec<Node>>)
        ensures
            items is Some == self.items() is Some,
            items is Some ==> items.unwrap()@ == self.items().unwrap(),
    {
        match self {
            Node::Sequence(items) => Some(items),
            _ => None,
        }
    }

    /// The node that a mapping holds under the text key `key`: the value of
    /// its first such entry.
    pub fn get(&self, key: &str) -> (found: Option<&Node>)
        ensures
            found is Some == self.field(key@) is Some,
            found is Some ==> *found.unwrap() == self.field(key@).unwrap(),
    {
        match self {
            Node::Mapping(entries) => find_entry(entries, key),
            _ => None,
        }
    }

    /// The text that a mapping holds under `key`.
    pub fn get_str(&self, key: &str) -> (text: Option<&str>)
        ensures
            text is Some == self.field_text(key@) is Some,
            text is Some ==> text.unwrap()@ == self.field_text(key@).unwrap(),
    {
        match self.get(key) {
            Some(node) => node.as_str(),
            None => None,
        }
    }
}

} // verus!
