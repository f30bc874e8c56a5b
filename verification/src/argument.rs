//! One argument of a schema: what was written for it, and what follows from
//! that.
//!
//! An argument is written either as a bare string or as a mapping of fields.
//! Its short and long flag are read out of the `short` and `long` fields in
//! the `-s/--long` notation, and out of the bare string where a field is
//! absent. Its identifier is the first of: the `name` field, the long flag,
//! the short flag, the bare string.

use crate::error::Error;
use crate::node::{lemma_empty_text, Node};
use crate::shorthand::{extract_short_long_name, lemma_no_leading_hyphen_names_nothing, short_long};
use vstd::prelude::*;
use vstd::string::StrSliceExecFns;
use vstd::string::StringExecFns;

verus! {

/// What was written for one argument.
#[derive(Debug, Clone)]
pub struct Argument {
    pub bare: Option<String>,
    pub name: Option<String>,
    pub short_text: Option<String>,
    pub long_text: Option<String>,
    pub kind: Option<String>,
    pub default_value: Option<String>,
    pub help: Option<String>,
    pub choices: Option<Vec<String>>,
}

/// An argument as plain text.
pub struct ArgumentView {
    pub bare: Option<Seq<char>>,
    pub name: Option<Seq<char>>,
    pub short_text: Option<Seq<char>>,
    pub long_text: Option<Seq<char>>,
    pub kind: Option<Seq<char>>,
    pub default_value: Option<Seq<char>>,
    pub help: Option<Seq<char>>,
    pub choices: Option<Seq<Seq<char>>>,
}

impl View for Argument {
    type V = ArgumentView;

    open spec fn view(&self) -> ArgumentView {
        ArgumentView {
            bare: self.bare.deep_view(),
            name: self.name.deep_view(),
            short_text: self.short_text.deep_view(),
            long_text: self.long_text.deep_view(),
            kind: self.kind.deep_view(),
            default_value: self.default_value.deep_view(),
            help: self.help.deep_view(),
            choices: self.choices.deep_view(),
        }
    }
}

impl DeepView for Argument {
    type V = ArgumentView;

    open spec fn deep_view(&self) -> ArgumentView {
        self.view()
    }
}

/// The text of a choice: that of a text node, and nothing for any other.
pub open spec fn choice_text(node: Node) -> Seq<char> {
    match node.text() {
        Some(text) => text,
        None => Seq::empty(),
    }
}

/// The argument that a node of a schema's `args` declares.
pub open spec fn argument_of(node: Node) -> ArgumentView {
    ArgumentView {
        bare: node.text(),
        name: node.field_text("name"@),
        short_text: node.field_text("short"@),
        long_text: node.field_text("long"@),
        kind: node.field_text("type"@),
        default_value: node.field_text("default"@),
        help: node.field_text("help"@),
        choices: match node.field_items("select"@) {
            Some(items) => Some(items.map_values(|item: Node| choice_text(item))),
            None => None,
        },
    }
}

impl ArgumentView {
    /// The text that the short flag is read from: the `short` field, and the
    /// bare string where there is no such field.
    pub open spec fn short_source(self) -> Seq<char> {
        match self.short_text {
            Some(text) => text,
            None => match self.bare {
                Some(text) => text,
                None => Seq::empty(),
            },
        }
    }

    /// The text that the long flag is read from: the `long` field, and the
    /// bare string where there is no such field.
    pub open spec fn long_source(self) -> Seq<char> {
        match self.long_text {
            Some(text) => text,
            None => match self.bare {
                Some(text) => text,
                None => Seq::empty(),
            },
        }
    }

    pub open spec fn short(self) -> Option<char> {
        short_long(self.short_source()).0
    }

    pub open spec fn long(self) -> Option<Seq<char>> {
        short_long(self.long_source()).1
    }

    /// The identifier: the name, else the long flag, else the short flag,
    /// else the bare string.
    pub open spec fn id(self) -> Option<Seq<char>> {
        if self.name is Some {
            self.name
        } else if self.long() is Some {
            self.long()
        } else if self.short() is Some {
            Some(seq![self.short().unwrap()])
        } else {
            self.bare
        }
    }

    pub open spec fn typ(self) -> Seq<char> {
        match self.kind {
            Some(kind) => kind,
            None => "string"@,
        }
    }

    pub open spec fn is_flag(self) -> bool {
        self.typ() == "boolean"@
    }

    /// An argument without a flag is bound by its position.
    pub open spec fn is_positional(self) -> bool {
        self.short() is None && self.long() is None
    }
}

/// The identifier is taken from the first source that is there, in the
/// order name, long flag, short flag, bare string: a later source never
/// overrides an earlier one.
pub proof fn lemma_identifier_order(arg: ArgumentView)
    ensures
        arg.name is Some ==> arg.id() == arg.name,
        arg.name is None && arg.long() is Some ==> arg.id() == arg.long(),
        arg.name is None && arg.long() is None && arg.short() is Some ==> arg.id() == Some(
            seq![arg.short().unwrap()],
        ),
        arg.name is None && arg.long() is None && arg.short() is None ==> arg.id() == arg.bare,
{
}

/// An argument has no identifier exactly where it has no name, no flag and
/// no bare string.
pub proof fn lemma_anonymous_argument(arg: ArgumentView)
    ensures
        arg.id() is None <==> arg.name is None && arg.long() is None && arg.short() is None
            && arg.bare is None,
{
}

/// An argument for which neither a name nor a flag text nor a bare string
/// was written, such as a mapping that holds only a help text, has no
/// identifier.
pub proof fn lemma_nothing_written_is_anonymous(arg: ArgumentView)
    requires
        arg.name is None,
        arg.bare is None,
        arg.short_text is None,
        arg.long_text is None,
    ensures
        arg.id() is None,
{
    lemma_no_leading_hyphen_names_nothing(Seq::<char>::empty());
}

fn owned(text: Option<&str>) -> (copy: Option<String>)
    ensures
        copy.deep_view() == match text {
            Some(t) => Some(t@),
            None => None,
        },
{
    match text {
        Some(t) => Some(t.to_owned()),
        None => None,
    }
}

fn borrowed(text: &Option<String>) -> (slice: Option<&str>)
    ensures
        slice is Some == text is Some,
        slice is Some ==> slice.unwrap()@ == text.unwrap()@,
{
    match text {
        Some(t) => Some(t.as_str()),
        None => None,
    }
}

/// The choices that a `select` list of nodes spells out.
fn choices_of(items: &Vec<Node>) -> (choices: Vec<String>)
    ensures
        choices.deep_view() == items@.map_values(|item: Node| choice_text(item)),
{
    let mut choices: Vec<String> = Vec::new();
    let mut i: usize = 0;
    while i < items.len()
        invariant
            i <= items.len(),
            choices@.len() == i,
            forall|k: int| 0 <= k < i ==> (#[trigger] choices@[k])@ == choice_text(items@[k]),
        decreases items.len() - i,
    {
        let choice = match items[i].as_str() {
            Some(text) => text.to_owned(),
            None => String::new(),
        };
        choices.push(choice);
        i = i + 1;
    }
    assert(choices.deep_view() =~= items@.map_values(|item: Node| choice_text(item)));
    choices
}

impl Argument {
    /// Reads an argument out of a node of a schema's `args`.
    pub fn new(doc: &Node) -> (argument: Argument)
        ensures
            argument@ == argument_of(*doc),
    {
        let choices = match doc.get("select") {
            Some(node) => match node.as_vec() {
                Some(items) => Some(choices_of(items)),
                None => None,
            },
            None => None,
        };
        Argument {
            bare: owned(doc.as_str()),
            name: owned(doc.get_str("name")),
            short_text: owned(doc.get_str("short")),
            long_text: owned(doc.get_str("long")),
            kind: owned(doc.get_str("type")),
            default_value: owned(doc.get_str("default")),
            help: owned(doc.get_str("help")),
            choices,
        }
    }

    /// The whole string of an argument that was written as a single string.
    pub fn bare_name(&self) -> (text: Option<&str>)
        ensures
            text is Some == self@.bare is Some,
            text is Some ==> text.unwrap()@ == self@.bare.unwrap(),
    {
        borrowed(&self.bare)
    }

    /// The `name` field.
    pub fn name(&self) -> (text: Option<&str>)
        ensures
            text is Some == self@.name is Some,
            text is Some ==> text.unwrap()@ == self@.name.unwrap(),
    {
        borrowed(&self.name)
    }

    /// The text that the short flag is read from.
    fn short_source(&self) -> (text: &str)
        ensures
            text@ == self@.short_source(),
    {
        match &self.short_text {
            Some(text) => text.as_str(),
            None => match &self.bare {
                Some(text) => text.as_str(),
                None => {
                    proof {
                        lemma_empty_text();
                    }
                    ""
                },
            },
        }
    }

    /// The text that the long flag is read from.
    fn long_source(&self) -> (text: &str)
        ensures
            text@ == self@.long_source(),
    {
        match &self.long_text {
            Some(text) => text.as_str(),
            None => match &self.bare {
                Some(text) => text.as_str(),
                None => {
                    proof {
                        lemma_empty_text();
                    }
                    ""
                },
            },
        }
    }

    /// The short flag, such as `t` for `-t`.
    pub fn short(&self) -> (flag: Option<char>)
        ensures
            flag == self@.short(),
    {
        extract_short_long_name(self.short_source()).0
    }

    /// The long flag, such as `threads` for `--threads`.
    pub fn long(&self) -> (flag: Option<String>)
        ensures
            flag.deep_view() == self@.long(),
    {
        extract_short_long_name(self.long_source()).1
    }

    /// The identifier under which the argument is matched and written out.
    /// It is missing exactly where the argument has no name, no flag and no
    /// bare string.
    pub fn id(&self) -> (id: Result<String, Error>)
        ensures
            match id {
                Ok(text) => self@.id() == Some(text@),
                Err(e) => e is MissingArgumentName && self@.id() is None,
            },
    {
        if let Some(name) = &self.name {
            return Ok(name.clone());
        }
        if let Some(long) = self.long() {
            return Ok(long);
        }
        let source = self.short_source();
        if extract_short_long_name(source).0.is_some() {
            return Ok(source.substring_char(1, 2).to_owned());
        }
        match &self.bare {
            Some(text) => Ok(text.clone()),
            None => Err(Error::MissingArgumentName),
        }
    }

    /// The declared type; `string` where none is declared.
    pub fn typ(&self) -> (text: &str)
        ensures
            text@ == self@.typ(),
    {
        match &self.kind {
            Some(kind) => kind.as_str(),
            None => "string",
        }
    }

    /// Whether the argument is a presence flag: its type is `boolean`.
    pub fn is_flag(&self) -> (flag: bool)
        ensures
            flag == self@.is_flag(),
    {
        self.typ().to_owned() == String::from_str("boolean")
    }

    /// Whether the argument is bound by position: it has no flag.
    pub fn is_positional(&self) -> (positional: bool)
        ensures
            positional == self@.is_positional(),
    {
        self.short().is_none() && self.long().is_none()
    }

    /// The declared default; empty where none is declared.
    pub fn default(&self) -> (text: &str)
        ensures
            text@ == match self@.default_value {
                Some(value) => value,
                None => Seq::empty(),
            },
    {
        match &self.default_value {
            Some(value) => value.as_str(),
            None => {
                proof {
                    lemma_empty_text();
                }
                ""
            },
        }
    }

    pub fn help(&self) -> (text: Option<&str>)
        ensures
            text is Some == self@.help is Some,
            text is Some ==> text.unwrap()@ == self@.help.unwrap(),
    {
        borrowed(&self.help)
    }

    /// The allowed values, in the order in which they were declared.
    pub fn select(&self) -> (choices: Option<Vec<&str>>)
        ensures
            choices is Some == self@.choices is Some,
            choices is Some ==> choices.unwrap()@.len() == self@.choices.unwrap().len(),
            choices is Some ==> forall|k: int|
                0 <= k < choices.unwrap()@.len() ==> (#[trigger] choices.unwrap()@[k])@
                    == self@.choices.unwrap()[k],
    {
        match &self.choices {
            Some(list) => {
                let mut choices: Vec<&str> = Vec::new();
                let mut i: usize = 0;
                while i < list.len()
                    invariant
                        i <= list.len(),
                        choices@.len() == i,
                        forall|k: int| 0 <= k < i ==> (#[trigger] choices@[k])@ == list@[k]@,
                    decreases list.len() - i,
                {
                    choices.push(list[i].as_str());
                    i = i + 1;
                }
                Some(choices)
            },
            None => None,
        }
    }
}

} // verus!
