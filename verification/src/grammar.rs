//! The grammar that is handed to the matcher: one entry for each argument, in
//! the order in which the schema declares them.
//!
//! The matcher generates a help flag of its own, `-h/--help` under the
//! identifier `help`, and refuses a grammar in which two entries share an
//! identifier, a short flag or a long flag, or in which a flag is bound by
//! position. Such a grammar is told apart here, before the matcher is built.

use crate::argument::{Argument, ArgumentView};
use crate::error::Error;
use crate::shorthand::lemma_names_are_well_formed;
use vstd::prelude::*;
use vstd::string::StringExecFns;

verus! {

/// One entry of the grammar.
#[derive(Debug, Clone)]
pub struct GrammarEntry {
    pub id: String,
    pub short: Option<char>,
    pub long: Option<String>,
    /// A presence flag takes no value.
    pub flag: bool,
    pub help: Option<String>,
    pub required: bool,
}

/// A grammar entry as plain text.
pub struct EntryView {
    pub id: Seq<char>,
    pub short: Option<char>,
    pub long: Option<Seq<char>>,
    pub flag: bool,
    pub help: Option<Seq<char>>,
    pub required: bool,
}

impl View for GrammarEntry {
    type V = EntryView;

    open spec fn view(&self) -> EntryView {
        EntryView {
            id: self.id@,
            short: self.short,
            long: self.long.deep_view(),
            flag: self.flag,
            help: self.help.deep_view(),
            required: self.required,
        }
    }
}

impl DeepView for GrammarEntry {
    type V = EntryView;

    open spec fn deep_view(&self) -> EntryView {
        self.view()
    }
}

impl EntryView {
    /// An entry without a flag is bound by its position.
    pub open spec fn is_positional(self) -> bool {
        self.short is None && self.long is None
    }

    /// What the matcher asks of an entry by itself: its names do not clash
    /// with the generated help flag, a name does not start with a hyphen, it
    /// must be supplied exactly where it is bound by position, and it takes
    /// a value there.
    pub open spec fn stands_alone(self) -> bool {
        &&& self.id != "help"@
        &&& self.short != Some('h')
        &&& self.short != Some('-')
        &&& self.long != Some("help"@)
        &&& (self.long matches Some(long) ==> long.len() == 0 || long[0] != '-')
        &&& self.required == self.is_positional()
        &&& !(self.flag && self.is_positional())
    }

    /// Two entries clash where they share an identifier, a short flag or a
    /// long flag.
    pub open spec fn clashes_with(self, other: EntryView) -> bool {
        ||| self.id == other.id
        ||| (self.short is Some && self.short == other.short)
        ||| (self.long is Some && self.long == other.long)
    }
}

impl ArgumentView {
    /// The grammar entry of an argument that has an identifier: it takes a
    /// value unless it is a flag, and must be supplied exactly where it is
    /// bound by position.
    pub open spec fn entry(self) -> EntryView {
        EntryView {
            id: self.id().unwrap(),
            short: self.short(),
            long: self.long(),
            flag: self.is_flag(),
            help: self.help,
            required: self.is_positional(),
        }
    }
}

/// The grammar of a list of arguments; `None` where one of them has no
/// identifier.
pub open spec fn grammar_of(args: Seq<ArgumentView>) -> Option<Seq<EntryView>> {
    if forall|i: int| 0 <= i < args.len() ==> (#[trigger] args[i]).id() is Some {
        Some(args.map_values(|arg: ArgumentView| arg.entry()))
    } else {
        None
    }
}

/// Whether the matcher can be built from a grammar.
pub open spec fn matcher_accepts(grammar: Seq<EntryView>) -> bool {
    &&& forall|i: int| 0 <= i < grammar.len() ==> (#[trigger] grammar[i]).stands_alone()
    &&& forall|i: int, j: int|
        0 <= i < j < grammar.len() ==> !(#[trigger] grammar[i]).clashes_with(#[trigger] grammar[j])
}

/// The entry of an argument is refused by itself only for a name that the
/// matcher's help flag has taken, or for being a flag without a flag name:
/// its flags are never hyphens, and it must be supplied exactly where it is
/// bound by position.
pub proof fn lemma_entry_stands_alone(arg: ArgumentView)
    ensures
        arg.entry().stands_alone() <==> {
            &&& arg.id().unwrap() != "help"@
            &&& arg.short() != Some('h')
            &&& arg.long() != Some("help"@)
            &&& !(arg.is_flag() && arg.is_positional())
        },
{
    lemma_names_are_well_formed(arg.short_source());
    lemma_names_are_well_formed(arg.long_source());
}

impl GrammarEntry {
    /// The grammar entry of an argument; fails where it has no identifier.
    pub fn new(argument: &Argument) -> (entry: Result<GrammarEntry, Error>)
        ensures
            match entry {
                Ok(entry) => argument@.id() is Some && entry@ == argument@.entry(),
                Err(e) => e is MissingArgumentName && argument@.id() is None,
            },
    {
        let id = argument.id()?;
        let short = argument.short();
        let long = argument.long();
        let required = short.is_none() && long.is_none();
        let help = match argument.help() {
            Some(text) => Some(text.to_owned()),
            None => None,
        };
        Ok(GrammarEntry { id, short, long, flag: argument.is_flag(), help, required })
    }

    fn is_positional(&self) -> (positional: bool)
        ensures
            positional == self@.is_positional(),
    {
        self.short.is_none() && self.long.is_none()
    }

    fn stands_alone(&self) -> (alone: bool)
        ensures
            alone == self@.stands_alone(),
    {
        let positional = self.is_positional();
        let long_ok = match &self.long {
            Some(long) => !(*long == String::from_str("help")) && !starts_with_hyphen(
                long.as_str(),
            ),
            None => true,
        };
        let short_ok = match self.short {
            Some(c) => c != 'h' && c != '-',
            None => true,
        };
        !(self.id == String::from_str("help")) && short_ok && long_ok && self.required
            == positional && !(self.flag && positional)
    }

    fn clashes_with(&self, other: &GrammarEntry) -> (clash: bool)
        ensures
            clash == self@.clashes_with(other@),
    {
        let same_short = match (self.short, other.short) {
            (Some(a), Some(b)) => a == b,
            _ => false,
        };
        let same_long = match (&self.long, &other.long) {
            (Some(a), Some(b)) => *a == *b,
            _ => false,
        };
        self.id == other.id || same_short || same_long
    }
}

fn starts_with_hyphen(text: &str) -> (hyphen: bool)
    ensures
        hyphen == (text@.len() > 0 && text@[0] == '-'),
{
    let mut chars = text.chars();
    match chars.next() {
        Some(c) => c == '-',
        None => false,
    }
}

/// Tells whether the matcher can be built from a grammar.
pub fn grammar_accepted(grammar: &Vec<GrammarEntry>) -> (accepted: bool)
    ensures
        accepted == matcher_accepts(grammar.deep_view()),
{
    let n = grammar.len();
    let mut i: usize = 0;
    while i < n
        invariant
            n == grammar.len(),
            i <= n,
            forall|k: int| 0 <= k < i ==> (#[trigger] grammar.deep_view()[k]).stands_alone(),
            forall|k: int, l: int|
                0 <= k < l < n && k < i ==> !(#[trigger] grammar.deep_view()[k]).clashes_with(
                    #[trigger] grammar.deep_view()[l],
                ),
        decreases n - i,
    {
        assert(grammar.deep_view()[i as int] == grammar@[i as int]@);
        if !grammar[i].stands_alone() {
            return false;
        }
        let mut j: usize = i + 1;
        while j < n
            invariant
                n == grammar.len(),
                i < j <= n,
                forall|l: int|
                    i < l < j ==> !(grammar.deep_view()[i as int]).clashes_with(
                        #[trigger] grammar.deep_view()[l],
                    ),
            decreases n - j,
        {
            assert(grammar.deep_view()[i as int] == grammar@[i as int]@);
            assert(grammar.deep_view()[j as int] == grammar@[j as int]@);
            if grammar[i].clashes_with(&grammar[j]) {
                return false;
            }
            j = j + 1;
        }
        i = i + 1;
    }
    true
}

} // verus!
