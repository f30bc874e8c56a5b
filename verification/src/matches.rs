//! What the matcher found for each argument.

use vstd::prelude::*;

verus! {

/// What was matched for one argument.
#[derive(Debug)]
pub enum Matched {
    /// A presence flag, and whether it was given.
    Flag(bool),
    /// A value-taking argument, and the value it was given, if any.
    Value(Option<String>),
}

/// What was matched for one argument, as plain text.
pub enum MatchedView {
    Flag(bool),
    Value(Option<Seq<char>>),
}

impl View for Matched {
    type V = MatchedView;

    open spec fn view(&self) -> MatchedView {
        match self {
            Matched::Flag(given) => MatchedView::Flag(*given),
            Matched::Value(value) => MatchedView::Value(value.deep_view()),
        }
    }
}

/// What the first entry at or after `from` that stands under `id` holds.
pub open spec fn first_match(entries: Seq<(String, Matched)>, id: Seq<char>, from: int) -> Option<
    MatchedView,
>
    decreases entries.len() - from,
{
    if from < 0 || from >= entries.len() {
        None
    } else if entries[from].0@ == id {
        Some(entries[from].1@)
    } else {
        first_match(entries, id, from + 1)
    }
}

/// Whether the flag `id` was given: a flag that was not matched at all
/// counts as not given.
pub open spec fn flag_given(found: Map<Seq<char>, MatchedView>, id: Seq<char>) -> bool {
    found.dom().contains(id) && found[id] == MatchedView::Flag(true)
}

/// The value that the argument `id` was given, if any.
pub open spec fn value_given(found: Map<Seq<char>, MatchedView>, id: Seq<char>) -> Option<
    Seq<char>,
> {
    if found.dom().contains(id) {
        match found[id] {
            MatchedView::Value(value) => value,
            MatchedView::Flag(_) => None,
        }
    } else {
        None
    }
}

/// The outcome of matching, queried by identifier. Where an identifier
/// occurs more than once, its first entry counts.
#[derive(Debug)]
pub struct MatchResult {
    pub entries: Vec<(String, Matched)>,
}

impl View for MatchResult {
    type V = Map<Seq<char>, MatchedView>;

    open spec fn view(&self) -> Map<Seq<char>, MatchedView> {
        Map::new(
            |id: Seq<char>| first_match(self.entries@, id, 0) is Some,
            |id: Seq<char>| first_match(self.entries@, id, 0).unwrap(),
        )
    }
}

impl MatchResult {
    pub fn new() -> (result: MatchResult)
        ensures
            result@ == Map::<Seq<char>, MatchedView>::empty(),
    {
        let result = MatchResult { entries: Vec::new() };
        assert(result@ =~= Map::<Seq<char>, MatchedView>::empty());
        result
    }

    /// Records what was matched for `id`. An earlier record for the same
    /// identifier stays in force.
    pub fn record(&mut self, id: String, matched: Matched)
        ensures
            final(self)@ == if old(self)@.dom().contains(id@) {
                old(self)@
            } else {
                old(self)@.insert(id@, matched@)
            },
    {
        let ghost before = self.entries@;
        self.entries.push((id, matched));
        proof {
            let after = self.entries@;
            assert forall|key: Seq<char>|
                first_match(after, key, 0) == match first_match(before, key, 0) {
                    Some(found) => Some(found),
                    None => if key == id@ {
                        Some(matched@)
                    } else {
                        None
                    },
                } by {
                lemma_first_match_push(before, (id, matched), key, 0);
            }
            assert(final(self)@ =~= if old(self)@.dom().contains(id@) {
                old(self)@
            } else {
                old(self)@.insert(id@, matched@)
            });
        }
    }

    fn find(&self, id: &str) -> (found: Option<&Matched>)
        ensures
            found is Some == self@.dom().contains(id@),
            found is Some ==> found.unwrap()@ == self@[id@],
    {
        let wanted = id.to_owned();
        let mut i: usize = 0;
        while i < self.entries.len()
            invariant
                i <= self.entries.len(),
                wanted@ == id@,
                first_match(self.entries@, id@, 0) == first_match(self.entries@, id@, i as int),
            decreases self.entries.len() - i,
        {
            let entry = &self.entries[i];
            if entry.0 == wanted {
                return Some(&entry.1);
            }
            i = i + 1;
        }
        None
    }

    /// Whether the flag `id` was given.
    pub fn flag(&self, id: &str) -> (given: bool)
        ensures
            given == flag_given(self@, id@),
    {
        match self.find(id) {
            Some(Matched::Flag(given)) => *given,
            _ => false,
        }
    }

    /// The value that the argument `id` was given, if any.
    pub fn value(&self, id: &str) -> (value: Option<&str>)
        ensures
            value is Some == value_given(self@, id@) is Some,
            value is Some ==> value.unwrap()@ == value_given(self@, id@).unwrap(),
    {
        match self.find(id) {
            Some(Matched::Value(Some(text))) => Some(text.as_str()),
            _ => None,
        }
    }
}

/// Appending an entry changes what is found only for its own identifier, and
/// only where nothing stood under it before.
proof fn lemma_first_match_push(
    entries: Seq<(String, Matched)>,
    entry: (String, Matched),
    id: Seq<char>,
    from: int,
)
    requires
        0 <= from <= entries.len(),
    ensures
        first_match(entries.push(entry), id, from) == match first_match(entries, id, from) {
            Some(found) => Some(found),
            None => if id == entry.0@ {
                Some(entry.1@)
            } else {
                None
            },
        },
    decreases entries.len() - from,
{
    let extended = entries.push(entry);
    if from < entries.len() {
        assert(extended[from] == entries[from]);
        if entries[from].0@ != id {
            lemma_first_match_push(entries, entry, id, from + 1);
        }
    } else {
        assert(extended[from] == entry);
        assert(first_match(extended, id, from + 1) is None);
    }
}

} // verus!
