//! The matcher: `clap`, built from a grammar and run on a token stream.
//!
//! `clap` values are opaque here. What is said of them is said through the
//! names below: what an `Arg` was set to, what a `Command` was given, and
//! what an `ArgMatches` holds for each declared identifier.

use crate::error::{Error, FailureView, MatchFailure};
use crate::grammar::{matcher_accepts, EntryView, GrammarEntry};
use crate::matches::{MatchResult, Matched, MatchedView};
use vstd::prelude::*;
use vstd::string::StringExecFns;

verus! {

#[verifier::external_type_specification]
#[verifier::external_body]
pub struct ExArg(clap::Arg);

#[verifier::external_type_specification]
#[verifier::external_body]
pub struct ExCommand(clap::Command);

#[verifier::external_type_specification]
#[verifier::external_body]
pub struct ExArgMatches(clap::ArgMatches);

/// What a `clap::Arg` was set to: its identifier, its short and long flag,
/// whether its action is `SetTrue`, its help text, and whether it is
/// required.
pub uninterp spec fn arg_entry(arg: clap::Arg) -> EntryView;

/// The name that a `clap::Command` was made with.
pub uninterp spec fn command_name(command: clap::Command) -> Seq<char>;

/// The description that a `clap::Command` was given.
pub uninterp spec fn command_about(command: clap::Command) -> Option<Seq<char>>;

/// The arguments that were added to a `clap::Command`, in the order in which
/// they were added.
pub uninterp spec fn command_entries(command: clap::Command) -> Seq<EntryView>;

/// What a `clap::ArgMatches` holds for each identifier that was declared to
/// the command it came from: for a `SetTrue` argument whether it was given,
/// for any other the first value it was given.
pub uninterp spec fn matched_by(matches: clap::ArgMatches) -> Map<Seq<char>, MatchedView>;

/// What `clap::Command::try_get_matches_from` finds when a command with the
/// arguments `grammar` is run on `tokens`, the first of which stands for the
/// program; `None` where it reports an error.
pub uninterp spec fn matcher_result(grammar: Seq<EntryView>, tokens: Seq<Seq<char>>) -> Option<
    Map<Seq<char>, MatchedView>,
>;

/// The failure that `clap::Command::try_get_matches_from` reports, where it
/// reports one, when a command of this name, with this description and the
/// arguments `grammar`, is run on `tokens`: the message as it is displayed,
/// without styling, the stream that it is meant for, and the exit status.
pub uninterp spec fn matcher_failure(
    name: Seq<char>,
    about: Option<Seq<char>>,
    grammar: Seq<EntryView>,
    tokens: Seq<Seq<char>>,
) -> FailureView;

/// Calls `clap::Command::new`, which makes a command of that name with no
/// description and no arguments.
#[verifier::external_body]
fn command_new(name: String) -> (command: clap::Command)
    ensures
        command_name(command) == name@,
        command_about(command) is None,
        command_entries(command) == Seq::<EntryView>::empty(),
{
    clap::Command::new(name)
}

/// Calls `clap::Command::about`, which sets the description and nothing
/// else.
#[verifier::external_body]
fn command_with_about(command: clap::Command, about: String) -> (described: clap::Command)
    ensures
        command_name(described) == command_name(command),
        command_about(described) == Some(about@),
        command_entries(described) == command_entries(command),
{
    command.about(about)
}

/// Calls `clap::Command::arg`, which appends the argument to those of the
/// command.
#[verifier::external_body]
fn command_with_arg(command: clap::Command, arg: clap::Arg) -> (extended: clap::Command)
    ensures
        command_name(extended) == command_name(command),
        command_about(extended) == command_about(command),
        command_entries(extended) == command_entries(command).push(arg_entry(arg)),
{
    command.arg(arg)
}

/// Calls `clap::Arg::new`, which makes an argument with that identifier and
/// every other setting at its default: no flag, no action, no help, not
/// required.
#[verifier::external_body]
fn arg_new(id: String) -> (arg: clap::Arg)
    ensures
        arg_entry(arg) == (EntryView {
            id: id@,
            short: None,
            long: None,
            flag: false,
            help: None,
            required: false,
        }),
{
    clap::Arg::new(id)
}

/// Calls `clap::Arg::short`, which sets the short flag. It asserts that the
/// flag is not a hyphen.
#[verifier::external_body]
fn arg_with_short(arg: clap::Arg, short: char) -> (named: clap::Arg)
    requires
        short != '-',
    ensures
        arg_entry(named) == (EntryView { short: Some(short), ..arg_entry(arg) }),
{
    arg.short(short)
}

/// Calls `clap::Arg::long`, which sets the long flag.
#[verifier::external_body]
fn arg_with_long(arg: clap::Arg, long: String) -> (named: clap::Arg)
    ensures
        arg_entry(named) == (EntryView { long: Some(long@), ..arg_entry(arg) }),
{
    arg.long(long)
}

/// Calls `clap::Arg::action` with `ArgAction::SetTrue`, which makes the
/// argument a presence flag.
#[verifier::external_body]
fn arg_set_true(arg: clap::Arg) -> (flag: clap::Arg)
    ensures
        arg_entry(flag) == (EntryView { flag: true, ..arg_entry(arg) }),
{
    arg.action(clap::ArgAction::SetTrue)
}

/// Calls `clap::Arg::help`, which sets the help text.
#[verifier::external_body]
fn arg_with_help(arg: clap::Arg, help: String) -> (described: clap::Arg)
    ensures
        arg_entry(described) == (EntryView { help: Some(help@), ..arg_entry(arg) }),
{
    arg.help(help)
}

/// Calls `clap::Arg::required`, which sets or clears the requirement.
#[verifier::external_body]
fn arg_required(arg: clap::Arg, yes: bool) -> (set: clap::Arg)
    ensures
        arg_entry(set) == (EntryView { required: yes, ..arg_entry(arg) }),
{
    arg.required(yes)
}

/// Calls `clap::Command::try_get_matches_from`. On contradictory arguments
/// it panics in builds with debug assertions: `matcher_accepts` leaves out
/// the grammars for which its assertions fail. Its outcome is a function of
/// the command's arguments and the tokens. What it matched holds an entry
/// for each declared identifier and for no other: a `SetTrue` argument
/// always has its flag, defaulting to `false`, and any other argument has a
/// value or none. An error is handed out as the message that it displays,
/// the stream that it is meant for, and its exit status, which is 2 for the
/// error stream and 0 for the other. The message is a function of the
/// command and the tokens; it shows the program under the name that is read
/// out of the first token as a path, so the tokens are to start with the
/// placeholder, which reads the same on every machine.
#[verifier::external_body]
fn try_get_matches_from(command: clap::Command, tokens: Vec<String>) -> (outcome: Result<
    clap::ArgMatches,
    MatchFailure,
>)
    requires
        matcher_accepts(command_entries(command)),
        starts_with_placeholder(tokens.deep_view()),
    ensures
        match outcome {
            Ok(matches) => {
                &&& matcher_result(command_entries(command), tokens.deep_view()) == Some(
                    matched_by(matches),
                )
                &&& holds_each(matched_by(matches), command_entries(command))
            },
            Err(failure) => {
                &&& matcher_result(command_entries(command), tokens.deep_view()) is None
                &&& failure@ == matcher_failure(
                    command_name(command),
                    command_about(command),
                    command_entries(command),
                    tokens.deep_view(),
                )
                &&& failure.exit_code == if failure.use_stderr {
                    2i32
                } else {
                    0i32
                }
            },
        },
{
    match command.try_get_matches_from(tokens) {
        Ok(matches) => Ok(matches),
        Err(e) => Err(
            MatchFailure {
                message: e.to_string(),
                use_stderr: e.use_stderr(),
                exit_code: e.exit_code(),
            },
        ),
    }
}

/// Calls `clap::ArgMatches::get_flag`, which panics unless the identifier
/// was declared with a `SetTrue` action, and else tells whether the flag was
/// given.
#[verifier::external_body]
fn get_flag(matches: &clap::ArgMatches, id: &str) -> (given: bool)
    requires
        matched_by(*matches).dom().contains(id@),
        matched_by(*matches)[id@] is Flag,
    ensures
        matched_by(*matches)[id@] == MatchedView::Flag(given),
{
    matches.get_flag(id)
}

/// Calls `clap::ArgMatches::get_one` for a `String`, which panics unless
/// the identifier was declared and holds strings, and else gives the first
/// value of the argument, if it has one.
#[verifier::external_body]
fn get_one<'a>(matches: &'a clap::ArgMatches, id: &str) -> (value: Option<&'a String>)
    requires
        matched_by(*matches).dom().contains(id@),
        matched_by(*matches)[id@] is Value,
    ensures
        matched_by(*matches)[id@] == MatchedView::Value(value.deep_view()),
{
    matches.get_one::<String>(id)
}

/// `found` holds an entry for each identifier of `grammar` and for no other:
/// a flag for each presence flag, a value or none for any other entry.
pub open spec fn holds_each(found: Map<Seq<char>, MatchedView>, grammar: Seq<EntryView>) -> bool {
    &&& forall|i: int|
        0 <= i < grammar.len() ==> found.dom().contains((#[trigger] grammar[i]).id) && (
        found[grammar[i].id] is Flag) == grammar[i].flag
    &&& forall|id: Seq<char>|
        found.dom().contains(id) ==> exists|i: int|
            0 <= i < grammar.len() && (#[trigger] grammar[i]).id == id
}

/// The placeholder that stands for the program's own name at the head of a
/// token stream.
pub const MAGIC_PROG_NAME: &'static str = "__YOPTS_PROG__";

/// The token stream starts with the placeholder.
pub open spec fn starts_with_placeholder(tokens: Seq<Seq<char>>) -> bool {
    tokens.len() > 0 && tokens[0] == MAGIC_PROG_NAME@
}

/// A token stream with the placeholder at its head: the stream itself where
/// it already starts with it, and else the stream behind it.
pub open spec fn normalized(tokens: Seq<Seq<char>>) -> Seq<Seq<char>> {
    if starts_with_placeholder(tokens) {
        tokens
    } else {
        seq![MAGIC_PROG_NAME@] + tokens
    }
}

/// Puts the placeholder for the program's name at the head of the tokens,
/// unless it stands there already.
pub fn normalize_optstring(optstring: &[String]) -> (tokens: Vec<String>)
    ensures
        tokens.deep_view() == normalized(optstring.deep_view()),
{
    let mut tokens: Vec<String> = Vec::new();
    if optstring.len() == 0 || !(optstring[0] == String::from_str(MAGIC_PROG_NAME)) {
        tokens.push(String::from_str(MAGIC_PROG_NAME));
    }
    let ghost head = tokens.deep_view();
    let mut i: usize = 0;
    while i < optstring.len()
        invariant
            i <= optstring.len(),
            tokens.deep_view() == head + optstring.deep_view().take(i as int),
        decreases optstring.len() - i,
    {
        let ghost before = tokens.deep_view();
        tokens.push(optstring[i].clone());
        assert(tokens.deep_view() =~= before.push(optstring.deep_view()[i as int]));
        assert(optstring.deep_view().take(i + 1) =~= optstring.deep_view().take(i as int).push(
            optstring.deep_view()[i as int],
        ));
        i = i + 1;
    }
    assert(optstring.deep_view().take(optstring.len() as int) =~= optstring.deep_view());
    tokens
}

/// A normalized stream starts with the placeholder, and normalizing twice
/// is normalizing once.
pub proof fn lemma_normalized_is_idempotent(tokens: Seq<Seq<char>>)
    ensures
        starts_with_placeholder(normalized(tokens)),
        normalized(normalized(tokens)) == normalized(tokens),
{
}

/// Builds the matcher for a grammar, under a program name and with a
/// description.
pub(crate) fn build_command(program: &str, about: &str, grammar: &Vec<GrammarEntry>) -> (command:
    clap::Command)
    requires
        matcher_accepts(grammar.deep_view()),
    ensures
        command_name(command) == program@,
        command_about(command) == Some(about@),
        command_entries(command) == grammar.deep_view(),
{
    let mut command = command_with_about(command_new(program.to_owned()), about.to_owned());
    let mut i: usize = 0;
    while i < grammar.len()
        invariant
            i <= grammar.len(),
            matcher_accepts(grammar.deep_view()),
            command_name(command) == program@,
            command_about(command) == Some(about@),
            command_entries(command) == grammar.deep_view().take(i as int),
        decreases grammar.len() - i,
    {
        let entry = &grammar[i];
        assert(grammar.deep_view()[i as int] == entry@);
        assert(entry@.stands_alone());
        let mut arg = arg_new(entry.id.clone());
        if let Some(short) = entry.short {
            arg = arg_with_short(arg, short);
        }
        if let Some(long) = &entry.long {
            arg = arg_with_long(arg, long.clone());
        }
        if entry.flag {
            arg = arg_set_true(arg);
        }
        if let Some(help) = &entry.help {
            arg = arg_with_help(arg, help.clone());
        }
        arg = arg_required(arg, entry.required);
        assert(arg_entry(arg) == entry@);
        command = command_with_arg(command, arg);
        assert(grammar.deep_view().take(i + 1) =~= grammar.deep_view().take(i as int).push(
            entry@,
        ));
        i = i + 1;
    }
    assert(grammar.deep_view().take(grammar.len() as int) =~= grammar.deep_view());
    command
}

/// Reads out of `matches` what was matched for each entry of the grammar.
fn collect_matches(grammar: &Vec<GrammarEntry>, matches: &clap::ArgMatches) -> (result:
    MatchResult)
    requires
        holds_each(matched_by(*matches), grammar.deep_view()),
    ensures
        result@ == matched_by(*matches),
{
    let ghost found = matched_by(*matches);
    let mut result = MatchResult::new();
    let mut i: usize = 0;
    while i < grammar.len()
        invariant
            i <= grammar.len(),
            found == matched_by(*matches),
            holds_each(found, grammar.deep_view()),
            forall|id: Seq<char>| #[trigger]
                result@.dom().contains(id) ==> found.dom().contains(id) && result@[id] == found[id],
            forall|k: int|
                0 <= k < i ==> result@.dom().contains((#[trigger] grammar.deep_view()[k]).id),
        decreases grammar.len() - i,
    {
        let entry = &grammar[i];
        assert(grammar.deep_view()[i as int] == entry@);
        let matched = if entry.flag {
            Matched::Flag(get_flag(matches, entry.id.as_str()))
        } else {
            Matched::Value(
                match get_one(matches, entry.id.as_str()) {
                    Some(value) => Some(value.clone()),
                    None => None,
                },
            )
        };
        assert(matched@ == found[entry.id@]);
        let ghost before = result@;
        result.record(entry.id.clone(), matched);
        assert forall|id: Seq<char>| #[trigger] result@.dom().contains(id) implies found.dom().contains(
            id,
        ) && result@[id] == found[id] by {
            if !before.dom().contains(id) {
                assert(id == entry.id@);
            }
        }
        assert forall|k: int| 0 <= k < i + 1 implies result@.dom().contains(
            (#[trigger] grammar.deep_view()[k]).id,
        ) by {
            if k < i {
                assert(before.dom().contains(grammar.deep_view()[k].id));
            }
        }
        i = i + 1;
    }
    assert forall|id: Seq<char>| found.dom().contains(id) implies result@.dom().contains(id) by {
        let k = choose|k: int|
            0 <= k < grammar.len() && (#[trigger] grammar.deep_view()[k]).id == id;
        assert(result@.dom().contains(grammar.deep_view()[k].id));
    }
    assert(result@ =~= found);
    result
}

/// Runs the matcher on a token stream and reads out what it matched. A
/// failure of the matcher is handed on as it is.
pub(crate) fn run_matcher(
    command: clap::Command,
    grammar: &Vec<GrammarEntry>,
    tokens: Vec<String>,
) -> (outcome: Result<MatchResult, Error>)
    requires
        command_entries(command) == grammar.deep_view(),
        matcher_accepts(grammar.deep_view()),
        starts_with_placeholder(tokens.deep_view()),
    ensures
        match outcome {
            Ok(result) => matcher_result(grammar.deep_view(), tokens.deep_view()) == Some(
                result@,
            ),
            Err(e) => {
                &&& matcher_result(grammar.deep_view(), tokens.deep_view()) is None
                &&& e.failure() == Some(
                    matcher_failure(
                        command_name(command),
                        command_about(command),
                        grammar.deep_view(),
                        tokens.deep_view(),
                    ),
                )
                &&& e.failure().unwrap().exit_code == if e.failure().unwrap().use_stderr {
                    2i32
                } else {
                    0i32
                }
            },
        },
{
    match try_get_matches_from(command, tokens) {
        Ok(matches) => Ok(collect_matches(grammar, &matches)),
        Err(failure) => Err(Error::Matcher(failure)),
    }
}

} // verus!
