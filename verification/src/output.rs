//! The output: one `KEY=VALUE` line for each argument that has something to
//! say, in the order in which the schema declares the arguments.
//!
//! A flag always has a line, `true` or `false`. Any other argument has a
//! line where a value was found for it. The key is the schema's output
//! prefix followed by the argument's identifier; the value is written as it
//! was found.

use crate::argument::ArgumentView;
use crate::error::{Error, ErrorKind};
use crate::grammar::grammar_of;
use crate::matches::{flag_given, value_given, MatchResult, MatchedView};
use crate::parser::ArgumentParser;
use vstd::prelude::*;
use vstd::string::StringExecFns;

verus! {

/// The line of one argument, without the line break; `None` where it has
/// no line.
pub open spec fn output_line(
    prefix: Seq<char>,
    arg: ArgumentView,
    found: Map<Seq<char>, MatchedView>,
) -> Option<Seq<char>> {
    let id = arg.id().unwrap();
    if arg.is_flag() {
        Some(
            prefix + id + "="@ + if flag_given(found, id) {
                "true"@
            } else {
                "false"@
            },
        )
    } else {
        match value_given(found, id) {
            Some(value) => Some(prefix + id + "="@ + value),
            None => None,
        }
    }
}

/// The lines of a list of arguments, in their order.
pub open spec fn output_lines(
    prefix: Seq<char>,
    args: Seq<ArgumentView>,
    found: Map<Seq<char>, MatchedView>,
) -> Seq<Seq<char>>
    decreases args.len(),
{
    if args.len() == 0 {
        Seq::empty()
    } else {
        let before = output_lines(prefix, args.drop_last(), found);
        match output_line(prefix, args.last(), found) {
            Some(line) => before.push(line),
            None => before,
        }
    }
}

/// The text of a list of lines: each line followed by a line break.
pub open spec fn script_of(lines: Seq<Seq<char>>) -> Seq<char>
    decreases lines.len(),
{
    if lines.len() == 0 {
        Seq::empty()
    } else {
        script_of(lines.drop_last()) + lines.last() + seq!['\n']
    }
}

/// The output prefix is put before every line and changes nothing else: the
/// lines under a prefix are the lines without one, each behind the prefix.
pub proof fn lemma_prefix_is_prepended(
    prefix: Seq<char>,
    args: Seq<ArgumentView>,
    found: Map<Seq<char>, MatchedView>,
)
    ensures
        output_lines(prefix, args, found) == output_lines(
            Seq::empty(),
            args,
            found,
        ).map_values(|line: Seq<char>| prefix + line),
    decreases args.len(),
{
    let none = Seq::<char>::empty();
    let prepend = |line: Seq<char>| prefix + line;
    if args.len() == 0 {
        assert(output_lines(prefix, args, found) =~= output_lines(none, args, found).map_values(
            prepend,
        ));
    } else {
        lemma_prefix_is_prepended(prefix, args.drop_last(), found);
        let before = output_lines(none, args.drop_last(), found);
        match output_line(none, args.last(), found) {
            Some(line) => {
                let with = output_line(prefix, args.last(), found).unwrap();
                assert(with =~= prefix + line);
                assert(before.push(line).map_values(prepend) =~= before.map_values(prepend).push(
                    with,
                ));
            },
            None => {},
        }
    }
}

/// Every line that is written is the line of one of the arguments.
pub proof fn lemma_every_line_belongs_to_an_argument(
    prefix: Seq<char>,
    args: Seq<ArgumentView>,
    found: Map<Seq<char>, MatchedView>,
    k: int,
)
    requires
        0 <= k < output_lines(prefix, args, found).len(),
    ensures
        exists|i: int|
            0 <= i < args.len() && output_line(prefix, #[trigger] args[i], found) == Some(
                output_lines(prefix, args, found)[k],
            ),
    decreases args.len(),
{
    let before = output_lines(prefix, args.drop_last(), found);
    if k < before.len() {
        lemma_every_line_belongs_to_an_argument(prefix, args.drop_last(), found, k);
        let i = choose|i: int|
            0 <= i < args.drop_last().len() && output_line(
                prefix,
                #[trigger] args.drop_last()[i],
                found,
            ) == Some(before[k]);
        assert(args[i] == args.drop_last()[i]);
    } else {
        assert(args[args.len() - 1] == args.last());
    }
}

/// Writes out what was matched for the arguments of a schema. It fails at
/// the first argument without an identifier.
pub fn compose_shell_script(parser: &ArgumentParser, matches: &MatchResult) -> (script: Result<
    String,
    Error,
>)
    ensures
        match script {
            Ok(text) => grammar_of(parser@.args) is Some && text@ == script_of(
                output_lines(parser@.output_prefix, parser@.args, matches@),
            ),
            Err(e) => e.kind() == ErrorKind::MissingArgumentName && grammar_of(parser@.args)
                is None,
        },
{
    let args = parser.args();
    let prefix = parser.output_prefix();
    let mut script = String::new();
    let mut i: usize = 0;
    while i < args.len()
        invariant
            i <= args.len(),
            args.deep_view() == parser@.args,
            prefix@ == parser@.output_prefix,
            forall|k: int| 0 <= k < i ==> (#[trigger] parser@.args[k]).id() is Some,
            script@ == script_of(output_lines(prefix@, parser@.args.take(i as int), matches@)),
        decreases args.len() - i,
    {
        let arg = &args[i];
        assert(args.deep_view()[i as int] == arg@);
        let key = match arg.id() {
            Ok(key) => key,
            Err(e) => {
                assert(parser@.args[i as int].id() is None);
                return Err(e);
            },
        };
        proof {
            let upto = parser@.args.take(i + 1);
            assert(upto.drop_last() =~= parser@.args.take(i as int));
            assert(upto.last() == arg@);
            reveal_strlit("\n");
            assert("\n"@ =~= seq!['\n']);
        }
        let ghost lines = output_lines(prefix@, parser@.args.take(i as int), matches@);
        if arg.is_flag() {
            let flag = matches.flag(key.as_str());
            script.append(prefix);
            script.append(key.as_str());
            script.append("=");
            script.append(if flag { "true" } else { "false" });
            script.append("\n");
            proof {
                let line = output_line(prefix@, arg@, matches@).unwrap();
                assert(lines.push(line).drop_last() =~= lines);
                assert(script@ =~= script_of(lines) + line + seq!['\n']);
            }
        } else {
            match matches.value(key.as_str()) {
                Some(value) => {
                    script.append(prefix);
                    script.append(key.as_str());
                    script.append("=");
                    script.append(value);
                    script.append("\n");
                    proof {
                        let line = output_line(prefix@, arg@, matches@).unwrap();
                        assert(lines.push(line).drop_last() =~= lines);
                        assert(script@ =~= script_of(lines) + line + seq!['\n']);
                    }
                },
                None => {},
            }
        }
        i = i + 1;
    }
    assert(parser@.args.take(args.len() as int) =~= parser@.args);
    Ok(script)
}

} // verus!
