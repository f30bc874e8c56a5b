use yopts::grammar::grammar_accepted;
use yopts::{
    compile, compose_shell_script, load_documents, match_tokens, normalize_optstring, parse,
    validate_root_docs, ArgumentParser, Error, ErrorKind, GrammarEntry, MatchResult, Matched, Node,
    MAGIC_PROG_NAME,
};

fn tokens(items: &[&str]) -> Vec<String> {
    items.iter().map(|&x| x.to_string()).collect()
}

fn parser(yaml: &str) -> ArgumentParser {
    let mut docs = load_documents(yaml).unwrap();
    ArgumentParser::new(docs.remove(0)).unwrap()
}

fn entry(id: &str, short: Option<char>, long: Option<&str>, flag: bool) -> GrammarEntry {
    GrammarEntry {
        id: id.to_string(),
        short,
        long: long.map(|l| l.to_string()),
        flag,
        help: None,
        required: short.is_none() && long.is_none(),
    }
}

const UPLOAD: &str = "version: \"1.0.0\"\nprogram: upload\noutput_prefix: up_\nargs:\n  - SRC\n  - {name: verbose, short: -v, long: --verbose, type: boolean}\n  - -t/--threads\n";

#[test]
fn normalize_puts_the_placeholder_first() {
    assert_eq!("__YOPTS_PROG__", MAGIC_PROG_NAME);
    assert_eq!(tokens(&[MAGIC_PROG_NAME]), normalize_optstring(&[]));
    assert_eq!(tokens(&[MAGIC_PROG_NAME, "a", "-b"]), normalize_optstring(&tokens(&["a", "-b"])));
    assert_eq!(
        tokens(&[MAGIC_PROG_NAME, "a", MAGIC_PROG_NAME]),
        normalize_optstring(&tokens(&["a", MAGIC_PROG_NAME]))
    );
}

#[test]
fn normalize_leaves_a_stream_with_the_placeholder_alone() {
    let stream = tokens(&[MAGIC_PROG_NAME, "a", "-b"]);
    assert_eq!(stream, normalize_optstring(&stream));
    let twice = tokens(&[MAGIC_PROG_NAME, MAGIC_PROG_NAME]);
    assert_eq!(twice, normalize_optstring(&twice));
}

#[test]
fn normalize_is_idempotent() {
    for stream in [tokens(&[]), tokens(&["a"]), tokens(&[MAGIC_PROG_NAME]), tokens(&["", "x"])] {
        let once = normalize_optstring(&stream);
        assert_eq!(once, normalize_optstring(&once));
    }
}

#[test]
fn root_documents_are_counted() {
    assert!(matches!(validate_root_docs(&vec![]), Err(Error::NoDocs)));
    assert!(validate_root_docs(&vec![Node::Null]).is_ok());
    assert!(matches!(validate_root_docs(&vec![Node::Null, Node::Null]), Err(Error::MultiDocs)));
    assert!(matches!(
        validate_root_docs(&vec![Node::Null, Node::Bad, Node::Integer(1)]),
        Err(Error::MultiDocs)
    ));
}

#[test]
fn compile_reports_each_fault() {
    assert_eq!(ErrorKind::ParseYaml, compile("a: [").err().unwrap().kind());
    assert_eq!(ErrorKind::NoDocs, compile("").err().unwrap().kind());
    assert_eq!(ErrorKind::MultiDocs, compile("--- a\n--- b\n").err().unwrap().kind());
    assert_eq!(ErrorKind::InvalidVersion, compile("program: p\n").err().unwrap().kind());
    assert_eq!(ErrorKind::MissingProgram, compile("version: 1.0.0\n").err().unwrap().kind());
    assert_eq!(
        ErrorKind::MissingArgumentName,
        compile("version: 1.0.0\nprogram: p\nargs: [{help: x}]\n").err().unwrap().kind()
    );
    assert_eq!(
        ErrorKind::InvalidGrammar,
        compile("version: 1.0.0\nprogram: p\nargs: [A, A]\n").err().unwrap().kind()
    );
    let compiled = compile(UPLOAD).unwrap();
    assert_eq!("upload", compiled.program());
    assert_eq!(3, compiled.args().len());
}

#[test]
fn grammar_lists_the_entries_in_order() {
    let grammar = parser(UPLOAD).grammar().unwrap();
    let ids: Vec<&str> = grammar.iter().map(|e| e.id.as_str()).collect();
    assert_eq!(vec!["SRC", "verbose", "threads"], ids);
    assert_eq!(vec![true, false, false], grammar.iter().map(|e| e.required).collect::<Vec<_>>());
    assert_eq!(vec![false, true, false], grammar.iter().map(|e| e.flag).collect::<Vec<_>>());
    assert!(parser(UPLOAD).checked_grammar().is_ok());
}

#[test]
fn grammar_fails_at_an_argument_without_identifier() {
    let p = parser("version: 1.0.0\nprogram: p\nargs: [A, {help: x}, A]\n");
    assert!(matches!(p.grammar(), Err(Error::MissingArgumentName)));
    assert!(matches!(p.checked_grammar(), Err(Error::MissingArgumentName)));
    assert!(matches!(p.build_clap_command(), Err(Error::MissingArgumentName)));
    assert!(matches!(match_tokens(&p, &tokens(&["a"])), Err(Error::MissingArgumentName)));
    assert!(matches!(
        compose_shell_script(&p, &MatchResult::new()),
        Err(Error::MissingArgumentName)
    ));
}

#[test]
fn accepted_grammars() {
    assert!(grammar_accepted(&vec![]));
    assert!(grammar_accepted(&vec![
        entry("SRC", None, None, false),
        entry("DST", None, None, false),
        entry("verbose", Some('v'), Some("verbose"), true),
        entry("threads", Some('t'), None, false),
        entry("protocol", None, Some("protocol"), false),
        entry("", Some('e'), None, false),
    ]));
}

#[test]
fn refused_grammars() {
    // Clashes of two entries.
    assert!(!grammar_accepted(&vec![entry("A", None, None, false), entry("A", None, None, false)]));
    assert!(!grammar_accepted(&vec![
        entry("a", Some('x'), None, false),
        entry("b", None, None, false),
        entry("c", Some('x'), None, false),
    ]));
    assert!(!grammar_accepted(&vec![
        entry("a", None, Some("same"), false),
        entry("c", Some('c'), Some("same"), true),
    ]));
    // Names of the matcher's help flag.
    assert!(!grammar_accepted(&vec![entry("help", Some('x'), None, false)]));
    assert!(!grammar_accepted(&vec![entry("a", Some('h'), None, false)]));
    assert!(!grammar_accepted(&vec![entry("a", None, Some("help"), false)]));
    // Hyphens where a name starts.
    assert!(!grammar_accepted(&vec![entry("a", Some('-'), None, false)]));
    assert!(!grammar_accepted(&vec![entry("a", None, Some("-x"), false)]));
    // A flag bound by position.
    assert!(!grammar_accepted(&vec![entry("a", None, None, true)]));
    // Required on the wrong side.
    let mut optional_positional = entry("a", None, None, false);
    optional_positional.required = false;
    assert!(!grammar_accepted(&vec![optional_positional]));
    let mut required_option = entry("a", Some('a'), None, false);
    required_option.required = true;
    assert!(!grammar_accepted(&vec![required_option]));
}

#[test]
fn the_matcher_is_built_from_an_accepted_grammar() {
    let command = parser(UPLOAD).build_clap_command().unwrap();
    let ids: Vec<String> = command.get_arguments().map(|a| a.get_id().to_string()).collect();
    assert_eq!(vec!["SRC", "verbose", "threads"], ids);
    assert_eq!("upload", command.get_name());
    let verbose = command.get_arguments().nth(1).unwrap();
    assert_eq!(Some('v'), verbose.get_short());
    assert_eq!(Some("verbose"), verbose.get_long());
    assert!(!verbose.is_required_set());
    assert!(command.get_arguments().next().unwrap().is_required_set());
    assert!(matches!(
        parser("version: 1.0.0\nprogram: p\nargs: [-h]\n").build_clap_command(),
        Err(Error::InvalidGrammar)
    ));
}

#[test]
fn the_description_is_handed_to_the_matcher() {
    let p = parser("version: 1.0.0\nprogram: p\nabout: Does things\nargs: [{name: x, long: --xx, help: The x}]\n");
    let command = p.build_clap_command().unwrap();
    assert_eq!("Does things", command.get_about().unwrap().to_string());
    let arg = command.get_arguments().next().unwrap();
    assert_eq!("The x", arg.get_help().unwrap().to_string());
}

#[test]
fn match_tokens_gives_what_was_found() {
    let p = parser(UPLOAD);
    let found = match_tokens(&p, &tokens(&["/src", "-v", "-t", "4"])).unwrap();
    assert!(found.flag("verbose"));
    assert_eq!(Some("/src"), found.value("SRC"));
    assert_eq!(Some("4"), found.value("threads"));
    assert_eq!(3, found.entries.len());

    let found = match_tokens(&p, &tokens(&["/src"])).unwrap();
    assert!(!found.flag("verbose"));
    assert_eq!(None, found.value("threads"));
    assert!(matches!(&found.entries[1], (id, Matched::Flag(false)) if id == "verbose"));
    assert!(matches!(&found.entries[2], (id, Matched::Value(None)) if id == "threads"));

    assert!(matches!(match_tokens(&p, &tokens(&[])), Err(Error::Matcher(_))));
}

#[test]
fn match_result_is_queried_by_identifier() {
    let mut found = MatchResult::new();
    assert!(!found.flag("x"));
    assert_eq!(None, found.value("x"));
    found.record("flag".to_string(), Matched::Flag(true));
    found.record("off".to_string(), Matched::Flag(false));
    found.record("value".to_string(), Matched::Value(Some("v".to_string())));
    found.record("none".to_string(), Matched::Value(None));
    // The first record for an identifier counts.
    found.record("flag".to_string(), Matched::Flag(false));
    found.record("value".to_string(), Matched::Value(Some("w".to_string())));
    assert!(found.flag("flag"));
    assert!(!found.flag("off"));
    assert!(!found.flag("value"));
    assert!(!found.flag("missing"));
    assert_eq!(Some("v"), found.value("value"));
    assert_eq!(None, found.value("none"));
    assert_eq!(None, found.value("flag"));
    assert_eq!(None, found.value("missing"));
}

#[test]
fn compose_writes_a_line_for_each_argument_in_order() {
    let p = parser(UPLOAD);
    let mut found = MatchResult::new();
    found.record("threads".to_string(), Matched::Value(Some("8".to_string())));
    found.record("verbose".to_string(), Matched::Flag(true));
    found.record("SRC".to_string(), Matched::Value(Some("/a b".to_string())));
    found.record("other".to_string(), Matched::Value(Some("ignored".to_string())));
    assert_eq!(
        "up_SRC=/a b\nup_verbose=true\nup_threads=8\n",
        compose_shell_script(&p, &found).unwrap()
    );
}

#[test]
fn compose_defaults_a_flag_to_false_and_leaves_a_value_out() {
    let p = parser(UPLOAD);
    assert_eq!("up_verbose=false\n", compose_shell_script(&p, &MatchResult::new()).unwrap());
    let mut found = MatchResult::new();
    found.record("SRC".to_string(), Matched::Value(None));
    found.record("verbose".to_string(), Matched::Flag(false));
    assert_eq!("up_verbose=false\n", compose_shell_script(&p, &found).unwrap());
    // What was found under the identifier of a flag as a value is no flag.
    let mut found = MatchResult::new();
    found.record("verbose".to_string(), Matched::Value(Some("true".to_string())));
    found.record("SRC".to_string(), Matched::Flag(true));
    assert_eq!("up_verbose=false\n", compose_shell_script(&p, &found).unwrap());
}

#[test]
fn compose_writes_an_empty_value() {
    let p = parser("version: 1.0.0\nprogram: p\nargs: [A]\n");
    let mut found = MatchResult::new();
    found.record("A".to_string(), Matched::Value(Some(String::new())));
    assert_eq!("A=\n", compose_shell_script(&p, &found).unwrap());
    assert_eq!("A=\n", parse("version: 1.0.0\nprogram: p\nargs: [A]\n", &tokens(&[""])).unwrap());
}

#[test]
fn schemas_never_make_the_matcher_panic() {
    let args = [
        "SRC", "DST", "-t/--threads", "-t", "--threads", "-h", "--help", "-h/--host", "help",
        "{name: help}", "{name: x, type: boolean}", "{name: x, short: -x, type: boolean}",
        "{name: \"\"}", "{name: y, long: --threads}", "{name: SRC, short: -s}", "{help: h}",
        "{name: -, short: -q}", "\"--ab--cd\"", "-V/--version", "{name: version}",
    ];
    let streams =
        [tokens(&[]), tokens(&["a"]), tokens(&["a", "b", "-t", "1"]), tokens(&["--help"]), tokens(&["-x", "--", "-t"])];
    for first in args {
        for second in args {
            let text = format!("version: 1.0.0\nprogram: p\nargs:\n  - {}\n  - {}\n", first, second);
            for stream in &streams {
                let _ = parse(&text, stream);
            }
        }
    }
}

/// The matcher as the schema `UPLOAD` declares it, built by hand.
fn upload_by_hand() -> clap::Command {
    clap::Command::new("upload".to_string())
        .about(String::new())
        .arg(clap::Arg::new("SRC").required(true))
        .arg(
            clap::Arg::new("verbose")
                .short('v')
                .long("verbose")
                .action(clap::ArgAction::SetTrue)
                .required(false),
        )
        .arg(clap::Arg::new("threads").short('t').long("threads").required(false))
}

#[test]
fn a_failure_of_the_matcher_is_handed_on_as_it_is() {
    let p = parser(UPLOAD);
    for stream in [tokens(&[]), tokens(&["a", "b"]), tokens(&["--nope"]), tokens(&["--help"]), tokens(&["-h"]), tokens(&["a", "-t"])] {
        let mut with_name = vec![MAGIC_PROG_NAME.to_string()];
        with_name.extend(stream.iter().cloned());
        let expected = upload_by_hand().try_get_matches_from(with_name).unwrap_err();
        match match_tokens(&p, &stream) {
            Err(Error::Matcher(failure)) => {
                assert_eq!(expected.to_string(), failure.message);
                assert_eq!(expected.use_stderr(), failure.use_stderr);
                assert_eq!(expected.exit_code(), failure.exit_code);
                assert_eq!(if failure.use_stderr { 2 } else { 0 }, failure.exit_code);
                assert!(!failure.message.is_empty());
            }
            other => panic!("no matcher error for {:?}: {:?}", stream, other),
        }
        match parse(UPLOAD, &stream) {
            Err(Error::Matcher(failure)) => {
                assert_eq!(expected.to_string(), failure.message);
                assert_eq!(expected.use_stderr(), failure.use_stderr);
                assert_eq!(expected.exit_code(), failure.exit_code);
            }
            other => panic!("no matcher error for {:?}: {:?}", stream, other),
        }
    }
}

#[test]
fn the_message_of_a_failure_names_the_placeholder_as_the_program() {
    let failure = match parse(UPLOAD, &tokens(&[])) {
        Err(Error::Matcher(failure)) => failure,
        other => panic!("no matcher error: {:?}", other),
    };
    assert_eq!(
        "error: the following required arguments were not provided:\n  <SRC>\n\nUsage: __YOPTS_PROG__ <SRC>\n\nFor more information, try '--help'.\n",
        failure.message
    );
    assert!(failure.use_stderr);
    assert_eq!(2, failure.exit_code);
}
