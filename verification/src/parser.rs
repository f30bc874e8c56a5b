//! The schema of a command line and the way from its text to the output.
//!
//! A schema is a single document with the keys `version`, `program`,
//! `about`, `output_prefix` and `args`. It is compiled when its version is
//! supported, its program is named, each argument has an identifier and the
//! arguments form a grammar that the matcher can be built from. The first
//! fault found is the one reported.

use crate::argument::{argument_of, Argument, ArgumentView};
use crate::error::{Error, ErrorKind, FailureView};
use crate::grammar::{grammar_accepted, grammar_of, matcher_accepts, EntryView, GrammarEntry};
use crate::matcher::{
    build_command,
    command_about,
    command_entries,
    command_name,
    lemma_normalized_is_idempotent,
    matcher_failure,
    matcher_result,
    normalize_optstring,
    normalized,
    run_matcher,
};
use crate::matches::MatchResult;
use crate::node::{lemma_empty_text, Node};
use crate::output::{compose_shell_script, lemma_prefix_is_prepended, output_lines, script_of};
use crate::version::{lemma_version_text, Version};
use crate::yaml::{load_nodes, yaml_documents};
use vstd::prelude::*;

verus! {

/// A schema as plain text.
pub struct SchemaView {
    pub version: Seq<char>,
    pub program: Seq<char>,
    pub about: Seq<char>,
    pub output_prefix: Seq<char>,
    pub args: Seq<ArgumentView>,
}

/// The text under a key, and nothing where the key holds no text.
pub open spec fn text_or_empty(text: Option<Seq<char>>) -> Seq<char> {
    match text {
        Some(text) => text,
        None => Seq::empty(),
    }
}

/// The schema that a document declares.
pub open spec fn schema_of(doc: Node) -> SchemaView {
    SchemaView {
        version: text_or_empty(doc.field_text("version"@)),
        program: text_or_empty(doc.field_text("program"@)),
        about: text_or_empty(doc.field_text("about"@)),
        output_prefix: text_or_empty(doc.field_text("output_prefix"@)),
        args: match doc.field_items("args"@) {
            Some(items) => items.map_values(|item: Node| argument_of(item)),
            None => Seq::empty(),
        },
    }
}

impl SchemaView {
    /// The fault in the schema's own fields, if there is one: the version is
    /// looked at before the program.
    pub open spec fn fault(self) -> Option<ErrorKind> {
        if Version::parse(self.version) is None {
            Some(ErrorKind::InvalidVersion)
        } else if self.program.len() == 0 {
            Some(ErrorKind::MissingProgram)
        } else {
            None
        }
    }

    /// The grammar of the schema's arguments, or the fault that keeps the
    /// matcher from being built.
    pub open spec fn grammar(self) -> Result<Seq<EntryView>, ErrorKind> {
        match grammar_of(self.args) {
            None => Err(ErrorKind::MissingArgumentName),
            Some(grammar) => if matcher_accepts(grammar) {
                Ok(grammar)
            } else {
                Err(ErrorKind::InvalidGrammar)
            },
        }
    }

    /// What the matcher reports where it fails on a token stream: it is
    /// built under the program's name, with the schema's description and
    /// grammar, and run on the normalized tokens.
    pub open spec fn failure(self, tokens: Seq<Seq<char>>) -> FailureView {
        matcher_failure(
            self.program,
            Some(self.about),
            self.grammar().unwrap(),
            normalized(tokens),
        )
    }

    /// The output lines for a token stream, or the fault that the matcher
    /// runs into.
    pub open spec fn run(self, tokens: Seq<Seq<char>>) -> Result<Seq<Seq<char>>, ErrorKind> {
        match self.grammar() {
            Err(kind) => Err(kind),
            Ok(grammar) => match matcher_result(grammar, normalized(tokens)) {
                None => Err(ErrorKind::Matcher),
                Some(found) => Ok(output_lines(self.output_prefix, self.args, found)),
            },
        }
    }
}

/// The schema that a list of documents compiles to: there must be exactly
/// one document, free of faults, whose arguments form a grammar.
pub open spec fn compiled(docs: Seq<Node>) -> Result<SchemaView, ErrorKind> {
    if docs.len() == 0 {
        Err(ErrorKind::NoDocs)
    } else if docs.len() > 1 {
        Err(ErrorKind::MultiDocs)
    } else {
        let schema = schema_of(docs[0]);
        match schema.fault() {
            Some(kind) => Err(kind),
            None => match schema.grammar() {
                Err(kind) => Err(kind),
                Ok(_) => Ok(schema),
            },
        }
    }
}

/// What parsing comes to, given the documents that were read out of the
/// schema text (`None` where the text could not be read) and the tokens.
pub open spec fn parsed(docs: Option<Seq<Node>>, tokens: Seq<Seq<char>>) -> Result<
    Seq<char>,
    ErrorKind,
> {
    match docs {
        None => Err(ErrorKind::ParseYaml),
        Some(docs) => match compiled(docs) {
            Err(kind) => Err(kind),
            Ok(schema) => match schema.run(tokens) {
                Err(kind) => Err(kind),
                Ok(lines) => Ok(script_of(lines)),
            },
        },
    }
}

/// The failure that a matcher error carries, where parsing comes to one.
pub open spec fn reported(docs: Option<Seq<Node>>, tokens: Seq<Seq<char>>) -> FailureView {
    compiled(docs.unwrap()).unwrap().failure(tokens)
}

/// The version and the program are checked independently of each other: a
/// schema is free of faults exactly where both are in order, an unsupported
/// version is a fault whatever the program, and a missing program is a fault
/// under a supported version too.
pub proof fn lemma_version_and_program_are_independent(schema: SchemaView)
    ensures
        schema.fault() is None <==> Version::parse(schema.version) is Some && schema.program.len()
            > 0,
        Version::parse(schema.version) is None ==> schema.fault() == Some(
            ErrorKind::InvalidVersion,
        ),
        Version::parse(schema.version) is Some && schema.program.len() == 0 ==> schema.fault()
            == Some(ErrorKind::MissingProgram),
{
}

/// A document without a `version`, or without a `program`, is at fault.
pub proof fn lemma_missing_fields_are_faults(doc: Node)
    ensures
        doc.field_text("version"@) is None ==> schema_of(doc).fault() == Some(
            ErrorKind::InvalidVersion,
        ),
        Version::parse(schema_of(doc).version) is Some && doc.field_text("program"@) is None
            ==> schema_of(doc).fault() == Some(ErrorKind::MissingProgram),
{
    lemma_version_text();
    assert(Version::V1_0_0.text().len() == 5);
}

/// A fault in the one document's own fields is what compiling and parsing
/// come to, whatever the arguments and the tokens.
pub proof fn lemma_fault_fails_compilation(doc: Node, tokens: Seq<Seq<char>>)
    requires
        schema_of(doc).fault() is Some,
    ensures
        compiled(seq![doc]) == Err::<SchemaView, ErrorKind>(schema_of(doc).fault().unwrap()),
        parsed(Some(seq![doc]), tokens) == Err::<Seq<char>, ErrorKind>(
            schema_of(doc).fault().unwrap(),
        ),
{
}

/// No document and more than one document are told apart, whatever the
/// documents hold and whatever the tokens.
pub proof fn lemma_document_count(docs: Seq<Node>, tokens: Seq<Seq<char>>)
    ensures
        docs.len() == 0 ==> compiled(docs) == Err::<SchemaView, ErrorKind>(ErrorKind::NoDocs)
            && parsed(Some(docs), tokens) == Err::<Seq<char>, ErrorKind>(ErrorKind::NoDocs),
        docs.len() > 1 ==> compiled(docs) == Err::<SchemaView, ErrorKind>(ErrorKind::MultiDocs)
            && parsed(Some(docs), tokens) == Err::<Seq<char>, ErrorKind>(ErrorKind::MultiDocs),
{
}

/// A schema with an argument that has no identifier does not compile,
/// whatever the tokens.
pub proof fn lemma_anonymous_argument_fails_compilation(
    doc: Node,
    k: int,
    tokens: Seq<Seq<char>>,
)
    requires
        schema_of(doc).fault() is None,
        0 <= k < schema_of(doc).args.len(),
        schema_of(doc).args[k].id() is None,
    ensures
        compiled(seq![doc]) == Err::<SchemaView, ErrorKind>(ErrorKind::MissingArgumentName),
        parsed(Some(seq![doc]), tokens) == Err::<Seq<char>, ErrorKind>(
            ErrorKind::MissingArgumentName,
        ),
{
}

/// The output prefix changes the keys that are written and nothing else:
/// under any prefix a schema has the same grammar, fails on the same tokens
/// in the same way and with the same report of the matcher, and writes the
/// lines that it writes without a prefix, each behind the prefix.
pub proof fn lemma_output_prefix_only_changes_keys(
    schema: SchemaView,
    prefix: Seq<char>,
    tokens: Seq<Seq<char>>,
)
    ensures
        (SchemaView { output_prefix: prefix, ..schema }).grammar() == schema.grammar(),
        (SchemaView { output_prefix: prefix, ..schema }).run(tokens) == match (SchemaView {
            output_prefix: Seq::empty(),
            ..schema
        }).run(tokens) {
            Ok(lines) => Ok(lines.map_values(|line: Seq<char>| prefix + line)),
            Err(kind) => Err(kind),
        },
        (SchemaView { output_prefix: prefix, ..schema }).failure(tokens) == schema.failure(
            tokens,
        ),
{
    match schema.grammar() {
        Ok(grammar) => match matcher_result(grammar, normalized(tokens)) {
            Some(found) => {
                lemma_prefix_is_prepended(prefix, schema.args, found);
            },
            None => {},
        },
        Err(_) => {},
    }
}

/// A validated schema: its version is supported and its program is named.
#[derive(Debug)]
pub struct ArgumentParser {
    doc: Node,
}

impl View for ArgumentParser {
    type V = SchemaView;

    closed spec fn view(&self) -> SchemaView {
        schema_of(self.doc)
    }
}

impl ArgumentParser {
    #[verifier::type_invariant]
    spec fn valid(self) -> bool {
        schema_of(self.doc).fault() is None
    }

    /// Takes a document as a schema, if its own fields are free of faults.
    pub fn new(doc: Node) -> (parser: Result<ArgumentParser, Error>)
        ensures
            match parser {
                Ok(parser) => schema_of(doc).fault() is None && parser@ == schema_of(doc),
                Err(e) => schema_of(doc).fault() == Some(e.kind()),
            },
    {
        let version = match doc.get_str("version") {
            Some(text) => Version::try_from(text),
            None => Version::try_from(""),
        };
        let program_missing = match doc.get_str("program") {
            Some(text) => text.is_empty(),
            None => true,
        };
        proof {
            lemma_empty_text();
        }
        if version.is_err() {
            return Err(Error::InvalidVersion);
        }
        if program_missing {
            return Err(Error::MissingProgram);
        }
        Ok(ArgumentParser { doc })
    }

    /// What stands under `key`, and nothing where it holds no text.
    fn text_at(&self, key: &str) -> (text: &str)
        ensures
            text@ == text_or_empty(self.doc.field_text(key@)),
    {
        match self.doc.get_str(key) {
            Some(text) => text,
            None => {
                proof {
                    lemma_empty_text();
                }
                ""
            },
        }
    }

    /// The version of the schema.
    pub fn version(&self) -> (text: &str)
        ensures
            text@ == self@.version,
            Version::parse(text@) is Some,
    {
        proof {
            use_type_invariant(self);
        }
        self.text_at("version")
    }

    /// The version of the schema, parsed.
    pub fn parsed_version(&self) -> (version: Option<Version>)
        ensures
            version is Some,
            version == Version::parse(self@.version),
    {
        match Version::try_from(self.version()) {
            Ok(version) => Some(version),
            Err(_) => None,
        }
    }

    /// The name of the program.
    pub fn program(&self) -> (text: &str)
        ensures
            text@ == self@.program,
            text@.len() > 0,
    {
        proof {
            use_type_invariant(self);
        }
        self.text_at("program")
    }

    /// The prefix of every key that is written out. For an argument named
    /// `verbose` and the prefix `myapp_`, the output holds `myapp_verbose=`.
    /// It is empty unless the schema declares one.
    pub fn output_prefix(&self) -> (text: &str)
        ensures
            text@ == self@.output_prefix,
    {
        self.text_at("output_prefix")
    }

    /// A description of the program.
    pub fn about(&self) -> (text: &str)
        ensures
            text@ == self@.about,
    {
        self.text_at("about")
    }

    /// The arguments of the schema, in the order in which it declares them.
    pub fn args(&self) -> (args: Vec<Argument>)
        ensures
            args.deep_view() == self@.args,
    {
        let mut args: Vec<Argument> = Vec::new();
        match self.doc.get("args") {
            Some(node) => match node.as_vec() {
                Some(items) => {
                    let mut i: usize = 0;
                    while i < items.len()
                        invariant
                            i <= items.len(),
                            args@.len() == i,
                            forall|k: int|
                                0 <= k < i ==> (#[trigger] args@[k])@ == argument_of(items@[k]),
                        decreases items.len() - i,
                    {
                        args.push(Argument::new(&items[i]));
                        i = i + 1;
                    }
                    assert(args.deep_view() =~= items@.map_values(
                        |item: Node| argument_of(item),
                    ));
                },
                None => {
                    assert(args.deep_view() =~= Seq::<ArgumentView>::empty());
                },
            },
            None => {
                assert(args.deep_view() =~= Seq::<ArgumentView>::empty());
            },
        }
        args
    }

    /// The grammar entries of the arguments, in their order. The first
    /// argument without an identifier makes it fail.
    pub fn grammar(&self) -> (grammar: Result<Vec<GrammarEntry>, Error>)
        ensures
            match grammar {
                Ok(grammar) => grammar_of(self@.args) == Some(grammar.deep_view()),
                Err(e) => e.kind() == ErrorKind::MissingArgumentName && grammar_of(self@.args)
                    is None,
            },
    {
        let args = self.args();
        let mut grammar: Vec<GrammarEntry> = Vec::new();
        let mut i: usize = 0;
        while i < args.len()
            invariant
                i <= args.len(),
                args.deep_view() == self@.args,
                grammar@.len() == i,
                forall|k: int| 0 <= k < i ==> (#[trigger] self@.args[k]).id() is Some,
                forall|k: int| 0 <= k < i ==> (#[trigger] grammar@[k])@ == self@.args[k].entry(),
            decreases args.len() - i,
        {
            assert(args.deep_view()[i as int] == args@[i as int]@);
            match GrammarEntry::new(&args[i]) {
                Ok(entry) => {
                    grammar.push(entry);
                },
                Err(e) => {
                    assert(self@.args[i as int].id() is None);
                    return Err(e);
                },
            }
            i = i + 1;
        }
        assert(grammar.deep_view() =~= self@.args.map_values(|arg: ArgumentView| arg.entry()));
        Ok(grammar)
    }

    /// The grammar of the arguments, checked: it fails as [`Self::grammar`]
    /// does, and with `InvalidGrammar` where the matcher cannot be built
    /// from the entries.
    pub fn checked_grammar(&self) -> (grammar: Result<Vec<GrammarEntry>, Error>)
        ensures
            match grammar {
                Ok(grammar) => self@.grammar() == Ok::<Seq<EntryView>, ErrorKind>(
                    grammar.deep_view(),
                ),
                Err(e) => self@.grammar() == Err::<Seq<EntryView>, ErrorKind>(e.kind()),
            },
    {
        let grammar = self.grammar()?;
        if grammar_accepted(&grammar) {
            Ok(grammar)
        } else {
            Err(Error::InvalidGrammar)
        }
    }

    /// Builds the matcher: a command under the program's name, with its
    /// description and one argument for each grammar entry, in their order.
    pub fn build_clap_command(&self) -> (command: Result<clap::Command, Error>)
        ensures
            match command {
                Ok(command) => {
                    &&& self@.grammar() == Ok::<Seq<EntryView>, ErrorKind>(
                        command_entries(command),
                    )
                    &&& command_name(command) == self@.program
                    &&& command_about(command) == Some(self@.about)
                },
                Err(e) => self@.grammar() == Err::<Seq<EntryView>, ErrorKind>(e.kind()),
            },
    {
        let grammar = self.checked_grammar()?;
        Ok(build_command(self.program(), self.about(), &grammar))
    }
}

/// A schema text must hold exactly one document.
pub fn validate_root_docs(docs: &Vec<Node>) -> (valid: Result<(), Error>)
    ensures
        match valid {
            Ok(_) => docs@.len() == 1,
            Err(e) => e.kind() == if docs@.len() == 0 {
                ErrorKind::NoDocs
            } else {
                ErrorKind::MultiDocs
            } && docs@.len() != 1,
        },
{
    if docs.len() == 0 {
        return Err(Error::NoDocs);
    }
    if docs.len() > 1 {
        return Err(Error::MultiDocs);
    }
    Ok(())
}

/// What a result comes to, without what an error carries.
pub open spec fn kind_of<T>(result: Result<T, Error>) -> Option<ErrorKind> {
    match result {
        Ok(_) => None,
        Err(e) => Some(e.kind()),
    }
}

/// Reads the documents out of a text.
pub fn load_documents(text: &str) -> (docs: Result<Vec<Node>, Error>)
    ensures
        match docs {
            Ok(docs) => yaml_documents(text@) == Some(docs@),
            Err(e) => e.kind() == ErrorKind::ParseYaml && yaml_documents(text@) is None,
        },
{
    match load_nodes(text) {
        Ok(docs) => Ok(docs),
        Err(e) => Err(Error::ParseYaml(e)),
    }
}

/// Compiles a schema text: reads it, and checks the document, its fields
/// and its arguments, in this order.
pub fn compile(spec_yaml: &str) -> (parser: Result<ArgumentParser, Error>)
    ensures
        match yaml_documents(spec_yaml@) {
            None => kind_of(parser) == Some(ErrorKind::ParseYaml),
            Some(docs) => match parser {
                Ok(parser) => compiled(docs) == Ok::<SchemaView, ErrorKind>(parser@),
                Err(e) => compiled(docs) == Err::<SchemaView, ErrorKind>(e.kind()),
            },
        },
{
    let mut docs = load_documents(spec_yaml)?;
    validate_root_docs(&docs)?;
    let parser = ArgumentParser::new(docs.remove(0))?;
    parser.checked_grammar()?;
    Ok(parser)
}

/// Matches a token stream against the grammar of a schema. The tokens are
/// normalized first. Where the matcher fails, the error carries its failure
/// as the matcher reported it.
pub fn match_tokens(parser: &ArgumentParser, optstring: &[String]) -> (found: Result<
    MatchResult,
    Error,
>)
    ensures
        match parser@.grammar() {
            Err(kind) => kind_of(found) == Some(kind),
            Ok(grammar) => match matcher_result(grammar, normalized(optstring.deep_view())) {
                None => {
                    &&& found is Err
                    &&& found.unwrap_err().failure() == Some(
                        parser@.failure(optstring.deep_view()),
                    )
                    &&& parser@.failure(optstring.deep_view()).exit_code == if parser@.failure(
                        optstring.deep_view(),
                    ).use_stderr {
                        2i32
                    } else {
                        0i32
                    }
                },
                Some(matched) => found is Ok && found.unwrap()@ == matched,
            },
        },
{
    let grammar = parser.checked_grammar()?;
    let command = build_command(parser.program(), parser.about(), &grammar);
    proof {
        lemma_normalized_is_idempotent(optstring.deep_view());
    }
    run_matcher(command, &grammar, normalize_optstring(optstring))
}

/// Parses a token stream as a schema text declares it, and writes what was
/// found as one `KEY=VALUE` line for each argument. Where the matcher
/// fails, the error carries its failure as the matcher reported it.
pub fn parse(spec_yaml: &str, optstring: &[String]) -> (script: Result<String, Error>)
    ensures
        match script {
            Ok(text) => parsed(yaml_documents(spec_yaml@), optstring.deep_view()) == Ok::<
                Seq<char>,
                ErrorKind,
            >(text@),
            Err(e) => {
                &&& parsed(yaml_documents(spec_yaml@), optstring.deep_view()) == Err::<
                    Seq<char>,
                    ErrorKind,
                >(e.kind())
                &&& e.failure() == if e.kind() == ErrorKind::Matcher {
                    Some(reported(yaml_documents(spec_yaml@), optstring.deep_view()))
                } else {
                    None
                }
            },
        },
{
    let parser = compile(spec_yaml)?;
    let found = match_tokens(&parser, optstring)?;
    compose_shell_script(&parser, &found)
}

} // verus!
