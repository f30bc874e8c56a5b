//! What can go wrong between a schema text and the composed output.

use vstd::prelude::*;

verus! {

/// A failure reported by the matcher: the message it would print, whether
/// that message belongs on the error stream, and the exit status that goes
/// with it.
#[derive(Debug)]
pub struct MatchFailure {
    pub message: String,
    pub use_stderr: bool,
    pub exit_code: i32,
}

/// A matcher's failure as plain text.
pub struct FailureView {
    pub message: Seq<char>,
    pub use_stderr: bool,
    pub exit_code: i32,
}

impl View for MatchFailure {
    type V = FailureView;

    open spec fn view(&self) -> FailureView {
        FailureView {
            message: self.message@,
            use_stderr: self.use_stderr,
            exit_code: self.exit_code,
        }
    }
}

#[derive(Debug)]
pub enum Error {
    /// The schema text is not well-formed YAML.
    ParseYaml(yaml_rust::ScanError),
    /// The schema text holds no document.
    NoDocs,
    /// The schema text holds more than one document.
    MultiDocs,
    /// The schema's `version` is absent or not supported.
    InvalidVersion,
    /// The schema's `program` is absent or empty.
    MissingProgram,
    /// An argument has neither a name nor a flag nor a bare string.
    MissingArgumentName,
    /// The arguments do not form a grammar that the matcher can be built
    /// from.
    InvalidGrammar,
    /// The matcher rejected the tokens.
    Matcher(MatchFailure),
}

/// The kind of an [`Error`], without what it carries.
#[derive(Debug, Clone, Copy, PartialEq, Eq, Structural)]
pub enum ErrorKind {
    ParseYaml,
    NoDocs,
    MultiDocs,
    InvalidVersion,
    MissingProgram,
    MissingArgumentName,
    InvalidGrammar,
    Matcher,
}

pub type Result<T> = std::result::Result<T, Error>;

impl Error {
    pub open spec fn spec_kind(&self) -> ErrorKind {
        match self {
            Error::ParseYaml(_) => ErrorKind::ParseYaml,
            Error::NoDocs => ErrorKind::NoDocs,
            Error::MultiDocs => ErrorKind::MultiDocs,
            Error::InvalidVersion => ErrorKind::InvalidVersion,
            Error::MissingProgram => ErrorKind::MissingProgram,
            Error::MissingArgumentName => ErrorKind::MissingArgumentName,
            Error::InvalidGrammar => ErrorKind::InvalidGrammar,
            Error::Matcher(_) => ErrorKind::Matcher,
        }
    }

    /// The matcher's failure that the error carries, if it is one of the
    /// matcher.
    pub open spec fn failure(&self) -> Option<FailureView> {
        match self {
            Error::Matcher(failure) => Some(failure@),
            _ => None,
        }
    }

    #[verifier::when_used_as_spec(spec_kind)]
    pub fn kind(&self) -> (kind: ErrorKind)
        ensures
            kind == self.spec_kind(),
    {
        match self {
            Error::ParseYaml(_) => ErrorKind::ParseYaml,
            Error::NoDocs => ErrorKind::NoDocs,
            Error::MultiDocs => ErrorKind::MultiDocs,
            Error::InvalidVersion => ErrorKind::InvalidVersion,
            Error::MissingProgram => ErrorKind::MissingProgram,
            Error::MissingArgumentName => ErrorKind::MissingArgumentName,
            Error::InvalidGrammar => ErrorKind::InvalidGrammar,
            Error::Matcher(_) => ErrorKind::Matcher,
        }
    }
}

} // verus!
