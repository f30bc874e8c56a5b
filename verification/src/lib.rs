//! Declarative command-line interfaces for shell scripts: a schema of
//! arguments is compiled into a grammar, a token stream is matched against
//! it, and the outcome is written as `KEY=VALUE` lines.

pub mod argument;
pub mod error;
pub mod grammar;
pub mod matcher;
pub mod matches;
pub mod node;
pub mod output;
pub mod parser;
pub mod shorthand;
pub mod version;
pub mod yaml;

pub use argument::Argument;
pub use error::{Error, ErrorKind, MatchFailure, Result};
pub use grammar::GrammarEntry;
pub use matcher::{normalize_optstring, MAGIC_PROG_NAME};
pub use matches::{MatchResult, Matched};
pub use node::Node;
pub use output::compose_shell_script;
pub use parser::{
    compile, load_documents, match_tokens, parse, validate_root_docs, ArgumentParser,
};
pub use shorthand::extract_short_long_name;
pub use version::Version;
