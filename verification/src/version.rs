//! Schema versions this library understands.

use vstd::prelude::*;
use vstd::string::StringExecFns;

verus! {

/// A schema version.
#[derive(Debug, Clone, Copy, PartialEq, Eq, Structural)]
pub enum Version {
    V1_0_0,
}

/// Why a text is not a schema version.
#[derive(Debug, Clone, Copy, PartialEq, Eq, Structural)]
pub enum ParseError {
    VariantNotFound,
}

impl Version {
    /// The text that names this version in a schema.
    pub open spec fn text(self) -> Seq<char> {
        match self {
            Version::V1_0_0 => "1.0.0"@,
        }
    }

    /// The version that a text names, if any.
    pub open spec fn parse(text: Seq<char>) -> Option<Version> {
        if text == Version::V1_0_0.text() {
            Some(Version::V1_0_0)
        } else {
            None
        }
    }

    /// The texts of all supported versions, in the order of declaration.
    pub open spec fn supported() -> Seq<Seq<char>> {
        seq![Version::V1_0_0.text()]
    }

    pub fn to_string(&self) -> (text: String)
        ensures
            text@ == self.text(),
    {
        match self {
            Version::V1_0_0 => String::from_str("1.0.0"),
        }
    }

    /// The version that a text names; `VariantNotFound` where it names
    /// none.
    pub fn try_from(text: &str) -> (version: Result<Version, ParseError>)
        ensures
            version == match Version::parse(text@) {
                Some(v) => Ok::<Version, ParseError>(v),
                None => Err(ParseError::VariantNotFound),
            },
    {
        if text.to_owned() == Version::V1_0_0.to_string() {
            Ok(Version::V1_0_0)
        } else {
            Err(ParseError::VariantNotFound)
        }
    }

    /// The texts of the versions that a schema may declare.
    pub fn supported_versions() -> (versions: Vec<String>)
        ensures
            versions.deep_view() == Version::supported(),
    {
        let mut versions: Vec<String> = Vec::new();
        versions.push(Version::V1_0_0.to_string());
        assert(versions.deep_view() =~= Version::supported());
        versions
    }
}

/// A text names a version exactly where it is one of the supported texts,
/// and a version's own text names it.
pub proof fn lemma_supported_versions_parse(text: Seq<char>)
    ensures
        Version::parse(text) is Some <==> Version::supported().contains(text),
        forall|v: Version| Version::parse(v.text()) == Some(v),
{
    if Version::parse(text) is Some {
        assert(Version::supported()[0] == text);
    }
}

/// The one supported version is written `1.0.0`.
pub proof fn lemma_version_text()
    ensures
        Version::V1_0_0.text() == seq!['1', '.', '0', '.', '0'],
{
    reveal_strlit("1.0.0");
    assert(Version::V1_0_0.text() =~= seq!['1', '.', '0', '.', '0']);
}

} // verus!
