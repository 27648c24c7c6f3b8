//! Errors of loading and decoding.

use vstd::prelude::*;
use vstd::string::StringExecFns;

verus! {

/// Why a document was refused.
#[derive(Debug, Clone, PartialEq, Eq)]
pub enum ParseError {
    /// The text is no JSON document; the message says where it breaks.
    Syntax(String),
    /// A value is of another JSON kind than its place takes.
    Unexpected { expected: String },
    /// An object holds a member that its record does not know.
    UnknownField(String),
    /// An object lacks a member that its record requires.
    MissingField(String),
    /// An object that is read as a map holds two members for one key.
    DuplicateKey(String),
    /// A name is not in its closed vocabulary.
    UnknownValue { vocabulary: String, value: String },
    /// A text is no valid encoding of bytes.
    Encoding(String),
}

/// The mathematical value of a [`ParseError`].
pub enum ParseFailure {
    Syntax(Seq<char>),
    Unexpected { expected: Seq<char> },
    UnknownField(Seq<char>),
    MissingField(Seq<char>),
    DuplicateKey(Seq<char>),
    UnknownValue { vocabulary: Seq<char>, value: Seq<char> },
    Encoding(Seq<char>),
}

impl DeepView for ParseError {
    type V = ParseFailure;

    open spec fn deep_view(&self) -> ParseFailure {
        match self {
            ParseError::Syntax(m) => ParseFailure::Syntax(m@),
            ParseError::Unexpected { expected } => ParseFailure::Unexpected { expected: expected@ },
            ParseError::UnknownField(n) => ParseFailure::UnknownField(n@),
            ParseError::MissingField(n) => ParseFailure::MissingField(n@),
            ParseError::DuplicateKey(n) => ParseFailure::DuplicateKey(n@),
            ParseError::UnknownValue { vocabulary, value } => ParseFailure::UnknownValue {
                vocabulary: vocabulary@,
                value: value@,
            },
            ParseError::Encoding(t) => ParseFailure::Encoding(t@),
        }
    }
}

impl ParseFailure {
    /// The refusal in words.
    pub open spec fn message(self) -> Seq<char> {
        match self {
            ParseFailure::Syntax(m) => m,
            ParseFailure::Unexpected { expected } => "expected "@ + expected,
            ParseFailure::UnknownField(n) => "unknown field "@ + n,
            ParseFailure::MissingField(n) => "missing field "@ + n,
            ParseFailure::DuplicateKey(n) => "duplicate key "@ + n,
            ParseFailure::UnknownValue { vocabulary, value } => "unknown value for "@ + vocabulary
                + ": "@ + value,
            ParseFailure::Encoding(t) => "invalid encoding: "@ + t,
        }
    }
}

impl ParseError {
    /// The refusal in words; an unknown value is quoted in them.
    pub fn message(&self) -> (r: String)
        ensures
            r@ == self.deep_view().message(),
    {
        match self {
            ParseError::Syntax(m) => m.clone(),
            ParseError::Unexpected { expected } => "expected ".to_owned().concat(expected.as_str()),
            ParseError::UnknownField(n) => "unknown field ".to_owned().concat(n.as_str()),
            ParseError::MissingField(n) => "missing field ".to_owned().concat(n.as_str()),
            ParseError::DuplicateKey(n) => "duplicate key ".to_owned().concat(n.as_str()),
            ParseError::UnknownValue { vocabulary, value } => "unknown value for ".to_owned().concat(
                vocabulary.as_str(),
            ).concat(": ").concat(value.as_str()),
            ParseError::Encoding(t) => "invalid encoding: ".to_owned().concat(t.as_str()),
        }
    }
}

/// The error type.
#[derive(Debug, Clone, PartialEq, Eq)]
pub enum WycheproofError {
    /// Named data set was not found.
    NoDataSet,
    /// The document was read but is inconsistent.
    InvalidData,
    /// The document could not be read.
    ParsingFailed(ParseError),
}

/// The mathematical value of a [`WycheproofError`].
pub enum LoadFailure {
    NoDataSet,
    InvalidData,
    ParsingFailed(ParseFailure),
}

impl DeepView for WycheproofError {
    type V = LoadFailure;

    open spec fn deep_view(&self) -> LoadFailure {
        match self {
            WycheproofError::NoDataSet => LoadFailure::NoDataSet,
            WycheproofError::InvalidData => LoadFailure::InvalidData,
            WycheproofError::ParsingFailed(e) => LoadFailure::ParsingFailed(e.deep_view()),
        }
    }
}

impl LoadFailure {
    /// The error in words.
    pub open spec fn message(self) -> Seq<char> {
        match self {
            LoadFailure::NoDataSet => "No data set matches provided name"@,
            LoadFailure::InvalidData => "Data set seems to be invalid"@,
            LoadFailure::ParsingFailed(e) => "Parsing JSON failed "@ + e.message(),
        }
    }
}

impl WycheproofError {
    /// The error in words.
    pub fn message(&self) -> (r: String)
        ensures
            r@ == self.deep_view().message(),
    {
        match self {
            WycheproofError::NoDataSet => "No data set matches provided name".to_owned(),
            WycheproofError::InvalidData => "Data set seems to be invalid".to_owned(),
            WycheproofError::ParsingFailed(e) => "Parsing JSON failed ".to_owned().concat(
                e.message().as_str(),
            ),
        }
    }
}

} // verus!
