//! The error surface of the engine.
//!
//! Three kinds only, each carrying enough context to reconstruct a
//! diagnostic without re-parsing: a vector string without any `/`
//! separator, a recognized-but-unsupported (or unrecognized) version
//! prefix, and a single malformed or missing metric field.

use vstd::prelude::*;

verus! {

/// Why a vector string was rejected.
#[derive(Debug, Clone)]
pub enum CVSSError {
    /// The input has no `/` separator at all, so no version prefix can
    /// be split off; `value` is the whole input.
    InvalidPrefix { value: String },
    /// The version prefix does not name a version this grammar accepts;
    /// `value` is the name of the recognized version and `expected` the
    /// versions the caller asked for.
    InvalidCVSSVersion { value: String, expected: String },
    /// A required metric field is missing or malformed; `key` names the
    /// metric, `value` what was found, `expected` what would have been
    /// accepted.
    InvalidCVSS { key: String, value: String, expected: String },
}

/// The mathematical shape of a [`CVSSError`]: the same three kinds over
/// character sequences.
pub enum CVSSErrorSeq {
    InvalidPrefix { value: Seq<char> },
    InvalidCVSSVersion { value: Seq<char>, expected: Seq<char> },
    InvalidCVSS { key: Seq<char>, value: Seq<char>, expected: Seq<char> },
}

impl View for CVSSError {
    type V = CVSSErrorSeq;

    open spec fn view(&self) -> CVSSErrorSeq {
        match self {
            CVSSError::InvalidPrefix { value } => CVSSErrorSeq::InvalidPrefix { value: value@ },
            CVSSError::InvalidCVSSVersion { value, expected } => CVSSErrorSeq::InvalidCVSSVersion {
                value: value@,
                expected: expected@,
            },
            CVSSError::InvalidCVSS { key, value, expected } => CVSSErrorSeq::InvalidCVSS {
                key: key@,
                value: value@,
                expected: expected@,
            },
        }
    }
}

impl CVSSError {
    /// A human-readable diagnostic.
    pub fn message(&self) -> String {
        match self {
            CVSSError::InvalidPrefix { value } => {
                let mut m = String::new();
                m.append("invalid CVSS prefix: ");
                m.append(value.as_str());
                m
            },
            CVSSError::InvalidCVSSVersion { value, expected } => {
                let mut m = String::new();
                m.append("invalid CVSS version: ");
                m.append(value.as_str());
                m.append(", expected: ");
                m.append(expected.as_str());
                m
            },
            CVSSError::InvalidCVSS { key, value, expected } => {
                let mut m = String::new();
                m.append("invalid CVSS field ");
                m.append(key.as_str());
                m.append(": ");
                m.append(value.as_str());
                m.append(", expected: ");
                m.append(expected.as_str());
                m
            },
        }
    }
}

} // verus!
