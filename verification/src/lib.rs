//! Multi-version vulnerability severity scoring (CVSS 2.0, 3.0/3.1 and 4.0).
//!
//! The crate parses a textual vector string into a typed metric set,
//! validates it against the version-specific grammar, and computes the
//! exploitability, impact and base scores together with a qualitative
//! severity rating.  Scores are held in tenths of a point so that the
//! published rounding rules are reproduced exactly, and every parser and
//! calculator carries a contract pinning its result down.

pub mod cve;
pub mod error;
pub mod metric;
pub mod score;
pub mod severity;
pub mod v3;
pub mod v4;
pub mod text;
pub mod v2;
pub mod vector;
pub mod version;
