//! The CVSS version tag and its textual form.

use vstd::prelude::*;
use crate::error::CVSSError;
use crate::text::{upper_seq, upper_chars_of};
use vstd::string::StringExecFns;

verus! {

/// The CVSS standards a vector string may declare.
///
/// `Unknown` is both the default and the sentinel for an absent or
/// unrecognized version prefix; it is never a valid input to a
/// calculator.
#[derive(Debug, Clone, Copy, PartialEq, Eq, Structural)]
pub enum Version {
    Unknown,
    V2_0,
    V3_0,
    V3_1,
    V4_0,
}

impl Default for Version {
    /// The default version is the unparsed sentinel.
    fn default() -> (r: Self)
        ensures
            r == Version::Unknown,
    {
        Version::Unknown
    }
}

/// The version named by an upper-cased prefix token: an optional literal
/// `CVSS:` tag followed by `2.0`, `3.0`, `3.1` or `4.0`; anything else —
/// empty, malformed or unrecognized — is `Unknown`.
pub open spec fn version_from_seq(p: Seq<char>) -> Version {
    let q = if p.len() >= 5 && p[0] == 'C' && p[1] == 'V' && p[2] == 'S' && p[3] == 'S' && p[4]
        == ':' {
        p.skip(5)
    } else {
        p
    };
    if q.len() == 3 && q[0] == '2' && q[1] == '.' && q[2] == '0' {
        Version::V2_0
    } else if q.len() == 3 && q[0] == '3' && q[1] == '.' && q[2] == '0' {
        Version::V3_0
    } else if q.len() == 3 && q[0] == '3' && q[1] == '.' && q[2] == '1' {
        Version::V3_1
    } else if q.len() == 3 && q[0] == '4' && q[1] == '.' && q[2] == '0' {
        Version::V4_0
    } else {
        Version::Unknown
    }
}

/// The name a version prints as; the sentinel prints as `NONE`.
pub open spec fn version_name_seq(v: Version) -> Seq<char> {
    match v {
        Version::Unknown => seq!['N', 'O', 'N', 'E'],
        Version::V2_0 => seq!['2', '.', '0'],
        Version::V3_0 => seq!['3', '.', '0'],
        Version::V3_1 => seq!['3', '.', '1'],
        Version::V4_0 => seq!['4', '.', '0'],
    }
}

/// The version named by the character range `[from, to)` of `v`, which
/// must already be upper-cased.
pub fn version_from_chars(v: &Vec<char>, from: usize, to: usize) -> (r: Version)
    requires
        from <= to <= v@.len(),
    ensures
        r == version_from_seq(v@.subrange(from as int, to as int)),
{
    let ghost p = v@.subrange(from as int, to as int);
    let start = if to - from >= 5 && v[from] == 'C' && v[from + 1] == 'V' && v[from + 2] == 'S'
        && v[from + 3] == 'S' && v[from + 4] == ':' {
        from + 5
    } else {
        from
    };
    let ghost q = v@.subrange(start as int, to as int);
    proof {
        if start == from + 5 {
            assert(q =~= p.skip(5));
        }
    }
    if to - start == 3 {
        let a = v[start];
        let b = v[start + 1];
        let c = v[start + 2];
        if a == '2' && b == '.' && c == '0' {
            Version::V2_0
        } else if a == '3' && b == '.' && c == '0' {
            Version::V3_0
        } else if a == '3' && b == '.' && c == '1' {
            Version::V3_1
        } else if a == '4' && b == '.' && c == '0' {
            Version::V4_0
        } else {
            Version::Unknown
        }
    } else {
        Version::Unknown
    }
}

impl Version {
    /// Recognize a version tag, case-insensitively, with or without the
    /// leading `CVSS:` literal.  An unrecognized tag is reported as
    /// `Unknown`, not as an error.
    pub fn from_str(s: &str) -> (r: Result<Version, CVSSError>)
        ensures
            r == Result::<Version, CVSSError>::Ok(version_from_seq(upper_seq(s@))),
    {
        let u = upper_chars_of(s);
        let n = u.len();
        proof {
            assert(u@.subrange(0, n as int) =~= upper_seq(s@));
        }
        Result::Ok(version_from_chars(&u, 0, n))
    }

    /// The name this version prints as.
    pub fn name(&self) -> (r: String)
        ensures
            r@ == version_name_seq(*self),
    {
        let r = match self {
            Version::Unknown => "NONE",
            Version::V2_0 => "2.0",
            Version::V3_0 => "3.0",
            Version::V3_1 => "3.1",
            Version::V4_0 => "4.0",
        };
        proof {
            reveal_strlit("NONE");
            reveal_strlit("2.0");
            reveal_strlit("3.0");
            reveal_strlit("3.1");
            reveal_strlit("4.0");
            assert(r@ =~= version_name_seq(*self));
        }
        r.to_owned()
    }
}

} // verus!
