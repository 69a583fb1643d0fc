//! The `/`-separated token grammar shared by every vector-string parser.
//!
//! A vector string is a version prefix followed by `KEY:v` fields in a
//! fixed order.  The parser is a pure left-to-right scan: it peels one
//! token at a time, checks the key against the metric expected at that
//! position, and accepts a single letter from that metric's set.  The
//! first failure wins; nothing is accumulated.
//!
//! The scan state is `Option`: `Some` holds the not-yet-consumed suffix
//! (possibly empty, which is one empty token), `None` means the token
//! iterator is exhausted.

use vstd::prelude::*;
use crate::error::{CVSSError, CVSSErrorSeq};
use crate::text::{find, find_from, string_of_chars, chars_of};
use crate::text::{upper_seq, upper_char, lemma_upper_seq_concat};
use crate::text::{lemma_find_is, lemma_find_none};
use vstd::slice::slice_subrange;

verus! {

/// The first `/`-separated token of `s` (all of `s` when no `/` occurs).
pub open spec fn tok(s: Seq<char>) -> Seq<char> {
    if find(s, '/') < 0 {
        s
    } else {
        s.take(find(s, '/'))
    }
}

/// What is left after the first token: `None` when no `/` occurs.
pub open spec fn rest(s: Seq<char>) -> Option<Seq<char>> {
    if find(s, '/') < 0 {
        Option::None
    } else {
        Option::Some(s.skip(find(s, '/') + 1))
    }
}

/// A token followed by the remaining scan state: `t` alone when the
/// state is exhausted, otherwise `t`, a separator, and the remainder.
pub open spec fn cons_token(t: Seq<char>, rst: Option<Seq<char>>) -> Seq<char> {
    match rst {
        Option::None => t,
        Option::Some(r) => t + seq!['/'] + r,
    }
}

/// One formatted field: `KEY:v`.
pub open spec fn field_seq(key: Seq<char>, c: char) -> Seq<char> {
    key + seq![':'] + seq![c]
}

/// Whether token `t` is exactly the field `key` with one letter out of
/// `letters`.
pub open spec fn field_ok(t: Seq<char>, key: Seq<char>, letters: Seq<char>) -> bool {
    &&& t.len() == key.len() + 2
    &&& t.take(key.len() as int) == key
    &&& t[key.len() as int] == ':'
    &&& letters.contains(t[key.len() as int + 1])
}

/// Consume the field `key` from scan state `st`: the accepted letter and
/// the new state, or the error naming the metric that could not be
/// obtained.  A missing token reports an empty `value`; a malformed
/// token or unaccepted letter reports the whole token.
pub open spec fn parse_field(
    st: Option<Seq<char>>,
    key: Seq<char>,
    letters: Seq<char>,
    expected: Seq<char>,
) -> Result<(char, Option<Seq<char>>), CVSSErrorSeq> {
    match st {
        Option::None => Result::Err(
            CVSSErrorSeq::InvalidCVSS { key: key, value: Seq::empty(), expected: expected },
        ),
        Option::Some(s) => {
            let t = tok(s);
            if field_ok(t, key, letters) {
                Result::Ok((t[key.len() as int + 1], rest(s)))
            } else {
                Result::Err(CVSSErrorSeq::InvalidCVSS { key: key, value: t, expected: expected })
            }
        },
    }
}

/// The scan state over the upper-cased character vector `s`: a suffix
/// start position, or exhaustion.
pub open spec fn state_view(s: Seq<char>, st: Option<usize>) -> Option<Seq<char>> {
    match st {
        Option::None => Option::None,
        Option::Some(p) => Option::Some(s.skip(p as int)),
    }
}

/// A scan position never points past the end.
pub open spec fn state_ok(s: Seq<char>, st: Option<usize>) -> bool {
    match st {
        Option::None => true,
        Option::Some(p) => p <= s.len(),
    }
}

/// The error for a token that is present but does not fit its field.
fn mk_field_err(norm: &Vec<char>, p: usize, end: usize, key: &str, expected: &str) -> (e:
    CVSSError)
    requires
        p <= end <= norm@.len(),
    ensures
        e@ == (CVSSErrorSeq::InvalidCVSS {
            key: key@,
            value: norm@.subrange(p as int, end as int),
            expected: expected@,
        }),
{
    let value = string_of_chars(slice_subrange(norm.as_slice(), p, end));
    CVSSError::InvalidCVSS { key: key.to_owned(), value, expected: expected.to_owned() }
}

/// Executable form of [`parse_field`] over the upper-cased characters
/// `norm` of the vector string.
pub fn parse_field_exec(
    norm: &Vec<char>,
    st: Option<usize>,
    key: &str,
    letters: &str,
    expected: &str,
) -> (r: Result<(char, Option<usize>), CVSSError>)
    requires
        state_ok(norm@, st),
    ensures
        (match r {
            Result::Ok((c, st2)) => parse_field(state_view(norm@, st), key@, letters@, expected@)
                == Result::<(char, Option<Seq<char>>), CVSSErrorSeq>::Ok(
                (c, state_view(norm@, st2)),
            ) && state_ok(norm@, st2),
            Result::Err(e) => parse_field(state_view(norm@, st), key@, letters@, expected@)
                == Result::<(char, Option<Seq<char>>), CVSSErrorSeq>::Err(e@),
        }),
{
    let p = match st {
        Option::Some(p) => p,
        Option::None => {
            return Result::Err(
                CVSSError::InvalidCVSS {
                    key: key.to_owned(),
                    value: String::new(),
                    expected: expected.to_owned(),
                },
            );
        },
    };
    let ghost s = norm@.skip(p as int);
    let n = norm.len();
    // token boundaries and the next state
    let (end, st2) = match find_from(norm, p, '/') {
        Option::Some(j) => (j, Option::Some(j + 1)),
        Option::None => (n, Option::<usize>::None),
    };
    proof {
        assert(tok(s) =~= norm@.subrange(p as int, end as int));
        if find(s, '/') >= 0 {
            assert(s.skip(find(s, '/') + 1) =~= norm@.skip(end + 1));
        }
    }
    let ghost t = tok(s);
    let kc = chars_of(key);
    let klen = kc.len();
    let tl = end - p;
    if tl < 2 || tl - 2 != klen {
        return Result::Err(mk_field_err(norm, p, end, key, expected));
    }
    // the key, character by character
    let mut eq = true;
    let mut i: usize = 0;
    while i < klen
        invariant
            klen == key@.len(),
            kc@ == key@,
            p + klen + 2 == end <= norm@.len(),
            i <= klen,
            t == norm@.subrange(p as int, end as int),
            eq ==> forall|k: int| 0 <= k < i ==> #[trigger] t[k] == key@[k],
            !eq ==> t.take(klen as int) != key@,
        decreases klen - i,
    {
        if norm[p + i] != kc[i] {
            proof {
                assert(t.take(klen as int)[i as int] != key@[i as int]);
            }
            eq = false;
        }
        i = i + 1;
    }
    if !eq {
        return Result::Err(mk_field_err(norm, p, end, key, expected));
    }
    proof {
        assert(t.take(klen as int) =~= key@);
    }
    if norm[p + klen] != ':' {
        return Result::Err(mk_field_err(norm, p, end, key, expected));
    }
    // the letter must come from this metric's set
    let letter = norm[p + klen + 1];
    let lc = chars_of(letters);
    let mut found = false;
    let mut j: usize = 0;
    while j < lc.len()
        invariant
            lc@ == letters@,
            j <= lc@.len(),
            found ==> letters@.contains(letter),
            !found ==> forall|k: int| 0 <= k < j ==> #[trigger] letters@[k] != letter,
        decreases lc@.len() - j,
    {
        if lc[j] == letter {
            found = true;
        }
        j = j + 1;
    }
    if found {
        proof {
            assert(field_ok(t, key@, letters@));
        }
        Result::Ok((letter, st2))
    } else {
        proof {
            assert(!letters@.contains(t[klen as int + 1]));
        }
        Result::Err(mk_field_err(norm, p, end, key, expected))
    }
}

/// Parsing a canonically formatted field consumes exactly that field and
/// hands back the rest of the scan state.
pub proof fn lemma_field_token(
    key: Seq<char>,
    c: char,
    letters: Seq<char>,
    expected: Seq<char>,
    rst: Option<Seq<char>>,
)
    requires
        forall|i: int| 0 <= i < key.len() ==> #[trigger] key[i] != '/' && key[i] != ':',
        c != '/',
        letters.contains(c),
    ensures
        parse_field(Option::Some(cons_token(field_seq(key, c), rst)), key, letters, expected)
            == Result::<(char, Option<Seq<char>>), CVSSErrorSeq>::Ok((c, rst)),
{
    let t0 = field_seq(key, c);
    let kl = key.len() as int;
    assert(t0.len() == kl + 2);
    assert(forall|i: int| 0 <= i < kl ==> #[trigger] t0[i] == key[i]);
    assert(t0[kl] == ':');
    assert(t0[kl + 1] == c);
    match rst {
        Option::None => {
            let s = cons_token(t0, rst);
            assert(s == t0);
            assert forall|i: int| 0 <= i < s.len() implies #[trigger] s[i] != '/' by {
                if i < kl {
                    assert(s[i] == key[i]);
                }
            }
            lemma_find_none(s, '/');
            assert(tok(s) == t0);
            assert(t0.take(kl) =~= key);
            assert(field_ok(t0, key, letters));
        },
        Option::Some(r) => {
            let s = cons_token(t0, rst);
            assert(s.len() == kl + 3 + r.len());
            assert(s[kl + 2] == '/');
            assert forall|i: int| 0 <= i < kl + 2 implies #[trigger] s[i] != '/' by {
                assert(s[i] == t0[i]);
                if i < kl {
                    assert(t0[i] == key[i]);
                }
            }
            lemma_find_is(s, '/', kl + 2);
            assert(tok(s) =~= t0);
            assert(t0.take(kl) =~= key);
            assert(field_ok(t0, key, letters));
            assert(s.skip(kl + 3) =~= r);
        },
    }
}

/// The key of a token: what stands before its first `:` (the whole
/// token when it has none).
pub open spec fn token_key(t: Seq<char>) -> Seq<char> {
    if find(t, ':') < 0 {
        t
    } else {
        t.take(find(t, ':'))
    }
}

/// Upper-casing a formatted field upper-cases its parts.
pub proof fn lemma_upper_field(key: Seq<char>, c: char)
    ensures
        upper_seq(field_seq(key, c)) == field_seq(upper_seq(key), upper_char(c)),
{
    lemma_upper_seq_concat(key + seq![':'], seq![c]);
    lemma_upper_seq_concat(key, seq![':']);
    assert(upper_seq(seq![':']) =~= seq![':']);
    assert(upper_seq(seq![c]) =~= seq![upper_char(c)]);
}

/// Upper-casing a token chain upper-cases its parts.
pub proof fn lemma_upper_cons(t: Seq<char>, r: Seq<char>)
    ensures
        upper_seq(cons_token(t, Option::Some(r))) == cons_token(
            upper_seq(t),
            Option::Some(upper_seq(r)),
        ),
{
    lemma_upper_seq_concat(t + seq!['/'], r);
    lemma_upper_seq_concat(t, seq!['/']);
    assert(upper_seq(seq!['/']) =~= seq!['/']);
}

/// Consume the optional field `key` from scan state `st`: absence — an
/// exhausted state or a token whose key names a different metric — is
/// valid and yields no letter; a token that names this metric must
/// carry one letter out of `letters`.
pub open spec fn parse_opt_field(
    st: Option<Seq<char>>,
    key: Seq<char>,
    letters: Seq<char>,
    expected: Seq<char>,
) -> Result<(Option<char>, Option<Seq<char>>), CVSSErrorSeq> {
    match st {
        Option::None => Result::Ok((Option::None, Option::None)),
        Option::Some(s) => {
            let t = tok(s);
            if token_key(t) == key {
                if field_ok(t, key, letters) {
                    Result::Ok((Option::Some(t[key.len() as int + 1]), rest(s)))
                } else {
                    Result::Err(
                        CVSSErrorSeq::InvalidCVSS { key: key, value: t, expected: expected },
                    )
                }
            } else {
                Result::Ok((Option::None, st))
            }
        },
    }
}

/// Executable form of [`parse_opt_field`] over the upper-cased
/// characters `norm` of the vector string.
pub fn parse_opt_field_exec(
    norm: &Vec<char>,
    st: Option<usize>,
    key: &str,
    letters: &str,
    expected: &str,
) -> (r: Result<(Option<char>, Option<usize>), CVSSError>)
    requires
        state_ok(norm@, st),
    ensures
        (match r {
            Result::Ok((c, st2)) => parse_opt_field(
                state_view(norm@, st),
                key@,
                letters@,
                expected@,
            ) == Result::<(Option<char>, Option<Seq<char>>), CVSSErrorSeq>::Ok(
                (c, state_view(norm@, st2)),
            ) && state_ok(norm@, st2),
            Result::Err(e) => parse_opt_field(state_view(norm@, st), key@, letters@, expected@)
                == Result::<(Option<char>, Option<Seq<char>>), CVSSErrorSeq>::Err(e@),
        }),
{
    let p = match st {
        Option::Some(p) => p,
        Option::None => {
            return Result::Ok((Option::None, Option::None));
        },
    };
    let ghost s = norm@.skip(p as int);
    let n = norm.len();
    let (end, st2) = match find_from(norm, p, '/') {
        Option::Some(j) => (j, Option::Some(j + 1)),
        Option::None => (n, Option::<usize>::None),
    };
    proof {
        assert(tok(s) =~= norm@.subrange(p as int, end as int));
        if find(s, '/') >= 0 {
            assert(s.skip(find(s, '/') + 1) =~= norm@.skip(end + 1));
        }
    }
    let ghost t = tok(s);
    // the token's own key: everything before its first `:`
    let kend = match find_from(norm, p, ':') {
        Option::Some(j) => if j < end {
            j
        } else {
            end
        },
        Option::None => end,
    };
    proof {
        let sp = norm@.skip(p as int);
        crate::text::lemma_find(sp, ':');
        assert forall|k: int| p <= k < kend implies #[trigger] norm@[k] != ':' by {
            assert(sp[k - p] == norm@[k]);
        }
        if kend < end {
            assert(sp[kend - p] == ':');
        }
        lemma_find_colon_in_token(norm@, p as int, end as int, kend as int);
        assert(token_key(t) =~= norm@.subrange(p as int, kend as int));
    }
    let kc = chars_of(key);
    let klen = kc.len();
    // does this token name the awaited metric?
    let mut same = kend - p == klen;
    if same {
        let mut i: usize = 0;
        while i < klen
            invariant
                klen == key@.len(),
                kc@ == key@,
                p + klen == kend <= norm@.len(),
                i <= klen,
                same ==> forall|k: int| 0 <= k < i ==> #[trigger] norm@[p + k] == key@[k],
                !same ==> norm@.subrange(p as int, kend as int) != key@,
            decreases klen - i,
        {
            if norm[p + i] != kc[i] {
                proof {
                    if same {
                        assert(norm@.subrange(p as int, kend as int)[i as int] != key@[i as int]);
                    }
                }
                same = false;
            }
            i = i + 1;
        }
        proof {
            if same {
                assert forall|k: int|
                    0 <= k < kend - p implies norm@.subrange(p as int, kend as int)[k]
                    == key@[k] by {
                    assert(norm@[p + k] == key@[k]);
                }
                assert(norm@.subrange(p as int, kend as int) =~= key@);
            }
        }
    } else {
        proof {
            assert(token_key(t).len() != key@.len());
        }
    }
    if !same {
        return Result::Ok((Option::None, st));
    }
    // it does: parse it as a required field
    match parse_field_exec(norm, st, key, letters, expected) {
        Result::Ok((c, st3)) => Result::Ok((Option::Some(c), st3)),
        Result::Err(e) => Result::Err(e),
    }
}

/// Within the token `[p, end)` of `s`, position `kend` is where the
/// token's key ends: the first `:` if the token has one, else the
/// token's end.
pub proof fn lemma_find_colon_in_token(s: Seq<char>, p: int, end: int, kend: int)
    requires
        0 <= p <= end <= s.len(),
        tok(s.skip(p)) == s.subrange(p, end),
        p <= kend <= end,
        kend < end ==> s[kend] == ':',
        forall|k: int| p <= k < kend ==> #[trigger] s[k] != ':',
        kend == end ==> forall|k: int| p <= k < end ==> #[trigger] s[k] != ':',
    ensures
        token_key(tok(s.skip(p))) == s.subrange(p, kend),
{
    let t = tok(s.skip(p));
    assert(t.len() == end - p);
    assert(forall|k: int| 0 <= k < end - p ==> #[trigger] t[k] == s[p + k]);
    if kend < end {
        assert(t[kend - p] == ':');
        assert forall|k: int| 0 <= k < kend - p implies #[trigger] t[k] != ':' by {
            assert(t[k] == s[p + k]);
        }
        lemma_find_is(t, ':', kend - p);
        assert(token_key(t) =~= s.subrange(p, kend));
    } else {
        assert forall|k: int| 0 <= k < t.len() implies #[trigger] t[k] != ':' by {
            assert(t[k] == s[p + k]);
        }
        lemma_find_none(t, ':');
        assert(token_key(t) =~= s.subrange(p, kend));
    }
}

/// [`lemma_find_colon_in_token`], phrased for a caller that has the
/// token's bounds but no `tok` equation yet.
pub proof fn lemma_find_colon_in_token2(s: Seq<char>, p: int, end: int, kend: int)
    requires
        0 <= p <= end <= s.len(),
        tok(s.skip(p)) == s.subrange(p, end),
        p <= kend <= end,
        kend < end ==> s[kend] == ':',
        forall|k: int| p <= k < kend ==> #[trigger] s[k] != ':',
        kend == end ==> forall|k: int| p <= k < end ==> #[trigger] s[k] != ':',
    ensures
        token_key(tok(s.skip(p))) == s.subrange(p, kend),
{
    lemma_find_colon_in_token(s, p, end, kend);
}

/// Parsing a canonically formatted optional field consumes it.
pub proof fn lemma_opt_field_token(
    key: Seq<char>,
    c: char,
    letters: Seq<char>,
    expected: Seq<char>,
    rst: Option<Seq<char>>,
)
    requires
        forall|i: int| 0 <= i < key.len() ==> #[trigger] key[i] != '/' && key[i] != ':',
        c != '/',
        letters.contains(c),
    ensures
        parse_opt_field(Option::Some(cons_token(field_seq(key, c), rst)), key, letters, expected)
            == Result::<(Option<char>, Option<Seq<char>>), CVSSErrorSeq>::Ok((Option::Some(c), rst)),
{
    lemma_field_token(key, c, letters, expected, rst);
    let s = cons_token(field_seq(key, c), rst);
    let t = tok(s);
    assert(field_ok(t, key, letters));
    assert(t[key.len() as int] == ':');
    assert forall|k: int| 0 <= k < key.len() implies #[trigger] t[k] != ':' by {
        assert(t[k] == key[k]);
    }
    lemma_find_is(t, ':', key.len() as int);
    assert(token_key(t) =~= key);
}

/// A token whose key names another metric leaves an optional field
/// unconsumed.
pub proof fn lemma_opt_field_skip(
    key: Seq<char>,
    other: Seq<char>,
    c: char,
    letters: Seq<char>,
    expected: Seq<char>,
    rst: Option<Seq<char>>,
)
    requires
        forall|i: int| 0 <= i < other.len() ==> #[trigger] other[i] != '/' && other[i] != ':',
        c != '/',
        other != key,
    ensures
        parse_opt_field(Option::Some(cons_token(field_seq(other, c), rst)), key, letters, expected)
            == Result::<(Option<char>, Option<Seq<char>>), CVSSErrorSeq>::Ok(
            (Option::None, Option::Some(cons_token(field_seq(other, c), rst))),
        ),
{
    let s = cons_token(field_seq(other, c), rst);
    let t0 = field_seq(other, c);
    let kl = other.len() as int;
    match rst {
        Option::None => {
            assert forall|i: int| 0 <= i < s.len() implies #[trigger] s[i] != '/' by {
                if i < kl {
                    assert(s[i] == other[i]);
                }
            }
            lemma_find_none(s, '/');
            assert(tok(s) == t0);
        },
        Option::Some(r) => {
            assert(s[kl + 2] == '/');
            assert forall|i: int| 0 <= i < kl + 2 implies #[trigger] s[i] != '/' by {
                assert(s[i] == t0[i]);
                if i < kl {
                    assert(t0[i] == other[i]);
                }
            }
            lemma_find_is(s, '/', kl + 2);
            assert(tok(s) =~= t0);
        },
    }
    let t = tok(s);
    assert(t[kl] == ':');
    assert forall|k: int| 0 <= k < kl implies #[trigger] t[k] != ':' by {
        assert(t[k] == other[k]);
    }
    lemma_find_is(t, ':', kl);
    assert(token_key(t) =~= other);
}

} // verus!
