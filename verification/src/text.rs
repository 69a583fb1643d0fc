//! Character-level text helpers shared by the vector-string grammars.
//!
//! A vector string is ASCII and case-insensitive.  Parsing first maps
//! every ASCII letter to upper case and then scans `/`-separated tokens;
//! everything here is specified over `Seq<char>`.

use vstd::prelude::*;

verus! {

/// ASCII upper-casing of one character; anything but a lower-case ASCII
/// letter is left unchanged.
pub open spec fn upper_char(c: char) -> char {
    match c {
        'a' => 'A',
        'b' => 'B',
        'c' => 'C',
        'd' => 'D',
        'e' => 'E',
        'f' => 'F',
        'g' => 'G',
        'h' => 'H',
        'i' => 'I',
        'j' => 'J',
        'k' => 'K',
        'l' => 'L',
        'm' => 'M',
        'n' => 'N',
        'o' => 'O',
        'p' => 'P',
        'q' => 'Q',
        'r' => 'R',
        's' => 'S',
        't' => 'T',
        'u' => 'U',
        'v' => 'V',
        'w' => 'W',
        'x' => 'X',
        'y' => 'Y',
        'z' => 'Z',
        _ => c,
    }
}

/// ASCII upper-casing of a whole character sequence.
pub open spec fn upper_seq(s: Seq<char>) -> Seq<char> {
    s.map_values(|c: char| upper_char(c))
}

/// Upper-casing distributes over concatenation.
pub proof fn lemma_upper_seq_concat(a: Seq<char>, b: Seq<char>)
    ensures
        upper_seq(a + b) == upper_seq(a) + upper_seq(b),
{
    assert(upper_seq(a + b) =~= upper_seq(a) + upper_seq(b));
}

pub fn to_upper_char(c: char) -> (r: char)
    ensures
        r == upper_char(c),
{
    match c {
        'a' => 'A',
        'b' => 'B',
        'c' => 'C',
        'd' => 'D',
        'e' => 'E',
        'f' => 'F',
        'g' => 'G',
        'h' => 'H',
        'i' => 'I',
        'j' => 'J',
        'k' => 'K',
        'l' => 'L',
        'm' => 'M',
        'n' => 'N',
        'o' => 'O',
        'p' => 'P',
        'q' => 'Q',
        'r' => 'R',
        's' => 'S',
        't' => 'T',
        'u' => 'U',
        'v' => 'V',
        'w' => 'W',
        'x' => 'X',
        'y' => 'Y',
        'z' => 'Z',
        _ => c,
    }
}

/// The characters of `s`, as a vector.
pub fn chars_of(s: &str) -> (v: Vec<char>)
    ensures
        v@ == s@,
{
    let n = s.unicode_len();
    let mut v: Vec<char> = Vec::new();
    let mut i: usize = 0;
    while i < n
        invariant
            n == s@.len(),
            i <= n,
            v@ == s@.take(i as int),
        decreases n - i,
    {
        v.push(s.get_char(i));
        i = i + 1;
        proof {
            assert(v@ =~= s@.take(i as int));
        }
    }
    proof {
        assert(v@ =~= s@);
    }
    v
}

/// The characters of `s` mapped to upper case.
pub fn upper_chars_of(s: &str) -> (v: Vec<char>)
    ensures
        v@ == upper_seq(s@),
{
    let cs = chars_of(s);
    let n = cs.len();
    let mut v: Vec<char> = Vec::new();
    let mut i: usize = 0;
    while i < n
        invariant
            n == cs@.len(),
            cs@ == s@,
            i <= n,
            v@ == upper_seq(s@.take(i as int)),
        decreases n - i,
    {
        v.push(to_upper_char(cs[i]));
        i = i + 1;
        proof {
            assert(v@ =~= upper_seq(s@.take(i as int)));
        }
    }
    proof {
        assert(s@.take(n as int) =~= s@);
    }
    v
}

/// Relies on `String::push`: appends one character at the end.
#[verifier::external_body]
pub fn push_char(s: &mut String, c: char)
    ensures
        final(s)@ == old(s)@.push(c),
{
    s.push(c);
}

/// A `String` holding exactly the characters of `v`.
pub fn string_of_chars(v: &[char]) -> (r: String)
    ensures
        r@ == v@,
{
    let mut r = String::new();
    let n = v.len();
    let mut i: usize = 0;
    while i < n
        invariant
            n == v@.len(),
            i <= n,
            r@ == v@.take(i as int),
        decreases n - i,
    {
        push_char(&mut r, v[i]);
        i = i + 1;
        proof {
            assert(r@ =~= v@.take(i as int));
        }
    }
    proof {
        assert(v@.take(n as int) =~= v@);
    }
    r
}

/// Index of the first occurrence of `c` in `s`, or `-1` if `c` does not
/// occur.
pub open spec fn find(s: Seq<char>, c: char) -> int
    decreases s.len(),
{
    if s.len() == 0 {
        -1
    } else if s[0] == c {
        0
    } else {
        let r = find(s.subrange(1, s.len() as int), c);
        if r < 0 {
            -1
        } else {
            r + 1
        }
    }
}

/// `find` returns `-1` exactly when `c` is absent, and otherwise the
/// position of the first occurrence.
pub proof fn lemma_find(s: Seq<char>, c: char)
    ensures
        find(s, c) == -1 || (0 <= find(s, c) < s.len()),
        find(s, c) >= 0 ==> s[find(s, c)] == c,
        forall|i: int| 0 <= i < s.len() && #[trigger] s[i] == c ==> find(s, c) >= 0,
        forall|i: int| 0 <= i < find(s, c) ==> #[trigger] s[i] != c,
    decreases s.len(),
{
    if s.len() == 0 {
    } else if s[0] == c {
    } else {
        let t = s.subrange(1, s.len() as int);
        lemma_find(t, c);
        if find(t, c) >= 0 {
            assert forall|i: int| 0 <= i < find(s, c) implies #[trigger] s[i] != c by {
                if i >= 1 {
                    assert(t[i - 1] == s[i]);
                    assert(t[i - 1] != c);
                }
            }
        } else {
            assert forall|i: int| 0 <= i < s.len() implies #[trigger] s[i] != c by {
                if i >= 1 {
                    assert(t[i - 1] == s[i]);
                    assert(t[i - 1] != c);
                }
            }
        }
    }
}

/// If `j` is an occurrence of `c` preceded by none, `find` returns `j`.
pub proof fn lemma_find_is(s: Seq<char>, c: char, j: int)
    requires
        0 <= j < s.len(),
        s[j] == c,
        forall|i: int| 0 <= i < j ==> #[trigger] s[i] != c,
    ensures
        find(s, c) == j,
{
    lemma_find(s, c);
}

/// If `c` does not occur in `s`, `find` returns `-1`.
pub proof fn lemma_find_none(s: Seq<char>, c: char)
    requires
        forall|i: int| 0 <= i < s.len() ==> #[trigger] s[i] != c,
    ensures
        find(s, c) == -1,
{
    lemma_find(s, c);
}

/// First position of `c` in `v` at or after `pos`, as an offset into the
/// suffix `v@.skip(pos)`.
pub fn find_from(v: &Vec<char>, pos: usize, c: char) -> (r: Option<usize>)
    requires
        pos <= v@.len(),
    ensures
        match r {
            Option::Some(j) => pos <= j < v@.len() && j - pos == find(v@.skip(pos as int), c),
            Option::None => find(v@.skip(pos as int), c) == -1,
        },
{
    let ghost s = v@.skip(pos as int);
    let n = v.len();
    let mut i: usize = pos;
    while i < n
        invariant
            pos <= i <= n,
            n == v@.len(),
            s == v@.skip(pos as int),
            forall|k: int| pos <= k < i ==> #[trigger] v@[k] != c,
        decreases n - i,
    {
        if v[i] == c {
            proof {
                assert(forall|k: int| 0 <= k < i - pos ==> #[trigger] s[k] == v@[pos + k]);
                lemma_find_is(s, c, i - pos);
            }
            return Option::Some(i);
        }
        i = i + 1;
    }
    proof {
        assert(forall|k: int| 0 <= k < s.len() ==> #[trigger] s[k] == v@[pos + k]);
        lemma_find_none(s, c);
    }
    Option::None
}

} // verus!
