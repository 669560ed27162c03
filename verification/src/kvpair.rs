//! Parsing of `key=value` command-line arguments: the request-body syntax
//! of the HTTP command-line client.

use vstd::prelude::*;

verus! {

/// The first position at or after `from` where `c` occurs in `s`, or
/// `s.len()` if it does not occur there.
pub open spec fn index_of_char(s: Seq<char>, c: char, from: int) -> int
    decreases s.len() - from when 0 <= from <= s.len()
{
    if from >= s.len() {
        s.len() as int
    } else if s[from] == c {
        from
    } else {
        index_of_char(s, c, from + 1)
    }
}

/// What `key=value` parsing yields: the text before the first `=` and the
/// text between the first `=` and the second one (or the end), or nothing
/// when no `=` occurs.  Anything after a second `=` is ignored.
pub open spec fn kv_of(s: Seq<char>) -> Option<(Seq<char>, Seq<char>)> {
    let i = index_of_char(s, '=', 0);
    if i >= s.len() {
        None
    } else {
        let j = index_of_char(s, '=', i + 1);
        Some((s.subrange(0, i), s.subrange(i + 1, j)))
    }
}

/// `index_of_char` is pinned down by its characteristic facts: nothing
/// before position `i` is `c`, and `i` is the end or holds `c`.
pub proof fn lemma_index_of_char_is(s: Seq<char>, c: char, from: int, i: int)
    requires
        0 <= from <= i <= s.len(),
        forall|j: int| from <= j < i ==> s[j] != c,
        i == s.len() || s[i] == c,
    ensures
        index_of_char(s, c, from) == i,
    decreases i - from,
{
    if from < i {
        lemma_index_of_char_is(s, c, from + 1, i);
    }
}

/// A `key=value` pair taken from the command line.
#[derive(Debug)]
pub struct KvPair {
    pub k: String,
    pub v: String,
}

impl PartialEq for KvPair {
    fn eq(&self, other: &KvPair) -> (r: bool) {
        self.k == other.k && self.v == other.v
    }
}

impl vstd::std_specs::cmp::PartialEqSpecImpl for KvPair {
    open spec fn obeys_eq_spec() -> bool {
        true
    }

    open spec fn eq_spec(&self, other: &KvPair) -> bool {
        self.k@ == other.k@ && self.v@ == other.v@
    }
}

/// The rejected input, handed back when it holds no `=`.
#[derive(Debug)]
pub struct KvParseError {
    pub input: String,
}

/// Finds the first position at or after `from` holding `c`, or the string's
/// length when there is none.
fn find_char(s: &str, c: char, from: usize) -> (r: usize)
    requires
        from <= s@.len(),
    ensures
        from <= r <= s@.len(),
        r == index_of_char(s@, c, from as int),
{
    let n = s.unicode_len();
    let mut i: usize = from;
    while i < n && s.get_char(i) != c
        invariant
            from <= i <= n,
            n == s@.len(),
            forall|j: int| from <= j < i ==> s@[j] != c,
        decreases n - i,
    {
        i = i + 1;
    }
    proof {
        lemma_index_of_char_is(s@, c, from as int, i as int);
    }
    i
}

impl KvPair {
    /// Splits `s` at its first `=` into a key and a value, the value
    /// reaching to the second `=` or the end, exactly as [`kv_of`]
    /// describes; an input without `=` is handed back inside the error.
    pub fn from_str(s: &str) -> (r: Result<KvPair, KvParseError>)
        ensures
            r is Ok <==> kv_of(s@) is Some,
            r matches Ok(p) ==> kv_of(s@) == Some((p.k@, p.v@)),
            r matches Err(e) ==> e.input@ == s@,
    {
        let n = s.unicode_len();
        let i = find_char(s, '=', 0);
        if i >= n {
            return Err(KvParseError { input: s.to_owned() });
        }
        let j = find_char(s, '=', i + 1);
        let k = s.substring_char(0, i).to_owned();
        let v = s.substring_char(i + 1, j).to_owned();
        Ok(KvPair { k, v })
    }
}

/// Parses a `key=value` command-line argument: [`KvPair::from_str`].
pub fn parse_kv_pair(s: &str) -> (r: Result<KvPair, KvParseError>)
    ensures
        r is Ok <==> kv_of(s@) is Some,
        r matches Ok(p) ==> kv_of(s@) == Some((p.k@, p.v@)),
        r matches Err(e) ==> e.input@ == s@,
{
    KvPair::from_str(s)
}

} // verus!
