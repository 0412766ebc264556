//! The `key=value` token parser: splits a body token on its first `=`.

use crate::errors::HttpError;
use vstd::prelude::*;
use vstd::string::*;

verus! {

/// One parsed `key=value` body token. The key is never empty; the value
/// may be.
#[derive(Debug, Clone, PartialEq, Eq)]
pub struct KvPair {
    pub k: String,
    pub v: String,
}

/// True when no character of `s` is `=`.
pub open spec fn eq_free(s: Seq<char>) -> bool {
    forall|i: int| 0 <= i < s.len() ==> s[i] != '='
}

/// The index of the first `=` in `s`, or `s.len()` when there is none.
pub open spec fn first_eq(s: Seq<char>) -> int
    decreases s.len(),
{
    if s.len() == 0 {
        0
    } else if s[0] == '=' {
        0
    } else {
        1 + first_eq(s.drop_first())
    }
}

/// What parsing a token yields: the text before the first `=` as key and
/// everything after it as value, provided the token has an `=` and the key
/// is non-empty; `None` otherwise.
pub open spec fn spec_parse_kv(s: Seq<char>) -> Option<(Seq<char>, Seq<char>)> {
    let i = first_eq(s);
    if 1 <= i < s.len() {
        Some((s.take(i), s.skip(i + 1)))
    } else {
        None
    }
}

/// A sequence whose first `i` characters avoid `=` and whose character at
/// `i` (if any) is `=` has its first `=` exactly at `i`.
proof fn lemma_first_eq_at(s: Seq<char>, i: int)
    requires
        0 <= i <= s.len(),
        forall|j: int| 0 <= j < i ==> s[j] != '=',
        i < s.len() ==> s[i] == '=',
    ensures
        first_eq(s) == i,
    decreases i,
{
    if s.len() == 0 {
    } else if i == 0 {
    } else {
        assert(s[0] != '=');
        assert forall|j: int| 0 <= j < i - 1 implies s.drop_first()[j] != '=' by {
            assert(s[j + 1] != '=');
        }
        lemma_first_eq_at(s.drop_first(), i - 1);
    }
}

/// A token without `=` parses to nothing: by `parse_kv_pair`'s contract it
/// is rejected with `MalformedPair`.
pub proof fn lemma_no_eq_fails(s: Seq<char>)
    requires
        eq_free(s),
    ensures
        spec_parse_kv(s) is None,
{
    lemma_first_eq_at(s, s.len() as int);
}

/// For a non-empty key `k` without `=`, the token `k + "=" + v` parses to
/// exactly the pair `(k, v)`.
pub proof fn lemma_parse_concat(k: Seq<char>, v: Seq<char>)
    requires
        k.len() >= 1,
        eq_free(k),
    ensures
        spec_parse_kv(k + seq!['='] + v) == Some((k, v)),
{
    let s = k + seq!['='] + v;
    assert forall|j: int| 0 <= j < k.len() implies s[j] != '=' by {
        assert(s[j] == k[j]);
    }
    assert(s[k.len() as int] == '=');
    lemma_first_eq_at(s, k.len() as int);
    assert(s.take(k.len() as int) =~= k);
    assert(s.skip(k.len() as int + 1) =~= v);
}

/// Parses one `key=value` token, splitting on the first `=`. Succeeds
/// exactly when the token holds an `=` preceded by a non-empty key, and
/// otherwise reports the whole token as a malformed pair.
pub fn parse_kv_pair(s: &str) -> (r: Result<KvPair, HttpError>)
    ensures
        match spec_parse_kv(s@) {
            Some(p) => r matches Ok(kv) && kv.k@ == p.0 && kv.v@ == p.1,
            None => r matches Err(HttpError::MalformedPair(t)) && t@ == s@,
        },
{
    let n = s.unicode_len();
    let mut i: usize = 0;
    while i < n && s.get_char(i) != '='
        invariant
            n == s@.len(),
            0 <= i <= n,
            forall|j: int| 0 <= j < i ==> s@[j] != '=',
        decreases n - i,
    {
        i = i + 1;
    }
    proof {
        lemma_first_eq_at(s@, i as int);
    }
    if 1 <= i && i < n {
        let k = s.substring_char(0, i);
        let v = s.substring_char(i + 1, n);
        Ok(KvPair { k: String::from_str(k), v: String::from_str(v) })
    } else {
        Err(HttpError::MalformedPair(String::from_str(s)))
    }
}

} // verus!
