//! The request body: an ordered string-to-string mapping with
//! last-write-wins insertion, and its JSON serialization.

use crate::json::{append_escaped, esc};
use crate::kv::KvPair;
use crate::text::push_char;
use vstd::prelude::*;
use vstd::string::*;

verus! {

/// An ordered mapping from keys to values, as sent in a POST body. A key
/// occurs at most once; inserting an existing key overwrites its value in
/// place, so the order of first insertion is kept.
#[derive(Debug)]
pub struct RequestBody {
    entries: Vec<(String, String)>,
}

/// The index of the first entry with key `k`, or `s.len()` when no entry
/// has it.
pub open spec fn key_index(s: Seq<(Seq<char>, Seq<char>)>, k: Seq<char>) -> int
    decreases s.len(),
{
    if s.len() == 0 {
        0
    } else if s[0].0 == k {
        0
    } else {
        1 + key_index(s.drop_first(), k)
    }
}

/// What inserting `(k, v)` does to an entry sequence: overwrites the first
/// entry with key `k`, or appends a new entry when the key is absent.
pub open spec fn spec_insert(
    s: Seq<(Seq<char>, Seq<char>)>,
    k: Seq<char>,
    v: Seq<char>,
) -> Seq<(Seq<char>, Seq<char>)> {
    if key_index(s, k) < s.len() {
        s.update(key_index(s, k), (k, v))
    } else {
        s.push((k, v))
    }
}

/// What building a body from a pair sequence yields: each pair inserted in
/// order, later values for a key overwriting earlier ones.
pub open spec fn spec_build(ps: Seq<(Seq<char>, Seq<char>)>) -> Seq<(Seq<char>, Seq<char>)>
    decreases ps.len(),
{
    if ps.len() == 0 {
        Seq::empty()
    } else {
        spec_insert(spec_build(ps.drop_last()), ps.last().0, ps.last().1)
    }
}

/// No two entries share a key.
pub open spec fn keys_unique(s: Seq<(Seq<char>, Seq<char>)>) -> bool {
    forall|i: int, j: int| 0 <= i < j < s.len() ==> s[i].0 != s[j].0
}

/// `key_index` lies between 0 and `s.len()`, no earlier entry has the key,
/// and the entry at it (when inside the sequence) has it.
proof fn lemma_key_index(s: Seq<(Seq<char>, Seq<char>)>, k: Seq<char>)
    ensures
        0 <= key_index(s, k) <= s.len(),
        forall|j: int| 0 <= j < key_index(s, k) ==> s[j].0 != k,
        key_index(s, k) < s.len() ==> s[key_index(s, k)].0 == k,
    decreases s.len(),
{
    if s.len() == 0 {
    } else if s[0].0 == k {
    } else {
        lemma_key_index(s.drop_first(), k);
        assert forall|j: int| 0 <= j < key_index(s, k) implies s[j].0 != k by {
            if j > 0 {
                assert(s.drop_first()[j - 1].0 != k);
            }
        }
    }
}

/// An entry sequence with a matching prefix has its first occurrence of
/// `k` exactly at `i`.
proof fn lemma_key_index_at(s: Seq<(Seq<char>, Seq<char>)>, k: Seq<char>, i: int)
    requires
        0 <= i <= s.len(),
        forall|j: int| 0 <= j < i ==> s[j].0 != k,
        i < s.len() ==> s[i].0 == k,
    ensures
        key_index(s, k) == i,
    decreases i,
{
    if s.len() == 0 {
    } else if i == 0 {
    } else {
        assert(s[0].0 != k);
        assert forall|j: int| 0 <= j < i - 1 implies s.drop_first()[j].0 != k by {
            assert(s[j + 1].0 != k);
        }
        lemma_key_index_at(s.drop_first(), k, i - 1);
    }
}

/// Inserting keeps keys unique.
proof fn lemma_insert_keys_unique(s: Seq<(Seq<char>, Seq<char>)>, k: Seq<char>, v: Seq<char>)
    requires
        keys_unique(s),
    ensures
        keys_unique(spec_insert(s, k, v)),
{
    lemma_key_index(s, k);
}

impl View for RequestBody {
    type V = Seq<(Seq<char>, Seq<char>)>;

    closed spec fn view(&self) -> Seq<(Seq<char>, Seq<char>)> {
        self.entries.deep_view()
    }
}

impl RequestBody {
    /// Every body built through this interface keeps its keys unique.
    pub open spec fn wf(&self) -> bool {
        keys_unique(self@)
    }

    /// An empty mapping.
    pub fn new() -> (r: RequestBody)
        ensures
            r@ == Seq::<(Seq<char>, Seq<char>)>::empty(),
            r.wf(),
    {
        let r = RequestBody { entries: Vec::new() };
        proof {
            assert(r@ =~= Seq::<(Seq<char>, Seq<char>)>::empty());
        }
        r
    }

    /// Inserts one pair, overwriting the value of an existing key in place
    /// (last write wins) and appending a fresh key at the end.
    pub fn insert(&mut self, k: String, v: String)
        requires
            old(self).wf(),
        ensures
            final(self)@ == spec_insert(old(self)@, k@, v@),
            final(self).wf(),
    {
        let n = self.entries.len();
        let mut i: usize = 0;
        while i < n && !string_eq(&self.entries[i].0, &k)
            invariant
                n == self.entries.len(),
                0 <= i <= n,
                self@.len() == n,
                forall|j: int| 0 <= j < i ==> self@[j].0 != k@,
            decreases n - i,
        {
            i = i + 1;
        }
        proof {
            lemma_key_index_at(self@, k@, i as int);
            lemma_insert_keys_unique(self@, k@, v@);
        }
        if i < n {
            self.entries[i] = (k, v);
            proof {
                assert(final(self)@ =~= spec_insert(old(self)@, k@, v@));
            }
        } else {
            self.entries.push((k, v));
            proof {
                assert(final(self)@ =~= spec_insert(old(self)@, k@, v@));
            }
        }
    }

    /// The number of distinct keys held.
    pub fn len(&self) -> (r: usize)
        ensures
            r == self@.len(),
    {
        self.entries.len()
    }

    /// The entries in order, as plain pairs.
    pub fn entries(&self) -> (r: &Vec<(String, String)>)
        ensures
            r.deep_view() == self@,
    {
        &self.entries
    }

    /// Serializes the mapping as a JSON object with string members, in
    /// entry order, with no added whitespace.
    pub fn to_json(&self) -> (r: String)
        ensures
            r@ == json_body(self@),
    {
        let mut out = String::new();
        push_char(&mut out, '{');
        proof {
            assert(out@ =~= seq!['{'] + json_members(self@.take(0)));
        }
        let n = self.entries.len();
        let mut i: usize = 0;
        while i < n
            invariant
                n == self.entries.len(),
                self@.len() == n,
                0 <= i <= n,
                out@ == seq!['{'] + json_members(self@.take(i as int)),
            decreases n - i,
        {
            if i > 0 {
                push_char(&mut out, ',');
            }
            push_char(&mut out, '"');
            append_escaped(&mut out, &self.entries[i].0);
            push_char(&mut out, '"');
            push_char(&mut out, ':');
            push_char(&mut out, '"');
            append_escaped(&mut out, &self.entries[i].1);
            push_char(&mut out, '"');
            proof {
                let s = self@;
                assert(s.take((i + 1) as int).drop_last() =~= s.take(i as int));
                assert(s.take((i + 1) as int).last() == s[i as int]);
                if i == 0 {
                    assert(out@ =~= seq!['{'] + json_members(s.take(1)));
                } else {
                    assert(out@ =~= seq!['{'] + (json_members(s.take(i as int)) + seq![',']
                        + json_member(s[i as int].0, s[i as int].1)));
                }
            }
            i = i + 1;
        }
        push_char(&mut out, '}');
        proof {
            assert(self@.take(n as int) =~= self@);
            assert(out@ =~= seq!['{'] + json_members(self@) + seq!['}']);
        }
        out
    }
}

/// The JSON text of one string-to-string member.
pub open spec fn json_member(k: Seq<char>, v: Seq<char>) -> Seq<char> {
    seq!['"'] + esc(k) + seq!['"', ':', '"'] + esc(v) + seq!['"']
}

/// The JSON text of the members of an object, comma-separated, in order.
pub open spec fn json_members(s: Seq<(Seq<char>, Seq<char>)>) -> Seq<char>
    decreases s.len(),
{
    if s.len() == 0 {
        Seq::empty()
    } else if s.len() == 1 {
        json_member(s[0].0, s[0].1)
    } else {
        json_members(s.drop_last()) + seq![','] + json_member(s.last().0, s.last().1)
    }
}

/// The JSON text of a whole request body: an object of string members.
pub open spec fn json_body(s: Seq<(Seq<char>, Seq<char>)>) -> Seq<char> {
    seq!['{'] + json_members(s) + seq!['}']
}

/// Compares two strings for character equality.
fn string_eq(a: &String, b: &String) -> (r: bool)
    ensures
        r == (a@ == b@),
{
    a.eq(b)
}

/// Builds a request body from parsed pairs, inserting them in order so
/// that the last value supplied for a key wins.
pub fn build_body(pairs: &Vec<KvPair>) -> (r: RequestBody)
    ensures
        r@ == spec_build(Seq::new(pairs@.len(), |i: int| (pairs@[i].k@, pairs@[i].v@))),
        r.wf(),
{
    let ghost ps = Seq::new(pairs@.len(), |i: int| (pairs@[i].k@, pairs@[i].v@));
    let mut body = RequestBody::new();
    let mut i: usize = 0;
    while i < pairs.len()
        invariant
            0 <= i <= pairs@.len(),
            ps == Seq::new(pairs@.len(), |j: int| (pairs@[j].k@, pairs@[j].v@)),
            body@ == spec_build(ps.take(i as int)),
            body.wf(),
        decreases pairs@.len() - i,
    {
        let k = pairs[i].k.clone();
        let v = pairs[i].v.clone();
        body.insert(k, v);
        proof {
            assert(ps.take((i + 1) as int).drop_last() =~= ps.take(i as int));
            assert(ps.take((i + 1) as int).last() == ps[i as int]);
        }
        i = i + 1;
    }
    proof {
        assert(ps.take(ps.len() as int) =~= ps);
    }
    body
}

} // verus!
