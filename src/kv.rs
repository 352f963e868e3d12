use vstd::prelude::*;

use crate::error::HttpieError;
use crate::text::{chars_of, string_from_chars};

verus! {

/// One `key=value` token of a POST command line.
#[derive(Debug, Clone, PartialEq)]
pub struct KvPair {
    pub k: String,
    pub v: String,
}

/// Length of the first `=`-separated field of `s`: the position of the
/// first `=`, or the whole length where `s` holds none.
pub open spec fn field_len(s: Seq<char>) -> nat
    decreases s.len(),
{
    if s.len() == 0 || s[0] == '=' {
        0
    } else {
        1 + field_len(s.drop_first())
    }
}

/// The text before the first `=` (all of `s` where there is none).
pub open spec fn key_of(s: Seq<char>) -> Seq<char> {
    s.take(field_len(s) as int)
}

/// The second `=`-separated field: the text after the first `=`, up to the
/// next `=` or the end. Anything after a second `=` is not part of it.
pub open spec fn value_of(s: Seq<char>) -> Seq<char> {
    let rest = s.skip(field_len(s) + 1int);
    rest.take(field_len(rest) as int)
}

/// The JSON object built from `pairs`, applied in order: a later pair
/// overwrites an earlier one with the same key.
pub open spec fn body_map(pairs: Seq<KvPair>) -> Map<Seq<char>, Seq<char>>
    decreases pairs.len(),
{
    if pairs.len() == 0 {
        Map::empty()
    } else {
        body_map(pairs.drop_last()).insert(pairs.last().k@, pairs.last().v@)
    }
}

/// No two pairs share a key.
pub open spec fn unique_keys(pairs: Seq<KvPair>) -> bool {
    forall|a: int, b: int| 0 <= a < b < pairs.len() ==> pairs[a].k@ != pairs[b].k@
}

/// Position of the first `=` at or after `start`, or `chars.len()`.
fn field_end(chars: &Vec<char>, start: usize) -> (r: usize)
    requires
        start <= chars.len(),
    ensures
        r == start + field_len(chars@.skip(start as int)),
        start <= r <= chars.len(),
        r < chars.len() ==> chars@[r as int] == '=',
        forall|j: int| start <= j < r ==> chars@[j] != '=',
{
    let mut i: usize = start;
    while i < chars.len() && chars[i] != '='
        invariant
            start <= i <= chars.len(),
            field_len(chars@.skip(start as int)) == (i - start) + field_len(chars@.skip(i as int)),
            forall|j: int| start <= j < i ==> chars@[j] != '=',
        decreases chars.len() - i,
    {
        assert(chars@.skip(i as int).drop_first() =~= chars@.skip(i + 1));
        i += 1;
    }
    if i < chars.len() {
        assert(chars@.skip(i as int)[0] == '=');
    } else {
        assert(chars@.skip(i as int).len() == 0);
    }
    i
}

/// The characters of `chars` from `lo` up to (not including) `hi`.
fn copy_range(chars: &Vec<char>, lo: usize, hi: usize) -> (r: Vec<char>)
    requires
        lo <= hi <= chars.len(),
    ensures
        r@ == chars@.subrange(lo as int, hi as int),
{
    let mut out: Vec<char> = Vec::new();
    let mut i: usize = lo;
    while i < hi
        invariant
            lo <= i <= hi <= chars.len(),
            out@ == chars@.subrange(lo as int, i as int),
        decreases hi - i,
    {
        out.push(chars[i]);
        assert(out@ =~= chars@.subrange(lo as int, i + 1));
        i += 1;
    }
    out
}

impl KvPair {
    /// Splits a token on `=`: the key is the first field, the value the
    /// second. A token with a second `=` keeps only the text between the two
    /// as its value. A token without `=` is refused.
    pub fn from_str(s: &str) -> (r: Result<KvPair, HttpieError>)
        ensures
            r is Ok <==> s@.contains('='),
            r matches Ok(p) ==> p.k@ == key_of(s@) && p.v@ == value_of(s@),
            r matches Err(e) ==> (e matches HttpieError::InvalidKvPair(t) && t@ == s@),
    {
        let chars = chars_of(s);
        let i = field_end(&chars, 0);
        assert(chars@.skip(0) =~= chars@);
        if i == chars.len() {
            return Err(HttpieError::InvalidKvPair(s.to_owned()));
        }
        let j = field_end(&chars, i + 1);
        let key = copy_range(&chars, 0, i);
        let value = copy_range(&chars, i + 1, j);
        proof {
            let rest = s@.skip(i + 1);
            assert(rest.take(field_len(rest) as int) =~= s@.subrange(i + 1, j as int));
            assert(s@.take(i as int) =~= s@.subrange(0, i as int));
        }
        Ok(KvPair { k: string_from_chars(&key), v: string_from_chars(&value) })
    }
}

/// Parses one `key=value` command-line token.
pub fn parse_kv_pair(s: &str) -> (r: Result<KvPair, HttpieError>)
    ensures
        r is Ok <==> s@.contains('='),
        r matches Ok(p) ==> p.k@ == key_of(s@) && p.v@ == value_of(s@),
        r matches Err(e) ==> (e matches HttpieError::InvalidKvPair(t) && t@ == s@),
{
    KvPair::from_str(s)
}


/// Overwriting the value at a key's only position is the same as inserting
/// that key into the body.
proof fn lemma_body_map_update(s: Seq<KvPair>, j: int, p: KvPair)
    requires
        unique_keys(s),
        0 <= j < s.len(),
        s[j].k@ == p.k@,
    ensures
        body_map(s.update(j, p)) == body_map(s).insert(p.k@, p.v@),
    decreases s.len(),
{
    let t = s.update(j, p);
    if j == s.len() - 1 {
        assert(t.drop_last() =~= s.drop_last());
    } else {
        assert(t.drop_last() =~= s.drop_last().update(j, p));
        lemma_body_map_update(s.drop_last(), j, p);
        assert(s[s.len() - 1].k@ != p.k@);
    }
    assert(body_map(t) =~= body_map(s).insert(p.k@, p.v@));
}

/// The fields of the JSON body sent by a POST: one pair per distinct key,
/// holding the value of the last token with that key. Values stay strings.
pub fn json_body_fields(pairs: &Vec<KvPair>) -> (r: Vec<KvPair>)
    ensures
        unique_keys(r@),
        body_map(r@) == body_map(pairs@),
{
    let mut out: Vec<KvPair> = Vec::new();
    let mut i: usize = 0;
    while i < pairs.len()
        invariant
            0 <= i <= pairs.len(),
            unique_keys(out@),
            body_map(out@) == body_map(pairs@.take(i as int)),
        decreases pairs.len() - i,
    {
        let p = &pairs[i];
        let mut j: usize = 0;
        while j < out.len() && !(out[j].k == p.k)
            invariant
                j <= out.len(),
                forall|t: int| 0 <= t < j ==> out@[t].k@ != p.k@,
            decreases out.len() - j,
        {
            j += 1;
        }
        let entry = KvPair { k: p.k.clone(), v: p.v.clone() };
        assert(pairs@.take(i + 1).drop_last() =~= pairs@.take(i as int));
        if j < out.len() {
            proof {
                lemma_body_map_update(out@, j as int, entry);
            }
            out.set(j, entry);
        } else {
            let ghost before = out@;
            out.push(entry);
            assert(out@.drop_last() =~= before);
        }
        i += 1;
    }
    assert(pairs@.take(pairs.len() as int) =~= pairs@);
    out
}

/// A key of the body is exactly a key of some token.
pub proof fn lemma_body_keys(pairs: Seq<KvPair>, key: Seq<char>)
    ensures
        body_map(pairs).contains_key(key) <==> exists|i: int| 0 <= i < pairs.len() && pairs[i].k@ == key,
    decreases pairs.len(),
{
    if pairs.len() > 0 {
        lemma_body_keys(pairs.drop_last(), key);
        if body_map(pairs.drop_last()).contains_key(key) {
            let i = choose|i: int| 0 <= i < pairs.len() - 1 && pairs.drop_last()[i].k@ == key;
            assert(pairs[i].k@ == key);
        }
        if exists|i: int| 0 <= i < pairs.len() && pairs[i].k@ == key {
            let i = choose|i: int| 0 <= i < pairs.len() && pairs[i].k@ == key;
            if i < pairs.len() - 1 {
                assert(pairs.drop_last()[i].k@ == key);
            }
        }
    }
}

/// Last write wins: in the body, a token's key holds that token's value when
/// no later token has the same key.
pub proof fn lemma_last_write_wins(pairs: Seq<KvPair>, i: int)
    requires
        0 <= i < pairs.len(),
        forall|t: int| i < t < pairs.len() ==> pairs[t].k@ != pairs[i].k@,
    ensures
        body_map(pairs).contains_key(pairs[i].k@),
        body_map(pairs)[pairs[i].k@] == pairs[i].v@,
    decreases pairs.len(),
{
    if i < pairs.len() - 1 {
        lemma_last_write_wins(pairs.drop_last(), i);
    }
}

/// A field with no `=`, followed by the end or by an `=`, is the whole first field.
proof fn lemma_field_len_prefix(a: Seq<char>, b: Seq<char>)
    requires
        !a.contains('='),
        b.len() == 0 || b[0] == '=',
    ensures
        field_len(a + b) == a.len(),
    decreases a.len(),
{
    if a.len() > 0 {
        assert((a + b).drop_first() =~= a.drop_first() + b);
        assert((a + b)[0] == a[0]);
        assert(a[0] != '=') by {
            if a[0] == '=' {
                assert(a.contains('='));
            }
        }
        assert(!a.drop_first().contains('=')) by {
            if a.drop_first().contains('=') {
                let i = choose|i: int| 0 <= i < a.drop_first().len() && a.drop_first()[i] == '=';
                assert(a[i + 1] == '=');
            }
        }
        lemma_field_len_prefix(a.drop_first(), b);
    } else {
        assert(a + b =~= b);
    }
}

/// A token written as `key=value`, then nothing or more text that starts with
/// `=`, is accepted and gives back that key and that value, provided neither
/// holds an `=`.
pub proof fn lemma_kv_fields(k: Seq<char>, v: Seq<char>, tail: Seq<char>)
    requires
        !k.contains('='),
        !v.contains('='),
        tail.len() == 0 || tail[0] == '=',
    ensures
        (k + seq!['='] + v + tail).contains('='),
        key_of(k + seq!['='] + v + tail) == k,
        value_of(k + seq!['='] + v + tail) == v,
{
    let s = k + seq!['='] + v + tail;
    let after = seq!['='] + v + tail;
    assert(s =~= k + after);
    lemma_field_len_prefix(k, after);
    assert(s[k.len() as int] == '=');
    assert(s.skip(k.len() + 1int) =~= v + tail);
    lemma_field_len_prefix(v, tail);
    assert(s.take(k.len() as int) =~= k);
    assert((v + tail).take(v.len() as int) =~= v);
}

} // verus!
