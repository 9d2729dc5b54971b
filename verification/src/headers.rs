//! Header handling: parsing `key=value` tokens and building the
//! header collection of a request. The collection is a name-to-value
//! mapping with unique keys; on duplicate names the last write wins.
//! Name canonicalization and value validation are the transport
//! library's own rules, relied upon behind trusted wrappers.
use vstd::prelude::*;
use vstd::string::StrSliceExecFns;

use crate::errors::ClientError;

verus! {

/// The canonical (lowercased) form of a header name, or `None` when the
/// token is not a valid HTTP header name.
pub uninterp spec fn canon_header_name(s: Seq<char>) -> Option<Seq<char>>;

/// Whether a string is a valid HTTP header value.
pub uninterp spec fn header_value_ok(s: Seq<char>) -> bool;

/// Relies on `reqwest::header::HeaderName::from_bytes`: it accepts or
/// rejects a name, and canonicalizes an accepted one, as a
/// deterministic function of the bytes alone.
#[verifier::external_body]
fn try_canon_header_name(name: &str) -> (r: Option<String>)
    ensures
        match r {
            Some(n) => canon_header_name(name@) == Some(n@),
            None => canon_header_name(name@) is None,
        },
{
    match reqwest::header::HeaderName::from_bytes(name.as_bytes()) {
        Ok(n) => Some(n.as_str().to_owned()),
        Err(_) => None,
    }
}

/// Relies on `reqwest::header::HeaderValue::from_str`: it accepts or
/// rejects a value as a deterministic function of the bytes alone.
#[verifier::external_body]
fn check_header_value(value: &str) -> (r: bool)
    ensures
        r == header_value_ok(value@),
{
    reqwest::header::HeaderValue::from_str(value).is_ok()
}

/// The view of a sequence of owned header pairs.
pub open spec fn hview(h: Seq<(String, String)>) -> Seq<(Seq<char>, Seq<char>)> {
    Seq::new(h.len(), |i: int| (h[i].0@, h[i].1@))
}

/// No two pairs share a name.
pub open spec fn unique_keys(s: Seq<(Seq<char>, Seq<char>)>) -> bool {
    forall|i: int, j: int| 0 <= i < j < s.len() ==> s[i].0 != s[j].0
}

/// The mapping described by a pair sequence, later pairs overriding
/// earlier ones.
pub open spec fn pairs_to_map(s: Seq<(Seq<char>, Seq<char>)>) -> Map<Seq<char>, Seq<char>>
    decreases s.len(),
{
    if s.len() == 0 {
        Map::empty()
    } else {
        pairs_to_map(s.drop_last()).insert(s.last().0, s.last().1)
    }
}

/// The header mapping that a sequence of raw `key=value` pairs builds:
/// a pair whose name does not canonicalize, or whose value is invalid,
/// is silently dropped; the rest are inserted in order under the
/// canonical name, the last write winning.
pub open spec fn built_header_map(hs: Seq<(Seq<char>, Seq<char>)>) -> Map<Seq<char>, Seq<char>>
    decreases hs.len(),
{
    if hs.len() == 0 {
        Map::empty()
    } else {
        let m = built_header_map(hs.drop_last());
        match canon_header_name(hs.last().0) {
            Some(n) => if header_value_ok(hs.last().1) {
                m.insert(n, hs.last().1)
            } else {
                m
            },
            None => m,
        }
    }
}

/// A key of the mapping always comes from some pair of the sequence.
proof fn lemma_pairs_to_map_key_present(s: Seq<(Seq<char>, Seq<char>)>, k: Seq<char>)
    requires
        pairs_to_map(s).contains_key(k),
    ensures
        exists|i: int| 0 <= i < s.len() && s[i].0 == k,
    decreases s.len(),
{
    if s.len() > 0 {
        if k == s.last().0 {
            assert(s[s.len() - 1].0 == k);
        } else {
            lemma_pairs_to_map_key_present(s.drop_last(), k);
            let w = choose|w: int| 0 <= w < s.drop_last().len() && s.drop_last()[w].0 == k;
            assert(s[w].0 == k);
        }
    }
}

/// Under unique keys, the mapping sends each pair's name to its value.
proof fn lemma_pairs_to_map_index(s: Seq<(Seq<char>, Seq<char>)>, i: int)
    requires
        unique_keys(s),
        0 <= i < s.len(),
    ensures
        pairs_to_map(s).contains_key(s[i].0),
        pairs_to_map(s)[s[i].0] == s[i].1,
    decreases s.len(),
{
    if i == s.len() - 1 {
    } else {
        assert(unique_keys(s.drop_last()));
        assert(s.drop_last()[i] == s[i]);
        lemma_pairs_to_map_index(s.drop_last(), i);
        assert(s[i].0 != s.last().0);
    }
}

/// Replacing the value at an existing name equals a map insert.
proof fn lemma_pairs_to_map_set(s: Seq<(Seq<char>, Seq<char>)>, i: int, v: Seq<char>)
    requires
        unique_keys(s),
        0 <= i < s.len(),
    ensures
        pairs_to_map(s.update(i, (s[i].0, v))) == pairs_to_map(s).insert(s[i].0, v),
{
    let s2 = s.update(i, (s[i].0, v));
    let m1 = pairs_to_map(s).insert(s[i].0, v);
    let m2 = pairs_to_map(s2);
    assert(forall|w: int| 0 <= w < s.len() ==> s2[w].0 == s[w].0);
    assert(unique_keys(s2));
    assert forall|k: Seq<char>| m2.contains_key(k) implies m1.contains_key(k) by {
        lemma_pairs_to_map_key_present(s2, k);
        let w = choose|w: int| 0 <= w < s2.len() && s2[w].0 == k;
        lemma_pairs_to_map_index(s, w);
    }
    assert forall|k: Seq<char>| m1.contains_key(k) implies m2.contains_key(k) by {
        if k == s[i].0 {
            lemma_pairs_to_map_index(s2, i);
        } else {
            lemma_pairs_to_map_key_present(s, k);
            let w = choose|w: int| 0 <= w < s.len() && s[w].0 == k;
            lemma_pairs_to_map_index(s2, w);
        }
    }
    assert forall|k: Seq<char>| m2.contains_key(k) implies m2[k] == m1[k] by {
        lemma_pairs_to_map_key_present(s2, k);
        let w = choose|w: int| 0 <= w < s2.len() && s2[w].0 == k;
        lemma_pairs_to_map_index(s2, w);
        if w == i {
            assert(m2[k] == v);
        } else {
            lemma_pairs_to_map_index(s, w);
            assert(s[w].0 != s[i].0);
        }
    }
    assert(m2 =~= m1);
}

/// Appending a fresh pair equals a map insert.
proof fn lemma_pairs_to_map_push(s: Seq<(Seq<char>, Seq<char>)>, k: Seq<char>, v: Seq<char>)
    ensures
        pairs_to_map(s.push((k, v))) == pairs_to_map(s).insert(k, v),
{
    assert(s.push((k, v)).drop_last() =~= s);
    assert(s.push((k, v)).last() == (k, v));
}

/// Inserts a pair into a unique-key pair vector, overwriting the value
/// if the name is already present, as a header map's insert does.
pub(crate) fn upsert(out: &mut Vec<(String, String)>, key: String, val: String)
    requires
        unique_keys(hview(old(out)@)),
    ensures
        unique_keys(hview(final(out)@)),
        pairs_to_map(hview(final(out)@)) == pairs_to_map(hview(old(out)@)).insert(key@, val@),
{
    let mut i: usize = 0;
    while i < out.len()
        invariant
            0 <= i <= out@.len(),
            out@ == old(out)@,
            unique_keys(hview(out@)),
            forall|j: int| 0 <= j < i ==> hview(out@)[j].0 != key@,
        decreases out@.len() - i,
    {
        if out[i].0 == key {
            proof {
                let s = hview(out@);
                assert(hview(out@.update(i as int, (key, val))) =~= s.update(i as int, (s[i as int].0, val@)));
                lemma_pairs_to_map_set(s, i as int, val@);
            }
            out.set(i, (key, val));
            return ;
        }
        i += 1;
    }
    proof {
        let s = hview(out@);
        assert(forall|j: int| 0 <= j < s.len() ==> s[j].0 != key@);
        assert(hview(out@.push((key, val))) =~= s.push((key@, val@)));
        lemma_pairs_to_map_push(s, key@, val@);
        assert(unique_keys(s.push((key@, val@))));
    }
    out.push((key, val));
}

/// Parses a `key=value` header token, splitting on the first `=` only,
/// so the value may itself contain `=`. A token with no `=` is an
/// argument error.
pub fn parse_key_val(s: &str) -> (r: Result<(String, String), ClientError>)
    ensures
        r is Ok <==> s@.contains('='),
        r matches Ok(kv) ==> {
            let i = kv.0@.len() as int;
            &&& 0 <= i < s@.len()
            &&& s@[i] == '='
            &&& kv.0@ == s@.subrange(0, i)
            &&& kv.1@ == s@.subrange(i + 1, s@.len() as int)
            &&& forall|j: int| 0 <= j < i ==> s@[j] != '='
        },
        r matches Err(e) ==> e == ClientError::ArgumentError,
{
    let n = s.unicode_len();
    let mut i: usize = 0;
    while i < n
        invariant
            0 <= i <= n,
            n == s@.len(),
            forall|j: int| 0 <= j < i ==> s@[j] != '=',
        decreases n - i,
    {
        if s.get_char(i) == '=' {
            let k = s.substring_char(0, i).to_owned();
            let v = s.substring_char(i + 1, n).to_owned();
            proof {
                assert(s@.contains('=')) by {
                    assert(s@[i as int] == '=');
                }
            }
            return Ok((k, v));
        }
        i += 1;
    }
    proof {
        assert(!s@.contains('=')) by {
            assert(forall|j: int| 0 <= j < s@.len() ==> s@[j] != '=');
        }
    }
    Err(ClientError::ArgumentError)
}

/// Builds the header collection from raw parsed pairs: names are
/// canonicalized, pairs with an invalid name or value are silently
/// dropped, and on duplicate canonical names the last occurrence wins.
pub fn build_headers(headers: &Vec<(String, String)>) -> (r: Vec<(String, String)>)
    ensures
        unique_keys(hview(r@)),
        pairs_to_map(hview(r@)) == built_header_map(hview(headers@)),
{
    let mut out: Vec<(String, String)> = Vec::new();
    proof {
        assert(hview(out@) =~= Seq::<(Seq<char>, Seq<char>)>::empty());
        assert(hview(headers@).take(0) =~= Seq::<(Seq<char>, Seq<char>)>::empty());
    }
    let mut i: usize = 0;
    while i < headers.len()
        invariant
            0 <= i <= headers@.len(),
            unique_keys(hview(out@)),
            pairs_to_map(hview(out@)) == built_header_map(hview(headers@).take(i as int)),
        decreases headers@.len() - i,
    {
        let name_opt = try_canon_header_name(headers[i].0.as_str());
        let value_ok = check_header_value(headers[i].1.as_str());
        proof {
            assert(hview(headers@).take(i + 1).drop_last() =~= hview(headers@).take(i as int));
            assert(hview(headers@).take(i + 1).last() == (headers@[i as int].0@, headers@[i as int].1@));
        }
        match name_opt {
            Some(name) => {
                if value_ok {
                    let val = headers[i].1.clone();
                    upsert(&mut out, name, val);
                }
            },
            None => {},
        }
        i += 1;
    }
    proof {
        assert(hview(headers@).take(headers@.len() as int) =~= hview(headers@));
    }
    out
}

} // verus!
