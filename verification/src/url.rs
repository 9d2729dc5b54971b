//! URL normalization: a request URL must carry a scheme, and a bare
//! host is given `http://`.
use vstd::prelude::*;
use vstd::string::StrSliceExecFns;
use vstd::string::StringExecFns;

verus! {

/// A URL is scheme-prefixed when it starts with `http://` or `https://`.
pub open spec fn has_scheme_prefix(s: Seq<char>) -> bool {
    "http://"@.is_prefix_of(s) || "https://"@.is_prefix_of(s)
}

/// The normalized form of a user-supplied URL: unchanged when a scheme
/// is already present, otherwise prefixed with exactly `http://`.
pub open spec fn normalize_url(s: Seq<char>) -> Seq<char> {
    if has_scheme_prefix(s) {
        s
    } else {
        "http://"@ + s
    }
}

/// Character-by-character prefix test.
fn starts_with_str(s: &str, prefix: &str) -> (r: bool)
    ensures
        r == prefix@.is_prefix_of(s@),
{
    let n = prefix.unicode_len();
    let m = s.unicode_len();
    if m < n {
        return false;
    }
    let mut i: usize = 0;
    while i < n
        invariant
            0 <= i <= n,
            n == prefix@.len(),
            n <= m == s@.len(),
            forall|j: int| 0 <= j < i ==> s@[j] == prefix@[j],
        decreases n - i,
    {
        if s.get_char(i) != prefix.get_char(i) {
            return false;
        }
        i += 1;
    }
    assert(s@.subrange(0, n as int) =~= prefix@);
    true
}

/// Normalizes a URL: returns it unchanged when it already starts with
/// `http://` or `https://`, and otherwise prepends `http://`.
pub fn ensure_url_prefix(url: &str) -> (r: String)
    ensures
        r@ == normalize_url(url@),
{
    if starts_with_str(url, "http://") || starts_with_str(url, "https://") {
        url.to_owned()
    } else {
        let mut out = String::from_str("http://");
        out.append(url);
        out
    }
}

/// A normalized URL always carries a scheme prefix.
pub proof fn lemma_normalized_has_scheme(s: Seq<char>)
    ensures
        has_scheme_prefix(normalize_url(s)),
{
    if !has_scheme_prefix(s) {
        assert(("http://"@ + s).subrange(0, "http://"@.len() as int) =~= "http://"@);
    }
}

/// Normalization is idempotent: normalizing an already-normalized URL
/// changes nothing.
pub proof fn lemma_normalize_idempotent(s: Seq<char>)
    ensures
        normalize_url(normalize_url(s)) == normalize_url(s),
{
    lemma_normalized_has_scheme(s);
}

} // verus!
