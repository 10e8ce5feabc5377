//! Base-URL normalization and construction of the beta base URL.

use vstd::prelude::*;

use crate::text::chars_vec;
use crate::text::subvec;
use crate::text::vec_eq_str;
use vstd::string::StringExecFns;

verus! {

/// The base URL with every trailing `'/'` removed.
pub open spec fn norm_spec(s: Seq<char>) -> Seq<char>
    decreases s.len(),
{
    if s.len() > 0 && s[s.len() - 1] == '/' {
        norm_spec(s.drop_last())
    } else {
        s
    }
}

/// A normalized URL either is empty or does not end in `'/'`.
pub proof fn lemma_norm_no_trailing_slash(s: Seq<char>)
    ensures
        norm_spec(s).len() > 0 ==> norm_spec(s)[norm_spec(s).len() - 1] != '/',
    decreases s.len(),
{
    if s.len() > 0 && s[s.len() - 1] == '/' {
        lemma_norm_no_trailing_slash(s.drop_last());
    }
}

/// Normalization changes nothing once the last character is not a slash.
pub proof fn lemma_norm_fixed(s: Seq<char>)
    requires
        s.len() == 0 || s[s.len() - 1] != '/',
    ensures
        norm_spec(s) == s,
{
}

/// Base-URL normalization is idempotent.
pub proof fn lemma_norm_idempotent(s: Seq<char>)
    ensures
        norm_spec(norm_spec(s)) == norm_spec(s),
{
    lemma_norm_no_trailing_slash(s);
    lemma_norm_fixed(norm_spec(s));
}

/// Removes every trailing `'/'` from a base URL; all other inputs are
/// returned unchanged.
pub fn normalize_base_url(input: &str) -> (r: String)
    ensures
        r@ == norm_spec(input@),
{
    let n = input.unicode_len();
    let mut end = n;
    proof {
        assert(input@.take(n as int) =~= input@);
    }
    while end > 0 && input.get_char(end - 1) == '/'
        invariant
            end <= n,
            n == input@.len(),
            norm_spec(input@) == norm_spec(input@.take(end as int)),
        decreases end,
    {
        proof {
            assert(input@.take(end as int).drop_last() =~= input@.take(end - 1));
        }
        end = end - 1;
    }
    proof {
        lemma_norm_fixed(input@.take(end as int));
    }
    let sub = input.substring_char(0, end);
    sub.to_owned()
}

/// Whether `suf` is a suffix of `s`.
pub open spec fn ends_with(s: Seq<char>, suf: Seq<char>) -> bool {
    suf.len() <= s.len() && s.skip(s.len() - suf.len()) == suf
}

/// The beta base URL: the normalized base URL with `/beta` appended, unless
/// it already ends in `/beta`.
pub open spec fn beta_spec(s: Seq<char>) -> Seq<char> {
    let n = norm_spec(s);
    if ends_with(n, "/beta"@) {
        n
    } else {
        n + "/beta"@
    }
}

/// Beta-URL construction is idempotent.
pub proof fn lemma_beta_idempotent(s: Seq<char>)
    ensures
        beta_spec(beta_spec(s)) == beta_spec(s),
{
    reveal_strlit("/beta");
    let n = norm_spec(s);
    lemma_norm_idempotent(s);
    if ends_with(n, "/beta"@) {
        lemma_norm_no_trailing_slash(s);
        lemma_norm_fixed(n);
    } else {
        let b = n + "/beta"@;
        assert(b[b.len() - 1] == 'a');
        lemma_norm_fixed(b);
        assert(b.skip(b.len() - 5) =~= "/beta"@);
        assert(ends_with(b, "/beta"@));
    }
}

/// Builds the beta base URL from any base URL.
pub fn build_beta_base_url(base: &str) -> (r: String)
    ensures
        r@ == beta_spec(base@),
{
    let normalized = normalize_base_url(base);
    let nv = chars_vec(normalized.as_str());
    let ln = nv.len();
    let suffix_matches = if ln >= 5 {
        let tail = subvec(&nv, ln - 5, ln);
        let m = vec_eq_str(&tail, "/beta");
        proof {
            reveal_strlit("/beta");
            assert(nv@.subrange(ln - 5, ln as int) =~= nv@.skip(ln - 5));
        }
        m
    } else {
        proof {
            reveal_strlit("/beta");
        }
        false
    };
    if suffix_matches {
        normalized
    } else {
        normalized.concat("/beta")
    }
}

/// Joins a normalized base URL and a path.
pub fn request_url(base: &str, path: &str) -> (r: String)
    ensures
        r@ == norm_spec(base@) + path@,
{
    normalize_base_url(base).concat(path)
}

} // verus!
