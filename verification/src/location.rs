//! The syntax of a storage location: `scheme://bucket`, with an optional `/key` behind it.

use vstd::prelude::*;
use vstd::string::*;

verus! {

/// Whether `c` is an ASCII letter.
pub open spec fn is_letter(c: char) -> bool {
    ('a' <= c && c <= 'z') || ('A' <= c && c <= 'Z')
}

/// Whether `c` may stand in a scheme: an ASCII letter or digit, `+`, `-` or `.`.
pub open spec fn is_scheme_char(c: char) -> bool {
    is_letter(c) || ('0' <= c && c <= '9') || c == '+' || c == '-' || c == '.'
}

/// Whether `s` splits at `k` into a scheme, the separator `://` and a
/// bucket that is not empty.
pub open spec fn splits_at(s: Seq<char>, k: int) -> bool {
    &&& 0 < k
    &&& k + 3 < s.len()
    &&& is_letter(s[0])
    &&& forall|i: int| 0 <= i < k ==> is_scheme_char(#[trigger] s[i])
    &&& s[k] == ':'
    &&& s[k + 1] == '/'
    &&& s[k + 2] == '/'
    &&& s[k + 3] != '/'
}

/// Whether `s` is an object-storage URI: a scheme that starts with a letter,
/// then `://`, then a bucket of at least one character.
pub open spec fn is_object_uri(s: Seq<char>) -> bool {
    exists|k: int| splits_at(s, k)
}

/// Tells whether `c` is an ASCII letter.
pub fn letter(c: char) -> (r: bool)
    ensures
        r == is_letter(c),
{
    (c >= 'a' && c <= 'z') || (c >= 'A' && c <= 'Z')
}

/// Tells whether `c` may stand in a scheme.
pub fn scheme_char(c: char) -> (r: bool)
    ensures
        r == is_scheme_char(c),
{
    letter(c) || (c >= '0' && c <= '9') || c == '+' || c == '-' || c == '.'
}

/// Decides whether `location` is an object-storage URI.
pub fn object_uri(location: &str) -> (r: bool)
    ensures
        r == is_object_uri(location@),
{
    let n: usize = location.unicode_len();
    let mut k: usize = 0;
    while k < n && scheme_char(location.get_char(k))
        invariant
            k <= n,
            n == location@.len(),
            forall|i: int| 0 <= i < k ==> is_scheme_char(#[trigger] location@[i]),
        decreases n - k,
    {
        k = k + 1;
    }
    // `k` is now the first place that holds no scheme character, so no other split can do.
    assert(forall|j: int| splits_at(location@, j) ==> j == k) by {
        assert forall|j: int| splits_at(location@, j) implies j == k by {
            assert(!is_scheme_char(location@[j]));
            if j < k {
                assert(is_scheme_char(location@[j]));
            }
            if k < j {
                assert(is_scheme_char(location@[k as int]));
            }
        }
    }
    if k == 0 || n < 4 || k >= n - 3 {
        return false;
    }
    let found: bool = letter(location.get_char(0)) && location.get_char(k) == ':'
        && location.get_char(k + 1) == '/' && location.get_char(k + 2) == '/'
        && location.get_char(k + 3) != '/';
    proof {
        if found {
            assert(splits_at(location@, k as int));
        }
    }
    found
}

} // verus!
