//! Character and string helpers shared by the parser and the classifier.

use vstd::prelude::*;

verus! {

/// ASCII lower-casing of one character; anything but `'A'..='Z'` is unchanged.
pub open spec fn lower_char(c: char) -> char {
    if 'A' <= c && c <= 'Z' {
        (((c as u8) + 32) as char)
    } else {
        c
    }
}

/// Executable ASCII lower-casing, equal to [`lower_char`].
pub(crate) fn to_lower(c: char) -> (r: char)
    ensures
        r == lower_char(c),
{
    if 'A' <= c && c <= 'Z' {
        (((c as u8) + 32) as char)
    } else {
        c
    }
}

/// `needle` occurs in `hay` starting at position `k`, comparing characters
/// after ASCII lower-casing of the haystack (the needle is taken as given).
pub open spec fn ci_matches_at(hay: Seq<char>, needle: Seq<char>, k: int) -> bool {
    &&& 0 <= k
    &&& k + needle.len() <= hay.len()
    &&& forall|j: int| 0 <= j < needle.len() ==> lower_char(#[trigger] hay[k + j]) == needle[j]
}

/// `needle` occurs somewhere in `hay`, case-insensitively on the ASCII range.
pub open spec fn ci_contains(hay: Seq<char>, needle: Seq<char>) -> bool {
    exists|k: int| ci_matches_at(hay, needle, k)
}

/// Case-insensitive substring search: the haystack is ASCII-lower-cased
/// character by character and compared against the needle as given.
pub(crate) fn contains_ci(hay: &str, needle: &str) -> (r: bool)
    ensures
        r == ci_contains(hay@, needle@),
{
    let hlen = hay.unicode_len();
    let nlen = needle.unicode_len();
    if nlen > hlen {
        proof {
            assert(forall|k: int| !ci_matches_at(hay@, needle@, k));
        }
        return false;
    }
    let mut k: usize = 0;
    while k <= hlen - nlen
        invariant
            nlen <= hlen,
            hlen == hay@.len(),
            nlen == needle@.len(),
            k <= hlen - nlen + 1,
            forall|q: int| 0 <= q < k ==> !ci_matches_at(hay@, needle@, q),
        decreases hlen - nlen - k + 1,
    {
        let mut j: usize = 0;
        let mut ok: bool = true;
        while j < nlen
            invariant
                nlen <= hlen,
                hlen == hay@.len(),
                nlen == needle@.len(),
                k + nlen <= hlen,
                j <= nlen,
                ok ==> forall|p: int| 0 <= p < j
                    ==> lower_char(#[trigger] hay@[k + p]) == needle@[p],
                !ok ==> !ci_matches_at(hay@, needle@, k as int),
            decreases nlen - j,
        {
            if to_lower(hay.get_char(k + j)) != needle.get_char(j) {
                proof {
                    assert(!ci_matches_at(hay@, needle@, k as int));
                }
                ok = false;
                j = nlen;
            } else {
                j = j + 1;
            }
        }
        if ok {
            proof {
                assert(ci_matches_at(hay@, needle@, k as int));
            }
            return true;
        }
        k = k + 1;
    }
    proof {
        assert(forall|q: int| ci_matches_at(hay@, needle@, q) ==> 0 <= q <= hlen - nlen);
    }
    false
}

/// The characters of `v` spell exactly the string `s`.
pub(crate) fn chars_eq_str(v: &Vec<char>, s: &str) -> (r: bool)
    ensures
        r == (v@ == s@),
{
    let n = s.unicode_len();
    if v.len() != n {
        proof {
            assert(v@.len() != s@.len());
        }
        return false;
    }
    let mut i: usize = 0;
    while i < n
        invariant
            n == s@.len(),
            v@.len() == n,
            i <= n,
            forall|p: int| 0 <= p < i ==> v@[p] == s@[p],
        decreases n - i,
    {
        if v[i] != s.get_char(i) {
            proof {
                assert(v@ != s@);
            }
            return false;
        }
        i = i + 1;
    }
    proof {
        assert(v@ =~= s@);
    }
    true
}

/// Relies on `String::push`: appends one character at the end of the string.
#[verifier::external_body]
fn push_char(s: &mut String, c: char)
    ensures
        final(s)@ == old(s)@.push(c),
{
    s.push(c);
}

/// A `String` spelling exactly the given characters.
pub(crate) fn string_from_chars(v: &Vec<char>) -> (r: String)
    ensures
        r@ == v@,
{
    let mut s = String::new();
    let mut i: usize = 0;
    while i < v.len()
        invariant
            i <= v.len(),
            s@ =~= v@.subrange(0, i as int),
        decreases v.len() - i,
    {
        push_char(&mut s, v[i]);
        i = i + 1;
    }
    proof {
        assert(s@ =~= v@);
    }
    s
}

} // verus!
