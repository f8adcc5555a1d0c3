//! Display names, application names and bus names as byte strings, with the
//! comparisons the rest of the library needs: equality, prefix and substring.

use vstd::prelude::*;

verus! {

/// `prefix` stands at the front of `s`.
pub open spec fn starts_with(s: Seq<u8>, prefix: Seq<u8>) -> bool {
    prefix.len() <= s.len() && s.subrange(0, prefix.len() as int) == prefix
}

/// `pat` occupies `s[i .. i + pat.len()]`.
pub open spec fn substring_at(s: Seq<u8>, pat: Seq<u8>, i: int) -> bool {
    0 <= i && i + pat.len() <= s.len() && s.subrange(i, i + pat.len() as int) == pat
}

/// `pat` occurs somewhere in `s`.
pub open spec fn has_substring(s: Seq<u8>, pat: Seq<u8>) -> bool {
    exists|i: int| substring_at(s, pat, i)
}

/// `name` is one of the byte strings in `list`.
pub open spec fn contains_name(list: Seq<Vec<u8>>, name: Seq<u8>) -> bool {
    exists|j: int| 0 <= j < list.len() && list[j]@ == name
}

/// `pat` occupies `s[i .. i + pat.len()]`, decided by comparing the bytes.
fn match_at(s: &Vec<u8>, pat: &Vec<u8>, i: usize) -> (r: bool)
    requires
        i + pat@.len() <= s@.len(),
    ensures
        r == substring_at(s@, pat@, i as int),
{
    let n: usize = s.len();
    let plen: usize = pat.len();
    let mut j: usize = 0;
    while j < plen
        invariant
            n == s@.len(),
            plen == pat@.len(),
            i + plen <= s@.len(),
            j <= plen,
            forall|k: int| 0 <= k < j ==> s@[i + k] == pat@[k],
        decreases plen - j,
    {
        if s[i + j] != pat[j] {
            proof {
                assert(s@.subrange(i as int, i + plen)[j as int] == s@[i + j]);
            }
            return false;
        }
        j += 1;
    }
    proof {
        assert(s@.subrange(i as int, i + plen) =~= pat@);
    }
    true
}

/// Equality of two byte strings.
pub fn bytes_eq(a: &Vec<u8>, b: &Vec<u8>) -> (r: bool)
    ensures
        r == (a@ == b@),
{
    let n: usize = a.len();
    if n != b.len() {
        return false;
    }
    let mut j: usize = 0;
    while j < n
        invariant
            n == a@.len(),
            a@.len() == b@.len(),
            j <= n,
            forall|k: int| 0 <= k < j ==> a@[k] == b@[k],
        decreases n - j,
    {
        if a[j] != b[j] {
            return false;
        }
        j += 1;
    }
    proof {
        assert(a@ =~= b@);
    }
    true
}

/// Whether `s` begins with `prefix`.
pub fn bytes_start_with(s: &Vec<u8>, prefix: &Vec<u8>) -> (r: bool)
    ensures
        r == starts_with(s@, prefix@),
{
    if prefix.len() > s.len() {
        return false;
    }
    match_at(s, prefix, 0)
}

/// Whether `pat` occurs somewhere in `s`.  An empty `pat` occurs in every `s`.
pub fn bytes_contain(s: &Vec<u8>, pat: &Vec<u8>) -> (r: bool)
    ensures
        r == has_substring(s@, pat@),
{
    let n: usize = s.len();
    let plen: usize = pat.len();
    if plen > n {
        return false;
    }
    if plen == 0 {
        proof {
            assert(substring_at(s@, pat@, 0)) by {
                assert(s@.subrange(0, 0) =~= pat@);
            }
        }
        return true;
    }
    let limit: usize = n - plen;
    let mut i: usize = 0;
    while i <= limit
        invariant
            n == s@.len(),
            plen == pat@.len(),
            0 < plen <= n,
            limit == n - plen,
            i <= limit + 1,
            forall|j: int| 0 <= j < i ==> !substring_at(s@, pat@, j),
        decreases limit + 1 - i,
    {
        if match_at(s, pat, i) {
            return true;
        }
        i += 1;
    }
    false
}

/// Whether `name` is one of the byte strings in `list`.
pub fn name_in_list(list: &Vec<Vec<u8>>, name: &Vec<u8>) -> (r: bool)
    ensures
        r == contains_name(list@, name@),
{
    let n: usize = list.len();
    let mut k: usize = 0;
    while k < n
        invariant
            n == list@.len(),
            k <= n,
            forall|j: int| 0 <= j < k ==> list@[j]@ != name@,
        decreases n - k,
    {
        if bytes_eq(&list[k], name) {
            return true;
        }
        k += 1;
    }
    false
}

} // verus!
