//! Small helpers on strings, stated over their character sequences.

use vstd::prelude::*;
use vstd::string::StringExecFns;

verus! {

/// Whether two string slices hold the same characters.
pub fn same_text(a: &str, b: &str) -> (r: bool)
    ensures
        r == (a@ == b@),
{
    let left = a.to_owned();
    let right = b.to_owned();
    left == right
}

/// The concatenation of two string slices.
pub fn join2(a: &str, b: &str) -> (r: String)
    ensures
        r@ == a@ + b@,
{
    String::from_str(a).concat(b)
}

/// The concatenation of three string slices.
pub fn join3(a: &str, b: &str, c: &str) -> (r: String)
    ensures
        r@ == a@ + b@ + c@,
{
    String::from_str(a).concat(b).concat(c)
}

/// The view of an optional string.
pub open spec fn opt_text(t: Option<String>) -> Option<Seq<char>> {
    match t {
        Some(s) => Some(s@),
        None => None,
    }
}

/// The place of the first `sep` in `s`; the length of `s` where it holds none.
pub open spec fn first_sep(s: Seq<char>, sep: char) -> int
    decreases s.len(),
{
    if s.len() == 0 || s[0] == sep {
        0
    } else {
        1 + first_sep(s.skip(1), sep)
    }
}

/// The part of `s` numbered `n`, counting from zero, among the parts that `sep`
/// divides `s` into; nothing where `s` has fewer parts.
pub open spec fn nth_segment(s: Seq<char>, sep: char, n: nat) -> Option<Seq<char>>
    decreases n,
{
    let end = first_sep(s, sep);
    if n == 0 {
        Some(s.take(end))
    } else if end >= s.len() {
        None
    } else {
        nth_segment(s.skip(end + 1), sep, (n - 1) as nat)
    }
}

/// Where `s` holds no `sep` before place `k`, its first `sep` stands at `k` if
/// one stands there, and at the end of `s` if `k` is the end.
pub proof fn lemma_first_sep_at(s: Seq<char>, sep: char, k: int)
    requires
        0 <= k <= s.len(),
        forall|i: int| 0 <= i < k ==> s[i] != sep,
        k == s.len() || s[k] == sep,
    ensures
        first_sep(s, sep) == k,
    decreases k,
{
    if k > 0 {
        let rest = s.skip(1);
        assert forall|i: int| 0 <= i < k - 1 implies rest[i] != sep by {
            assert(rest[i] == s[i + 1]);
        }
        lemma_first_sep_at(rest, sep, k - 1);
    }
}

/// The part of `s` numbered `n` among the parts that `sep` divides `s` into.
pub fn segment(s: &str, sep: char, n: usize) -> (r: Option<String>)
    ensures
        opt_text(r) == nth_segment(s@, sep, n as nat),
{
    let len = s.unicode_len();
    let mut seen: usize = 0;
    let mut start: usize = 0;
    let mut i: usize = 0;
    assert(s@.skip(0) =~= s@);
    while i < len
        invariant
            len == s@.len(),
            start <= i <= len,
            seen <= n,
            forall|k: int| start <= k < i ==> s@[k] != sep,
            nth_segment(s@, sep, n as nat) == nth_segment(
                s@.skip(start as int),
                sep,
                (n - seen) as nat,
            ),
        decreases len - i,
    {
        if s.get_char(i) == sep {
            proof {
                let rest = s@.skip(start as int);
                assert forall|k: int| 0 <= k < i - start implies rest[k] != sep by {
                    assert(rest[k] == s@[start + k]);
                }
                lemma_first_sep_at(rest, sep, i - start);
                assert(rest.skip(i - start + 1) =~= s@.skip(i + 1));
                assert(rest.take(i - start) =~= s@.subrange(start as int, i as int));
            }
            if seen == n {
                let part = s.substring_char(start, i);
                return Some(part.to_owned());
            }
            seen += 1;
            start = i + 1;
        }
        i += 1;
    }
    proof {
        let rest = s@.skip(start as int);
        assert forall|k: int| 0 <= k < len - start implies rest[k] != sep by {
            assert(rest[k] == s@[start + k]);
        }
        lemma_first_sep_at(rest, sep, len - start);
        assert(rest.take(len - start) =~= s@.subrange(start as int, len as int));
    }
    if seen == n {
        let part = s.substring_char(start, len);
        Some(part.to_owned())
    } else {
        None
    }
}

} // verus!
