//! Small verified helpers on Unicode text.

use vstd::prelude::*;
use vstd::utf8::encode_utf8;

verus! {

/// Number of bytes in the UTF-8 encoding of `s`.
pub open spec fn utf8_byte_len(s: Seq<char>) -> nat {
    encode_utf8(s).len()
}

/// `needle` occurs in `haystack` as a contiguous run of characters.
pub open spec fn occurs_in(haystack: Seq<char>, needle: Seq<char>) -> bool {
    exists|i: int|
        0 <= i && i + needle.len() <= haystack.len() && #[trigger] haystack.subrange(
            i,
            i + needle.len(),
        ) == needle
}

/// Every text occurs wherever it is written in: between any prefix and suffix; and
/// nothing occurs in a shorter text.
pub proof fn occurrences(prefix: Seq<char>, needle: Seq<char>, suffix: Seq<char>, haystack: Seq<char>)
    ensures
        occurs_in(prefix + needle + suffix, needle),
        needle.len() > haystack.len() ==> !occurs_in(haystack, needle),
{
    let h = prefix + needle + suffix;
    assert(h.subrange(prefix.len() as int, (prefix.len() + needle.len()) as int) =~= needle);
}

/// A text occurs in another exactly when the other splits around it: some prefix,
/// the text, some suffix.
pub proof fn occurrence_is_a_split(haystack: Seq<char>, needle: Seq<char>)
    ensures
        occurs_in(haystack, needle) <==> exists|prefix: Seq<char>, suffix: Seq<char>|
            haystack == #[trigger] (prefix + needle + suffix),
{
    if occurs_in(haystack, needle) {
        let i = choose|i: int|
            0 <= i && i + needle.len() <= haystack.len() && #[trigger] haystack.subrange(
                i,
                i + needle.len(),
            ) == needle;
        let prefix = haystack.subrange(0, i);
        let suffix = haystack.subrange(i + needle.len(), haystack.len() as int);
        assert(haystack =~= prefix + needle + suffix);
    }
    if exists|prefix: Seq<char>, suffix: Seq<char>| haystack == #[trigger] (prefix + needle + suffix) {
        let (prefix, suffix) = choose|prefix: Seq<char>, suffix: Seq<char>|
            haystack == #[trigger] (prefix + needle + suffix);
        occurrences(prefix, needle, suffix, haystack);
    }
}

/// The characters of `s`, one by one.
pub fn chars_of(s: &str) -> (v: Vec<char>)
    ensures
        v@ == s@,
{
    let n = s.unicode_len();
    let mut v: Vec<char> = Vec::new();
    let mut i: usize = 0;
    while i < n
        invariant
            n == s@.len(),
            i <= n,
            v@ == s@.take(i as int),
        decreases n - i,
    {
        let c = s.get_char(i);
        v.push(c);
        assert(s@.take(i + 1) == s@.take(i as int).push(c));
        i = i + 1;
    }
    assert(s@.take(n as int) == s@);
    v
}

/// Whether `needle` occurs in `haystack` starting at position `start`.
fn occurs_at(haystack: &Vec<char>, needle: &Vec<char>, start: usize) -> (r: bool)
    requires
        start + needle.len() <= haystack.len(),
    ensures
        r == (haystack@.subrange(start as int, start + needle.len()) == needle@),
{
    let mut j: usize = 0;
    while j < needle.len()
        invariant
            start + needle.len() <= haystack.len(),
            j <= needle.len(),
            forall|k: int| 0 <= k < j ==> haystack@[start + k] == needle@[k],
        decreases needle.len() - j,
    {
        if haystack[start + j] != needle[j] {
            assert(haystack@.subrange(start as int, start + needle.len())[j as int] != needle@[j as int]);
            return false;
        }
        j = j + 1;
    }
    assert(haystack@.subrange(start as int, start + needle.len()) =~= needle@);
    true
}

/// Whether `needle` occurs somewhere in `haystack` (what `str::contains` answers for a
/// string pattern).
pub fn contains_text(haystack: &str, needle: &str) -> (r: bool)
    ensures
        r == occurs_in(haystack@, needle@),
{
    let h = chars_of(haystack);
    let n = chars_of(needle);
    if n.len() > h.len() {
        return false;
    }
    let last = h.len() - n.len();
    let mut i: usize = 0;
    loop
        invariant
            h@ == haystack@,
            n@ == needle@,
            last == h.len() - n.len(),
            n.len() <= h.len(),
            i <= last,
            forall|k: int| 0 <= k < i ==> #[trigger] h@.subrange(k, k + n@.len()) != n@,
        decreases last - i,
    {
        if occurs_at(&h, &n, i) {
            assert(h@.subrange(i as int, i + n@.len()) == n@);
            return true;
        }
        if i == last {
            return false;
        }
        i = i + 1;
    }
}

} // verus!
