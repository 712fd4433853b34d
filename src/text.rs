//! Bounded text fields and the scope-containment test.

use vstd::prelude::*;
use vstd::string::StrSliceExecFns;

verus! {

/// The length of a text in bytes, as UTF-8 encodes it and as `str::len`
/// reports it.
pub open spec fn byte_len(s: Seq<char>) -> usize {
    vstd::utf8::encode_utf8(s).len() as usize
}

/// Whether a text of `s` fits a field of `bound` bytes.
pub open spec fn fits(s: Seq<char>, bound: usize) -> bool {
    byte_len(s) <= bound
}

/// Whether `needle` occurs in `hay` as a contiguous run of characters.
pub open spec fn contains_text(hay: Seq<char>, needle: Seq<char>) -> bool {
    exists|i: int| 0 <= i <= hay.len() - needle.len() && #[trigger] hay.subrange(i, i + needle.len()) == needle
}

/// Whether `s` fits a field of `bound` bytes.
pub fn fits_bound(s: &String, bound: usize) -> (r: bool)
    ensures
        r == fits(s@, bound),
{
    s.as_str().len() <= bound
}

/// Whether `needle` matches `hay` at character position `at`.
fn matches_at(hay: &str, needle: &str, at: usize, hay_len: usize, needle_len: usize) -> (r: bool)
    requires
        hay_len == hay@.len(),
        needle_len == needle@.len(),
        at + needle_len <= hay_len,
    ensures
        r == (hay@.subrange(at as int, at + needle_len) == needle@),
{
    let mut j: usize = 0;
    while j < needle_len
        invariant
            0 <= j <= needle_len,
            hay_len == hay@.len(),
            needle_len == needle@.len(),
            at + needle_len <= hay_len,
            forall|k: int| 0 <= k < j ==> hay@[at + k] == needle@[k],
        decreases needle_len - j,
    {
        if hay.get_char(at + j) != needle.get_char(j) {
            assert(hay@.subrange(at as int, at + needle_len)[j as int] != needle@[j as int]);
            return false;
        }
        j = j + 1;
    }
    assert(hay@.subrange(at as int, at + needle_len) =~= needle@);
    true
}

/// Whether `needle` occurs in `hay`: the test by which a consent's scope
/// covers a data type.
pub fn contains(hay: &String, needle: &String) -> (r: bool)
    ensures
        r == contains_text(hay@, needle@),
{
    let h = hay.as_str();
    let n = needle.as_str();
    let hay_len = h.unicode_len();
    let needle_len = n.unicode_len();
    if needle_len > hay_len {
        return false;
    }
    if needle_len == 0 {
        assert(hay@.subrange(0int, 0int + needle@.len()) =~= needle@);
        return true;
    }
    let mut i: usize = 0;
    while i <= hay_len - needle_len
        invariant
            hay_len == hay@.len(),
            needle_len == needle@.len(),
            0 < needle_len <= hay_len,
            h@ == hay@,
            n@ == needle@,
            i <= hay_len - needle_len + 1,
            forall|k: int| 0 <= k < i ==> #[trigger] hay@.subrange(k, k + needle_len) != needle@,
        decreases hay_len - needle_len + 1 - i,
    {
        if matches_at(h, n, i, hay_len, needle_len) {
            return true;
        }
        i = i + 1;
    }
    false
}

} // verus!
