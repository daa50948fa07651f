//! Small text operations on which the launch decisions rest.
use vstd::prelude::*;
use vstd::string::*;
use crate::signal::{is_white, white_char_of};

verus! {

/// `lo..hi` is what is left of `s` once the white space at both ends is cut.
pub open spec fn trim_span(s: Seq<char>, lo: int, hi: int) -> bool {
    &&& 0 <= lo <= hi <= s.len()
    &&& forall|i: int| 0 <= i < lo ==> is_white(#[trigger] s[i])
    &&& forall|i: int| hi <= i < s.len() ==> is_white(#[trigger] s[i])
    &&& lo < hi ==> !is_white(s[lo]) && !is_white(s[hi - 1])
}

/// `t` is `s` without the white space at both ends.
pub open spec fn is_trim_of(s: Seq<char>, t: Seq<char>) -> bool {
    exists|lo: int, hi: int| trim_span(s, lo, hi) && t == s.subrange(lo, hi)
}

/// The text that `s` trims to.
pub open spec fn trim_of(s: Seq<char>) -> Seq<char> {
    choose|t: Seq<char>| is_trim_of(s, t)
}

/// Each text trims to one text alone.
pub proof fn trim_is_unique(s: Seq<char>, t1: Seq<char>, t2: Seq<char>)
    requires
        is_trim_of(s, t1),
        is_trim_of(s, t2),
    ensures
        t1 == t2,
{
    let (lo1, hi1) = choose|lo: int, hi: int| trim_span(s, lo, hi) && t1 == s.subrange(lo, hi);
    let (lo2, hi2) = choose|lo: int, hi: int| trim_span(s, lo, hi) && t2 == s.subrange(lo, hi);
    if lo1 < hi1 && lo2 < hi2 {
        assert(lo1 == lo2) by {
            if lo1 < lo2 {
                assert(is_white(s[lo1]));
            } else if lo2 < lo1 {
                assert(is_white(s[lo2]));
            }
        }
        assert(hi1 == hi2) by {
            if hi1 < hi2 {
                assert(is_white(s[hi2 - 1]));
            } else if hi2 < hi1 {
                assert(is_white(s[hi1 - 1]));
            }
        }
    } else if lo1 < hi1 {
        assert(is_white(s[lo1]));
    } else if lo2 < hi2 {
        assert(is_white(s[lo2]));
    } else {
        assert(t1 =~= t2);
    }
}

/// `s` with each backslash turned into a forward slash.
pub open spec fn slashed(s: Seq<char>) -> Seq<char> {
    s.map_values(|c: char| if c == '\\' { '/' } else { c })
}

/// Whether `a` and `b` hold the same characters.
pub fn same_text(a: &str, b: &str) -> (r: bool)
    ensures
        r == (a@ == b@),
{
    let n = a.unicode_len();
    if n != b.unicode_len() {
        return false;
    }
    let mut i: usize = 0;
    while i < n
        invariant
            n == a@.len(),
            n == b@.len(),
            i <= n,
            forall|j: int| 0 <= j < i ==> a@[j] == b@[j],
        decreases n - i,
    {
        if a.get_char(i) != b.get_char(i) {
            return false;
        }
        i = i + 1;
    }
    assert(a@ =~= b@);
    true
}

/// `s` without the white space at both ends.
pub fn trimmed(s: &str) -> (r: String)
    ensures
        r@ == trim_of(s@),
{
    let n = s.unicode_len();
    let mut lo: usize = 0;
    while lo < n && white_char_of(s.get_char(lo))
        invariant
            n == s@.len(),
            lo <= n,
            forall|i: int| 0 <= i < lo ==> is_white(#[trigger] s@[i]),
        decreases n - lo,
    {
        lo = lo + 1;
    }
    let mut hi: usize = n;
    while hi > lo && white_char_of(s.get_char(hi - 1))
        invariant
            n == s@.len(),
            lo <= hi <= n,
            forall|i: int| hi <= i < n ==> is_white(#[trigger] s@[i]),
            lo < n ==> !is_white(s@[lo as int]),
        decreases hi,
    {
        hi = hi - 1;
    }
    let r = String::from_str(s.substring_char(lo, hi));
    assert(trim_span(s@, lo as int, hi as int));
    assert(is_trim_of(s@, r@));
    proof {
        trim_is_unique(s@, r@, trim_of(s@));
    }
    r
}

/// `path` with its separators written as forward slashes.
pub fn normalize_path_case(path: &str) -> (r: String)
    ensures
        r@ == slashed(path@),
{
    let n = path.unicode_len();
    let mut out = String::new();
    let mut i: usize = 0;
    proof {
        reveal_strlit("/");
    }
    while i < n
        invariant
            n == path@.len(),
            i <= n,
            out@ == slashed(path@.subrange(0, i as int)),
            "/"@ == seq!['/'],
        decreases n - i,
    {
        if path.get_char(i) == '\\' {
            out.append("/");
        } else {
            out.append(path.substring_char(i, i + 1));
        }
        assert(path@.subrange(0, i + 1) =~= path@.subrange(0, i as int).push(path@[i as int]));
        assert(out@ =~= slashed(path@.subrange(0, i + 1)));
        i = i + 1;
    }
    assert(path@.subrange(0, n as int) =~= path@);
    out
}

} // verus!
