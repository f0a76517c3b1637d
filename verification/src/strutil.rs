//! Small verified string helpers for the size and bandwidth suffix syntax,
//! and a trusted case-folding wrapper.

use vstd::prelude::*;
use vstd::string::StrSliceExecFns;
use vstd::string::StringExecFns;

verus! {

/// `suffix` ends `s`.
pub open spec fn ends_with_spec(s: Seq<char>, suffix: Seq<char>) -> bool {
    s.len() >= suffix.len() && s.subrange(s.len() - suffix.len(), s.len() as int) == suffix
}

/// `s` with every trailing repetition of `suffix` removed.
pub open spec fn strip_suffix_all_spec(s: Seq<char>, suffix: Seq<char>) -> Seq<char>
    decreases s.len(),
{
    if suffix.len() > 0 && ends_with_spec(s, suffix) {
        strip_suffix_all_spec(s.subrange(0, s.len() - suffix.len()), suffix)
    } else {
        s
    }
}

/// Whether `s` ends with `suffix`, by character comparison.
pub fn has_suffix(s: &str, suffix: &str) -> (r: bool)
    ensures
        r == ends_with_spec(s@, suffix@),
{
    let n = s.unicode_len();
    let m = suffix.unicode_len();
    if m > n {
        return false;
    }
    let mut i: usize = 0;
    while i < m
        invariant
            m <= n,
            n == s@.len(),
            m == suffix@.len(),
            i <= m,
            forall|j: int| 0 <= j < i ==> s@[n - m + j] == suffix@[j],
        decreases m - i,
    {
        let a = s.get_char(n - m + i);
        let b = suffix.get_char(i);
        if a != b {
            proof {
                if ends_with_spec(s@, suffix@) {
                    assert(s@.subrange(s@.len() - suffix@.len(), s@.len() as int)[i as int]
                        == suffix@[i as int]);
                }
            }
            return false;
        }
        i = i + 1;
    }
    proof {
        assert(s@.subrange(s@.len() - suffix@.len(), s@.len() as int) =~= suffix@);
    }
    true
}

/// Removes every trailing repetition of `suffix` from `s`.
pub fn strip_suffix_repeated(s: &str, suffix: &str) -> (r: String)
    ensures
        r@ == strip_suffix_all_spec(s@, suffix@),
{
    let m = suffix.unicode_len();
    let mut cur: String = s.to_owned();
    if m == 0 {
        return cur;
    }
    loop
        invariant
            m == suffix@.len(),
            m > 0,
            strip_suffix_all_spec(cur@, suffix@) == strip_suffix_all_spec(s@, suffix@),
        decreases cur@.len(),
    {
        let n = cur.as_str().unicode_len();
        if !has_suffix(cur.as_str(), suffix) {
            return cur;
        }
        let shorter = cur.as_str().substring_char(0, n - m).to_owned();
        cur = shorter;
    }
}

pub uninterp spec fn lower_of(s: Seq<char>) -> Seq<char>;

/// Relies on str::to_lowercase: the folded result depends on the characters
/// alone, and an empty string stays empty.
#[verifier::external_body]
pub(crate) fn lowercase(s: &str) -> (r: String)
    ensures
        r@ == lower_of(s@),
        s@.len() == 0 ==> r@.len() == 0,
{
    s.to_lowercase()
}

} // verus!
