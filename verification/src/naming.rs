//! Page identifiers, derived from source file names.
//!
//! A page's canonical identifier is its file name's stem: everything
//! before the last dot.  A name without a dot, or whose only dot is the
//! leading character of a hidden file, is its own stem.

use vstd::prelude::*;
use vstd::string::StrSliceExecFns;
use vstd::string::StringExecFns;

verus! {

/// Index of the last `'.'` in `s`, or `-1` if there is none.
pub open spec fn spec_last_dot(s: Seq<char>) -> int
    decreases s.len(),
{
    if s.len() == 0 {
        -1
    } else if s[s.len() - 1] == '.' {
        s.len() - 1
    } else {
        spec_last_dot(s.drop_last())
    }
}

/// The stem of a file name: the part before the last dot, or the whole
/// name when there is no dot or the only dot leads the name.
pub open spec fn spec_file_stem(s: Seq<char>) -> Seq<char> {
    if spec_last_dot(s) <= 0 {
        s
    } else {
        s.subrange(0, spec_last_dot(s))
    }
}

/// A suffix free of dots does not move the last dot.
proof fn lemma_last_dot_ignores_clean_suffix(s: Seq<char>, i: int)
    requires
        0 <= i <= s.len(),
        forall|j: int| i <= j < s.len() ==> s[j] != '.',
    ensures
        spec_last_dot(s) == spec_last_dot(s.take(i)),
    decreases s.len() - i,
{
    if i == s.len() {
        assert(s.take(i) =~= s);
    } else {
        lemma_last_dot_ignores_clean_suffix(s.drop_last(), i);
        assert(s.drop_last().take(i) =~= s.take(i));
    }
}

/// Derives a page's identifier from its source file's name.
pub fn file_stem(name: &str) -> (r: String)
    ensures
        r@ == spec_file_stem(name@),
{
    let n = name.unicode_len();
    let mut i = n;
    while i > 0
        invariant
            i <= n,
            n == name@.len(),
            forall|j: int| i <= j < n ==> name@[j] != '.',
        decreases i,
    {
        if name.get_char(i - 1) == '.' {
            proof {
                lemma_last_dot_ignores_clean_suffix(name@, i as int);
                let t = name@.take(i as int);
                assert(t.len() == i);
                assert(t[i - 1] == '.');
                assert(spec_last_dot(t) == i - 1);
            }
            if i == 1 {
                return String::from_str(name);
            }
            let stem = name.substring_char(0, i - 1);
            return String::from_str(stem);
        }
        i = i - 1;
    }
    proof {
        lemma_last_dot_ignores_clean_suffix(name@, 0);
        assert(name@.take(0) =~= Seq::<char>::empty());
    }
    String::from_str(name)
}

} // verus!
