//! Finding the first word of a string: the run of characters before the
//! first space.

use vstd::prelude::*;
use vstd::string::StrSliceExecFns;

verus! {

/// The position of the first space in `s`, or the length of `s` when it
/// holds none.
pub fn first_word(s: &String) -> (i: usize)
    ensures
        i <= s@.len(),
        forall|j: int| 0 <= j < i ==> s@[j] != ' ',
        i < s@.len() ==> s@[i as int] == ' ',
{
    let text = s.as_str();
    let n = text.unicode_len();
    let mut i: usize = 0;
    while i < n
        invariant
            n == text@.len(),
            text@ == s@,
            i <= n,
            forall|j: int| 0 <= j < i ==> s@[j] != ' ',
        decreases n - i,
    {
        if text.get_char(i) == ' ' {
            return i;
        }
        i += 1;
    }
    i
}

/// The prefix of `s` up to, and not including, its first space; all of `s`
/// when it holds none.
pub fn new_first_word(s: &String) -> (w: &str)
    ensures
        w@.len() <= s@.len(),
        w@ == s@.subrange(0, w@.len() as int),
        forall|j: int| 0 <= j < w@.len() ==> s@[j] != ' ',
        w@.len() < s@.len() ==> s@[w@.len() as int] == ' ',
{
    common_first_word(s.as_str())
}

/// The same first word, taken from a string slice.
pub fn common_first_word(s: &str) -> (w: &str)
    ensures
        w@.len() <= s@.len(),
        w@ == s@.subrange(0, w@.len() as int),
        forall|j: int| 0 <= j < w@.len() ==> s@[j] != ' ',
        w@.len() < s@.len() ==> s@[w@.len() as int] == ' ',
{
    let n = s.unicode_len();
    let mut i: usize = 0;
    while i < n
        invariant
            n == s@.len(),
            i <= n,
            forall|j: int| 0 <= j < i ==> s@[j] != ' ',
        decreases n - i,
    {
        if s.get_char(i) == ' ' {
            return s.substring_char(0, i);
        }
        i += 1;
    }
    let whole = s.substring_char(0, n);
    proof {
        assert(whole@ =~= s@.subrange(0, whole@.len() as int));
    }
    whole
}

} // verus!
