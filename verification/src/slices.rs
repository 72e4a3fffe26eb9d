//! Finding the first word of a string: the prefix up to the first space.

use vstd::prelude::*;
use vstd::string::StrSliceExecFns;

verus! {

/// The index of the first space in `s`, or `s.len()` if there is none.
pub open spec fn first_word_end(s: Seq<char>) -> int
    decreases s.len(),
{
    if s.len() == 0 {
        0
    } else if s[0] == ' ' {
        0
    } else {
        1 + first_word_end(s.drop_first())
    }
}

/// The first word of `s`: everything before the first space.
pub open spec fn first_word_spec(s: Seq<char>) -> Seq<char> {
    s.subrange(0, first_word_end(s))
}

proof fn lemma_first_word_end_at(s: Seq<char>, i: int)
    requires
        0 <= i <= s.len(),
        forall|j: int| 0 <= j < i ==> s[j] != ' ',
        i == s.len() || s[i] == ' ',
    ensures
        first_word_end(s) == i,
    decreases i,
{
    if s.len() == 0 {
    } else if s[0] == ' ' {
        assert(i == 0);
    } else {
        assert(i > 0) by {
            if i == 0 {
                assert(s[0] == ' ');
            }
        }
        lemma_first_word_end_at(s.drop_first(), i - 1);
    }
}

/// The prefix of `s` that ends just before the first space, or all of `s`
/// when it has no space.
pub fn first_word(s: &str) -> (r: &str)
    ensures
        r@ == first_word_spec(s@),
{
    let n = s.unicode_len();
    let mut i: usize = 0;
    while i < n
        invariant
            n == s@.len(),
            i <= n,
            forall|j: int| 0 <= j < i ==> s@[j] != ' ',
        decreases n - i,
    {
        let c = s.get_char(i);
        if c == ' ' {
            proof {
                lemma_first_word_end_at(s@, i as int);
            }
            return s.substring_char(0, i);
        }
        i += 1;
    }
    proof {
        lemma_first_word_end_at(s@, n as int);
        assert(s@.subrange(0, n as int) =~= s@);
    }
    s
}

} // verus!
