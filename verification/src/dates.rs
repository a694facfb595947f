//! Casting datetime text to its date part.
//!
//! Datetime text of the form `<date>T<time>` is cut at the first `T`: the
//! date part is what stands before it, or the whole text when no `T` occurs.
//! This is the per-cell transformation that a column-wise datetime-to-date
//! cast performs before the date itself is parsed.

use vstd::prelude::*;

verus! {

/// The length of the prefix before the first `T`, or of the whole sequence
/// when no `T` occurs.
pub open spec fn date_len(s: Seq<char>) -> nat
    decreases s.len(),
{
    if s.len() == 0 {
        0
    } else if s[0] == 'T' {
        0
    } else {
        1 + date_len(s.drop_first())
    }
}

/// The date part of datetime text: everything before the first `T`.
pub open spec fn date_part(s: Seq<char>) -> Seq<char> {
    s.take(date_len(s) as int)
}

proof fn lemma_date_len_at(s: Seq<char>, i: int)
    requires
        0 <= i <= s.len(),
        forall|j: int| 0 <= j < i ==> s[j] != 'T',
        i < s.len() ==> s[i] == 'T',
    ensures
        date_len(s) == i,
    decreases i,
{
    if i == 0 {
    } else {
        assert(s[0] != 'T');
        assert forall|j: int| 0 <= j < i - 1 implies s.drop_first()[j] != 'T' by {
            assert(s.drop_first()[j] == s[j + 1]);
        }
        if i - 1 < s.drop_first().len() {
            assert(s.drop_first()[i - 1] == s[i]);
        }
        lemma_date_len_at(s.drop_first(), i - 1);
    }
}

/// Cut datetime text at the first `T` and keep the date part. Text without
/// a `T` is returned whole.
pub fn cast_datetime_to_date(s: &str) -> (r: &str)
    ensures
        r@ == date_part(s@),
{
    let n = s.unicode_len();
    let mut i: usize = 0;
    loop
        invariant_except_break
            i <= n,
            n == s@.len(),
            forall|j: int| 0 <= j < i ==> s@[j] != 'T',
        ensures
            i <= n,
            n == s@.len(),
            forall|j: int| 0 <= j < i ==> s@[j] != 'T',
            i < n ==> s@[i as int] == 'T',
        decreases n - i,
    {
        if i >= n {
            break;
        }
        if s.get_char(i) == 'T' {
            break;
        }
        i = i + 1;
    }
    proof {
        lemma_date_len_at(s@, i as int);
    }
    s.substring_char(0, i)
}

} // verus!
