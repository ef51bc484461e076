//! Stripping NUL padding from both ends of a decoded text buffer, as a
//! fixed-size upload buffer leaves it.

use vstd::prelude::*;

verus! {

/// `s` without its leading NUL characters.
pub open spec fn drop_leading_nul(s: Seq<char>) -> Seq<char>
    decreases s.len(),
{
    if s.len() > 0 && s[0] == '\0' {
        drop_leading_nul(s.drop_first())
    } else {
        s
    }
}

/// `s` without its trailing NUL characters.
pub open spec fn drop_trailing_nul(s: Seq<char>) -> Seq<char>
    decreases s.len(),
{
    if s.len() > 0 && s.last() == '\0' {
        drop_trailing_nul(s.drop_last())
    } else {
        s
    }
}

/// `s` without NUL characters at either end.
pub open spec fn trim_nul(s: Seq<char>) -> Seq<char> {
    drop_trailing_nul(drop_leading_nul(s))
}

proof fn lemma_drop_leading(s: Seq<char>, a: int)
    requires
        0 <= a <= s.len(),
        forall|j: int| 0 <= j < a ==> #[trigger] s[j] == '\0',
        a == s.len() || s[a] != '\0',
    ensures
        drop_leading_nul(s) == s.subrange(a, s.len() as int),
    decreases a,
{
    if a == 0 {
        assert(s.subrange(0, s.len() as int) =~= s);
    } else {
        let t = s.drop_first();
        assert forall|j: int| 0 <= j < a - 1 implies #[trigger] t[j] == '\0' by {
            assert(t[j] == s[j + 1]);
        }
        assert(a - 1 == t.len() || t[a - 1] == s[a]);
        lemma_drop_leading(t, a - 1);
        assert(t.subrange(a - 1, t.len() as int) =~= s.subrange(a, s.len() as int));
    }
}

proof fn lemma_drop_trailing(s: Seq<char>, b: int)
    requires
        0 <= b <= s.len(),
        forall|j: int| b <= j < s.len() ==> #[trigger] s[j] == '\0',
        b == 0 || s[b - 1] != '\0',
    ensures
        drop_trailing_nul(s) == s.subrange(0, b),
    decreases s.len() - b,
{
    if b == s.len() {
        assert(s.subrange(0, b) =~= s);
    } else {
        assert(s.last() == s[s.len() - 1]);
        let t = s.drop_last();
        assert forall|j: int| b <= j < t.len() implies #[trigger] t[j] == '\0' by {
            assert(t[j] == s[j]);
        }
        assert(b == 0 || t[b - 1] == s[b - 1]);
        lemma_drop_trailing(t, b);
        assert(t.subrange(0, b) =~= s.subrange(0, b));
    }
}

/// Strips NUL characters from both ends of `s`, leaving the middle as it is.
pub fn trim_nul_str(s: &str) -> (r: String)
    ensures
        r@ == trim_nul(s@),
{
    let n: usize = s.unicode_len();
    let mut start: usize = 0;
    while start < n && s.get_char(start) == '\0'
        invariant
            0 <= start <= n,
            n == s@.len(),
            forall|j: int| 0 <= j < start ==> #[trigger] s@[j] == '\0',
        decreases n - start,
    {
        start = start + 1;
    }
    let mut end: usize = n;
    while end > start && s.get_char(end - 1) == '\0'
        invariant
            start <= end <= n,
            n == s@.len(),
            forall|j: int| end <= j < n ==> #[trigger] s@[j] == '\0',
        decreases end,
    {
        end = end - 1;
    }
    let sub = s.substring_char(start, end);
    let r = String::from_str(sub);
    proof {
        lemma_drop_leading(s@, start as int);
        let t = s@.subrange(start as int, s@.len() as int);
        assert forall|j: int| end - start <= j < t.len() implies #[trigger] t[j] == '\0' by {
            assert(t[j] == s@[j + start]);
        }
        assert(end - start == 0 || t[end - start - 1] == s@[end - 1]);
        lemma_drop_trailing(t, end - start);
        assert(t.subrange(0, end - start) =~= s@.subrange(start as int, end as int));
    }
    r
}

} // verus!
