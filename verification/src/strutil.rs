//! Character-level string utilities: first occurrence of a character,
//! range comparison, substring containment, prefix test.
//!
//! Executable code walks a `&str` by character index; specifications speak
//! of the string's view, a `Seq<char>`.

use vstd::prelude::*;

verus! {

/// Index of the first occurrence of `c` in `s`, or `s.len()` if `c` does not
/// occur.
pub open spec fn first_index_of(s: Seq<char>, c: char) -> int
    decreases s.len(),
{
    if s.len() == 0 {
        0
    } else if s[0] == c {
        0
    } else {
        1 + first_index_of(s.drop_first(), c)
    }
}

/// What `first_index_of` returns: the least index holding `c`, or the length.
pub proof fn lemma_first_index_of(s: Seq<char>, c: char)
    ensures
        0 <= first_index_of(s, c) <= s.len(),
        first_index_of(s, c) < s.len() ==> s[first_index_of(s, c)] == c,
        forall|j: int| 0 <= j < first_index_of(s, c) ==> s[j] != c,
    decreases s.len(),
{
    if s.len() != 0 && s[0] != c {
        lemma_first_index_of(s.drop_first(), c);
        let fio = first_index_of(s, c);
        assert forall|j: int| 0 <= j < fio implies s[j] != c by {
            if j > 0 {
                assert(s.drop_first()[j - 1] == s[j]);
                assert(s.drop_first()[j - 1] != c);
            }
        }
        if fio < s.len() {
            assert(s[fio] == s.drop_first()[fio - 1]);
        }
    }
}

/// `pat` occurs contiguously somewhere in `s`.
pub open spec fn contains_seq(s: Seq<char>, pat: Seq<char>) -> bool {
    exists|i: int| 0 <= i && i + pat.len() <= s.len() && #[trigger] s.subrange(i, i + pat.len())
        == pat
}

/// Least index of `c` within `s[from..to]`, reported as an absolute index;
/// `to` when `c` does not occur in the range.
pub fn find_char_in(s: &str, from: usize, to: usize, c: char) -> (i: usize)
    requires
        from <= to <= s@.len(),
    ensures
        from <= i <= to,
        i - from == first_index_of(s@.subrange(from as int, to as int), c),
{
    let ghost range = s@.subrange(from as int, to as int);
    proof {
        lemma_first_index_of(range, c);
    }
    let mut i: usize = from;
    while i < to
        invariant
            from <= i <= to <= s@.len(),
            range == s@.subrange(from as int, to as int),
            forall|j: int| from <= j < i ==> s@[j] != c,
        decreases to - i,
    {
        if s.get_char(i) == c {
            proof {
                lemma_first_index_of(range, c);
                let fio = first_index_of(range, c);
                if fio < i - from {
                    assert(range[fio] == s@[from + fio]);
                    assert(s@[from + fio] != c);
                    assert(false);
                }
                if fio > i - from {
                    assert(range[i - from] == s@[i as int]);
                    assert(range[i - from] != c);
                    assert(false);
                }
            }
            return i;
        }
        i = i + 1;
    }
    proof {
        let fio = first_index_of(range, c);
        if fio < range.len() {
            assert(range[fio] == s@[from + fio]);
            assert(s@[from + fio] != c);
            assert(false);
        }
    }
    to
}

/// Whether `s[from..to]` holds exactly the characters of `pat`.
pub fn range_eq(s: &str, from: usize, to: usize, pat: &str) -> (r: bool)
    requires
        from <= to <= s@.len(),
    ensures
        r == (s@.subrange(from as int, to as int) == pat@),
{
    let m = pat.unicode_len();
    if to - from != m {
        proof {
            assert(s@.subrange(from as int, to as int).len() != pat@.len());
        }
        return false;
    }
    let mut j: usize = 0;
    while j < m
        invariant
            0 <= j <= m,
            m == pat@.len(),
            from + m <= to <= s@.len(),
            to - from == m,
            forall|k: int| 0 <= k < j ==> s@[from + k] == pat@[k],
        decreases m - j,
    {
        if s.get_char(from + j) != pat.get_char(j) {
            proof {
                assert(s@.subrange(from as int, to as int)[j as int] != pat@[j as int]);
            }
            return false;
        }
        j = j + 1;
    }
    proof {
        assert(s@.subrange(from as int, to as int) =~= pat@);
    }
    true
}

/// Whether `pat` occurs contiguously somewhere in `s`.
pub fn str_contains(s: &str, pat: &str) -> (r: bool)
    ensures
        r == contains_seq(s@, pat@),
{
    let n = s.unicode_len();
    let m = pat.unicode_len();
    if m > n {
        return false;
    }
    if m == 0 {
        proof {
            assert(contains_seq(s@, pat@)) by {
                assert(s@.subrange(0, 0 + pat@.len() as int) =~= pat@);
            }
        }
        return true;
    }
    let mut i: usize = 0;
    while i <= n - m
        invariant
            n == s@.len(),
            m == pat@.len(),
            1 <= m <= n,
            0 <= i <= n - m + 1,
            forall|k: int| 0 <= k < i ==> #[trigger] s@.subrange(k, k + m) != pat@,
        decreases n + 1 - i,
    {
        if range_eq(s, i, i + m, pat) {
            proof {
                assert(contains_seq(s@, pat@)) by {
                    assert(0 <= i as int && i as int + pat@.len() <= s@.len() && s@.subrange(
                        i as int,
                        i as int + pat@.len(),
                    ) == pat@);
                }
            }
            return true;
        }
        i = i + 1;
    }
    false
}

/// Whether `p` is a prefix of `s`.
pub fn has_prefix(s: &str, p: &str) -> (r: bool)
    ensures
        r == p@.is_prefix_of(s@),
{
    let n = s.unicode_len();
    let m = p.unicode_len();
    if m > n {
        return false;
    }
    let r = range_eq(s, 0, m, p);
    proof {
        assert(p@.is_prefix_of(s@) == (s@.subrange(0, m as int) == p@));
    }
    r
}

} // verus!
