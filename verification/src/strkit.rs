//! Character-sequence predicates and verified string helpers used by the
//! target tables: substring containment, leading-token extraction, and
//! repeated prefix stripping.

use vstd::prelude::*;

verus! {

/// Whether `p` occurs as a contiguous run inside `s` at some position `>= i`.
pub open spec fn contains_from(s: Seq<char>, p: Seq<char>, i: int) -> bool
    decreases s.len() - i,
{
    if i < 0 || i + p.len() > s.len() {
        false
    } else if s.subrange(i, i + p.len()) == p {
        true
    } else if i + p.len() == s.len() {
        false
    } else {
        contains_from(s, p, i + 1)
    }
}

/// Whether `p` occurs as a contiguous substring of `s`.
pub open spec fn contains_seq(s: Seq<char>, p: Seq<char>) -> bool {
    contains_from(s, p, 0)
}

/// `contains_seq` holds exactly when a start position for `p` exists in `s`.
pub proof fn lemma_contains_seq_iff_exists(s: Seq<char>, p: Seq<char>)
    ensures
        contains_seq(s, p) <==> exists|j: int|
            0 <= j && j + p.len() <= s.len() && #[trigger] s.subrange(j, j + p.len()) == p,
{
    if contains_seq(s, p) {
        lemma_contains_from_implies_witness(s, p, 0);
    }
    if exists|j: int| 0 <= j && j + p.len() <= s.len() && #[trigger] s.subrange(j, j + p.len()) == p {
        let j = choose|j: int|
            0 <= j && j + p.len() <= s.len() && #[trigger] s.subrange(j, j + p.len()) == p;
        lemma_contains_from_witness(s, p, 0, j);
    }
}

proof fn lemma_contains_from_implies_witness(s: Seq<char>, p: Seq<char>, i: int)
    requires
        contains_from(s, p, i),
    ensures
        exists|j: int| i <= j && j + p.len() <= s.len() && #[trigger] s.subrange(j, j + p.len()) == p,
    decreases s.len() - i,
{
    if s.subrange(i, i + p.len()) == p {
        assert(i <= i && i + p.len() <= s.len() && s.subrange(i, i + p.len()) == p);
    } else {
        lemma_contains_from_implies_witness(s, p, i + 1);
    }
}

/// A found occurrence of `p` at position `j` establishes containment from any
/// start position at or before `j`.
pub proof fn lemma_contains_from_witness(s: Seq<char>, p: Seq<char>, i: int, j: int)
    requires
        0 <= i <= j,
        j + p.len() <= s.len(),
        s.subrange(j, j + p.len()) == p,
    ensures
        contains_from(s, p, i),
    decreases j - i,
{
    if i < j {
        lemma_contains_from_witness(s, p, i + 1, j);
    }
}

/// If the two-character opening of `p` appears nowhere in `s` with room for
/// the whole of `p`, then `p` is not contained in `s`.  The two-character
/// probe is enough to separate every pair of words the target tables use.
pub proof fn lemma_bigram_not_contains(s: Seq<char>, p: Seq<char>, i: int)
    requires
        p.len() >= 2,
        forall|k: int|
            0 <= k && k + p.len() <= s.len() ==> !(#[trigger] s[k] == p[0] && s[k + 1] == p[1]),
    ensures
        !contains_from(s, p, i),
    decreases s.len() + 1 - i,
{
    if i < 0 || i + p.len() > s.len() {
    } else {
        assert(s.subrange(i, i + p.len())[0] == s[i]);
        assert(s.subrange(i, i + p.len())[1] == s[i + 1]);
        assert(s.subrange(i, i + p.len()) != p);
        if i + p.len() == s.len() {
        } else {
            lemma_bigram_not_contains(s, p, i + 1);
        }
    }
}

/// The part of `s` before the first occurrence of `sep` (all of `s` when
/// `sep` does not occur).
pub open spec fn token_before(s: Seq<char>, sep: char) -> Seq<char>
    decreases s.len(),
{
    if s.len() == 0 {
        Seq::empty()
    } else if s[0] == sep {
        Seq::empty()
    } else {
        seq![s[0]] + token_before(s.drop_first(), sep)
    }
}

/// When the first `d` characters of `s` avoid `sep` and position `d` is the
/// end or holds `sep`, the leading token is exactly that prefix.
pub proof fn lemma_token_before_prefix(s: Seq<char>, sep: char, d: int)
    requires
        0 <= d <= s.len(),
        forall|k: int| 0 <= k < d ==> s[k] != sep,
        d == s.len() || s[d] == sep,
    ensures
        token_before(s, sep) =~= s.subrange(0, d),
    decreases d,
{
    if d == 0 {
        if s.len() > 0 {
            assert(s[0] == sep);
        }
    } else {
        assert(s[0] != sep);
        let t = s.drop_first();
        assert(forall|k: int| 0 <= k < d - 1 ==> t[k] == s[k + 1] && t[k] != sep);
        lemma_token_before_prefix(t, sep, d - 1);
        assert(token_before(s, sep) =~= seq![s[0]] + t.subrange(0, d - 1));
    }
}

/// `s` with every leading repetition of `p` removed.
pub open spec fn strip_prefix_rec(s: Seq<char>, p: Seq<char>) -> Seq<char>
    decreases s.len(),
{
    if p.len() == 0 || p.len() > s.len() || s.subrange(0, p.len() as int) != p {
        s
    } else {
        strip_prefix_rec(s.skip(p.len() as int), p)
    }
}

/// String equality, decided at run time and reflected as view equality.
pub fn str_eq(a: &str, b: &str) -> (r: bool)
    ensures
        r == (a@ == b@),
{
    let sa = String::from_str(a);
    let sb = String::from_str(b);
    sa == sb
}

/// Substring search, deciding `contains_seq` over the views.
pub fn str_contains(s: &str, p: &str) -> (r: bool)
    ensures
        r == contains_seq(s@, p@),
{
    let n = s.unicode_len();
    let m = p.unicode_len();
    if m > n {
        return false;
    }
    let mut i: usize = 0;
    loop
        invariant
            0 <= i,
            i + m <= n + 1,
            m <= n,
            n == s@.len(),
            m == p@.len(),
            contains_seq(s@, p@) == contains_from(s@, p@, i as int),
        decreases n - i,
    {
        if i > n - m {
            return false;
        }
        let mut j: usize = 0;
        let mut mismatch = false;
        while j < m
            invariant
                0 <= j <= m,
                i + m <= n,
                n == s@.len(),
                m == p@.len(),
                !mismatch ==> forall|l: int| 0 <= l < j ==> s@[i + l] == p@[l],
                mismatch ==> s@.subrange(i as int, i + m) != p@,
            decreases m - j,
        {
            if !mismatch {
                let cs = s.get_char(i + j);
                let cp = p.get_char(j);
                if cs != cp {
                    proof {
                        assert(s@.subrange(i as int, i + m)[j as int] == s@[i + j]);
                    }
                    mismatch = true;
                }
            }
            j = j + 1;
        }
        if !mismatch {
            proof {
                assert(s@.subrange(i as int, i + m) =~= p@);
                lemma_contains_from_witness(s@, p@, i as int, i as int);
            }
            return true;
        }
        proof {
            if m == 0 {
                assert(s@.subrange(i as int, i as int) =~= p@);
            }
            assert(contains_from(s@, p@, i as int) == contains_from(s@, p@, i + 1));
        }
        i = i + 1;
    }
}

/// Index of the first occurrence of `sep` in `s`, or the length of `s` when
/// absent; the returned position pins down `token_before`.
pub fn find_first(s: &str, sep: char) -> (d: usize)
    ensures
        d <= s@.len(),
        forall|k: int| 0 <= k < d ==> s@[k] != sep,
        d == s@.len() || s@[d as int] == sep,
        token_before(s@, sep) == s@.subrange(0, d as int),
{
    let n = s.unicode_len();
    let mut i: usize = 0;
    while i < n
        invariant
            0 <= i <= n,
            n == s@.len(),
            forall|k: int| 0 <= k < i ==> s@[k] != sep,
        decreases n - i,
    {
        if s.get_char(i) == sep {
            proof {
                lemma_token_before_prefix(s@, sep, i as int);
            }
            return i;
        }
        i = i + 1;
    }
    proof {
        lemma_token_before_prefix(s@, sep, n as int);
    }
    n
}

} // verus!
