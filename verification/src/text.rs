//! Character-level helpers on strings: reading a string into characters,
//! searching for a fragment, and joining pieces.

use vstd::prelude::*;

verus! {

/// `pattern` occurs in `s` as a contiguous run of characters.
pub open spec fn has_infix(s: Seq<char>, pattern: Seq<char>) -> bool {
    exists|i: int| 0 <= i <= s.len() - pattern.len() && #[trigger] s.subrange(i, i + pattern.len()) == pattern
}

/// `pattern` occurs in `s` starting exactly at position `i`.
pub open spec fn occurs_at(s: Seq<char>, pattern: Seq<char>, i: int) -> bool {
    &&& 0 <= i
    &&& i + pattern.len() <= s.len()
    &&& forall|k: int| 0 <= k < pattern.len() ==> s[i + k] == pattern[k]
}

/// Copies the characters of `s` into a vector.
pub fn chars_of(s: &str) -> (v: Vec<char>)
    ensures
        v@ == s@,
{
    let n = s.unicode_len();
    let mut v: Vec<char> = Vec::new();
    let mut i: usize = 0;
    while i < n
        invariant
            n == s@.len(),
            i <= n,
            v@ == s@.subrange(0, i as int),
        decreases n - i,
    {
        let c = s.get_char(i);
        v.push(c);
        i = i + 1;
    }
    assert(v@ =~= s@);
    v
}

fn matches_at(s: &Vec<char>, pattern: &Vec<char>, i: usize) -> (r: bool)
    requires
        i + pattern@.len() <= s@.len(),
    ensures
        r == occurs_at(s@, pattern@, i as int),
{
    let m = pattern.len();
    let mut k: usize = 0;
    while k < m
        invariant
            m == pattern@.len(),
            i + m <= s.len(),
            k <= m,
            forall|j: int| 0 <= j < k ==> s@[i + j] == pattern@[j],
        decreases m - k,
    {
        if s[i + k] != pattern[k] {
            return false;
        }
        k = k + 1;
    }
    true
}

proof fn lemma_occurs_at_infix(s: Seq<char>, pattern: Seq<char>, i: int)
    requires
        occurs_at(s, pattern, i),
    ensures
        has_infix(s, pattern),
{
    assert(s.subrange(i, i + pattern.len()) =~= pattern);
}

/// Tells whether `pattern` occurs in `s`.
pub fn contains_text(s: &str, pattern: &str) -> (r: bool)
    ensures
        r == has_infix(s@, pattern@),
{
    let sv = chars_of(s);
    let pv = chars_of(pattern);
    let n = sv.len();
    let m = pv.len();
    if m > n {
        assert forall|i: int| 0 <= i <= s@.len() - pattern@.len() implies
            #[trigger] s@.subrange(i, i + pattern@.len()) != pattern@ by {}
        return false;
    }
    let last = n - m;
    let mut i: usize = 0;
    while i <= last
        invariant
            n == sv@.len(),
            m == pv@.len(),
            sv@ == s@,
            pv@ == pattern@,
            last == n - m,
            i <= last + 1,
            forall|j: int| 0 <= j < i ==> !occurs_at(s@, pattern@, j),
        decreases last + 1 - i,
    {
        if matches_at(&sv, &pv, i) {
            proof { lemma_occurs_at_infix(s@, pattern@, i as int); }
            return true;
        }
        i = i + 1;
    }
    assert forall|j: int| 0 <= j <= s@.len() - pattern@.len() implies
        #[trigger] s@.subrange(j, j + pattern@.len()) != pattern@ by {
        if s@.subrange(j, j + pattern@.len()) == pattern@ {
            assert forall|k: int| 0 <= k < pattern@.len() implies s@[j + k] == pattern@[k] by {
                assert(s@.subrange(j, j + pattern@.len())[k] == s@[j + k]);
            }
            assert(occurs_at(s@, pattern@, j));
        }
    }
    false
}

/// Joins two pieces of text into one string.
pub fn join2(a: &str, b: &str) -> (r: String)
    ensures
        r@ == a@ + b@,
{
    let mut r = String::from_str(a);
    r.append(b);
    r
}

/// Joins three pieces of text into one string.
pub fn join3(a: &str, b: &str, c: &str) -> (r: String)
    ensures
        r@ == a@ + b@ + c@,
{
    let mut r = String::from_str(a);
    r.append(b);
    r.append(c);
    r
}

} // verus!
