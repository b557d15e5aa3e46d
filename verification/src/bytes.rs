//! Byte-level helpers shared by the wire codecs: searching, slicing,
//! comparing, and the character class accepted inside JSON string literals.

use vstd::prelude::*;

verus! {

/// The newline byte that delimits watch frames.
pub const NEWLINE: u8 = 10;

/// The double-quote byte that delimits JSON string literals.
pub const QUOTE: u8 = 34;

/// The backslash byte, which starts a JSON escape.
pub const BACKSLASH: u8 = 92;

/// Index of the first occurrence of `c` in `s` at or after `from`.
pub open spec fn find_from(s: Seq<u8>, c: u8, from: int) -> Option<int>
    decreases s.len() - from,
{
    if from < 0 || from >= s.len() {
        None
    } else if s[from] == c {
        Some(from)
    } else {
        find_from(s, c, from + 1)
    }
}

/// A found index lies in range, holds `c`, and is the first such index.
pub proof fn lemma_find_from_some(s: Seq<u8>, c: u8, from: int)
    ensures
        find_from(s, c, from) matches Some(i) ==> {
            &&& 0 <= from <= i < s.len()
            &&& s[i] == c
            &&& forall|j: int| from <= j < i ==> s[j] != c
        },
    decreases s.len() - from,
{
    if 0 <= from && from < s.len() && s[from] != c {
        lemma_find_from_some(s, c, from + 1);
    }
}

/// The search reports no occurrence exactly when none exists.
pub proof fn lemma_find_from_none(s: Seq<u8>, c: u8, from: int)
    requires
        0 <= from,
    ensures
        find_from(s, c, from) is None <==> (forall|j: int| from <= j < s.len() ==> s[j] != c),
    decreases s.len() - from,
{
    if from < s.len() && s[from] != c {
        lemma_find_from_none(s, c, from + 1);
    }
}

/// The first occurrence determines the search result.
pub proof fn lemma_find_from_first(s: Seq<u8>, c: u8, from: int, i: int)
    requires
        0 <= from <= i < s.len(),
        s[i] == c,
        forall|j: int| from <= j < i ==> s[j] != c,
    ensures
        find_from(s, c, from) == Some(i),
    decreases i - from,
{
    if from < i {
        lemma_find_from_first(s, c, from + 1, i);
    }
}

/// First index at or after `from` holding byte `c`.
pub fn find_byte(s: &[u8], c: u8, from: usize) -> (r: Option<usize>)
    ensures
        match r {
            Some(i) => find_from(s@, c, from as int) == Some(i as int),
            None => find_from(s@, c, from as int) is None,
        },
    decreases s@.len() - from,
{
    if from >= s.len() {
        None
    } else if s[from] == c {
        Some(from)
    } else {
        find_byte(s, c, from + 1)
    }
}

/// Copy of `s[i..j]`.
pub fn subvec(s: &[u8], i: usize, j: usize) -> (r: Vec<u8>)
    requires
        i <= j && j <= s@.len(),
    ensures
        r@ == s@.subrange(i as int, j as int),
{
    let mut r: Vec<u8> = Vec::new();
    let mut k: usize = i;
    while k < j
        invariant
            i <= k <= j <= s@.len(),
            r@ == s@.subrange(i as int, k as int),
        decreases j - k,
    {
        r.push(s[k]);
        k = k + 1;
        proof {
            assert(r@ =~= s@.subrange(i as int, k as int));
        }
    }
    r
}

/// Whether two byte strings hold the same bytes.
pub fn bytes_eq(a: &[u8], b: &[u8]) -> (r: bool)
    ensures
        r == (a@ == b@),
{
    if a.len() != b.len() {
        return false;
    }
    let mut k: usize = 0;
    while k < a.len()
        invariant
            0 <= k <= a@.len(),
            a@.len() == b@.len(),
            forall|j: int| 0 <= j < k ==> a@[j] == b@[j],
        decreases a@.len() - k,
    {
        if a[k] != b[k] {
            return false;
        }
        k = k + 1;
    }
    proof {
        assert(a@ =~= b@);
    }
    true
}

/// Whether `p` occurs in `s` starting exactly at `i`.
pub open spec fn matches_at(s: Seq<u8>, i: int, p: Seq<u8>) -> bool {
    &&& 0 <= i
    &&& i + p.len() <= s.len()
    &&& s.subrange(i, i + p.len()) == p
}

/// Checks a pattern at a fixed position.
pub fn match_at(s: &[u8], i: usize, p: &[u8]) -> (r: bool)
    ensures
        r == matches_at(s@, i as int, p@),
{
    if s.len() < p.len() || i > s.len() - p.len() {
        return false;
    }
    let mut k: usize = 0;
    while k < p.len()
        invariant
            i + p@.len() <= s@.len(),
            s@.len() <= usize::MAX,
            0 <= k <= p@.len(),
            forall|j: int| 0 <= j < k ==> s@[i + j] == p@[j],
        decreases p@.len() - k,
    {
        if s[i + k] != p[k] {
            proof {
                assert(s@.subrange(i as int, i + p@.len())[k as int] != p@[k as int]);
            }
            return false;
        }
        k = k + 1;
    }
    proof {
        assert(s@.subrange(i as int, i + p@.len()) =~= p@);
    }
    true
}

/// Appends every byte of `s` to `v`.
pub fn push_all(v: &mut Vec<u8>, s: &[u8])
    ensures
        final(v)@ == old(v)@ + s@,
{
    let mut k: usize = 0;
    while k < s.len()
        invariant
            0 <= k <= s@.len(),
            v@ == old(v)@ + s@.subrange(0, k as int),
        decreases s@.len() - k,
    {
        v.push(s[k]);
        k = k + 1;
        proof {
            assert(old(v)@ + s@.subrange(0, k as int) =~= (old(v)@ + s@.subrange(
                0,
                k - 1,
            )).push(s@[k - 1]));
        }
    }
    proof {
        assert(s@.subrange(0, s@.len() as int) =~= s@);
    }
}

/// Printable ASCII with no quote and no backslash: bytes that may stand
/// inside a JSON string literal without escaping.
pub open spec fn clean_byte(b: u8) -> bool {
    32 <= b && b < 127 && b != QUOTE && b != BACKSLASH
}

/// Every byte of `s` may stand unescaped inside a JSON string literal.
pub open spec fn bytes_clean(s: Seq<u8>) -> bool {
    forall|j: int| 0 <= j < s.len() ==> clean_byte(#[trigger] s[j])
}

/// Checks the whole byte string for cleanliness.
pub fn check_clean(s: &[u8]) -> (r: bool)
    ensures
        r == bytes_clean(s@),
{
    let mut k: usize = 0;
    while k < s.len()
        invariant
            0 <= k <= s@.len(),
            forall|j: int| 0 <= j < k ==> clean_byte(#[trigger] s@[j]),
        decreases s@.len() - k,
    {
        let b = s[k];
        if b < 32 || b >= 127 || b == QUOTE || b == BACKSLASH {
            return false;
        }
        k = k + 1;
    }
    true
}

} // verus!
