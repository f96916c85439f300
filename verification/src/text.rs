//! Verified substring search over character sequences, the foundation for
//! decoding provider response bodies.

use vstd::prelude::*;

verus! {

/// The needle `n` occurs in the haystack `h` at position `i`.
pub open spec fn match_at(h: Seq<char>, n: Seq<char>, i: int) -> bool {
    0 <= i && i + n.len() <= h.len() && h.subrange(i, i + n.len() as int) == n
}

/// The first position at or after `from` where `n` occurs in `h`, if any.
pub open spec fn find_from(h: Seq<char>, n: Seq<char>, from: int) -> Option<int>
    recommends
        0 <= from,
    decreases h.len() - from,
    when 0 <= from
{
    if from + n.len() > h.len() {
        None
    } else if n.len() == 0 {
        Some(from)
    } else if match_at(h, n, from) {
        Some(from)
    } else {
        find_from(h, n, from + 1)
    }
}

/// A found position is a match no earlier than where the search began.
pub proof fn lemma_find_from_some(h: Seq<char>, n: Seq<char>, from: int, i: int)
    requires
        0 <= from,
        find_from(h, n, from) == Some(i),
    ensures
        from <= i,
        match_at(h, n, i),
    decreases h.len() - from,
{
    if from + n.len() > h.len() {
    } else if n.len() == 0 {
        assert(h.subrange(from, from + n.len() as int) =~= n);
    } else if match_at(h, n, from) {
    } else {
        lemma_find_from_some(h, n, from + 1, i);
    }
}

/// Compares `n` against `h` at position `i`; true exactly when `n` occurs
/// there.
fn matches_at(h: &str, n: &str, i: usize, hl: usize, nl: usize) -> (r: bool)
    requires
        hl == h@.len(),
        nl == n@.len(),
        i + nl <= hl,
    ensures
        r == match_at(h@, n@, i as int),
{
    let mut j: usize = 0;
    while j < nl
        invariant
            hl == h@.len(),
            nl == n@.len(),
            i + nl <= hl,
            0 <= j <= nl,
            forall|k: int| 0 <= k < j ==> h@[i + k] == n@[k],
        decreases nl - j,
    {
        let hc = h.get_char(i + j);
        let nc = n.get_char(j);
        if hc != nc {
            proof {
                assert(h@.subrange(i as int, i + nl as int)[j as int] == h@[i + j]);
            }
            return false;
        }
        j = j + 1;
    }
    proof {
        assert(h@.subrange(i as int, i + nl as int) =~= n@);
    }
    true
}

/// Finds the first occurrence of `n` in `h` at or after `from`.
pub fn find_str(h: &str, n: &str, from: usize) -> (r: Option<usize>)
    ensures
        match r {
            Some(i) => find_from(h@, n@, from as int) == Some(i as int),
            None => find_from(h@, n@, from as int) is None,
        },
{
    let hl = h.unicode_len();
    let nl = n.unicode_len();
    if nl > hl || from > hl - nl {
        return None;
    }
    if nl == 0 {
        proof {
            assert(h@.subrange(from as int, from + nl as int) =~= n@);
        }
        return Some(from);
    }
    let mut i: usize = from;
    while i <= hl - nl
        invariant
            hl == h@.len(),
            nl == n@.len(),
            1 <= nl <= hl,
            from <= i <= hl - nl + 1,
            find_from(h@, n@, from as int) == find_from(h@, n@, i as int),
        decreases hl - i,
    {
        if matches_at(h, n, i, hl, nl) {
            return Some(i);
        }
        i = i + 1;
    }
    None
}

} // verus!
