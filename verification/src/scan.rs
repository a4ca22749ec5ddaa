//! Byte scanning primitives: first occurrence of a pattern in a document.

use vstd::prelude::*;

verus! {

/// The pattern `n` occurs in `h` at position `i`.
pub open spec fn match_at(h: Seq<u8>, n: Seq<u8>, i: int) -> bool {
    &&& 0 <= i
    &&& i + n.len() <= h.len()
    &&& forall|j: int| 0 <= j < n.len() ==> h[i + j] == n[j]
}

/// The first position at or after `i` where `n` occurs in `h`.
pub open spec fn first_match_from(h: Seq<u8>, n: Seq<u8>, i: int) -> Option<int>
    decreases h.len() - i when 0 <= i
{
    if i + n.len() > h.len() {
        None
    } else if match_at(h, n, i) {
        Some(i)
    } else {
        first_match_from(h, n, i + 1)
    }
}

fn match_at_exec(h: &[u8], n: &[u8], i: usize) -> (r: bool)
    requires
        i + n@.len() <= h@.len(),
    ensures
        r == match_at(h@, n@, i as int),
{
    let hlen: usize = h.len();
    let mut j: usize = 0;
    while j < n.len()
        invariant
            i + n@.len() <= h@.len(),
            hlen == h@.len(),
            0 <= j <= n@.len(),
            forall|q: int| 0 <= q < j ==> h@[i + q] == n@[q],
        decreases n@.len() - j,
    {
        if h[i + j] != n[j] {
            return false;
        }
        j = j + 1;
    }
    true
}

/// Finds the first occurrence of `n` in `h` at or after `from`.
pub fn find_from(h: &[u8], n: &[u8], from: usize) -> (r: Option<usize>)
    requires
        from <= h@.len(),
    ensures
        match r {
            Some(i) => first_match_from(h@, n@, from as int) == Some(i as int) && from <= i && i
                + n@.len() <= h@.len(),
            None => first_match_from(h@, n@, from as int) is None,
        },
{
    let mut i: usize = from;
    loop
        invariant
            from <= i <= h@.len(),
            first_match_from(h@, n@, from as int) == first_match_from(h@, n@, i as int),
        decreases h@.len() - i,
    {
        if n.len() > h.len() - i {
            assert(first_match_from(h@, n@, i as int) is None);
            return None;
        }
        if match_at_exec(h, n, i) {
            return Some(i);
        }
        assert(first_match_from(h@, n@, i as int) == first_match_from(h@, n@, i + 1));
        i = i + 1;
    }
}

} // verus!
