use vstd::prelude::*;

verus! {

/// A pair of store indices that collision detection tests: the outer index
/// comes first and lies strictly below the inner one, both within the store.
pub open spec fn is_candidate(n: nat, p: (usize, usize)) -> bool {
    p.0 < p.1 && p.1 < n
}

/// The testing order: outer index ascending, then inner index ascending.
pub open spec fn tested_before(a: (usize, usize), b: (usize, usize)) -> bool {
    a.0 < b.0 || (a.0 == b.0 && a.1 < b.1)
}

/// Whether a pair has been reached once the outer loop stands at `i` and the
/// inner loop at `j`.
spec fn reached(i: nat, j: nat, p: (usize, usize)) -> bool {
    p.0 < i || (p.0 == i && p.1 < j)
}

/// The order in which the pairs of a store of `n` particles are tested for
/// overlap within one step: every unordered pair of distinct indices exactly
/// once, outer index ascending, inner index above the outer one.
pub fn collision_pairs(n: usize) -> (r: Vec<(usize, usize)>)
    ensures
        forall|k: int| 0 <= k < r.len() ==> #[trigger] is_candidate(n as nat, r@[k]),
        forall|p: (usize, usize)| #[trigger] is_candidate(n as nat, p) ==> r@.contains(p),
        forall|k: int, l: int| 0 <= k < l < r.len() ==> tested_before(r@[k], r@[l]),
        r@.no_duplicates(),
{
    let mut r: Vec<(usize, usize)> = Vec::new();
    let mut i: usize = 0;
    while i < n
        invariant
            i <= n,
            forall|k: int| 0 <= k < r.len() ==> is_candidate(n as nat, #[trigger] r@[k]) && r@[k].0 < i,
            forall|p: (usize, usize)| #[trigger] is_candidate(n as nat, p) && p.0 < i ==> r@.contains(p),
            forall|k: int, l: int| 0 <= k < l < r.len() ==> tested_before(r@[k], r@[l]),
        decreases n - i,
    {
        let mut j: usize = i + 1;
        while j < n
            invariant
                i < n,
                i < j <= n,
                forall|k: int| 0 <= k < r.len() ==> is_candidate(n as nat, #[trigger] r@[k]) && reached(i as nat, j as nat, r@[k]),
                forall|p: (usize, usize)| #[trigger] is_candidate(n as nat, p) && reached(i as nat, j as nat, p) ==> r@.contains(p),
                forall|k: int, l: int| 0 <= k < l < r.len() ==> tested_before(r@[k], r@[l]),
            decreases n - j,
        {
            let ghost before = r@;
            r.push((i, j));
            assert(forall|k: int| 0 <= k < before.len() ==> r@[k] == before[k]);
            assert(r@[before.len() as int] == (i, j));
            assert forall|p: (usize, usize)| #[trigger] is_candidate(n as nat, p) && reached(i as nat, (j + 1) as nat, p) implies r@.contains(p) by {
                if p == (i, j) {
                    assert(r@[r@.len() - 1] == p);
                } else {
                    let w = choose|w: int| 0 <= w < before.len() && before[w] == p;
                    assert(r@[w] == p);
                }
            }
            j = j + 1;
        }
        i = i + 1;
    }
    assert forall|k: int, l: int| 0 <= k < r.len() && 0 <= l < r.len() && k != l implies r@[k] != r@[l] by {
        if k < l {
            assert(tested_before(r@[k], r@[l]));
        } else {
            assert(tested_before(r@[l], r@[k]));
        }
    }
    r
}

} // verus!
