//! The first index at which a condition holds.

use vstd::prelude::*;

verus! {

/// Below `n`, the condition holds at `i` and at no index before it.
pub open spec fn is_first(n: int, holds: spec_fn(int) -> bool, i: int) -> bool {
    0 <= i < n && holds(i) && forall|j: int| 0 <= j < i ==> !#[trigger] holds(j)
}

/// The first index below `n` at which the condition holds.
pub open spec fn first_index(n: int, holds: spec_fn(int) -> bool) -> Option<int> {
    if exists|i: int| 0 <= i < n && #[trigger] holds(i) {
        Some(choose|i: int| is_first(n, holds, i))
    } else {
        None
    }
}

/// Where the condition holds at some index, it holds at a first one.
pub proof fn lemma_some_is_first(n: int, holds: spec_fn(int) -> bool, i: int)
    requires
        0 <= i < n,
        holds(i),
    ensures
        exists|k: int| is_first(n, holds, k),
    decreases i,
{
    if exists|j: int| 0 <= j < i && #[trigger] holds(j) {
        let j = choose|j: int| 0 <= j < i && #[trigger] holds(j);
        lemma_some_is_first(n, holds, j);
    } else {
        assert(is_first(n, holds, i));
    }
}

/// `first_index` is the one index that `is_first` picks out, and there is none exactly
/// where the condition holds nowhere below `n`.
pub proof fn lemma_first_index(n: int, holds: spec_fn(int) -> bool)
    ensures
        forall|i: int| first_index(n, holds) == Some(i) <==> #[trigger] is_first(n, holds, i),
        first_index(n, holds) is None <==> forall|i: int| 0 <= i < n ==> !#[trigger] holds(i),
{
    assert forall|i: int| first_index(n, holds) == Some(i) <==> #[trigger] is_first(
        n,
        holds,
        i,
    ) by {
        if is_first(n, holds, i) {
            let k = choose|k: int| is_first(n, holds, k);
            assert(!(k < i));
            assert(!(i < k));
        }
        if first_index(n, holds) == Some(i) {
            let w = choose|w: int| 0 <= w < n && #[trigger] holds(w);
            lemma_some_is_first(n, holds, w);
        }
    }
}

} // verus!
