//! The first position at which something holds.

use vstd::prelude::*;

verus! {

/// The least `i` with `0 <= i < n` at which `p` holds, if there is one.
pub open spec fn first_index(n: int, p: spec_fn(int) -> bool) -> Option<int>
    decreases n,
{
    if n <= 0 {
        None
    } else if first_index(n - 1, p) is Some {
        first_index(n - 1, p)
    } else if p(n - 1) {
        Some(n - 1)
    } else {
        None
    }
}

/// What [`first_index`] finds holds there and nowhere before; where it finds
/// nothing, `p` holds nowhere below `n`.
pub proof fn lemma_first_index(n: int, p: spec_fn(int) -> bool)
    ensures
        match first_index(n, p) {
            Some(i) => 0 <= i < n && p(i) && forall|j: int| 0 <= j < i ==> !#[trigger] p(j),
            None => forall|j: int| 0 <= j < n ==> !#[trigger] p(j),
        },
    decreases n,
{
    if n > 0 {
        lemma_first_index(n - 1, p);
    }
}

/// A position below `n` at which `p` holds, and before which it does not, is what
/// [`first_index`] finds.
pub proof fn lemma_first_index_is(n: int, p: spec_fn(int) -> bool, i: int)
    requires
        0 <= i < n,
        p(i),
        forall|j: int| 0 <= j < i ==> !#[trigger] p(j),
    ensures
        first_index(n, p) == Some(i),
{
    lemma_first_index(n, p);
}

/// Where `p` holds nowhere below `n`, [`first_index`] finds nothing.
pub proof fn lemma_first_index_none(n: int, p: spec_fn(int) -> bool)
    requires
        forall|j: int| 0 <= j < n ==> !#[trigger] p(j),
    ensures
        first_index(n, p) is None,
{
    lemma_first_index(n, p);
}

} // verus!
