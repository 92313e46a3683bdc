//! The first position of a list at which something holds.

use vstd::prelude::*;

verus! {

/// `i` is the first position at which `flags` holds `true`.
pub open spec fn is_first(flags: Seq<bool>, i: int) -> bool {
    &&& 0 <= i < flags.len()
    &&& flags[i]
    &&& forall|j: int| 0 <= j < i ==> !flags[j]
}

/// The first position at which `flags` holds `true`, if there is one.
pub open spec fn first_true(flags: Seq<bool>) -> Option<int> {
    if exists|i: int| is_first(flags, i) {
        Some(choose|i: int| is_first(flags, i))
    } else {
        None
    }
}

/// The first `true` is where a position with the defining property is.
pub proof fn lemma_first_true_at(flags: Seq<bool>, i: int)
    requires
        is_first(flags, i),
    ensures
        first_true(flags) == Some(i),
{
    let k = choose|k: int| is_first(flags, k);
    assert(is_first(flags, k));
    if k < i {
        assert(!flags[k]);
    } else if i < k {
        assert(!flags[i]);
    }
}

/// There is no first `true` where nothing is `true`.
pub proof fn lemma_first_true_none(flags: Seq<bool>)
    requires
        forall|j: int| 0 <= j < flags.len() ==> !flags[j],
    ensures
        first_true(flags) is None,
{
}

/// What `first_true` returns: a position that holds `true` with none before
/// it, or nothing where no position holds `true`.
pub proof fn lemma_first_true(flags: Seq<bool>)
    ensures
        match first_true(flags) {
            Some(i) => is_first(flags, i),
            None => forall|j: int| 0 <= j < flags.len() ==> !flags[j],
        },
{
    if first_true(flags) is None {
        assert forall|j: int| 0 <= j < flags.len() implies !flags[j] by {
            if flags[j] {
                lemma_some_true_has_first(flags, j);
            }
        }
    }
}

/// Where some position holds `true`, one of them is the first.
proof fn lemma_some_true_has_first(flags: Seq<bool>, j: int)
    requires
        0 <= j < flags.len(),
        flags[j],
    ensures
        exists|i: int| is_first(flags, i),
    decreases j,
{
    if exists|k: int| 0 <= k < j && flags[k] {
        let k = choose|k: int| 0 <= k < j && flags[k];
        lemma_some_true_has_first(flags, k);
    } else {
        assert(is_first(flags, j));
    }
}

} // verus!
