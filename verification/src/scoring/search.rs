//! Finding the first of a list that answers a description.

use vstd::prelude::*;

verus! {

/// `i` is the first position at which `flags` holds `true`.
pub open spec fn is_first(flags: Seq<bool>, i: int) -> bool {
    &&& 0 <= i < flags.len()
    &&& flags[i]
    &&& forall|j: int| 0 <= j < i ==> !flags[j]
}

/// The first position at which `flags` holds `true`, if it does anywhere.
pub open spec fn first(flags: Seq<bool>) -> Option<int> {
    if exists|i: int| is_first(flags, i) {
        Some(choose|i: int| is_first(flags, i))
    } else {
        None
    }
}

/// A position that holds `true` after nothing but `false` is the first one.
pub proof fn first_is_at(flags: Seq<bool>, i: int)
    requires
        is_first(flags, i),
    ensures
        first(flags) == Some(i),
{
    let k = choose|k: int| is_first(flags, k);
    if i < k {
        assert(!flags[i]);
    } else if k < i {
        assert(!flags[k]);
    }
}

/// Where nothing holds `true`, there is no first position.
pub proof fn first_is_nowhere(flags: Seq<bool>)
    requires
        forall|j: int| 0 <= j < flags.len() ==> !flags[j],
    ensures
        first(flags) is None,
{
}

/// What `first` returns is a first position.
pub proof fn first_is_first(flags: Seq<bool>)
    requires
        first(flags) is Some,
    ensures
        is_first(flags, first(flags)->0),
{
}

} // verus!
