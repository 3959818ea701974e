use vstd::prelude::*;

verus! {

/// What a cell holds after an initializing call with `x`: the instance that
/// is already there, or a new one built from `x` when the cell was empty.
pub open spec fn first_wins<T>(held: Option<T>, x: T) -> Option<T> {
    match held {
        Some(v) => Some(v),
        None => Some(x),
    }
}

/// A later initializing call has no effect: whatever the cell held, and
/// whatever the arguments, initializing with `a` and then with `b` leaves the
/// cell as initializing with `a` alone did.
pub proof fn lemma_later_init_ignored<T>(held: Option<T>, a: T, b: T)
    ensures
        first_wins(first_wins(held, a), b) == first_wins(held, a),
{
}

/// On an empty cell, initializing with `a` and then with `b` keeps `a`.
pub proof fn lemma_first_argument_kept<T>(a: T, b: T)
    ensures
        first_wins(first_wins(None, a), b) == Some(a),
{
}

} // verus!
