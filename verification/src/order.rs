//! Walking an owned vector from its first item to its last.

use vstd::prelude::*;

verus! {

/// The items of `items` from the last to the first. Popping from the result
/// yields the items of `items` in their own order, each by value.
pub fn reversed<T>(items: Vec<T>) -> (back: Vec<T>)
    ensures
        back@ == items@.reverse(),
{
    let ghost all = items@;
    let mut rest = items;
    let mut back: Vec<T> = Vec::new();
    while rest.len() > 0
        invariant
            rest@.len() + back@.len() == all.len(),
            rest@ == all.take(rest@.len() as int),
            forall|j: int| 0 <= j < back@.len() ==> back@[j] == all[all.len() - 1 - j],
        decreases rest@.len(),
    {
        let item = rest.pop().unwrap();
        back.push(item);
        assert(rest@ =~= all.take(rest@.len() as int));
    }
    assert(back@ =~= all.reverse());
    back
}

} // verus!
