//! Lists that grow item by item.

use vstd::prelude::*;

verus! {

/// An item pushed onto what is there comes before whatever else follows.
pub proof fn pushed_item_comes_first<T>(there: Seq<T>, item: T)
    ensures
        forall|rest: Seq<T>| there + (seq![item] + rest) == #[trigger] (there.push(item) + rest),
{
    assert forall|rest: Seq<T>| there + (seq![item] + rest) == #[trigger] (there.push(item) + rest) by {
        assert(there + (seq![item] + rest) =~= there.push(item) + rest);
    }
}

} // verus!
