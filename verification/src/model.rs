//! Views of sequences: what a list of values is to the contracts.

use vstd::prelude::*;

verus! {

/// The views of the items, in the same order.
pub open spec fn views<T: View>(items: Seq<T>) -> Seq<T::V> {
    Seq::new(items.len(), |i: int| items[i]@)
}

/// The views of the items of each row, rows and items in the same order.
pub open spec fn nested_views<T: View>(rows: Seq<Vec<T>>) -> Seq<Seq<T::V>> {
    Seq::new(rows.len(), |i: int| views(rows[i]@))
}

/// Adding an item at the end adds its view at the end.
pub proof fn views_push<T: View>(items: Seq<T>, item: T)
    ensures
        views(items.push(item)) == views(items).push(item@),
{
}

} // verus!
