//! Columns that are put into an order given by their windows.

use vstd::prelude::*;
use crate::layout::row::SpaceState;
use crate::layout::tile::ColumnState;
use crate::layout::windows_law::same_windows;

verus! {

/// Whether a column consists of one window, and the list has it.
pub open spec fn is_listed(column: ColumnState, ids: Seq<u64>) -> bool {
    &&& column.tiles.len() == 1
    &&& column.tiles[0].below is None
    &&& ids.contains(column.tiles[0].window.id)
}

/// Whether a number stands at an index of a list and nowhere before.
pub open spec fn is_first(ids: Seq<u64>, id: u64, k: int) -> bool {
    &&& 0 <= k < ids.len()
    &&& ids[k] == id
    &&& forall|j: int| 0 <= j < k ==> ids[j] != id
}

/// Where the window of a listed column stands in the list.
pub open spec fn rank(column: ColumnState, ids: Seq<u64>) -> int {
    choose|k: int| is_first(ids, column.tiles[0].window.id, k)
}

/// Whether the listed columns stand in the order of the list.
pub open spec fn in_order(columns: Seq<ColumnState>, ids: Seq<u64>) -> bool {
    forall|i: int, j: int|
        0 <= i < j < columns.len() && is_listed(#[trigger] columns[i], ids) && is_listed(
            #[trigger] columns[j],
            ids,
        ) ==> rank(columns[i], ids) <= rank(columns[j], ids)
}

/// Whether the same columns stand in another order, in which only listed ones
/// changed places.
pub open spec fn listed_moved(
    before: Seq<ColumnState>,
    after: Seq<ColumnState>,
    ids: Seq<u64>,
) -> bool {
    &&& after.len() == before.len()
    &&& after.to_multiset() == before.to_multiset()
    &&& forall|i: int|
        0 <= i < before.len() ==> if is_listed(before[i], ids) {
            is_listed(#[trigger] after[i], ids)
        } else {
            after[i] == before[i]
        }
}

/// Whether a row differs from another one in that its listed columns are in the
/// order of the list, and in nothing else. The same column is active.
pub open spec fn reordered(before: SpaceState, after: SpaceState, ids: Seq<u64>) -> bool {
    &&& after == (SpaceState { columns: after.columns, active: after.active, ..before })
    &&& listed_moved(before.columns, after.columns, ids)
    &&& in_order(after.columns, ids)
    &&& before.columns.len() > 0 ==> {
        &&& 0 <= after.active < after.columns.len()
        &&& after.columns[after.active] == before.columns[before.active]
        &&& !is_listed(before.columns[before.active], ids) ==> after.active == before.active
    }
}

/// A sequence in which two items changed places has the same items.
pub proof fn exchanged_keeps_items(columns: Seq<ColumnState>, i: int, j: int)
    requires
        0 <= i < j < columns.len(),
    ensures
        columns.update(i, columns[j]).update(j, columns[i]).to_multiset()
            == columns.to_multiset(),
{
    broadcast use vstd::seq_lib::group_to_multiset_ensures;

    let after = columns.update(i, columns[j]).update(j, columns[i]);
    let a = columns.remove(j).remove(i);
    assert(after.remove(j).remove(i) =~= a);
    assert(columns.remove(j)[i] == columns[i]);
    assert(after.remove(j)[i] == columns[j]);
    assert(columns.to_multiset().remove(columns[j]).remove(columns[i]) == a.to_multiset());
    assert(after.to_multiset().remove(columns[i]).remove(columns[j]) == a.to_multiset());
    assert(columns.contains(columns[i]) && columns.contains(columns[j]));
    assert(after.contains(after[i]) && after.contains(after[j]));
    assert(columns.remove(j).contains(columns.remove(j)[i]));
    assert(after.remove(j).contains(after.remove(j)[i]));
    assert(after.to_multiset() =~= a.to_multiset().insert(columns[j]).insert(columns[i]));
    assert(columns.to_multiset() =~= a.to_multiset().insert(columns[i]).insert(columns[j]));
}

/// Where a number stands first in a list.
pub(crate) fn place_in(ids: &[u64], id: u64) -> (r: Option<usize>)
    ensures
        match r {
            Some(k) => is_first(ids@, id, k as int),
            None => !ids@.contains(id),
        },
{
    let mut k: usize = 0;
    while k < ids.len()
        invariant
            k <= ids@.len(),
            forall|j: int| 0 <= j < k ==> ids@[j] != id,
        decreases ids@.len() - k,
    {
        if ids[k] == id {
            return Some(k);
        }
        k += 1;
    }
    None
}

/// Putting columns into an order loses no window.
pub proof fn reordering_keeps_windows(before: SpaceState, after: SpaceState, ids: Seq<u64>)
    requires
        reordered(before, after, ids),
    ensures
        same_windows(before, after),
{
    broadcast use vstd::seq_lib::group_to_multiset_ensures;

    assert forall|id: u64|
        #![trigger before.holds(id)]
        #![trigger after.holds(id)]
        before.holds(id) == after.holds(id) by {
        if before.holds(id) {
            let i = choose|i: int|
                0 <= i < before.columns.len() && (#[trigger] before.columns[i]).holds(id);
            assert(before.columns.contains(before.columns[i]));
            assert(before.columns.to_multiset().count(before.columns[i]) > 0);
            assert(after.columns.contains(before.columns[i]));
            let j = choose|j: int|
                0 <= j < after.columns.len() && after.columns[j] == before.columns[i];
            assert(after.columns[j].holds(id));
        }
        if after.holds(id) {
            let i = choose|i: int|
                0 <= i < after.columns.len() && (#[trigger] after.columns[i]).holds(id);
            assert(after.columns.contains(after.columns[i]));
            assert(after.columns.to_multiset().count(after.columns[i]) > 0);
            assert(before.columns.contains(after.columns[i]));
            let j = choose|j: int|
                0 <= j < before.columns.len() && before.columns[j] == after.columns[i];
            assert(before.columns[j].holds(id));
        }
    }
}

} // verus!
