//! A session that is restored has its columns as they were.

use vstd::prelude::*;
use crate::layout::row::{
    clamped_index, column_from, column_of, consume_or_expel_left, insert_column, insert_tile,
    leaving_tile, move_column_to, next_column_idx, remove_tile_at, tile_of, tile_of_finds_the_first,
    SpaceState,
};
use crate::layout::tile::{stack_holds, ColumnState};
use crate::layout::windows_law::shown_ids;
use crate::session::{
    count_before, followers, in_slot_order, is_in_slot_order, slot_before, slot_of,
    slot_order_is_sorted, RestoredWindow,
};

verus! {

/// Whether slots are in order.
pub open spec fn slots_in_order(slots: Seq<(usize, usize)>) -> bool {
    forall|i: int, j: int|
        0 <= i < j < slots.len() ==> !slot_before(#[trigger] slots[j], #[trigger] slots[i])
}

/// Of slots in order, those before a slot come first.
proof fn lemma_count_in_order(slots: Seq<(usize, usize)>, key: (usize, usize), n: int)
    requires
        slots_in_order(slots),
        0 <= n <= slots.len(),
    ensures
        0 <= count_before(slots, key, n) <= n,
        forall|i: int|
            0 <= i < count_before(slots, key, n) ==> slot_before(#[trigger] slots[i], key),
        forall|i: int|
            count_before(slots, key, n) <= i < n ==> !slot_before(#[trigger] slots[i], key),
    decreases n,
{
    if n > 0 {
        lemma_count_in_order(slots, key, n - 1);
        let b = count_before(slots, key, n - 1);
        if slot_before(slots[n - 1], key) && b < n - 1 {
            assert(!slot_before(slots[b], key));
            assert(!slot_before(slots[n - 1], slots[b]));
        }
    }
}

/// The row after a restored window came back: it opens to the right of the
/// active column, and then its column moves to the place that its slot has.
pub open spec fn restored_into(
    s: SpaceState,
    slots: Seq<(usize, usize)>,
    column: ColumnState,
    key: (usize, usize),
) -> SpaceState {
    let opened = insert_column(s, next_column_idx(s), column, true);
    move_column_to(
        opened,
        clamped_index(1 + count_before(slots, key, slots.len() as int), opened.columns.len()),
    )
}

/// A restored window whose column moves to its place keeps the columns in order
/// of their slots, whatever order the windows come back in, and leaves the other
/// columns as they are.
pub proof fn restored_columns_stay_in_order(
    s: SpaceState,
    slots: Seq<(usize, usize)>,
    column: ColumnState,
    key: (usize, usize),
)
    requires
        s.wf(),
        slots.len() == s.columns.len(),
        slots_in_order(slots),
    ensures
        ({
            let at = count_before(slots, key, slots.len() as int);
            &&& 0 <= at <= slots.len()
            &&& restored_into(s, slots, column, key).columns == s.columns.insert(at, column)
            &&& slots_in_order(slots.insert(at, key))
        }),
{
    let n = slots.len() as int;
    let at = count_before(slots, key, n);
    lemma_count_in_order(slots, key, n);
    let next = next_column_idx(s);
    let opened = insert_column(s, next, column, true);
    assert(opened.active == next);
    assert(opened.columns == s.columns.insert(next, column));
    assert(opened.active_column() == column);
    assert(s.columns.insert(next, column).remove(next) =~= s.columns);
    if next == at {
        assert(restored_into(s, slots, column, key).columns =~= s.columns.insert(at, column));
    }
    lemma_insert_in_order(slots, key);
}

/// A slot that goes behind those before it leaves the slots in order.
proof fn lemma_insert_in_order(slots: Seq<(usize, usize)>, key: (usize, usize))
    requires
        slots_in_order(slots),
    ensures
        slots_in_order(slots.insert(count_before(slots, key, slots.len() as int), key)),
{
    let at = count_before(slots, key, slots.len() as int);
    lemma_count_in_order(slots, key, slots.len() as int);
    let with = slots.insert(at, key);
    assert forall|i: int, j: int| 0 <= i < j < with.len() implies !slot_before(
        #[trigger] with[j],
        #[trigger] with[i],
    ) by {
        let si = if i < at {
            i
        } else {
            i - 1
        };
        let sj = if j < at {
            j
        } else {
            j - 1
        };
        if i == at {
            assert(with[j] == slots[sj]);
        } else if j == at {
            assert(with[i] == slots[si]);
            assert(slot_before(slots[si], key));
        } else {
            assert(with[i] == slots[si]);
            assert(with[j] == slots[sj]);
        }
    }
}

/// Whether no tile of a column hides a window.
pub open spec fn hides_none(c: ColumnState) -> bool {
    forall|t: int| 0 <= t < c.tiles.len() ==> (#[trigger] c.tiles[t]).below is None
}

/// The columns of a session, by the windows in them: of the first `m` windows in
/// order of their slots, those with the same saved column are together.
pub open spec fn saved_columns(sorted: Seq<RestoredWindow>, m: int) -> Seq<Seq<u64>>
    decreases m,
{
    if m <= 0 {
        seq![]
    } else {
        let before = saved_columns(sorted, m - 1);
        let id = sorted[m - 1].id;
        if m > 1 && sorted[m - 1].column == sorted[m - 2].column {
            before.update(before.len() - 1, before.last().push(id))
        } else {
            before.push(seq![id])
        }
    }
}

/// The row after windows joined the column to their left, one after the other.
pub open spec fn joined(s: SpaceState, ids: Seq<u64>) -> SpaceState
    decreases ids.len(),
{
    if ids.len() == 0 {
        s
    } else {
        consume_or_expel_left(joined(s, ids.drop_last()), Some(ids.last()))
    }
}

/// No window is restored twice.
pub open spec fn ids_are_unique(sorted: Seq<RestoredWindow>) -> bool {
    forall|i: int, j: int|
        0 <= i < j < sorted.len() ==> (#[trigger] sorted[i]).id != (#[trigger] sorted[j]).id
}

/// Whether the columns are those of the session for the first `m` windows, and
/// one for each of the others.
spec fn partly_joined(s: SpaceState, sorted: Seq<RestoredWindow>, m: int) -> bool {
    let saved = saved_columns(sorted, m);
    &&& s.wf()
    &&& s.columns.len() == saved.len() + (sorted.len() - m)
    &&& forall|j: int|
        0 <= j < saved.len() ==> shown_ids(#[trigger] s.columns[j]) == saved[j]
    &&& forall|j: int|
        saved.len() <= j < s.columns.len() ==> shown_ids(#[trigger] s.columns[j]) == seq![
            sorted[m + (j - saved.len())].id,
        ]
    &&& forall|j: int| 0 <= j < s.columns.len() ==> hides_none(#[trigger] s.columns[j])
}

proof fn lemma_saved_columns(sorted: Seq<RestoredWindow>, m: int)
    requires
        0 <= m <= sorted.len(),
    ensures
        0 <= saved_columns(sorted, m).len() <= m,
        m > 0 ==> saved_columns(sorted, m).len() > 0,
        forall|j: int, t: int|
            0 <= j < saved_columns(sorted, m).len() && 0 <= t < saved_columns(sorted, m)[j].len()
                ==> exists|k: int|
                0 <= k < m && (#[trigger] sorted[k]).id == #[trigger] saved_columns(
                    sorted,
                    m,
                )[j][t],
    decreases m,
{
    if m > 0 {
        lemma_saved_columns(sorted, m - 1);
        let before = saved_columns(sorted, m - 1);
        let now = saved_columns(sorted, m);
        assert forall|j: int, t: int| 0 <= j < now.len() && 0 <= t < now[j].len() implies exists|k:
            int|
            0 <= k < m && (#[trigger] sorted[k]).id == #[trigger] now[j][t] by {
            if j < before.len() && t < before[j].len() {
                assert(before[j][t] == now[j][t]);
                let k = choose|k: int|
                    0 <= k < m - 1 && (#[trigger] sorted[k]).id == before[j][t];
                assert(sorted[k].id == now[j][t]);
            } else {
                assert(sorted[m - 1].id == now[j][t]);
            }
        }
    }
}

/// A column that hides no window holds exactly those that it shows.
proof fn lemma_holds(c: ColumnState, id: u64)
    requires
        hides_none(c),
    ensures
        c.holds(id) <==> shown_ids(c).contains(id),
{
    if c.holds(id) {
        let t = choose|t: int| 0 <= t < c.tiles.len() && (#[trigger] c.tiles[t]).holds(id);
        assert(!stack_holds(c.tiles[t].below, id));
        assert(shown_ids(c)[t] == id);
    }
    if shown_ids(c).contains(id) {
        let t = choose|t: int| 0 <= t < shown_ids(c).len() && shown_ids(c)[t] == id;
        assert(c.tiles[t].holds(id));
    }
}

proof fn lemma_column_at(columns: Seq<ColumnState>, id: u64, i: int, at: int)
    requires
        0 <= i <= at < columns.len(),
        columns[at].holds(id),
        forall|j: int| i <= j < at ==> !(#[trigger] columns[j]).holds(id),
    ensures
        column_from(columns, id, i) == at,
    decreases at - i,
{
    if i < at {
        lemma_column_at(columns, id, i + 1, at);
    }
}

proof fn lemma_join_one(s: SpaceState, sorted: Seq<RestoredWindow>, m: int)
    requires
        0 < m < sorted.len(),
        ids_are_unique(sorted),
        partly_joined(s, sorted, m),
        sorted[m].column == sorted[m - 1].column,
    ensures
        partly_joined(consume_or_expel_left(s, Some(sorted[m].id)), sorted, m + 1),
{
    let saved = saved_columns(sorted, m);
    let c = saved.len() as int;
    let id = sorted[m].id;
    lemma_saved_columns(sorted, m);
    assert(c > 0);
    assert(c < s.columns.len());
    let column = s.columns[c];
    assert(shown_ids(column) == seq![id]);
    assert(shown_ids(column).len() == column.tiles.len());
    assert(column.tiles.len() == 1);
    assert(shown_ids(column)[0] == id);
    assert(hides_none(column));
    lemma_holds(column, id);
    assert(shown_ids(column).contains(id));
    assert forall|j: int| 0 <= j < c implies !(#[trigger] s.columns[j]).holds(id) by {
        lemma_holds(s.columns[j], id);
        if shown_ids(s.columns[j]).contains(id) {
            let t = choose|t: int| 0 <= t < saved[j].len() && saved[j][t] == id;
            let k = choose|k: int| 0 <= k < m && (#[trigger] sorted[k]).id == saved[j][t];
            assert(sorted[k].id != sorted[m].id);
        }
    }
    lemma_column_at(s.columns, id, 0, c);
    assert(column_of(s.columns, id) == c);
    assert(s.holds(id));
    tile_of_finds_the_first(column, id);
    assert(tile_of(column.tiles, id) == 0);
    let removed = remove_tile_at(s, c, 0);
    assert(removed.columns == s.columns.remove(c));
    let tile = leaving_tile(column, 0);
    let target = s.columns[c - 1];
    assert(removed.columns[c - 1] == target);
    let after = consume_or_expel_left(s, Some(id));
    let was_active = s.active == c && column.active == 0;
    let bottom = target.tiles.len() as int;
    let joined = insert_tile(removed, c - 1, bottom, tile, was_active);
    assert(after.columns == joined.columns && after.active == joined.active);
    let new = crate::layout::row::column_with(target, bottom, tile, was_active);
    assert(after.columns == s.columns.remove(c).update(c - 1, new));
    let next = saved_columns(sorted, m + 1);
    assert(next == saved.update(c - 1, saved.last().push(id)));
    assert(shown_ids(new) =~= shown_ids(target).push(id));
    assert(hides_none(new)) by {
        assert forall|t: int| 0 <= t < new.tiles.len() implies (
        #[trigger] new.tiles[t]).below is None by {
            if t < bottom {
                assert(new.tiles[t] == target.tiles[t]);
                assert(hides_none(target));
            } else {
                assert(column.tiles[0].below is None);
            }
        }
    }
    assert forall|j: int| 0 <= j < next.len() implies shown_ids(#[trigger] after.columns[j])
        == next[j] by {
        if j < c - 1 {
            assert(after.columns[j] == s.columns[j]);
        }
    }
    assert forall|j: int| next.len() <= j < after.columns.len() implies shown_ids(
        #[trigger] after.columns[j],
    ) == seq![sorted[m + 1 + (j - next.len())].id] by {
        assert(after.columns[j] == s.columns[j + 1]);
    }
    assert forall|j: int| 0 <= j < after.columns.len() implies hides_none(
        #[trigger] after.columns[j],
    ) by {
        if j < c - 1 {
            assert(after.columns[j] == s.columns[j]);
        } else if j > c - 1 {
            assert(after.columns[j] == s.columns[j + 1]);
        }
    }
    assert(after.wf()) by {
        assert forall|j: int| 0 <= j < after.columns.len() implies (
        #[trigger] after.columns[j]).wf() by {
            assert(target.wf());
            if j < c - 1 {
                assert(after.columns[j] == s.columns[j]);
            } else if j > c - 1 {
                assert(after.columns[j] == s.columns[j + 1]);
            }
        }
    }
}

proof fn lemma_joined(s: SpaceState, sorted: Seq<RestoredWindow>, m: int)
    requires
        0 <= m <= sorted.len(),
        ids_are_unique(sorted),
        partly_joined(s, sorted, 0),
    ensures
        partly_joined(joined(s, followers(sorted, m)), sorted, m),
    decreases m,
{
    if m > 0 {
        lemma_joined(s, sorted, m - 1);
        let before = joined(s, followers(sorted, m - 1));
        let saved = saved_columns(sorted, m - 1);
        lemma_saved_columns(sorted, m - 1);
        if m > 1 && sorted[m - 1].column == sorted[m - 2].column {
            lemma_join_one(before, sorted, m - 1);
            let ids = followers(sorted, m);
            assert(ids.drop_last() =~= followers(sorted, m - 1));
        } else {
            let next = saved_columns(sorted, m);
            assert(next == saved.push(seq![sorted[m - 1].id]));
            assert forall|j: int| 0 <= j < next.len() implies shown_ids(
                #[trigger] before.columns[j],
            ) == next[j] by {
                if j == saved.len() {
                    assert(shown_ids(before.columns[j]) == seq![
                        sorted[m - 1 + (j - saved.len())].id,
                    ]);
                }
            }
            assert forall|j: int| next.len() <= j < before.columns.len() implies shown_ids(
                #[trigger] before.columns[j],
            ) == seq![sorted[m + (j - next.len())].id] by {
                assert(shown_ids(before.columns[j]) == seq![
                    sorted[m - 1 + (j - saved.len())].id,
                ]);
            }
        }
    }
}

/// Restoring gives the columns of the session back: where each restored window
/// is in a column of its own, in order of the slots, then letting those that
/// shared a saved column join the one to their left puts exactly the windows of
/// each saved column together, in the order that they had there.
pub proof fn restored_columns_are_rebuilt(s: SpaceState, sorted: Seq<RestoredWindow>)
    requires
        s.wf(),
        ids_are_unique(sorted),
        s.columns.len() == sorted.len(),
        forall|j: int|
            0 <= j < sorted.len() ==> shown_ids(#[trigger] s.columns[j]) == seq![sorted[j].id],
        forall|j: int| 0 <= j < s.columns.len() ==> hides_none(#[trigger] s.columns[j]),
    ensures
        ({
            let after = joined(s, followers(sorted, sorted.len() as int));
            let saved = saved_columns(sorted, sorted.len() as int);
            &&& after.columns.len() == saved.len()
            &&& forall|j: int|
                0 <= j < saved.len() ==> shown_ids(#[trigger] after.columns[j]) == saved[j]
        }),
{
    assert(partly_joined(s, sorted, 0));
    lemma_joined(s, sorted, sorted.len() as int);
}

/// A restored window that comes back, and the column that it opens in.
pub struct Arrival {
    pub window: RestoredWindow,
    pub column: ColumnState,
}

/// The windows of arrivals.
pub open spec fn arrived_windows(arrivals: Seq<Arrival>) -> Seq<RestoredWindow> {
    Seq::new(arrivals.len(), |i: int| arrivals[i].window)
}

/// The slots of arrivals.
pub open spec fn arrived_slots(arrivals: Seq<Arrival>) -> Seq<(usize, usize)> {
    Seq::new(arrivals.len(), |i: int| slot_of(arrivals[i].window))
}

/// The columns of arrivals.
pub open spec fn arrived_columns(arrivals: Seq<Arrival>) -> Seq<ColumnState> {
    Seq::new(arrivals.len(), |i: int| arrivals[i].column)
}

/// Arrivals in the order that their columns end up in: each goes behind those
/// before it that have an earlier slot.
pub open spec fn placed(arrivals: Seq<Arrival>) -> Seq<Arrival>
    decreases arrivals.len(),
{
    if arrivals.len() == 0 {
        seq![]
    } else {
        let before = placed(arrivals.drop_last());
        let slots = arrived_slots(before);
        before.insert(
            count_before(slots, slot_of(arrivals.last().window), slots.len() as int),
            arrivals.last(),
        )
    }
}

/// The row after windows came back one after the other.
pub open spec fn row_after(s: SpaceState, arrivals: Seq<Arrival>) -> SpaceState
    decreases arrivals.len(),
{
    if arrivals.len() == 0 {
        s
    } else {
        restored_into(
            row_after(s, arrivals.drop_last()),
            arrived_slots(placed(arrivals.drop_last())),
            arrivals.last().column,
            slot_of(arrivals.last().window),
        )
    }
}

/// No two windows have the same slot.
pub open spec fn slots_are_unique(windows: Seq<RestoredWindow>) -> bool {
    forall|i: int, j: int|
        0 <= i < j < windows.len() ==> slot_of(#[trigger] windows[i]) != slot_of(
            #[trigger] windows[j],
        )
}

/// Inserting an element adds it to the elements.
proof fn lemma_insert_multiset<T>(s: Seq<T>, at: int, x: T)
    requires
        0 <= at <= s.len(),
    ensures
        s.insert(at, x).to_multiset() == s.to_multiset().insert(x),
{
    broadcast use vstd::seq_lib::group_to_multiset_ensures;
    broadcast use vstd::multiset::group_multiset_axioms;
    let all = s.insert(at, x);
    assert(all[at] == x);
    assert(all.remove(at) =~= s);
    assert(all.contains(x));
    assert(s.to_multiset() =~= all.to_multiset().remove(x));
    assert(all.to_multiset() =~= s.to_multiset().insert(x));
}

proof fn lemma_placed(s: SpaceState, arrivals: Seq<Arrival>)
    requires
        s.wf(),
        s.columns.len() == 0,
        forall|i: int| 0 <= i < arrivals.len() ==> (#[trigger] arrivals[i]).column.wf(),
    ensures
        row_after(s, arrivals).wf(),
        row_after(s, arrivals).columns == arrived_columns(placed(arrivals)),
        slots_in_order(arrived_slots(placed(arrivals))),
    decreases arrivals.len(),
{
    if arrivals.len() == 0 {
        assert(arrived_columns(placed(arrivals)) =~= s.columns);
    } else {
        let front = arrivals.drop_last();
        let last = arrivals.last();
        lemma_placed(s, front);
        let row = row_after(s, front);
        let before = placed(front);
        let slots = arrived_slots(before);
        let key = slot_of(last.window);
        restored_columns_stay_in_order(row, slots, last.column, key);
        let at = count_before(slots, key, slots.len() as int);
        let all = placed(arrivals);
        assert(arrived_columns(all) =~= arrived_columns(before).insert(at, last.column));
        assert(arrived_slots(all) =~= slots.insert(at, key));
        assert(arrivals[arrivals.len() - 1].column.wf());
        lemma_restored_is_wf(row, slots, last.column, key);
    }
}

proof fn lemma_restored_is_wf(
    s: SpaceState,
    slots: Seq<(usize, usize)>,
    column: ColumnState,
    key: (usize, usize),
)
    requires
        s.wf(),
        column.wf(),
        slots.len() == s.columns.len(),
        slots_in_order(slots),
    ensures
        restored_into(s, slots, column, key).wf(),
{
    restored_columns_stay_in_order(s, slots, column, key);
    let at = count_before(slots, key, slots.len() as int);
    let after = restored_into(s, slots, column, key);
    assert forall|i: int| 0 <= i < after.columns.len() implies (
    #[trigger] after.columns[i]).wf() by {
        if i < at {
            assert(after.columns[i] == s.columns[i]);
        } else if i > at {
            assert(after.columns[i] == s.columns[i - 1]);
        }
    }
}

/// Putting arrivals in order neither loses nor adds one.
proof fn lemma_placed_multiset(arrivals: Seq<Arrival>)
    ensures
        slots_in_order(arrived_slots(placed(arrivals))),
        placed(arrivals).to_multiset() == arrivals.to_multiset(),
        arrived_windows(placed(arrivals)).to_multiset() == arrived_windows(arrivals).to_multiset(),
    decreases arrivals.len(),
{
    if arrivals.len() == 0 {
        assert(placed(arrivals) =~= arrivals);
    } else {
        let front = arrivals.drop_last();
        let last = arrivals.last();
        lemma_placed_multiset(front);
        let before = placed(front);
        let slots = arrived_slots(before);
        let key = slot_of(last.window);
        let at = count_before(slots, key, slots.len() as int);
        lemma_count_in_order(slots, key, slots.len() as int);
        let all = placed(arrivals);
        lemma_insert_in_order(slots, key);
        assert(arrived_slots(all) =~= slots.insert(at, key));
        assert(arrived_windows(all) =~= arrived_windows(before).insert(at, last.window));
        lemma_insert_multiset(before, at, last);
        lemma_insert_multiset(arrived_windows(before), at, last.window);
        let n = front.len() as int;
        assert(arrivals =~= front.insert(n, last));
        assert(arrived_windows(arrivals) =~= arrived_windows(front).insert(n, last.window));
        lemma_insert_multiset(front, n, last);
        lemma_insert_multiset(arrived_windows(front), n, last.window);
    }
}

/// There is one way only to put windows with different slots in order.
proof fn lemma_same_order(x: Seq<RestoredWindow>, y: Seq<RestoredWindow>)
    requires
        is_in_slot_order(x),
        is_in_slot_order(y),
        slots_are_unique(x),
        x.to_multiset() == y.to_multiset(),
    ensures
        x == y,
    decreases x.len(),
{
    broadcast use vstd::seq_lib::group_to_multiset_ensures;
    broadcast use vstd::multiset::group_multiset_axioms;
    assert(x.len() == x.to_multiset().len());
    assert(y.len() == y.to_multiset().len());
    if x.len() == 0 {
        assert(x =~= y);
    } else {
        let a = x.last();
        let b = y.last();
        assert(x.contains(x[x.len() - 1]));
        assert(y.contains(y[y.len() - 1]));
        assert(y.to_multiset().contains(a));
        assert(x.to_multiset().contains(b));
        assert(y.contains(a));
        assert(x.contains(b));
        let i = choose|i: int| 0 <= i < x.len() && x[i] == b;
        let j = choose|j: int| 0 <= j < y.len() && y[j] == a;
        if i < x.len() - 1 {
            assert(!slot_before(slot_of(x[x.len() - 1]), slot_of(x[i])));
            if j < y.len() - 1 {
                assert(!slot_before(slot_of(y[y.len() - 1]), slot_of(y[j])));
            }
            assert(slot_of(x[i]) == slot_of(x[x.len() - 1]));
            assert(false);
        }
        let fx = x.drop_last();
        let fy = y.drop_last();
        assert(x =~= fx.push(a));
        assert(y =~= fy.push(a));
        assert(fx.to_multiset() =~= x.to_multiset().remove(a));
        assert(fy.to_multiset() =~= y.to_multiset().remove(a));
        lemma_same_order(fx, fy);
    }
}

/// The order in which restored windows come back makes no difference to the
/// order of their columns.
pub proof fn arrival_order_does_not_matter(s: SpaceState, a: Seq<Arrival>, b: Seq<Arrival>)
    requires
        s.wf(),
        s.columns.len() == 0,
        forall|i: int| 0 <= i < a.len() ==> (#[trigger] a[i]).column.wf(),
        slots_are_unique(arrived_windows(a)),
        a.to_multiset() == b.to_multiset(),
    ensures
        row_after(s, a).columns == row_after(s, b).columns,
{
    broadcast use vstd::seq_lib::group_to_multiset_ensures;
    broadcast use vstd::multiset::group_multiset_axioms;
    assert forall|i: int| 0 <= i < b.len() implies (#[trigger] b[i]).column.wf() by {
        assert(b.to_multiset().contains(b[i]));
        assert(a.contains(b[i]));
    }
    lemma_placed(s, a);
    lemma_placed(s, b);
    lemma_placed_multiset(a);
    lemma_placed_multiset(b);
    let x = placed(a);
    let y = placed(b);
    lemma_unique_slots(a, x);
    lemma_unique_slots(a, y);
    lemma_same_arrivals(x, y);
}

/// Arrivals with different slots have different slots in any order.
proof fn lemma_unique_slots(a: Seq<Arrival>, x: Seq<Arrival>)
    requires
        slots_are_unique(arrived_windows(a)),
        x.to_multiset() == a.to_multiset(),
    ensures
        slots_are_unique(arrived_windows(x)),
    decreases x.len(),
{
    broadcast use vstd::seq_lib::group_to_multiset_ensures;
    broadcast use vstd::multiset::group_multiset_axioms;
    assert forall|i: int, j: int| 0 <= i < j < arrived_windows(x).len() implies slot_of(
        #[trigger] arrived_windows(x)[i],
    ) != slot_of(#[trigger] arrived_windows(x)[j]) by {
        let rest = x.remove(i);
        assert(rest[j - 1] == x[j]);
        assert(rest.to_multiset() =~= x.to_multiset().remove(x[i]));
        assert(rest.contains(x[j]));
        assert(a.to_multiset().contains(x[i]));
        assert(a.contains(x[i]));
        let k = choose|k: int| 0 <= k < a.len() && a[k] == x[i];
        let others = a.remove(k);
        assert(others.to_multiset() =~= a.to_multiset().remove(a[k]));
        assert(others.to_multiset().contains(x[j]));
        assert(others.contains(x[j]));
        let m = choose|m: int| 0 <= m < others.len() && others[m] == x[j];
        let n = if m < k {
            m
        } else {
            m + 1
        };
        assert(a[n] == x[j]);
        assert(arrived_windows(a)[k] == x[i].window);
        assert(arrived_windows(a)[n] == x[j].window);
    }
}

/// There is one way only to put arrivals with different slots in order.
proof fn lemma_same_arrivals(x: Seq<Arrival>, y: Seq<Arrival>)
    requires
        slots_in_order(arrived_slots(x)),
        slots_in_order(arrived_slots(y)),
        slots_are_unique(arrived_windows(x)),
        x.to_multiset() == y.to_multiset(),
    ensures
        x == y,
    decreases x.len(),
{
    broadcast use vstd::seq_lib::group_to_multiset_ensures;
    broadcast use vstd::multiset::group_multiset_axioms;
    assert(x.len() == x.to_multiset().len());
    assert(y.len() == y.to_multiset().len());
    if x.len() == 0 {
        assert(x =~= y);
    } else {
        let last = x.len() - 1;
        let a = x.last();
        let b = y.last();
        assert(x.contains(x[last]));
        assert(y.contains(y[last]));
        assert(y.to_multiset().contains(a));
        assert(x.to_multiset().contains(b));
        assert(y.contains(a));
        assert(x.contains(b));
        let i = choose|i: int| 0 <= i < x.len() && x[i] == b;
        let j = choose|j: int| 0 <= j < y.len() && y[j] == a;
        if i < last {
            assert(!slot_before(arrived_slots(x)[last], arrived_slots(x)[i]));
            if j < last {
                assert(!slot_before(arrived_slots(y)[last], arrived_slots(y)[j]));
            }
            assert(slot_of(arrived_windows(x)[i]) == slot_of(arrived_windows(x)[last]));
            assert(false);
        }
        let fx = x.drop_last();
        let fy = y.drop_last();
        assert(x =~= fx.push(a));
        assert(y =~= fy.push(a));
        assert(fx.to_multiset() =~= x.to_multiset().remove(a));
        assert(fy.to_multiset() =~= y.to_multiset().remove(a));
        assert forall|k: int, l: int| 0 <= k < l < arrived_slots(fx).len() implies !slot_before(
            #[trigger] arrived_slots(fx)[l],
            #[trigger] arrived_slots(fx)[k],
        ) by {
            assert(arrived_slots(fx)[l] == arrived_slots(x)[l]);
            assert(arrived_slots(fx)[k] == arrived_slots(x)[k]);
        }
        assert forall|k: int, l: int| 0 <= k < l < arrived_slots(fy).len() implies !slot_before(
            #[trigger] arrived_slots(fy)[l],
            #[trigger] arrived_slots(fy)[k],
        ) by {
            assert(arrived_slots(fy)[l] == arrived_slots(y)[l]);
            assert(arrived_slots(fy)[k] == arrived_slots(y)[k]);
        }
        assert forall|k: int, l: int| 0 <= k < l < arrived_windows(fx).len() implies slot_of(
            #[trigger] arrived_windows(fx)[k],
        ) != slot_of(#[trigger] arrived_windows(fx)[l]) by {
            assert(arrived_windows(fx)[k] == arrived_windows(x)[k]);
            assert(arrived_windows(fx)[l] == arrived_windows(x)[l]);
        }
        lemma_same_arrivals(fx, fy);
    }
}

/// A session comes back as it was: when its windows open in columns of their
/// own, in whatever order, and then those that shared a saved column join the
/// one to their left, each column holds the windows that it held, in the order
/// that they had there.
pub proof fn session_comes_back(s: SpaceState, arrivals: Seq<Arrival>)
    requires
        s.wf(),
        s.columns.len() == 0,
        forall|i: int|
            0 <= i < arrivals.len() ==> {
                &&& (#[trigger] arrivals[i]).column.wf()
                &&& shown_ids(arrivals[i].column) == seq![arrivals[i].window.id]
                &&& hides_none(arrivals[i].column)
            },
        ids_are_unique(arrived_windows(arrivals)),
        slots_are_unique(arrived_windows(arrivals)),
    ensures
        ({
            let sorted = in_slot_order(arrived_windows(arrivals));
            let n = sorted.len() as int;
            let after = joined(row_after(s, arrivals), followers(sorted, n));
            let saved = saved_columns(sorted, n);
            &&& after.columns.len() == saved.len()
            &&& forall|j: int|
                0 <= j < saved.len() ==> shown_ids(#[trigger] after.columns[j]) == saved[j]
        }),
{
    broadcast use vstd::seq_lib::group_to_multiset_ensures;
    broadcast use vstd::multiset::group_multiset_axioms;
    let windows = arrived_windows(arrivals);
    let sorted = in_slot_order(windows);
    slot_order_is_sorted(windows);
    lemma_placed(s, arrivals);
    lemma_placed_multiset(arrivals);
    let all = placed(arrivals);
    let ordered = arrived_windows(all);
    lemma_unique_slots(arrivals, all);
    assert forall|i: int, j: int| 0 <= i < j < ordered.len() implies !slot_before(
        slot_of(#[trigger] ordered[j]),
        slot_of(#[trigger] ordered[i]),
    ) by {
        assert(arrived_slots(all)[i] == slot_of(ordered[i]));
        assert(arrived_slots(all)[j] == slot_of(ordered[j]));
    }
    lemma_same_order(ordered, sorted);
    lemma_unique_ids(windows, sorted);
    let row = row_after(s, arrivals);
    assert forall|j: int| 0 <= j < sorted.len() implies shown_ids(#[trigger] row.columns[j])
        == seq![sorted[j].id] && hides_none(row.columns[j]) by {
        assert(row.columns[j] == arrived_columns(all)[j]);
        assert(all.to_multiset().contains(all[j]));
        assert(arrivals.contains(all[j]));
        assert(ordered[j] == all[j].window);
    }
    restored_columns_are_rebuilt(row, sorted);
}

/// Windows with different ids have different ids in any order.
proof fn lemma_unique_ids(a: Seq<RestoredWindow>, x: Seq<RestoredWindow>)
    requires
        ids_are_unique(a),
        x.to_multiset() == a.to_multiset(),
    ensures
        ids_are_unique(x),
{
    broadcast use vstd::seq_lib::group_to_multiset_ensures;
    broadcast use vstd::multiset::group_multiset_axioms;
    assert forall|i: int, j: int| 0 <= i < j < x.len() implies (#[trigger] x[i]).id != (
    #[trigger] x[j]).id by {
        let rest = x.remove(i);
        assert(rest[j - 1] == x[j]);
        assert(rest.to_multiset() =~= x.to_multiset().remove(x[i]));
        assert(rest.contains(x[j]));
        assert(a.to_multiset().contains(x[i]));
        assert(a.contains(x[i]));
        let k = choose|k: int| 0 <= k < a.len() && a[k] == x[i];
        let others = a.remove(k);
        assert(others.to_multiset() =~= a.to_multiset().remove(a[k]));
        assert(others.to_multiset().contains(x[j]));
        assert(others.contains(x[j]));
        let m = choose|m: int| 0 <= m < others.len() && others[m] == x[j];
        let n = if m < k {
            m
        } else {
            m + 1
        };
        assert(a[n] == x[j]);
    }
}

} // verus!
