//! What a session remembers of a window, and how the columns are put together
//! again from that.

use vstd::prelude::*;

verus! {

/// The panel that a window was in.
#[derive(Debug, Clone, Copy, PartialEq, Eq, Structural)]
pub enum PanelSide {
    Left,
    Right,
}

/// Where a window was. A size that wasn't captured is `None`.
#[derive(Debug, Clone, Copy, PartialEq, Eq, Structural)]
pub enum Placement {
    /// Among the columns, with column and row counted from zero.
    Tiled { column_index: usize, tile_index: usize, width: Option<i32>, height: Option<i32> },
    /// In a panel.
    SidePanel { side: PanelSide, width: Option<i32>, height: Option<i32> },
    /// In the floating layer.
    Floating,
}

/// A window of the last session and the slot that it had.
#[derive(Debug, Clone, Copy, PartialEq, Eq, Structural)]
pub struct RestoredWindow {
    pub id: u64,
    pub column: usize,
    pub tile: usize,
}

/// Whether a slot comes before another: by column, and then by row.
pub open spec fn slot_before(a: (usize, usize), b: (usize, usize)) -> bool {
    a.0 < b.0 || a.0 == b.0 && a.1 < b.1
}

fn is_before(a: (usize, usize), b: (usize, usize)) -> (r: bool)
    ensures
        r == slot_before(a, b),
{
    a.0 < b.0 || (a.0 == b.0 && a.1 < b.1)
}

/// How many of the first `n` slots come before a slot.
pub open spec fn count_before(slots: Seq<(usize, usize)>, key: (usize, usize), n: int) -> int
    decreases n,
{
    if n <= 0 {
        0
    } else {
        count_before(slots, key, n - 1) + (if slot_before(slots[n - 1], key) {
            1int
        } else {
            0
        })
    }
}

/// The one-based place for the column of a restored window among the columns of
/// its workspace, given the slots of the restored windows there: behind those
/// that come before it. That does not depend on the order in which the windows
/// come back.
pub fn restored_column_index(slots: &Vec<(usize, usize)>, key: (usize, usize)) -> (r: usize)
    requires
        slots@.len() < usize::MAX,
    ensures
        r == 1 + count_before(slots@, key, slots@.len() as int),
{
    let mut before: usize = 0;
    let mut i: usize = 0;
    while i < slots.len()
        invariant
            i <= slots@.len(),
            slots@.len() < usize::MAX,
            before == count_before(slots@, key, i as int),
            before <= i,
        decreases slots@.len() - i,
    {
        if is_before(slots[i], key) {
            before += 1;
        }
        i += 1;
    }
    before + 1
}

/// The slot of a window.
pub open spec fn slot_of(w: RestoredWindow) -> (usize, usize) {
    (w.column, w.tile)
}

/// Where a window goes among windows in order of their slots: behind all those
/// that don't come after it.
pub open spec fn insertion_point(sorted: Seq<RestoredWindow>, w: RestoredWindow, i: int) -> int
    decreases i,
{
    if i <= 0 {
        0
    } else if slot_before(slot_of(w), slot_of(sorted[i - 1])) {
        insertion_point(sorted, w, i - 1)
    } else {
        i
    }
}

/// The windows in order of their slots; those with the same slot stay in the
/// order that they are in.
pub open spec fn in_slot_order(windows: Seq<RestoredWindow>) -> Seq<RestoredWindow>
    decreases windows.len(),
{
    if windows.len() == 0 {
        seq![]
    } else {
        let sorted = in_slot_order(windows.drop_last());
        let w = windows.last();
        sorted.insert(insertion_point(sorted, w, sorted.len() as int), w)
    }
}

/// Whether windows are in order of their slots.
pub open spec fn is_in_slot_order(windows: Seq<RestoredWindow>) -> bool {
    forall|i: int, j: int|
        0 <= i < j < windows.len() ==> !slot_before(
            slot_of(#[trigger] windows[j]),
            slot_of(#[trigger] windows[i]),
        )
}

proof fn lemma_insertion_point(sorted: Seq<RestoredWindow>, w: RestoredWindow, i: int)
    requires
        0 <= i <= sorted.len(),
    ensures
        0 <= insertion_point(sorted, w, i) <= i,
        forall|j: int|
            insertion_point(sorted, w, i) <= j < i ==> slot_before(
                slot_of(w),
                slot_of(#[trigger] sorted[j]),
            ),
        insertion_point(sorted, w, i) > 0 ==> !slot_before(
            slot_of(w),
            slot_of(sorted[insertion_point(sorted, w, i) - 1]),
        ),
    decreases i,
{
    if i > 0 && slot_before(slot_of(w), slot_of(sorted[i - 1])) {
        lemma_insertion_point(sorted, w, i - 1);
    }
}

/// Sorting puts the windows in order of their slots, and neither loses nor adds
/// one.
pub proof fn slot_order_is_sorted(windows: Seq<RestoredWindow>)
    ensures
        is_in_slot_order(in_slot_order(windows)),
        in_slot_order(windows).len() == windows.len(),
        in_slot_order(windows).to_multiset() == windows.to_multiset(),
    decreases windows.len(),
{
    broadcast use vstd::seq_lib::group_to_multiset_ensures;
    if windows.len() == 0 {
        assert(in_slot_order(windows) =~= windows);
    } else {
        let front = windows.drop_last();
        slot_order_is_sorted(front);
        let sorted = in_slot_order(front);
        let w = windows.last();
        let at = insertion_point(sorted, w, sorted.len() as int);
        lemma_insertion_point(sorted, w, sorted.len() as int);
        let all = in_slot_order(windows);
        assert(all == sorted.insert(at, w));
        assert forall|i: int, j: int| 0 <= i < j < all.len() implies !slot_before(
            slot_of(#[trigger] all[j]),
            slot_of(#[trigger] all[i]),
        ) by {
            let si = if i < at {
                i
            } else {
                i - 1
            };
            let sj = if j < at {
                j
            } else {
                j - 1
            };
            if i == at {
                assert(all[j] == sorted[sj]);
                assert(slot_before(slot_of(w), slot_of(sorted[sj])));
            } else if j == at {
                assert(all[i] == sorted[si]);
                if si < at - 1 {
                    assert(!slot_before(slot_of(sorted[at - 1]), slot_of(sorted[si])));
                }
            } else {
                assert(all[i] == sorted[si]);
                assert(all[j] == sorted[sj]);
            }
        }
        assert(windows =~= front.push(w));
        assert(windows.to_multiset() =~= front.to_multiset().insert(w));
        assert(all.to_multiset() =~= sorted.to_multiset().insert(w)) by {
            broadcast use vstd::multiset::group_multiset_axioms;
            assert(all[at] == w);
            assert(all.remove(at) =~= sorted);
            assert(all.contains(w));
            assert(sorted.to_multiset() =~= all.to_multiset().remove(w));
        }
    }
}

/// The windows that share a saved column with the one before them, of the first
/// `n` in order of their slots.
pub open spec fn followers(sorted: Seq<RestoredWindow>, n: int) -> Seq<u64>
    decreases n,
{
    if n <= 0 {
        seq![]
    } else {
        let rest = followers(sorted, n - 1);
        if n > 1 && sorted[n - 1].column == sorted[n - 2].column {
            rest.push(sorted[n - 1].id)
        } else {
            rest
        }
    }
}

/// The windows that join the column to their left when the columns of a session
/// are put together again, of the first `n` workspaces.
pub open spec fn joiners(workspaces: Seq<Vec<RestoredWindow>>, n: int) -> Seq<u64>
    decreases n,
{
    if n <= 0 {
        seq![]
    } else {
        let sorted = in_slot_order(workspaces[n - 1]@);
        joiners(workspaces, n - 1) + followers(sorted, sorted.len() as int)
    }
}

fn sort_by_slot(windows: &Vec<RestoredWindow>) -> (r: Vec<RestoredWindow>)
    ensures
        r@ == in_slot_order(windows@),
        r@.len() == windows@.len(),
{
    let mut r: Vec<RestoredWindow> = Vec::new();
    let mut i: usize = 0;
    assert(windows@.take(0) =~= seq![]);
    while i < windows.len()
        invariant
            i <= windows@.len(),
            r@ == in_slot_order(windows@.take(i as int)),
            r@.len() == i,
        decreases windows@.len() - i,
    {
        let w = windows[i];
        let n: usize = r.len();
        let mut at: usize = n;
        proof {
            lemma_insertion_point(r@, w, n as int);
        }
        while at > 0 && is_before((w.column, w.tile), (r[at - 1].column, r[at - 1].tile))
            invariant
                n == r@.len(),
                at <= n,
                insertion_point(r@, w, n as int) == insertion_point(r@, w, at as int),
            decreases at,
        {
            at -= 1;
        }
        r.insert(at, w);
        proof {
            let next = windows@.take(i + 1);
            assert(next.drop_last() =~= windows@.take(i as int));
            assert(next.last() == w);
        }
        i += 1;
    }
    assert(windows@.take(i as int) =~= windows@);
    r
}

/// The windows that have to join the column to their left, one after the other,
/// for the columns of a session to be as they were. Each workspace is given with
/// its restored windows; windows of different workspaces never join.
pub fn stack_restored_columns(workspaces: &Vec<Vec<RestoredWindow>>) -> (r: Vec<u64>)
    ensures
        r@ == joiners(workspaces@, workspaces@.len() as int),
{
    let mut r: Vec<u64> = Vec::new();
    let mut k: usize = 0;
    while k < workspaces.len()
        invariant
            k <= workspaces@.len(),
            r@ == joiners(workspaces@, k as int),
        decreases workspaces@.len() - k,
    {
        let ghost before = r@;
        let sorted = sort_by_slot(&workspaces[k]);
        let mut i: usize = 0;
        assert(before + followers(sorted@, 0) =~= before);
        while i < sorted.len()
            invariant
                i <= sorted@.len(),
                r@ == before + followers(sorted@, i as int),
            decreases sorted@.len() - i,
        {
            if i > 0 && sorted[i].column == sorted[i - 1].column {
                r.push(sorted[i].id);
            }
            assert(r@ =~= before + followers(sorted@, i + 1));
            i += 1;
        }
        k += 1;
    }
    r
}

/// Slots are in a strict order, and only the same slot is neither before nor behind another.
pub proof fn slots_are_in_order(a: (usize, usize), b: (usize, usize), c: (usize, usize))
    ensures
        !slot_before(a, a),
        slot_before(a, b) ==> !slot_before(b, a),
        slot_before(a, b) && slot_before(b, c) ==> slot_before(a, c),
        slot_before(a, b) || slot_before(b, a) || a == b,
        a.0 < b.0 ==> slot_before(a, b),
        a.0 == b.0 && a.1 < b.1 ==> slot_before(a, b),
{
}

proof fn lemma_count(slots: Seq<(usize, usize)>, more: (usize, usize), key: (usize, usize), n: int)
    requires
        0 <= n <= slots.len(),
    ensures
        count_before(slots.push(more), key, n) == count_before(slots, key, n),
        0 <= count_before(slots, key, n) <= n,
    decreases n,
{
    if n > 0 {
        lemma_count(slots, more, key, n - 1);
    }
}

/// A slot is counted if it is in an earlier column, or in the same column and an earlier row.
/// The slot itself isn't.
pub proof fn earlier_slots_are_counted(
    slots: Seq<(usize, usize)>,
    more: (usize, usize),
    key: (usize, usize),
)
    ensures
        ({
            let n = slots.len() as int;
            let before = count_before(slots, key, n);
            let after = count_before(slots.push(more), key, n + 1);
            &&& more.0 < key.0 ==> after == before + 1
            &&& more.0 == key.0 && more.1 < key.1 ==> after == before + 1
            &&& more.0 > key.0 ==> after == before
            &&& more.0 == key.0 && more.1 >= key.1 ==> after == before
            &&& 0 <= before <= n
        }),
        count_before(Seq::empty(), key, 0) == 0,
{
    lemma_count(slots, more, key, slots.len() as int);
}

/// Of two slots, the one that is before the other has no more slots before it, and has fewer
/// if it is one of them.
pub proof fn later_slots_go_further_right(
    slots: Seq<(usize, usize)>,
    a: (usize, usize),
    b: (usize, usize),
    n: int,
)
    requires
        0 <= n <= slots.len(),
        slot_before(a, b),
    ensures
        count_before(slots, a, n) <= count_before(slots, b, n),
        (exists|i: int| 0 <= i < n && #[trigger] slots[i] == a) ==> count_before(slots, a, n)
            < count_before(slots, b, n),
    decreases n,
{
    if n > 0 {
        later_slots_go_further_right(slots, a, b, n - 1);
        if exists|i: int| 0 <= i < n && #[trigger] slots[i] == a {
            let i = choose|i: int| 0 <= i < n && #[trigger] slots[i] == a;
            if i < n - 1 {
                assert(slots[i] == a);
            }
        }
    }
}

proof fn lemma_followers(sorted: Seq<RestoredWindow>, n: int, id: u64)
    requires
        0 <= n <= sorted.len(),
    ensures
        followers(sorted, n).contains(id) <==> exists|i: int|
            1 <= i < n && (#[trigger] sorted[i]).id == id && sorted[i].column == sorted[i
                - 1].column,
    decreases n,
{
    if n > 0 {
        lemma_followers(sorted, n - 1, id);
        let rest = followers(sorted, n - 1);
        let all = followers(sorted, n);
        let joins = n > 1 && sorted[n - 1].column == sorted[n - 2].column;
        if joins {
            assert(all == rest.push(sorted[n - 1].id));
            assert(all[rest.len() as int] == sorted[n - 1].id);
            if rest.contains(id) {
                let k = choose|k: int| 0 <= k < rest.len() && rest[k] == id;
                assert(all[k] == id);
            }
            if all.contains(id) {
                let k = choose|k: int| 0 <= k < all.len() && all[k] == id;
                if k < rest.len() {
                    assert(rest[k] == id);
                } else {
                    assert(sorted[n - 1].id == id);
                }
            }
        }
    }
}

/// A window joins the column to its left exactly if the window before it in the order of the
/// slots had the same column. So the first window of a column never does.
pub proof fn windows_of_a_column_join_it(sorted: Seq<RestoredWindow>, id: u64)
    ensures
        followers(sorted, sorted.len() as int).contains(id) <==> exists|i: int|
            1 <= i < sorted.len() && (#[trigger] sorted[i]).id == id && sorted[i].column
                == sorted[i - 1].column,
{
    lemma_followers(sorted, sorted.len() as int, id);
}

/// Windows that are in order of their slots already stay as they are, also those with the same
/// slot.
pub proof fn ordered_windows_stay(windows: Seq<RestoredWindow>)
    requires
        is_in_slot_order(windows),
    ensures
        in_slot_order(windows) == windows,
    decreases windows.len(),
{
    if windows.len() > 0 {
        let front = windows.drop_last();
        assert(is_in_slot_order(front)) by {
            assert forall|i: int, j: int| 0 <= i < j < front.len() implies !slot_before(
                slot_of(#[trigger] front[j]),
                slot_of(#[trigger] front[i]),
            ) by {
                assert(!slot_before(slot_of(windows[j]), slot_of(windows[i])));
            }
        }
        ordered_windows_stay(front);
        let n = front.len() as int;
        if n > 0 {
            assert(!slot_before(slot_of(windows[n]), slot_of(windows[n - 1])));
            assert(front[n - 1] == windows[n - 1]);
        }
        assert(insertion_point(front, windows.last(), n) == n);
        assert(front.insert(n, windows.last()) =~= windows);
    } else {
        assert(in_slot_order(windows) =~= windows);
    }
}

/// The windows of each workspace join columns of their own workspace only: those of another
/// workspace come behind them and change nothing.
pub proof fn workspaces_are_put_together_one_by_one(
    workspaces: Seq<Vec<RestoredWindow>>,
    more: Vec<RestoredWindow>,
)
    ensures
        joiners(workspaces.push(more), workspaces.len() as int + 1) == joiners(
            workspaces,
            workspaces.len() as int,
        ) + followers(in_slot_order(more@), in_slot_order(more@).len() as int),
        joiners(Seq::empty(), 0).len() == 0,
{
    lemma_joiners(workspaces, more, workspaces.len() as int);
}

proof fn lemma_joiners(workspaces: Seq<Vec<RestoredWindow>>, more: Vec<RestoredWindow>, n: int)
    requires
        0 <= n <= workspaces.len(),
    ensures
        joiners(workspaces.push(more), n) == joiners(workspaces, n),
    decreases n,
{
    if n > 0 {
        lemma_joiners(workspaces, more, n - 1);
    }
}

} // verus!
