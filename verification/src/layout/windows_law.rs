//! Rearranging a row of columns keeps the windows that are in it.

use vstd::prelude::*;
use crate::layout::row::{
    column_of, column_of_finds_the_first, column_with, column_without, consume_into_column,
    consume_or_expel_left, consume_or_expel_right, consumed, expel_from_column, expel_tile,
    expelled, focus_left, focus_right, has_target, insert_column, insert_tile, leaving_tile,
    made_coverable, move_column_to, move_to_neighbor_row, moved_to_neighbor_row,
    overlap_neighbor_column, overlap_neighbor_row, overlapped, regrouped_left, regrouped_right,
    remove_column, remove_tile_at, remove_window, set_fullscreen, set_maximized, split_active_row,
    split_active_window, split_off, stack_onto, swap_window, target_position, tile_of,
    tile_of_finds_the_first, with_column, without_active_window, ScrollDirection, SpaceState,
};
use crate::layout::tile::{
    single_tile_column, stack_holds, stack_without, ColumnState, ColumnWidth, Stack, Tile, Window,
};

verus! {

/// Whether two rows hold the same windows.
pub open spec fn same_windows(a: SpaceState, b: SpaceState) -> bool {
    forall|id: u64| #![trigger a.holds(id)] #![trigger b.holds(id)] a.holds(id) == b.holds(id)
}

proof fn lemma_insert_column(s: SpaceState, idx: int, column: ColumnState, activate: bool)
    requires
        0 <= idx <= s.columns.len(),
    ensures
        forall|id: u64|
            #![trigger insert_column(s, idx, column, activate).holds(id)]
            #![trigger s.holds(id)]
            insert_column(s, idx, column, activate).holds(id) == (s.holds(id) || column.holds(
                id,
            )),
{
    let after = insert_column(s, idx, column, activate);
    assert(after.columns == s.columns.insert(idx, column));
    assert forall|id: u64|
        #![trigger after.holds(id)]
        #![trigger s.holds(id)]
        after.holds(id) == (s.holds(id) || column.holds(id)) by {
        if s.holds(id) {
            let i = choose|i: int| 0 <= i < s.columns.len() && (#[trigger] s.columns[i]).holds(id);
            assert(after.columns[if i < idx { i } else { i + 1 }].holds(id));
        }
        if column.holds(id) {
            assert(after.columns[idx].holds(id));
        }
        if after.holds(id) {
            let i = choose|i: int|
                0 <= i < after.columns.len() && (#[trigger] after.columns[i]).holds(id);
            if i < idx {
                assert(s.columns[i].holds(id));
            } else if i > idx {
                assert(s.columns[i - 1].holds(id));
            }
        }
    }
}

proof fn lemma_remove_column(s: SpaceState, idx: int)
    requires
        0 <= idx < s.columns.len(),
    ensures
        forall|id: u64|
            #![trigger remove_column(s, idx).holds(id)]
            #![trigger s.holds(id)]
            (remove_column(s, idx).holds(id) || s.columns[idx].holds(id)) == s.holds(id),
{
    let after = remove_column(s, idx);
    assert(after.columns == s.columns.remove(idx));
    assert forall|id: u64|
        #![trigger after.holds(id)]
        #![trigger s.holds(id)]
        (after.holds(id) || s.columns[idx].holds(id)) == s.holds(id) by {
        if after.holds(id) {
            let i = choose|i: int|
                0 <= i < after.columns.len() && (#[trigger] after.columns[i]).holds(id);
            assert(s.columns[if i < idx { i } else { i + 1 }].holds(id));
        }
        if s.holds(id) {
            let i = choose|i: int| 0 <= i < s.columns.len() && (#[trigger] s.columns[i]).holds(id);
            if i < idx {
                assert(after.columns[i].holds(id));
            } else if i > idx {
                assert(after.columns[i - 1].holds(id));
            }
        }
    }
}

/// Replacing one column changes which windows there are by that column alone.
proof fn lemma_with_column(s: SpaceState, c: int, column: ColumnState, extra: spec_fn(u64) -> bool)
    requires
        0 <= c < s.columns.len(),
        forall|id: u64| #[trigger] s.columns[c].holds(id) == (column.holds(id) || extra(id)),
    ensures
        forall|id: u64|
            #![trigger s.holds(id)]
            #![trigger with_column(s, c, column).holds(id)]
            (with_column(s, c, column).holds(id) || extra(id)) == (s.holds(id) || extra(id)),
        forall|id: u64| extra(id) ==> #[trigger] s.holds(id),
{
    let after = with_column(s, c, column);
    assert forall|id: u64|
        #![trigger s.holds(id)]
        #![trigger after.holds(id)]
        (after.holds(id) || extra(id)) == (s.holds(id) || extra(id)) by {
        if after.holds(id) {
            let i = choose|i: int|
                0 <= i < after.columns.len() && (#[trigger] after.columns[i]).holds(id);
            if i == c {
                assert(s.columns[c].holds(id) == (column.holds(id) || extra(id)));
            }
            assert(s.columns[i].holds(id));
        }
        if s.holds(id) && !extra(id) {
            let i = choose|i: int| 0 <= i < s.columns.len() && (#[trigger] s.columns[i]).holds(id);
            assert(s.columns[c].holds(id) == (column.holds(id) || extra(id)));
            assert(after.columns[i].holds(id));
        }
    }
    assert forall|id: u64| extra(id) implies #[trigger] s.holds(id) by {
        assert(s.columns[c].holds(id) == (column.holds(id) || extra(id)));
    }
}

proof fn lemma_column_without(c: ColumnState, t: int)
    requires
        0 <= t < c.tiles.len(),
    ensures
        forall|id: u64| #[trigger]
            c.holds(id) == (column_without(c, t).holds(id) || c.tiles[t].holds(id)),
{
    let after = column_without(c, t);
    assert forall|id: u64| #[trigger]
        c.holds(id) == (after.holds(id) || c.tiles[t].holds(id)) by {
        if c.holds(id) {
            let i = choose|i: int| 0 <= i < c.tiles.len() && (#[trigger] c.tiles[i]).holds(id);
            if i < t {
                assert(after.tiles[i].holds(id));
            } else if i > t {
                assert(after.tiles[i - 1].holds(id));
            }
        }
        if after.holds(id) {
            let i = choose|i: int|
                0 <= i < after.tiles.len() && (#[trigger] after.tiles[i]).holds(id);
            assert(c.tiles[if i < t { i } else { i + 1 }].holds(id));
        }
        if c.tiles[t].holds(id) {
            assert(c.tiles[t].holds(id));
        }
    }
}

proof fn lemma_column_with(c: ColumnState, t: int, tile: Tile, activate: bool)
    requires
        0 <= t <= c.tiles.len(),
    ensures
        forall|id: u64| #[trigger]
            column_with(c, t, tile, activate).holds(id) == (c.holds(id) || tile.holds(id)),
{
    let after = column_with(c, t, tile, activate);
    assert forall|id: u64| #[trigger] after.holds(id) == (c.holds(id) || tile.holds(id)) by {
        if c.holds(id) {
            let i = choose|i: int| 0 <= i < c.tiles.len() && (#[trigger] c.tiles[i]).holds(id);
            assert(after.tiles[if i < t { i } else { i + 1 }].holds(id));
        }
        if tile.holds(id) {
            assert(after.tiles[t].holds(id));
        }
        if after.holds(id) {
            let i = choose|i: int|
                0 <= i < after.tiles.len() && (#[trigger] after.tiles[i]).holds(id);
            if i < t {
                assert(c.tiles[i].holds(id));
            } else if i > t {
                assert(c.tiles[i - 1].holds(id));
            }
        }
    }
}

proof fn lemma_single(tile: Tile, width: ColumnWidth, full_width: bool)
    ensures
        forall|id: u64| #[trigger]
            single_tile_column(tile, width, full_width).holds(id) == tile.holds(id),
{
    let column = single_tile_column(tile, width, full_width);
    assert(column.tiles[0] == tile);
    assert forall|id: u64| #[trigger] column.holds(id) == tile.holds(id) by {
        if tile.holds(id) {
            assert(column.tiles[0].holds(id));
        }
    }
}

proof fn lemma_remove_tile_at(s: SpaceState, c: int, t: int)
    requires
        0 <= c < s.columns.len(),
        0 <= t < s.columns[c].tiles.len(),
    ensures
        forall|id: u64|
            #![trigger remove_tile_at(s, c, t).holds(id)]
            #![trigger s.holds(id)]
            (remove_tile_at(s, c, t).holds(id) || s.columns[c].tiles[t].holds(id)) == s.holds(id),
{
    let tile = s.columns[c].tiles[t];
    if s.columns[c].tiles.len() == 1 {
        lemma_remove_column(s, c);
        assert forall|id: u64| s.columns[c].holds(id) == #[trigger] tile.holds(id) by {
            if tile.holds(id) {
                assert(s.columns[c].tiles[t].holds(id));
            }
        }
        assert forall|id: u64|
            #![trigger remove_tile_at(s, c, t).holds(id)]
            #![trigger s.holds(id)]
            (remove_tile_at(s, c, t).holds(id) || tile.holds(id)) == s.holds(id) by {
            assert(s.columns[c].holds(id) == tile.holds(id));
            assert(remove_column(s, c).holds(id) == remove_tile_at(s, c, t).holds(id));
        }
    } else {
        lemma_column_without(s.columns[c], t);
        let column = column_without(s.columns[c], t);
        lemma_with_column(s, c, column, |id: u64| tile.holds(id));
        assert(remove_tile_at(s, c, t).columns == with_column(s, c, column).columns);
        assert forall|id: u64|
            #![trigger remove_tile_at(s, c, t).holds(id)]
            #![trigger s.holds(id)]
            (remove_tile_at(s, c, t).holds(id) || tile.holds(id)) == s.holds(id) by {
            assert(remove_tile_at(s, c, t).holds(id) == with_column(s, c, column).holds(id));
        }
    }
}

proof fn lemma_insert_tile(s: SpaceState, c: int, t: int, tile: Tile, activate: bool)
    requires
        0 <= c < s.columns.len(),
        0 <= t <= s.columns[c].tiles.len(),
    ensures
        forall|id: u64|
            #![trigger insert_tile(s, c, t, tile, activate).holds(id)]
            #![trigger s.holds(id)]
            insert_tile(s, c, t, tile, activate).holds(id) == (s.holds(id) || tile.holds(id)),
{
    lemma_column_with(s.columns[c], t, tile, activate);
    let after = insert_tile(s, c, t, tile, activate);
    let column = column_with(s.columns[c], t, tile, activate);
    assert(after.columns == s.columns.update(c, column));
    assert forall|id: u64|
        #![trigger after.holds(id)]
        #![trigger s.holds(id)]
        after.holds(id) == (s.holds(id) || tile.holds(id)) by {
        assert(column.holds(id) == (s.columns[c].holds(id) || tile.holds(id)));
        if after.holds(id) {
            let i = choose|i: int|
                0 <= i < after.columns.len() && (#[trigger] after.columns[i]).holds(id);
            if i == c && !tile.holds(id) {
                assert(s.columns[c].holds(id));
            } else if i != c {
                assert(s.columns[i].holds(id));
            }
        }
        if s.holds(id) {
            let i = choose|i: int| 0 <= i < s.columns.len() && (#[trigger] s.columns[i]).holds(id);
            assert(after.columns[i].holds(id));
        }
        if tile.holds(id) {
            assert(after.columns[c].holds(id));
        }
    }
}

/// Columns that differ in their widths at most hold the same windows.
proof fn lemma_widths(a: SpaceState, b: SpaceState)
    requires
        a.columns.len() == b.columns.len(),
        forall|i: int|
            0 <= i < a.columns.len() ==> (#[trigger] a.columns[i]).tiles == b.columns[i].tiles,
    ensures
        same_windows(a, b),
{
    assert forall|id: u64|
        #![trigger a.holds(id)]
        #![trigger b.holds(id)]
        a.holds(id) == b.holds(id) by {
        if a.holds(id) {
            let i = choose|i: int| 0 <= i < a.columns.len() && (#[trigger] a.columns[i]).holds(id);
            let t = choose|t: int|
                0 <= t < a.columns[i].tiles.len() && (#[trigger] a.columns[i].tiles[t]).holds(id);
            assert(b.columns[i].tiles[t].holds(id));
            assert(b.columns[i].holds(id));
        }
        if b.holds(id) {
            let i = choose|i: int| 0 <= i < b.columns.len() && (#[trigger] b.columns[i]).holds(id);
            assert(a.columns[i].tiles == b.columns[i].tiles);
            let t = choose|t: int|
                0 <= t < b.columns[i].tiles.len() && (#[trigger] b.columns[i].tiles[t]).holds(id);
            assert(a.columns[i].tiles[t].holds(id));
            assert(a.columns[i].holds(id));
        }
    }
}

/// The visible windows of a column, top to bottom.
pub open spec fn shown_ids(c: ColumnState) -> Seq<u64> {
    Seq::new(c.tiles.len(), |t: int| c.tiles[t].window.id)
}

/// Adding a column adds its windows and loses none.
pub proof fn insert_column_adds_its_windows(
    s: SpaceState,
    idx: int,
    column: ColumnState,
    activate: bool,
    id: u64,
)
    requires
        0 <= idx <= s.columns.len(),
    ensures
        insert_column(s, idx, column, activate).holds(id) == (s.holds(id) || column.holds(id)),
{
    lemma_insert_column(s, idx, column, activate);
}

/// Adding a column leaves every column that was there as it was, its width
/// among the rest, and asks for nothing.
pub proof fn insert_column_keeps_the_others(
    s: SpaceState,
    idx: int,
    column: ColumnState,
    activate: bool,
    i: int,
)
    requires
        0 <= idx <= s.columns.len(),
        0 <= i < s.columns.len(),
    ensures
        insert_column(s, idx, column, activate).columns[if i < idx {
            i
        } else {
            i + 1
        }] == s.columns[i],
        insert_column(s, idx, column, activate).requests == s.requests,
{
}

/// A column that is added without the focus and removed again leaves the
/// columns and the focus as they were.
pub proof fn remove_undoes_insert(s: SpaceState, idx: int, column: ColumnState)
    requires
        s.wf(),
        0 <= idx <= s.columns.len(),
    ensures
        remove_column(insert_column(s, idx, column, false), idx).columns == s.columns,
        remove_column(insert_column(s, idx, column, false), idx).active == s.active,
{
    let after = remove_column(insert_column(s, idx, column, false), idx);
    assert(s.columns.insert(idx, column).remove(idx) =~= s.columns);
}

/// Removing a column takes exactly its windows away.
pub proof fn remove_column_takes_its_windows(s: SpaceState, idx: int, id: u64)
    requires
        0 <= idx < s.columns.len(),
    ensures
        s.holds(id) == (remove_column(s, idx).holds(id) || s.columns[idx].holds(id)),
{
    lemma_remove_column(s, idx);
}

proof fn lemma_stack_without(stack: Option<Box<Stack>>, id: u64, other: u64)
    requires
        stack_holds(stack, id),
    ensures
        other != id ==> stack_holds(stack_without(stack, id), other) == stack_holds(stack, other),
    decreases stack,
{
    match stack {
        None => {},
        Some(s) => {
            if s.window.id != id {
                lemma_stack_without(s.below, id, other);
                let rest = stack_without(s.below, id);
                assert(stack_without(stack, id) == Some(
                    Box::new(Stack { window: s.window, below: rest }),
                ));
            }
        },
    }
}

/// Taking a window out of a tile leaves the other windows of the tile there.
pub proof fn tile_without_keeps_the_others(tile: Tile, id: u64, other: u64)
    requires
        tile.holds(id),
        other != id,
    ensures
        match tile.without(id) {
            Some(rest) => rest.holds(other) == tile.holds(other),
            None => !tile.holds(other),
        },
{
    if tile.window.id != id {
        lemma_stack_without(tile.below, id, other);
    }
}

proof fn lemma_update_tile(c: ColumnState, t: int, rest: Tile, id: u64)
    requires
        0 <= t < c.tiles.len(),
        forall|other: u64| other != id ==> #[trigger] rest.holds(other) == c.tiles[t].holds(other),
    ensures
        forall|other: u64|
            other != id ==> #[trigger] (ColumnState {
                tiles: c.tiles.update(t, rest),
                ..c
            }).holds(other) == c.holds(other),
{
    let after = ColumnState { tiles: c.tiles.update(t, rest), ..c };
    assert forall|other: u64| other != id implies #[trigger] after.holds(other) == c.holds(
        other,
    ) by {
        assert(rest.holds(other) == c.tiles[t].holds(other));
        if after.holds(other) {
            let i = choose|i: int|
                0 <= i < after.tiles.len() && (#[trigger] after.tiles[i]).holds(other);
            assert(c.tiles[i].holds(other));
        }
        if c.holds(other) {
            let i = choose|i: int| 0 <= i < c.tiles.len() && (#[trigger] c.tiles[i]).holds(other);
            assert(after.tiles[i].holds(other));
        }
    }
}

/// Removing a window leaves every other window where it can be found.
pub proof fn remove_window_keeps_the_others(s: SpaceState, id: u64, other: u64)
    requires
        s.wf(),
        s.holds(id),
        other != id,
    ensures
        remove_window(s, id).holds(other) == s.holds(other),
{
    column_of_finds_the_first(s, id);
    let c = column_of(s.columns, id);
    let column = s.columns[c];
    tile_of_finds_the_first(column, id);
    let t = tile_of(column.tiles, id);
    let tile = column.tiles[t];
    tile_without_keeps_the_others(tile, id, other);
    match tile.without(id) {
        None => {
            lemma_remove_tile_at(s, c, t);
            assert(s.holds(other) == (remove_tile_at(s, c, t).holds(other) || tile.holds(other)));
        },
        Some(rest) => {
            let after = ColumnState { tiles: column.tiles.update(t, rest), ..column };
            assert(remove_window(s, id).columns == s.columns.update(c, after));
            assert forall|o: u64| o != id implies #[trigger] rest.holds(o) == tile.holds(o) by {
                tile_without_keeps_the_others(tile, id, o);
            }
            lemma_update_tile(column, t, rest, id);
            let gone = remove_window(s, id);
            assert(after.holds(other) == column.holds(other));
            if gone.holds(other) {
                let i = choose|i: int|
                    0 <= i < gone.columns.len() && (#[trigger] gone.columns[i]).holds(other);
                assert(s.columns[i].holds(other));
            }
            if s.holds(other) {
                let i = choose|i: int|
                    0 <= i < s.columns.len() && (#[trigger] s.columns[i]).holds(other);
                assert(gone.columns[i].holds(other));
            }
        },
    }
}

/// Whether a window occurs at most once among the windows of a stack.
pub open spec fn stack_at_most_once(stack: Option<Box<Stack>>, id: u64) -> bool
    decreases stack,
{
    match stack {
        None => true,
        Some(s) => if s.window.id == id {
            !stack_holds(s.below, id)
        } else {
            stack_at_most_once(s.below, id)
        },
    }
}

/// Whether a window occurs at most once among the windows of a tile.
pub open spec fn tile_at_most_once(tile: Tile, id: u64) -> bool {
    if tile.window.id == id {
        !stack_holds(tile.below, id)
    } else {
        stack_at_most_once(tile.below, id)
    }
}

/// Whether a window occurs at most once among the windows of a row.
pub open spec fn row_at_most_once(s: SpaceState, id: u64) -> bool {
    &&& forall|c: int, t: int, d: int, u: int|
        0 <= c < s.columns.len() && 0 <= t < s.columns[c].tiles.len() && 0 <= d < s.columns.len()
            && 0 <= u < s.columns[d].tiles.len() && (#[trigger] s.columns[c].tiles[t]).holds(id)
            && (#[trigger] s.columns[d].tiles[u]).holds(id) ==> c == d && t == u
    &&& forall|c: int, t: int|
        0 <= c < s.columns.len() && 0 <= t < s.columns[c].tiles.len() ==> tile_at_most_once(
            #[trigger] s.columns[c].tiles[t],
            id,
        )
}

proof fn lemma_stack_is_without(stack: Option<Box<Stack>>, id: u64)
    requires
        stack_at_most_once(stack, id),
    ensures
        !stack_holds(stack_without(stack, id), id),
    decreases stack,
{
    if let Some(s) = stack {
        if s.window.id != id {
            lemma_stack_is_without(s.below, id);
        }
    }
}

/// A window that is taken out of a tile is not there any more, if it was there
/// once.
pub proof fn tile_is_without(tile: Tile, id: u64)
    requires
        tile.holds(id),
        tile_at_most_once(tile, id),
    ensures
        tile.without(id) matches Some(rest) ==> !rest.holds(id),
{
    if tile.window.id != id {
        lemma_stack_is_without(tile.below, id);
    }
}

/// A window that is removed is not in the row any more, if it was there once.
pub proof fn removed_window_is_gone(s: SpaceState, id: u64)
    requires
        s.wf(),
        s.holds(id),
        row_at_most_once(s, id),
    ensures
        !remove_window(s, id).holds(id),
{
    column_of_finds_the_first(s, id);
    let c = column_of(s.columns, id);
    let column = s.columns[c];
    tile_of_finds_the_first(column, id);
    let t = tile_of(column.tiles, id);
    tile_is_without(column.tiles[t], id);
    let after = remove_window(s, id);
    if after.holds(id) {
        let d = choose|d: int| 0 <= d < after.columns.len() && (#[trigger] after.columns[d]).holds(
            id,
        );
        let u = choose|u: int|
            0 <= u < after.columns[d].tiles.len() && (#[trigger] after.columns[d].tiles[u]).holds(
                id,
            );
        match column.tiles[t].without(id) {
            None => {
                if column.tiles.len() == 1 {
                    assert(after.columns == s.columns.remove(c));
                    let e = if d < c {
                        d
                    } else {
                        d + 1
                    };
                    assert(after.columns[d] == s.columns[e]);
                    assert(s.columns[e].tiles[u].holds(id));
                } else if d == c {
                    assert(after.columns[c].tiles == column.tiles.remove(t));
                    let v = if u < t {
                        u
                    } else {
                        u + 1
                    };
                    assert(column.tiles[v] == after.columns[c].tiles[u]);
                    assert(s.columns[c].tiles[v].holds(id));
                } else {
                    assert(after.columns[d] == s.columns[d]);
                    assert(s.columns[d].tiles[u].holds(id));
                }
            },
            Some(rest) => {
                if d == c {
                    assert(after.columns[c].tiles == column.tiles.update(t, rest));
                    if u != t {
                        assert(s.columns[c].tiles[u].holds(id));
                    }
                } else {
                    assert(after.columns[d] == s.columns[d]);
                    assert(s.columns[d].tiles[u].holds(id));
                }
            },
        }
        assert(s.columns[c].tiles[t].holds(id));
        assert(false);
    }
}

proof fn lemma_expel_tile(s: SpaceState, c: int, t: int, to: int, activate: bool)
    requires
        0 <= c < s.columns.len(),
        0 <= t < s.columns[c].tiles.len(),
        s.columns[c].tiles.len() > 1,
        0 <= to <= s.columns.len(),
    ensures
        same_windows(s, expel_tile(s, c, t, to, activate)),
{
    let tile = leaving_tile(s.columns[c], t);
    let rest = remove_tile_at(s, c, t);
    let column = single_tile_column(tile, s.columns[c].width, s.columns[c].full_width);
    lemma_remove_tile_at(s, c, t);
    lemma_single(tile, s.columns[c].width, s.columns[c].full_width);
    lemma_insert_column(rest, to, column, activate);
    assert forall|id: u64|
        #![trigger s.holds(id)]
        #![trigger expel_tile(s, c, t, to, activate).holds(id)]
        s.holds(id) == expel_tile(s, c, t, to, activate).holds(id) by {
        assert(column.holds(id) == tile.holds(id));
        assert(tile.holds(id) == s.columns[c].tiles[t].holds(id));
        assert(rest.holds(id) || !rest.holds(id));
    }
}

/// Moves a tile to the bottom of another column.
proof fn lemma_rejoin(s: SpaceState, c: int, t: int, to: int, activate: bool)
    requires
        0 <= c < s.columns.len(),
        0 <= t < s.columns[c].tiles.len(),
        0 <= to < remove_tile_at(s, c, t).columns.len(),
    ensures
        same_windows(
            s,
            insert_tile(
                remove_tile_at(s, c, t),
                to,
                remove_tile_at(s, c, t).columns[to].tiles.len() as int,
                leaving_tile(s.columns[c], t),
                activate,
            ),
        ),
{
    let tile = leaving_tile(s.columns[c], t);
    let rest = remove_tile_at(s, c, t);
    let at = rest.columns[to].tiles.len() as int;
    lemma_remove_tile_at(s, c, t);
    lemma_insert_tile(rest, to, at, tile, activate);
    assert forall|id: u64|
        #![trigger s.holds(id)]
        #![trigger insert_tile(rest, to, at, tile, activate).holds(id)]
        s.holds(id) == insert_tile(rest, to, at, tile, activate).holds(id) by {
        assert(tile.holds(id) == s.columns[c].tiles[t].holds(id));
        assert(rest.holds(id) || !rest.holds(id));
    }
}

proof fn lemma_regrouped_left_keeps_windows(s: SpaceState, window: Option<u64>)
    requires
        s.wf(),
        window matches Some(id) ==> s.holds(id),
    ensures
        same_windows(s, regrouped_left(s, window)),
{
    if has_target(s, window) {
        lemma_target(s, window);
        let (c, t) = target_position(s, window);
        let column = s.columns[c];
        let was_active = s.active == c && column.active == t;
        if column.tiles.len() > 1 {
            lemma_expel_tile(s, c, t, c, was_active);
            let moved = expel_tile(s, c, t, c, was_active);
            let after = regrouped_left(s, window);
            assert(after.columns == moved.columns);
            assert forall|id: u64|
                #![trigger s.holds(id)]
                #![trigger after.holds(id)]
                s.holds(id) == after.holds(id) by {
                assert(moved.holds(id) == after.holds(id));
            }
        } else if c > 0 {
            assert(column.wf());
            lemma_rejoin(s, c, t, c - 1, was_active);
        }
    }
}

/// Consuming or expelling a window to the left keeps all windows.
pub proof fn consume_or_expel_left_keeps_windows(s: SpaceState, window: Option<u64>)
    requires
        s.wf(),
        window matches Some(id) ==> s.holds(id),
    ensures
        same_windows(s, consume_or_expel_left(s, window)),
{
    lemma_regrouped_left_keeps_windows(s, window);
    if has_target(s, window) {
        lemma_target(s, window);
        let (c, t) = target_position(s, window);
        assert(s.columns[c].wf());
    }
    lemma_widths(regrouped_left(s, window), consume_or_expel_left(s, window));
}

proof fn lemma_regrouped_right_keeps_windows(s: SpaceState, window: Option<u64>)
    requires
        s.wf(),
        window matches Some(id) ==> s.holds(id),
    ensures
        same_windows(s, regrouped_right(s, window)),
{
    if has_target(s, window) {
        lemma_target(s, window);
        let (c, t) = target_position(s, window);
        let column = s.columns[c];
        let was_active = s.active == c && column.active == t;
        if column.tiles.len() > 1 {
            lemma_expel_tile(s, c, t, c + 1, was_active);
        } else if c + 1 < s.columns.len() {
            assert(column.wf());
            lemma_rejoin(s, c, t, c, was_active);
        }
    }
}

/// Consuming or expelling a window to the right keeps all windows.
pub proof fn consume_or_expel_right_keeps_windows(s: SpaceState, window: Option<u64>)
    requires
        s.wf(),
        window matches Some(id) ==> s.holds(id),
    ensures
        same_windows(s, consume_or_expel_right(s, window)),
{
    lemma_regrouped_right_keeps_windows(s, window);
    if has_target(s, window) {
        lemma_target(s, window);
        let (c, t) = target_position(s, window);
        assert(s.columns[c].wf());
    }
    lemma_widths(regrouped_right(s, window), consume_or_expel_right(s, window));
}

proof fn lemma_target(s: SpaceState, window: Option<u64>)
    requires
        s.wf(),
        has_target(s, window),
    ensures
        0 <= target_position(s, window).0 < s.columns.len(),
        0 <= target_position(s, window).1 < s.columns[target_position(s, window).0].tiles.len(),
{
    match window {
        Some(id) => {
            column_of_finds_the_first(s, id);
            tile_of_finds_the_first(s.columns[column_of(s.columns, id)], id);
        },
        None => {
            assert(s.columns[s.active].wf());
        },
    }
}

proof fn lemma_consumed_keeps_windows(s: SpaceState)
    requires
        s.wf(),
    ensures
        same_windows(s, consumed(s)),
{
    if s.active + 1 < s.columns.len() {
        assert(s.columns[s.active + 1].wf());
        lemma_rejoin(s, s.active + 1, 0, s.active, false);
    }
}

/// Consuming a window into the active column keeps all windows.
pub proof fn consume_into_column_keeps_windows(s: SpaceState)
    requires
        s.wf(),
    ensures
        same_windows(s, consume_into_column(s)),
{
    lemma_consumed_keeps_windows(s);
    lemma_widths(consumed(s), consume_into_column(s));
}

proof fn lemma_expelled_keeps_windows(s: SpaceState)
    requires
        s.wf(),
    ensures
        same_windows(s, expelled(s)),
{
    if s.columns.len() > 0 && s.active_column().tiles.len() > 1 {
        lemma_expel_tile(s, s.active, s.active_column().tiles.len() - 1, s.active + 1, false);
    } else if s.columns.len() > 0 {
        assert(s.active_column().wf());
    }
}

/// Expelling a window from the active column keeps all windows.
pub proof fn expel_from_column_keeps_windows(s: SpaceState)
    requires
        s.wf(),
    ensures
        same_windows(s, expel_from_column(s)),
{
    lemma_expelled_keeps_windows(s);
    lemma_widths(expelled(s), expel_from_column(s));
}

proof fn lemma_moved_to_neighbor_row_keeps_windows(s: SpaceState, to_left: bool)
    requires
        s.wf(),
    ensures
        same_windows(s, moved_to_neighbor_row(s, to_left).0),
{
    let to = if to_left {
        s.active - 1
    } else {
        s.active + 1
    };
    if 0 <= to < s.columns.len() {
        let c = s.active;
        assert(s.columns[c].wf());
        let target = if !to_left && s.columns[c].tiles.len() == 1 {
            c
        } else {
            to
        };
        lemma_rejoin(s, c, s.active_column().active, target, true);
    }
}

/// Moving the active tile to the neighbouring column keeps all windows.
pub proof fn move_to_neighbor_row_keeps_windows(s: SpaceState, to_left: bool)
    requires
        s.wf(),
    ensures
        same_windows(s, move_to_neighbor_row(s, to_left).0),
{
    lemma_moved_to_neighbor_row_keeps_windows(s, to_left);
    lemma_widths(moved_to_neighbor_row(s, to_left).0, move_to_neighbor_row(s, to_left).0);
}

/// Moving the active column keeps all windows.
pub proof fn move_column_to_keeps_windows(s: SpaceState, idx: int)
    requires
        s.wf(),
        0 <= idx,
        s.columns.len() > 0 ==> idx < s.columns.len(),
    ensures
        same_windows(s, move_column_to(s, idx)),
{
    if s.columns.len() > 0 && s.active != idx {
        let after = move_column_to(s, idx);
        let from = s.active;
        let rest = s.columns.remove(from);
        assert(after.columns == rest.insert(idx, s.columns[from]));
        assert forall|id: u64|
            #![trigger s.holds(id)]
            #![trigger after.holds(id)]
            s.holds(id) == after.holds(id) by {
            if s.holds(id) {
                let i = choose|i: int|
                    0 <= i < s.columns.len() && (#[trigger] s.columns[i]).holds(id);
                if i == from {
                    assert(after.columns[idx].holds(id));
                } else {
                    let k = if i < from {
                        i
                    } else {
                        i - 1
                    };
                    assert(rest[k] == s.columns[i]);
                    assert(after.columns[if k < idx { k } else { k + 1 }].holds(id));
                }
            }
            if after.holds(id) {
                let i = choose|i: int|
                    0 <= i < after.columns.len() && (#[trigger] after.columns[i]).holds(id);
                if i == idx {
                    assert(s.columns[from].holds(id));
                } else {
                    let k = if i < idx {
                        i
                    } else {
                        i - 1
                    };
                    assert(rest[k] == after.columns[i]);
                    assert(s.columns[if k < from { k } else { k + 1 }].holds(id));
                }
            }
        }
    }
}

/// Swapping windows with the neighbouring column keeps all windows.
pub proof fn swap_window_keeps_windows(s: SpaceState, direction: ScrollDirection)
    requires
        s.wf(),
    ensures
        same_windows(s, swap_window(s, direction)),
{
    let to = crate::layout::row::neighbor_idx(s, direction);
    if 0 <= to < s.columns.len() {
        let from = s.active;
        let a = s.columns[from];
        let b = s.columns[to];
        assert(a.wf());
        assert(b.wf());
        if a.tiles.len() == 1 && b.tiles.len() == 1 {
            move_column_to_keeps_windows(s, to);
        } else {
            let after = swap_window(s, direction);
            let ca = ColumnState { tiles: a.tiles.update(a.active, b.tiles[b.active]), ..a };
            let cb = ColumnState { tiles: b.tiles.update(b.active, a.tiles[a.active]), ..b };
            assert(after.columns == s.columns.update(from, ca).update(to, cb));
            assert forall|id: u64|
                #![trigger s.holds(id)]
                #![trigger after.holds(id)]
                s.holds(id) == after.holds(id) by {
                if s.holds(id) {
                    let i = choose|i: int|
                        0 <= i < s.columns.len() && (#[trigger] s.columns[i]).holds(id);
                    let k = choose|k: int|
                        0 <= k < s.columns[i].tiles.len() && (
                        #[trigger] s.columns[i].tiles[k]).holds(id);
                    if i == from {
                        if k == a.active {
                            assert(cb.tiles[b.active].holds(id));
                            assert(after.columns[to].holds(id));
                        } else {
                            assert(ca.tiles[k].holds(id));
                            assert(after.columns[from].holds(id));
                        }
                    } else if i == to {
                        if k == b.active {
                            assert(ca.tiles[a.active].holds(id));
                            assert(after.columns[from].holds(id));
                        } else {
                            assert(cb.tiles[k].holds(id));
                            assert(after.columns[to].holds(id));
                        }
                    } else {
                        assert(after.columns[i].holds(id));
                    }
                }
                if after.holds(id) {
                    let i = choose|i: int|
                        0 <= i < after.columns.len() && (#[trigger] after.columns[i]).holds(id);
                    let k = choose|k: int|
                        0 <= k < after.columns[i].tiles.len() && (
                        #[trigger] after.columns[i].tiles[k]).holds(id);
                    if i == from {
                        if k == a.active {
                            assert(b.tiles[b.active].holds(id));
                            assert(s.columns[to].holds(id));
                        } else {
                            assert(a.tiles[k].holds(id));
                            assert(s.columns[from].holds(id));
                        }
                    } else if i == to {
                        if k == b.active {
                            assert(a.tiles[a.active].holds(id));
                            assert(s.columns[from].holds(id));
                        } else {
                            assert(b.tiles[k].holds(id));
                            assert(s.columns[to].holds(id));
                        }
                    } else {
                        assert(s.columns[i].holds(id));
                    }
                }
            }
        }
    }
}

/// Swapping with a neighbour and back gives the columns and the focus as they
/// were.
pub proof fn swap_window_undoes_itself(s: SpaceState)
    requires
        s.wf(),
        s.active + 1 < s.columns.len(),
    ensures
        ({
            let there = swap_window(s, ScrollDirection::Right);
            let back = swap_window(there, ScrollDirection::Left);
            back.columns == s.columns && back.active == s.active
        }),
{
    let from = s.active;
    let to = s.active + 1;
    let a = s.columns[from];
    let b = s.columns[to];
    assert(a.wf());
    assert(b.wf());
    let there = swap_window(s, ScrollDirection::Right);
    let back = swap_window(there, ScrollDirection::Left);
    if a.tiles.len() == 1 && b.tiles.len() == 1 {
        assert(there.columns == s.columns.remove(from).insert(to, a));
        assert(there.columns[from] == b);
        assert(there.columns[to] == a);
        assert(back.columns =~= s.columns);
    } else {
        let ca = there.columns[from];
        let cb = there.columns[to];
        assert(ca.tiles.update(a.active, cb.tiles[b.active]) =~= a.tiles);
        assert(cb.tiles.update(b.active, ca.tiles[a.active]) =~= b.tiles);
        assert(back.columns =~= s.columns);
    }
}

/// Asking for a window to be fullscreen keeps all windows.
pub proof fn set_fullscreen_keeps_windows(s: SpaceState, id: u64, on: bool)
    requires
        s.wf(),
        s.holds(id),
    ensures
        same_windows(s, set_fullscreen(s, id, on)),
{
    lemma_made_coverable(s, id, on);
    let c = crate::layout::row::coverable_idx(s, id, on);
    let ready = made_coverable(s, id, on);
    let column = ColumnState { fullscreen: on, ..ready.columns[c] };
    lemma_same_tiles(ready, c, column);
}

/// Asking for a window to be maximized keeps all windows.
pub proof fn set_maximized_keeps_windows(s: SpaceState, id: u64, on: bool)
    requires
        s.wf(),
        s.holds(id),
    ensures
        same_windows(s, set_maximized(s, id, on)),
{
    lemma_made_coverable(s, id, on);
    let c = crate::layout::row::coverable_idx(s, id, on);
    let ready = made_coverable(s, id, on);
    let column = ColumnState { maximized: on, ..ready.columns[c] };
    lemma_same_tiles(ready, c, column);
}

/// Replacing a column by one with the same tiles keeps all windows.
proof fn lemma_same_tiles(s: SpaceState, c: int, column: ColumnState)
    requires
        0 <= c < s.columns.len(),
        column.tiles == s.columns[c].tiles,
    ensures
        same_windows(s, with_column(s, c, column)),
{
    let after = with_column(s, c, column);
    assert forall|id: u64|
        #![trigger s.holds(id)]
        #![trigger after.holds(id)]
        s.holds(id) == after.holds(id) by {
        assert(column.holds(id) == s.columns[c].holds(id));
        if s.holds(id) {
            let i = choose|i: int| 0 <= i < s.columns.len() && (#[trigger] s.columns[i]).holds(id);
            assert(after.columns[i].holds(id));
        }
        if after.holds(id) {
            let i = choose|i: int|
                0 <= i < after.columns.len() && (#[trigger] after.columns[i]).holds(id);
            assert(s.columns[i].holds(id));
        }
    }
}

proof fn lemma_made_coverable(s: SpaceState, id: u64, cover: bool)
    requires
        s.wf(),
        s.holds(id),
    ensures
        same_windows(s, made_coverable(s, id, cover)),
        0 <= crate::layout::row::coverable_idx(s, id, cover) < made_coverable(
            s,
            id,
            cover,
        ).columns.len(),
{
    column_of_finds_the_first(s, id);
    let c = column_of(s.columns, id);
    tile_of_finds_the_first(s.columns[c], id);
    assert(s.columns[c].wf());
    let stopped = SpaceState {
        resize: crate::layout::row::resize_without_column(s, s.columns[c]),
        ..s
    };
    assert forall|w: u64| #![trigger s.holds(w)] #![trigger stopped.holds(w)] s.holds(w)
        == stopped.holds(w) by {}
    assert(stopped.wf());
    assert(stopped.holds(id));
    if cover && crate::layout::row::must_leave_to_cover(s.columns[c]) {
        consume_or_expel_right_keeps_windows(stopped, Some(id));
        let after = made_coverable(s, id, cover);
        assert forall|w: u64| #![trigger s.holds(w)] #![trigger after.holds(w)] s.holds(w)
            == after.holds(w) by {
            assert(stopped.holds(w) == after.holds(w));
        }
    }
}

/// The active window on its own and what is left of its tile are together what
/// the tile held.
proof fn lemma_without_active_window(s: SpaceState)
    requires
        s.wf(),
        s.columns.len() > 0,
    ensures
        forall|id: u64|
            #![trigger s.holds(id)]
            #![trigger without_active_window(s).holds(id)]
            s.holds(id) == (without_active_window(s).holds(id) || s.active_tile().window.id == id),
{
    let column = s.active_column();
    assert(column.wf());
    let t = column.active;
    let tile = s.active_tile();
    let top = tile.window.id;
    let rest = without_active_window(s);
    match tile.below {
        None => {
            lemma_remove_tile_at(s, s.active, t);
        },
        Some(stack) => {
            let left = tile.without(top)->0;
            assert forall|id: u64| #[trigger] tile.holds(id) == (left.holds(id) || top == id) by {
                assert(stack_holds(tile.below, id) == (stack.window.id == id || stack_holds(
                    stack.below,
                    id,
                )));
            }
            let after = ColumnState { tiles: column.tiles.update(t, left), ..column };
            assert(rest.columns == s.columns.update(s.active, after));
            assert forall|id: u64|
                #![trigger s.holds(id)]
                #![trigger rest.holds(id)]
                s.holds(id) == (rest.holds(id) || top == id) by {
                assert(tile.holds(id) == (left.holds(id) || top == id));
                if s.holds(id) && top != id {
                    let i = choose|i: int|
                        0 <= i < s.columns.len() && (#[trigger] s.columns[i]).holds(id);
                    if i == s.active {
                        let k = choose|k: int|
                            0 <= k < column.tiles.len() && (#[trigger] column.tiles[k]).holds(id);
                        assert(after.tiles[k].holds(id));
                    }
                    assert(rest.columns[i].holds(id));
                }
                if rest.holds(id) {
                    let i = choose|i: int|
                        0 <= i < rest.columns.len() && (#[trigger] rest.columns[i]).holds(id);
                    if i == s.active {
                        let k = choose|k: int|
                            0 <= k < after.tiles.len() && (#[trigger] after.tiles[k]).holds(id);
                        assert(column.tiles[k].holds(id));
                    }
                    assert(s.columns[i].holds(id));
                }
                if top == id {
                    assert(column.tiles[t].holds(id));
                    assert(s.columns[s.active].holds(id));
                }
            }
        },
    }
}

proof fn lemma_split_off_keeps_windows(s: SpaceState, to_left: bool)
    requires
        s.wf(),
    ensures
        same_windows(s, split_off(s, to_left).0),
{
    if split_off(s, to_left).1 {
        let c = s.active;
        let column = s.active_column();
        assert(column.wf());
        let tile = Tile { below: None, ..leaving_tile(column, column.active) };
        let rest = without_active_window(s);
        lemma_without_active_window(s);
        lemma_single(tile, column.width, column.full_width);
        let single = single_tile_column(tile, column.width, column.full_width);
        let to = if to_left {
            c
        } else {
            c + 1
        };
        assert(rest.columns.len() == s.columns.len());
        lemma_insert_column(rest, to, single, true);
        let after = split_off(s, to_left).0;
        assert forall|id: u64|
            #![trigger s.holds(id)]
            #![trigger after.holds(id)]
            s.holds(id) == after.holds(id) by {
            assert(single.holds(id) == tile.holds(id));
            assert(tile.holds(id) == (tile.window.id == id)) by {
                assert(!stack_holds(None, id));
            }
            assert(rest.holds(id) || !rest.holds(id));
        }
    }
}

/// Moving the active window to a column of its own keeps all windows.
pub proof fn split_active_window_keeps_windows(s: SpaceState, to_left: bool)
    requires
        s.wf(),
    ensures
        same_windows(s, split_active_window(s, to_left).0),
{
    lemma_split_off_keeps_windows(s, to_left);
    lemma_widths(split_off(s, to_left).0, split_active_window(s, to_left).0);
}

/// Moving the active window to a row of its own keeps all windows.
pub proof fn split_active_row_keeps_windows(s: SpaceState, up: bool)
    requires
        s.wf(),
    ensures
        same_windows(s, split_active_row(s, up).0),
{
    if split_active_row(s, up).1 {
        let column = s.active_column();
        assert(column.wf());
        let tile = Tile { below: None, ..leaving_tile(column, column.active) };
        let rest = without_active_window(s);
        lemma_without_active_window(s);
        let at = if up {
            column.active
        } else {
            column.active + 1
        };
        assert(rest.columns[s.active].tiles.len() == column.tiles.len());
        lemma_insert_tile(rest, s.active, at, tile, true);
        let after = split_active_row(s, up).0;
        assert forall|id: u64|
            #![trigger s.holds(id)]
            #![trigger after.holds(id)]
            s.holds(id) == after.holds(id) by {
            assert(tile.holds(id) == (tile.window.id == id)) by {
                assert(!stack_holds(None, id));
            }
            assert(rest.holds(id) || !rest.holds(id));
        }
    }
}

proof fn lemma_stack_onto(s: SpaceState, c: int, t: int, window: Window)
    requires
        0 <= c < s.columns.len(),
        0 <= t < s.columns[c].tiles.len(),
    ensures
        forall|id: u64|
            #![trigger s.holds(id)]
            #![trigger stack_onto(s, c, t, window).holds(id)]
            stack_onto(s, c, t, window).holds(id) == (s.holds(id) || window.id == id),
{
    let column = s.columns[c];
    let tile = column.tiles[t];
    let top = tile.with_on_top(window);
    let after = stack_onto(s, c, t, window);
    let new = ColumnState { tiles: column.tiles.update(t, top), active: t, ..column };
    assert(after.columns == s.columns.update(c, new));
    assert forall|id: u64|
        #![trigger s.holds(id)]
        #![trigger after.holds(id)]
        after.holds(id) == (s.holds(id) || window.id == id) by {
        assert(top.holds(id) == (tile.holds(id) || window.id == id)) by {
            assert(stack_holds(top.below, id) == (tile.window.id == id || stack_holds(
                tile.below,
                id,
            )));
        }
        if s.holds(id) {
            let i = choose|i: int| 0 <= i < s.columns.len() && (#[trigger] s.columns[i]).holds(id);
            if i == c {
                let k = choose|k: int|
                    0 <= k < column.tiles.len() && (#[trigger] column.tiles[k]).holds(id);
                assert(new.tiles[k].holds(id));
            }
            assert(after.columns[i].holds(id));
        }
        if window.id == id {
            assert(new.tiles[t].holds(id));
            assert(after.columns[c].holds(id));
        }
        if after.holds(id) && window.id != id {
            let i = choose|i: int|
                0 <= i < after.columns.len() && (#[trigger] after.columns[i]).holds(id);
            if i == c {
                let k = choose|k: int|
                    0 <= k < new.tiles.len() && (#[trigger] new.tiles[k]).holds(id);
                assert(column.tiles[k].holds(id));
            }
            assert(s.columns[i].holds(id));
        }
    }
}

proof fn lemma_overlapped_keeps_windows(s: SpaceState, to_left: bool)
    requires
        s.wf(),
    ensures
        same_windows(s, overlapped(s, to_left).0),
{
    if overlapped(s, to_left).1 {
        let column = s.active_column();
        assert(column.wf());
        let to = if to_left {
            s.active - 1
        } else {
            s.active + 1
        };
        assert(s.columns[to].wf());
        let rest = without_active_window(s);
        lemma_without_active_window(s);
        let target = if !to_left && rest.columns.len() < s.columns.len() {
            s.active
        } else {
            to
        };
        assert(rest.columns[target] == s.columns[to]);
        lemma_stack_onto(rest, target, rest.columns[target].active, s.active_tile().window);
        let after = overlapped(s, to_left).0;
        assert forall|id: u64|
            #![trigger s.holds(id)]
            #![trigger after.holds(id)]
            s.holds(id) == after.holds(id) by {
            assert(rest.holds(id) || !rest.holds(id));
        }
    }
}

/// Covering the neighbouring column's tile keeps all windows.
pub proof fn overlap_neighbor_column_keeps_windows(s: SpaceState, to_left: bool)
    requires
        s.wf(),
    ensures
        same_windows(s, overlap_neighbor_column(s, to_left).0),
{
    lemma_overlapped_keeps_windows(s, to_left);
    lemma_widths(overlapped(s, to_left).0, overlap_neighbor_column(s, to_left).0);
}

/// Covering the tile above or below keeps all windows.
pub proof fn overlap_neighbor_row_keeps_windows(s: SpaceState, up: bool)
    requires
        s.wf(),
    ensures
        same_windows(s, overlap_neighbor_row(s, up).0),
{
    if overlap_neighbor_row(s, up).1 {
        let column = s.active_column();
        assert(column.wf());
        let to = if up {
            column.active - 1
        } else {
            column.active + 1
        };
        let rest = without_active_window(s);
        lemma_without_active_window(s);
        let target = if !up && rest.columns[s.active].tiles.len() < column.tiles.len() {
            column.active
        } else {
            to
        };
        lemma_stack_onto(rest, s.active, target, s.active_tile().window);
        let after = overlap_neighbor_row(s, up).0;
        assert forall|id: u64|
            #![trigger s.holds(id)]
            #![trigger after.holds(id)]
            s.holds(id) == after.holds(id) by {
            assert(rest.holds(id) || !rest.holds(id));
        }
    }
}

/// A column that moves one place to the left and back gives the columns and the
/// focus as they were.
pub proof fn moving_left_and_back_changes_nothing(s: SpaceState)
    requires
        s.wf(),
        s.active > 0,
    ensures
        ({
            let there = move_column_to(s, s.active - 1);
            let back = move_column_to(there, there.active + 1);
            &&& there.active == s.active - 1
            &&& back.columns == s.columns
            &&& back.active == s.active
        }),
{
    let there = move_column_to(s, s.active - 1);
    assert(there.columns.remove(s.active - 1) =~= s.columns.remove(s.active));
    assert(s.columns.remove(s.active).insert(s.active, s.active_column()) =~= s.columns);
}

/// Moving the focus along the row and back leaves it where it was, and no column
/// moves.
pub proof fn focus_moves_no_column(s: SpaceState)
    requires
        s.wf(),
    ensures
        focus_left(s).0.columns == s.columns,
        focus_right(s).0.columns == s.columns,
        focus_left(s).1 ==> focus_right(focus_left(s).0).0.active == s.active,
        focus_right(s).1 ==> focus_left(focus_right(s).0).0.active == s.active,
{
}

/// A window that joins the active column and leaves it again is in a column of
/// its own on the right as before, and the columns hold the windows that they
/// held.
pub proof fn expelling_undoes_consuming(s: SpaceState)
    requires
        s.wf(),
        s.active + 1 < s.columns.len(),
        s.columns[s.active + 1].tiles.len() == 1,
    ensures
        ({
            let after = expel_from_column(consume_into_column(s));
            &&& after.columns.len() == s.columns.len()
            &&& after.active == s.active
            &&& forall|i: int|
                0 <= i < s.columns.len() ==> shown_ids(#[trigger] after.columns[i]) == shown_ids(
                    s.columns[i],
                )
        }),
{
    let a = s.active;
    let column = s.columns[a];
    let tile = leaving_tile(s.columns[a + 1], 0);
    let removed = remove_tile_at(s, a + 1, 0);
    assert(removed.columns == s.columns.remove(a + 1));
    assert(removed.active == a);
    let joined = consume_into_column(s);
    let both = column_with(column, column.tiles.len() as int, tile, false);
    assert(joined.columns == s.columns.remove(a + 1).update(a, both));
    assert(both.tiles.remove(both.tiles.len() - 1) =~= column.tiles);
    let after = expel_from_column(joined);
    assert forall|i: int| 0 <= i < s.columns.len() implies shown_ids(#[trigger] after.columns[i])
        == shown_ids(s.columns[i]) by {
        if i == a {
            assert(after.columns[i].tiles == column.tiles);
        } else if i == a + 1 {
            assert(after.columns[i].tiles.len() == 1);
            assert(shown_ids(after.columns[i]) =~= shown_ids(s.columns[i]));
        } else if i > a + 1 {
            assert(after.columns[i] == s.columns[i]);
        }
    }
}

} // verus!
