//! What windows do when they join columns and leave them.

use vstd::prelude::*;
use crate::layout::row::{
    column_of, column_of_finds_the_first, consume_into_column, consume_or_expel_left,
    consume_or_expel_right, consumed, expel_from_column, expelled, has_target, move_to_neighbor_row,
    moved_on, moved_to_neighbor_row, overlap_above, overlap_below, overlap_left, overlap_right,
    overlapped, regrouped_left, regrouped_right, split_above, split_below, split_left, split_off,
    split_right, swap_window, target_position, tile_of_finds_the_first, width_of, Guest,
    ScrollDirection, SpaceState,
};
use crate::layout::tile::{ColumnState, ColumnWidth, Tile, Window};

verus! {

/// Whether the columns of two rows hold the same tiles and have the focus in the same places.
pub open spec fn same_but_widths(a: SpaceState, b: SpaceState) -> bool {
    &&& a.active == b.active
    &&& a.columns.len() == b.columns.len()
    &&& forall|i: int|
        0 <= i < a.columns.len() ==> {
            &&& (#[trigger] a.columns[i]).tiles == b.columns[i].tiles
            &&& a.columns[i].active == b.columns[i].active
        }
}

proof fn lemma_moved_on(
    s: SpaceState,
    before: Option<Guest>,
    window: u64,
    from: (ColumnWidth, bool),
    left: Option<int>,
    joined: Option<int>,
)
    requires
        left matches Some(c) ==> 0 <= c < s.columns.len(),
    ensures
        same_but_widths(moved_on(s, before, window, from, left, joined), s),
{
}

/// Whether a column consists of a tile with this window on top.
pub open spec fn is_alone(column: ColumnState, window: Window) -> bool {
    column.tiles.len() == 1 && column.tiles[0].window == window && column.active == 0
}

/// Whether a window is the bottom row of a column that had these tiles before.
pub open spec fn is_at_the_bottom(column: ColumnState, window: Window, before: Seq<Tile>) -> bool {
    &&& column.tiles.len() == before.len() + 1
    &&& column.tiles.last().window == window
    &&& column.tiles.drop_last() == before
}

proof fn lemma_place(s: SpaceState, window: Option<u64>)
    requires
        s.wf(),
        has_target(s, window),
    ensures
        ({
            let (c, t) = target_position(s, window);
            0 <= c < s.columns.len() && 0 <= t < s.columns[c].tiles.len() && s.columns[c].wf()
        }),
{
    match window {
        Some(id) => {
            column_of_finds_the_first(s, id);
            tile_of_finds_the_first(s.columns[column_of(s.columns, id)], id);
        },
        None => {
            assert(s.active_column().wf());
        },
    }
}

/// A window that shares its column is alone in a new one on the left. The column that it left
/// keeps the other windows.
pub proof fn sharing_windows_leave_to_the_left(s: SpaceState, window: Option<u64>)
    requires
        s.wf(),
        has_target(s, window),
        s.columns[target_position(s, window).0].tiles.len() > 1,
    ensures
        ({
            let (c, t) = target_position(s, window);
            let after = consume_or_expel_left(s, window);
            &&& after.columns.len() == s.columns.len() + 1
            &&& is_alone(after.columns[c], s.columns[c].tiles[t].window)
            &&& after.columns[c + 1].tiles == s.columns[c].tiles.remove(t)
            &&& after.active_tile().window == s.active_tile().window
        }),
{
    let (c, t) = target_position(s, window);
    lemma_place(s, window);
    assert(s.active_column().wf());
    let id = s.columns[c].tiles[t].window.id;
    lemma_moved_on(
        regrouped_left(s, window),
        s.guest,
        id,
        width_of(s.columns[c]),
        Some(c + 1),
        None,
    );
}

/// A window that shares its column is alone in a new one on the right. The column that it
/// left keeps the other windows.
pub proof fn sharing_windows_leave_to_the_right(s: SpaceState, window: Option<u64>)
    requires
        s.wf(),
        has_target(s, window),
        s.columns[target_position(s, window).0].tiles.len() > 1,
    ensures
        ({
            let (c, t) = target_position(s, window);
            let after = consume_or_expel_right(s, window);
            &&& after.columns.len() == s.columns.len() + 1
            &&& is_alone(after.columns[c + 1], s.columns[c].tiles[t].window)
            &&& after.columns[c].tiles == s.columns[c].tiles.remove(t)
            &&& after.active_tile().window == s.active_tile().window
        }),
{
    let (c, t) = target_position(s, window);
    lemma_place(s, window);
    assert(s.active_column().wf());
    let id = s.columns[c].tiles[t].window.id;
    lemma_moved_on(
        regrouped_right(s, window),
        s.guest,
        id,
        width_of(s.columns[c]),
        Some(c),
        None,
    );
}

/// A window alone in its column is in the bottom row of the column to the left, if there is
/// one, and the focus stays with the window that has it.
pub proof fn single_windows_join_the_left(s: SpaceState, window: Option<u64>)
    requires
        s.wf(),
        has_target(s, window),
        s.columns[target_position(s, window).0].tiles.len() == 1,
    ensures
        ({
            let (c, t) = target_position(s, window);
            let after = consume_or_expel_left(s, window);
            &&& c == 0 ==> after == s
            &&& c > 0 ==> after.columns.len() + 1 == s.columns.len()
            &&& c > 0 ==> is_at_the_bottom(
                after.columns[c - 1],
                s.columns[c].tiles[t].window,
                s.columns[c - 1].tiles,
            )
            &&& after.active_tile().window == s.active_tile().window
        }),
{
    let (c, t) = target_position(s, window);
    lemma_place(s, window);
    assert(s.active_column().wf());
    if c > 0 {
        assert(s.columns[c - 1].wf());
        let id = s.columns[c].tiles[t].window.id;
        let after = regrouped_left(s, window);
        lemma_moved_on(after, s.guest, id, width_of(s.columns[c]), None, Some(c - 1));
        assert(after.columns[c - 1].tiles.drop_last() =~= s.columns[c - 1].tiles);
    }
}

/// A window alone in its column is in the bottom row of the column to the right, if there is
/// one, and the focus stays with the window that has it.
pub proof fn single_windows_join_the_right(s: SpaceState, window: Option<u64>)
    requires
        s.wf(),
        has_target(s, window),
        s.columns[target_position(s, window).0].tiles.len() == 1,
    ensures
        ({
            let (c, t) = target_position(s, window);
            let after = consume_or_expel_right(s, window);
            &&& c + 1 == s.columns.len() ==> after == s
            &&& c + 1 < s.columns.len() ==> after.columns.len() + 1 == s.columns.len()
            &&& c + 1 < s.columns.len() ==> is_at_the_bottom(
                after.columns[c],
                s.columns[c].tiles[t].window,
                s.columns[c + 1].tiles,
            )
            &&& after.active_tile().window == s.active_tile().window
        }),
{
    let (c, t) = target_position(s, window);
    lemma_place(s, window);
    assert(s.active_column().wf());
    if c + 1 < s.columns.len() {
        assert(s.columns[c + 1].wf());
        let id = s.columns[c].tiles[t].window.id;
        let after = regrouped_right(s, window);
        lemma_moved_on(after, s.guest, id, width_of(s.columns[c]), None, Some(c));
        assert(after.columns[c].tiles.drop_last() =~= s.columns[c + 1].tiles);
    }
}

/// What is meant is a tile that holds the window, or else the active one.
pub proof fn the_tile_of_the_window_is_meant(s: SpaceState, window: Option<u64>)
    requires
        s.wf(),
        has_target(s, window),
    ensures
        ({
            let (c, t) = target_position(s, window);
            &&& window matches Some(id) ==> s.columns[c].tiles[t].holds(id)
            &&& window is None ==> s.columns[c].tiles[t] == s.active_tile()
        }),
{
    if let Some(id) = window {
        column_of_finds_the_first(s, id);
        tile_of_finds_the_first(s.columns[column_of(s.columns, id)], id);
    }
}

/// The first window of the column to the right comes to the bottom of the active column, and
/// the focus stays.
pub proof fn first_window_is_consumed(s: SpaceState)
    requires
        s.wf(),
        s.columns.len() > 0,
    ensures
        ({
            let after = consume_into_column(s);
            let next = s.active + 1;
            &&& next == s.columns.len() ==> after == s
            &&& after.active == s.active
            &&& after.active_tile().window == s.active_tile().window
            &&& next < s.columns.len() ==> is_at_the_bottom(
                after.active_column(),
                s.columns[next].tiles[0].window,
                s.active_column().tiles,
            )
            &&& next < s.columns.len() && s.columns[next].tiles.len() > 1
                ==> after.columns[next].tiles == s.columns[next].tiles.remove(0)
            &&& next < s.columns.len() && s.columns[next].tiles.len() == 1 ==> after.columns.len()
                + 1 == s.columns.len()
        }),
{
    assert(s.active_column().wf());
    let next = s.active + 1;
    if next < s.columns.len() {
        assert(s.columns[next].wf());
        let after = consumed(s);
        lemma_moved_on(
            after,
            s.guest,
            s.columns[next].tiles[0].window.id,
            width_of(s.columns[next]),
            if s.columns[next].tiles.len() > 1 {
                Some(next)
            } else {
                None
            },
            Some(s.active),
        );
        assert(after.columns[s.active].tiles.drop_last() =~= s.active_column().tiles);
    }
}

/// The bottom window of the active column is alone in a new column on the right. The focus
/// stays in its column: with its window, or with the one above if that is the one that left.
pub proof fn bottom_window_is_expelled(s: SpaceState)
    requires
        s.wf(),
        s.columns.len() > 0,
    ensures
        ({
            let after = expel_from_column(s);
            let tiles = s.active_column().tiles;
            let active = s.active_column().active;
            &&& tiles.len() == 1 ==> after == s
            &&& tiles.len() > 1 ==> after.columns.len() == s.columns.len() + 1
            &&& after.active == s.active
            &&& tiles.len() > 1 ==> after.active_column().tiles == tiles.drop_last()
            &&& tiles.len() > 1 ==> is_alone(after.columns[s.active + 1], tiles.last().window)
            &&& active + 1 < tiles.len() ==> after.active_tile().window == s.active_tile().window
            &&& tiles.len() > 1 && active + 1 == tiles.len() ==> after.active_tile().window
                == tiles[active - 1].window
        }),
{
    let column = s.active_column();
    assert(column.wf());
    if column.tiles.len() > 1 {
        let after = expelled(s);
        lemma_moved_on(
            after,
            s.guest,
            column.tiles.last().window.id,
            width_of(column),
            Some(s.active),
            None,
        );
        assert(column.tiles.remove(column.tiles.len() - 1) =~= column.tiles.drop_last());
    }
}

/// A window that changes places with the one next to it has the focus there, and the other
/// one is where it was.
pub proof fn swapped_windows_change_places(s: SpaceState, direction: ScrollDirection)
    requires
        s.wf(),
        s.columns.len() > 0,
    ensures
        ({
            let after = swap_window(s, direction);
            let to = if direction is Left {
                s.active - 1
            } else {
                s.active + 1
            };
            let there = 0 <= to < s.columns.len();
            &&& !there ==> after == s
            &&& there ==> after.active == to
            &&& after.active_tile().window == s.active_tile().window
            &&& after.columns.len() == s.columns.len()
            &&& there ==> after.columns[s.active].tiles[after.columns[s.active].active].window
                == s.columns[to].tiles[s.columns[to].active].window
        }),
{
    assert(s.active_column().wf());
    let to = if direction is Left {
        s.active - 1
    } else {
        s.active + 1
    };
    if 0 <= to < s.columns.len() {
        assert(s.columns[to].wf());
    }
}

/// A window that moves over to the next column is in its bottom row and keeps the focus.
pub proof fn windows_move_over(s: SpaceState, to_left: bool)
    requires
        s.wf(),
        s.columns.len() > 0,
    ensures
        ({
            let (after, moved) = move_to_neighbor_row(s, to_left);
            let to = if to_left {
                s.active - 1
            } else {
                s.active + 1
            };
            &&& moved <==> 0 <= to < s.columns.len()
            &&& !moved ==> after == s
            &&& after.active_tile().window == s.active_tile().window
            &&& moved ==> is_at_the_bottom(
                after.active_column(),
                s.active_tile().window,
                s.columns[to].tiles,
            )
            &&& moved && s.active_column().tiles.len() > 1 ==> after.active == to
                && after.columns[s.active].tiles == s.active_column().tiles.remove(
                s.active_column().active,
            )
        }),
{
    let column = s.active_column();
    assert(column.wf());
    let to = if to_left {
        s.active - 1
    } else {
        s.active + 1
    };
    if 0 <= to < s.columns.len() {
        assert(s.columns[to].wf());
        let after = moved_to_neighbor_row(s, to_left).0;
        let stays = column.tiles.len() > 1;
        lemma_moved_on(
            after,
            s.guest,
            s.active_tile().window.id,
            width_of(column),
            if stays {
                Some(s.active)
            } else {
                None
            },
            Some(
                if to_left {
                    s.active - 1
                } else if stays {
                    s.active + 1
                } else {
                    s.active
                },
            ),
        );
        assert(after.active_column().tiles.drop_last() =~= s.columns[to].tiles);
    }
}

/// A window that isn't alone in its column already is alone in a new one at the side that is
/// asked for, and keeps the focus.
pub proof fn windows_split_off(s: SpaceState)
    requires
        s.wf(),
        s.columns.len() > 0,
    ensures
        ({
            let alone = s.active_column().tiles.len() == 1 && s.active_tile().below is None;
            let (left, to_left) = split_left(s);
            let (right, to_right) = split_right(s);
            &&& to_left <==> !alone
            &&& to_right <==> !alone
            &&& alone ==> left == s && right == s
            &&& left.active == s.active
            &&& !alone ==> right.active == s.active + 1
            &&& !alone ==> is_alone(left.active_column(), s.active_tile().window)
            &&& !alone ==> is_alone(right.active_column(), s.active_tile().window)
            &&& !alone ==> left.active_tile().below is None && right.active_tile().below is None
            &&& !alone ==> left.columns.len() == s.columns.len() + 1
            &&& !alone ==> right.columns.len() == s.columns.len() + 1
        }),
{
    let column = s.active_column();
    assert(column.wf());
    if !(column.tiles.len() == 1 && s.active_tile().below is None) {
        let id = s.active_tile().window.id;
        lemma_moved_on(
            split_off(s, true).0,
            s.guest,
            id,
            width_of(column),
            Some(s.active + 1),
            None,
        );
        lemma_moved_on(
            split_off(s, false).0,
            s.guest,
            id,
            width_of(column),
            Some(s.active),
            None,
        );
    }
}

/// Whether a window covers another one in the active tile of a row.
pub open spec fn covers(s: SpaceState, window: Window, other: Tile) -> bool {
    &&& s.active_tile().window == window
    &&& s.active_tile().below is Some
    &&& s.active_tile().below->0.window == other.window
    &&& s.active_tile().below->0.below == other.below
}

/// A window that is put onto the column to the left covers the tile that is active there, and
/// keeps the focus.
pub proof fn windows_cover_the_left(s: SpaceState)
    requires
        s.wf(),
        s.columns.len() > 0,
    ensures
        overlap_left(s).1 <==> s.active > 0,
        !overlap_left(s).1 ==> overlap_left(s).0 == s,
        overlap_left(s).1 ==> overlap_left(s).0.active == s.active - 1,
        overlap_left(s).1 ==> covers(
            overlap_left(s).0,
            s.active_tile().window,
            s.columns[s.active - 1].tiles[s.columns[s.active - 1].active],
        ),
{
    assert(s.active_column().wf());
    if s.active > 0 {
        assert(s.columns[s.active - 1].wf());
        let after = overlapped(s, true).0;
        lemma_moved_on(
            after,
            s.guest,
            s.active_tile().window.id,
            width_of(s.active_column()),
            if after.columns.len() == s.columns.len() {
                Some(s.active)
            } else {
                None
            },
            Some(s.active - 1),
        );
    }
}

/// A window that is put onto the column to the right covers the tile that is active there,
/// and keeps the focus.
pub proof fn windows_cover_the_right(s: SpaceState)
    requires
        s.wf(),
        s.columns.len() > 0,
    ensures
        overlap_right(s).1 <==> s.active + 1 < s.columns.len(),
        !overlap_right(s).1 ==> overlap_right(s).0 == s,
        overlap_right(s).1 ==> covers(
            overlap_right(s).0,
            s.active_tile().window,
            s.columns[s.active + 1].tiles[s.columns[s.active + 1].active],
        ),
{
    assert(s.active_column().wf());
    if s.active + 1 < s.columns.len() {
        assert(s.columns[s.active + 1].wf());
        let after = overlapped(s, false).0;
        let stays = after.columns.len() == s.columns.len();
        lemma_moved_on(
            after,
            s.guest,
            s.active_tile().window.id,
            width_of(s.active_column()),
            if stays {
                Some(s.active)
            } else {
                None
            },
            Some(
                if stays {
                    s.active + 1
                } else {
                    s.active
                },
            ),
        );
    }
}

/// A window that is put onto the tile above or below covers it, and keeps the focus.
pub proof fn windows_cover_their_neighbors(s: SpaceState)
    requires
        s.wf(),
        s.columns.len() > 0,
    ensures
        ({
            let column = s.active_column();
            let (above, up) = overlap_above(s);
            let (below, down) = overlap_below(s);
            &&& up <==> column.active > 0
            &&& down <==> column.active + 1 < column.tiles.len()
            &&& !up ==> above == s
            &&& !down ==> below == s
            &&& above.active == s.active && below.active == s.active
            &&& up ==> covers(above, s.active_tile().window, column.tiles[column.active - 1])
            &&& down ==> covers(below, s.active_tile().window, column.tiles[column.active + 1])
        }),
{
    assert(s.active_column().wf());
}

/// A window that covers others is in a row of its own above or below them, and keeps the
/// focus.
pub proof fn windows_get_a_row_of_their_own(s: SpaceState)
    requires
        s.wf(),
        s.columns.len() > 0,
    ensures
        ({
            let at = s.active_column().active;
            let (above, up) = split_above(s);
            let (below, down) = split_below(s);
            &&& up <==> s.active_tile().below is Some
            &&& down <==> s.active_tile().below is Some
            &&& !up ==> above == s && below == s
            &&& above.active_tile().window == s.active_tile().window
            &&& below.active_tile().window == s.active_tile().window
            &&& up ==> above.active_tile().below is None && below.active_tile().below is None
            &&& above.active == s.active && below.active == s.active
            &&& up ==> above.active_column().active == at && above.active_column().tiles[at
                + 1].window == s.active_tile().below->0.window
            &&& up ==> below.active_column().active == at + 1
                && below.active_column().tiles[at].window == s.active_tile().below->0.window
        }),
{
    assert(s.active_column().wf());
}

} // verus!
