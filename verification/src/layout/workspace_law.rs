//! What moves on a workspace, where it goes and what is asked of the geometry for it.

use vstd::prelude::*;
use crate::ipc::{ColumnDisplay, SizeChange};
use crate::layout::fixed_strip::FixedSide;
use crate::layout::floating::{FloatRequest, FloatState, FocusDir};
use crate::layout::geometry::{numbers_equal, RectBits, ResizeEdge};
use crate::layout::moves_law::same_columns;
use crate::layout::regroup_law::{
    bottom_window_is_expelled, covers, first_window_is_consumed, is_alone, is_at_the_bottom,
    sharing_windows_leave_to_the_left, sharing_windows_leave_to_the_right,
    single_windows_join_the_left, single_windows_join_the_right, swapped_windows_change_places,
    windows_cover_the_left, windows_cover_the_right, windows_cover_their_neighbors,
    windows_get_a_row_of_their_own, windows_move_over, windows_split_off,
};
use crate::layout::row::{
    column_of_finds_the_first, has_target, target_position, target_window, tile_from, tile_of,
    Request, ScrollDirection, SizeRequest,
};
use crate::layout::sizing::{negated, Size};
use crate::layout::tile::Tile;
use crate::layout::workspace_moves::{
    bottom_window_focused, closing_shown, column_centered, column_expanded, column_put_at,
    column_put_first, column_put_last, column_width_changed, column_width_switched, configured_size,
    consumed_from_the_right, displayed_as, drag_begun, drag_ended, dragged, edge_scrolling_begun,
    edge_scrolling_ended, edge_scrolling_moved, expelled_to_the_right, first_column_focused,
    first_of_the_row_focused, focused_down, focused_down_or_left, focused_down_or_right,
    focused_left, focused_right, focused_up, focused_up_or_left, focused_up_or_right, focuses_down,
    focuses_down_or_top, focuses_left, focuses_left_or_last, focuses_right, focuses_right_or_first,
    focuses_up, focuses_up_or_bottom, full_width_switched, height_changed, height_left_open,
    height_switched, insets_set, last_column_focused, last_of_the_row_focused,
    numbered_column_focused, numbered_row_focused, opening_shown, prepared, pushed_down,
    pushed_left, pushed_right, pushed_up, put_into_neighbor, put_onto_the_left,
    put_onto_the_one_above, put_onto_the_one_below, put_onto_the_right, refreshed,
    regrouped_to_the_left, regrouped_to_the_right, resized_towards, scrolling_begun,
    scrolling_ended, scrolling_moved, split_downwards, split_to_neighbor, split_to_the_left,
    split_to_the_right, split_upwards, swapped_with, tabs_toggled, top_window_focused,
    width_changed, width_switched, window_centered, window_updated,
};
use crate::layout::workspace_state::{
    crosses_layers, is_best, is_eligible, layer_of, window_activated, window_focused, FocusHint,
    WorkspaceState,
};

verus! {

/// Whether only the row of columns of a workspace changed.
pub open spec fn only_the_row_changes(s: WorkspaceState, after: WorkspaceState) -> bool {
    after == (WorkspaceState { row: after.row, ..s })
}

/// Whether only the floating layer of a workspace changed.
pub open spec fn only_floats_change(s: WorkspaceState, after: WorkspaceState) -> bool {
    after == (WorkspaceState { float: after.float, ..s })
}

/// Whether something was asked of the row, and nothing else.
pub open spec fn row_is_asked(s: WorkspaceState, after: WorkspaceState, request: Request) -> bool {
    &&& only_the_row_changes(s, after)
    &&& after.row.requests == s.row.requests.push(request)
    &&& after.row.columns == s.row.columns
    &&& after.row.active == s.row.active
}

/// Whether something was asked of the floating layer, and nothing else.
pub open spec fn floats_are_asked(
    s: WorkspaceState,
    after: WorkspaceState,
    request: FloatRequest,
) -> bool {
    after == (WorkspaceState {
        float: FloatState { requests: s.float.requests.push(request), ..s.float },
        ..s
    })
}

/// A floating window that has the focus moves a step in the direction that is asked for, and
/// the columns stay.
pub proof fn floating_windows_step(s: WorkspaceState)
    requires
        s.wf(),
        s.active is Yes,
        s.float.active is Some,
    ensures
        ({
            let window = s.float.active->0;
            &&& pushed_left(s).1 && pushed_right(s).1 && pushed_up(s).1 && pushed_down(s).1
            &&& floats_are_asked(
                s,
                pushed_left(s).0,
                FloatRequest::Step { window, direction: FocusDir::Left },
            )
            &&& floats_are_asked(
                s,
                pushed_right(s).0,
                FloatRequest::Step { window, direction: FocusDir::Right },
            )
            &&& floats_are_asked(
                s,
                pushed_up(s).0,
                FloatRequest::Step { window, direction: FocusDir::Up },
            )
            &&& floats_are_asked(
                s,
                pushed_down(s).0,
                FloatRequest::Step { window, direction: FocusDir::Down },
            )
        }),
{
}

/// A column that has the focus moves one place to the side that is asked for, if there is
/// one, and the floating windows stay.
pub proof fn columns_are_pushed_aside(s: WorkspaceState)
    requires
        s.wf(),
        !(s.active is Yes),
    ensures
        only_the_row_changes(s, pushed_left(s).0),
        only_the_row_changes(s, pushed_right(s).0),
        pushed_left(s).1 <==> s.row.active > 0,
        pushed_right(s).1 <==> s.row.active + 1 < s.row.columns.len(),
        pushed_left(s).1 ==> pushed_left(s).0.row.active == s.row.active - 1,
        pushed_right(s).1 ==> pushed_right(s).0.row.active == s.row.active + 1,
        s.row.columns.len() > 0 ==> {
            &&& pushed_left(s).0.row.active_column() == s.row.active_column()
            &&& pushed_right(s).0.row.active_column() == s.row.active_column()
        },
        !pushed_left(s).1 ==> pushed_left(s).0 == s,
        !pushed_right(s).1 ==> pushed_right(s).0 == s,
{
}

/// A window that has the focus moves one row up or down, if there is one, and the floating
/// windows stay.
pub proof fn windows_are_pushed_up_and_down(s: WorkspaceState)
    requires
        s.wf(),
        !(s.active is Yes),
        s.row.columns.len() > 0,
    ensures
        ({
            let column = s.row.active_column();
            let (above, up) = pushed_up(s);
            let (below, down) = pushed_down(s);
            &&& only_the_row_changes(s, above) && only_the_row_changes(s, below)
            &&& up <==> column.active > 0
            &&& down <==> column.active + 1 < column.tiles.len()
            &&& up ==> above.row.active_column().active == column.active - 1
            &&& down ==> below.row.active_column().active == column.active + 1
            &&& above.row.active_tile() == s.row.active_tile()
            &&& below.row.active_tile() == s.row.active_tile()
        }),
{
    assert(s.row.active_column().wf());
}

/// A column goes to the first place, to the last one or to the one with a number. Where a
/// floating window has the focus, nothing moves.
pub proof fn columns_are_put_in_their_place(s: WorkspaceState, index: usize)
    requires
        s.wf(),
        s.row.columns.len() > 0,
    ensures
        s.active is Yes ==> column_put_first(s) == s && column_put_last(s) == s && column_put_at(
            s,
            index,
        ) == s,
        !(s.active is Yes) ==> {
            &&& column_put_first(s).row.active == 0
            &&& column_put_last(s).row.active + 1 == s.row.columns.len()
            &&& 1 <= index <= s.row.columns.len() ==> column_put_at(s, index).row.active + 1
                == index
        },
        only_the_row_changes(s, column_put_first(s)),
        only_the_row_changes(s, column_put_last(s)),
        only_the_row_changes(s, column_put_at(s, index)),
        column_put_first(s).row.active_column() == s.row.active_column(),
        column_put_last(s).row.active_column() == s.row.active_column(),
        column_put_at(s, index).row.active_column() == s.row.active_column(),
{
}

/// What regroups columns does nothing where a floating window has the focus.
pub proof fn columns_stay_while_a_float_has_the_focus(
    s: WorkspaceState,
    window: Option<u64>,
    to_left: bool,
    direction: ScrollDirection,
    display: ColumnDisplay,
)
    requires
        s.active is Yes,
    ensures
        split_to_the_left(s) == (s, false),
        split_to_the_right(s) == (s, false),
        split_upwards(s) == (s, false),
        split_downwards(s) == (s, false),
        put_onto_the_left(s) == (s, false),
        put_onto_the_right(s) == (s, false),
        put_onto_the_one_above(s) == (s, false),
        put_onto_the_one_below(s) == (s, false),
        put_into_neighbor(s, to_left) == (s, false),
        split_to_neighbor(s, to_left) == (s, false),
        regrouped_to_the_left(s, window) == s,
        regrouped_to_the_right(s, window) == s,
        consumed_from_the_right(s) == s,
        expelled_to_the_right(s) == s,
        swapped_with(s, direction) == s,
        tabs_toggled(s) == s,
        displayed_as(s, display) == s,
        full_width_switched(s) == s,
        column_expanded(s) == s,
{
}

/// A window that isn't alone in its column gets a column of its own at the side that is asked
/// for.
pub proof fn windows_are_split_off(s: WorkspaceState)
    requires
        s.wf(),
        !(s.active is Yes),
        s.row.columns.len() > 0,
    ensures
        ({
            let alone = s.row.active_column().tiles.len() == 1 && s.row.active_tile().below is None;
            let window = s.row.active_tile().window;
            let (left, to_left) = split_to_the_left(s);
            let (right, to_right) = split_to_the_right(s);
            &&& only_the_row_changes(s, left) && only_the_row_changes(s, right)
            &&& to_left <==> !alone
            &&& to_right <==> !alone
            &&& to_left ==> left.row.active == s.row.active && is_alone(
                left.row.active_column(),
                window,
            )
            &&& to_right ==> right.row.active == s.row.active + 1 && is_alone(
                right.row.active_column(),
                window,
            )
        }),
{
    windows_split_off(s.row);
}

/// A window is split off towards a neighbour exactly if there is one at that side and the
/// window isn't alone in its column.
pub proof fn windows_are_split_off_towards_neighbors(s: WorkspaceState, to_left: bool)
    requires
        s.wf(),
        !(s.active is Yes),
        s.row.columns.len() > 0,
    ensures
        ({
            let alone = s.row.active_column().tiles.len() == 1 && s.row.active_tile().below is None;
            let window = s.row.active_tile().window;
            let (after, moved) = split_to_neighbor(s, to_left);
            let has_neighbor = if to_left {
                s.row.active > 0
            } else {
                s.row.active + 1 < s.row.columns.len()
            };
            &&& only_the_row_changes(s, after)
            &&& moved <==> has_neighbor && !alone
            &&& !moved ==> after == s
            &&& moved ==> is_alone(after.row.active_column(), window)
            &&& moved && to_left ==> after.row.active == s.row.active
            &&& moved && !to_left ==> after.row.active == s.row.active + 1
        }),
{
    windows_split_off(s.row);
}

/// A window gets a row of its own at the side that is asked for.
pub proof fn windows_are_split_off_up_and_down(s: WorkspaceState)
    requires
        s.wf(),
        !(s.active is Yes),
        s.row.columns.len() > 0,
    ensures
        ({
            let at = s.row.active_column().active;
            let window = s.row.active_tile().window;
            let stacked = s.row.active_tile().below is Some;
            let (above, up) = split_upwards(s);
            let (below, down) = split_downwards(s);
            &&& only_the_row_changes(s, above) && only_the_row_changes(s, below)
            &&& up <==> stacked
            &&& down <==> stacked
            &&& above.row.active_tile().window == window
            &&& below.row.active_tile().window == window
            &&& up ==> above.row.active_column().active == at
            &&& down ==> below.row.active_column().active == at + 1
        }),
{
    windows_get_a_row_of_their_own(s.row);
}

/// A window that is put onto another one covers the one at the side that is asked for.
pub proof fn windows_are_put_onto_others(s: WorkspaceState)
    requires
        s.wf(),
        !(s.active is Yes),
        s.row.columns.len() > 0,
    ensures
        ({
            let row = s.row;
            let column = row.active_column();
            let window = row.active_tile().window;
            let (left, to_left) = put_onto_the_left(s);
            let (right, to_right) = put_onto_the_right(s);
            let (above, up) = put_onto_the_one_above(s);
            let (below, down) = put_onto_the_one_below(s);
            &&& only_the_row_changes(s, left) && only_the_row_changes(s, right)
            &&& only_the_row_changes(s, above) && only_the_row_changes(s, below)
            &&& to_left <==> row.active > 0
            &&& to_right <==> row.active + 1 < row.columns.len()
            &&& up <==> column.active > 0
            &&& down <==> column.active + 1 < column.tiles.len()
            &&& to_left ==> covers(
                left.row,
                window,
                row.columns[row.active - 1].tiles[row.columns[row.active - 1].active],
            )
            &&& to_right ==> covers(
                right.row,
                window,
                row.columns[row.active + 1].tiles[row.columns[row.active + 1].active],
            )
            &&& up ==> covers(above.row, window, column.tiles[column.active - 1])
            &&& down ==> covers(below.row, window, column.tiles[column.active + 1])
        }),
{
    windows_cover_the_left(s.row);
    windows_cover_the_right(s.row);
    windows_cover_their_neighbors(s.row);
}

/// A window that is put into the column next to it is in the bottom row there.
pub proof fn windows_are_put_into_neighbors(s: WorkspaceState, to_left: bool)
    requires
        s.wf(),
        !(s.active is Yes),
        s.row.columns.len() > 0,
    ensures
        ({
            let (after, moved) = put_into_neighbor(s, to_left);
            let to = if to_left {
                s.row.active - 1
            } else {
                s.row.active + 1
            };
            &&& only_the_row_changes(s, after)
            &&& moved <==> 0 <= to < s.row.columns.len()
            &&& moved ==> is_at_the_bottom(
                after.row.active_column(),
                s.row.active_tile().window,
                s.row.columns[to].tiles,
            )
        }),
{
    windows_move_over(s.row, to_left);
}

/// A window of the row leaves its column for a new one, or joins the one that is there, at
/// the side that is asked for.
pub proof fn windows_are_regrouped(s: WorkspaceState, window: Option<u64>)
    requires
        s.wf(),
        !(s.active is Yes),
        layer_of(s, window) is Scrolling,
        has_target(s.row, window),
    ensures
        ({
            let (c, t) = target_position(s.row, window);
            let column = s.row.columns[c];
            let left = regrouped_to_the_left(s, window);
            let right = regrouped_to_the_right(s, window);
            &&& only_the_row_changes(s, left) && only_the_row_changes(s, right)
            &&& left.row.active_tile().window == s.row.active_tile().window
            &&& right.row.active_tile().window == s.row.active_tile().window
            &&& column.tiles.len() > 1 ==> is_alone(left.row.columns[c], column.tiles[t].window)
            &&& column.tiles.len() > 1 ==> is_alone(
                right.row.columns[c + 1],
                column.tiles[t].window,
            )
            &&& column.tiles.len() == 1 && c > 0 ==> is_at_the_bottom(
                left.row.columns[c - 1],
                column.tiles[t].window,
                s.row.columns[c - 1].tiles,
            )
            &&& column.tiles.len() == 1 && c + 1 < s.row.columns.len() ==> is_at_the_bottom(
                right.row.columns[c],
                column.tiles[t].window,
                s.row.columns[c + 1].tiles,
            )
        }),
{
    let (c, t) = target_position(s.row, window);
    if let Some(id) = window {
        column_of_finds_the_first(s.row, id);
    }
    assert(s.row.columns[c].wf());
    if s.row.columns[c].tiles.len() > 1 {
        sharing_windows_leave_to_the_left(s.row, window);
        sharing_windows_leave_to_the_right(s.row, window);
    } else {
        single_windows_join_the_left(s.row, window);
        single_windows_join_the_right(s.row, window);
    }
}

/// The window to the right comes into the active column, the bottom window of the active
/// column leaves it, and windows change places, as they do in the row alone.
pub proof fn columns_take_and_give_windows(s: WorkspaceState, direction: ScrollDirection)
    requires
        s.wf(),
        !(s.active is Yes),
        s.row.columns.len() > 0,
    ensures
        ({
            let row = s.row;
            let tiles = row.active_column().tiles;
            let taken = consumed_from_the_right(s);
            let given = expelled_to_the_right(s);
            let swapped = swapped_with(s, direction);
            &&& only_the_row_changes(s, taken)
            &&& only_the_row_changes(s, given)
            &&& only_the_row_changes(s, swapped)
            &&& row.active + 1 < row.columns.len() ==> is_at_the_bottom(
                taken.row.active_column(),
                row.columns[row.active + 1].tiles[0].window,
                tiles,
            )
            &&& tiles.len() > 1 ==> is_alone(given.row.columns[row.active + 1], tiles.last().window)
            &&& direction is Left && row.active > 0 ==> swapped.row.active == row.active - 1
            &&& direction is Right && row.active + 1 < row.columns.len() ==> swapped.row.active
                == row.active + 1
            &&& swapped.row.active_tile().window == row.active_tile().window
        }),
{
    first_window_is_consumed(s.row);
    bottom_window_is_expelled(s.row);
    swapped_windows_change_places(s.row, direction);
}

/// A column shows its tiles as asked for, and its tabs are toggled.
pub proof fn columns_are_displayed_as_asked_for(s: WorkspaceState, display: ColumnDisplay)
    requires
        s.wf(),
        !(s.active is Yes),
        s.row.columns.len() > 0,
    ensures
        displayed_as(s, display).row.active_column().display == display,
        tabs_toggled(s).row.active_column().display != s.row.active_column().display,
        only_the_row_changes(s, displayed_as(s, display)),
        only_the_row_changes(s, tabs_toggled(s)),
        same_columns(displayed_as(s, display).row, s.row),
        same_columns(tabs_toggled(s).row, s.row),
{
}

/// Toggling the full width makes the active column as wide as the view, or gives it back its
/// width, and no other one.
pub proof fn full_width_is_switched(s: WorkspaceState)
    requires
        s.wf(),
        !(s.active is Yes),
        s.row.columns.len() > 0,
    ensures
        only_the_row_changes(s, full_width_switched(s)),
        full_width_switched(s).row.active_column().full_width
            != s.row.active_column().full_width,
        same_columns(full_width_switched(s).row, s.row),
        forall|i: int|
            0 <= i < s.row.columns.len() && i != s.row.active
                ==> #[trigger] full_width_switched(s).row.columns[i] == s.row.columns[i],
{
}

/// The focus goes one column or one row in the direction that is asked for, if there is one,
/// and no window moves.
pub proof fn focus_moves_in_the_row(s: WorkspaceState, pick: Option<u64>)
    requires
        s.wf(),
        !(s.active is Yes),
        s.row.columns.len() > 0,
    ensures
        ({
            let row = s.row;
            let column = row.active_column();
            let (left, to_left) = focused_left(s, pick);
            let (right, to_right) = focused_right(s, pick);
            let (above, up) = focused_up(s, pick);
            let (below, down) = focused_down(s, pick);
            &&& only_the_row_changes(s, left) && only_the_row_changes(s, right)
            &&& only_the_row_changes(s, above) && only_the_row_changes(s, below)
            &&& same_columns(left.row, row) && same_columns(right.row, row)
            &&& same_columns(above.row, row) && same_columns(below.row, row)
            &&& to_left <==> row.active > 0
            &&& to_right <==> row.active + 1 < row.columns.len()
            &&& up <==> column.active > 0
            &&& down <==> column.active + 1 < column.tiles.len()
            &&& to_left ==> left.row.active == row.active - 1
            &&& to_right ==> right.row.active == row.active + 1
            &&& up ==> above.row.active_column().active == column.active - 1
            &&& down ==> below.row.active_column().active == column.active + 1
            &&& above.row.active == row.active && below.row.active == row.active
        }),
{
    assert(s.row.active_column().wf());
}

proof fn lemma_tile_is_found(tiles: Seq<Tile>, id: u64, i: int)
    requires
        0 <= i <= tiles.len(),
        exists|j: int| i <= j < tiles.len() && (#[trigger] tiles[j]).holds(id),
    ensures
        i <= tile_from(tiles, id, i) < tiles.len(),
        tiles[tile_from(tiles, id, i)].holds(id),
    decreases tiles.len() - i,
{
    if !tiles[i].holds(id) {
        lemma_tile_is_found(tiles, id, i + 1);
    }
}

/// While a floating window has the focus, it goes to the tile of the floating window that is
/// picked, and the columns stay.
pub proof fn focus_moves_among_floats(s: WorkspaceState, pick: u64)
    requires
        s.wf(),
        s.active is Yes,
        s.float.holds(pick),
    ensures
        only_floats_change(s, focused_left(s, Some(pick)).0),
        focused_left(s, Some(pick)).1,
        exists|i: int|
            {
                &&& 0 <= i < s.float.tiles.len()
                &&& (#[trigger] s.float.tiles[i]).holds(pick)
                &&& focused_left(s, Some(pick)).0.float.active == Some(
                    s.float.tiles[i].window.id,
                )
            },
        focused_right(s, Some(pick)) == focused_left(s, Some(pick)),
        focused_up(s, Some(pick)) == focused_left(s, Some(pick)),
        focused_down(s, Some(pick)) == focused_left(s, Some(pick)),
        first_column_focused(s, Some(pick)) == focused_left(s, Some(pick)).0,
        last_column_focused(s, Some(pick)) == focused_left(s, Some(pick)).0,
        top_window_focused(s, Some(pick)) == focused_left(s, Some(pick)).0,
        bottom_window_focused(s, Some(pick)) == focused_left(s, Some(pick)).0,
        focused_down_or_left(s, Some(pick)) == focused_left(s, Some(pick)).0,
        focused_down_or_right(s, Some(pick)) == focused_left(s, Some(pick)).0,
        focused_up_or_left(s, Some(pick)) == focused_left(s, Some(pick)).0,
        focused_up_or_right(s, Some(pick)) == focused_left(s, Some(pick)).0,
        focused_left(s, None) == (s, false),
{
    lemma_tile_is_found(s.float.tiles, pick, 0);
    assert(s.float.tiles[tile_of(s.float.tiles, pick)].holds(pick));
}

/// The focus goes to the column or the row that is asked for.
pub proof fn focus_goes_where_it_is_asked_to(s: WorkspaceState, pick: Option<u64>)
    requires
        s.wf(),
        !(s.active is Yes),
        s.row.columns.len() > 0,
    ensures
        ({
            let len = s.row.active_column().tiles.len();
            &&& first_column_focused(s, pick).row.active == 0
            &&& last_column_focused(s, pick).row.active + 1 == s.row.columns.len()
            &&& first_of_the_row_focused(s).row.active == 0
            &&& last_of_the_row_focused(s).row.active + 1 == s.row.columns.len()
            &&& top_window_focused(s, pick).row.active_column().active == 0
            &&& bottom_window_focused(s, pick).row.active_column().active + 1 == len
            &&& top_window_focused(s, pick).row.active == s.row.active
            &&& bottom_window_focused(s, pick).row.active == s.row.active
            &&& same_columns(first_column_focused(s, pick).row, s.row)
            &&& same_columns(last_column_focused(s, pick).row, s.row)
            &&& same_columns(first_of_the_row_focused(s).row, s.row)
            &&& same_columns(last_of_the_row_focused(s).row, s.row)
            &&& same_columns(top_window_focused(s, pick).row, s.row)
            &&& same_columns(bottom_window_focused(s, pick).row, s.row)
        }),
{
    assert(s.row.active_column().wf());
}

/// The focus leaves the top or the bottom row for the column at the side that is asked for.
pub proof fn focus_goes_round_the_corner(s: WorkspaceState, pick: Option<u64>)
    requires
        s.wf(),
        !(s.active is Yes),
        s.row.columns.len() > 0,
    ensures
        ({
            let row = s.row;
            let column = row.active_column();
            let bottom = column.active + 1 == column.tiles.len();
            let top = column.active == 0;
            &&& bottom && row.active > 0 ==> focused_down_or_left(s, pick).row.active
                == row.active - 1
            &&& bottom && row.active + 1 < row.columns.len() ==> focused_down_or_right(
                s,
                pick,
            ).row.active == row.active + 1
            &&& top && row.active > 0 ==> focused_up_or_left(s, pick).row.active == row.active - 1
            &&& top && row.active + 1 < row.columns.len() ==> focused_up_or_right(
                s,
                pick,
            ).row.active == row.active + 1
            &&& !bottom ==> {
                &&& focused_down_or_left(s, pick) == focused_down(s, pick).0
                &&& focused_down_or_right(s, pick) == focused_down(s, pick).0
            }
            &&& !top ==> {
                &&& focused_up_or_left(s, pick) == focused_up(s, pick).0
                &&& focused_up_or_right(s, pick) == focused_up(s, pick).0
            }
        }),
{
    assert(s.row.active_column().wf());
}

/// A column with a number has the focus, whatever layer had it before.
pub proof fn numbered_columns_get_the_focus(s: WorkspaceState, index: usize)
    requires
        s.wf(),
        s.row.columns.len() > 0,
    ensures
        !(numbered_column_focused(s, index).active is Yes),
        1 <= index <= s.row.columns.len() ==> numbered_column_focused(s, index).row.active + 1
            == index,
        index > s.row.columns.len() ==> numbered_column_focused(s, index).row.active + 1
            == s.row.columns.len(),
        numbered_column_focused(s, index).row.columns == s.row.columns,
{
}

/// A row with a number has the focus, unless a floating window has it.
pub proof fn numbered_rows_get_the_focus(s: WorkspaceState, index: u8)
    requires
        s.wf(),
        s.row.columns.len() > 0,
    ensures
        ({
            let after = numbered_row_focused(s, index);
            let len = s.row.active_column().tiles.len();
            &&& s.active is Yes ==> after == s
            &&& !(s.active is Yes) && 1 <= index <= len ==> after.row.active_column().active + 1
                == index
            &&& !(s.active is Yes) && index > len ==> after.row.active_column().active + 1 == len
            &&& after.row.active == s.row.active
            &&& same_columns(after.row, s.row)
        }),
{
    assert(s.row.active_column().wf());
}

/// The focus stays in its layer as long as there is something to go to in that direction, and
/// else goes to the other layer, if anything.
pub proof fn focus_stays_in_its_layer_if_it_can(
    s: WorkspaceState,
    hint: FocusHint,
    after: WorkspaceState,
    moved: bool,
)
    requires
        s.wf(),
        !(s.active is Yes),
        s.row.columns.len() > 0,
    ensures
        ({
            let row = s.row;
            let column = row.active_column();
            &&& focuses_left(s, hint, after, moved) && row.active > 0 ==> moved
                && only_the_row_changes(s, after) && after.row.active == row.active - 1
            &&& focuses_right(s, hint, after, moved) && row.active + 1 < row.columns.len()
                ==> moved && only_the_row_changes(s, after) && after.row.active == row.active + 1
            &&& focuses_up(s, hint, after, moved) && column.active > 0 ==> moved
                && only_the_row_changes(s, after) && after.row.active_column().active
                == column.active - 1
            &&& focuses_down(s, hint, after, moved) && column.active + 1 < column.tiles.len()
                ==> moved && only_the_row_changes(s, after) && after.row.active_column().active
                == column.active + 1
            &&& focuses_left(s, hint, after, moved) && row.active == 0 ==> crosses_layers(
                s,
                hint,
                after,
                moved,
            )
            &&& focuses_right(s, hint, after, moved) && row.active + 1 == row.columns.len()
                ==> crosses_layers(s, hint, after, moved)
            &&& focuses_up(s, hint, after, moved) && column.active == 0 ==> crosses_layers(
                s,
                hint,
                after,
                moved,
            )
            &&& focuses_down(s, hint, after, moved) && column.active + 1 == column.tiles.len()
                ==> crosses_layers(s, hint, after, moved)
        }),
{
    assert(s.row.active_column().wf());
}

/// A window that the focus crosses over to is in the other layer and is nearer than any other
/// one there. Where the focus doesn't move, nothing does.
pub proof fn focus_crosses_over_to_the_nearest(
    s: WorkspaceState,
    hint: FocusHint,
    after: WorkspaceState,
    moved: bool,
)
    requires
        s.wf(),
        crosses_layers(s, hint, after, moved),
    ensures
        !moved ==> after == s,
        moved ==> s.active_window() is Some && hint.active_shown,
        moved ==> exists|i: int|
            {
                &&& 0 <= i < hint.candidates@.len()
                &&& (#[trigger] hint.candidates@[i]).score is Some
                &&& s.float.holds(hint.candidates@[i].window) != (s.active is Yes)
                &&& after == window_activated(s, hint.candidates@[i].window).0
                &&& forall|j: int|
                    0 <= j < hint.candidates@.len() && (#[trigger] hint.candidates@[j]).score
                        is Some && s.float.holds(hint.candidates@[j].window) != (s.active is Yes)
                        ==> hint.candidates@[i].score->0 <= hint.candidates@[j].score->0
            },
{
    if moved {
        let i = choose|i: int| #[trigger]
            is_best(s, hint.candidates@, i) && after == window_activated(
                s,
                hint.candidates@[i].window,
            ).0;
        let best = hint.candidates@[i];
        assert forall|j: int|
            0 <= j < hint.candidates@.len() && (#[trigger] hint.candidates@[j]).score is Some
                && s.float.holds(hint.candidates@[j].window) != (s.active is Yes)
                implies best.score->0 <= hint.candidates@[j].score->0 by {
            assert(is_eligible(s, hint.candidates@[j]));
        }
    }
}

/// At the end of the row or of a column the focus goes round to the other end, if it can't go
/// on.
pub proof fn focus_goes_round(
    s: WorkspaceState,
    hint: FocusHint,
    around: Option<u64>,
    after: WorkspaceState,
)
    requires
        s.wf(),
        !(s.active is Yes),
        s.row.columns.len() > 0,
        !hint.active_shown,
    ensures
        ({
            let row = s.row;
            let column = row.active_column();
            &&& focuses_right_or_first(s, hint, around, after) ==> after.row.active == (
            if row.active + 1 < row.columns.len() {
                row.active + 1
            } else {
                0
            })
            &&& focuses_left_or_last(s, hint, around, after) ==> after.row.active == (
            if row.active > 0 {
                row.active - 1
            } else {
                row.columns.len() - 1
            })
            &&& focuses_down_or_top(s, hint, around, after) ==> after.row.active_column().active
                == (if column.active + 1 < column.tiles.len() {
                column.active + 1
            } else {
                0
            })
            &&& focuses_up_or_bottom(s, hint, around, after) ==> after.row.active_column().active
                == (if column.active > 0 {
                column.active - 1
            } else {
                column.tiles.len() - 1
            })
        }),
{
    assert(s.row.active_column().wf());
}

/// A window is asked for in its own layer, and the other layer isn't asked for anything.
pub proof fn windows_are_centered_in_their_layer(s: WorkspaceState, id: u64)
    requires
        s.wf(),
    ensures
        s.float.holds(id) ==> floats_are_asked(
            s,
            window_centered(s, Some(id)),
            FloatRequest::Center { window: id },
        ),
        !s.float.holds(id) && s.row.holds(id) ==> {
            &&& only_the_row_changes(s, window_centered(s, Some(id)))
            &&& window_centered(s, Some(id)).row.requests.last() is Center
        },
        s.active is Yes && s.float.active is Some ==> floats_are_asked(
            s,
            column_centered(s),
            FloatRequest::Center { window: s.float.active->0 },
        ),
        !(s.active is Yes) && s.row.columns.len() > 0 ==> row_is_asked(
            s,
            column_centered(s),
            Request::Center { window: s.row.active_tile().window.id },
        ),
{
}

/// A change of a size goes to the layer that the window is in, as it was asked for.
pub proof fn sizes_are_changed_in_the_layer_of_the_window(
    s: WorkspaceState,
    id: u64,
    change: SizeChange,
    forwards: bool,
)
    requires
        s.wf(),
    ensures
        s.float.holds(id) ==> {
            &&& floats_are_asked(
                s,
                width_changed(s, Some(id), change),
                FloatRequest::Width { window: id, request: SizeRequest::Change(change) },
            )
            &&& floats_are_asked(
                s,
                width_switched(s, Some(id), forwards),
                FloatRequest::Width { window: id, request: SizeRequest::Preset { forwards } },
            )
            &&& floats_are_asked(
                s,
                height_changed(s, Some(id), change),
                FloatRequest::Height { window: id, request: SizeRequest::Change(change) },
            )
            &&& floats_are_asked(
                s,
                height_switched(s, Some(id), forwards),
                FloatRequest::Height { window: id, request: SizeRequest::Preset { forwards } },
            )
            &&& height_left_open(s, Some(id)) == s
        },
        !s.float.holds(id) && s.row.holds(id) ==> {
            let n = s.row.requests.len() as int;
            &&& width_changed(s, Some(id), change).row.requests[n] == (Request::Width {
                window: target_window(s.row, Some(id)),
                request: SizeRequest::Change(change),
            })
            &&& width_switched(s, Some(id), forwards).row.requests[n] == (Request::Width {
                window: target_window(s.row, Some(id)),
                request: SizeRequest::Preset { forwards },
            })
            &&& height_changed(s, Some(id), change).row.requests[n] == (Request::Height {
                window: target_window(s.row, Some(id)),
                request: SizeRequest::Change(change),
            })
            &&& height_switched(s, Some(id), forwards).row.requests[n] == (Request::Height {
                window: target_window(s.row, Some(id)),
                request: SizeRequest::Preset { forwards },
            })
            &&& height_left_open(s, Some(id)).row.requests[n] == (Request::Height {
                window: target_window(s.row, Some(id)),
                request: SizeRequest::Reset,
            })
            &&& only_the_row_changes(s, width_changed(s, Some(id), change))
            &&& only_the_row_changes(s, height_changed(s, Some(id), change))
        },
{
}

/// Without a window, sizes change for the one that has the focus.
pub proof fn sizes_are_those_of_the_focus(s: WorkspaceState, change: SizeChange, forwards: bool)
    requires
        s.wf(),
    ensures
        column_width_changed(s, change) == width_changed(s, None, change),
        column_width_switched(s, forwards) == width_switched(s, None, forwards),
        s.active is Yes && s.float.active is Some ==> {
            &&& column_width_changed(s, change) == width_changed(
                s,
                Some(s.float.active->0),
                change,
            ) || !s.float.holds(s.float.active->0)
            &&& floats_are_asked(
                s,
                column_width_changed(s, change),
                FloatRequest::Width {
                    window: s.float.active->0,
                    request: SizeRequest::Change(change),
                },
            )
        },
        !(s.active is Yes) && s.row.columns.len() > 0 ==> {
            let n = s.row.requests.len() as int;
            let window = s.row.active_tile().window.id;
            &&& column_width_changed(s, change).row.requests[n] == (Request::Width {
                window,
                request: SizeRequest::Change(change),
            })
            &&& column_width_switched(s, forwards).row.requests[n] == (Request::Width {
                window,
                request: SizeRequest::Preset { forwards },
            })
            &&& column_expanded(s).row.requests[n] == (Request::Width {
                window,
                request: SizeRequest::Expand,
            })
        },
{
}

/// A column to the left of the center grows towards the right and shrinks towards the left,
/// and one to the right does it the other way round. A floating window is to the left.
pub proof fn columns_grow_towards_their_free_edge(s: WorkspaceState, step: SizeChange)
    requires
        s.wf(),
    ensures
        !(s.active is Yes) ==> {
            &&& resized_towards(s, true, step, Some(true)) == column_width_changed(s, step)
            &&& resized_towards(s, false, step, Some(false)) == column_width_changed(s, step)
            &&& resized_towards(s, true, step, Some(false)) == column_width_changed(
                s,
                negated(step),
            )
            &&& resized_towards(s, false, step, Some(true)) == column_width_changed(
                s,
                negated(step),
            )
            &&& resized_towards(s, true, step, None) == s
            &&& resized_towards(s, false, step, None) == s
        },
        s.active is Yes ==> forall|side: Option<bool>| #[trigger]
            resized_towards(s, true, step, side) == column_width_changed(s, step),
        s.active is Yes ==> forall|side: Option<bool>| #[trigger]
            resized_towards(s, false, step, side) == column_width_changed(s, negated(step)),
{
}

/// Both layers are told whether they are active: the one that has the focus is if the
/// workspace is, and the columns are not while a panel has the focus.
pub proof fn one_layer_is_active(
    s: WorkspaceState,
    is_active: bool,
    is_focused: bool,
    panel_focus: Option<FixedSide>,
    area: RectBits,
)
    requires
        s.wf(),
    ensures
        ({
            let after = refreshed(s, is_active, is_focused, panel_focus);
            let row = after.row.requests.last();
            let float = after.float.requests.last();
            &&& row is Refresh && row->Refresh_is_focused == is_focused
            &&& float is Refresh && float->Refresh_is_focused == is_focused
            &&& row->Refresh_is_active ==> !float->Refresh_is_active
            &&& float->Refresh_is_active <==> is_active && s.active is Yes
            &&& row->Refresh_is_active || float->Refresh_is_active ==> is_active
            &&& is_active && panel_focus is None ==> row->Refresh_is_active
                || float->Refresh_is_active
            &&& panel_focus is Some ==> !row->Refresh_is_active
            &&& after.row.columns == s.row.columns && after.float.tiles == s.float.tiles
        }),
        ({
            let after = prepared(s, is_active, panel_focus, area);
            let row = after.row.requests.last();
            let float = after.float.requests.last();
            &&& row is Prepare && float is Prepare
            &&& row->Prepare_is_active ==> !float->Prepare_is_active
            &&& float->Prepare_is_active <==> is_active && s.active is Yes
            &&& is_active && panel_focus is None ==> row->Prepare_is_active
                || float->Prepare_is_active
            &&& row->Prepare_is_active ==> is_active && panel_focus is None
            &&& after.effects.last() is PrepareShadow
        }),
{
}

/// What a window does is passed on to the layer that it is in.
pub proof fn windows_are_heard_of_in_their_layer(s: WorkspaceState, id: u64, serial: Option<u32>)
    requires
        s.wf(),
    ensures
        s.float.holds(id) ==> {
            &&& floats_are_asked(
                s,
                window_updated(s, id, serial),
                FloatRequest::Update { window: id, serial },
            )
            &&& floats_are_asked(s, closing_shown(s, id), FloatRequest::Close { window: id })
        },
        s.float.holds(id) && !s.row.holds(id) ==> opening_shown(s, id).1 && floats_are_asked(
            s,
            opening_shown(s, id).0,
            FloatRequest::Open { window: id },
        ),
        !s.float.holds(id) ==> {
            let updated = window_updated(s, id, serial);
            &&& only_the_row_changes(s, updated)
            &&& updated.row.requests[s.row.requests.len() as int] == (Request::Update {
                window: id,
                serial,
            })
            &&& row_is_asked(s, closing_shown(s, id), Request::Close { window: id })
        },
        s.row.holds(id) ==> opening_shown(s, id).1 && row_is_asked(
            s,
            opening_shown(s, id).0,
            Request::Open { window: id },
        ),
        !s.row.holds(id) && !s.float.holds(id) ==> opening_shown(s, id) == (s, false),
{
}

/// A window is resized in the layer that it is in, and nothing else changes.
pub proof fn windows_are_resized_in_their_layer(
    s: WorkspaceState,
    id: u64,
    edges: ResizeEdge,
    dx: u64,
    dy: u64,
)
    requires
        s.wf(),
    ensures
        s.float.holds(id) ==> {
            &&& only_floats_change(s, drag_begun(s, id, edges).0)
            &&& only_floats_change(s, dragged(s, id, dx, dy).0)
            &&& only_floats_change(s, drag_ended(s, Some(id)))
            &&& drag_begun(s, id, edges).1 ==> drag_begun(s, id, edges).0.float.resize == Some(
                (id, edges),
            )
            &&& dragged(s, id, dx, dy).1 ==> dragged(s, id, dx, dy).0.float.requests.last() == (
            FloatRequest::Drag { window: id, dx, dy })
            &&& s.float.resize == Some((id, edges)) ==> dragged(s, id, dx, dy).1
            &&& s.float.resize == Some((id, edges)) ==> drag_ended(s, Some(id)).float.resize
                is None
        },
        !s.float.holds(id) ==> {
            &&& only_the_row_changes(s, drag_begun(s, id, edges).0)
            &&& only_the_row_changes(s, dragged(s, id, dx, dy).0)
            &&& only_the_row_changes(s, drag_ended(s, Some(id)))
            &&& drag_begun(s, id, edges).1 ==> drag_begun(s, id, edges).0.row.resize == Some(
                (id, edges),
            )
            &&& dragged(s, id, dx, dy).1 ==> dragged(s, id, dx, dy).0.row.requests.last() == (
            Request::Drag { window: id, dx, dy })
            &&& s.row.resize == Some((id, edges)) ==> dragged(s, id, dx, dy).1
            &&& s.row.resize == Some((id, edges)) ==> drag_ended(s, Some(id)).row.resize is None
        },
        drag_ended(s, None).float.resize is None,
        drag_ended(s, None).row.resize is None,
{
}

/// Gestures scroll the row exactly if the row scrolls at all.
pub proof fn gestures_scroll_the_row(
    s: WorkspaceState,
    is_touchpad: bool,
    delta: u64,
    time: u64,
    touchpad: Option<bool>,
)
    ensures
        s.frame.layout.disable_carousel ==> {
            &&& scrolling_begun(s, is_touchpad) == (s, false)
            &&& scrolling_moved(s, delta, time, is_touchpad) == (s, false)
            &&& scrolling_ended(s, touchpad) == (s, false)
        },
        !s.frame.layout.disable_carousel ==> {
            &&& scrolling_begun(s, is_touchpad).1
            &&& row_is_asked(
                s,
                scrolling_begun(s, is_touchpad).0,
                Request::GestureBegin { is_touchpad },
            )
            &&& scrolling_moved(s, delta, time, is_touchpad).1
            &&& row_is_asked(
                s,
                scrolling_moved(s, delta, time, is_touchpad).0,
                Request::GestureUpdate { delta, time, is_touchpad },
            )
            &&& scrolling_ended(s, touchpad).1
            &&& row_is_asked(
                s,
                scrolling_ended(s, touchpad).0,
                Request::GestureEnd { touchpad },
            )
        },
{
}

/// Drags scroll the row at its edges exactly if the row scrolls at all.
pub proof fn drags_scroll_the_row(s: WorkspaceState, x: u64, y: u64, speed: u64)
    ensures
        s.frame.layout.disable_carousel ==> {
            &&& edge_scrolling_begun(s) == (s, false)
            &&& edge_scrolling_moved(s, x, y, speed) == (s, false)
            &&& edge_scrolling_ended(s) == (s, false)
        },
        !s.frame.layout.disable_carousel ==> {
            &&& edge_scrolling_begun(s).1
            &&& row_is_asked(s, edge_scrolling_begun(s).0, Request::DndScrollBegin)
            &&& edge_scrolling_moved(s, x, y, speed).1
            &&& row_is_asked(
                s,
                edge_scrolling_moved(s, x, y, speed).0,
                Request::DndScroll { x, y, speed },
            )
            &&& edge_scrolling_ended(s).1
            &&& row_is_asked(s, edge_scrolling_ended(s).0, Request::DndScrollEnd)
        },
{
}

/// A fullscreen window gets the whole output, a maximized one what is left of it by panels and
/// bars, and any other one its own size. Fullscreen comes first.
pub proof fn new_windows_are_sized_as_asked_for(
    s: WorkspaceState,
    fullscreen: bool,
    maximized: bool,
    size: Size,
)
    ensures
        ({
            let r = configured_size(s, fullscreen, maximized, size);
            &&& r is Exact <==> !fullscreen && !maximized
            &&& r is Exact ==> r->Exact_0 == size
            &&& fullscreen ==> r->Rounded_0 == s.frame.view_size
            &&& maximized && !fullscreen ==> r->Rounded_0 == s.frame.working_area.size
        }),
{
}

/// The room for the panels is as asked for, unless it is that much already.
pub proof fn room_for_panels_is_as_asked_for(
    s: WorkspaceState,
    left: u64,
    right: u64,
    area: RectBits,
)
    ensures
        ({
            let after = insets_set(s, left, right, area);
            let same = numbers_equal(s.frame.insets.0, left) && numbers_equal(
                s.frame.insets.1,
                right,
            );
            &&& same ==> after == s
            &&& !same ==> after.frame.insets == (left, right)
            &&& after.row.columns == s.row.columns && after.float.tiles == s.float.tiles
        }),
{
}

/// What a row is asked for after a size that may change its width: to fit its columns where it
/// doesn't scroll, or else to widen several of them, and to center them in the end.
pub open spec fn asks_to_refit(s: WorkspaceState, asked: Seq<Request>) -> bool {
    let several = s.row.columns.len() > 1;
    &&& asked.len() > 0 && asked.last() is AutoFitOrCenter
    &&& s.frame.layout.disable_carousel ==> asked.len() == 2 && asked[0] == (Request::Fit {
        animate: true,
        keep_resize: false,
    })
    &&& !s.frame.layout.disable_carousel && several ==> asked.len() == 2 && asked[0]
        is GrowToMinSpan
    &&& !s.frame.layout.disable_carousel && !several ==> asked.len() == 1
}

/// The row is fitted again after a width changed, and after a height that was set. Another
/// height only centers it.
pub proof fn rows_are_refitted(
    s: WorkspaceState,
    id: u64,
    change: SizeChange,
    forwards: bool,
)
    requires
        s.wf(),
        !s.float.holds(id),
        s.row.holds(id),
    ensures
        ({
            let n = s.row.requests.len() + 1;
            let width = width_changed(s, Some(id), change).row.requests;
            let preset = width_switched(s, Some(id), forwards).row.requests;
            let height = height_changed(s, Some(id), change).row.requests;
            let other = height_switched(s, Some(id), forwards).row.requests;
            let open = height_left_open(s, Some(id)).row.requests;
            &&& asks_to_refit(s, width.skip(n as int))
            &&& asks_to_refit(s, preset.skip(n as int))
            &&& asks_to_refit(s, height.skip(n as int))
            &&& other.len() == n + 1 && other.last() is AutoFitOrCenter
            &&& open.len() == n + 1 && open.last() is AutoFitOrCenter
            &&& width.take(s.row.requests.len() as int) == s.row.requests
            &&& height.take(s.row.requests.len() as int) == s.row.requests
        }),
{
}

/// The row is fitted again after the full width of a column was toggled.
pub proof fn rows_are_refitted_to_the_full_width(s: WorkspaceState)
    requires
        s.wf(),
        !(s.active is Yes),
        s.row.columns.len() > 0,
    ensures
        asks_to_refit(
            s,
            full_width_switched(s).row.requests.skip(s.row.requests.len() as int),
        ),
{
}

/// A window that answers a configure has its row fitted to it at once where the row doesn't
/// scroll. What is being resized is left alone.
pub proof fn rows_follow_their_windows(s: WorkspaceState, id: u64, serial: Option<u32>)
    requires
        s.wf(),
        !s.float.holds(id),
    ensures
        ({
            let asked = window_updated(s, id, serial).row.requests.skip(
                s.row.requests.len() as int,
            );
            &&& !s.frame.layout.disable_carousel ==> asked.len() == 1
            &&& s.frame.layout.disable_carousel ==> {
                &&& asked.len() == 3
                &&& asked[1] == (Request::Fit {
                    animate: false,
                    keep_resize: s.row.resize is Some,
                })
                &&& asked[2] is AutoFitOrCenter
            }
        }),
{
}

/// A window of the row that is activated is in front of the floating windows. One that only
/// gets the focus leaves them where they are.
pub proof fn activated_windows_are_in_front(s: WorkspaceState, id: u64)
    requires
        s.wf(),
        s.row.holds(id),
        !s.float.holds(id),
    ensures
        window_activated(s, id).0.active is No,
        window_focused(s, id).0.active is No <==> s.active is No,
        !(window_focused(s, id).0.active is Yes),
        window_activated(s, id).1 && window_focused(s, id).1,
        window_activated(s, id).0.row == window_focused(s, id).0.row,
{
}

} // verus!
