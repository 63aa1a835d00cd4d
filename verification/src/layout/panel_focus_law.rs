//! The focus of the panels, and what they hear of their windows.

use vstd::prelude::*;
use crate::ipc::SizeChange;
use crate::layout::fixed_panels::PanelsState;
use crate::layout::fixed_strip::FixedSide;
use crate::layout::geometry::{ResizeEdge, ViewGeometry};
use crate::layout::moves_law::same_columns;
use crate::layout::panel_moves::{
    focused_column_leaves, focused_tile_leaves, innermost_column_leaves, innermost_focused,
    panel_closing_shown, panel_column_added, panel_consumed, panel_drag_begins, panel_drag_ended,
    panel_drags, panel_expelled, panel_focuses_down, panel_focuses_left, panel_focuses_right,
    panel_focuses_up, panel_fullscreen_set, panel_height_changed, panel_height_left_open,
    panel_height_switched, panel_maximized_set, panel_moved_over, panel_opening_shown,
    panel_regrouped_left, panel_regrouped_right, panel_swapped, panel_tile_added,
    panel_tile_added_next_to, panel_width_changed, panel_width_switched, panel_window_activated,
    panel_window_leaves, panel_window_updated, panels_configured, panels_prepared, panels_refreshed,
};
use crate::layout::regroup_law::{
    bottom_window_is_expelled, first_window_is_consumed, is_alone, is_at_the_bottom,
    sharing_windows_leave_to_the_left, sharing_windows_leave_to_the_right,
    single_windows_join_the_left, single_windows_join_the_right, swapped_windows_change_places,
    windows_move_over,
};
use crate::layout::row::{
    column_of, column_of_finds_the_first, has_target, must_leave_to_cover, remove_window,
    target_position, target_window, tile_of_finds_the_first, Request, ScrollDirection, SizeRequest,
};
use crate::layout::tile::{Column, ColumnWidth, RemovedTile, Tile};

verus! {

/// The other side.
pub open spec fn other(side: FixedSide) -> FixedSide {
    if side is Left {
        FixedSide::Right
    } else {
        FixedSide::Left
    }
}

/// Whether nothing but the panel at a side changed.
pub open spec fn only_this_panel_changes(
    s: PanelsState,
    after: PanelsState,
    side: FixedSide,
) -> bool {
    &&& after.strip(other(side)) == s.strip(other(side))
    &&& after.strip(side).side == s.strip(side).side
    &&& after.active == s.active
    &&& after.geometry == s.geometry
}

/// Whether a panel was asked for something, and nothing else changed.
pub open spec fn panel_is_asked(
    s: PanelsState,
    after: PanelsState,
    side: FixedSide,
    request: Request,
) -> bool {
    &&& only_this_panel_changes(s, after, side)
    &&& after.strip(side).row.requests == s.strip(side).row.requests.push(request)
    &&& after.strip(side).row.columns == s.strip(side).row.columns
    &&& after.strip(side).row.active == s.strip(side).row.active
}

/// A window is looked for in both panels.
pub proof fn windows_are_found_in_either_panel(s: PanelsState, id: u64)
    ensures
        s.holds(id) <==> s.side_of(id) is Some,
        s.side_of(id) matches Some(side) ==> s.strip(side).row.holds(id),
        s.left.row.holds(id) ==> s.side_of(id) == Some(FixedSide::Left),
        s.right.row.holds(id) && !s.left.row.holds(id) ==> s.side_of(id) == Some(FixedSide::Right),
{
}

/// The panel at the left is the left one, and each is flush with its own edge.
pub proof fn panels_are_at_their_side(s: PanelsState)
    requires
        s.wf(),
    ensures
        s.strip(FixedSide::Left) == s.left,
        s.strip(FixedSide::Right) == s.right,
        s.left.row.anchor is LeftEdge,
        s.right.row.anchor is RightEdge,
{
}

/// What faces the columns of the workspace is the last column of the left panel and the first
/// one of the right panel.
pub proof fn panels_face_each_other(s: PanelsState, column: Column)
    requires
        s.wf(),
    ensures
        ({
            let left = panel_column_added(s, FixedSide::Left, column);
            let right = panel_column_added(s, FixedSide::Right, column);
            &&& left.left.row.columns.last() == column@
            &&& left.left.row.columns.drop_last() == s.left.row.columns
            &&& right.right.row.columns[0] == column@
            &&& right.right.row.columns.skip(1) == s.right.row.columns
            &&& left.left.row.active + 1 == left.left.row.columns.len()
            &&& right.right.row.active == 0
            &&& only_this_panel_changes(s, left, FixedSide::Left)
            &&& only_this_panel_changes(s, right, FixedSide::Right)
        }),
{
    let left = panel_column_added(s, FixedSide::Left, column);
    let right = panel_column_added(s, FixedSide::Right, column);
    assert(left.left.row.columns.drop_last() =~= s.left.row.columns);
    assert(right.right.row.columns.skip(1) =~= s.right.row.columns);
}

/// A window that comes into a panel is alone in the column that faces the others, with the
/// width that it has.
pub proof fn windows_come_in_at_the_inner_edge(
    s: PanelsState,
    side: FixedSide,
    tile: Tile,
    width: ColumnWidth,
    is_full_width: bool,
)
    requires
        s.wf(),
    ensures
        ({
            let after = panel_tile_added(s, side, tile, width, is_full_width);
            let column = after.strip(side).row.active_column();
            &&& only_this_panel_changes(s, after, side)
            &&& column.tiles.len() == 1 && column.tiles[0].window == tile.window
            &&& column.width == width && column.full_width == is_full_width
            &&& side is Left ==> after.left.row.active == s.left.row.columns.len()
            &&& side is Right ==> after.right.row.active == 0
        }),
{
}

/// The focus of a panel on its inner edge is on the last column of the left panel or on the
/// first one of the right panel.
pub proof fn inner_edge_gets_the_focus(s: PanelsState)
    requires
        s.wf(),
    ensures
        innermost_focused(s, FixedSide::Left).1 <==> s.left.row.columns.len() > 0,
        innermost_focused(s, FixedSide::Right).1 <==> s.right.row.columns.len() > 0,
        s.left.row.columns.len() > 0 ==> innermost_focused(s, FixedSide::Left).0.left.row.active
            + 1 == s.left.row.columns.len(),
        s.right.row.columns.len() > 0 ==> innermost_focused(
            s,
            FixedSide::Right,
        ).0.right.row.active == 0,
        only_this_panel_changes(s, innermost_focused(s, FixedSide::Left).0, FixedSide::Left),
        only_this_panel_changes(s, innermost_focused(s, FixedSide::Right).0, FixedSide::Right),
{
}

/// The column that leaves a panel at its inner edge is the last one of the left panel or the
/// first one of the right panel.
pub proof fn inner_columns_leave(
    s: PanelsState,
    side: FixedSide,
    after: PanelsState,
    r: Option<Column>,
)
    requires
        s.wf(),
        innermost_column_leaves(s, side, after, r),
    ensures
        r is None <==> s.strip(side).row.columns.len() == 0,
        r is None ==> after == s,
        r is Some ==> only_this_panel_changes(s, after, side),
        r is Some && side is Left ==> {
            &&& r->0@ == s.left.row.columns.last()
            &&& after.left.row.columns == s.left.row.columns.drop_last()
        },
        r is Some && side is Right ==> {
            &&& r->0@ == s.right.row.columns[0]
            &&& after.right.row.columns == s.right.row.columns.skip(1)
        },
{
    if r is Some {
        if side is Left {
            assert(after.left.row.columns =~= s.left.row.columns.drop_last());
        } else {
            assert(after.right.row.columns =~= s.right.row.columns.skip(1));
        }
    }
}

/// The focus goes one column over in the panel that has it, if there is one, and no window
/// moves. Without a panel that has it, nothing happens.
pub proof fn panel_focus_goes_aside(s: PanelsState, after: PanelsState, moved: bool)
    requires
        s.wf(),
    ensures
        panel_focuses_left(s, after, moved) || panel_focuses_right(s, after, moved) ==> {
            &&& s.active is None ==> !moved
            &&& !moved ==> after == s
            &&& s.active matches Some(side) ==> only_this_panel_changes(s, after, side)
                && after.strip(side).row.columns == s.strip(side).row.columns
        },
        panel_focuses_left(s, after, moved) ==> (s.active matches Some(side) ==> {
            &&& moved <==> s.strip(side).row.active > 0
            &&& moved ==> after.strip(side).row.active == s.strip(side).row.active - 1
        }),
        panel_focuses_right(s, after, moved) ==> (s.active matches Some(side) ==> {
            &&& moved <==> s.strip(side).row.active + 1 < s.strip(side).row.columns.len()
            &&& moved ==> after.strip(side).row.active == s.strip(side).row.active + 1
        }),
{
}

/// The focus goes one row up or down in the panel that has it, if there is one.
pub proof fn panel_focus_goes_up_and_down(s: PanelsState, after: PanelsState, moved: bool)
    requires
        s.wf(),
        s.active is Some,
        s.strip(s.active->0).row.columns.len() > 0,
    ensures
        ({
            let side = s.active->0;
            let column = s.strip(side).row.active_column();
            &&& panel_focuses_up(s, after, moved) || panel_focuses_down(s, after, moved)
                ==> only_this_panel_changes(s, after, side) && same_columns(
                after.strip(side).row,
                s.strip(side).row,
            ) && after.strip(side).row.active == s.strip(side).row.active
            &&& panel_focuses_up(s, after, moved) ==> (moved <==> column.active > 0)
            &&& panel_focuses_down(s, after, moved) ==> (moved <==> column.active + 1
                < column.tiles.len())
            &&& panel_focuses_up(s, after, moved) && moved ==> after.strip(
                side,
            ).row.active_column().active == column.active - 1
            &&& panel_focuses_down(s, after, moved) && moved ==> after.strip(
                side,
            ).row.active_column().active == column.active + 1
        }),
{
    let side = s.active->0;
    assert(s.strip(side).row.active_column().wf());
}

/// A window that is activated has the focus in its panel, and its panel has the focus.
pub proof fn activated_panel_windows_have_the_focus(s: PanelsState, id: u64)
    requires
        s.wf(),
    ensures
        ({
            let (after, found) = panel_window_activated(s, id);
            &&& found <==> s.holds(id)
            &&& !found ==> after == s
            &&& found ==> after.active is Some && after.active == s.side_of(id)
            &&& found ==> after.strip(after.active->0).row.active_tile().holds(id)
            &&& found ==> after.strip(other(after.active->0)) == s.strip(other(after.active->0))
            &&& found ==> after.focus_valid()
        }),
{
    if let Some(side) = s.side_of(id) {
        let row = s.strip(side).row;
        column_of_finds_the_first(row, id);
        let c = column_of(row.columns, id);
        tile_of_finds_the_first(row.columns[c], id);
        assert(row.columns[c].wf());
    }
}

/// A window that is closed leaves its panel and no other one. Its panel loses the focus if it
/// has it and becomes empty, and not otherwise.
pub proof fn panels_lose_the_focus_with_their_last_window(
    s: PanelsState,
    id: u64,
    after: PanelsState,
    r: Option<RemovedTile>,
)
    requires
        s.wf(),
        s.focus_valid(),
        panel_window_leaves(s, id, after, r),
    ensures
        r is Some <==> s.holds(id),
        r is None ==> after == s,
        s.side_of(id) matches Some(side) ==> {
            &&& after.strip(other(side)) == s.strip(other(side))
            &&& after.strip(side).row.columns == remove_window(s.strip(side).row, id).columns
            &&& s.active != Some(side) ==> after.active == s.active
            &&& s.active == Some(side) ==> (after.active is None <==> after.strip(
                side,
            ).row.columns.len() == 0)
            &&& after.active is Some ==> after.active == s.active
        },
        after.focus_valid(),
{
}

/// What leaves a panel without being named is what has the focus there.
pub proof fn focused_windows_leave_their_panel(
    s: PanelsState,
    after: PanelsState,
    tile: Option<RemovedTile>,
    column: Option<Column>,
)
    requires
        s.wf(),
        s.focus_valid(),
    ensures
        focused_tile_leaves(s, after, tile) ==> {
            &&& tile is Some <==> s.active is Some
            &&& tile is None ==> after == s
            &&& tile is Some ==> tile->0.tile.window == s.strip(
                s.active->0,
            ).row.active_tile().window
            &&& tile is Some ==> after.strip(other(s.active->0)) == s.strip(other(s.active->0))
            &&& after.focus_valid()
        },
        focused_column_leaves(s, after, column) ==> {
            &&& column is Some <==> s.active is Some
            &&& column is None ==> after == s
            &&& column is Some ==> column->0@ == s.strip(s.active->0).row.active_column()
            &&& column is Some ==> after.strip(s.active->0).row.columns.len() + 1 == s.strip(
                s.active->0,
            ).row.columns.len()
            &&& column is Some ==> after.strip(other(s.active->0)) == s.strip(other(s.active->0))
            &&& after.focus_valid()
        },
{
}

/// Both panels are told whether they are active, and the one that has the focus is the only
/// one that is.
pub proof fn one_panel_is_active(s: PanelsState, focus: Option<FixedSide>, is_focused: bool)
    ensures
        ({
            let after = panels_refreshed(s, focus, is_focused);
            let left = after.left.row.requests.last();
            let right = after.right.row.requests.last();
            &&& left is Refresh && right is Refresh
            &&& left->Refresh_is_active <==> focus == Some(FixedSide::Left)
            &&& right->Refresh_is_active <==> focus == Some(FixedSide::Right)
            &&& !(left->Refresh_is_active && right->Refresh_is_active)
            &&& left->Refresh_is_focused == is_focused && right->Refresh_is_focused == is_focused
            &&& after.left.row.columns == s.left.row.columns
            &&& after.right.row.columns == s.right.row.columns
            &&& after.active == s.active
        }),
        ({
            let after = panels_prepared(s, focus);
            let left = after.left.row.requests.last();
            let right = after.right.row.requests.last();
            &&& left is Prepare && right is Prepare
            &&& left->Prepare_is_active <==> focus == Some(FixedSide::Left)
            &&& right->Prepare_is_active <==> focus == Some(FixedSide::Right)
            &&& after.active == s.active
        }),
{
}

/// What a window does is passed on to the panel that it is in.
pub proof fn panel_windows_are_heard_of(s: PanelsState, id: u64, serial: Option<u32>)
    requires
        s.wf(),
    ensures
        s.side_of(id) matches Some(side) ==> {
            &&& panel_is_asked(
                s,
                panel_window_updated(s, id, serial).0,
                side,
                Request::Update { window: id, serial },
            )
            &&& panel_is_asked(
                s,
                panel_opening_shown(s, id).0,
                side,
                Request::Open { window: id },
            )
            &&& panel_is_asked(s, panel_closing_shown(s, id), side, Request::Close { window: id })
        },
        panel_window_updated(s, id, serial).1 <==> s.left.row.holds(id) || s.right.row.holds(id),
        panel_opening_shown(s, id).1 <==> s.left.row.holds(id) || s.right.row.holds(id),
        !s.left.row.holds(id) && !s.right.row.holds(id) ==> {
            &&& panel_window_updated(s, id, serial).0 == s
            &&& panel_opening_shown(s, id).0 == s
            &&& panel_closing_shown(s, id) == s
        },
{
}

/// The size of a window changes in its panel, as it was asked for. Without a window it is the
/// one that has the focus.
pub proof fn panel_sizes_change_as_asked_for(
    s: PanelsState,
    window: Option<u64>,
    change: SizeChange,
    forwards: bool,
    side: FixedSide,
)
    requires
        s.wf(),
        s.target(window) == Some(side),
        has_target(s.strip(side).row, window),
    ensures
        ({
            let id = target_window(s.strip(side).row, window);
            &&& panel_is_asked(
                s,
                panel_width_changed(s, window, change),
                side,
                Request::Width { window: id, request: SizeRequest::Change(change) },
            )
            &&& panel_is_asked(
                s,
                panel_width_switched(s, window, forwards),
                side,
                Request::Width { window: id, request: SizeRequest::Preset { forwards } },
            )
            &&& panel_is_asked(
                s,
                panel_height_changed(s, window, change),
                side,
                Request::Height { window: id, request: SizeRequest::Change(change) },
            )
            &&& panel_is_asked(
                s,
                panel_height_switched(s, window, forwards),
                side,
                Request::Height { window: id, request: SizeRequest::Preset { forwards } },
            )
            &&& panel_is_asked(
                s,
                panel_height_left_open(s, window),
                side,
                Request::Height { window: id, request: SizeRequest::Reset },
            )
        }),
        window is None ==> s.active == Some(side),
        window matches Some(id) ==> s.side_of(id) == Some(side),
{
}

/// Windows of a panel leave their column for a new one, or join the one that is there, at the
/// side that is asked for. The other panel stays as it is.
pub proof fn panel_windows_are_regrouped(s: PanelsState, window: Option<u64>, side: FixedSide)
    requires
        s.wf(),
        s.target(window) == Some(side),
        has_target(s.strip(side).row, window),
    ensures
        ({
            let row = s.strip(side).row;
            let (c, t) = target_position(row, window);
            let left = panel_regrouped_left(s, window).strip(side).row;
            let right = panel_regrouped_right(s, window).strip(side).row;
            let moved = row.columns[c].tiles[t].window;
            &&& only_this_panel_changes(s, panel_regrouped_left(s, window), side)
            &&& only_this_panel_changes(s, panel_regrouped_right(s, window), side)
            &&& row.columns[c].tiles.len() > 1 ==> is_alone(left.columns[c], moved)
            &&& row.columns[c].tiles.len() > 1 ==> is_alone(right.columns[c + 1], moved)
            &&& row.columns[c].tiles.len() == 1 && c > 0 ==> is_at_the_bottom(
                left.columns[c - 1],
                moved,
                row.columns[c - 1].tiles,
            )
            &&& row.columns[c].tiles.len() == 1 && c + 1 < row.columns.len() ==> is_at_the_bottom(
                right.columns[c],
                moved,
                row.columns[c + 1].tiles,
            )
            &&& left.active_tile().window == row.active_tile().window
            &&& right.active_tile().window == row.active_tile().window
        }),
{
    let row = s.strip(side).row;
    let (c, t) = target_position(row, window);
    if let Some(id) = window {
        column_of_finds_the_first(row, id);
    }
    assert(row.columns[c].wf());
    if row.columns[c].tiles.len() > 1 {
        sharing_windows_leave_to_the_left(row, window);
        sharing_windows_leave_to_the_right(row, window);
    } else {
        single_windows_join_the_left(row, window);
        single_windows_join_the_right(row, window);
    }
}

/// The focused column of the panel that has the focus takes the next window, gives its last
/// one away, and its window changes places with the one at the side that is asked for.
pub proof fn panel_columns_take_and_give_windows(s: PanelsState, direction: ScrollDirection)
    requires
        s.wf(),
        s.active is Some,
        s.strip(s.active->0).row.columns.len() > 0,
    ensures
        ({
            let side = s.active->0;
            let row = s.strip(side).row;
            let tiles = row.active_column().tiles;
            let taken = panel_consumed(s).strip(side).row;
            let given = panel_expelled(s).strip(side).row;
            let swapped = panel_swapped(s, direction).strip(side).row;
            &&& only_this_panel_changes(s, panel_consumed(s), side)
            &&& only_this_panel_changes(s, panel_expelled(s), side)
            &&& only_this_panel_changes(s, panel_swapped(s, direction), side)
            &&& row.active + 1 < row.columns.len() ==> is_at_the_bottom(
                taken.active_column(),
                row.columns[row.active + 1].tiles[0].window,
                tiles,
            )
            &&& tiles.len() > 1 ==> is_alone(given.columns[row.active + 1], tiles.last().window)
            &&& direction is Left && row.active > 0 ==> swapped.active == row.active - 1
            &&& direction is Right && row.active + 1 < row.columns.len() ==> swapped.active
                == row.active + 1
            &&& swapped.active_tile().window == row.active_tile().window
        }),
{
    let row = s.strip(s.active->0).row;
    first_window_is_consumed(row);
    bottom_window_is_expelled(row);
    swapped_windows_change_places(row, direction);
}

/// The focused window of a panel moves over to the column at the side that is asked for, if
/// there is one, and is in its bottom row.
pub proof fn panel_windows_move_over(s: PanelsState, side: FixedSide, to_left: bool)
    requires
        s.wf(),
        s.strip(side).row.columns.len() > 0,
    ensures
        ({
            let row = s.strip(side).row;
            let (after, moved) = panel_moved_over(s, side, to_left);
            let to = if to_left {
                row.active - 1
            } else {
                row.active + 1
            };
            &&& only_this_panel_changes(s, after, side)
            &&& moved <==> 0 <= to < row.columns.len()
            &&& moved ==> is_at_the_bottom(
                after.strip(side).row.active_column(),
                row.active_tile().window,
                row.columns[to].tiles,
            )
        }),
{
    windows_move_over(s.strip(side).row, to_left);
}

/// A window that comes in next to another one is in a column of its own on its right.
pub proof fn windows_come_in_next_to_others(
    s: PanelsState,
    side: FixedSide,
    right_of: u64,
    tile: Tile,
    activate: bool,
    width: ColumnWidth,
    is_full_width: bool,
)
    requires
        s.wf(),
        s.strip(side).row.holds(right_of),
    ensures
        ({
            let row = s.strip(side).row;
            let after = panel_tile_added_next_to(
                s,
                side,
                right_of,
                tile,
                activate,
                width,
                is_full_width,
            );
            let at = column_of(row.columns, right_of);
            &&& only_this_panel_changes(s, after, side)
            &&& row.columns[at].holds(right_of)
            &&& after.strip(side).row.columns[at] == row.columns[at]
            &&& is_alone(after.strip(side).row.columns[at + 1], tile.window)
            &&& activate ==> after.strip(side).row.active == at + 1
            &&& !activate ==> after.strip(side).row.active_column() == row.active_column()
        }),
{
    column_of_finds_the_first(s.strip(side).row, right_of);
}

/// A window is resized in its panel, and nothing else changes.
pub proof fn panel_windows_are_resized(
    s: PanelsState,
    id: u64,
    edges: ResizeEdge,
    dx: u64,
    dy: u64,
    after: PanelsState,
    r: bool,
)
    requires
        s.wf(),
    ensures
        s.side_of(id) matches Some(side) ==> {
            &&& panel_drag_begins(s, id, edges, after, r) || panel_drags(s, id, dx, dy, after, r)
                ==> only_this_panel_changes(s, after, side) && after.strip(side).row.columns
                == s.strip(side).row.columns && (!r ==> after == s)
            &&& panel_drag_begins(s, id, edges, after, r) && r ==> after.strip(side).row.resize
                == Some((id, edges))
            &&& panel_drags(s, id, dx, dy, after, r) && s.strip(side).row.resize == Some(
                (id, edges),
            ) ==> r && panel_is_asked(s, after, side, Request::Drag { window: id, dx, dy })
            &&& s.strip(side).row.resize == Some((id, edges)) ==> panel_drag_ended(
                s,
                Some(id),
            ).strip(side).row.resize is None
            &&& only_this_panel_changes(s, panel_drag_ended(s, Some(id)), side)
        },
        panel_drag_ended(s, None).left.row.resize is None,
        panel_drag_ended(s, None).right.row.resize is None,
{
}

/// A window of a panel is asked to be fullscreen or maximized in its own panel, if it is in
/// one, and the other panel stays as it is.
pub proof fn panel_windows_cover_as_asked_for(s: PanelsState, id: u64, on: bool)
    requires
        s.wf(),
    ensures
        panel_fullscreen_set(s, id, on).1 <==> s.left.row.holds(id) || s.right.row.holds(id),
        panel_maximized_set(s, id, on).1 <==> s.left.row.holds(id) || s.right.row.holds(id),
        s.side_of(id) is None ==> panel_fullscreen_set(s, id, on).0 == s && panel_maximized_set(
            s,
            id,
            on,
        ).0 == s,
        s.side_of(id) matches Some(side) ==> {
            let row = s.strip(side).row;
            let c = column_of(row.columns, id);
            &&& only_this_panel_changes(s, panel_fullscreen_set(s, id, on).0, side)
            &&& only_this_panel_changes(s, panel_maximized_set(s, id, on).0, side)
            &&& !must_leave_to_cover(row.columns[c]) ==> {
                &&& panel_fullscreen_set(s, id, on).0.strip(side).row.columns[c].fullscreen == on
                &&& panel_maximized_set(s, id, on).0.strip(side).row.columns[c].maximized == on
                &&& panel_fullscreen_set(s, id, on).0.strip(side).row.columns[c].maximized
                    == row.columns[c].maximized
                &&& panel_maximized_set(s, id, on).0.strip(side).row.columns[c].fullscreen
                    == row.columns[c].fullscreen
            }
        },
{
    if let Some(side) = s.side_of(id) {
        column_of_finds_the_first(s.strip(side).row, id);
    }
}

/// Both panels are on the output that they are told, and keep their windows and their focus.
pub proof fn panels_are_on_their_output(s: PanelsState, geometry: ViewGeometry)
    ensures
        ({
            let after = panels_configured(s, geometry);
            &&& after.geometry == geometry
            &&& after.left.row.geometry == geometry && after.right.row.geometry == geometry
            &&& after.left.row.columns == s.left.row.columns
            &&& after.right.row.columns == s.right.row.columns
            &&& after.active == s.active
        }),
{
}

} // verus!
