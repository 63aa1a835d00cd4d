//! What it does to the panels to move their focus and their windows.

use vstd::prelude::*;
use crate::ipc::SizeChange;
use crate::layout::fixed_panels::PanelsState;
use crate::layout::fixed_strip::{
    inner_edge, strip_add_column, strip_focus_innermost, strip_focus_left, strip_focus_right,
    FixedSide, StripState,
};
use crate::layout::geometry::{ResizeEdge, ViewGeometry};
use crate::layout::row::{
    activate_window, column_of, consume_into_column, consume_or_expel_left, consume_or_expel_right,
    expel_from_column, focus_down, focus_up, insert_column, move_to_neighbor_row, remove_column,
    remove_tile_at, remove_window, removed_tile, removed_window, request_height, request_width,
    resize_begin, resize_end, resize_update, set_fullscreen, set_maximized, swap_window,
    with_request, Request, ScrollDirection, SizeRequest, SpaceState,
};
use crate::layout::tile::{single_tile_column, Column, ColumnWidth, RemovedTile, Tile};

verus! {

/// Both panels told to prepare what they draw.
pub open spec fn panels_prepared(s: PanelsState, focus: Option<FixedSide>) -> PanelsState {
    PanelsState {
        left: StripState {
            row: with_request(
                s.left.row,
                Request::Prepare { is_active: focus == Some(FixedSide::Left) },
            ),
            ..s.left
        },
        right: StripState {
            row: with_request(
                s.right.row,
                Request::Prepare { is_active: focus == Some(FixedSide::Right) },
            ),
            ..s.right
        },
        ..s
    }
}

/// Both panels on an output like this.
pub open spec fn panels_configured(s: PanelsState, geometry: ViewGeometry) -> PanelsState {
    PanelsState {
        left: s.left.with_row(SpaceState { geometry, ..s.left.row }),
        right: s.right.with_row(SpaceState { geometry, ..s.right.row }),
        geometry,
        ..s
    }
}

/// The panel of a window told of a configure.
pub open spec fn panel_window_updated(
    s: PanelsState,
    id: u64,
    serial: Option<u32>,
) -> (PanelsState, bool) {
    (
        match s.side_of(id) {
            Some(side) => s.with_row(
                side,
                with_request(s.strip(side).row, Request::Update { window: id, serial }),
            ),
            None => s,
        },
        s.holds(id),
    )
}

/// Both panels told whether they are active.
pub open spec fn panels_refreshed(
    s: PanelsState,
    focus: Option<FixedSide>,
    is_focused: bool,
) -> PanelsState {
    PanelsState {
        left: StripState {
            row: with_request(
                s.left.row,
                Request::Refresh { is_active: focus == Some(FixedSide::Left), is_focused },
            ),
            ..s.left
        },
        right: StripState {
            row: with_request(
                s.right.row,
                Request::Refresh { is_active: focus == Some(FixedSide::Right), is_focused },
            ),
            ..s.right
        },
        ..s
    }
}

/// The panel of a window told to show that it opens.
pub open spec fn panel_opening_shown(s: PanelsState, id: u64) -> (PanelsState, bool) {
    (
        match s.side_of(id) {
            Some(side) => s.with_strip(
                side,
                StripState {
                    row: with_request(s.strip(side).row, Request::Open { window: id }),
                    ..s.strip(side)
                },
            ),
            None => s,
        },
        s.holds(id),
    )
}

/// The panel of a window told to show that it closes.
pub open spec fn panel_closing_shown(s: PanelsState, id: u64) -> PanelsState {
    match s.side_of(id) {
        Some(side) => s.with_row(
            side,
            with_request(s.strip(side).row, Request::Close { window: id }),
        ),
        None => s,
    }
}

/// The focus in the panel of a window, and on it.
pub open spec fn panel_window_activated(s: PanelsState, id: u64) -> (PanelsState, bool) {
    (
        match s.side_of(id) {
            Some(side) => PanelsState {
                active: Some(side),
                ..s.with_row(side, activate_window(s.strip(side).row, id))
            },
            None => s,
        },
        s.holds(id),
    )
}

/// Whether a window is taken out of its panel.
pub open spec fn panel_window_leaves(
    s: PanelsState,
    id: u64,
    after: PanelsState,
    r: Option<RemovedTile>,
) -> bool {
    match s.side_of(id) {
        Some(side) => {
            let rest = s.with_row(side, remove_window(s.strip(side).row, id));
            &&& r == Some(removed_window(s.strip(side).row, id))
            &&& after == (if s.active == Some(side) {
                rest.unfocused_if_empty()
            } else {
                rest
            })
        },
        None => r is None && after == s,
    }
}

/// Whether the focused tile is taken out of its panel.
pub open spec fn focused_tile_leaves(
    s: PanelsState,
    after: PanelsState,
    r: Option<RemovedTile>,
) -> bool {
    match s.active {
        Some(side) => {
            let row = s.strip(side).row;
            if s.strip(side).is_empty() {
                r is None && after == s
            } else {
                let (c, t) = (row.active, row.active_column().active);
                &&& r == Some(removed_tile(row, c, t))
                &&& after == s.with_row(side, remove_tile_at(row, c, t)).unfocused_if_empty()
            }
        },
        None => r is None && after == s,
    }
}

/// Whether the focused column is taken out of its panel.
pub open spec fn focused_column_leaves(
    s: PanelsState,
    after: PanelsState,
    r: Option<Column>,
) -> bool {
    match s.active {
        Some(side) => {
            let row = s.strip(side).row;
            if s.strip(side).is_empty() {
                r is None && after == s
            } else {
                &&& r is Some
                &&& r->0@ == row.active_column()
                &&& after == s.with_row(side, remove_column(row, row.active)).unfocused_if_empty()
            }
        },
        None => r is None && after == s,
    }
}

/// A window of a panel asked to be fullscreen, or not.
pub open spec fn panel_fullscreen_set(
    s: PanelsState,
    id: u64,
    is_fullscreen: bool,
) -> (PanelsState, bool) {
    (
        match s.side_of(id) {
            Some(side) => s.with_row(side, set_fullscreen(s.strip(side).row, id, is_fullscreen)),
            None => s,
        },
        s.holds(id),
    )
}

/// A window of a panel asked to be maximized, or not.
pub open spec fn panel_maximized_set(
    s: PanelsState,
    id: u64,
    maximize: bool,
) -> (PanelsState, bool) {
    (
        match s.side_of(id) {
            Some(side) => s.with_row(side, set_maximized(s.strip(side).row, id, maximize)),
            None => s,
        },
        s.holds(id),
    )
}

/// A window of a panel with another width.
pub open spec fn panel_width_changed(
    s: PanelsState,
    window: Option<u64>,
    change: SizeChange,
) -> PanelsState {
    match s.target(window) {
        Some(side) => s.with_row(
            side,
            request_width(s.strip(side).row, window, SizeRequest::Change(change)),
        ),
        None => s,
    }
}

/// A window of a panel with another height.
pub open spec fn panel_height_changed(
    s: PanelsState,
    window: Option<u64>,
    change: SizeChange,
) -> PanelsState {
    match s.target(window) {
        Some(side) => s.with_row(
            side,
            request_height(s.strip(side).row, window, SizeRequest::Change(change)),
        ),
        None => s,
    }
}

/// A window of a panel with the height that it gets by itself.
pub open spec fn panel_height_left_open(s: PanelsState, window: Option<u64>) -> PanelsState {
    match s.target(window) {
        Some(side) => s.with_row(
            side,
            request_height(s.strip(side).row, window, SizeRequest::Reset),
        ),
        None => s,
    }
}

/// A window of a panel with the next preset width, or the previous one.
pub open spec fn panel_width_switched(
    s: PanelsState,
    window: Option<u64>,
    forwards: bool,
) -> PanelsState {
    match s.target(window) {
        Some(side) => s.with_row(
            side,
            request_width(s.strip(side).row, window, SizeRequest::Preset { forwards }),
        ),
        None => s,
    }
}

/// A window of a panel with the next preset height, or the previous one.
pub open spec fn panel_height_switched(
    s: PanelsState,
    window: Option<u64>,
    forwards: bool,
) -> PanelsState {
    match s.target(window) {
        Some(side) => s.with_row(
            side,
            request_height(s.strip(side).row, window, SizeRequest::Preset { forwards }),
        ),
        None => s,
    }
}

/// A window of a panel in a column of its own on the left, or in the column there.
pub open spec fn panel_regrouped_left(s: PanelsState, window: Option<u64>) -> PanelsState {
    match s.target(window) {
        Some(side) => s.with_row(side, consume_or_expel_left(s.strip(side).row, window)),
        None => s,
    }
}

/// A window of a panel in a column of its own on the right, or in the column there.
pub open spec fn panel_regrouped_right(s: PanelsState, window: Option<u64>) -> PanelsState {
    match s.target(window) {
        Some(side) => s.with_row(side, consume_or_expel_right(s.strip(side).row, window)),
        None => s,
    }
}

/// The next window on the right in the focused column.
pub open spec fn panel_consumed(s: PanelsState) -> PanelsState {
    match s.target(None) {
        Some(side) => s.with_row(side, consume_into_column(s.strip(side).row)),
        None => s,
    }
}

/// The bottom window of the focused column in a column of its own.
pub open spec fn panel_expelled(s: PanelsState) -> PanelsState {
    match s.target(None) {
        Some(side) => s.with_row(side, expel_from_column(s.strip(side).row)),
        None => s,
    }
}

/// The focused window in the place of the one next to it.
pub open spec fn panel_swapped(s: PanelsState, direction: ScrollDirection) -> PanelsState {
    match s.target(None) {
        Some(side) => s.with_row(side, swap_window(s.strip(side).row, direction)),
        None => s,
    }
}

/// Whether a window of a panel begins to be resized.
pub open spec fn panel_drag_begins(
    s: PanelsState,
    id: u64,
    edges: ResizeEdge,
    after: PanelsState,
    r: bool,
) -> bool {
    match s.side_of(id) {
        Some(side) => {
            let row = s.strip(side).row;
            &&& r == resize_begin(row, id, edges).1
            &&& after == s.with_strip(
                side,
                StripState {
                    row: resize_begin(row, id, edges).0,
                    ..s.strip(side)
                },
            )
        },
        None => !r && after == s,
    }
}

/// Whether a window of a panel is resized by this much.
pub open spec fn panel_drags(
    s: PanelsState,
    id: u64,
    dx: u64,
    dy: u64,
    after: PanelsState,
    r: bool,
) -> bool {
    match s.side_of(id) {
        Some(side) => {
            let row = s.strip(side).row;
            &&& r == resize_update(row, id, dx, dy).1
            &&& after == (if r {
                s.with_row(side, resize_update(row, id, dx, dy).0)
            } else {
                s
            })
        },
        None => !r && after == s,
    }
}

/// A window of a panel not being resized any more.
pub open spec fn panel_drag_ended(s: PanelsState, window: Option<u64>) -> PanelsState {
    match window {
        Some(id) => match s.side_of(id) {
            Some(side) => s.with_row(side, resize_end(s.strip(side).row, window)),
            None => s,
        },
        None => PanelsState {
            left: s.left.with_row(resize_end(s.left.row, None)),
            right: s.right.with_row(resize_end(s.right.row, None)),
            ..s
        },
    }
}

/// Whether the focus goes one column to the left in its panel.
pub open spec fn panel_focuses_left(s: PanelsState, after: PanelsState, r: bool) -> bool {
    match s.active {
        Some(side) => {
            &&& r == strip_focus_left(s.strip(side)).1
            &&& after == s.with_strip(side, strip_focus_left(s.strip(side)).0)
        },
        None => !r && after == s,
    }
}

/// Whether the focus goes one column to the right in its panel.
pub open spec fn panel_focuses_right(s: PanelsState, after: PanelsState, r: bool) -> bool {
    match s.active {
        Some(side) => {
            &&& r == strip_focus_right(s.strip(side)).1
            &&& after == s.with_strip(side, strip_focus_right(s.strip(side)).0)
        },
        None => !r && after == s,
    }
}

/// Whether the focus goes one row up in its panel.
pub open spec fn panel_focuses_up(s: PanelsState, after: PanelsState, r: bool) -> bool {
    match s.active {
        Some(side) => {
            &&& r == focus_up(s.strip(side).row).1
            &&& after == s.with_row(side, focus_up(s.strip(side).row).0)
        },
        None => !r && after == s,
    }
}

/// Whether the focus goes one row down in its panel.
pub open spec fn panel_focuses_down(s: PanelsState, after: PanelsState, r: bool) -> bool {
    match s.active {
        Some(side) => {
            &&& r == focus_down(s.strip(side).row).1
            &&& after == s.with_row(side, focus_down(s.strip(side).row).0)
        },
        None => !r && after == s,
    }
}

/// The focus of a panel on the column that faces the others.
pub open spec fn innermost_focused(s: PanelsState, side: FixedSide) -> (PanelsState, bool) {
    (s.with_strip(side, strip_focus_innermost(s.strip(side)).0), !s.strip(side).is_empty())
}

/// A panel with a column that faces the others.
pub open spec fn panel_column_added(
    s: PanelsState,
    side: FixedSide,
    column: Column,
) -> PanelsState {
    s.with_strip(side, strip_add_column(s.strip(side), column@))
}

/// A panel with a window that faces the others.
pub open spec fn panel_tile_added(
    s: PanelsState,
    side: FixedSide,
    tile: Tile,
    width: ColumnWidth,
    is_full_width: bool,
) -> PanelsState {
    s.with_strip(
        side,
        strip_add_column(s.strip(side), single_tile_column(tile, width, is_full_width)),
    )
}

/// A panel with a window to the right of another one.
pub open spec fn panel_tile_added_next_to(
    s: PanelsState,
    side: FixedSide,
    right_of: u64,
    tile: Tile,
    activate: bool,
    width: ColumnWidth,
    is_full_width: bool,
) -> PanelsState {
    s.with_row(
        side,
        insert_column(
            s.strip(side).row,
            column_of(s.strip(side).row.columns, right_of) + 1,
            single_tile_column(tile, width, is_full_width),
            activate,
        ),
    )
}

/// The focused window of a panel in the bottom row of the column next to it.
pub open spec fn panel_moved_over(
    s: PanelsState,
    side: FixedSide,
    to_left: bool,
) -> (PanelsState, bool) {
    (
        s.with_row(side, move_to_neighbor_row(s.strip(side).row, to_left).0),
        move_to_neighbor_row(s.strip(side).row, to_left).1,
    )
}

/// Whether the column of a panel that faces the others is taken out.
pub open spec fn innermost_column_leaves(
    s: PanelsState,
    side: FixedSide,
    after: PanelsState,
    r: Option<Column>,
) -> bool {
    &&& r is None <==> s.strip(side).is_empty()
    &&& r is None ==> after == s
    &&& r matches Some(column) ==> {
        let idx = inner_edge(s.strip(side))->0;
        let row = s.strip(side).row;
        &&& column@ == row.columns[idx]
        &&& after == s.with_row(side, remove_column(row, idx))
    }
}

} // verus!
