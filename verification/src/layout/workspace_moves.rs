//! What it does to a workspace to move its focus, its windows and its columns.

use vstd::prelude::*;
use crate::ipc::{ColumnDisplay, SizeChange};
use crate::layout::fixed_strip::FixedSide;
use crate::layout::floating::{
    float_remove_at, float_removed, float_resize_begin, float_resize_end, float_resize_update,
    float_with_request, shown_at, with_dialogs_up, FloatRequest, FloatState, FocusDir,
};
use crate::layout::geometry::{numbers_equal, RectBits, ResizeEdge};
use crate::layout::render::{faded, is_positive, CarouselRender, FadeEdges, PixelRect};
use crate::layout::row::{
    consume_into_column, consume_or_expel_left, consume_or_expel_right, expel_from_column,
    focus_bottom, focus_down_or_left, focus_down_or_right, focus_first, focus_last, focus_numbered,
    focus_numbered_row, focus_top, focus_up_or_left, focus_up_or_right, insert_column, insert_tile,
    move_down, move_to_neighbor_row, move_up, moved_left, moved_right, moved_to_first,
    moved_to_last, moved_to_place, next_column_idx, overlap_above, overlap_below, overlap_left,
    overlap_right, remove_column, remove_tile_at, removed_tile, resize_begin, resize_end,
    resize_update, scrolled, set_column_display, split_above, split_active_window, split_below,
    split_left, split_right, swap_window, tabbed_toggled, target_position, tile_of, width_reported,
    with_request, Motion, Request, ScrollDirection, SizeRequest, SpaceState,
};
use crate::layout::sizing::{negated, ConfiguredSize, Size};
use crate::layout::tile::{Column, ColumnWidth, RemovedTile, Tile};
use crate::layout::workspace::{
    each_entered, each_left, float_centered, float_stepped, full_width_toggled, row_centered,
    row_height_requested,
};
use crate::layout::workspace_state::{
    area_synced, column_added, entered, fitted, float_height_requested, float_picked, focus_moves,
    focused_in_layer, layer_of, layer_switched, left, recentered, refitted, refocused,
    width_requested, with_effect, Effect, FloatingActive, FocusHint, Frame, WindowLayer,
    WorkspaceState,
};

verus! {

/// The focus on the first column, or on a floating window.
pub open spec fn first_column_focused(s: WorkspaceState, pick: Option<u64>) -> WorkspaceState {
    if s.active is Yes {
        float_picked(s, pick).0
    } else {
        WorkspaceState { row: focus_first(s.row), ..s }
    }
}

/// The focus on the last column, or on a floating window.
pub open spec fn last_column_focused(s: WorkspaceState, pick: Option<u64>) -> WorkspaceState {
    if s.active is Yes {
        float_picked(s, pick).0
    } else {
        WorkspaceState { row: focus_last(s.row), ..s }
    }
}

/// The focus on the top row, or on a floating window.
pub open spec fn top_window_focused(s: WorkspaceState, pick: Option<u64>) -> WorkspaceState {
    if s.active is Yes {
        float_picked(s, pick).0
    } else {
        WorkspaceState { row: focus_top(s.row), ..s }
    }
}

/// The focus on the bottom row, or on a floating window.
pub open spec fn bottom_window_focused(s: WorkspaceState, pick: Option<u64>) -> WorkspaceState {
    if s.active is Yes {
        float_picked(s, pick).0
    } else {
        WorkspaceState { row: focus_bottom(s.row), ..s }
    }
}

/// The focus one row down, or else one column to the left.
pub open spec fn focused_down_or_left(s: WorkspaceState, pick: Option<u64>) -> WorkspaceState {
    if s.active is Yes {
        float_picked(s, pick).0
    } else {
        WorkspaceState { row: focus_down_or_left(s.row), ..s }
    }
}

/// The focus one row down, or else one column to the right.
pub open spec fn focused_down_or_right(s: WorkspaceState, pick: Option<u64>) -> WorkspaceState {
    if s.active is Yes {
        float_picked(s, pick).0
    } else {
        WorkspaceState { row: focus_down_or_right(s.row), ..s }
    }
}

/// The focus one row up, or else one column to the left.
pub open spec fn focused_up_or_left(s: WorkspaceState, pick: Option<u64>) -> WorkspaceState {
    if s.active is Yes {
        float_picked(s, pick).0
    } else {
        WorkspaceState { row: focus_up_or_left(s.row), ..s }
    }
}

/// The focus one row up, or else one column to the right.
pub open spec fn focused_up_or_right(s: WorkspaceState, pick: Option<u64>) -> WorkspaceState {
    if s.active is Yes {
        float_picked(s, pick).0
    } else {
        WorkspaceState { row: focus_up_or_right(s.row), ..s }
    }
}

/// Whether the focus goes to the right, or from the end to the first column.
pub open spec fn focuses_right_or_first(
    s: WorkspaceState,
    hint: FocusHint,
    around: Option<u64>,
    after: WorkspaceState,
) -> bool {
    exists|mid: WorkspaceState, moved: bool| {
        &&& #[trigger] focus_moves(s, FocusDir::Right, hint, mid, moved)
        &&& after == (if moved {
            mid
        } else if mid.active is Yes {
            float_picked(mid, around).0
        } else {
            WorkspaceState { row: focus_first(mid.row), ..mid }
        })
    }
}

/// Whether the focus goes to the left, or from there to the last column.
pub open spec fn focuses_left_or_last(
    s: WorkspaceState,
    hint: FocusHint,
    around: Option<u64>,
    after: WorkspaceState,
) -> bool {
    exists|mid: WorkspaceState, moved: bool| {
        &&& #[trigger] focus_moves(s, FocusDir::Left, hint, mid, moved)
        &&& after == (if moved {
            mid
        } else if mid.active is Yes {
            float_picked(mid, around).0
        } else {
            WorkspaceState { row: focus_last(mid.row), ..mid }
        })
    }
}

/// Whether the focus goes down, or from the bottom to the top row.
pub open spec fn focuses_down_or_top(
    s: WorkspaceState,
    hint: FocusHint,
    around: Option<u64>,
    after: WorkspaceState,
) -> bool {
    exists|mid: WorkspaceState, moved: bool| {
        &&& #[trigger] focus_moves(s, FocusDir::Down, hint, mid, moved)
        &&& after == (if moved {
            mid
        } else if mid.active is Yes {
            float_picked(mid, around).0
        } else {
            WorkspaceState { row: focus_top(mid.row), ..mid }
        })
    }
}

/// Whether the focus goes up, or from the top to the bottom row.
pub open spec fn focuses_up_or_bottom(
    s: WorkspaceState,
    hint: FocusHint,
    around: Option<u64>,
    after: WorkspaceState,
) -> bool {
    exists|mid: WorkspaceState, moved: bool| {
        &&& #[trigger] focus_moves(s, FocusDir::Up, hint, mid, moved)
        &&& after == (if moved {
            mid
        } else if mid.active is Yes {
            float_picked(mid, around).0
        } else {
            WorkspaceState { row: focus_bottom(mid.row), ..mid }
        })
    }
}

/// The focus on the column with a one-based index.
pub open spec fn numbered_column_focused(s: WorkspaceState, index: usize) -> WorkspaceState {
    let s = if s.active is Yes {
        layer_switched(s)
    } else {
        s
    };
    WorkspaceState { row: focus_numbered(s.row, index as int), ..s }
}

/// The focus of the row on the first column.
pub open spec fn first_of_the_row_focused(s: WorkspaceState) -> WorkspaceState {
    WorkspaceState { row: focus_first(s.row), ..s }
}

/// The focus of the row on the last column.
pub open spec fn last_of_the_row_focused(s: WorkspaceState) -> WorkspaceState {
    WorkspaceState { row: focus_last(s.row), ..s }
}

/// The focus on the row with a one-based index.
pub open spec fn numbered_row_focused(s: WorkspaceState, index: u8) -> WorkspaceState {
    if s.active is Yes {
        s
    } else {
        WorkspaceState { row: focus_numbered_row(s.row, index as int), ..s }
    }
}

/// The active window or column, moved to the left.
pub open spec fn pushed_left(s: WorkspaceState) -> (WorkspaceState, bool) {
    if s.active is Yes {
        (float_stepped(s, FocusDir::Left), true)
    } else {
        (WorkspaceState { row: moved_left(s.row).0, ..s }, moved_left(s.row).1)
    }
}

/// The active window or column, moved to the right.
pub open spec fn pushed_right(s: WorkspaceState) -> (WorkspaceState, bool) {
    if s.active is Yes {
        (float_stepped(s, FocusDir::Right), true)
    } else {
        (WorkspaceState { row: moved_right(s.row).0, ..s }, moved_right(s.row).1)
    }
}

/// The active window, moved down.
pub open spec fn pushed_down(s: WorkspaceState) -> (WorkspaceState, bool) {
    if s.active is Yes {
        (float_stepped(s, FocusDir::Down), true)
    } else {
        (WorkspaceState { row: move_down(s.row).0, ..s }, move_down(s.row).1)
    }
}

/// The active window, moved up.
pub open spec fn pushed_up(s: WorkspaceState) -> (WorkspaceState, bool) {
    if s.active is Yes {
        (float_stepped(s, FocusDir::Up), true)
    } else {
        (WorkspaceState { row: move_up(s.row).0, ..s }, move_up(s.row).1)
    }
}

/// The active column in the first place.
pub open spec fn column_put_first(s: WorkspaceState) -> WorkspaceState {
    if s.active is Yes {
        s
    } else {
        WorkspaceState { row: moved_to_first(s.row), ..s }
    }
}

/// The active column in the last place.
pub open spec fn column_put_last(s: WorkspaceState) -> WorkspaceState {
    if s.active is Yes {
        s
    } else {
        WorkspaceState { row: moved_to_last(s.row), ..s }
    }
}

/// The active column in the place with a one-based index.
pub open spec fn column_put_at(s: WorkspaceState, index: usize) -> WorkspaceState {
    if s.active is Yes {
        s
    } else {
        WorkspaceState { row: moved_to_place(s.row, index as int), ..s }
    }
}

/// The active window in a column of its own on the left.
pub open spec fn split_to_the_left(s: WorkspaceState) -> (WorkspaceState, bool) {
    if s.active is Yes {
        (s, false)
    } else {
        (WorkspaceState { row: split_left(s.row).0, ..s }, split_left(s.row).1)
    }
}

/// The active window on top of the column to the left.
pub open spec fn put_onto_the_left(s: WorkspaceState) -> (WorkspaceState, bool) {
    if s.active is Yes {
        (s, false)
    } else {
        (WorkspaceState { row: overlap_left(s.row).0, ..s }, overlap_left(s.row).1)
    }
}

/// The active window in a column of its own on the right.
pub open spec fn split_to_the_right(s: WorkspaceState) -> (WorkspaceState, bool) {
    if s.active is Yes {
        (s, false)
    } else {
        (WorkspaceState { row: split_right(s.row).0, ..s }, split_right(s.row).1)
    }
}

/// The active window on top of the column to the right.
pub open spec fn put_onto_the_right(s: WorkspaceState) -> (WorkspaceState, bool) {
    if s.active is Yes {
        (s, false)
    } else {
        (WorkspaceState { row: overlap_right(s.row).0, ..s }, overlap_right(s.row).1)
    }
}

/// The active window in a row of its own above its tile.
pub open spec fn split_upwards(s: WorkspaceState) -> (WorkspaceState, bool) {
    if s.active is Yes {
        (s, false)
    } else {
        (WorkspaceState { row: split_above(s.row).0, ..s }, split_above(s.row).1)
    }
}

/// The active window on top of the tile above.
pub open spec fn put_onto_the_one_above(s: WorkspaceState) -> (WorkspaceState, bool) {
    if s.active is Yes {
        (s, false)
    } else {
        (WorkspaceState { row: overlap_above(s.row).0, ..s }, overlap_above(s.row).1)
    }
}

/// The active window in a row of its own below its tile.
pub open spec fn split_downwards(s: WorkspaceState) -> (WorkspaceState, bool) {
    if s.active is Yes {
        (s, false)
    } else {
        (WorkspaceState { row: split_below(s.row).0, ..s }, split_below(s.row).1)
    }
}

/// The active window on top of the tile below.
pub open spec fn put_onto_the_one_below(s: WorkspaceState) -> (WorkspaceState, bool) {
    if s.active is Yes {
        (s, false)
    } else {
        (WorkspaceState { row: overlap_below(s.row).0, ..s }, overlap_below(s.row).1)
    }
}

/// The active window in the bottom row of the column next to it.
pub open spec fn put_into_neighbor(s: WorkspaceState, to_left: bool) -> (WorkspaceState, bool) {
    if s.active is Yes {
        (s, false)
    } else {
        (
            WorkspaceState { row: move_to_neighbor_row(s.row, to_left).0, ..s },
            move_to_neighbor_row(s.row, to_left).1,
        )
    }
}

/// The active window in a column of its own, where there is a column on that side.
pub open spec fn split_to_neighbor(s: WorkspaceState, to_left: bool) -> (WorkspaceState, bool) {
    let row = s.row;
    let has_neighbor = if to_left {
        row.active > 0
    } else {
        row.active + 1 < row.columns.len()
    };
    if s.active is Yes || !has_neighbor {
        (s, false)
    } else {
        let (split, moved) = split_active_window(row, to_left);
        (WorkspaceState { row: split, ..s }, moved)
    }
}

/// A window in a column of its own on the left, or in the column there.
pub open spec fn regrouped_to_the_left(s: WorkspaceState, window: Option<u64>) -> WorkspaceState {
    if s.active is Yes || layer_of(s, window) is Floating {
        s
    } else {
        WorkspaceState { row: consume_or_expel_left(s.row, window), ..s }
    }
}

/// A window in a column of its own on the right, or in the column there.
pub open spec fn regrouped_to_the_right(s: WorkspaceState, window: Option<u64>) -> WorkspaceState {
    if s.active is Yes || layer_of(s, window) is Floating {
        s
    } else {
        WorkspaceState { row: consume_or_expel_right(s.row, window), ..s }
    }
}

/// The first window on the right in the active column.
pub open spec fn consumed_from_the_right(s: WorkspaceState) -> WorkspaceState {
    if s.active is Yes {
        s
    } else {
        WorkspaceState { row: consume_into_column(s.row), ..s }
    }
}

/// The bottom window of the active column in a column of its own.
pub open spec fn expelled_to_the_right(s: WorkspaceState) -> WorkspaceState {
    if s.active is Yes {
        s
    } else {
        WorkspaceState { row: expel_from_column(s.row), ..s }
    }
}

/// The active window in the place of the one next to it.
pub open spec fn swapped_with(s: WorkspaceState, direction: ScrollDirection) -> WorkspaceState {
    if s.active is Yes {
        s
    } else {
        WorkspaceState { row: swap_window(s.row, direction), ..s }
    }
}

/// The active column with tabs, or without.
pub open spec fn tabs_toggled(s: WorkspaceState) -> WorkspaceState {
    if s.active is Yes {
        s
    } else {
        WorkspaceState { row: tabbed_toggled(s.row), ..s }
    }
}

/// The active column shown in this way.
pub open spec fn displayed_as(s: WorkspaceState, display: ColumnDisplay) -> WorkspaceState {
    if s.active is Yes {
        s
    } else {
        WorkspaceState { row: set_column_display(s.row, display), ..s }
    }
}

/// The active column or floating window, centered.
pub open spec fn column_centered(s: WorkspaceState) -> WorkspaceState {
    if s.active is Yes {
        float_centered(s, None)
    } else {
        row_centered(s, None)
    }
}

/// A window, centered in its layer.
pub open spec fn window_centered(s: WorkspaceState, id: Option<u64>) -> WorkspaceState {
    if layer_of(s, id) is Floating {
        float_centered(s, id)
    } else {
        row_centered(s, id)
    }
}

/// The active column with all the width that is left.
pub open spec fn column_expanded(s: WorkspaceState) -> WorkspaceState {
    if s.active is Yes {
        s
    } else {
        width_requested(s, None, SizeRequest::Expand)
    }
}

/// The active column, its free edge moved in a direction.
pub open spec fn resized_towards(
    s: WorkspaceState,
    toward_right: bool,
    step: SizeChange,
    left_of_center: Option<bool>,
) -> WorkspaceState {
    let side = if s.active is Yes {
        Some(true)
    } else {
        left_of_center
    };
    match side {
        Some(left) => width_requested(
            s,
            None,
            SizeRequest::Change(
                if left == toward_right {
                    step
                } else {
                    negated(step)
                },
            ),
        ),
        None => s,
    }
}

/// A window with another height.
pub open spec fn height_changed(
    s: WorkspaceState,
    window: Option<u64>,
    change: SizeChange,
) -> WorkspaceState {
    if layer_of(s, window) is Floating {
        float_height_requested(s, window, SizeRequest::Change(change))
    } else {
        recentered(refitted(row_height_requested(s, window, SizeRequest::Change(change)), true))
    }
}

/// A window with the height that it gets by itself.
pub open spec fn height_left_open(s: WorkspaceState, window: Option<u64>) -> WorkspaceState {
    if layer_of(s, window) is Floating {
        s
    } else {
        recentered(row_height_requested(s, window, SizeRequest::Reset))
    }
}

/// A window with the next preset height, or the previous one.
pub open spec fn height_switched(
    s: WorkspaceState,
    window: Option<u64>,
    forwards: bool,
) -> WorkspaceState {
    if layer_of(s, window) is Floating {
        float_height_requested(s, window, SizeRequest::Preset { forwards })
    } else {
        recentered(row_height_requested(s, window, SizeRequest::Preset { forwards }))
    }
}

/// Both layers told whether they are active.
pub open spec fn refreshed(
    s: WorkspaceState,
    is_active: bool,
    is_focused: bool,
    panel_focus: Option<FixedSide>,
) -> WorkspaceState {
    WorkspaceState {
        row: with_request(
            s.row,
            Request::Refresh {
                is_active: is_active && !(s.active is Yes) && panel_focus is None,
                is_focused,
            },
        ),
        float: float_with_request(
            s.float,
            FloatRequest::Refresh {
                is_active: is_active && s.active is Yes,
                is_focused,
            },
        ),
        ..s
    }
}

/// Both layers told to prepare what they draw.
pub open spec fn prepared(
    s: WorkspaceState,
    is_active: bool,
    panel_focus: Option<FixedSide>,
    area: RectBits,
) -> WorkspaceState {
    let s = area_synced(s, area);
    let tiling = is_active && !(s.active is Yes) && panel_focus is None;
    with_effect(
        WorkspaceState {
            row: with_request(
                with_request(s.row, Request::EnforceFit),
                Request::Prepare { is_active: tiling },
            ),
            float: float_with_request(
                s.float,
                FloatRequest::Prepare { is_active: is_active && s.active is Yes },
            ),
            ..s
        },
        Effect::PrepareShadow,
    )
}

/// The layer of a window told of a configure.
pub open spec fn window_updated(
    s: WorkspaceState,
    window: u64,
    serial: Option<u32>,
) -> WorkspaceState {
    if s.float.holds(window) {
        WorkspaceState {
            float: float_with_request(s.float, FloatRequest::Update { window, serial }),
            ..s
        }
    } else {
        let updated = WorkspaceState {
            row: scrolled(with_request(s.row, Request::Update { window, serial })),
            ..s
        };
        if s.frame.layout.disable_carousel {
            recentered(
                WorkspaceState {
                    row: with_request(
                        updated.row,
                        Request::Fit {
                            animate: false,
                            keep_resize: s.row.resize is Some,
                        },
                    ),
                    ..updated
                },
            )
        } else {
            updated
        }
    }
}

/// The layer of a window told to show that it closes.
pub open spec fn closing_shown(s: WorkspaceState, window: u64) -> WorkspaceState {
    if s.float.holds(window) {
        WorkspaceState {
            float: float_with_request(s.float, FloatRequest::Close { window }),
            ..s
        }
    } else {
        WorkspaceState { row: with_request(s.row, Request::Close { window }), ..s }
    }
}

/// The layer of a window told to show that it opens.
pub open spec fn opening_shown(s: WorkspaceState, id: u64) -> (WorkspaceState, bool) {
    if s.row.holds(id) {
        (WorkspaceState { row: with_request(s.row, Request::Open { window: id }), ..s }, true)
    } else if s.float.holds(id) {
        (
            WorkspaceState {
                float: float_with_request(s.float, FloatRequest::Open { window: id }),
                ..s
            },
            true,
        )
    } else {
        (s, false)
    }
}

/// The dialogs of a floating window in front of it.
pub open spec fn dialogs_raised(s: WorkspaceState, id: u64) -> (WorkspaceState, bool) {
    if s.float.holds(id) {
        (
            WorkspaceState {
                float: FloatState {
                    tiles: with_dialogs_up(s.float.tiles, tile_of(s.float.tiles, id)),
                    ..s.float
                },
                ..s
            },
            true,
        )
    } else {
        (s, false)
    }
}

/// A window being resized with the pointer.
pub open spec fn drag_begun(
    s: WorkspaceState,
    window: u64,
    edges: ResizeEdge,
) -> (WorkspaceState, bool) {
    if s.float.holds(window) {
        let (float, began) = float_resize_begin(s.float, window, edges);
        (WorkspaceState { float, ..s }, began)
    } else {
        let (row, began) = resize_begin(s.row, window, edges);
        (WorkspaceState { row, ..s }, began)
    }
}

/// A window resized by this much.
pub open spec fn dragged(
    s: WorkspaceState,
    window: u64,
    dx: u64,
    dy: u64,
) -> (WorkspaceState, bool) {
    if s.float.holds(window) {
        let (float, moved) = float_resize_update(s.float, window, dx, dy);
        (WorkspaceState { float, ..s }, moved)
    } else {
        let (row, moved) = resize_update(s.row, window, dx, dy);
        (WorkspaceState { row, ..s }, moved)
    }
}

/// A window not being resized any more.
pub open spec fn drag_ended(s: WorkspaceState, window: Option<u64>) -> WorkspaceState {
    match window {
        Some(id) => if s.float.holds(id) {
            WorkspaceState {
                float: float_resize_end(s.float, window),
                ..s
            }
        } else {
            WorkspaceState { row: resize_end(s.row, window), ..s }
        },
        None => WorkspaceState {
            float: float_resize_end(s.float, None),
            row: resize_end(s.row, None),
            ..s
        },
    }
}

/// The active column with the next preset width, or the previous one.
pub open spec fn column_width_switched(s: WorkspaceState, forwards: bool) -> WorkspaceState {
    width_requested(s, None, SizeRequest::Preset { forwards })
}

/// The active column with another width.
pub open spec fn column_width_changed(s: WorkspaceState, change: SizeChange) -> WorkspaceState {
    width_requested(s, None, SizeRequest::Change(change))
}

/// A window with another width.
pub open spec fn width_changed(
    s: WorkspaceState,
    window: Option<u64>,
    change: SizeChange,
) -> WorkspaceState {
    width_requested(s, window, SizeRequest::Change(change))
}

/// A window with the next preset width, or the previous one.
pub open spec fn width_switched(
    s: WorkspaceState,
    window: Option<u64>,
    forwards: bool,
) -> WorkspaceState {
    width_requested(s, window, SizeRequest::Preset { forwards })
}

/// The active column as wide as the view, or not any more.
pub open spec fn full_width_switched(s: WorkspaceState) -> WorkspaceState {
    if s.active is Yes {
        s
    } else {
        recentered(refitted(full_width_toggled(s), true))
    }
}

/// The workspace with this much room for its panels.
pub open spec fn insets_set(
    s: WorkspaceState,
    left: u64,
    right: u64,
    area: RectBits,
) -> WorkspaceState {
    if numbers_equal(s.frame.insets.0, left) && numbers_equal(s.frame.insets.1, right) {
        s
    } else {
        area_synced(
            WorkspaceState {
                frame: Frame { insets: (left, right), ..s.frame },
                ..s
            },
            area,
        )
    }
}

/// A gesture that scrolls the row begins, if the row scrolls.
pub open spec fn scrolling_begun(s: WorkspaceState, is_touchpad: bool) -> (WorkspaceState, bool) {
    if s.frame.layout.disable_carousel {
        (s, false)
    } else {
        (
            WorkspaceState { row: with_request(s.row, Request::GestureBegin { is_touchpad }), ..s },
            true,
        )
    }
}

/// A gesture that scrolls the row goes on, if the row scrolls.
pub open spec fn scrolling_moved(
    s: WorkspaceState,
    delta: u64,
    time: u64,
    is_touchpad: bool,
) -> (WorkspaceState, bool) {
    if s.frame.layout.disable_carousel {
        (s, false)
    } else {
        (
            WorkspaceState {
                row: with_request(s.row, Request::GestureUpdate { delta, time, is_touchpad }),
                ..s
            },
            true,
        )
    }
}

/// A gesture that scrolls the row ends, if the row scrolls.
pub open spec fn scrolling_ended(
    s: WorkspaceState,
    touchpad: Option<bool>,
) -> (WorkspaceState, bool) {
    if s.frame.layout.disable_carousel {
        (s, false)
    } else {
        (WorkspaceState { row: with_request(s.row, Request::GestureEnd { touchpad }), ..s }, true)
    }
}

/// A drag that scrolls the row begins, if the row scrolls.
pub open spec fn edge_scrolling_begun(s: WorkspaceState) -> (WorkspaceState, bool) {
    if s.frame.layout.disable_carousel {
        (s, false)
    } else {
        (WorkspaceState { row: with_request(s.row, Request::DndScrollBegin), ..s }, true)
    }
}

/// A drag that scrolls the row goes on, if the row scrolls.
pub open spec fn edge_scrolling_moved(
    s: WorkspaceState,
    x: u64,
    y: u64,
    speed: u64,
) -> (WorkspaceState, bool) {
    if s.frame.layout.disable_carousel {
        (s, false)
    } else {
        (WorkspaceState { row: with_request(s.row, Request::DndScroll { x, y, speed }), ..s }, true)
    }
}

/// A drag that scrolls the row ends, if the row scrolls.
pub open spec fn edge_scrolling_ended(s: WorkspaceState) -> (WorkspaceState, bool) {
    if s.frame.layout.disable_carousel {
        (s, false)
    } else {
        (WorkspaceState { row: with_request(s.row, Request::DndScrollEnd), ..s }, true)
    }
}

/// Both layers told to go on with what is animated.
pub open spec fn animations_advanced(s: WorkspaceState) -> WorkspaceState {
    WorkspaceState {
        row: with_request(s.row, Request::Advance),
        float: float_with_request(s.float, FloatRequest::Advance),
        ..s
    }
}

/// What is in motion in each of the layers.
pub open spec fn motion_reported(
    s: WorkspaceState,
    scrolling: Motion,
    floating: Motion,
) -> WorkspaceState {
    WorkspaceState {
        row: SpaceState { motion: scrolling, ..s.row },
        float: FloatState { motion: floating, ..s.float },
        ..s
    }
}

/// The width that the geometry gave to a column.
pub open spec fn width_taken(
    s: WorkspaceState,
    window: u64,
    width: ColumnWidth,
    is_full_width: bool,
) -> WorkspaceState {
    WorkspaceState { row: width_reported(s.row, window, width, is_full_width), ..s }
}

/// The focus one column to the left inside of the active layer.
pub open spec fn focused_left(s: WorkspaceState, pick: Option<u64>) -> (WorkspaceState, bool) {
    focused_in_layer(s, FocusDir::Left, pick)
}

/// Whether the focus goes one column to the left in its layer, or else to the other layer.
pub open spec fn focuses_left(
    s: WorkspaceState,
    hint: FocusHint,
    after: WorkspaceState,
    moved: bool,
) -> bool {
    focus_moves(s, FocusDir::Left, hint, after, moved)
}

/// The focus one column to the right inside of the active layer.
pub open spec fn focused_right(s: WorkspaceState, pick: Option<u64>) -> (WorkspaceState, bool) {
    focused_in_layer(s, FocusDir::Right, pick)
}

/// Whether the focus goes one column to the right in its layer, or else to the other layer.
pub open spec fn focuses_right(
    s: WorkspaceState,
    hint: FocusHint,
    after: WorkspaceState,
    moved: bool,
) -> bool {
    focus_moves(s, FocusDir::Right, hint, after, moved)
}

/// The focus one row up inside of the active layer.
pub open spec fn focused_up(s: WorkspaceState, pick: Option<u64>) -> (WorkspaceState, bool) {
    focused_in_layer(s, FocusDir::Up, pick)
}

/// Whether the focus goes one row up in its layer, or else to the other layer.
pub open spec fn focuses_up(
    s: WorkspaceState,
    hint: FocusHint,
    after: WorkspaceState,
    moved: bool,
) -> bool {
    focus_moves(s, FocusDir::Up, hint, after, moved)
}

/// The focus one row down inside of the active layer.
pub open spec fn focused_down(s: WorkspaceState, pick: Option<u64>) -> (WorkspaceState, bool) {
    focused_in_layer(s, FocusDir::Down, pick)
}

/// Whether the focus goes one row down in its layer, or else to the other layer.
pub open spec fn focuses_down(
    s: WorkspaceState,
    hint: FocusHint,
    after: WorkspaceState,
    moved: bool,
) -> bool {
    focus_moves(s, FocusDir::Down, hint, after, moved)
}

/// The size that a new window is asked to take.
pub open spec fn configured_size(
    s: WorkspaceState,
    fullscreen: bool,
    maximized: bool,
    size: Size,
) -> ConfiguredSize {
    if fullscreen {
        ConfiguredSize::Rounded(s.frame.view_size)
    } else if maximized {
        ConfiguredSize::Rounded(s.frame.working_area.size)
    } else {
        ConfiguredSize::Exact(size)
    }
}

/// Whether the tile that has the focus is taken out of the workspace.
pub open spec fn active_tile_leaves(
    s: WorkspaceState,
    after: WorkspaceState,
    r: Option<RemovedTile>,
) -> bool {
    match s.active {
        FloatingActive::Yes => {
            let idx = shown_at(s.float.tiles, s.float.active->0);
            let tile = s.float.tiles[idx];
            let gone = WorkspaceState { float: float_remove_at(s.float, idx), ..s };
            &&& r == Some(float_removed(tile))
            &&& after == fitted(refocused(left(gone, tile.window.id), true), true)
        },
        _ => if s.row.columns.len() == 0 {
            r is None && after == s
        } else {
            let (c, t) = target_position(s.row, None);
            let removed = removed_tile(s.row, c, t);
            let gone = WorkspaceState { row: remove_tile_at(s.row, c, t), ..s };
            &&& r == Some(removed)
            &&& after == fitted(refocused(left(gone, removed.tile.window.id), false), true)
        },
    }
}

/// Whether the column that has the focus is taken out of the workspace.
pub open spec fn active_column_leaves(
    s: WorkspaceState,
    after: WorkspaceState,
    r: Option<Column>,
) -> bool {
    if s.active is Yes || s.row.columns.len() == 0 {
        r is None && after == s
    } else {
        let gone = WorkspaceState { row: remove_column(s.row, s.row.active), ..s };
        &&& r is Some
        &&& r->0@ == s.row.active_column()
        &&& after == fitted(refocused(each_left(gone, r->0@.tiles), false), true)
    }
}

/// Whether the active column of the row is taken out of it.
pub open spec fn row_column_leaves(
    s: WorkspaceState,
    after: WorkspaceState,
    r: Option<Column>,
) -> bool {
    &&& r is None <==> s.row.columns.len() == 0
    &&& r is None ==> after == s
    &&& r matches Some(column) ==> {
        &&& column@ == s.row.active_column()
        &&& after == (WorkspaceState { row: remove_column(s.row, s.row.active), ..s })
    }
}

/// The row with another column at this place, which gets the focus there.
pub open spec fn row_column_added(s: WorkspaceState, idx: usize, column: Column) -> WorkspaceState {
    WorkspaceState { row: insert_column(s.row, idx as int, column@, true), ..s }
}

/// The workspace with another column to the right of the active one.
pub open spec fn column_arrived(
    s: WorkspaceState,
    column: Column,
    activate: bool,
) -> WorkspaceState {
    column_added(each_entered(s, column@.tiles), next_column_idx(s.row), column@, activate)
}

/// The workspace with another tile in one of its columns.
pub open spec fn tile_joined(
    s: WorkspaceState,
    col_idx: usize,
    tile_idx: Option<usize>,
    tile: Tile,
    activate: bool,
) -> WorkspaceState {
    let s = entered(s, tile.window.id);
    WorkspaceState {
        row: insert_tile(
            s.row,
            col_idx as int,
            match tile_idx {
                Some(i) => i as int,
                None => s.row.columns[col_idx as int].tiles.len() as int,
            },
            tile,
            activate,
        ),
        active: if activate {
            FloatingActive::No
        } else {
            s.active
        },
        ..s
    }
}

/// The visible columns of the row, centered.
pub open spec fn visible_columns_centered(s: WorkspaceState) -> WorkspaceState {
    if s.active is Yes {
        s
    } else {
        WorkspaceState { row: with_request(s.row, Request::CenterVisible), ..s }
    }
}

/// How the row is drawn.
pub open spec fn drawn_row(s: WorkspaceState, focus_ring: bool, can_fade: bool) -> CarouselRender {
    let focus_ring = focus_ring && !(s.active is Yes);
    let panels = is_positive(s.frame.insets.0) || is_positive(s.frame.insets.1);
    if !panels || s.frame.layout.disable_carousel || !can_fade {
        CarouselRender::Direct { focus_ring }
    } else {
        CarouselRender::Collect { focus_ring }
    }
}

/// The edges at which the row is faded.
pub open spec fn faded_edges(
    s: WorkspaceState,
    elements: Seq<PixelRect>,
    left_band: PixelRect,
    right_band: PixelRect,
) -> Option<FadeEdges> {
    faded(
        elements,
        is_positive(s.frame.insets.0),
        is_positive(s.frame.insets.1),
        left_band,
        right_band,
    )
}

/// Whether the floating layer is shown.
pub open spec fn floats_are_visible(s: WorkspaceState, above_top_layer: bool) -> bool {
    !(s.active is No) || !above_top_layer
}

/// Whether the floating layer is drawn, and then whether with a focus ring.
pub open spec fn drawn_floats(
    s: WorkspaceState,
    focus_ring: bool,
    above_top_layer: bool,
) -> Option<bool> {
    if floats_are_visible(s, above_top_layer) {
        Some(focus_ring && s.active is Yes)
    } else {
        None
    }
}

/// The window under a point, given the one of each layer that is there.
pub open spec fn window_at(
    s: WorkspaceState,
    floating: Option<u64>,
    scrolling: Option<u64>,
    above_top_layer: bool,
) -> Option<u64> {
    if floats_are_visible(s, above_top_layer) && floating is Some {
        floating
    } else {
        scrolling
    }
}

/// The layer that holds a window.
pub open spec fn layer_with(s: WorkspaceState, id: u64) -> Option<WindowLayer> {
    if s.float.holds(id) {
        Some(WindowLayer::Floating)
    } else if s.row.holds(id) {
        Some(WindowLayer::Scrolling)
    } else {
        None
    }
}

} // verus!
