//! Where the focus and the windows of a row go.

use vstd::prelude::*;
use crate::ipc::ColumnDisplay;
use crate::layout::geometry::ResizeEdge;
use crate::layout::row::{
    center_requested, clamped_index, column_of, column_of_finds_the_first, focus_bottom, focus_down,
    focus_down_or_left, focus_down_or_right, focus_first, focus_last, focus_left, focus_numbered,
    focus_numbered_row, focus_right, focus_top, focus_up, focus_up_or_left, focus_up_or_right,
    has_target, insert_column, move_column_to, move_down, move_up, moved_left, moved_right,
    moved_to_first, moved_to_last, moved_to_place, remove_column, request_height, request_width,
    resize_begin, resize_end, resize_update, set_column_display, swap_active_tile, tabbed_toggled,
    tile_of, tile_of_finds_the_first, width_toggled, Request, SizeRequest, SpaceState,
};
use crate::layout::tile::{ColumnState, Window};

verus! {

/// The window that has the focus in a row.
pub open spec fn focused(s: SpaceState) -> Window {
    s.active_tile().window
}

/// Whether the rows hold the same columns in the same order, the focus aside.
pub open spec fn same_columns(a: SpaceState, b: SpaceState) -> bool {
    &&& a.columns.len() == b.columns.len()
    &&& forall|i: int|
        0 <= i < a.columns.len() ==> (#[trigger] a.columns[i]).tiles == b.columns[i].tiles
}

/// The focus goes to the left exactly if there is a column there, and then by one column. No
/// column changes.
pub proof fn focus_goes_left(s: SpaceState)
    requires
        s.wf(),
    ensures
        focus_left(s).1 <==> s.active > 0,
        focus_left(s).1 ==> focus_left(s).0.active == s.active - 1,
        !focus_left(s).1 ==> focus_left(s).0 == s,
        focus_left(s).0.columns == s.columns,
{
}

/// The focus goes to the right exactly if there is a column there, and then by one column. No
/// column changes.
pub proof fn focus_goes_right(s: SpaceState)
    requires
        s.wf(),
    ensures
        focus_right(s).1 <==> s.active + 1 < s.columns.len(),
        focus_right(s).1 ==> focus_right(s).0.active == s.active + 1,
        !focus_right(s).1 ==> focus_right(s).0 == s,
        focus_right(s).0.columns == s.columns,
{
}

/// The focus goes up exactly if there is a row above, and then by one row. It stays in its
/// column.
pub proof fn focus_goes_up(s: SpaceState)
    requires
        s.wf(),
        s.columns.len() > 0,
    ensures
        focus_up(s).1 <==> s.active_column().active > 0,
        focus_up(s).1 ==> focus_up(s).0.active_column().active == s.active_column().active - 1,
        !focus_up(s).1 ==> focus_up(s).0 == s,
        focus_up(s).0.active == s.active,
        same_columns(focus_up(s).0, s),
{
}

/// The focus goes down exactly if there is a row below, and then by one row. It stays in its
/// column.
pub proof fn focus_goes_down(s: SpaceState)
    requires
        s.wf(),
        s.columns.len() > 0,
    ensures
        focus_down(s).1 <==> s.active_column().active + 1 < s.active_column().tiles.len(),
        focus_down(s).1 ==> focus_down(s).0.active_column().active == s.active_column().active + 1,
        !focus_down(s).1 ==> focus_down(s).0 == s,
        focus_down(s).0.active == s.active,
        same_columns(focus_down(s).0, s),
{
}

/// From the bottom row the focus goes on to the column at the side, and from any other one it
/// goes down.
pub proof fn focus_leaves_the_bottom_row(s: SpaceState)
    requires
        s.wf(),
        s.columns.len() > 0,
    ensures
        ({
            let bottom = s.active_column().active + 1 == s.active_column().tiles.len();
            let left = focus_down_or_left(s);
            let right = focus_down_or_right(s);
            &&& same_columns(left, s) && same_columns(right, s)
            &&& !bottom ==> left.active == s.active && left.active_column().active
                == s.active_column().active + 1
            &&& !bottom ==> right == left
            &&& bottom && s.active > 0 ==> left.active == s.active - 1
            &&& bottom && s.active == 0 ==> left == s
            &&& bottom && s.active + 1 < s.columns.len() ==> right.active == s.active + 1
            &&& bottom && s.active + 1 == s.columns.len() ==> right == s
        }),
{
    assert(s.active_column().wf());
}

/// From the top row the focus goes on to the column at the side, and from any other one it
/// goes up.
pub proof fn focus_leaves_the_top_row(s: SpaceState)
    requires
        s.wf(),
        s.columns.len() > 0,
    ensures
        ({
            let top = s.active_column().active == 0;
            let left = focus_up_or_left(s);
            let right = focus_up_or_right(s);
            &&& same_columns(left, s) && same_columns(right, s)
            &&& !top ==> left.active == s.active && left.active_column().active
                == s.active_column().active - 1
            &&& !top ==> right == left
            &&& top && s.active > 0 ==> left.active == s.active - 1
            &&& top && s.active == 0 ==> left == s
            &&& top && s.active + 1 < s.columns.len() ==> right.active == s.active + 1
            &&& top && s.active + 1 == s.columns.len() ==> right == s
        }),
{
    assert(s.active_column().wf());
}

/// An index counts from one. What is out of range is the nearest end.
pub proof fn indices_count_from_one(index: int, len: nat)
    requires
        len > 0,
    ensures
        0 <= clamped_index(index, len) < len,
        1 <= index <= len ==> clamped_index(index, len) + 1 == index,
        index < 1 ==> clamped_index(index, len) == 0,
        index > len ==> clamped_index(index, len) + 1 == len,
{
}

/// The focus goes to the column that is asked for, and no column changes.
pub proof fn focus_goes_to_the_column(s: SpaceState, index: int)
    requires
        s.wf(),
        s.columns.len() > 0,
    ensures
        focus_first(s).active == 0,
        focus_last(s).active + 1 == s.columns.len(),
        1 <= index <= s.columns.len() ==> focus_numbered(s, index).active + 1 == index,
        index < 1 ==> focus_numbered(s, index).active == 0,
        index > s.columns.len() ==> focus_numbered(s, index).active + 1 == s.columns.len(),
        focus_first(s).columns == s.columns,
        focus_last(s).columns == s.columns,
        focus_numbered(s, index).columns == s.columns,
{
}

/// The focus goes to the row that is asked for in its column.
pub proof fn focus_goes_to_the_row(s: SpaceState, index: int)
    requires
        s.wf(),
        s.columns.len() > 0,
    ensures
        ({
            let len = s.active_column().tiles.len();
            &&& focus_top(s).active_column().active == 0
            &&& focus_bottom(s).active_column().active + 1 == len
            &&& 1 <= index <= len ==> focus_numbered_row(s, index).active_column().active + 1
                == index
            &&& index < 1 ==> focus_numbered_row(s, index).active_column().active == 0
            &&& index > len ==> focus_numbered_row(s, index).active_column().active + 1 == len
            &&& focus_top(s).active == s.active && same_columns(focus_top(s), s)
            &&& focus_bottom(s).active == s.active && same_columns(focus_bottom(s), s)
            &&& focus_numbered_row(s, index).active == s.active
            &&& same_columns(focus_numbered_row(s, index), s)
        }),
{
    assert(s.active_column().wf());
}

/// A column that moves is in the place that it moved to and keeps the focus. The others stay
/// in their order.
pub proof fn column_goes_to_its_place(s: SpaceState, idx: int)
    requires
        s.wf(),
        0 <= idx < s.columns.len(),
    ensures
        ({
            let after = move_column_to(s, idx);
            &&& after.columns.len() == s.columns.len()
            &&& after.active == idx
            &&& after.active_column() == s.active_column()
            &&& after.columns.remove(idx) == s.columns.remove(s.active)
        }),
{
    assert(s.columns.remove(s.active).insert(idx, s.active_column()).remove(idx)
        =~= s.columns.remove(s.active));
}

/// A column moves by one place to the side that is asked for, if there is one.
pub proof fn columns_move_by_one_place(s: SpaceState)
    requires
        s.wf(),
    ensures
        moved_left(s).1 <==> s.active > 0,
        moved_left(s).1 ==> moved_left(s).0.active == s.active - 1,
        !moved_left(s).1 ==> moved_left(s).0 == s,
        moved_right(s).1 <==> s.active + 1 < s.columns.len(),
        moved_right(s).1 ==> moved_right(s).0.active == s.active + 1,
        !moved_right(s).1 ==> moved_right(s).0 == s,
        s.columns.len() > 0 ==> moved_left(s).0.active_column() == s.active_column()
            && moved_right(s).0.active_column() == s.active_column(),
{
}

/// A column that goes to the right and back is where it was.
pub proof fn columns_come_back(s: SpaceState)
    requires
        s.wf(),
        moved_right(s).1,
    ensures
        moved_left(moved_right(s).0).0.columns == s.columns,
        moved_left(moved_right(s).0).0.active == s.active,
{
    let there = moved_right(s).0;
    assert(there.columns =~= s.columns.remove(s.active).insert(s.active + 1, s.active_column()));
    assert(there.columns.remove(s.active + 1).insert(s.active, s.active_column()) =~= s.columns);
}

/// A column goes to the first place, to the last one or to the one with a number, and keeps
/// the focus.
pub proof fn columns_move_to_the_place_asked_for(s: SpaceState, index: int)
    requires
        s.wf(),
        s.columns.len() > 0,
    ensures
        moved_to_first(s).active == 0,
        moved_to_last(s).active + 1 == s.columns.len(),
        1 <= index <= s.columns.len() ==> moved_to_place(s, index).active + 1 == index,
        index < 1 ==> moved_to_place(s, index).active == 0,
        index > s.columns.len() ==> moved_to_place(s, index).active + 1 == s.columns.len(),
        moved_to_first(s).active_column() == s.active_column(),
        moved_to_last(s).active_column() == s.active_column(),
        moved_to_place(s, index).active_column() == s.active_column(),
{
}

/// A window moves up by one row, if there is one, and keeps the focus. The others stay in
/// their order.
pub proof fn windows_move_up(s: SpaceState)
    requires
        s.wf(),
        s.columns.len() > 0,
    ensures
        ({
            let (after, moved) = move_up(s);
            let from = s.active_column().active;
            &&& moved <==> from > 0
            &&& !moved ==> after == s
            &&& after.active == s.active
            &&& focused(after) == focused(s)
            &&& moved ==> after.active_column().active == from - 1
            &&& moved ==> after.active_column().tiles.remove(from - 1)
                == s.active_column().tiles.remove(from)
        }),
{
    let c = s.active_column();
    assert(c.wf());
    if c.active > 0 {
        assert(swap_active_tile(c, c.active - 1).tiles.remove(c.active - 1) =~= c.tiles.remove(
            c.active,
        ));
    }
}

/// A window moves down by one row, if there is one, and keeps the focus. The others stay in
/// their order.
pub proof fn windows_move_down(s: SpaceState)
    requires
        s.wf(),
        s.columns.len() > 0,
    ensures
        ({
            let (after, moved) = move_down(s);
            let from = s.active_column().active;
            &&& moved <==> from + 1 < s.active_column().tiles.len()
            &&& !moved ==> after == s
            &&& after.active == s.active
            &&& focused(after) == focused(s)
            &&& moved ==> after.active_column().active == from + 1
            &&& moved ==> after.active_column().tiles.remove(from + 1)
                == s.active_column().tiles.remove(from)
        }),
{
    let c = s.active_column();
    assert(c.wf());
    if c.active + 1 < c.tiles.len() {
        assert(swap_active_tile(c, c.active + 1).tiles.remove(c.active + 1) =~= c.tiles.remove(
            c.active,
        ));
    }
}

/// A new column is in its place, and gets the focus if and only if it asks for it.
pub proof fn new_columns_get_the_focus_they_ask_for(
    s: SpaceState,
    idx: int,
    column: ColumnState,
    activate: bool,
)
    requires
        s.wf(),
        0 <= idx <= s.columns.len(),
    ensures
        ({
            let after = insert_column(s, idx, column, activate);
            &&& after.columns[idx] == column
            &&& after.columns.remove(idx) == s.columns
            &&& activate ==> after.active == idx
            &&& !activate && s.columns.len() > 0 ==> after.active_column() == s.active_column()
                && after.active != idx
            &&& activate ==> (after.returns_left <==> s.columns.len() > 0 && idx == s.active + 1)
        }),
{
    assert(s.columns.insert(idx, column).remove(idx) =~= s.columns);
}

/// When a column goes, the focus stays where it is. When the active one goes, the focus goes
/// back to the left if that is where it came from, and else to the column that takes its
/// place, or to the last one.
pub proof fn focus_survives_a_column(s: SpaceState, idx: int)
    requires
        s.wf(),
        0 <= idx < s.columns.len(),
        s.columns.len() > 1,
    ensures
        ({
            let after = remove_column(s, idx);
            &&& idx != s.active ==> after.active_column() == s.active_column()
            &&& idx == s.active && s.returns_left && idx > 0 ==> after.active_column()
                == s.columns[idx - 1]
            &&& idx == s.active && !s.returns_left && idx + 1 < s.columns.len()
                ==> after.active_column() == s.columns[idx + 1]
            &&& idx == s.active && !s.returns_left && idx + 1 == s.columns.len()
                ==> after.active_column() == s.columns[idx - 1]
        }),
{
}

/// A window is resized until that ends, and while it is, no other one can be.
pub proof fn one_window_is_resized_at_a_time(
    s: SpaceState,
    id: u64,
    edges: ResizeEdge,
    other: u64,
)
    requires
        s.wf(),
        s.holds(id),
        s.holds(other),
    ensures
        resize_begin(s, id, edges).1 ==> s.resize is None && resize_begin(s, id, edges).0.resize
            == Some((id, edges)),
        resize_begin(s, id, edges).1 ==> !resize_begin(
            resize_begin(s, id, edges).0,
            other,
            edges,
        ).1,
        s.resize is Some ==> resize_begin(s, id, edges).0 == s,
        resize_end(s, None).resize is None,
        s.resize matches Some(r) ==> (resize_end(s, Some(id)).resize is None <==> r.0 == id),
        s.resize is None ==> resize_end(s, Some(id)) == s,
{
}

/// Only the window that is being resized follows the pointer.
pub proof fn only_the_resized_window_follows(s: SpaceState, id: u64, dx: u64, dy: u64)
    ensures
        ({
            let (after, moved) = resize_update(s, id, dx, dy);
            &&& moved <==> s.resize is Some && (s.resize->0).0 == id
            &&& !moved ==> after == s
            &&& moved ==> after.requests.last() == (Request::Drag { window: id, dx, dy })
            &&& moved ==> after.requests.drop_last() == s.requests
            &&& after.resize == s.resize && after.columns == s.columns
        }),
{
    let (after, moved) = resize_update(s, id, dx, dy);
    if moved {
        assert(after.requests.drop_last() =~= s.requests);
    }
}

/// A column shows its tiles as asked for, and tiles that are visible together cover nothing.
pub proof fn columns_are_shown_as_asked_for(s: SpaceState, display: ColumnDisplay)
    requires
        s.wf(),
        s.columns.len() > 0,
    ensures
        ({
            let after = set_column_display(s, display);
            &&& after.active_column().display == display
            &&& same_columns(after, s)
            &&& after.active == s.active
            &&& focused(after) == focused(s)
            &&& forall|i: int|
                0 <= i < s.columns.len() && i != s.active ==> #[trigger] after.columns[i]
                    == s.columns[i]
            &&& display is Normal && s.active_column().tiles.len() > 1
                ==> !after.active_column().fullscreen && !after.active_column().maximized
            &&& !(display is Normal && s.active_column().tiles.len() > 1)
                ==> after.active_column().fullscreen == s.active_column().fullscreen
                && after.active_column().maximized == s.active_column().maximized
        }),
{
    assert(s.active_column().wf());
}

/// Toggling the tabs of a column changes how it shows its tiles, and toggling them twice does
/// not.
pub proof fn tabs_are_toggled(s: SpaceState)
    requires
        s.wf(),
        s.columns.len() > 0,
    ensures
        tabbed_toggled(s).active_column().display != s.active_column().display,
        tabbed_toggled(tabbed_toggled(s)).active_column().display == s.active_column().display,
        same_columns(tabbed_toggled(s), s),
{
}

/// Toggling the full width of a column changes it, and toggling it twice does not.
pub proof fn full_width_is_toggled(s: SpaceState)
    requires
        s.wf(),
        s.columns.len() > 0,
    ensures
        width_toggled(s).active_column().full_width != s.active_column().full_width,
        width_toggled(width_toggled(s)).columns == s.columns,
        same_columns(width_toggled(s), s),
        width_toggled(s).active == s.active,
        forall|i: int|
            0 <= i < s.columns.len() && i != s.active ==> #[trigger] width_toggled(s).columns[i]
                == s.columns[i],
{
    assert(width_toggled(width_toggled(s)).columns =~= s.columns);
}

/// What is asked of the geometry is asked for the visible window of the tile that is meant.
pub proof fn requests_are_for_the_window_meant(
    s: SpaceState,
    window: Option<u64>,
    request: SizeRequest,
)
    requires
        s.wf(),
        has_target(s, window),
    ensures
        request_width(s, window, request).requests.last() is Width,
        request_width(s, window, request).requests.last()->Width_request == request,
        request_height(s, window, request).requests.last() is Height,
        request_height(s, window, request).requests.last()->Height_request == request,
        center_requested(s, window).requests.last() is Center,
        window is None ==> {
            &&& request_width(s, window, request).requests.last()->Width_window == focused(s).id
            &&& request_height(s, window, request).requests.last()->Height_window == focused(s).id
            &&& center_requested(s, window).requests.last()->Center_window == focused(s).id
        },
        window matches Some(id) ==> exists|c: int, t: int|
            0 <= c < s.columns.len() && 0 <= t < s.columns[c].tiles.len() && (
            #[trigger] s.columns[c].tiles[t]).holds(id) && {
                let shown = s.columns[c].tiles[t].window.id;
                &&& request_width(s, window, request).requests.last()->Width_window == shown
                &&& request_height(s, window, request).requests.last()->Height_window == shown
                &&& center_requested(s, window).requests.last()->Center_window == shown
            },
        request_width(s, window, request).columns == s.columns,
        request_height(s, window, request).columns == s.columns,
        center_requested(s, window).columns == s.columns,
{
    if let Some(id) = window {
        column_of_finds_the_first(s, id);
        let c = column_of(s.columns, id);
        tile_of_finds_the_first(s.columns[c], id);
        let t = tile_of(s.columns[c].tiles, id);
        assert(s.columns[c].tiles[t].holds(id));
    }
}

} // verus!
