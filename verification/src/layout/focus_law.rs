//! The focus stays with a window that changes its layer or its mode.

use vstd::prelude::*;
use crate::layout::floating::{
    dialogs_of, dialogs_up_keeps_tiles, float_insert, float_remove, float_removed_window, shown_at,
    shown_from, shows, with_dialogs_up, FloatState,
};
use crate::layout::panel_law::at_most_once;
use crate::layout::row::{
    column_of, column_of_finds_the_first, column_without, consume_or_expel_right, coverable_idx,
    insert_column, made_coverable, must_leave_to_cover, next_column_idx, regrouped_right,
    remove_window, removed_window, resize_without_column, set_fullscreen, set_maximized, tile_of,
    tile_of_finds_the_first, SpaceState,
};
use crate::layout::tile::{single_tile_column, ColumnState, ColumnWidth, SizingMode, Tile};
use crate::layout::windows_law::{set_fullscreen_keeps_windows, set_maximized_keeps_windows};
use crate::layout::workspace::lemma_found;
use crate::layout::workspace_state::{
    can_toggle_floating, floating_focused, floating_toggled, fullscreen_set, fullscreen_toggled,
    layer_set, layer_switched, maximized_set, maximized_toggled, remembered, tile_added,
    tiling_focused, window_activated, window_focused, window_removed, ActivateWindow,
    WorkspaceAddWindowTarget, WorkspaceState,
};

verus! {

/// The window that has the focus.
pub open spec fn focused_id(s: WorkspaceState) -> Option<u64> {
    match s.active_window() {
        Some(window) => Some(window.id),
        None => None,
    }
}

proof fn lemma_shown_from(tiles: Seq<Tile>, id: u64, i: int)
    requires
        0 <= i <= tiles.len(),
        exists|k: int| i <= k < tiles.len() && (#[trigger] tiles[k]).window.id == id,
    ensures
        i <= shown_from(tiles, id, i) < tiles.len(),
        tiles[shown_from(tiles, id, i)].window.id == id,
    decreases tiles.len() - i,
{
    if i < tiles.len() && tiles[i].window.id != id {
        lemma_shown_from(tiles, id, i + 1);
    }
}

/// The window with the focus is the active one of the layer that is active: the one
/// that the floating layer names, or the visible one of the active tile of the active
/// column.
pub proof fn focus_is_in_the_active_layer(s: WorkspaceState)
    requires
        s.wf(),
    ensures
        s.active is Yes ==> focused_id(s) == s.float.active,
        !(s.active is Yes) && s.row.columns.len() > 0 ==> {
            let column = s.row.columns[s.row.active];
            focused_id(s) == Some(column.tiles[column.active].window.id)
        },
        !(s.active is Yes) && s.row.columns.len() == 0 ==> focused_id(s) is None,
{
    if s.active is Yes {
        if let Some(id) = s.float.active {
            lemma_shown_from(s.float.tiles, id, 0);
        }
    }
}

/// The same without the columns being in order.
proof fn lemma_focus(s: WorkspaceState)
    requires
        s.float.wf(),
    ensures
        s.active is Yes ==> focused_id(s) == s.float.active,
{
    if s.active is Yes {
        if let Some(id) = s.float.active {
            lemma_shown_from(s.float.tiles, id, 0);
        }
    }
}

proof fn lemma_insert_elsewhere(s: SpaceState, idx: int, column: ColumnState)
    requires
        s.wf(),
        s.columns.len() > 0,
        0 <= idx <= s.columns.len(),
    ensures
        ({
            let after = insert_column(s, idx, column, false);
            &&& after.columns.len() > 0
            &&& after.active_column() == s.active_column()
        }),
{
}

/// A window that leaves the columns without having the focus leaves the focus where it
/// is.
proof fn lemma_remove_elsewhere(s: SpaceState, id: u64)
    requires
        s.wf(),
        s.holds(id),
        ({
            let c = column_of(s.columns, id);
            s.columns[c].tiles[tile_of(s.columns[c].tiles, id)].window.id == id
        }),
        s.active_tile().window.id != id,
    ensures
        ({
            let after = remove_window(s, id);
            &&& after.columns.len() > 0
            &&& after.active_tile().window.id == s.active_tile().window.id
        }),
{
    column_of_finds_the_first(s, id);
    let c = column_of(s.columns, id);
    let column = s.columns[c];
    tile_of_finds_the_first(column, id);
    let t = tile_of(column.tiles, id);
    assert(column.wf());
    assert(s.columns[s.active].wf());
    let after = remove_window(s, id);
    match column.tiles[t].without(id) {
        None => {
            if column.tiles.len() == 1 {
                assert(c != s.active);
                assert(after.columns == s.columns.remove(c));
                assert(after.active_column() == s.active_column());
            } else if c == s.active {
                assert(t != column.active);
                let rest = after.columns[c];
                assert(rest.tiles == column.tiles.remove(t));
                assert(rest.tiles[rest.active] == column.tiles[column.active]);
            }
        },
        Some(rest) => {
            if c == s.active {
                assert(t != column.active);
            }
        },
    }
}

proof fn lemma_shows(tiles: Seq<Tile>, t: Tile)
    requires
        tiles.contains(t),
    ensures
        shows(tiles, t.window.id),
{
    let k = choose|k: int| 0 <= k < tiles.len() && tiles[k] == t;
    assert(tiles[k].window.id == t.window.id);
}

/// A tile that starts to float leaves the floating layer in order, with the focus on it
/// or where it was.
proof fn lemma_float_insert(s: FloatState, idx: int, tile: Tile, activate: bool)
    requires
        s.wf(),
        0 <= idx <= s.tiles.len(),
    ensures
        ({
            let after = float_insert(s, idx, tile, activate);
            &&& after.wf()
            &&& shows(after.tiles, tile.window.id)
            &&& activate ==> after.active == Some(tile.window.id)
            &&& !activate && s.tiles.len() > 0 ==> after.active == s.active
        }),
{
    let added = Tile { sizing: SizingMode::Normal, ..tile };
    let inserted = s.tiles.insert(idx, added);
    let up = with_dialogs_up(inserted, idx);
    dialogs_up_keeps_tiles(inserted, idx);
    assert(inserted[idx] == added);
    assert(inserted.contains(added));
    assert(up.contains(added));
    lemma_shows(up, added);
    if let Some(id) = s.active {
        let i = choose|i: int| 0 <= i < s.tiles.len() && (#[trigger] s.tiles[i]).window.id == id;
        let k = if i < idx {
            i
        } else {
            i + 1
        };
        assert(inserted[k] == s.tiles[i]);
        assert(inserted.contains(s.tiles[i]));
        assert(up.contains(s.tiles[i]));
        lemma_shows(up, s.tiles[i]);
    }
}

/// A floating window that leaves leaves the layer in order, and the focus where it is
/// if it didn't have it.
proof fn lemma_float_remove(s: FloatState, id: u64)
    requires
        s.wf(),
        s.holds(id),
        s.tiles[tile_of(s.tiles, id)].window.id == id,
    ensures
        float_remove(s, id).wf(),
        s.active != Some(id) ==> float_remove(s, id).active == s.active,
        s.active != Some(id) ==> float_remove(s, id).tiles.len() > 0,
{
    lemma_found(s, id);
    let idx = tile_of(s.tiles, id);
    let after = float_remove(s, id);
    assert(s.active is Some);
    let active = s.active->0;
    let i = choose|i: int| 0 <= i < s.tiles.len() && (#[trigger] s.tiles[i]).window.id == active;
    match s.tiles[idx].without(id) {
        None => {
            assert(after.tiles == s.tiles.remove(idx));
            if active != id {
                let k = if i < idx {
                    i
                } else {
                    i - 1
                };
                assert(after.tiles[k] == s.tiles[i]);
                assert(after.tiles[k].window.id == active);
            } else if after.tiles.len() > 0 {
                assert(after.tiles[0].window.id == after.active->0);
            }
        },
        Some(rest) => {
            assert(after.tiles == s.tiles.update(idx, rest));
            if active != id {
                assert(after.tiles[i].window.id == active);
            } else {
                assert(after.tiles[idx].window.id == rest.window.id);
            }
        },
    }
}

/// The window that an operation is for: the one that is given, or else the one with the
/// focus.
pub open spec fn meant(s: WorkspaceState, id: Option<u64>) -> Option<u64> {
    if id is Some {
        id
    } else {
        focused_id(s)
    }
}

/// The focus goes along with a window that is made to float or to stop floating, be it
/// named or simply the active one. A window without the focus doesn't take it by that.
pub proof fn focus_follows_toggling(s: WorkspaceState, id: Option<u64>)
    requires
        s.wf(),
        can_toggle_floating(s, id),
        focused_id(s) is Some,
    ensures
        focused_id(floating_toggled(s, id)) == focused_id(s),
        meant(s, id) == focused_id(s) ==> focused_id(floating_toggled(s, id)) == meant(s, id),
{
    let target = meant(s, id)->0;
    let after = floating_toggled(s, id);
    let focused = s.active_window() matches Some(w) && w.id == target;
    focus_is_in_the_active_layer(s);
    if s.float.holds(target) {
        lemma_found(s.float, target);
        let removed = float_removed_window(s.float, target);
        let column = single_tile_column(removed.tile, removed.width, removed.is_full_width);
        assert(column.tiles[0].window.id == target);
        lemma_float_remove(s.float, target);
        if focused {
            assert(after.row.active_column() == column);
        } else {
            if s.row.columns.len() > 0 {
                lemma_insert_elsewhere(s.row, next_column_idx(s.row), column);
            }
        }
        lemma_focus(after);
    } else {
        column_of_finds_the_first(s.row, target);
        let removed = removed_window(s.row, target);
        assert(removed.tile.window.id == target);
        lemma_float_insert(s.float, 0, removed.tile, focused);
        let inserted = float_insert(s.float, 0, removed.tile, focused);
        assert(after.float.tiles == inserted.tiles && after.float.active == inserted.active);
        if !focused && !(s.active is Yes) {
            lemma_remove_elsewhere(s.row, target);
        }
        lemma_focus(after);
    }
}

/// Without a window to toggle nothing happens.
pub proof fn nothing_is_toggled_without_a_window(s: WorkspaceState)
    requires
        focused_id(s) is None,
    ensures
        floating_toggled(s, None) == s,
{
}

/// Toggling the active window is toggling it by its id.
pub proof fn the_active_window_is_toggled_by_default(s: WorkspaceState)
    requires
        focused_id(s) is Some,
    ensures
        floating_toggled(s, None) == floating_toggled(s, focused_id(s)),
{
}

/// A window that stops to float is alone in a column right behind the active one, or in
/// the first one. The other columns stay in their order.
pub proof fn toggled_window_opens_next_to_the_active_column(s: WorkspaceState, id: u64)
    requires
        s.wf(),
        s.float.holds(id),
        s.shows(id),
    ensures
        ({
            let after = floating_toggled(s, Some(id));
            let at = if s.row.columns.len() == 0 {
                0
            } else {
                s.row.active + 1
            };
            &&& after.row.columns.len() == s.row.columns.len() + 1
            &&& after.row.columns[at].tiles.len() == 1
            &&& after.row.columns[at].tiles[0].window.id == id
            &&& after.row.columns.remove(at) == s.row.columns
        }),
{
    lemma_found(s.float, id);
    let at = next_column_idx(s.row);
    let after = floating_toggled(s, Some(id));
    assert(after.row.columns.remove(at) =~= s.row.columns);
}

/// A window that starts to float is on top of all others but its own dialogs.
pub proof fn toggled_window_is_on_top(s: WorkspaceState, id: u64)
    requires
        s.wf(),
        !s.float.holds(id),
        s.shows(id),
    ensures
        ({
            let tiles = floating_toggled(s, Some(id)).float.tiles;
            exists|k: int|
                0 <= k < tiles.len() && (#[trigger] tiles[k]).window.id == id && forall|j: int|
                    0 <= j < k ==> (#[trigger] tiles[j]).window.parent == Some(id)
        }),
{
    column_of_finds_the_first(s.row, id);
    let removed = removed_window(s.row, id);
    let added = Tile { sizing: SizingMode::Normal, ..removed.tile };
    let inserted = s.float.tiles.insert(0, added);
    let dialogs = dialogs_of(inserted.skip(1), id);
    let tiles = floating_toggled(s, Some(id)).float.tiles;
    lemma_dialogs(inserted.skip(1), id);
    assert(inserted[0] == added);
    assert(inserted.take(0) =~= seq![]);
    assert(tiles == with_dialogs_up(inserted, 0));
    let k = dialogs.len() as int;
    assert(tiles[k] == added);
    assert forall|j: int| 0 <= j < k implies (#[trigger] tiles[j]).window.parent == Some(id) by {
        assert(tiles[j] == dialogs[j]);
    }
}

proof fn lemma_dialogs(tiles: Seq<Tile>, id: u64)
    ensures
        forall|j: int|
            0 <= j < dialogs_of(tiles, id).len() ==> (
            #[trigger] dialogs_of(tiles, id)[j]).window.parent == Some(
                id,
            ),
    decreases tiles.len(),
{
    if tiles.len() > 0 {
        lemma_dialogs(tiles.drop_last(), id);
    }
}

/// A window that is moved to a layer is there, and a window that is there already isn't
/// touched.
pub proof fn windows_go_to_the_layer_asked_for(s: WorkspaceState, id: u64, floating: bool)
    requires
        s.wf(),
        s.shows(id),
    ensures
        floating ==> layer_set(s, Some(id), floating).float.holds(id),
        !floating ==> layer_set(s, Some(id), floating).row.holds(id),
        s.float.holds(id) == floating ==> layer_set(s, Some(id), floating) == s,
{
    crate::layout::panel_law::toggled_window_is_in_the_other_layer(s, id);
    column_of_finds_the_first(s.row, id);
}

/// The focus stays with a window that is moved to a layer.
pub proof fn focus_follows_to_the_layer(s: WorkspaceState, id: Option<u64>, floating: bool)
    requires
        s.wf(),
        can_toggle_floating(s, id),
        focused_id(s) is Some,
    ensures
        focused_id(layer_set(s, id, floating)) == focused_id(s),
{
    focus_follows_toggling(s, id);
}

/// Moving the focus to a layer moves it there where that layer has windows, and moves
/// nothing else.
pub proof fn focus_goes_to_the_layer_asked_for(s: WorkspaceState)
    requires
        s.wf(),
        s.float.tiles.len() > 0,
        s.row.columns.len() > 0,
    ensures
        focused_id(floating_focused(s)) == s.float.active,
        focused_id(tiling_focused(s)) == Some(s.row.active_tile().window.id),
        layer_switched(s).active is Yes <==> !(s.active is Yes),
        layer_switched(s).float == s.float,
        layer_switched(s).row.columns == s.row.columns,
        layer_switched(s).row.active == s.row.active,
{
    lemma_focus(floating_focused(s));
}

/// A window that leaves a column that it shares keeps the focus or leaves it where it
/// is, and is alone in the column to the right.
proof fn lemma_expelled_focus(s: SpaceState, id: u64)
    requires
        s.wf(),
        s.holds(id),
        ({
            let c = column_of(s.columns, id);
            &&& s.columns[c].tiles.len() > 1
            &&& s.columns[c].tiles[tile_of(s.columns[c].tiles, id)].window.id == id
        }),
    ensures
        ({
            let after = consume_or_expel_right(s, Some(id));
            let c = column_of(s.columns, id);
            &&& after.columns.len() == s.columns.len() + 1
            &&& 0 <= after.active < after.columns.len()
            &&& 0 <= after.active_column().active < after.active_column().tiles.len()
            &&& after.active_tile().window.id == s.active_tile().window.id
            &&& after.columns[c + 1].tiles.len() == 1
            &&& after.columns[c + 1].tiles[0].window.id == id
        }),
{
    column_of_finds_the_first(s, id);
    let c = column_of(s.columns, id);
    let column = s.columns[c];
    tile_of_finds_the_first(column, id);
    let t = tile_of(column.tiles, id);
    assert(column.wf());
    assert(s.columns[s.active].wf());
    let base = regrouped_right(s, Some(id));
    let after = consume_or_expel_right(s, Some(id));
    let rest = column_without(column, t);
    let single = single_tile_column(
        crate::layout::row::leaving_tile(column, t),
        column.width,
        column.full_width,
    );
    assert(base.columns == s.columns.update(c, rest).insert(c + 1, single));
    assert(after.active == base.active);
    assert forall|i: int| 0 <= i < base.columns.len() implies (#[trigger] after.columns[i]).tiles
        == base.columns[i].tiles && after.columns[i].active == base.columns[i].active by {}
    let was_active = s.active == c && column.active == t;
    if was_active {
        assert(base.active == c + 1);
    } else if s.active == c {
        assert(base.active == c);
        assert(base.columns[c] == rest);
        assert(rest.tiles[rest.active] == column.tiles[column.active]);
    } else if s.active < c {
        assert(base.columns[base.active] == s.columns[s.active]);
    } else {
        assert(base.active == s.active + 1);
        assert(base.columns[base.active] == s.columns[s.active]);
    }
}

/// A window among the columns that is made fullscreen or not keeps the focus or leaves it
/// where it is, and is in a column that is fullscreen as asked for.
proof fn lemma_row_fullscreen(s: SpaceState, id: u64, on: bool)
    requires
        s.wf(),
        s.holds(id),
        ({
            let c = column_of(s.columns, id);
            s.columns[c].tiles[tile_of(s.columns[c].tiles, id)].window.id == id
        }),
    ensures
        ({
            let after = set_fullscreen(s, id, on);
            let c = column_of(s.columns, id);
            let k = coverable_idx(s, id, on && !s.columns[c].fullscreen);
            &&& 0 <= after.active < after.columns.len()
            &&& 0 <= after.active_column().active < after.active_column().tiles.len()
            &&& after.active_tile().window.id == s.active_tile().window.id
            &&& 0 <= k < after.columns.len()
            &&& after.columns[k].holds(id)
            &&& after.columns[k].fullscreen == on
            &&& !must_leave_to_cover(s.columns[c]) ==> after.columns[k].maximized
                == s.columns[c].maximized && after.columns[k].tiles == s.columns[c].tiles
                && after.columns.remove(c) == s.columns.remove(c)
        }),
{
    column_of_finds_the_first(s, id);
    let c = column_of(s.columns, id);
    let column = s.columns[c];
    tile_of_finds_the_first(column, id);
    let t = tile_of(column.tiles, id);
    assert(column.wf());
    assert(s.columns[s.active].wf());
    let after = set_fullscreen(s, id, on);
    if column.fullscreen != on {
        let stopped = SpaceState { resize: resize_without_column(s, column), ..s };
        if on && must_leave_to_cover(column) {
            let ready = made_coverable(s, id, on);
            assert(ready == consume_or_expel_right(stopped, Some(id)));
            lemma_expelled_focus(stopped, id);
            let covering = ColumnState { fullscreen: on, ..ready.columns[c + 1] };
            assert(after.columns == ready.columns.update(c + 1, covering));
            assert(covering.tiles[0].window.id == id);
            assert(covering.tiles[0].holds(id));
            assert(covering.holds(id));
        } else {
            let changed = ColumnState { fullscreen: on, ..column };
            assert(after.columns == s.columns.update(c, changed));
            assert(changed.tiles[t].holds(id));
            assert(changed.holds(id));
            assert(after.columns.remove(c) =~= s.columns.remove(c));
        }
    }
}

/// A window among the columns that is made maximized or not keeps the focus or leaves it
/// where it is, and is in a column that is maximized as asked for.
proof fn lemma_row_maximized(s: SpaceState, id: u64, on: bool)
    requires
        s.wf(),
        s.holds(id),
        ({
            let c = column_of(s.columns, id);
            s.columns[c].tiles[tile_of(s.columns[c].tiles, id)].window.id == id
        }),
    ensures
        ({
            let after = set_maximized(s, id, on);
            let c = column_of(s.columns, id);
            let k = coverable_idx(s, id, on && !s.columns[c].maximized);
            &&& 0 <= after.active < after.columns.len()
            &&& 0 <= after.active_column().active < after.active_column().tiles.len()
            &&& after.active_tile().window.id == s.active_tile().window.id
            &&& 0 <= k < after.columns.len()
            &&& after.columns[k].holds(id)
            &&& after.columns[k].maximized == on
            &&& !must_leave_to_cover(s.columns[c]) ==> after.columns[k].fullscreen
                == s.columns[c].fullscreen && after.columns[k].tiles == s.columns[c].tiles
                && after.columns.remove(c) == s.columns.remove(c)
        }),
{
    column_of_finds_the_first(s, id);
    let c = column_of(s.columns, id);
    let column = s.columns[c];
    tile_of_finds_the_first(column, id);
    let t = tile_of(column.tiles, id);
    assert(column.wf());
    assert(s.columns[s.active].wf());
    let after = set_maximized(s, id, on);
    if column.maximized != on {
        let stopped = SpaceState { resize: resize_without_column(s, column), ..s };
        if on && must_leave_to_cover(column) {
            let ready = made_coverable(s, id, on);
            assert(ready == consume_or_expel_right(stopped, Some(id)));
            lemma_expelled_focus(stopped, id);
            let covering = ColumnState { maximized: on, ..ready.columns[c + 1] };
            assert(after.columns == ready.columns.update(c + 1, covering));
            assert(covering.tiles[0].window.id == id);
            assert(covering.tiles[0].holds(id));
            assert(covering.holds(id));
        } else {
            let changed = ColumnState { maximized: on, ..column };
            assert(after.columns == s.columns.update(c, changed));
            assert(changed.tiles[t].holds(id));
            assert(changed.holds(id));
            assert(after.columns.remove(c) =~= s.columns.remove(c));
        }
    }
}

/// What a tile remembers of having floated changes neither the focus nor the columns
/// otherwise.
proof fn lemma_remembered(
    before: WorkspaceState,
    s: WorkspaceState,
    id: u64,
    floated: bool,
    k: int,
)
    requires
        s.float.wf(),
        s.row.holds(id),
        0 <= s.row.active < s.row.columns.len(),
        0 <= s.row.active_column().active < s.row.active_column().tiles.len(),
        0 <= k < s.row.columns.len(),
        s.row.columns[k].holds(id),
    ensures
        ({
            let after = remembered(before, s, id, floated);
            &&& focused_id(after) == focused_id(s)
            &&& after.float == s.float
            &&& after.row.columns.len() == s.row.columns.len()
            &&& after.row.columns[k].holds(id)
            &&& after.row.columns[k].fullscreen == s.row.columns[k].fullscreen
            &&& after.row.columns[k].maximized == s.row.columns[k].maximized
        }),
{
    column_of_finds_the_first(s.row, id);
    let c = column_of(s.row.columns, id);
    let column = s.row.columns[c];
    tile_of_finds_the_first(column, id);
    let t = tile_of(column.tiles, id);
    let after = remembered(before, s, id, floated);
    if after != s {
        let kept = Tile { restore_to_floating: floated, ..column.tiles[t] };
        let changed = ColumnState { tiles: column.tiles.update(t, kept), ..column };
        assert(after.row.columns == s.row.columns.update(c, changed));
        assert(kept.holds(id));
        assert(changed.tiles[t].holds(id));
        assert(changed.holds(id));
        let a = s.row.active_column();
        assert(after.row.active_tile().window == s.row.active_tile().window);
    }
}

/// A floating window that goes to the columns leaves both layers in order, and is the
/// visible one of the tile that it is found in.
proof fn lemma_toggled(s: WorkspaceState, id: u64)
    requires
        s.wf(),
        s.float.holds(id),
        s.shows(id),
        !s.row.holds(id),
    ensures
        ({
            let after = floating_toggled(s, Some(id));
            &&& after.row.wf()
            &&& after.float.wf()
            &&& after.row.holds(id)
            &&& after.tile_with(id).window.id == id
        }),
{
    lemma_found(s.float, id);
    lemma_float_remove(s.float, id);
    let after = floating_toggled(s, Some(id));
    let at = next_column_idx(s.row);
    let removed = float_removed_window(s.float, id);
    let column = single_tile_column(removed.tile, removed.width, removed.is_full_width);
    assert(column.tiles[0].holds(id));
    assert(column.holds(id));
    assert(after.row.columns == s.row.columns.insert(at, column));
    assert(after.row.columns[at] == column);
    assert forall|i: int| 0 <= i < after.row.columns.len() implies (
    #[trigger] after.row.columns[i]).wf() by {
        if i < at {
            assert(after.row.columns[i] == s.row.columns[i]);
        } else if i > at {
            assert(after.row.columns[i] == s.row.columns[i - 1]);
        }
    }
    column_of_finds_the_first(after.row, id);
    let c = column_of(after.row.columns, id);
    if c < at {
        assert(after.row.columns[c] == s.row.columns[c]);
        assert(s.row.columns[c].holds(id));
        assert(false);
    }
    tile_of_finds_the_first(column, id);
}

proof fn lemma_row_fullscreen_found(s: WorkspaceState, id: u64, on: bool, floated: bool)
    requires
        s.row.wf(),
        s.float.wf(),
        s.row.holds(id),
        s.tile_with(id).window.id == id,
    ensures
        ({
            let covered = WorkspaceState { row: set_fullscreen(s.row, id, on), ..s };
            let after = remembered(s, covered, id, floated);
            &&& focused_id(after) == focused_id(s)
            &&& after.float == s.float
            &&& on ==> is_fullscreen(after, id)
            &&& !on ==> is_not_fullscreen(after, id)
        }),
{
    lemma_row_fullscreen(s.row, id, on);
    set_fullscreen_keeps_windows(s.row, id, on);
    let covered = WorkspaceState { row: set_fullscreen(s.row, id, on), ..s };
    let after = remembered(s, covered, id, floated);
    let c = column_of(s.row.columns, id);
    let k = coverable_idx(s.row, id, on && !s.row.columns[c].fullscreen);
    assert(s.row.holds(id) == covered.row.holds(id));
    lemma_remembered(s, covered, id, floated, k);
    lemma_focus(s);
    lemma_focus(covered);
    assert(after.row.columns[k].holds(id));
}

/// Whether a window is among the columns and fullscreen.
pub open spec fn is_fullscreen(s: WorkspaceState, id: u64) -> bool {
    exists|k: int|
        0 <= k < s.row.columns.len() && (#[trigger] s.row.columns[k]).holds(id)
            && s.row.columns[k].fullscreen
}

/// Whether a window is on a workspace without being fullscreen: it floats, or its column
/// isn't.
pub open spec fn is_not_fullscreen(s: WorkspaceState, id: u64) -> bool {
    s.float.holds(id) || exists|k: int|
        0 <= k < s.row.columns.len() && (#[trigger] s.row.columns[k]).holds(id)
            && !s.row.columns[k].fullscreen
}

/// A window is fullscreen if and only if that is asked for, whichever layer it was in, and
/// the focus stays where it is.
pub proof fn fullscreen_as_asked_for(s: WorkspaceState, id: u64, on: bool)
    requires
        s.wf(),
        s.shows(id),
        !(s.float.holds(id) && s.row.holds(id)),
        focused_id(s) is Some,
    ensures
        on ==> is_fullscreen(fullscreen_set(s, id, on), id),
        !on ==> is_not_fullscreen(fullscreen_set(s, id, on), id),
        focused_id(fullscreen_set(s, id, on)) == focused_id(s),
{
    let after = fullscreen_set(s, id, on);
    focus_is_in_the_active_layer(s);
    if s.float.holds(id) {
        if on {
            focus_follows_toggling(s, Some(id));
            toggled_window_opens_next_to_the_active_column(s, id);
            lemma_toggled(s, id);
            let tiled = floating_toggled(s, Some(id));
            lemma_row_fullscreen_found(tiled, id, true, true);
        }
    } else {
        column_of_finds_the_first(s.row, id);
        let column = s.column_with(id);
        tile_of_finds_the_first(column, id);
        if after == floating_toggled(s, Some(id)) && !on {
            focus_follows_toggling(s, Some(id));
            crate::layout::panel_law::toggled_window_is_in_the_other_layer(s, id);
        }
        lemma_row_fullscreen_found(s, id, on, false);
    }
}

proof fn lemma_row_maximized_found(s: WorkspaceState, id: u64, on: bool, floated: bool)
    requires
        s.row.wf(),
        s.float.wf(),
        s.row.holds(id),
        s.tile_with(id).window.id == id,
    ensures
        ({
            let covered = WorkspaceState { row: set_maximized(s.row, id, on), ..s };
            let after = remembered(s, covered, id, floated);
            &&& focused_id(after) == focused_id(s)
            &&& after.float == s.float
            &&& on ==> is_maximized(after, id)
            &&& !on ==> is_not_maximized(after, id)
        }),
{
    lemma_row_maximized(s.row, id, on);
    set_maximized_keeps_windows(s.row, id, on);
    let covered = WorkspaceState { row: set_maximized(s.row, id, on), ..s };
    let after = remembered(s, covered, id, floated);
    let c = column_of(s.row.columns, id);
    let k = coverable_idx(s.row, id, on && !s.row.columns[c].maximized);
    assert(s.row.holds(id) == covered.row.holds(id));
    lemma_remembered(s, covered, id, floated, k);
    lemma_focus(s);
    lemma_focus(covered);
    assert(after.row.columns[k].holds(id));
}

/// Whether a window is among the columns and maximized.
pub open spec fn is_maximized(s: WorkspaceState, id: u64) -> bool {
    exists|k: int|
        0 <= k < s.row.columns.len() && (#[trigger] s.row.columns[k]).holds(id)
            && s.row.columns[k].maximized
}

/// Whether a window is on a workspace without being maximized: it floats, or its column
/// isn't.
pub open spec fn is_not_maximized(s: WorkspaceState, id: u64) -> bool {
    s.float.holds(id) || exists|k: int|
        0 <= k < s.row.columns.len() && (#[trigger] s.row.columns[k]).holds(id)
            && !s.row.columns[k].maximized
}

/// A window is maximized if and only if that is asked for, whichever layer it was in, and
/// the focus stays where it is.
pub proof fn maximized_as_asked_for(s: WorkspaceState, id: u64, on: bool)
    requires
        s.wf(),
        s.shows(id),
        !(s.float.holds(id) && s.row.holds(id)),
        focused_id(s) is Some,
    ensures
        on ==> is_maximized(maximized_set(s, id, on), id),
        !on ==> is_not_maximized(maximized_set(s, id, on), id),
        focused_id(maximized_set(s, id, on)) == focused_id(s),
{
    let after = maximized_set(s, id, on);
    focus_is_in_the_active_layer(s);
    if s.float.holds(id) {
        if on {
            focus_follows_toggling(s, Some(id));
            toggled_window_opens_next_to_the_active_column(s, id);
            lemma_toggled(s, id);
            let tiled = floating_toggled(s, Some(id));
            lemma_row_maximized_found(tiled, id, true, true);
        }
    } else {
        column_of_finds_the_first(s.row, id);
        let column = s.column_with(id);
        tile_of_finds_the_first(column, id);
        if after == floating_toggled(s, Some(id)) && !on {
            focus_follows_toggling(s, Some(id));
            crate::layout::panel_law::toggled_window_is_in_the_other_layer(s, id);
        }
        lemma_row_maximized_found(s, id, on, false);
    }
}

/// Asking for the other mode turns fullscreen mode on where it is off, and off where it
/// is on.
pub proof fn fullscreen_is_toggled(s: WorkspaceState, id: u64)
    requires
        s.wf(),
        s.shows(id),
        !(s.float.holds(id) && s.row.holds(id)),
        focused_id(s) is Some,
    ensures
        s.float.holds(id) || !s.column_with(id).fullscreen ==> is_fullscreen(
            fullscreen_toggled(s, id),
            id,
        ),
        !s.float.holds(id) && s.column_with(id).fullscreen ==> is_not_fullscreen(
            fullscreen_toggled(s, id),
            id,
        ),
        focused_id(fullscreen_toggled(s, id)) == focused_id(s),
{
    fullscreen_as_asked_for(s, id, true);
    fullscreen_as_asked_for(s, id, false);
}

/// Asking for the other mode turns maximized mode on where it is off, and off where it is
/// on.
pub proof fn maximized_is_toggled(s: WorkspaceState, id: u64)
    requires
        s.wf(),
        s.shows(id),
        !(s.float.holds(id) && s.row.holds(id)),
        focused_id(s) is Some,
    ensures
        s.float.holds(id) || !s.column_with(id).maximized ==> is_maximized(
            maximized_toggled(s, id),
            id,
        ),
        !s.float.holds(id) && s.column_with(id).maximized ==> is_not_maximized(
            maximized_toggled(s, id),
            id,
        ),
        focused_id(maximized_toggled(s, id)) == focused_id(s),
{
    maximized_as_asked_for(s, id, true);
    maximized_as_asked_for(s, id, false);
}

/// A window among the columns that never floated isn't made to float by its mode.
pub proof fn tiled_windows_stay_tiled(s: WorkspaceState, id: u64, on: bool)
    requires
        s.wf(),
        !s.float.holds(id),
        s.shows(id),
        on || !s.tile_with(id).restore_to_floating,
    ensures
        fullscreen_set(s, id, on).float == s.float,
        maximized_set(s, id, on).float == s.float,
        fullscreen_set(s, id, on).row.holds(id),
        maximized_set(s, id, on).row.holds(id),
{
    column_of_finds_the_first(s.row, id);
    tile_of_finds_the_first(s.column_with(id), id);
    lemma_row_fullscreen_found(s, id, on, false);
    lemma_row_maximized_found(s, id, on, false);
    let full = fullscreen_set(s, id, on);
    let big = maximized_set(s, id, on);
    assert(full.float == s.float && big.float == s.float);
    let k = choose|k: int|
        0 <= k < full.row.columns.len() && (#[trigger] full.row.columns[k]).holds(id);
    let m = choose|m: int|
        0 <= m < big.row.columns.len() && (#[trigger] big.row.columns[m]).holds(id);
    assert(full.row.columns[k].holds(id));
    assert(big.row.columns[m].holds(id));
}

/// A window that is activated has the focus, and a window that isn't there changes
/// nothing.
pub proof fn activated_window_has_the_focus(s: WorkspaceState, id: u64)
    requires
        s.wf(),
    ensures
        s.shows(id) ==> {
            &&& window_activated(s, id).1
            &&& focused_id(window_activated(s, id).0) == Some(id)
            &&& window_focused(s, id).1
            &&& focused_id(window_focused(s, id).0) == Some(id)
        },
        !s.float.holds(id) && !s.row.holds(id) ==> {
            &&& !window_activated(s, id).1
            &&& window_activated(s, id).0 == s
            &&& !window_focused(s, id).1
            &&& window_focused(s, id).0 == s
        },
{
    if s.shows(id) {
        if s.float.holds(id) {
            lemma_found(s.float, id);
            let idx = tile_of(s.float.tiles, id);
            let tile = s.float.tiles[idx];
            let lifted = s.float.tiles.remove(idx).insert(0, tile);
            let up = with_dialogs_up(lifted, 0);
            dialogs_up_keeps_tiles(lifted, 0);
            assert(lifted[0] == tile);
            assert(lifted.contains(tile));
            assert(up.contains(tile));
            lemma_shows(up, tile);
            lemma_focus(window_activated(s, id).0);
            assert(s.float.tiles.contains(tile));
            lemma_shows(s.float.tiles, tile);
            lemma_focus(window_focused(s, id).0);
        } else {
            column_of_finds_the_first(s.row, id);
            tile_of_finds_the_first(s.column_with(id), id);
        }
    }
}

/// A window that is raised is on top of the floating ones but for its dialogs, and one that
/// isn't to be raised stays where it is.
pub proof fn only_raising_changes_the_order(s: WorkspaceState, id: u64)
    requires
        s.wf(),
        s.float.holds(id),
        s.shows(id),
    ensures
        window_focused(s, id).0.float.tiles == s.float.tiles,
        ({
            let tiles = window_activated(s, id).0.float.tiles;
            exists|k: int|
                0 <= k < tiles.len() && (#[trigger] tiles[k]).window.id == id && forall|j: int|
                    0 <= j < k ==> (#[trigger] tiles[j]).window.parent == Some(id)
        }),
{
    lemma_found(s.float, id);
    let idx = tile_of(s.float.tiles, id);
    let tile = s.float.tiles[idx];
    let lifted = s.float.tiles.remove(idx).insert(0, tile);
    let tiles = window_activated(s, id).0.float.tiles;
    let dialogs = dialogs_of(lifted.skip(1), id);
    lemma_dialogs(lifted.skip(1), id);
    assert(lifted[0] == tile);
    assert(lifted.take(0) =~= seq![]);
    let k = dialogs.len() as int;
    assert(tiles[k] == tile);
    assert forall|j: int| 0 <= j < k implies (#[trigger] tiles[j]).window.parent == Some(id) by {
        assert(tiles[j] == dialogs[j]);
    }
}

/// A window that is closed without having the focus leaves the focus where it is. As long
/// as there are windows one of them has the focus.
pub proof fn closing_leaves_the_focus(s: WorkspaceState, id: u64)
    requires
        s.wf(),
        s.shows(id),
        focused_id(s) is Some,
    ensures
        focused_id(s) != Some(id) ==> focused_id(window_removed(s, id)) == focused_id(s),
        window_removed(s, id).float.tiles.len() > 0 || window_removed(s, id).row.columns.len() > 0
            ==> focused_id(window_removed(s, id)) is Some,
{
    focus_is_in_the_active_layer(s);
    let after = window_removed(s, id);
    if s.float.holds(id) {
        lemma_found(s.float, id);
        lemma_float_remove(s.float, id);
        assert(after.float == float_remove(s.float, id));
        lemma_focus(after);
    } else {
        column_of_finds_the_first(s.row, id);
        if !(s.active is Yes) && focused_id(s) != Some(id) {
            lemma_remove_elsewhere(s.row, id);
        }
        lemma_focus(after);
    }
}

/// Whether a new window gets the focus: one that is to have it does and one that isn't to
/// doesn't. One that may have it does unless it would open behind a fullscreen window, and
/// a dialog does where its parent has it.
pub proof fn new_windows_get_the_focus_they_ask_for(
    s: WorkspaceState,
    tile: Tile,
    target: WorkspaceAddWindowTarget,
    activate: ActivateWindow,
    width: ColumnWidth,
    full_width: bool,
    floating: bool,
)
    requires
        s.wf(),
        focused_id(s) is Some,
        target matches WorkspaceAddWindowTarget::NewColumnAt(idx) ==> idx <= s.row.columns.len(),
        target matches WorkspaceAddWindowTarget::NextTo(id) ==> s.row.holds(id) || s.float.holds(
            id,
        ),
    ensures
        ({
            let after = tile_added(s, tile, target, activate, width, full_width, floating);
            let fullscreen = s.row.columns.len() > 0 && s.row.columns[s.row.active].fullscreen;
            &&& activate is Yes ==> focused_id(after) == Some(tile.window.id)
            &&& activate is No ==> focused_id(after) == focused_id(s)
            &&& activate is Smart && target is Auto && fullscreen ==> focused_id(after)
                == focused_id(s)
            &&& activate is Smart && target is Auto && !fullscreen ==> focused_id(after) == Some(
                tile.window.id,
            )
            &&& activate is Smart && target is NewColumnAt ==> focused_id(after) == focused_id(s)
            &&& activate is Smart && target is NextTo && focused_id(s) == Some(target->NextTo_0)
                ==> focused_id(after) == Some(tile.window.id)
            &&& activate is Smart && target is NextTo && focused_id(s) != Some(target->NextTo_0)
                ==> focused_id(after) == focused_id(s)
        }),
{
    focus_is_in_the_active_layer(s);
    let after = tile_added(s, tile, target, activate, width, full_width, floating);
    let opened = Tile { restore_to_floating: floating, ..tile };
    let floats = floating && tile.sizing is Normal;
    let column = single_tile_column(opened, width, full_width);
    match target {
        WorkspaceAddWindowTarget::Auto => {
            if floats {
                lemma_float_insert(s.float, 0, opened, true);
                lemma_float_insert(s.float, 0, opened, false);
            } else if s.row.columns.len() > 0 {
                lemma_insert_elsewhere(s.row, next_column_idx(s.row), column);
            }
        },
        WorkspaceAddWindowTarget::NewColumnAt(idx) => {
            if s.row.columns.len() > 0 {
                lemma_insert_elsewhere(s.row, idx as int, column);
            }
        },
        WorkspaceAddWindowTarget::NextTo(id) => {
            if s.float.holds(id) {
                lemma_found(s.float, id);
                let k = tile_of(s.float.tiles, id);
                lemma_float_insert(s.float, k, opened, true);
                lemma_float_insert(s.float, k, opened, false);
                if s.row.columns.len() > 0 {
                    lemma_insert_elsewhere(s.row, next_column_idx(s.row), column);
                }
            } else {
                column_of_finds_the_first(s.row, id);
                lemma_float_insert(s.float, 0, opened, true);
                lemma_float_insert(s.float, 0, opened, false);
                lemma_insert_elsewhere(s.row, column_of(s.row.columns, id) + 1, column);
            }
        },
    }
    lemma_focus(after);
}

} // verus!
