//! Moving windows between the columns, the panels and the floating layer.

use vstd::prelude::*;
use crate::layout::fixed_panels::PanelsState;
use crate::layout::fixed_strip::{
    edge_anchor, inner_edge, strip_add_column, strip_focus_innermost, strip_focus_left,
    strip_focus_right, FixedSide, StripState,
};
use crate::layout::floating::{
    dialogs_up_keeps_tiles, float_insert, float_remove, float_removed_window, with_dialogs_up,
    FloatState,
};
use crate::layout::geometry::RectBits;
use crate::layout::row::{
    column_of, column_of_finds_the_first, insert_column, next_column_idx, remove_column,
    remove_window, removed_window, set_fullscreen, set_maximized, tile_of, tile_of_finds_the_first,
    without_guest, Request, SpaceState,
};
use crate::layout::tile::{single_tile_column, ColumnState, ColumnWidth, SizingMode, Tile};
use crate::layout::windows_law::{
    insert_column_adds_its_windows, remove_window_keeps_the_others, removed_window_is_gone,
    row_at_most_once, tile_at_most_once, tile_is_without, tile_without_keeps_the_others,
};
use crate::layout::workspace::{lemma_found, output_set, Output};
use crate::layout::workspace_state::{
    activates, floating_toggled, fullscreen_set, layer_switched, maximized_set, tile_added,
    window_removed, ActivateWindow, WorkspaceAddWindowTarget, WorkspaceState,
};

verus! {

/// A column that goes into a panel has the focus there and faces the columns
/// between the panels.
pub proof fn parked_column_is_focused_at_inner_edge(s: StripState, column: ColumnState)
    requires
        s.wf(),
        column.wf(),
    ensures
        ({
            let after = strip_add_column(s, column);
            &&& after.wf()
            &&& after.row.active_column() == column
            &&& inner_edge(after) == Some(after.row.active)
        }),
{
    let after = strip_add_column(s, column);
    assert forall|i: int| 0 <= i < after.row.columns.len() implies (
    #[trigger] after.row.columns[i]).wf() by {
        let idx = after.row.active;
        if i < idx {
            assert(after.row.columns[i] == s.row.columns[i]);
        } else if i > idx {
            assert(after.row.columns[i] == s.row.columns[i - 1]);
        }
    }
}

/// What went into a panel last comes out of it first, and the panel is as it was
/// before.
pub proof fn panel_gives_back_what_it_took(s: StripState, column: ColumnState)
    requires
        s.wf(),
    ensures
        ({
            let after = strip_add_column(s, column);
            let edge = inner_edge(after)->0;
            &&& inner_edge(after) is Some
            &&& after.row.columns[edge] == column
            &&& remove_column(after.row, edge).columns == s.row.columns
        }),
{
    let after = strip_add_column(s, column);
    let edge = inner_edge(after)->0;
    assert(s.row.columns.insert(edge, column).remove(edge) =~= s.row.columns);
}

/// The active column that leaves for a panel and comes back to its place gives
/// the columns and the focus as they were.
pub proof fn column_comes_back_to_its_place(s: SpaceState)
    requires
        s.wf(),
        s.columns.len() > 0,
    ensures
        ({
            let gone = remove_column(s, s.active);
            let back = insert_column(gone, s.active, s.active_column(), true);
            back.columns == s.columns && back.active == s.active
        }),
{
    assert(s.columns.remove(s.active).insert(s.active, s.active_column()) =~= s.columns);
}

/// Moving the focus to a column of a panel and back leaves the panel as it was.
pub proof fn strip_focus_there_and_back(s: StripState)
    requires
        s.wf(),
        s.row.active > 0,
    ensures
        strip_focus_right(strip_focus_left(s).0).0 == (StripState {
            row: without_guest(s.row),
            ..s
        }),
{
}

/// Moving the focus inside of a panel moves none of its columns and leaves the
/// panel flush with its edge.
pub proof fn strip_focus_moves_nothing(s: StripState)
    requires
        s.wf(),
    ensures
        strip_focus_left(s).0.row.columns == s.row.columns,
        strip_focus_right(s).0.row.columns == s.row.columns,
        strip_focus_innermost(s).0.row.columns == s.row.columns,
        strip_focus_left(s).0.row.anchor == edge_anchor(s.side),
        strip_focus_right(s).0.row.anchor == edge_anchor(s.side),
        strip_focus_innermost(s).0.row.anchor == edge_anchor(s.side),
{
}

/// A change to one panel leaves the other one as it is, and the focus valid
/// unless the changed panel becomes empty.
pub proof fn panels_are_independent(p: PanelsState, side: FixedSide, strip: StripState)
    requires
        p.wf(),
        strip.wf(),
        strip.side == side,
    ensures
        p.with_strip(side, strip).wf(),
        p.with_strip(side, strip).strip(side) == strip,
        side is Left ==> p.with_strip(side, strip).right == p.right,
        side is Right ==> p.with_strip(side, strip).left == p.left,
        p.focus_valid() && !strip.is_empty() ==> p.with_strip(side, strip).focus_valid(),
{
}

/// Moving the focus between the layers twice leaves it where it was. Nothing else
/// changes but that no column keeps track of a window that moved into it.
pub proof fn switching_layers_twice_changes_nothing(s: WorkspaceState)
    requires
        s.wf(),
        !(s.active is NoButRaised),
    ensures
        ({
            let after = layer_switched(layer_switched(s));
            &&& after == (WorkspaceState { row: after.row, ..s })
            &&& after.row == s.row || after.row == without_guest(s.row)
        }),
{
}

proof fn lemma_float_insert_shows(s: WorkspaceState, tile: Tile, activate: bool)
    ensures
        float_insert(s.float, 0, tile, activate).holds(tile.window.id),
{
    let added = Tile { sizing: SizingMode::Normal, ..tile };
    let inserted = s.float.tiles.insert(0, added);
    assert(inserted[0] == added);
    dialogs_up_keeps_tiles(inserted, 0);
    let up = with_dialogs_up(inserted, 0);
    assert(inserted.contains(added));
    assert(up.contains(added));
    let k = choose|k: int| 0 <= k < up.len() && up[k] == added;
    let after = float_insert(s.float, 0, tile, activate);
    assert(after.tiles == up);
    assert(after.tiles[k].holds(tile.window.id));
}

/// A window that is made to float or to stop floating is found in the other
/// layer.
pub proof fn toggled_window_is_in_the_other_layer(s: WorkspaceState, id: u64)
    requires
        s.wf(),
        s.shows(id),
    ensures
        s.float.holds(id) ==> floating_toggled(s, Some(id)).row.holds(id),
        !s.float.holds(id) ==> floating_toggled(s, Some(id)).float.holds(id),
{
    let after = floating_toggled(s, Some(id));
    let focused = s.active_window() matches Some(w) && w.id == id;
    if s.float.holds(id) {
        let removed = float_removed_window(s.float, id);
        let column = single_tile_column(removed.tile, removed.width, removed.is_full_width);
        assert(column.tiles[0].holds(id));
        assert(column.holds(id));
        insert_column_adds_its_windows(s.row, next_column_idx(s.row), column, focused, id);
    } else {
        let removed = removed_window(s.row, id);
        column_of_finds_the_first(s.row, id);
        tile_of_finds_the_first(s.row.columns[column_of(s.row.columns, id)], id);
        assert(removed.tile.window.id == id);
        lemma_float_insert_shows(s, removed.tile, focused);
        let inserted = float_insert(s.float, 0, removed.tile, focused);
        assert(after.float.tiles == inserted.tiles);
        let k = choose|k: int| 0 <= k < inserted.tiles.len() && (
        #[trigger] inserted.tiles[k]).holds(id);
        assert(after.float.tiles[k].holds(id));
    }
}

/// A floating window that is made to cover the screen is alone in a column and
/// remembers that it floated.
proof fn lemma_covering_float(s: WorkspaceState, id: u64)
    requires
        s.wf(),
        s.float.holds(id),
        s.shows(id),
        !s.row.holds(id),
        s.float.tiles[tile_of(s.float.tiles, id)].sizing is Normal,
        !floating_toggled(s, Some(id)).float.holds(id),
    ensures
        ({
            let full = fullscreen_set(s, id, true);
            &&& !full.float.holds(id)
            &&& full.row.holds(id)
            &&& full.column_with(id).fullscreen
            &&& !full.column_with(id).maximized
            &&& full.tile_with(id).restore_to_floating
            &&& full.tile_with(id).window.id == id
        }),
{
    lemma_found(s.float, id);
    let tiled = floating_toggled(s, Some(id));
    let focused = s.active_window() matches Some(w) && w.id == id;
    let removed = float_removed_window(s.float, id);
    let column = single_tile_column(removed.tile, removed.width, removed.is_full_width);
    let k = next_column_idx(s.row);
    assert(tiled.row.columns == s.row.columns.insert(k, column));
    assert(column.tiles[0].window.id == id);
    assert(column.tiles[0].holds(id));
    assert(column.holds(id));
    assert(tiled.row.columns[k] == column);
    assert(tiled.row.holds(id));
    column_of_finds_the_first(tiled.row, id);
    let c = column_of(tiled.row.columns, id);
    assert(c == k) by {
        if c < k {
            assert(tiled.row.columns[c] == s.row.columns[c]);
            assert(s.row.columns[c].holds(id));
        }
    }
    let full_row = set_fullscreen(tiled.row, id, true);
    let covering = ColumnState { fullscreen: true, ..column };
    assert(full_row.columns == tiled.row.columns.update(k, covering));
    assert(covering.tiles[0].holds(id));
    assert(covering.holds(id));
    assert(full_row.columns[k] == covering);
    assert(full_row.holds(id));
    column_of_finds_the_first(full_row, id);
    assert(column_of(full_row.columns, id) == k) by {
        let d = column_of(full_row.columns, id);
        if d < k {
            assert(full_row.columns[d] == s.row.columns[d]);
            assert(s.row.columns[d].holds(id));
        }
    }
    tile_of_finds_the_first(covering, id);
    let full = fullscreen_set(s, id, true);
    let kept = Tile { restore_to_floating: true, ..covering.tiles[0] };
    let last = ColumnState { tiles: covering.tiles.update(0, kept), ..covering };
    assert(full.row.columns == full_row.columns.update(k, last));
    assert(last.tiles[0].holds(id));
    assert(last.holds(id));
    assert(full.row.columns[k] == last);
    assert(full.row.holds(id));
    column_of_finds_the_first(full.row, id);
    assert(column_of(full.row.columns, id) == k) by {
        let d = column_of(full.row.columns, id);
        if d < k {
            assert(full.row.columns[d] == s.row.columns[d]);
            assert(s.row.columns[d].holds(id));
        }
    }
    tile_of_finds_the_first(last, id);
    assert(full.float == tiled.float);
}

/// A floating window that becomes fullscreen and leaves that mode again floats.
pub proof fn fullscreen_window_floats_again(s: WorkspaceState, id: u64)
    requires
        s.wf(),
        s.float.holds(id),
        s.shows(id),
        !s.row.holds(id),
        s.float.tiles[tile_of(s.float.tiles, id)].sizing is Normal,
    ensures
        fullscreen_set(fullscreen_set(s, id, true), id, false).float.holds(id),
{
    let tiled = floating_toggled(s, Some(id));
    let full = fullscreen_set(s, id, true);
    assert(full.float == tiled.float);
    if !tiled.float.holds(id) {
        lemma_covering_float(s, id);
        let focused = full.active_window() matches Some(w) && w.id == id;
        let removed = removed_window(full.row, id);
        column_of_finds_the_first(full.row, id);
        tile_of_finds_the_first(full.column_with(id), id);
        assert(removed.tile.window.id == id);
        lemma_float_insert_shows(full, removed.tile, focused);
        let inserted = float_insert(full.float, 0, removed.tile, focused);
        let after = floating_toggled(full, Some(id));
        assert(after.float.tiles == inserted.tiles);
        let k = choose|k: int| 0 <= k < inserted.tiles.len() && (
        #[trigger] inserted.tiles[k]).holds(id);
        assert(after.float.tiles[k].holds(id));
    } else {
        let k = choose|k: int| 0 <= k < tiled.float.tiles.len() && (
        #[trigger] tiled.float.tiles[k]).holds(id);
        assert(full.float.tiles[k].holds(id));
    }
}

/// A floating window that is maximized is alone in a column and remembers that it
/// floated.
proof fn lemma_maximized_float(s: WorkspaceState, id: u64)
    requires
        s.wf(),
        s.float.holds(id),
        s.shows(id),
        !s.row.holds(id),
        s.float.tiles[tile_of(s.float.tiles, id)].sizing is Normal,
        !floating_toggled(s, Some(id)).float.holds(id),
    ensures
        ({
            let big = maximized_set(s, id, true);
            &&& !big.float.holds(id)
            &&& big.row.holds(id)
            &&& big.column_with(id).mode() is Maximized
            &&& big.tile_with(id).restore_to_floating
            &&& big.tile_with(id).window.id == id
        }),
{
    lemma_found(s.float, id);
    let tiled = floating_toggled(s, Some(id));
    let focused = s.active_window() matches Some(w) && w.id == id;
    let removed = float_removed_window(s.float, id);
    let column = single_tile_column(removed.tile, removed.width, removed.is_full_width);
    let k = next_column_idx(s.row);
    assert(tiled.row.columns == s.row.columns.insert(k, column));
    assert(column.tiles[0].window.id == id);
    assert(column.tiles[0].holds(id));
    assert(column.holds(id));
    assert(tiled.row.columns[k] == column);
    assert(tiled.row.holds(id));
    column_of_finds_the_first(tiled.row, id);
    let c = column_of(tiled.row.columns, id);
    assert(c == k) by {
        if c < k {
            assert(tiled.row.columns[c] == s.row.columns[c]);
            assert(s.row.columns[c].holds(id));
        }
    }
    let big_row = set_maximized(tiled.row, id, true);
    let covering = ColumnState { maximized: true, ..column };
    assert(big_row.columns == tiled.row.columns.update(k, covering));
    assert(covering.tiles[0].holds(id));
    assert(covering.holds(id));
    assert(big_row.columns[k] == covering);
    assert(big_row.holds(id));
    column_of_finds_the_first(big_row, id);
    assert(column_of(big_row.columns, id) == k) by {
        let d = column_of(big_row.columns, id);
        if d < k {
            assert(big_row.columns[d] == s.row.columns[d]);
            assert(s.row.columns[d].holds(id));
        }
    }
    tile_of_finds_the_first(covering, id);
    let big = maximized_set(s, id, true);
    let kept = Tile { restore_to_floating: true, ..covering.tiles[0] };
    let last = ColumnState { tiles: covering.tiles.update(0, kept), ..covering };
    assert(big.row.columns == big_row.columns.update(k, last));
    assert(last.tiles[0].holds(id));
    assert(last.holds(id));
    assert(big.row.columns[k] == last);
    assert(big.row.holds(id));
    column_of_finds_the_first(big.row, id);
    assert(column_of(big.row.columns, id) == k) by {
        let d = column_of(big.row.columns, id);
        if d < k {
            assert(big.row.columns[d] == s.row.columns[d]);
            assert(s.row.columns[d].holds(id));
        }
    }
    tile_of_finds_the_first(last, id);
    assert(big.float == tiled.float);
}

/// A floating window that is maximized and leaves that mode again floats.
pub proof fn maximized_window_floats_again(s: WorkspaceState, id: u64)
    requires
        s.wf(),
        s.float.holds(id),
        s.shows(id),
        !s.row.holds(id),
        s.float.tiles[tile_of(s.float.tiles, id)].sizing is Normal,
    ensures
        maximized_set(maximized_set(s, id, true), id, false).float.holds(id),
{
    let tiled = floating_toggled(s, Some(id));
    let big = maximized_set(s, id, true);
    assert(big.float == tiled.float);
    if !tiled.float.holds(id) {
        lemma_maximized_float(s, id);
        let focused = big.active_window() matches Some(w) && w.id == id;
        let removed = removed_window(big.row, id);
        column_of_finds_the_first(big.row, id);
        tile_of_finds_the_first(big.column_with(id), id);
        assert(removed.tile.window.id == id);
        lemma_float_insert_shows(big, removed.tile, focused);
        let inserted = float_insert(big.float, 0, removed.tile, focused);
        let after = floating_toggled(big, Some(id));
        assert(after.float.tiles == inserted.tiles);
        let k = choose|k: int| 0 <= k < inserted.tiles.len() && (
        #[trigger] inserted.tiles[k]).holds(id);
        assert(after.float.tiles[k].holds(id));
    } else {
        let k = choose|k: int| 0 <= k < tiled.float.tiles.len() && (
        #[trigger] tiled.float.tiles[k]).holds(id);
        assert(big.float.tiles[k].holds(id));
    }
}

/// A new window gets the focus when that is asked for, in whichever layer it
/// opens.
pub proof fn new_window_takes_the_focus(
    s: WorkspaceState,
    tile: Tile,
    width: ColumnWidth,
    full_width: bool,
    floating: bool,
)
    requires
        s.wf(),
    ensures
        ({
            let after = tile_added(
                s,
                tile,
                WorkspaceAddWindowTarget::Auto,
                ActivateWindow::Yes,
                width,
                full_width,
                floating,
            );
            if floating && tile.sizing is Normal {
                after.active is Yes && after.float.active == Some(tile.window.id)
            } else {
                after.active is No && after.row.active_tile().window == tile.window
            }
        }),
{
}

/// A tile that starts to float leaves the floating tiles there.
proof fn lemma_float_insert_keeps_tiles(s: FloatState, idx: int, tile: Tile, activate: bool)
    requires
        0 <= idx <= s.tiles.len(),
    ensures
        float_insert(s, idx, tile, activate).tiles.len() == s.tiles.len() + 1,
        forall|t: Tile| #[trigger]
            s.tiles.contains(t) ==> float_insert(s, idx, tile, activate).tiles.contains(t),
{
    let inserted = s.tiles.insert(idx, Tile { sizing: SizingMode::Normal, ..tile });
    dialogs_up_keeps_tiles(inserted, idx);
    assert forall|t: Tile| #[trigger] s.tiles.contains(t) implies float_insert(
        s,
        idx,
        tile,
        activate,
    ).tiles.contains(t) by {
        let i = choose|i: int| 0 <= i < s.tiles.len() && s.tiles[i] == t;
        assert(inserted[if i < idx {
            i
        } else {
            i + 1
        }] == t);
        assert(inserted.contains(t));
    }
}

/// A new floating window leaves all that was there: the columns are as they
/// were and nobody is asked to change them, and the floating windows are all still
/// there.
pub proof fn new_floating_window_leaves_the_others(
    s: WorkspaceState,
    tile: Tile,
    target: WorkspaceAddWindowTarget,
    activate: ActivateWindow,
    width: ColumnWidth,
    full_width: bool,
)
    requires
        s.wf(),
        tile.sizing is Normal,
        !(target is NewColumnAt),
        target matches WorkspaceAddWindowTarget::NextTo(id) ==> s.row.holds(id) || s.float.holds(
            id,
        ),
    ensures
        ({
            let after = tile_added(s, tile, target, activate, width, full_width, true);
            &&& after.row.columns == s.row.columns
            &&& after.row.requests == s.row.requests
            &&& after.float.tiles.len() == s.float.tiles.len() + 1
            &&& forall|t: Tile| #[trigger]
                s.float.tiles.contains(t) ==> after.float.tiles.contains(t)
        }),
{
    let opened = Tile { restore_to_floating: true, ..tile };
    match target {
        WorkspaceAddWindowTarget::NextTo(id) => {
            let active = s.active_window() matches Some(w) && w.id == id;
            let k = if s.float.holds(id) {
                tile_of(s.float.tiles, id)
            } else {
                0
            };
            if s.float.holds(id) {
                lemma_found(s.float, id);
            }
            lemma_float_insert_keeps_tiles(s.float, k, opened, activates(activate, active));
        },
        _ => {
            let covered = s.row.columns.len() > 0 && s.row.active_column().fullscreen;
            lemma_float_insert_keeps_tiles(s.float, 0, opened, activates(activate, !covered));
        },
    }
}

/// The work that a new window among the columns leaves to the geometry. Columns
/// that don't scroll are fitted between the panels, and a new column next to
/// others lets the row be widened where it covers too little of the view. A window
/// that opens at a given place leaves none.
pub open spec fn opening_requests(
    s: WorkspaceState,
    target: WorkspaceAddWindowTarget,
) -> Seq<Request> {
    if !(target is Auto) {
        seq![]
    } else if s.frame.layout.disable_carousel {
        seq![Request::Fit { animate: false, keep_resize: false }]
    } else if s.row.columns.len() > 0 {
        seq![Request::GrowToMinSpan]
    } else {
        seq![]
    }
}

/// A new window among the columns leaves all that was there as it was: the
/// columns, with the widths that they have, stay in their order, and nothing
/// changes in the floating layer. What the geometry is asked to do is said by
/// [`opening_requests`], and no more: a row that scrolls and covers enough of the
/// view is not resized.
pub proof fn new_window_leaves_the_others(
    s: WorkspaceState,
    tile: Tile,
    target: WorkspaceAddWindowTarget,
    activate: ActivateWindow,
    width: ColumnWidth,
    full_width: bool,
    floating: bool,
)
    requires
        s.wf(),
        !floating || !(tile.sizing is Normal) || target is NewColumnAt,
        target matches WorkspaceAddWindowTarget::NewColumnAt(idx) ==> idx <= s.row.columns.len(),
        target matches WorkspaceAddWindowTarget::NextTo(id) ==> s.row.holds(id) || s.float.holds(
            id,
        ),
    ensures
        ({
            let after = tile_added(s, tile, target, activate, width, full_width, floating);
            &&& after.float == s.float
            &&& after.row.requests == s.row.requests + opening_requests(s, target)
            &&& after.row.columns.len() == s.row.columns.len() + 1
            &&& exists|k: int|
                0 <= k <= s.row.columns.len() && #[trigger] after.row.columns.remove(k)
                    == s.row.columns
        }),
{
    let after = tile_added(s, tile, target, activate, width, full_width, floating);
    let opened = Tile { restore_to_floating: floating, ..tile };
    let k = match target {
        WorkspaceAddWindowTarget::Auto => next_column_idx(s.row),
        WorkspaceAddWindowTarget::NewColumnAt(idx) => idx as int,
        WorkspaceAddWindowTarget::NextTo(id) => if s.float.holds(id) {
            next_column_idx(s.row)
        } else {
            column_of(s.row.columns, id) + 1
        },
    };
    if let WorkspaceAddWindowTarget::NextTo(id) = target {
        if !s.float.holds(id) {
            column_of_finds_the_first(s.row, id);
        }
    }
    let column = single_tile_column(opened, width, full_width);
    assert(after.row.columns == s.row.columns.insert(k, column));
    assert(after.row.columns.remove(k) =~= s.row.columns);
    assert(after.row.requests =~= s.row.requests + opening_requests(s, target));
}

/// A new window doesn't take the focus from a fullscreen one by itself.
pub proof fn fullscreen_window_keeps_the_focus(
    s: WorkspaceState,
    tile: Tile,
    width: ColumnWidth,
    full_width: bool,
)
    requires
        s.wf(),
        s.row.columns.len() > 0,
        s.row.active_column().fullscreen,
    ensures
        ({
            let after = tile_added(
                s,
                tile,
                WorkspaceAddWindowTarget::Auto,
                ActivateWindow::Smart,
                width,
                full_width,
                false,
            );
            &&& after.active == s.active
            &&& after.row.active_column() == s.row.active_column()
        }),
{
}

/// A workspace without an output still belongs to the one that it came from, and
/// belongs to it when it is connected again.
pub proof fn workspace_remembers_its_output(
    s: WorkspaceState,
    output: Output,
    area: RectBits,
    there: RectBits,
)
    requires
        s.frame.original_output == output.description@,
    ensures
        output_set(s, None, area).frame.original_output == s.frame.original_output,
        output_set(output_set(s, None, area), Some(&output), there).frame.original_output
            == s.frame.original_output,
{
}

/// A floating window that leaves takes no other one along.
proof fn lemma_float_remove_keeps(s: FloatState, id: u64, other: u64)
    requires
        s.holds(id),
        s.holds(other),
        other != id,
    ensures
        float_remove(s, id).holds(other),
{
    lemma_found(s, id);
    let idx = tile_of(s.tiles, id);
    let k = choose|k: int| 0 <= k < s.tiles.len() && (#[trigger] s.tiles[k]).holds(other);
    tile_without_keeps_the_others(s.tiles[idx], id, other);
    let after = float_remove(s, id);
    match s.tiles[idx].without(id) {
        None => {
            assert(after.tiles == s.tiles.remove(idx));
            if k < idx {
                assert(after.tiles[k] == s.tiles[k]);
            } else {
                assert(after.tiles[k - 1] == s.tiles[k]);
            }
        },
        Some(rest) => {
            assert(after.tiles == s.tiles.update(idx, rest));
            if k == idx {
                assert(after.tiles[idx].holds(other));
            } else {
                assert(after.tiles[k] == s.tiles[k]);
            }
        },
    }
}

/// A tile that starts to float leaves the floating windows there.
proof fn lemma_float_insert_keeps(s: FloatState, tile: Tile, activate: bool, other: u64)
    requires
        s.holds(other),
    ensures
        float_insert(s, 0, tile, activate).holds(other),
{
    let k = choose|k: int| 0 <= k < s.tiles.len() && (#[trigger] s.tiles[k]).holds(other);
    let inserted = s.tiles.insert(0, Tile { sizing: SizingMode::Normal, ..tile });
    dialogs_up_keeps_tiles(inserted, 0);
    assert(inserted[k + 1] == s.tiles[k]);
    assert(inserted.contains(s.tiles[k]));
    let up = with_dialogs_up(inserted, 0);
    assert(up.contains(s.tiles[k]));
    let i = choose|i: int| 0 <= i < up.len() && up[i] == s.tiles[k];
    assert(float_insert(s, 0, tile, activate).tiles[i].holds(other));
}

/// Whether a window is on a workspace.
pub open spec fn on_workspace(s: WorkspaceState, id: u64) -> bool {
    s.row.holds(id) || s.float.holds(id)
}

/// Making a window float or stop floating leaves every other window on the
/// workspace.
pub proof fn toggling_keeps_the_others(s: WorkspaceState, id: u64, other: u64)
    requires
        s.wf(),
        s.shows(id),
        other != id,
        on_workspace(s, other),
    ensures
        on_workspace(floating_toggled(s, Some(id)), other),
{
    let after = floating_toggled(s, Some(id));
    let focused = s.active_window() matches Some(w) && w.id == id;
    if s.float.holds(id) {
        let removed = float_removed_window(s.float, id);
        let column = single_tile_column(removed.tile, removed.width, removed.is_full_width);
        if s.float.holds(other) {
            lemma_float_remove_keeps(s.float, id, other);
        } else {
            insert_column_adds_its_windows(
                s.row,
                next_column_idx(s.row),
                column,
                focused,
                other,
            );
        }
    } else {
        let removed = removed_window(s.row, id);
        if s.float.holds(other) {
            lemma_float_insert_keeps(s.float, removed.tile, focused, other);
            let inserted = float_insert(s.float, 0, removed.tile, focused);
            let k = choose|k: int| 0 <= k < inserted.tiles.len() && (
            #[trigger] inserted.tiles[k]).holds(other);
            assert(after.float.tiles[k].holds(other));
        } else {
            remove_window_keeps_the_others(s.row, id, other);
        }
    }
}

/// Closing a window leaves every other window on the workspace.
pub proof fn closing_keeps_the_others(s: WorkspaceState, id: u64, other: u64)
    requires
        s.wf(),
        on_workspace(s, id),
        other != id,
        on_workspace(s, other),
    ensures
        on_workspace(window_removed(s, id), other),
{
    let after = window_removed(s, id);
    if s.float.holds(id) {
        if s.float.holds(other) {
            lemma_float_remove_keeps(s.float, id, other);
            let gone = float_remove(s.float, id);
            let k = choose|k: int| 0 <= k < gone.tiles.len() && (#[trigger] gone.tiles[k]).holds(
                other,
            );
            assert(after.float.tiles[k].holds(other));
        } else {
            let k = choose|k: int| 0 <= k < s.row.columns.len() && (
            #[trigger] s.row.columns[k]).holds(other);
            assert(after.row.columns[k].holds(other));
        }
    } else {
        if s.float.holds(other) {
            let k = choose|k: int| 0 <= k < s.float.tiles.len() && (
            #[trigger] s.float.tiles[k]).holds(other);
            assert(after.float.tiles[k].holds(other));
        } else {
            remove_window_keeps_the_others(s.row, id, other);
            let gone = remove_window(s.row, id);
            let k = choose|k: int| 0 <= k < gone.columns.len() && (
            #[trigger] gone.columns[k]).holds(other);
            assert(after.row.columns[k].holds(other));
        }
    }
}

/// Whether a window occurs at most once among the floating ones.
pub open spec fn float_at_most_once(s: FloatState, id: u64) -> bool {
    &&& forall|i: int, j: int|
        0 <= i < s.tiles.len() && 0 <= j < s.tiles.len() && (#[trigger] s.tiles[i]).holds(id) && (
        #[trigger] s.tiles[j]).holds(id) ==> i == j
    &&& forall|i: int|
        0 <= i < s.tiles.len() ==> tile_at_most_once(#[trigger] s.tiles[i], id)
}

/// Whether a window occurs at most once on a workspace.
pub open spec fn at_most_once(s: WorkspaceState, id: u64) -> bool {
    &&& row_at_most_once(s.row, id)
    &&& float_at_most_once(s.float, id)
    &&& !(s.row.holds(id) && s.float.holds(id))
}

proof fn lemma_float_removed_is_gone(s: FloatState, id: u64)
    requires
        s.holds(id),
        float_at_most_once(s, id),
    ensures
        !float_remove(s, id).holds(id),
{
    lemma_found(s, id);
    let idx = tile_of(s.tiles, id);
    tile_is_without(s.tiles[idx], id);
    let after = float_remove(s, id);
    if after.holds(id) {
        let k = choose|k: int| 0 <= k < after.tiles.len() && (#[trigger] after.tiles[k]).holds(id);
        match s.tiles[idx].without(id) {
            None => {
                let e = if k < idx {
                    k
                } else {
                    k + 1
                };
                assert(after.tiles[k] == s.tiles[e]);
                assert(s.tiles[e].holds(id));
            },
            Some(_) => {
                if k != idx {
                    assert(s.tiles[k].holds(id));
                }
            },
        }
        assert(s.tiles[idx].holds(id));
        assert(false);
    }
}

/// A window that is closed is not on the workspace any more, if it was there
/// once.
pub proof fn closed_window_is_gone(s: WorkspaceState, id: u64)
    requires
        s.wf(),
        on_workspace(s, id),
        at_most_once(s, id),
    ensures
        !on_workspace(window_removed(s, id), id),
{
    let after = window_removed(s, id);
    if s.float.holds(id) {
        lemma_float_removed_is_gone(s.float, id);
        assert(after.float.tiles == float_remove(s.float, id).tiles);
        assert(after.row.columns == s.row.columns);
    } else {
        removed_window_is_gone(s.row, id);
        assert(after.row.columns == remove_window(s.row, id).columns);
        assert(after.float.tiles == s.float.tiles);
    }
    if after.row.holds(id) {
        let k = choose|k: int| 0 <= k < after.row.columns.len() && (
        #[trigger] after.row.columns[k]).holds(id);
        if s.float.holds(id) {
            assert(s.row.columns[k].holds(id));
        } else {
            assert(remove_window(s.row, id).columns[k].holds(id));
        }
        assert(false);
    }
    if after.float.holds(id) {
        let k = choose|k: int| 0 <= k < after.float.tiles.len() && (
        #[trigger] after.float.tiles[k]).holds(id);
        if s.float.holds(id) {
            assert(float_remove(s.float, id).tiles[k].holds(id));
        } else {
            assert(s.float.tiles[k].holds(id));
        }
        assert(false);
    }
}

} // verus!
