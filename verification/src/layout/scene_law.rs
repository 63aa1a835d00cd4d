//! What a workspace shows, and what comes to it and leaves it.

use vstd::prelude::*;
use crate::config::layout::{merged_layout, LayoutPart, LayoutState};
use crate::ipc::PositionChange;
use crate::layout::float_law::dialogs_come_in_front;
use crate::layout::floating::{dialogs_of, shown_from, shows, FloatPlacement, FloatRequest};
use crate::layout::geometry::{rects_equal, sizes_equal, RectBits};
use crate::layout::regroup_law::is_alone;
use crate::layout::render::{is_positive, reaches, CarouselRender, PixelRect};
use crate::layout::row::{
    all_tiles, column_of, column_of_finds_the_first, next_column_idx, tile_from, tile_of, Motion,
    Request,
};
use crate::layout::tile::{
    single_tile_column, Column, ColumnState, ColumnWidth, RemovedTile, SizingMode, Tile, Window,
};
use crate::layout::workspace::{
    names_output, opened_nowhere, opened_on, output_set, position_moved, workspace_layout, Output,
    WorkspaceConfig,
};
use crate::layout::workspace_law::{
    floats_are_asked, only_floats_change, only_the_row_changes, row_is_asked,
};
use crate::layout::workspace_moves::{
    active_column_leaves, active_tile_leaves, animations_advanced, column_arrived, dialogs_raised,
    drawn_floats, drawn_row, faded_edges, floats_are_visible, layer_with, motion_reported,
    row_column_added, row_column_leaves, tile_joined, visible_columns_centered, width_taken,
    window_at,
};
use crate::layout::workspace_state::{
    entered, layer_of, owner_of, parent_from, tile_added, with_effect, ActivateWindow, Effect,
    WindowLayer, WorkspaceAddWindowTarget, WorkspaceState,
};
use crate::text::option_view;

verus! {

/// A focus ring is drawn in the layer that has the focus, in no other one, and only where it
/// is asked for.
pub proof fn one_layer_has_the_focus_ring(
    s: WorkspaceState,
    focus_ring: bool,
    can_fade: bool,
    above_top_layer: bool,
)
    ensures
        ({
            let row = drawn_row(s, focus_ring, can_fade);
            let ring = match row {
                CarouselRender::Direct { focus_ring } => focus_ring,
                CarouselRender::Collect { focus_ring } => focus_ring,
            };
            let floats = drawn_floats(s, focus_ring, above_top_layer);
            &&& ring <==> focus_ring && !(s.active is Yes)
            &&& floats == Some(true) <==> focus_ring && s.active is Yes
            &&& !(ring && floats == Some(true))
            &&& !focus_ring ==> !ring && floats != Some(true)
        }),
{
}

/// What the row draws is collected to be faded exactly if there is room for a panel, the row
/// scrolls and fading is possible.
pub proof fn scrolling_rows_are_faded_next_to_panels(
    s: WorkspaceState,
    focus_ring: bool,
    can_fade: bool,
)
    ensures
        drawn_row(s, focus_ring, can_fade) is Collect <==> {
            &&& is_positive(s.frame.insets.0) || is_positive(s.frame.insets.1)
            &&& !s.frame.layout.disable_carousel
            &&& can_fade
        },
{
}

/// An edge of the row is faded if and only if there is room for a panel there and something
/// reaches into its band.
pub proof fn edges_are_faded_where_panels_are(
    s: WorkspaceState,
    elements: Seq<PixelRect>,
    left_band: PixelRect,
    right_band: PixelRect,
)
    ensures
        ({
            let r = faded_edges(s, elements, left_band, right_band);
            &&& r is Some && r->0.left <==> is_positive(s.frame.insets.0) && reaches(
                elements,
                left_band,
            )
            &&& r is Some && r->0.right <==> is_positive(s.frame.insets.1) && reaches(
                elements,
                right_band,
            )
            &&& r is Some ==> r->0.left || r->0.right
        }),
{
}

/// Floating windows are hidden exactly while something covers the screen above everything and
/// they neither have the focus nor were left on top. What is hidden isn't drawn.
pub proof fn floats_hide_behind_what_covers_the_screen(
    s: WorkspaceState,
    focus_ring: bool,
    above_top_layer: bool,
)
    ensures
        floats_are_visible(s, above_top_layer) <==> !(above_top_layer && s.active is No),
        floats_are_visible(s, false),
        s.active is Yes ==> floats_are_visible(s, above_top_layer),
        drawn_floats(s, focus_ring, above_top_layer) is Some <==> floats_are_visible(
            s,
            above_top_layer,
        ),
{
}

/// A floating window is in front of the columns where it is visible, and is in nobody's way
/// where it isn't.
pub proof fn floats_are_in_front(
    s: WorkspaceState,
    floating: Option<u64>,
    scrolling: Option<u64>,
    above_top_layer: bool,
)
    ensures
        ({
            let r = window_at(s, floating, scrolling, above_top_layer);
            &&& floating is None ==> r == scrolling
            &&& floating is Some && floats_are_visible(s, above_top_layer) ==> r == floating
            &&& !floats_are_visible(s, above_top_layer) ==> r == scrolling
        }),
{
}

/// A window is in the layer that holds it, and in none if neither does.
pub proof fn windows_are_in_the_layer_that_holds_them(s: WorkspaceState, id: u64)
    ensures
        layer_with(s, id) == Some(WindowLayer::Floating) <==> s.float.holds(id),
        layer_with(s, id) == Some(WindowLayer::Scrolling) <==> s.row.holds(id)
            && !s.float.holds(id),
        layer_with(s, id) is None <==> !s.row.holds(id) && !s.float.holds(id),
        layer_with(s, id) matches Some(layer) ==> layer_of(s, Some(id)) == layer,
{
}

/// What is taken out without being named is what has the focus, and the other layer keeps all
/// of its windows.
pub proof fn the_focus_is_taken_out(
    s: WorkspaceState,
    after: WorkspaceState,
    r: Option<RemovedTile>,
)
    requires
        s.wf(),
        active_tile_leaves(s, after, r),
    ensures
        r is None <==> !(s.active is Yes) && s.row.columns.len() == 0,
        r is None ==> after == s,
        r is Some && s.active is Yes ==> {
            &&& s.float.active == Some(r->0.tile.window.id) || !shows(
                s.float.tiles,
                s.float.active->0,
            )
            &&& r->0.is_floating
            &&& after.row.columns == s.row.columns
            &&& after.float.tiles.len() + 1 == s.float.tiles.len()
            &&& after.active is Yes <==> after.float.tiles.len() > 0
        },
        r is Some && !(s.active is Yes) ==> {
            &&& r->0.tile.window == s.row.active_tile().window
            &&& !r->0.is_floating
            &&& after.float == s.float
            &&& after.active is Yes <==> after.row.columns.len() == 0 && s.float.tiles.len() > 0
        },
{
    if s.active is Yes {
        lemma_shown_is_found(s.float.tiles, s.float.active->0, 0);
    } else if s.row.columns.len() > 0 {
        assert(s.row.active_column().wf());
    }
}

proof fn lemma_shown_is_found(tiles: Seq<Tile>, id: u64, i: int)
    requires
        0 <= i <= tiles.len(),
        exists|j: int| i <= j < tiles.len() && (#[trigger] tiles[j]).window.id == id,
    ensures
        i <= shown_from(tiles, id, i) < tiles.len(),
        tiles[shown_from(tiles, id, i)].window.id == id,
    decreases tiles.len() - i,
{
    if tiles[i].window.id != id {
        lemma_shown_is_found(tiles, id, i + 1);
    }
}

/// The column that is taken out is the active one, unless a floating window has the focus. Its
/// windows are told that they left the output.
pub proof fn the_active_column_is_taken_out(
    s: WorkspaceState,
    after: WorkspaceState,
    r: Option<Column>,
)
    requires
        s.wf(),
        active_column_leaves(s, after, r),
    ensures
        r is None <==> s.active is Yes || s.row.columns.len() == 0,
        r is None ==> after == s,
        r is Some ==> {
            &&& r->0@ == s.row.active_column()
            &&& after.row.columns == s.row.columns.remove(s.row.active)
            &&& after.float == s.float
            &&& after.active is Yes <==> s.row.columns.len() == 1 && s.float.tiles.len() > 0
            &&& s.frame.output is None ==> after.effects == s.effects
            &&& s.frame.output matches Some(output) ==> {
                &&& after.effects.len() == s.effects.len() + r->0@.tiles.len()
                &&& forall|i: int|
                    0 <= i < r->0@.tiles.len() ==> #[trigger] after.effects[s.effects.len() + i]
                        == (Effect::OutputLeave { window: r->0@.tiles[i].window.id, output })
            }
        },
{
}

/// The row gives up its active column whatever layer has the focus, and takes one where it is
/// put.
pub proof fn rows_give_and_take_columns(
    s: WorkspaceState,
    after: WorkspaceState,
    r: Option<Column>,
    idx: usize,
    column: Column,
)
    requires
        s.wf(),
        idx <= s.row.columns.len(),
    ensures
        row_column_leaves(s, after, r) ==> {
            &&& r is None <==> s.row.columns.len() == 0
            &&& r is None ==> after == s
            &&& r is Some ==> r->0@ == s.row.active_column() && after.row.columns
                == s.row.columns.remove(s.row.active)
            &&& after.float == s.float && after.active == s.active
        },
        ({
            let taken = row_column_added(s, idx, column);
            &&& taken.row.columns[idx as int] == column@
            &&& taken.row.columns.remove(idx as int) == s.row.columns
            &&& taken.row.active == idx
            &&& taken.float == s.float && taken.active == s.active
        }),
{
    assert(s.row.columns.insert(idx as int, column@).remove(idx as int) =~= s.row.columns);
}

/// A column that comes is to the right of the active one, has the focus if it asks for it,
/// and its windows are told that they are on the output.
pub proof fn columns_arrive_next_to_the_active_one(
    s: WorkspaceState,
    column: Column,
    activate: bool,
)
    requires
        s.wf(),
    ensures
        ({
            let after = column_arrived(s, column, activate);
            let at = if s.row.columns.len() == 0 {
                0
            } else {
                s.row.active + 1
            };
            &&& after.row.columns[at] == column@
            &&& after.row.columns.remove(at) == s.row.columns
            &&& activate ==> after.row.active == at && !(after.active is Yes)
            &&& !activate ==> after.active == s.active
            &&& !activate && s.row.columns.len() > 0 ==> after.row.active == s.row.active
            &&& after.float == s.float
            &&& s.frame.output is None ==> after.effects == s.effects
            &&& s.frame.output is Some ==> {
                &&& after.effects.len() == s.effects.len() + column@.tiles.len()
                &&& forall|i: int|
                    0 <= i < column@.tiles.len() ==> #[trigger] after.effects[s.effects.len() + i]
                        == (Effect::OutputEnter { window: column@.tiles[i].window.id })
            }
        }),
{
    let at = next_column_idx(s.row);
    assert(s.row.columns.insert(at, column@).remove(at) =~= s.row.columns);
}

/// A tile that joins a column is in the row that it is put in, or in the bottom one, and has
/// the focus if it asks for it.
pub proof fn tiles_join_columns(
    s: WorkspaceState,
    col_idx: usize,
    tile_idx: Option<usize>,
    tile: Tile,
    activate: bool,
)
    requires
        s.wf(),
        col_idx < s.row.columns.len(),
        tile_idx matches Some(i) ==> i <= s.row.columns[col_idx as int].tiles.len(),
    ensures
        ({
            let after = tile_joined(s, col_idx, tile_idx, tile, activate);
            let column = after.row.columns[col_idx as int];
            let before = s.row.columns[col_idx as int];
            let at = match tile_idx {
                Some(i) => i as int,
                None => before.tiles.len() as int,
            };
            &&& column.tiles[at] == tile
            &&& column.tiles.remove(at) == before.tiles
            &&& activate ==> after.row.active == col_idx && column.active == at
                && !(after.active is Yes)
            &&& !activate ==> after.row.active_tile() == s.row.active_tile() && after.active
                == s.active
            &&& after.float == s.float
            &&& s.frame.output is Some ==> after.effects == s.effects.push(
                Effect::OutputEnter { window: tile.window.id },
            )
            &&& s.frame.output is None ==> after.effects == s.effects
        }),
{
    let before = s.row.columns[col_idx as int];
    let at = match tile_idx {
        Some(i) => i as int,
        None => before.tiles.len() as int,
    };
    assert(before.wf());
    assert(s.row.active_column().wf());
    assert(before.tiles.insert(at, tile).remove(at) =~= before.tiles);
}

/// The visible columns are centered if they have the focus, and nothing else changes.
pub proof fn visible_columns_are_centered(s: WorkspaceState)
    ensures
        s.active is Yes ==> visible_columns_centered(s) == s,
        !(s.active is Yes) ==> row_is_asked(s, visible_columns_centered(s), Request::CenterVisible),
{
}

/// A floating window is moved. One among the columns only remembers where to go when it
/// floats: if it has a place already, or if it is told one in both directions.
pub proof fn windows_are_moved_or_remember_it(
    s: WorkspaceState,
    id: u64,
    x: PositionChange,
    y: PositionChange,
    animate: bool,
    has_stored: bool,
)
    requires
        s.wf(),
    ensures
        ({
            let after = position_moved(s, Some(id), x, y, animate, has_stored);
            let set = (x is SetFixed || x is SetProportion) && (y is SetFixed
                || y is SetProportion);
            &&& s.float.holds(id) ==> floats_are_asked(
                s,
                after,
                FloatRequest::Move { window: id, x, y, animate },
            )
            &&& !s.float.holds(id) && shows(all_tiles(s.row.columns), id) && (has_stored || set)
                ==> after == with_effect(s, Effect::StorePosition { window: id, x, y })
            &&& !s.float.holds(id) && !(has_stored || set) ==> after == s
            &&& !s.float.holds(id) && !shows(all_tiles(s.row.columns), id) ==> after == s
        }),
{
}

/// A new workspace is empty and has the number that it is given. It belongs to the output that
/// its configuration names, or else to the one that it is on.
pub proof fn new_workspaces_are_empty(
    output: Output,
    config: Option<WorkspaceConfig>,
    base: LayoutState,
    id: u64,
)
    ensures
        ({
            let on = opened_on(output, config, base, id);
            let nowhere = opened_nowhere(config, base, id);
            &&& on.row.columns.len() == 0 && on.float.tiles.len() == 0 && on.active is No
            &&& nowhere.row.columns.len() == 0 && nowhere.float.tiles.len() == 0
                && nowhere.active is No
            &&& on.frame.id == id && nowhere.frame.id == id
            &&& on.frame.output == Some(output.id) && nowhere.frame.output is None
            &&& on.frame.view_size == output.view_size
            &&& on.frame.working_area == output.working_area
            &&& on.frame.scale == output.scale && on.frame.transform == output.transform
            &&& on.row.geometry.working_area == output.working_area
            &&& config is None ==> {
                &&& on.frame.name is None && nowhere.frame.name is None
                &&& on.frame.original_output == output.description@
                &&& nowhere.frame.original_output.len() == 0
            }
            &&& config matches Some(c) ==> {
                &&& on.frame.name == Some(c.name@) && nowhere.frame.name == Some(c.name@)
                &&& c.open_on_output matches Some(name) ==> on.frame.original_output == name@
                    && nowhere.frame.original_output == name@
                &&& c.open_on_output is None ==> on.frame.original_output == output.description@
                    && nowhere.frame.original_output.len() == 0
            }
            &&& on.frame.layout == nowhere.frame.layout
            &&& on.frame.base_layout == base && nowhere.frame.base_layout == base
        }),
{
}

/// The layout of a workspace is the base with what its own section sets merged into it.
pub proof fn workspaces_have_their_own_layout(base: LayoutState, part: LayoutPart)
    ensures
        workspace_layout(base, None) == base,
        part.center_focused_column is Some ==> workspace_layout(
            base,
            Some(part),
        ).center_focused_column == part.center_focused_column->0,
        part.center_focused_column is None ==> workspace_layout(
            base,
            Some(part),
        ).center_focused_column == base.center_focused_column,
        workspace_layout(base, Some(part)) == merged_layout(base, part),
{
}

proof fn lemma_parent(tiles: Seq<Tile>, parent: Option<u64>, i: int)
    requires
        0 <= i <= tiles.len(),
    ensures
        i <= parent_from(tiles, parent, i) <= tiles.len(),
        parent_from(tiles, parent, i) < tiles.len() ==> parent == Some(
            tiles[parent_from(tiles, parent, i)].window.id,
        ),
        forall|j: int|
            i <= j < parent_from(tiles, parent, i) ==> parent != Some(
                (#[trigger] tiles[j]).window.id,
            ),
    decreases tiles.len() - i,
{
    if i < tiles.len() && parent != Some(tiles[i].window.id) {
        lemma_parent(tiles, parent, i + 1);
    }
}

/// A dialog belongs to its parent if that is visible, and else to the active window if that is
/// another one of the same application.
pub proof fn dialogs_belong_to_their_parent(s: WorkspaceState, window: Window)
    ensures
        window.parent matches Some(parent) ==> (shows(s.tiles(), parent) ==> owner_of(s, window)
            == Some(parent)),
        !(window.parent matches Some(parent) && shows(s.tiles(), parent)) ==> {
            let active = s.active_window();
            &&& owner_of(s, window) is Some <==> {
                &&& active is Some
                &&& active->0.id != window.id
                &&& window.app_id is Some
                &&& option_view(active->0.app_id) == option_view(window.app_id)
            }
            &&& owner_of(s, window) is Some ==> owner_of(s, window) == Some(active->0.id)
        },
{
    lemma_parent(s.tiles(), window.parent, 0);
    let at = parent_from(s.tiles(), window.parent, 0);
    if at < s.tiles().len() {
        assert(s.tiles()[at].window.id == window.parent->0);
    }
}

/// A new window that doesn't float gets a column of its own, with the width that it has: where
/// it is put, to the right of the window that it opens next to, or else to the right of the
/// active column.
#[verifier::rlimit(40)]
pub proof fn new_windows_get_a_column_where_they_belong(
    s: WorkspaceState,
    tile: Tile,
    target: WorkspaceAddWindowTarget,
    activate: ActivateWindow,
    width: ColumnWidth,
    full_width: bool,
    floating: bool,
)
    requires
        s.wf(),
        !floating || !(tile.sizing is Normal),
        match target {
            WorkspaceAddWindowTarget::Auto => true,
            WorkspaceAddWindowTarget::NewColumnAt(idx) => idx <= s.row.columns.len(),
            WorkspaceAddWindowTarget::NextTo(id) => s.float.holds(id) || s.row.holds(id),
        },
    ensures
        ({
            let after = tile_added(s, tile, target, activate, width, full_width, floating);
            let beside = if s.row.columns.len() == 0 {
                0
            } else {
                s.row.active + 1
            };
            let at = match target {
                WorkspaceAddWindowTarget::Auto => beside,
                WorkspaceAddWindowTarget::NewColumnAt(idx) => idx as int,
                WorkspaceAddWindowTarget::NextTo(id) => if s.float.holds(id) {
                    beside
                } else {
                    column_of(s.row.columns, id) + 1
                },
            };
            &&& after.row.columns.len() == s.row.columns.len() + 1
            &&& is_alone(after.row.columns[at], tile.window)
            &&& after.row.columns[at].width == width
            &&& after.row.columns[at].full_width == full_width
            &&& after.row.columns[at].tiles[0].restore_to_floating == floating
            &&& after.row.columns.remove(at) == s.row.columns
            &&& after.float == s.float
            &&& target matches WorkspaceAddWindowTarget::NextTo(id) ==> (!s.float.holds(id)
                ==> after.row.columns[at - 1].holds(id))
        }),
{
    let opened = Tile { restore_to_floating: floating, ..tile };
    let column = single_tile_column(opened, width, full_width);
    let after = tile_added(s, tile, target, activate, width, full_width, floating);
    let here = entered(s, tile.window.id);
    match target {
        WorkspaceAddWindowTarget::Auto => {
            let at = next_column_idx(s.row);
            lemma_column_is_put(here, after, at, column);
        },
        WorkspaceAddWindowTarget::NewColumnAt(idx) => {
            lemma_column_is_put(here, after, idx as int, column);
        },
        WorkspaceAddWindowTarget::NextTo(id) => {
            if s.float.holds(id) {
                lemma_column_is_put(here, after, next_column_idx(s.row), column);
            } else {
                column_of_finds_the_first(s.row, id);
                lemma_column_is_put(here, after, column_of(s.row.columns, id) + 1, column);
            }
        },
    }
}

proof fn lemma_column_is_put(
    s: WorkspaceState,
    after: WorkspaceState,
    at: int,
    column: ColumnState,
)
    requires
        0 <= at <= s.row.columns.len(),
        after.row.columns == s.row.columns.insert(at, column),
    ensures
        after.row.columns[at] == column,
        after.row.columns.remove(at) == s.row.columns,
        after.row.columns.len() == s.row.columns.len() + 1,
        at > 0 ==> after.row.columns[at - 1] == s.row.columns[at - 1],
{
    assert(after.row.columns.remove(at) =~= s.row.columns);
}

/// A new floating window is placed over the window that it opens next to, or by its owner.
/// Only the place of a column keeps it from floating.
pub proof fn new_floats_are_placed_where_they_belong(
    s: WorkspaceState,
    tile: Tile,
    activate: ActivateWindow,
    width: ColumnWidth,
    full_width: bool,
    id: u64,
)
    requires
        s.wf(),
        tile.sizing is Normal,
    ensures
        ({
            let auto = tile_added(
                s,
                tile,
                WorkspaceAddWindowTarget::Auto,
                activate,
                width,
                full_width,
                true,
            );
            let next = tile_added(
                s,
                tile,
                WorkspaceAddWindowTarget::NextTo(id),
                activate,
                width,
                full_width,
                true,
            );
            &&& auto.row.columns == s.row.columns && next.row.columns == s.row.columns
            &&& auto.float.tiles.len() == s.float.tiles.len() + 1
            &&& next.float.tiles.len() == s.float.tiles.len() + 1
            &&& auto.float.requests.last() == (FloatRequest::Place {
                window: tile.window.id,
                placement: FloatPlacement::Owner(owner_of(s, tile.window)),
            })
            &&& next.float.requests.last() == (FloatRequest::Place {
                window: tile.window.id,
                placement: FloatPlacement::Over(id),
            })
        }),
{
    let placed = Tile { sizing: SizingMode::Normal, restore_to_floating: true, ..tile };
    let at = if s.float.holds(id) {
        tile_of(s.float.tiles, id)
    } else {
        0
    };
    if s.float.holds(id) {
        lemma_place_is_found(s.float.tiles, id, 0);
    }
    dialogs_come_in_front(s.float.tiles.insert(0, placed), 0);
    dialogs_come_in_front(s.float.tiles.insert(at, placed), at);
    let entered_s = entered(s, tile.window.id);
    assert(owner_of(entered_s, tile.window) == owner_of(s, tile.window));
}

proof fn lemma_place_is_found(tiles: Seq<Tile>, id: u64, i: int)
    requires
        0 <= i <= tiles.len(),
        exists|j: int| i <= j < tiles.len() && (#[trigger] tiles[j]).holds(id),
    ensures
        i <= tile_from(tiles, id, i) < tiles.len(),
    decreases tiles.len() - i,
{
    if !tiles[i].holds(id) {
        lemma_place_is_found(tiles, id, i + 1);
    }
}

/// Each visible window is told of a workspace that changes its output: first that it left the
/// old one, and last that it is on the new one. On the same output nothing happens.
pub proof fn windows_hear_of_outputs(s: WorkspaceState, output: Option<&Output>, area: RectBits)
    ensures
        ({
            let after = output_set(s, output, area);
            let n = s.tiles().len();
            let from = s.effects.len();
            let to = after.effects.len();
            let number = match output {
                Some(o) => Some(o.id),
                None => None,
            };
            &&& s.frame.output == number ==> after == s
            &&& after.frame.output == number
            &&& after.row.columns == s.row.columns && after.float.tiles == s.float.tiles
            &&& s.frame.output != number && s.frame.output is Some ==> {
                &&& to >= from + n
                &&& forall|i: int|
                    0 <= i < n ==> #[trigger] after.effects[from + i] == (Effect::OutputLeave {
                        window: s.tiles()[i].window.id,
                        output: s.frame.output->0,
                    })
            }
            &&& s.frame.output != number && number is Some ==> {
                &&& to >= from + n
                &&& forall|i: int|
                    0 <= i < n ==> #[trigger] after.effects[to - n + i] == (Effect::OutputEnter {
                        window: s.tiles()[i].window.id,
                    })
            }
        }),
{
}

/// A workspace has the view of the output that it comes to. It belongs to that output by the
/// full name once it was known by any of its names, and stays with another one otherwise.
pub proof fn workspaces_take_the_view_of_their_output(
    s: WorkspaceState,
    output: Output,
    area: RectBits,
)
    requires
        s.frame.output != Some(output.id),
    ensures
        ({
            let after = output_set(s, Some(&output), area);
            &&& sizes_equal(after.frame.view_size, output.view_size) || after.frame.view_size
                == output.view_size
            &&& rects_equal(after.frame.working_area, output.working_area)
                || after.frame.working_area == output.working_area
            &&& after.frame.transform == output.transform
            &&& after.frame.scale.integer == output.scale.integer
            &&& names_output(s.frame.original_output, output) ==> after.frame.original_output
                == output.description@
            &&& !names_output(s.frame.original_output, output) ==> after.frame.original_output
                == s.frame.original_output
            &&& after.frame.name == s.frame.name && after.frame.id == s.frame.id
        }),
{
}

/// An output goes by its connector and by its description, without regard to case.
pub proof fn outputs_go_by_both_names(output: Output)
    ensures
        names_output(output.connector@, output),
        names_output(output.description@, output),
{
}

/// Both layers go on with what is animated, and what is in motion in each of them is kept
/// apart.
pub proof fn layers_move_by_themselves(s: WorkspaceState, scrolling: Motion, floating: Motion)
    ensures
        animations_advanced(s).row.requests.last() is Advance,
        animations_advanced(s).float.requests.last() is Advance,
        animations_advanced(s).row.columns == s.row.columns,
        motion_reported(s, scrolling, floating).row.motion == scrolling,
        motion_reported(s, scrolling, floating).float.motion == floating,
        motion_reported(s, scrolling, floating).row.columns == s.row.columns,
        motion_reported(s, scrolling, floating).float.tiles == s.float.tiles,
{
}

/// A width that was given to the column of a window is the width of that column, and of no
/// other one.
pub proof fn given_widths_are_taken(
    s: WorkspaceState,
    id: u64,
    width: ColumnWidth,
    is_full_width: bool,
)
    requires
        s.wf(),
    ensures
        ({
            let after = width_taken(s, id, width, is_full_width);
            let c = column_of(s.row.columns, id);
            &&& !s.row.holds(id) ==> after == s
            &&& s.row.holds(id) ==> after.row.columns[c].width == width
                && after.row.columns[c].full_width == is_full_width
            &&& s.row.holds(id) ==> after.row.columns[c].tiles == s.row.columns[c].tiles
            &&& forall|i: int|
                0 <= i < s.row.columns.len() && i != c ==> #[trigger] after.row.columns[i]
                    == s.row.columns[i]
            &&& only_the_row_changes(s, after)
        }),
{
    column_of_finds_the_first(s.row, id);
}

/// The dialogs of a floating window come in front of it when one is added, and the columns
/// stay.
pub proof fn added_dialogs_come_in_front(s: WorkspaceState, id: u64)
    ensures
        dialogs_raised(s, id).1 <==> s.float.holds(id),
        !dialogs_raised(s, id).1 ==> dialogs_raised(s, id).0 == s,
        only_floats_change(s, dialogs_raised(s, id).0),
        dialogs_raised(s, id).0.float.tiles.len() == s.float.tiles.len(),
        dialogs_raised(s, id).0.float.active == s.float.active,
        s.float.holds(id) ==> {
            let at = tile_of(s.float.tiles, id);
            let shown = s.float.tiles[at].window.id;
            let after = dialogs_raised(s, id).0.float.tiles;
            let n = at + dialogs_of(s.float.tiles.skip(at + 1), shown).len();
            &&& after[n] == s.float.tiles[at]
            &&& forall|i: int|
                n < i < after.len() ==> (#[trigger] after[i]).window.parent != Some(shown)
        },
{
    if s.float.holds(id) {
        lemma_place_is_found(s.float.tiles, id, 0);
        dialogs_come_in_front(s.float.tiles, tile_of(s.float.tiles, id));
    }
}

} // verus!
