//! A workspace: columns, and floating windows on top of them.

use vstd::prelude::*;
use crate::config::layout::{
    merged_layout, same_parts, BorderRule, Layout, LayoutPart, LayoutState, PresetSize,
};
use crate::config::utils::MergeWith;
use crate::ipc::{ColumnDisplay, PositionChange, SizeChange};
use crate::layout::fixed_strip::FixedSide;
use crate::layout::floating::{
    float_activate, float_remove, float_removed_window, float_target, float_with_request, shown_at,
    shows, with_float_window, FloatPlacement, FloatRequest, FloatState, FloatingSpace, FocusDir,
};
use crate::layout::geometry::{
    numbers_equal, rects_equal, same_number, same_rect, same_size, sizes_equal, RectBits,
    ResizeEdge, SizeBits, ViewGeometry,
};
use crate::layout::render::{fade_edges, positive, CarouselRender, FadeEdges, PixelRect};
use crate::layout::reorder::{in_order, reordered};
use crate::layout::row::{
    all_tiles, column_of, has_target, next_column_idx, removed_window, request_height, scrolled,
    set_fullscreen, set_maximized, target_window, tile_of, with_active_tile, with_column,
    with_request, with_tile_at, with_tile_of, Motion, Request, ScrollDirection, SizeRequest,
    SpaceState,
};
use crate::layout::scrolling::ScrollingSpace;
use crate::layout::sizing::{
    height_by_rule, negate_size_change, new_window_size, opening_size, resolve_default_height,
    resolve_default_width, resolve_scrolling_width, scrolling_width, str_view, ConfiguredSize,
    ScrollingWidth, Size,
};
use crate::layout::tile::{
    single_tile_column, Column, ColumnState, ColumnWidth, RemovedTile, SizingMode, Tile, Window,
};
use crate::layout::windows_law::{set_fullscreen_keeps_windows, set_maximized_keeps_windows};
use crate::layout::workspace_moves::{
    active_column_leaves, active_tile_leaves, animations_advanced, bottom_window_focused,
    closing_shown, column_arrived, column_centered, column_expanded, column_put_at,
    column_put_first, column_put_last, column_width_changed, column_width_switched, configured_size,
    consumed_from_the_right, dialogs_raised, displayed_as, drag_begun, drag_ended, dragged,
    drawn_floats, drawn_row, edge_scrolling_begun, edge_scrolling_ended, edge_scrolling_moved,
    expelled_to_the_right, faded_edges, first_column_focused, first_of_the_row_focused,
    floats_are_visible, focused_down, focused_down_or_left, focused_down_or_right, focused_left,
    focused_right, focused_up, focused_up_or_left, focused_up_or_right, focuses_down,
    focuses_down_or_top, focuses_left, focuses_left_or_last, focuses_right, focuses_right_or_first,
    focuses_up, focuses_up_or_bottom, full_width_switched, height_changed, height_left_open,
    height_switched, insets_set, last_column_focused, last_of_the_row_focused, layer_with,
    motion_reported, numbered_column_focused, numbered_row_focused, opening_shown, prepared,
    pushed_down, pushed_left, pushed_right, pushed_up, put_into_neighbor, put_onto_the_left,
    put_onto_the_one_above, put_onto_the_one_below, put_onto_the_right, refreshed,
    regrouped_to_the_left, regrouped_to_the_right, resized_towards, row_column_added,
    row_column_leaves, scrolling_begun, scrolling_ended, scrolling_moved, split_downwards,
    split_to_neighbor, split_to_the_left, split_to_the_right, split_upwards, swapped_with,
    tabs_toggled, tile_joined, top_window_focused, visible_columns_centered, width_changed,
    width_switched, width_taken, window_at, window_centered, window_updated,
};
use crate::layout::workspace_state::{
    area_synced, can_find, can_toggle_floating, crosses_layers, each_visible, entered, fitted,
    float_geometry, float_height_requested, float_picked, float_width_requested, floating_focused,
    floating_toggled, focus_moves, fullscreen_set, fullscreen_toggled, is_best, is_eligible,
    layer_of, layer_set, layer_switched, maximized_set, maximized_toggled, owner_of, parent_from,
    recentered, reconfigured, refitted, refocused, remembered, row_geometry, tile_added,
    tiling_focused, width_requested, window_activated, window_focused, window_removed, with_effect,
    ActivateWindow, Effect, FloatingActive, FocusCandidate, FocusHint, Frame, OutputScale,
    Transform, WindowLayer, WorkspaceAddWindowTarget, WorkspaceState,
};
use crate::text::{eq_ignore_ascii_case, option_view, same_ignoring_ascii_case, str_eq};

verus! {

/// Hands out numbers that were not handed out before.
#[derive(Debug)]
pub struct IdCounter {
    value: u64,
}

impl IdCounter {
    /// The number that is handed out next.
    pub closed spec fn upcoming(self) -> u64 {
        self.value
    }

    pub fn new() -> (r: Self)
        ensures
            r.upcoming() == 1,
    {
        IdCounter { value: 1 }
    }

    pub fn next(&mut self) -> (r: u64)
        requires
            old(self).upcoming() < u64::MAX,
        ensures
            r == old(self).upcoming(),
            final(self).upcoming() == old(self).upcoming() + 1,
    {
        let r: u64 = self.value;
        self.value = r + 1;
        r
    }
}

/// Identifies a workspace.
#[derive(Debug, Clone, Copy, PartialEq, Eq, Structural, Hash)]
pub struct WorkspaceId(u64);

impl WorkspaceId {
    pub closed spec fn number(self) -> u64 {
        self.0
    }

    /// An id is its number and nothing else: two ids with the same number are the
    /// same.
    pub proof fn number_identifies(a: WorkspaceId, b: WorkspaceId)
        ensures
            a.number() == b.number() <==> a == b,
    {
    }

    /// An id that no other workspace has.
    pub fn next(ids: &mut IdCounter) -> (r: WorkspaceId)
        requires
            old(ids).upcoming() < u64::MAX,
        ensures
            r.number() == old(ids).upcoming(),
            final(ids).upcoming() == old(ids).upcoming() + 1,
    {
        WorkspaceId(ids.next())
    }

    pub fn get(self) -> (r: u64)
        ensures
            r == self.number(),
    {
        self.0
    }

    pub fn specific(id: u64) -> (r: Self)
        ensures
            r.number() == id,
            forall|other: WorkspaceId| #[trigger] other.number() == id ==> r == other,
    {
        WorkspaceId(id)
    }
}

/// An output as a workspace knows it.
#[derive(Debug)]
pub struct Output {
    /// Tells the output from others.
    pub id: u64,
    /// The connector that the output is plugged into.
    pub connector: String,
    /// Make, model and serial number, or else the connector.
    pub description: String,
    pub scale: OutputScale,
    pub transform: Transform,
    pub view_size: SizeBits,
    /// The part of the view that bars and the like leave free.
    pub working_area: RectBits,
}

/// The output that a workspace belongs to, by a name that it keeps when it is
/// plugged in elsewhere.
#[derive(Debug)]
pub struct OutputId(String);

impl OutputId {
    pub closed spec fn text(self) -> Seq<char> {
        self.0@
    }

    pub fn new(output: &Output) -> (r: Self)
        ensures
            r.text() == output.description@,
    {
        OutputId(output.description.clone())
    }

    /// Whether this is the name of an output, or of the connector that it is
    /// plugged into.
    pub fn matches(&self, output: &Output) -> (r: bool)
        ensures
            r == names_output(self.text(), *output),
    {
        eq_ignore_ascii_case(self.0.as_str(), output.connector.as_str())
            || eq_ignore_ascii_case(self.0.as_str(), output.description.as_str())
    }
}

/// Whether a text names an output, without regard to case.
pub open spec fn names_output(name: Seq<char>, output: Output) -> bool {
    same_ignoring_ascii_case(name, output.connector@) || same_ignoring_ascii_case(
        name,
        output.description@,
    )
}

/// The place of a tile on a workspace.
#[derive(Debug, Clone, Copy, PartialEq, Eq, Structural)]
pub enum TilePlace {
    /// Among the columns, counted from the left and from the top.
    Column { column: usize, tile: usize },
    /// In the floating layer, counted from the topmost one.
    Floating(usize),
}

/// A workspace that the configuration declares.
#[derive(Debug)]
pub struct WorkspaceConfig {
    pub name: String,
    pub open_on_output: Option<String>,
    pub layout: Option<LayoutPart>,
}

/// A workspace.
#[derive(Debug)]
pub struct Workspace {
    scrolling: ScrollingSpace,
    floating: FloatingSpace,
    floating_is_active: FloatingActive,
    fixed_insets: (u64, u64),
    original_output: OutputId,
    output: Option<u64>,
    scale: OutputScale,
    transform: Transform,
    view_size: SizeBits,
    working_area: RectBits,
    base_layout: Layout,
    layout: Layout,
    name: Option<String>,
    layout_config: Option<LayoutPart>,
    id: WorkspaceId,
    effects: Vec<Effect>,
}

impl View for Workspace {
    type V = WorkspaceState;

    closed spec fn view(&self) -> WorkspaceState {
        WorkspaceState {
            row: self.scrolling@,
            float: self.floating@,
            active: self.floating_is_active,
            effects: self.effects@,
            frame: Frame {
                id: self.id.number(),
                name: option_view(self.name),
                original_output: self.original_output.text(),
                output: self.output,
                scale: self.scale,
                transform: self.transform,
                view_size: self.view_size,
                working_area: self.working_area,
                insets: self.fixed_insets,
                base_layout: self.base_layout@,
                layout: self.layout@,
            },
        }
    }
}

/// The bit pattern of 1280 as a double.
pub const WIDTH_1280: u64 = 0x4094_0000_0000_0000;

/// The bit pattern of 720 as a double.
pub const HEIGHT_720: u64 = 0x4086_8000_0000_0000;

/// The bit pattern of one as a double.
pub const SCALE_ONE: u64 = 0x3FF0_0000_0000_0000;

/// The tile at a place of a workspace.
pub open spec fn tile_at(s: WorkspaceState, place: TilePlace) -> Option<Tile> {
    match place {
        TilePlace::Column { column, tile } => if column < s.row.columns.len() && tile
            < s.row.columns[column as int].tiles.len() {
            Some(s.row.columns[column as int].tiles[tile as int])
        } else {
            None
        },
        TilePlace::Floating(idx) => if idx < s.float.tiles.len() {
            Some(s.float.tiles[idx as int])
        } else {
            None
        },
    }
}

/// The workspace with another tile at a place.
pub open spec fn with_tile_at_place(
    s: WorkspaceState,
    place: TilePlace,
    tile: Tile,
) -> WorkspaceState {
    match place {
        TilePlace::Column { column, tile: row } => WorkspaceState {
            row: with_tile_at(s.row, column as int, row as int, tile),
            ..s
        },
        TilePlace::Floating(idx) => WorkspaceState {
            float: FloatState { tiles: s.float.tiles.update(idx as int, tile), ..s.float },
            ..s
        },
    }
}

/// The workspace with another window in the place of the active one.
pub open spec fn with_active_window(s: WorkspaceState, window: Window) -> WorkspaceState {
    if s.active is Yes {
        WorkspaceState {
            float: with_float_window(s.float, shown_at(s.float.tiles, s.float.active->0), window),
            ..s
        }
    } else {
        WorkspaceState {
            row: with_active_tile(s.row, Tile { window, ..s.row.active_tile() }),
            ..s
        }
    }
}

/// The layout section for a workspace: that for all workspaces with its own
/// part merged into it.
pub open spec fn workspace_layout(base: LayoutState, part: Option<LayoutPart>) -> LayoutState {
    match part {
        Some(part) => merged_layout(base, part),
        None => base,
    }
}

fn layout_for(base: &Layout, part: &Option<LayoutPart>) -> (r: Layout)
    ensures
        r@ == workspace_layout(base@, *part),
{
    let mut r = base.copy();
    if let Some(part) = part {
        r.merge_with(part);
    }
    r
}

impl Workspace {
    /// The layout part of this workspace.
    pub closed spec fn part(self) -> Option<LayoutPart> {
        self.layout_config
    }

    /// The layers are in order and know the view, and the layout section in
    /// effect is the one for all workspaces with the part of this one.
    pub open spec fn wf(self) -> bool {
        &&& self@.wf()
        &&& self@.mirrors()
        &&& self@.frame.layout == workspace_layout(self@.frame.base_layout, self.part())
    }

    /// A workspace on an output.
    pub fn new(output: &Output, base_layout: Layout, ids: &mut IdCounter) -> (r: Self)
        requires
            old(ids).upcoming() < u64::MAX,
        ensures
            r.wf(),
            r.part() is None,
            r@ == opened_on(*output, None, base_layout@, old(ids).upcoming()),
            final(ids).upcoming() == old(ids).upcoming() + 1,
    {
        Workspace::new_with_config(output, None, base_layout, ids)
    }

    /// A workspace on an output, as the configuration declares it.
    pub fn new_with_config(
        output: &Output,
        config: Option<WorkspaceConfig>,
        base_layout: Layout,
        ids: &mut IdCounter,
    ) -> (r: Self)
        requires
            old(ids).upcoming() < u64::MAX,
        ensures
            r.wf(),
            r.part() == config_part(config),
            r@ == opened_on(*output, config, base_layout@, old(ids).upcoming()),
            final(ids).upcoming() == old(ids).upcoming() + 1,
    {
        let (name, open_on_output, layout_config) = match config {
            Some(WorkspaceConfig { name, open_on_output, layout }) => (
                Some(name),
                open_on_output,
                layout,
            ),
            None => (None, None, None),
        };
        let original_output = match open_on_output {
            Some(name) => OutputId(name),
            None => OutputId::new(output),
        };
        let layout = layout_for(&base_layout, &layout_config);
        let geometry = ViewGeometry {
            view_size: output.view_size,
            working_area: output.working_area,
            scale: output.scale.fractional,
        };
        let r = Workspace {
            scrolling: ScrollingSpace::new(geometry),
            floating: FloatingSpace::new(geometry),
            floating_is_active: FloatingActive::No,
            fixed_insets: (0, 0),
            original_output,
            output: Some(output.id),
            scale: output.scale,
            transform: output.transform,
            view_size: output.view_size,
            working_area: output.working_area,
            base_layout,
            layout,
            name,
            layout_config,
            id: WorkspaceId::next(ids),
            effects: Vec::new(),
        };
        assert(r@.effects =~= seq![]);
        r
    }

    /// A workspace while there is no output, as the configuration declares it.
    pub fn new_with_config_no_outputs(
        config: Option<WorkspaceConfig>,
        base_layout: Layout,
        ids: &mut IdCounter,
    ) -> (r: Self)
        requires
            old(ids).upcoming() < u64::MAX,
        ensures
            r.wf(),
            r.part() == config_part(config),
            r@ == opened_nowhere(config, base_layout@, old(ids).upcoming()),
            final(ids).upcoming() == old(ids).upcoming() + 1,
    {
        let (name, open_on_output, layout_config) = match config {
            Some(WorkspaceConfig { name, open_on_output, layout }) => (
                Some(name),
                open_on_output,
                layout,
            ),
            None => (None, None, None),
        };
        let original_output = match open_on_output {
            Some(name) => OutputId(name),
            None => OutputId(String::new()),
        };
        let layout = layout_for(&base_layout, &layout_config);
        let scale = OutputScale { integer: 1, fractional: SCALE_ONE };
        let view_size = SizeBits { w: WIDTH_1280, h: HEIGHT_720 };
        let working_area = RectBits { x: 0, y: 0, size: view_size };
        let geometry = ViewGeometry { view_size, working_area, scale: SCALE_ONE };
        let r = Workspace {
            scrolling: ScrollingSpace::new(geometry),
            floating: FloatingSpace::new(geometry),
            floating_is_active: FloatingActive::No,
            fixed_insets: (0, 0),
            original_output,
            output: None,
            scale,
            transform: Transform::Normal,
            view_size,
            working_area,
            base_layout,
            layout,
            name,
            layout_config,
            id: WorkspaceId::next(ids),
            effects: Vec::new(),
        };
        assert(r@.effects =~= seq![]);
        assert(r@.frame.original_output =~= opened_nowhere(
            config,
            base_layout@,
            old(ids).upcoming(),
        ).frame.original_output);
        r
    }

    /// A workspace while there is no output.
    pub fn new_no_outputs(base_layout: Layout, ids: &mut IdCounter) -> (r: Self)
        requires
            old(ids).upcoming() < u64::MAX,
        ensures
            r.wf(),
            r.part() is None,
            r@ == opened_nowhere(None, base_layout@, old(ids).upcoming()),
            final(ids).upcoming() == old(ids).upcoming() + 1,
    {
        Workspace::new_with_config_no_outputs(None, base_layout, ids)
    }

    pub fn id(&self) -> (r: WorkspaceId)
        ensures
            r.number() == self@.frame.id,
    {
        self.id
    }

    pub fn name(&self) -> (r: Option<&String>)
        ensures
            match r {
                Some(name) => self@.frame.name == Some(name@),
                None => self@.frame.name is None,
            },
    {
        self.name.as_ref()
    }

    pub fn unname(&mut self)
        requires
            old(self).wf(),
        ensures
            final(self)@ == (WorkspaceState {
                frame: Frame { name: None, ..old(self)@.frame },
                ..old(self)@
            }),
            final(self).wf(),
            final(self).part() == old(self).part(),
    {
        self.name = None;
    }

    pub fn scale(&self) -> (r: OutputScale)
        ensures
            r == self@.frame.scale,
    {
        self.scale
    }

    pub fn view_size(&self) -> (r: SizeBits)
        ensures
            r == self@.frame.view_size,
    {
        self.view_size
    }

    pub fn working_area(&self) -> (r: RectBits)
        ensures
            r == self@.frame.working_area,
    {
        self.working_area
    }

    /// The output that the workspace is on.
    pub fn current_output(&self) -> (r: Option<u64>)
        ensures
            r == self@.frame.output,
    {
        self.output
    }

    pub fn layout_config(&self) -> (r: Option<&LayoutPart>)
        ensures
            match r {
                Some(part) => self.part() == Some(*part),
                None => self.part() is None,
            },
    {
        self.layout_config.as_ref()
    }
}

/// The layout part that the configuration has for a workspace.
pub open spec fn config_part(config: Option<WorkspaceConfig>) -> Option<LayoutPart> {
    match config {
        Some(c) => c.layout,
        None => None,
    }
}

/// A row without columns.
pub open spec fn empty_row(geometry: ViewGeometry) -> SpaceState {
    SpaceState {
        columns: Seq::empty(),
        active: 0,
        returns_left: false,
        resize: None,
        guest: None,
        anchor: crate::layout::row::ViewAnchor::Carousel,
        requests: Seq::empty(),
        geometry,
        motion: Motion { animations: false, transitions: false },
    }
}

/// A floating layer without windows.
pub open spec fn empty_float(geometry: ViewGeometry) -> FloatState {
    FloatState {
        tiles: seq![],
        active: None,
        resize: None,
        requests: seq![],
        geometry,
        motion: Motion { animations: false, transitions: false },
    }
}

/// A new workspace on an output. It belongs to that output unless the
/// configuration says otherwise.
pub open spec fn opened_on(
    output: Output,
    config: Option<WorkspaceConfig>,
    base: LayoutState,
    id: u64,
) -> WorkspaceState {
    let geometry = ViewGeometry {
        view_size: output.view_size,
        working_area: output.working_area,
        scale: output.scale.fractional,
    };
    WorkspaceState {
        row: empty_row(geometry),
        float: empty_float(geometry),
        active: FloatingActive::No,
        effects: seq![],
        frame: Frame {
            id,
            name: match config {
                Some(c) => Some(c.name@),
                None => None,
            },
            original_output: match config {
                Some(c) => match c.open_on_output {
                    Some(name) => name@,
                    None => output.description@,
                },
                None => output.description@,
            },
            output: Some(output.id),
            scale: output.scale,
            transform: output.transform,
            view_size: output.view_size,
            working_area: output.working_area,
            insets: (0, 0),
            base_layout: base,
            layout: workspace_layout(base, config_part(config)),
        },
    }
}

/// A new workspace while there is no output. It belongs to the output that the
/// configuration says, if any, and has a view of 1280 by 720.
pub open spec fn opened_nowhere(
    config: Option<WorkspaceConfig>,
    base: LayoutState,
    id: u64,
) -> WorkspaceState {
    let view_size = SizeBits { w: WIDTH_1280, h: HEIGHT_720 };
    let working_area = RectBits { x: 0, y: 0, size: view_size };
    let geometry = ViewGeometry { view_size, working_area, scale: SCALE_ONE };
    WorkspaceState {
        row: empty_row(geometry),
        float: empty_float(geometry),
        active: FloatingActive::No,
        effects: seq![],
        frame: Frame {
            id,
            name: match config {
                Some(c) => Some(c.name@),
                None => None,
            },
            original_output: match config {
                Some(c) => match c.open_on_output {
                    Some(name) => name@,
                    None => seq![],
                },
                None => seq![],
            },
            output: None,
            scale: OutputScale { integer: 1, fractional: SCALE_ONE },
            transform: Transform::Normal,
            view_size,
            working_area,
            insets: (0, 0),
            base_layout: base,
            layout: workspace_layout(base, config_part(config)),
        },
    }
}

/// Whether a window belongs to this application.
fn is_app(app_id: &Option<String>, other: &str) -> (r: bool)
    ensures
        r == (option_view(*app_id) == Some(other@)),
{
    match app_id {
        Some(id) => str_eq(id.as_str(), other),
        None => false,
    }
}

/// The only floating window is the active one while the floating layer is
/// active.
proof fn lemma_last_floating_is_active(s: WorkspaceState, id: u64)
    requires
        s.wf(),
        s.float.holds(id),
        s.shows(id),
    ensures
        float_remove(s.float, id).tiles.len() == 0 && s.active is Yes ==> (
        s.active_window() matches Some(w) && w.id == id),
{
    if float_remove(s.float, id).tiles.len() == 0 && s.active is Yes {
        let tiles = s.float.tiles;
        lemma_found(s.float, id);
        assert(tiles.len() == 1);
        let active = s.float.active->0;
        assert(shows(tiles, active));
        assert(tiles[0].window.id == active);
        assert(shown_at(tiles, active) == 0) by {
            reveal_with_fuel(crate::layout::floating::shown_from, 2);
        }
    }
}

proof fn lemma_found_from(tiles: Seq<Tile>, id: u64, i: int)
    requires
        0 <= i <= tiles.len(),
    ensures
        i <= crate::layout::row::tile_from(tiles, id, i) <= tiles.len(),
        forall|j: int| i <= j < crate::layout::row::tile_from(tiles, id, i) ==> !tiles[j].holds(id),
        crate::layout::row::tile_from(tiles, id, i) < tiles.len()
            ==> tiles[crate::layout::row::tile_from(tiles, id, i)].holds(id),
    decreases tiles.len() - i,
{
    if i < tiles.len() && !tiles[i].holds(id) {
        lemma_found_from(tiles, id, i + 1);
    }
}

/// A floating window that is there has a tile.
pub(crate) proof fn lemma_found(s: FloatState, id: u64)
    requires
        s.holds(id),
    ensures
        0 <= tile_of(s.tiles, id) < s.tiles.len(),
        s.tiles[tile_of(s.tiles, id)].holds(id),
{
    lemma_found_from(s.tiles, id, 0);
}

/// A floating window that got the focus leaves the floating layer with a window.
proof fn lemma_activated_is_not_empty(s: WorkspaceState, id: u64)
    requires
        s.float.holds(id),
    ensures
        float_activate(s.float, id).tiles.len() > 0,
{
    lemma_found(s.float, id);
    let idx = tile_of(s.float.tiles, id);
    let raised = s.float.tiles.remove(idx).insert(0, s.float.tiles[idx]);
    crate::layout::floating::dialogs_up_keeps_tiles(raised, 0);
}

/// Replacing a tile of a row keeps it in order.
proof fn lemma_with_tile_of_wf(s: SpaceState, id: u64)
    requires
        s.wf(),
        s.holds(id),
    ensures
        forall|tile: Tile| #[trigger] with_tile_of(s, id, tile).wf(),
{
    crate::layout::row::column_of_finds_the_first(s, id);
    let c = column_of(s.columns, id);
    crate::layout::row::tile_of_finds_the_first(s.columns[c], id);
    assert forall|tile: Tile| #[trigger] with_tile_of(s, id, tile).wf() by {
        let after = with_tile_of(s, id, tile);
        assert forall|i: int| 0 <= i < after.columns.len() implies (
        #[trigger] after.columns[i]).wf() by {
            assert(s.columns[i].wf());
        }
    }
}

/// A floating window that moved to the columns is found there.
proof fn lemma_toggled_is_tiled(s: WorkspaceState, id: u64)
    requires
        s.wf(),
        s.float.holds(id),
        s.shows(id),
    ensures
        floating_toggled(s, Some(id)).row.holds(id),
{
    let removed = float_removed_window(s.float, id);
    let column = single_tile_column(removed.tile, removed.width, removed.is_full_width);
    lemma_found(s.float, id);
    assert(column.tiles[0].window.id == id);
    assert(column.tiles[0].holds(id));
    assert(column.holds(id));
    let focused = s.active_window() matches Some(w) && w.id == id;
    crate::layout::windows_law::insert_column_adds_its_windows(
        s.row,
        next_column_idx(s.row),
        column,
        focused,
        id,
    );
}

impl Workspace {
    /// Whether the floating layer is active.
    pub fn floating_is_active(&self) -> (r: bool)
        ensures
            r == (self@.active is Yes),
    {
        self.floating_is_active.get()
    }

    pub fn is_floating(&self, id: u64) -> (r: bool)
        ensures
            r == self@.float.holds(id),
    {
        self.floating.has_window(id)
    }

    /// The layer that holds a window.
    pub fn window_slot(&self, id: u64) -> (r: Option<WindowLayer>)
        ensures
            r == layer_with(self@, id),
    {
        if self.floating.has_window(id) {
            Some(WindowLayer::Floating)
        } else if self.scrolling.column_with_window(id).is_some() {
            Some(WindowLayer::Scrolling)
        } else {
            None
        }
    }

    /// The layer that an operation on a window applies to. A window that is in
    /// neither is taken to be among the columns.
    pub fn layer_for(&self, window: Option<u64>) -> (r: WindowLayer)
        ensures
            r == layer_of(self@, window),
    {
        let floating = match window {
            Some(id) => self.floating.has_window(id),
            None => self.floating_is_active.get(),
        };
        if floating {
            WindowLayer::Floating
        } else {
            WindowLayer::Scrolling
        }
    }

    pub fn active_window(&self) -> (r: Option<&Window>)
        requires
            self.wf(),
        ensures
            match r {
                Some(window) => self@.active_window() == Some(*window),
                None => self@.active_window() is None,
            },
    {
        if self.floating_is_active.get() {
            return self.floating.active_window();
        }
        self.scrolling.active_window()
    }

    pub fn is_active_pending_fullscreen(&self) -> (r: bool)
        requires
            self.wf(),
        ensures
            r == (self@.row.columns.len() > 0 && self@.row.active_column().fullscreen),
    {
        self.scrolling.is_active_pending_fullscreen()
    }

    pub fn are_animations_ongoing(&self) -> (r: bool)
        ensures
            r == (self@.row.motion.animations || self@.float.motion.animations),
    {
        self.scrolling.motion().animations || self.floating.motion().animations
    }

    pub fn are_transitions_ongoing(&self) -> (r: bool)
        ensures
            r == (self@.row.motion.transitions || self@.float.motion.transitions),
    {
        self.scrolling.motion().transitions || self.floating.motion().transitions
    }

    /// Whether the floating layer is shown: it is hidden behind a window that
    /// covers the screen above everything, as `above_top_layer` tells, unless it
    /// is active or was left on top.
    pub fn is_floating_visible(&self, above_top_layer: bool) -> (r: bool)
        ensures
            r == floats_are_visible(self@, above_top_layer),
    {
        match self.floating_is_active {
            FloatingActive::Yes | FloatingActive::NoButRaised => true,
            FloatingActive::No => !above_top_layer,
        }
    }

    pub fn scrolling_is_empty(&self) -> (r: bool)
        ensures
            r == (self@.row.columns.len() == 0),
    {
        self.scrolling.is_empty()
    }

    pub fn carousel_is_floating_active(&self) -> (r: bool)
        ensures
            r == (self@.active is Yes),
    {
        self.floating_is_active.get()
    }

    /// Index of the active column, if there is one.
    pub fn carousel_active_column_index(&self) -> (r: Option<usize>)
        ensures
            match r {
                Some(i) => self@.row.columns.len() > 0 && i == self@.row.active,
                None => self@.row.columns.len() == 0,
            },
    {
        if self.scrolling.is_empty() {
            None
        } else {
            Some(self.scrolling.active_column_index())
        }
    }

    pub fn carousel_column_count(&self) -> (r: usize)
        ensures
            r == self@.row.columns.len(),
    {
        self.scrolling.column_count()
    }

    /// Number of tiles in the active column.
    pub fn active_scrolling_column_tile_count(&self) -> (r: Option<usize>)
        requires
            self.wf(),
        ensures
            match r {
                Some(n) => self@.row.columns.len() > 0 && n
                    == self@.row.active_column().tiles.len(),
                None => self@.row.columns.len() == 0,
            },
    {
        self.scrolling.active_column_tile_count()
    }

    /// The columns.
    pub fn scrolling(&self) -> (r: &ScrollingSpace)
        ensures
            r@ == self@.row,
    {
        &self.scrolling
    }

    /// The floating layer.
    pub fn floating(&self) -> (r: &FloatingSpace)
        ensures
            r@ == self@.float,
    {
        &self.floating
    }

    pub fn popup_layer(&self, window: u64) -> (r: WindowLayer)
        ensures
            r == layer_of(self@, Some(window)),
    {
        self.layer_for(Some(window))
    }

    /// The tiles: those of the columns and then the floating ones.
    pub fn tiles(&self) -> (r: Vec<&Tile>)
        ensures
            r@.len() == self@.tiles().len(),
            forall|i: int| 0 <= i < r@.len() ==> *(#[trigger] r@[i]) == self@.tiles()[i],
    {
        let mut r = self.scrolling.tiles();
        let floating = self.floating.tiles();
        let ghost n = r@.len();
        let mut i: usize = 0;
        while i < floating.len()
            invariant
                i <= floating@.len(),
                floating@ == self@.float.tiles,
                n == all_tiles(self@.row.columns).len(),
                r@.len() == n + i,
                forall|j: int| 0 <= j < r@.len() ==> *(#[trigger] r@[j]) == self@.tiles()[j],
            decreases floating@.len() - i,
        {
            r.push(&floating[i]);
            i += 1;
        }
        r
    }

    /// The visible windows: those of the columns and then the floating ones.
    pub fn windows(&self) -> (r: Vec<&Window>)
        ensures
            r@.len() == self@.tiles().len(),
            forall|i: int| 0 <= i < r@.len() ==> *(#[trigger] r@[i]) == self@.tiles()[i].window,
    {
        let tiles = self.tiles();
        let mut r: Vec<&Window> = Vec::new();
        let mut i: usize = 0;
        while i < tiles.len()
            invariant
                i <= tiles@.len(),
                tiles@.len() == self@.tiles().len(),
                forall|j: int|
                    0 <= j < tiles@.len() ==> *(#[trigger] tiles@[j]) == self@.tiles()[j],
                r@.len() == i,
                forall|j: int| 0 <= j < i ==> *(#[trigger] r@[j]) == self@.tiles()[j].window,
            decreases tiles@.len() - i,
        {
            assert(*tiles@[i as int] == self@.tiles()[i as int]);
            r.push(&tiles[i].window);
            i += 1;
        }
        r
    }

    pub fn has_windows(&self) -> (r: bool)
        ensures
            r == (self@.tiles().len() > 0),
    {
        self.windows().len() > 0
    }

    pub fn has_windows_or_name(&self) -> (r: bool)
        ensures
            r == (self@.tiles().len() > 0 || self@.frame.name is Some),
    {
        self.has_windows() || self.name.is_some()
    }

    /// Whether a visible window has this id.
    pub fn has_window(&self, window: u64) -> (r: bool)
        ensures
            r == exists|i: int|
                0 <= i < self@.tiles().len() && (#[trigger] self@.tiles()[i]).window.id == window,
    {
        let windows = self.windows();
        let mut i: usize = 0;
        while i < windows.len()
            invariant
                i <= windows@.len(),
                windows@.len() == self@.tiles().len(),
                forall|j: int|
                    0 <= j < windows@.len() ==> *(#[trigger] windows@[j])
                        == self@.tiles()[j].window,
                forall|j: int| 0 <= j < i ==> !((#[trigger] self@.tiles()[j]).window.id == window),
            decreases windows@.len() - i,
        {
            assert(*windows@[i as int] == self@.tiles()[i as int].window);
            if windows[i].id == window {
                return true;
            }
            i += 1;
        }
        false
    }

    pub fn is_urgent(&self) -> (r: bool)
        ensures
            r == exists|i: int|
                0 <= i < self@.tiles().len() && (#[trigger] self@.tiles()[i]).window.is_urgent,
    {
        let windows = self.windows();
        let mut i: usize = 0;
        while i < windows.len()
            invariant
                i <= windows@.len(),
                windows@.len() == self@.tiles().len(),
                forall|j: int|
                    0 <= j < windows@.len() ==> *(#[trigger] windows@[j])
                        == self@.tiles()[j].window,
                forall|j: int| 0 <= j < i ==> !((#[trigger] self@.tiles()[j]).window.is_urgent),
            decreases windows@.len() - i,
        {
            assert(*windows@[i as int] == self@.tiles()[i as int].window);
            if windows[i].is_urgent {
                return true;
            }
            i += 1;
        }
        false
    }

    /// Whether a visible window belongs to this application.
    pub fn has_window_with_app_id(&self, app_id: &str) -> (r: bool)
        ensures
            r == exists|i: int|
                0 <= i < self@.tiles().len() && option_view(
                    (#[trigger] self@.tiles()[i]).window.app_id,
                ) == Some(app_id@),
    {
        let windows = self.windows();
        let mut i: usize = 0;
        while i < windows.len()
            invariant
                i <= windows@.len(),
                windows@.len() == self@.tiles().len(),
                forall|j: int|
                    0 <= j < windows@.len() ==> *(#[trigger] windows@[j])
                        == self@.tiles()[j].window,
                forall|j: int|
                    0 <= j < i ==> option_view((#[trigger] self@.tiles()[j]).window.app_id) != Some(
                        app_id@,
                    ),
            decreases windows@.len() - i,
        {
            assert(*windows@[i as int] == self@.tiles()[i as int].window);
            if is_app(&windows[i].app_id, app_id) {
                return true;
            }
            i += 1;
        }
        false
    }

    /// The width that a window opens with. `ultrawide` tells whether the view is
    /// at least 21:9.
    pub fn resolve_default_width(
        &self,
        default_width: Option<Option<PresetSize>>,
        is_floating: bool,
        app_id: Option<&str>,
        ultrawide: bool,
    ) -> (r: Option<PresetSize>)
        ensures
            r == crate::layout::sizing::default_width(
                self@.frame.layout,
                default_width,
                is_floating,
                str_view(app_id),
                ultrawide,
            ),
    {
        resolve_default_width(&self.layout, default_width, is_floating, app_id, ultrawide)
    }

    /// The height that a window opens with.
    pub fn resolve_default_height(
        &self,
        default_height: Option<Option<PresetSize>>,
        is_floating: bool,
    ) -> (r: Option<PresetSize>)
        ensures
            r == height_by_rule(default_height, is_floating),
    {
        resolve_default_height(default_height, is_floating)
    }

    /// The size that a window opens with, from the one that its layer has for it
    /// and from its bounds.
    pub fn new_window_size(&self, proposed: Size, min_size: Size, max_size: Size) -> (r: Size)
        ensures
            r == opening_size(proposed, min_size, max_size),
    {
        new_window_size(proposed, min_size, max_size)
    }

    /// The size in the first configure of a window: that of the view for a
    /// fullscreen one, that of the working area for a maximized one, and else the
    /// one that it opens with.
    pub fn configure_new_window(
        &self,
        fullscreen: bool,
        maximized: bool,
        proposed: Size,
        min_size: Size,
        max_size: Size,
    ) -> (r: ConfiguredSize)
        ensures
            r == configured_size(
                self@,
                fullscreen,
                maximized,
                opening_size(proposed, min_size, max_size),
            ),
    {
        if fullscreen {
            ConfiguredSize::Rounded(self.view_size)
        } else if maximized {
            ConfiguredSize::Rounded(self.working_area.size)
        } else {
            ConfiguredSize::Exact(self.new_window_size(proposed, min_size, max_size))
        }
    }

    /// The width of a column for a new window, whose rules may turn its border on
    /// or off.
    pub fn resolve_scrolling_width(
        &self,
        window_width: i32,
        width: Option<PresetSize>,
        border: BorderRule,
    ) -> (r: ScrollingWidth)
        ensures
            r == scrolling_width(
                window_width,
                width,
                (self@.frame.layout.border.off || border.off) && !border.on,
            ),
    {
        let mut merged = self.layout.border;
        merged.merge_with(&border);
        resolve_scrolling_width(window_width, width, merged.off)
    }

    pub fn active_window_mut(&mut self) -> (r: Option<&mut Window>)
        requires
            old(self).wf(),
        ensures
            match r {
                Some(window) => {
                    &&& old(self)@.active_window() == Some(*window)
                    &&& final(self)@ == with_active_window(old(self)@, *final(window))
                },
                None => old(self)@.active_window() is None && final(self)@ == old(self)@,
            },
            final(self).part() == old(self).part(),
    {
        if self.floating_is_active.get() {
            return self.floating.active_window_mut();
        }
        match self.scrolling.active_tile_mut() {
            Some(tile) => Some(&mut tile.window),
            None => None,
        }
    }

    /// The active tile among the columns, whichever layer is active.
    pub fn active_scrolling_tile_mut(&mut self) -> (r: Option<&mut Tile>)
        requires
            old(self).wf(),
        ensures
            match r {
                Some(tile) => {
                    &&& old(self)@.row.columns.len() > 0
                    &&& *tile == old(self)@.row.active_tile()
                    &&& final(self)@ == (WorkspaceState {
                        row: with_active_tile(old(self)@.row, *final(tile)),
                        ..old(self)@
                    })
                },
                None => old(self)@.row.columns.len() == 0 && final(self)@ == old(self)@,
            },
            final(self).part() == old(self).part(),
    {
        self.scrolling.active_tile_mut()
    }

    /// The tile at a place, if there is one.
    pub fn tiles_mut(&mut self, place: TilePlace) -> (r: Option<&mut Tile>)
        requires
            old(self).wf(),
        ensures
            match r {
                Some(tile) => {
                    &&& tile_at(old(self)@, place) == Some(*tile)
                    &&& final(self)@ == with_tile_at_place(old(self)@, place, *final(tile))
                },
                None => tile_at(old(self)@, place) is None && final(self)@ == old(self)@,
            },
            final(self).part() == old(self).part(),
    {
        match place {
            TilePlace::Column { column, tile } => self.scrolling.tiles_mut(column, tile),
            TilePlace::Floating(idx) => self.floating.tiles_mut(idx),
        }
    }

    /// The visible window of the tile at a place, if there is one.
    pub fn windows_mut(&mut self, place: TilePlace) -> (r: Option<&mut Window>)
        requires
            old(self).wf(),
        ensures
            match r {
                Some(window) => {
                    let tile = tile_at(old(self)@, place);
                    &&& tile is Some
                    &&& *window == tile->0.window
                    &&& final(self)@ == with_tile_at_place(
                        old(self)@,
                        place,
                        Tile { window: *final(window), ..tile->0 },
                    )
                },
                None => tile_at(old(self)@, place) is None && final(self)@ == old(self)@,
            },
            final(self).part() == old(self).part(),
    {
        match self.tiles_mut(place) {
            Some(tile) => Some(&mut tile.window),
            None => None,
        }
    }

    /// The window that a dialog belongs to.
    fn floating_owner(&self, popup: &Window) -> (r: Option<u64>)
        requires
            self.wf(),
        ensures
            r == owner_of(self@, *popup),
    {
        let windows = self.windows();
        let mut i: usize = 0;
        while i < windows.len()
            invariant
                i <= windows@.len(),
                windows@.len() == self@.tiles().len(),
                forall|j: int|
                    0 <= j < windows@.len() ==> *(#[trigger] windows@[j])
                        == self@.tiles()[j].window,
                parent_from(self@.tiles(), popup.parent, 0) == parent_from(
                    self@.tiles(),
                    popup.parent,
                    i as int,
                ),
            decreases windows@.len() - i,
        {
            assert(*windows@[i as int] == self@.tiles()[i as int].window);
            let is_parent = match popup.parent {
                Some(parent) => parent == windows[i].id,
                None => false,
            };
            if is_parent {
                return Some(windows[i].id);
            }
            i += 1;
        }
        match self.active_window() {
            Some(active) => {
                let same_app = match &popup.app_id {
                    Some(app_id) => is_app(&active.app_id, app_id.as_str()),
                    None => false,
                };
                if active.id != popup.id && same_app {
                    Some(active.id)
                } else {
                    None
                }
            },
            None => None,
        }
    }

    fn enter_output_for_window(&mut self, id: u64)
        requires
            old(self).wf(),
        ensures
            final(self)@ == entered(old(self)@, id),
            final(self).wf(),
            final(self).part() == old(self).part(),
    {
        if self.output.is_some() {
            self.effects.push(Effect::OutputEnter { window: id });
        }
    }

    /// Fits the columns after a change. Where they don't scroll they are fitted
    /// between the panels; else several columns are widened to cover enough of
    /// the view, and a lone one keeps the width that it has.
    fn refit_carousel(&mut self, animate: bool)
        requires
            old(self).wf(),
        ensures
            final(self)@ == refitted(old(self)@, animate),
            final(self).wf(),
            final(self).part() == old(self).part(),
    {
        if self.layout.disable_carousel {
            self.scrolling.request(Request::Fit { animate, keep_resize: false });
        } else {
            self.grow_to_min_carousel_span();
        }
    }

    /// Widens several columns that cover too little of the view.
    fn grow_to_min_carousel_span(&mut self)
        requires
            old(self).wf(),
        ensures
            final(self)@ == (if !old(self)@.frame.layout.disable_carousel && old(
                self,
            )@.row.columns.len() > 1 {
                WorkspaceState {
                    row: with_request(old(self)@.row, Request::GrowToMinSpan),
                    ..old(self)@
                }
            } else {
                old(self)@
            }),
            final(self).wf(),
            final(self).part() == old(self).part(),
    {
        if self.layout.disable_carousel || self.scrolling.column_count() <= 1 {
            return;
        }
        self.scrolling.request(Request::GrowToMinSpan);
    }

    /// Fits the columns after space became free, where they don't scroll.
    fn refit_carousel_grow_to_preferred(&mut self, animate: bool)
        requires
            old(self).wf(),
        ensures
            final(self)@ == fitted(old(self)@, animate),
            final(self).wf(),
            final(self).part() == old(self).part(),
    {
        if self.layout.disable_carousel {
            self.scrolling.request(Request::Fit { animate, keep_resize: false });
        }
    }

    fn recenter(&mut self)
        requires
            old(self).wf(),
        ensures
            final(self)@ == recentered(old(self)@),
            final(self).wf(),
            final(self).part() == old(self).part(),
    {
        self.scrolling.request(Request::AutoFitOrCenter);
    }

    /// Adds a new tile.
    #[verifier::rlimit(40)]
    pub fn add_tile(
        &mut self,
        tile: Tile,
        target: WorkspaceAddWindowTarget,
        activate: ActivateWindow,
        width: ColumnWidth,
        is_full_width: bool,
        is_floating: bool,
    )
        requires
            old(self).wf(),
            match target {
                WorkspaceAddWindowTarget::Auto => true,
                WorkspaceAddWindowTarget::NewColumnAt(idx) => idx <= old(self)@.row.columns.len(),
                WorkspaceAddWindowTarget::NextTo(id) => old(self)@.float.holds(id) || old(
                    self,
                )@.row.holds(id),
            },
        ensures
            final(self)@ == tile_added(
                old(self)@,
                tile,
                target,
                activate,
                width,
                is_full_width,
                is_floating,
            ),
            final(self).wf(),
            final(self).part() == old(self).part(),
    {
        self.enter_output_for_window(tile.window.id);
        let mut tile = tile;
        tile.restore_to_floating = is_floating;
        let floats = is_floating && tile.sizing.is_normal();
        match target {
            WorkspaceAddWindowTarget::Auto => {
                let activate = activate.map_smart(!self.is_active_pending_fullscreen());
                if floats {
                    let owner = self.floating_owner(&tile.window);
                    self.floating.add_tile(tile, activate, FloatPlacement::Owner(owner));
                    if activate {
                        self.scrolling.forget_guest();
                    }
                    if activate || self.scrolling.is_empty() {
                        self.floating_is_active = FloatingActive::Yes;
                    }
                } else {
                    self.scrolling.add_tile(None, tile, activate, width, is_full_width);
                    if activate {
                        self.floating_is_active = FloatingActive::No;
                    }
                    self.refit_carousel(false);
                }
            },
            WorkspaceAddWindowTarget::NewColumnAt(idx) => {
                let activate = activate.map_smart(false);
                self.scrolling.add_tile(Some(idx), tile, activate, width, is_full_width);
                if activate {
                    self.floating_is_active = FloatingActive::No;
                }
            },
            WorkspaceAddWindowTarget::NextTo(next_to) => {
                let next_to_active = match self.active_window() {
                    Some(window) => window.id == next_to,
                    None => false,
                };
                let activate = activate.map_smart(next_to_active);
                let floating_has_window = self.floating.has_window(next_to);
                if floats {
                    if floating_has_window {
                        self.floating.add_tile_above(next_to, tile, activate);
                    } else {
                        self.floating.add_tile(tile, activate, FloatPlacement::Over(next_to));
                    }
                    if activate {
                        self.scrolling.forget_guest();
                    }
                    if activate || self.scrolling.is_empty() {
                        self.floating_is_active = FloatingActive::Yes;
                    }
                } else if floating_has_window {
                    self.scrolling.add_tile(None, tile, activate, width, is_full_width);
                    if activate {
                        self.floating_is_active = FloatingActive::No;
                    }
                } else {
                    self.scrolling.add_tile_right_of(
                        next_to,
                        tile,
                        activate,
                        width,
                        is_full_width,
                    );
                    if activate {
                        self.floating_is_active = FloatingActive::No;
                    }
                }
            },
        }
    }

    /// Adds a tile to a column, at a row or at the bottom.
    pub fn add_tile_to_column(
        &mut self,
        col_idx: usize,
        tile_idx: Option<usize>,
        tile: Tile,
        activate: bool,
    )
        requires
            old(self).wf(),
            col_idx < old(self)@.row.columns.len(),
            tile_idx matches Some(i) ==> i <= old(self)@.row.columns[col_idx as int].tiles.len(),
        ensures
            final(self)@ == tile_joined(old(self)@, col_idx, tile_idx, tile, activate),
            final(self).wf(),
            final(self).part() == old(self).part(),
    {
        self.enter_output_for_window(tile.window.id);
        self.scrolling.add_tile_to_column(col_idx, tile_idx, tile, activate);
        if activate {
            self.floating_is_active = FloatingActive::No;
        }
    }

    /// Moves the focus between the layers after a removal.
    fn update_focus_floating_tiling_after_removing(&mut self, removed_from_floating: bool)
        requires
            old(self)@.row.wf(),
            old(self)@.float.wf(),
            removed_from_floating || (old(self)@.float.tiles.len() == 0 ==> !(old(
                self,
            )@.active is Yes)),
        ensures
            final(self)@ == refocused(old(self)@, removed_from_floating),
            final(self)@.wf(),
            final(self).part() == old(self).part(),
    {
        if removed_from_floating {
            if self.floating.is_empty() {
                self.floating_is_active = FloatingActive::No;
            }
        } else if self.scrolling.is_empty() && !self.floating.is_empty() {
            self.floating_is_active = FloatingActive::Yes;
        }
    }

    /// Removes a window.
    pub fn remove_tile(&mut self, id: u64) -> (r: RemovedTile)
        requires
            old(self).wf(),
            old(self)@.float.holds(id) || old(self)@.row.holds(id),
        ensures
            r == (if old(self)@.float.holds(id) {
                float_removed_window(old(self)@.float, id)
            } else {
                removed_window(old(self)@.row, id)
            }),
            final(self)@ == window_removed(old(self)@, id),
            final(self).wf(),
            final(self).part() == old(self).part(),
    {
        let from_floating = self.floating.has_window(id);
        let removed = if from_floating {
            self.floating.remove_tile(id)
        } else {
            self.scrolling.remove_tile(id)
        };
        if let Some(output) = self.output {
            self.effects.push(Effect::OutputLeave { window: id, output });
        }
        self.update_focus_floating_tiling_after_removing(from_floating);
        self.refit_carousel_grow_to_preferred(true);
        removed
    }

    /// Removes the active tile with all of its windows.
    pub fn remove_active_tile(&mut self) -> (r: Option<RemovedTile>)
        requires
            old(self).wf(),
        ensures
            active_tile_leaves(old(self)@, final(self)@, r),
            final(self).wf(),
            final(self).part() == old(self).part(),
    {
        let from_floating = self.floating_is_active.get();
        let removed = if from_floating {
            self.floating.remove_active_tile()
        } else {
            self.scrolling.remove_active_tile()
        };
        match removed {
            Some(removed) => {
                if let Some(output) = self.output {
                    self.effects.push(
                        Effect::OutputLeave { window: removed.tile.window.id, output },
                    );
                }
                self.update_focus_floating_tiling_after_removing(from_floating);
                self.refit_carousel_grow_to_preferred(true);
                Some(removed)
            },
            None => None,
        }
    }

    /// Moves a window, or the active one, between the columns and the floating
    /// layer.
    pub fn toggle_window_floating(&mut self, id: Option<u64>)
        requires
            old(self).wf(),
            can_toggle_floating(old(self)@, id),
        ensures
            final(self)@ == floating_toggled(old(self)@, id),
            final(self).wf(),
            final(self).part() == old(self).part(),
    {
        let active_id = match self.active_window() {
            Some(window) => Some(window.id),
            None => None,
        };
        let target: u64 = match id {
            Some(id) => id,
            None => match active_id {
                Some(id) => id,
                None => {
                    return;
                },
            },
        };
        let target_is_active = match active_id {
            Some(id) => id == target,
            None => false,
        };
        if self.floating.has_window(target) {
            proof {
                lemma_last_floating_is_active(self@, target);
            }
            let removed = self.floating.remove_tile(target);
            self.scrolling.add_tile(
                None,
                removed.tile,
                target_is_active,
                removed.width,
                removed.is_full_width,
            );
            if target_is_active {
                self.floating_is_active = FloatingActive::No;
            }
        } else {
            let removed = self.scrolling.remove_tile(target);
            let offset = self.layout.center_focused_column
                != crate::config::layout::CenterFocusedColumn::Always;
            self.floating.add_tile(
                removed.tile,
                target_is_active,
                FloatPlacement::NearTile { offset },
            );
            if target_is_active {
                self.floating_is_active = FloatingActive::Yes;
            }
        }
        self.effects.push(Effect::AnimateMove { window: target });
    }

    /// Moves a window, or the active one, to one of the layers.
    pub fn set_window_floating(&mut self, id: Option<u64>, floating: bool)
        requires
            old(self).wf(),
            (layer_of(old(self)@, id) is Floating) != floating ==> can_toggle_floating(
                old(self)@,
                id,
            ),
        ensures
            final(self)@ == layer_set(old(self)@, id, floating),
            final(self).wf(),
            final(self).part() == old(self).part(),
    {
        let floats = match self.layer_for(id) {
            WindowLayer::Floating => true,
            _ => false,
        };
        if floats == floating {
            return;
        }
        self.toggle_window_floating(id);
    }

    /// Moves the focus to the other layer, if both have windows.
    pub fn switch_focus_floating_tiling(&mut self)
        requires
            old(self).wf(),
        ensures
            final(self)@ == layer_switched(old(self)@),
            final(self).wf(),
            final(self).part() == old(self).part(),
    {
        if self.floating.is_empty() || self.scrolling.is_empty() {
            return;
        }
        self.scrolling.forget_guest();
        self.floating_is_active = if self.floating_is_active.get() {
            FloatingActive::No
        } else {
            FloatingActive::Yes
        };
    }

    pub fn focus_floating(&mut self)
        requires
            old(self).wf(),
        ensures
            final(self)@ == floating_focused(old(self)@),
            final(self).wf(),
            final(self).part() == old(self).part(),
    {
        if !self.floating_is_active.get() {
            self.switch_focus_floating_tiling();
        }
    }

    pub fn focus_tiling(&mut self)
        requires
            old(self).wf(),
        ensures
            final(self)@ == tiling_focused(old(self)@),
            final(self).wf(),
            final(self).part() == old(self).part(),
    {
        if self.floating_is_active.get() {
            self.switch_focus_floating_tiling();
        }
    }

    /// Moves the focus to a window and raises it, if it is on this workspace.
    pub fn activate_window(&mut self, window: u64) -> (r: bool)
        requires
            old(self).wf(),
        ensures
            (final(self)@, r) == window_activated(old(self)@, window),
            final(self).wf(),
            final(self).part() == old(self).part(),
    {
        if self.floating.activate_window(window) {
            self.scrolling.forget_guest();
            self.floating_is_active = FloatingActive::Yes;
            proof {
                lemma_activated_is_not_empty(old(self)@, window);
            }
            true
        } else if self.scrolling.activate_window(window) {
            self.floating_is_active = FloatingActive::No;
            true
        } else {
            false
        }
    }

    /// Moves the focus to a window without raising it, if it is on this
    /// workspace.
    pub fn activate_window_without_raising(&mut self, window: u64) -> (r: bool)
        requires
            old(self).wf(),
        ensures
            (final(self)@, r) == window_focused(old(self)@, window),
            final(self).wf(),
            final(self).part() == old(self).part(),
    {
        if self.floating.activate_window_without_raising(window) {
            self.scrolling.forget_guest();
            self.floating_is_active = FloatingActive::Yes;
            true
        } else if self.scrolling.activate_window(window) {
            self.floating_is_active = match self.floating_is_active {
                FloatingActive::No => FloatingActive::No,
                FloatingActive::NoButRaised => FloatingActive::NoButRaised,
                FloatingActive::Yes => FloatingActive::NoButRaised,
            };
            true
        } else {
            false
        }
    }

    /// The sizing mode of the column that a window is in.
    fn column_mode(&self, id: u64) -> (r: SizingMode)
        requires
            self@.row.holds(id),
        ensures
            r == self@.column_with(id).mode(),
    {
        proof {
            crate::layout::row::column_of_finds_the_first(self@.row, id);
        }
        match self.scrolling.column_with_window(id) {
            Some(c) => self.scrolling.columns()[c].pending_sizing_mode(),
            None => SizingMode::Normal,
        }
    }

    /// Makes a window of the columns fullscreen or not, and remembers on its tile
    /// whether it is to float again where that is a change from the normal mode.
    fn set_fullscreen_in_columns(&mut self, window: u64, on: bool, restore_to_floating: bool)
        requires
            old(self).wf(),
            old(self)@.row.holds(window),
        ensures
            final(self)@ == remembered(
                old(self)@,
                (WorkspaceState {
                    row: set_fullscreen(old(self)@.row, window, on),
                    ..old(self)@
                }),
                window,
                restore_to_floating,
            ),
            final(self).wf(),
            final(self).part() == old(self).part(),
    {
        let ghost tiled = self@;
        proof {
            crate::layout::row::column_of_finds_the_first(self@.row, window);
        }
        let was_normal = self.column_mode(window).is_normal();
        self.scrolling.set_fullscreen(window, on);
        proof {
            set_fullscreen_keeps_windows(tiled.row, window, on);
            assert(tiled.row.holds(window) == self@.row.holds(window));
        }
        let is_normal = self.column_mode(window).is_normal();
        if was_normal && !is_normal {
            proof {
                lemma_with_tile_of_wf(self@.row, window);
            }
            self.scrolling.tile_of_window_mut(window).restore_to_floating = restore_to_floating;
        }
    }

    /// Makes a window fullscreen or not. A floating window moves to the columns
    /// for that, and goes back when it leaves fullscreen mode.
    pub fn set_fullscreen(&mut self, window: u64, on: bool)
        requires
            old(self).wf(),
            on || !old(self)@.float.holds(window) ==> old(self)@.shows(window),
        ensures
            final(self)@ == fullscreen_set(old(self)@, window, on),
            final(self).wf(),
            final(self).part() == old(self).part(),
    {
        let mut restore_to_floating = false;
        if self.floating.has_window(window) {
            if !on {
                return;
            }
            restore_to_floating = true;
            self.toggle_window_floating(Some(window));
            proof {
                lemma_toggled_is_tiled(old(self)@, window);
            }
        } else if !on {
            let c: usize = match self.scrolling.column_with_window(window) {
                Some(c) => c,
                None => {
                    assert(false);
                    0
                },
            };
            proof {
                crate::layout::row::column_of_finds_the_first(self@.row, window);
            }
            let column = &self.scrolling.columns()[c];
            let goes_back = column.is_pending_fullscreen && !column.is_pending_maximized
                && self.scrolling.tile_of_window(window).restore_to_floating;
            if goes_back {
                self.toggle_window_floating(Some(window));
                return;
            }
        }
        self.set_fullscreen_in_columns(window, on, restore_to_floating);
    }

    /// Makes a window of the columns maximized or not, and remembers on its tile
    /// whether it is to float again where that is a change from the normal mode.
    fn set_maximized_in_columns(&mut self, window: u64, on: bool, restore_to_floating: bool)
        requires
            old(self).wf(),
            old(self)@.row.holds(window),
        ensures
            final(self)@ == remembered(
                old(self)@,
                (WorkspaceState {
                    row: set_maximized(old(self)@.row, window, on),
                    ..old(self)@
                }),
                window,
                restore_to_floating,
            ),
            final(self).wf(),
            final(self).part() == old(self).part(),
    {
        let ghost tiled = self@;
        proof {
            crate::layout::row::column_of_finds_the_first(self@.row, window);
        }
        let was_normal = self.column_mode(window).is_normal();
        self.scrolling.set_maximized(window, on);
        proof {
            set_maximized_keeps_windows(tiled.row, window, on);
            assert(tiled.row.holds(window) == self@.row.holds(window));
        }
        let is_normal = self.column_mode(window).is_normal();
        if was_normal && !is_normal {
            proof {
                lemma_with_tile_of_wf(self@.row, window);
            }
            self.scrolling.tile_of_window_mut(window).restore_to_floating = restore_to_floating;
        }
    }

    /// Makes a window maximized or not. A floating window moves to the columns
    /// for that, and goes back when it leaves maximized mode.
    pub fn set_maximized(&mut self, window: u64, on: bool)
        requires
            old(self).wf(),
            on || !old(self)@.float.holds(window) ==> old(self)@.shows(window),
        ensures
            final(self)@ == maximized_set(old(self)@, window, on),
            final(self).wf(),
            final(self).part() == old(self).part(),
    {
        let mut restore_to_floating = false;
        if self.floating.has_window(window) {
            if !on {
                return;
            }
            restore_to_floating = true;
            self.toggle_window_floating(Some(window));
            proof {
                lemma_toggled_is_tiled(old(self)@, window);
            }
        } else if !on {
            let c: usize = match self.scrolling.column_with_window(window) {
                Some(c) => c,
                None => {
                    assert(false);
                    0
                },
            };
            proof {
                crate::layout::row::column_of_finds_the_first(self@.row, window);
            }
            let column = &self.scrolling.columns()[c];
            let goes_back = column.pending_sizing_mode().is_maximized()
                && self.scrolling.tile_of_window(window).restore_to_floating;
            if goes_back {
                self.toggle_window_floating(Some(window));
                return;
            }
        }
        self.set_maximized_in_columns(window, on, restore_to_floating);
    }

    pub fn toggle_fullscreen(&mut self, window: u64)
        requires
            old(self).wf(),
            old(self)@.shows(window),
        ensures
            final(self)@ == fullscreen_toggled(old(self)@, window),
            final(self).wf(),
            final(self).part() == old(self).part(),
    {
        let current = if self.floating.has_window(window) {
            false
        } else {
            self.column_mode(window).is_fullscreen()
        };
        self.set_fullscreen(window, !current);
    }

    pub fn toggle_maximized(&mut self, window: u64)
        requires
            old(self).wf(),
            old(self)@.shows(window),
        ensures
            final(self)@ == maximized_toggled(old(self)@, window),
            final(self).wf(),
            final(self).part() == old(self).part(),
    {
        proof {
            crate::layout::row::column_of_finds_the_first(self@.row, window);
        }
        let current = match self.scrolling.column_with_window(window) {
            Some(c) => self.scrolling.columns()[c].is_pending_maximized,
            None => false,
        };
        self.set_maximized(window, !current);
    }
}

/// Moves the active floating window a step.
pub open spec fn float_stepped(s: WorkspaceState, direction: FocusDir) -> WorkspaceState {
    match s.float.active {
        Some(window) => WorkspaceState {
            float: float_with_request(s.float, FloatRequest::Step { window, direction }),
            ..s
        },
        None => s,
    }
}

/// The windows of a column that comes are told that they are on the output.
pub open spec fn each_entered(s: WorkspaceState, tiles: Seq<Tile>) -> WorkspaceState {
    if s.frame.output is Some {
        WorkspaceState {
            effects: s.effects + each_visible(
                tiles,
                |id: u64| Effect::OutputEnter { window: id },
            ),
            ..s
        }
    } else {
        s
    }
}

/// The windows of a column that goes are told that they left the output.
pub open spec fn each_left(s: WorkspaceState, tiles: Seq<Tile>) -> WorkspaceState {
    match s.frame.output {
        Some(output) => WorkspaceState {
            effects: s.effects + each_visible(
                tiles,
                |id: u64| Effect::OutputLeave { window: id, output },
            ),
            ..s
        },
        None => s,
    }
}

/// Centers a floating window, or the active one.
pub open spec fn float_centered(s: WorkspaceState, id: Option<u64>) -> WorkspaceState {
    match float_target(s.float, id) {
        Some(window) => WorkspaceState {
            float: float_with_request(s.float, FloatRequest::Center { window }),
            ..s
        },
        None => s,
    }
}

/// Centers the view on a window's column, or on the active one.
pub open spec fn row_centered(s: WorkspaceState, id: Option<u64>) -> WorkspaceState {
    if has_target(s.row, id) {
        WorkspaceState {
            row: scrolled(
                with_request(s.row, Request::Center { window: target_window(s.row, id) }),
            ),
            ..s
        }
    } else {
        s
    }
}

/// Asks for another height of a window among the columns, or of the active one.
pub open spec fn row_height_requested(
    s: WorkspaceState,
    window: Option<u64>,
    request: SizeRequest,
) -> WorkspaceState {
    WorkspaceState { row: request_height(s.row, window, request), ..s }
}

/// Makes the active column span the whole width, or not.
pub open spec fn full_width_toggled(s: WorkspaceState) -> WorkspaceState {
    if s.row.columns.len() == 0 {
        s
    } else {
        WorkspaceState {
            row: with_column(
                s.row,
                s.row.active,
                ColumnState {
                    full_width: !s.row.active_column().full_width,
                    ..s.row.active_column()
                },
            ),
            ..s
        }
    }
}

/// Whether a change sets a position whatever it was before.
pub open spec fn is_absolute(change: PositionChange) -> bool {
    change is SetFixed || change is SetProportion
}

fn sets_position(change: PositionChange) -> (r: bool)
    ensures
        r == is_absolute(change),
{
    matches!(change, PositionChange::SetFixed(_) | PositionChange::SetProportion(_))
}

/// Moves a floating window, or remembers where one among the columns goes when
/// it floats.
pub open spec fn position_moved(
    s: WorkspaceState,
    id: Option<u64>,
    x: PositionChange,
    y: PositionChange,
    animate: bool,
    has_stored: bool,
) -> WorkspaceState {
    if layer_of(s, id) is Floating {
        match float_target(s.float, id) {
            Some(window) => WorkspaceState {
                float: float_with_request(s.float, FloatRequest::Move { window, x, y, animate }),
                ..s
            },
            None => s,
        }
    } else {
        let target = match id {
            Some(id) => if shows(all_tiles(s.row.columns), id) {
                Some(id)
            } else {
                None
            },
            None => if s.row.columns.len() > 0 {
                Some(s.row.active_tile().window.id)
            } else {
                None
            },
        };
        match target {
            Some(window) => if has_stored || is_absolute(x) && is_absolute(y) {
                with_effect(s, Effect::StorePosition { window, x, y })
            } else {
                s
            },
            None => s,
        }
    }
}

impl Workspace {
    /// The best of the windows in the other layer.
    fn best_candidate(&self, candidates: &Vec<FocusCandidate>) -> (r: Option<usize>)
        ensures
            match r {
                Some(i) => is_best(self@, candidates@, i as int),
                None => forall|i: int|
                    0 <= i < candidates@.len() ==> !is_eligible(self@, #[trigger] candidates@[i]),
            },
    {
        let from_floating = self.floating_is_active.get();
        let mut best: Option<(usize, i64)> = None;
        let mut i: usize = 0;
        while i < candidates.len()
            invariant
                from_floating == (self@.active is Yes),
                i <= candidates@.len(),
                match best {
                    Some((b, score)) => {
                        &&& b < i
                        &&& is_eligible(self@, candidates@[b as int])
                        &&& candidates@[b as int].score == Some(score)
                        &&& forall|j: int|
                            0 <= j < i && is_eligible(self@, #[trigger] candidates@[j]) ==> {
                                if j < b {
                                    candidates@[j].score->0 > score
                                } else {
                                    candidates@[j].score->0 >= score
                                }
                            }
                    },
                    None => forall|j: int|
                        0 <= j < i ==> !is_eligible(self@, #[trigger] candidates@[j]),
                },
            decreases candidates@.len() - i,
        {
            let candidate = candidates[i];
            if let Some(score) = candidate.score {
                let score: i64 = score;
                if self.floating.has_window(candidate.window) != from_floating {
                    let better = match best {
                        Some((_, other)) => score < other,
                        None => true,
                    };
                    if better {
                        best = Some((i, score));
                    }
                }
            }
            i += 1;
        }
        match best {
            Some((b, _)) => Some(b),
            None => None,
        }
    }

    /// Moves the focus to the best window in the other layer.
    pub fn focus_in_direction_cross_layer(&mut self, hint: &FocusHint) -> (r: bool)
        requires
            old(self).wf(),
        ensures
            crosses_layers(old(self)@, *hint, final(self)@, r),
            final(self).wf(),
            final(self).part() == old(self).part(),
    {
        if self.active_window().is_none() || !hint.active_shown {
            return false;
        }
        match self.best_candidate(&hint.candidates) {
            Some(i) => {
                assert(is_best(self@, hint.candidates@, i as int));
                self.activate_window(hint.candidates[i].window);
                true
            },
            None => false,
        }
    }

    /// Moves the focus to a floating window, if there is one.
    fn focus_floating_pick(&mut self, pick: Option<u64>) -> (r: bool)
        requires
            old(self).wf(),
        ensures
            (final(self)@, r) == float_picked(old(self)@, pick),
            final(self).wf(),
            final(self).part() == old(self).part(),
    {
        match pick {
            Some(id) => {
                let moved = self.floating.activate_window(id);
                proof {
                    if moved {
                        lemma_activated_is_not_empty(old(self)@, id);
                    }
                }
                moved
            },
            None => false,
        }
    }

    /// Moves the focus left inside of the active layer. `pick` is the floating
    /// window that is next there.
    pub fn focus_left_in_layer(&mut self, pick: Option<u64>) -> (r: bool)
        requires
            old(self).wf(),
        ensures
            (final(self)@, r) == focused_left(old(self)@, pick),
            final(self).wf(),
            final(self).part() == old(self).part(),
    {
        if self.floating_is_active.get() {
            self.focus_floating_pick(pick)
        } else {
            self.scrolling.focus_left()
        }
    }

    /// Moves the focus left, inside of the active layer or else to the other one.
    pub fn focus_left(&mut self, hint: &FocusHint) -> (r: bool)
        requires
            old(self).wf(),
        ensures
            focuses_left(old(self)@, *hint, final(self)@, r),
            final(self).wf(),
            final(self).part() == old(self).part(),
    {
        if self.focus_left_in_layer(hint.in_layer) {
            return true;
        }
        self.focus_in_direction_cross_layer(hint)
    }

    /// Moves the focus right inside of the active layer. `pick` is the floating
    /// window that is next there.
    pub fn focus_right_in_layer(&mut self, pick: Option<u64>) -> (r: bool)
        requires
            old(self).wf(),
        ensures
            (final(self)@, r) == focused_right(old(self)@, pick),
            final(self).wf(),
            final(self).part() == old(self).part(),
    {
        if self.floating_is_active.get() {
            self.focus_floating_pick(pick)
        } else {
            self.scrolling.focus_right()
        }
    }

    /// Moves the focus right, inside of the active layer or else to the other one.
    pub fn focus_right(&mut self, hint: &FocusHint) -> (r: bool)
        requires
            old(self).wf(),
        ensures
            focuses_right(old(self)@, *hint, final(self)@, r),
            final(self).wf(),
            final(self).part() == old(self).part(),
    {
        if self.focus_right_in_layer(hint.in_layer) {
            return true;
        }
        self.focus_in_direction_cross_layer(hint)
    }

    /// Moves the focus up inside of the active layer. `pick` is the floating
    /// window that is next there.
    pub fn focus_up_in_layer(&mut self, pick: Option<u64>) -> (r: bool)
        requires
            old(self).wf(),
        ensures
            (final(self)@, r) == focused_up(old(self)@, pick),
            final(self).wf(),
            final(self).part() == old(self).part(),
    {
        if self.floating_is_active.get() {
            self.focus_floating_pick(pick)
        } else {
            self.scrolling.focus_up()
        }
    }

    /// Moves the focus up, inside of the active layer or else to the other one.
    pub fn focus_up(&mut self, hint: &FocusHint) -> (r: bool)
        requires
            old(self).wf(),
        ensures
            focuses_up(old(self)@, *hint, final(self)@, r),
            final(self).wf(),
            final(self).part() == old(self).part(),
    {
        if self.focus_up_in_layer(hint.in_layer) {
            return true;
        }
        self.focus_in_direction_cross_layer(hint)
    }

    /// Moves the focus down inside of the active layer. `pick` is the floating
    /// window that is next there.
    pub fn focus_down_in_layer(&mut self, pick: Option<u64>) -> (r: bool)
        requires
            old(self).wf(),
        ensures
            (final(self)@, r) == focused_down(old(self)@, pick),
            final(self).wf(),
            final(self).part() == old(self).part(),
    {
        if self.floating_is_active.get() {
            self.focus_floating_pick(pick)
        } else {
            self.scrolling.focus_down()
        }
    }

    /// Moves the focus down, inside of the active layer or else to the other one.
    pub fn focus_down(&mut self, hint: &FocusHint) -> (r: bool)
        requires
            old(self).wf(),
        ensures
            focuses_down(old(self)@, *hint, final(self)@, r),
            final(self).wf(),
            final(self).part() == old(self).part(),
    {
        if self.focus_down_in_layer(hint.in_layer) {
            return true;
        }
        self.focus_in_direction_cross_layer(hint)
    }

    /// Moves the focus left to the other layer.
    pub fn focus_cross_layer_left(&mut self, hint: &FocusHint) -> (r: bool)
        requires
            old(self).wf(),
        ensures
            crosses_layers(old(self)@, *hint, final(self)@, r),
            final(self).wf(),
            final(self).part() == old(self).part(),
    {
        self.focus_in_direction_cross_layer(hint)
    }

    /// Moves the focus right to the other layer.
    pub fn focus_cross_layer_right(&mut self, hint: &FocusHint) -> (r: bool)
        requires
            old(self).wf(),
        ensures
            crosses_layers(old(self)@, *hint, final(self)@, r),
            final(self).wf(),
            final(self).part() == old(self).part(),
    {
        self.focus_in_direction_cross_layer(hint)
    }

    /// Moves the focus to the first column, or to the leftmost floating window.
    pub fn focus_column_first(&mut self, pick: Option<u64>)
        requires
            old(self).wf(),
        ensures
            final(self)@ == first_column_focused(old(self)@, pick),
            final(self).wf(),
            final(self).part() == old(self).part(),
    {
        if self.floating_is_active.get() {
            self.focus_floating_pick(pick);
        } else {
            self.scrolling.focus_column_first();
        }
    }

    /// Moves the focus to the last column, or to the rightmost floating window.
    pub fn focus_column_last(&mut self, pick: Option<u64>)
        requires
            old(self).wf(),
        ensures
            final(self)@ == last_column_focused(old(self)@, pick),
            final(self).wf(),
            final(self).part() == old(self).part(),
    {
        if self.floating_is_active.get() {
            self.focus_floating_pick(pick);
        } else {
            self.scrolling.focus_column_last();
        }
    }

    /// Moves the focus to the top row, or to the topmost floating window.
    pub fn focus_window_top(&mut self, pick: Option<u64>)
        requires
            old(self).wf(),
        ensures
            final(self)@ == top_window_focused(old(self)@, pick),
            final(self).wf(),
            final(self).part() == old(self).part(),
    {
        if self.floating_is_active.get() {
            self.focus_floating_pick(pick);
        } else {
            self.scrolling.focus_top();
        }
    }

    /// Moves the focus to the bottom row, or to the bottommost floating window.
    pub fn focus_window_bottom(&mut self, pick: Option<u64>)
        requires
            old(self).wf(),
        ensures
            final(self)@ == bottom_window_focused(old(self)@, pick),
            final(self).wf(),
            final(self).part() == old(self).part(),
    {
        if self.floating_is_active.get() {
            self.focus_floating_pick(pick);
        } else {
            self.scrolling.focus_bottom();
        }
    }

    pub fn focus_down_or_left(&mut self, pick: Option<u64>)
        requires
            old(self).wf(),
        ensures
            final(self)@ == focused_down_or_left(old(self)@, pick),
            final(self).wf(),
            final(self).part() == old(self).part(),
    {
        if self.floating_is_active.get() {
            self.focus_floating_pick(pick);
        } else {
            self.scrolling.focus_down_or_left();
        }
    }

    pub fn focus_down_or_right(&mut self, pick: Option<u64>)
        requires
            old(self).wf(),
        ensures
            final(self)@ == focused_down_or_right(old(self)@, pick),
            final(self).wf(),
            final(self).part() == old(self).part(),
    {
        if self.floating_is_active.get() {
            self.focus_floating_pick(pick);
        } else {
            self.scrolling.focus_down_or_right();
        }
    }

    pub fn focus_up_or_left(&mut self, pick: Option<u64>)
        requires
            old(self).wf(),
        ensures
            final(self)@ == focused_up_or_left(old(self)@, pick),
            final(self).wf(),
            final(self).part() == old(self).part(),
    {
        if self.floating_is_active.get() {
            self.focus_floating_pick(pick);
        } else {
            self.scrolling.focus_up_or_left();
        }
    }

    pub fn focus_up_or_right(&mut self, pick: Option<u64>)
        requires
            old(self).wf(),
        ensures
            final(self)@ == focused_up_or_right(old(self)@, pick),
            final(self).wf(),
            final(self).part() == old(self).part(),
    {
        if self.floating_is_active.get() {
            self.focus_floating_pick(pick);
        } else {
            self.scrolling.focus_up_or_right();
        }
    }

    /// Moves the focus right, or around to the first column. `around` is
    /// the floating window at that end.
    pub fn focus_column_right_or_first(&mut self, hint: &FocusHint, around: Option<u64>)
        requires
            old(self).wf(),
        ensures
            focuses_right_or_first(old(self)@, *hint, around, final(self)@),
            final(self).wf(),
            final(self).part() == old(self).part(),
    {
        let moved = self.focus_right(hint);
        let ghost mid = self@;
        if !moved {
            self.focus_column_first(around);
        }
        assert(focus_moves(old(self)@, FocusDir::Right, *hint, mid, moved));
    }

    /// Moves the focus left, or around to the last column. `around` is
    /// the floating window at that end.
    pub fn focus_column_left_or_last(&mut self, hint: &FocusHint, around: Option<u64>)
        requires
            old(self).wf(),
        ensures
            focuses_left_or_last(old(self)@, *hint, around, final(self)@),
            final(self).wf(),
            final(self).part() == old(self).part(),
    {
        let moved = self.focus_left(hint);
        let ghost mid = self@;
        if !moved {
            self.focus_column_last(around);
        }
        assert(focus_moves(old(self)@, FocusDir::Left, *hint, mid, moved));
    }

    /// Moves the focus down, or around to the top. `around` is
    /// the floating window at that end.
    pub fn focus_window_down_or_top(&mut self, hint: &FocusHint, around: Option<u64>)
        requires
            old(self).wf(),
        ensures
            focuses_down_or_top(old(self)@, *hint, around, final(self)@),
            final(self).wf(),
            final(self).part() == old(self).part(),
    {
        let moved = self.focus_down(hint);
        let ghost mid = self@;
        if !moved {
            self.focus_window_top(around);
        }
        assert(focus_moves(old(self)@, FocusDir::Down, *hint, mid, moved));
    }

    /// Moves the focus up, or around to the bottom. `around` is
    /// the floating window at that end.
    pub fn focus_window_up_or_bottom(&mut self, hint: &FocusHint, around: Option<u64>)
        requires
            old(self).wf(),
        ensures
            focuses_up_or_bottom(old(self)@, *hint, around, final(self)@),
            final(self).wf(),
            final(self).part() == old(self).part(),
    {
        let moved = self.focus_up(hint);
        let ghost mid = self@;
        if !moved {
            self.focus_window_bottom(around);
        }
        assert(focus_moves(old(self)@, FocusDir::Up, *hint, mid, moved));
    }

    /// Moves the focus to the column with this one-based index.
    pub fn focus_column(&mut self, index: usize)
        requires
            old(self).wf(),
        ensures
            final(self)@ == numbered_column_focused(old(self)@, index),
            final(self).wf(),
            final(self).part() == old(self).part(),
    {
        self.focus_tiling();
        self.scrolling.focus_column(index);
    }

    pub fn carousel_focus_column_first(&mut self)
        requires
            old(self).wf(),
        ensures
            final(self)@ == first_of_the_row_focused(old(self)@),
            final(self).wf(),
            final(self).part() == old(self).part(),
    {
        self.scrolling.focus_column_first();
    }

    pub fn carousel_focus_column_last(&mut self)
        requires
            old(self).wf(),
        ensures
            final(self)@ == last_of_the_row_focused(old(self)@),
            final(self).wf(),
            final(self).part() == old(self).part(),
    {
        self.scrolling.focus_column_last();
    }

    /// Moves the focus to the row with this one-based index.
    pub fn focus_window_in_column(&mut self, index: u8)
        requires
            old(self).wf(),
        ensures
            final(self)@ == numbered_row_focused(old(self)@, index),
            final(self).wf(),
            final(self).part() == old(self).part(),
    {
        if self.floating_is_active.get() {
            return;
        }
        self.scrolling.focus_window_in_column(index);
    }

    /// Moves the active column, or the active floating window, left.
    pub fn move_left(&mut self) -> (r: bool)
        requires
            old(self).wf(),
        ensures
            (final(self)@, r) == pushed_left(old(self)@),
            final(self).wf(),
            final(self).part() == old(self).part(),
    {
        if self.floating_is_active.get() {
            self.step_floating(FocusDir::Left);
            true
        } else {
            self.scrolling.move_left()
        }
    }

    /// Moves the active column, or the active floating window, right.
    pub fn move_right(&mut self) -> (r: bool)
        requires
            old(self).wf(),
        ensures
            (final(self)@, r) == pushed_right(old(self)@),
            final(self).wf(),
            final(self).part() == old(self).part(),
    {
        if self.floating_is_active.get() {
            self.step_floating(FocusDir::Right);
            true
        } else {
            self.scrolling.move_right()
        }
    }

    /// Moves the active tile, or the active floating window, down.
    pub fn move_down(&mut self) -> (r: bool)
        requires
            old(self).wf(),
        ensures
            (final(self)@, r) == pushed_down(old(self)@),
            final(self).wf(),
            final(self).part() == old(self).part(),
    {
        if self.floating_is_active.get() {
            self.step_floating(FocusDir::Down);
            true
        } else {
            self.scrolling.move_down()
        }
    }

    /// Moves the active tile, or the active floating window, up.
    pub fn move_up(&mut self) -> (r: bool)
        requires
            old(self).wf(),
        ensures
            (final(self)@, r) == pushed_up(old(self)@),
            final(self).wf(),
            final(self).part() == old(self).part(),
    {
        if self.floating_is_active.get() {
            self.step_floating(FocusDir::Up);
            true
        } else {
            self.scrolling.move_up()
        }
    }

    fn step_floating(&mut self, direction: FocusDir)
        requires
            old(self).wf(),
        ensures
            final(self)@ == float_stepped(old(self)@, direction),
            final(self).wf(),
            final(self).part() == old(self).part(),
    {
        if let Some(window) = self.floating.active_window_id() {
            self.floating.request(FloatRequest::Step { window, direction });
        }
    }

    pub fn move_column_to_first(&mut self)
        requires
            old(self).wf(),
        ensures
            final(self)@ == column_put_first(old(self)@),
            final(self).wf(),
            final(self).part() == old(self).part(),
    {
        if self.floating_is_active.get() {
            return;
        }
        self.scrolling.move_column_to_first();
    }

    pub fn move_column_to_last(&mut self)
        requires
            old(self).wf(),
        ensures
            final(self)@ == column_put_last(old(self)@),
            final(self).wf(),
            final(self).part() == old(self).part(),
    {
        if self.floating_is_active.get() {
            return;
        }
        self.scrolling.move_column_to_last();
    }

    /// Moves the active column to a one-based index.
    pub fn move_column_to_index(&mut self, index: usize)
        requires
            old(self).wf(),
        ensures
            final(self)@ == column_put_at(old(self)@, index),
            final(self).wf(),
            final(self).part() == old(self).part(),
    {
        if self.floating_is_active.get() {
            return;
        }
        self.scrolling.move_column_to_index(index);
    }

    /// Puts the columns of one window each, whose window is in the list, into the
    /// order of the list. Columns that aren't listed stay where they are. Returns
    /// whether anything moved.
    pub fn reorder_single_window_columns(&mut self, ordered_ids: &[u64]) -> (r: bool)
        requires
            old(self).wf(),
        ensures
            r == !in_order(old(self)@.row.columns, ordered_ids@),
            reordered(old(self)@.row, final(self)@.row, ordered_ids@),
            final(self)@ == (WorkspaceState { row: final(self)@.row, ..old(self)@ }),
            !r ==> final(self)@ == old(self)@,
            final(self).wf(),
            final(self).part() == old(self).part(),
    {
        self.scrolling.reorder_single_window_columns(ordered_ids)
    }

    pub fn move_active_window_to_new_column_left(&mut self) -> (r: bool)
        requires
            old(self).wf(),
        ensures
            (final(self)@, r) == split_to_the_left(old(self)@),
            final(self).wf(),
            final(self).part() == old(self).part(),
    {
        if self.floating_is_active.get() {
            return false;
        }
        self.scrolling.move_active_window_to_new_column_left()
    }

    pub fn move_active_window_to_left_neighbor_overlap(&mut self) -> (r: bool)
        requires
            old(self).wf(),
        ensures
            (final(self)@, r) == put_onto_the_left(old(self)@),
            final(self).wf(),
            final(self).part() == old(self).part(),
    {
        if self.floating_is_active.get() {
            return false;
        }
        self.scrolling.move_active_window_to_left_neighbor_overlap()
    }

    pub fn move_active_window_to_new_column_right(&mut self) -> (r: bool)
        requires
            old(self).wf(),
        ensures
            (final(self)@, r) == split_to_the_right(old(self)@),
            final(self).wf(),
            final(self).part() == old(self).part(),
    {
        if self.floating_is_active.get() {
            return false;
        }
        self.scrolling.move_active_window_to_new_column_right()
    }

    pub fn move_active_window_to_right_neighbor_overlap(&mut self) -> (r: bool)
        requires
            old(self).wf(),
        ensures
            (final(self)@, r) == put_onto_the_right(old(self)@),
            final(self).wf(),
            final(self).part() == old(self).part(),
    {
        if self.floating_is_active.get() {
            return false;
        }
        self.scrolling.move_active_window_to_right_neighbor_overlap()
    }

    pub fn move_active_window_to_new_row_above(&mut self) -> (r: bool)
        requires
            old(self).wf(),
        ensures
            (final(self)@, r) == split_upwards(old(self)@),
            final(self).wf(),
            final(self).part() == old(self).part(),
    {
        if self.floating_is_active.get() {
            return false;
        }
        self.scrolling.move_active_window_to_new_row_above()
    }

    pub fn move_active_window_to_above_neighbor_overlap(&mut self) -> (r: bool)
        requires
            old(self).wf(),
        ensures
            (final(self)@, r) == put_onto_the_one_above(old(self)@),
            final(self).wf(),
            final(self).part() == old(self).part(),
    {
        if self.floating_is_active.get() {
            return false;
        }
        self.scrolling.move_active_window_to_above_neighbor_overlap()
    }

    pub fn move_active_window_to_new_row_below(&mut self) -> (r: bool)
        requires
            old(self).wf(),
        ensures
            (final(self)@, r) == split_downwards(old(self)@),
            final(self).wf(),
            final(self).part() == old(self).part(),
    {
        if self.floating_is_active.get() {
            return false;
        }
        self.scrolling.move_active_window_to_new_row_below()
    }

    pub fn move_active_window_to_below_neighbor_overlap(&mut self) -> (r: bool)
        requires
            old(self).wf(),
        ensures
            (final(self)@, r) == put_onto_the_one_below(old(self)@),
            final(self).wf(),
            final(self).part() == old(self).part(),
    {
        if self.floating_is_active.get() {
            return false;
        }
        self.scrolling.move_active_window_to_below_neighbor_overlap()
    }

    pub fn move_active_window_to_neighbor_column_as_new_row(&mut self, to_left: bool) -> (r: bool)
        requires
            old(self).wf(),
        ensures
            (final(self)@, r) == put_into_neighbor(old(self)@, to_left),
            final(self).wf(),
            final(self).part() == old(self).part(),
    {
        if self.floating_is_active.get() {
            return false;
        }
        self.scrolling.move_active_window_to_neighbor_column_as_new_row(to_left)
    }

    /// Moves the active window to a column of its own on one side, where there is
    /// a column on that side already. Nothing happens at the edge.
    pub fn move_active_window_to_new_neighbor_column(&mut self, to_left: bool) -> (r: bool)
        requires
            old(self).wf(),
        ensures
            (final(self)@, r) == split_to_neighbor(old(self)@, to_left),
            final(self).wf(),
            final(self).part() == old(self).part(),
    {
        if self.floating_is_active.get() {
            return false;
        }
        let count: usize = self.scrolling.column_count();
        if count == 0 {
            return false;
        }
        let idx: usize = self.scrolling.active_column_index();
        let has_neighbor = if to_left { idx > 0 } else { idx + 1 < count };
        if !has_neighbor {
            return false;
        }
        if to_left {
            self.scrolling.move_active_window_to_new_column_left()
        } else {
            self.scrolling.move_active_window_to_new_column_right()
        }
    }

    /// Consumes or expels a window to the left. A floating one has no column to do
    /// so with.
    pub fn consume_or_expel_window_left(&mut self, window: Option<u64>)
        requires
            old(self).wf(),
            can_find(old(self)@, window),
        ensures
            final(self)@ == regrouped_to_the_left(old(self)@, window),
            final(self).wf(),
            final(self).part() == old(self).part(),
    {
        if self.floating_is_active.get() {
            return;
        }
        match self.layer_for(window) {
            WindowLayer::Floating => {},
            _ => {
                self.scrolling.consume_or_expel_window_left(window);
            },
        }
    }

    /// Consumes or expels a window to the right. A floating one has no column to do
    /// so with.
    pub fn consume_or_expel_window_right(&mut self, window: Option<u64>)
        requires
            old(self).wf(),
            can_find(old(self)@, window),
        ensures
            final(self)@ == regrouped_to_the_right(old(self)@, window),
            final(self).wf(),
            final(self).part() == old(self).part(),
    {
        if self.floating_is_active.get() {
            return;
        }
        match self.layer_for(window) {
            WindowLayer::Floating => {},
            _ => {
                self.scrolling.consume_or_expel_window_right(window);
            },
        }
    }

    pub fn consume_into_column(&mut self)
        requires
            old(self).wf(),
        ensures
            final(self)@ == consumed_from_the_right(old(self)@),
            final(self).wf(),
            final(self).part() == old(self).part(),
    {
        if self.floating_is_active.get() {
            return;
        }
        self.scrolling.consume_into_column();
    }

    pub fn expel_from_column(&mut self)
        requires
            old(self).wf(),
        ensures
            final(self)@ == expelled_to_the_right(old(self)@),
            final(self).wf(),
            final(self).part() == old(self).part(),
    {
        if self.floating_is_active.get() {
            return;
        }
        self.scrolling.expel_from_column();
    }

    pub fn swap_window_in_direction(&mut self, direction: ScrollDirection)
        requires
            old(self).wf(),
        ensures
            final(self)@ == swapped_with(old(self)@, direction),
            final(self).wf(),
            final(self).part() == old(self).part(),
    {
        if self.floating_is_active.get() {
            return;
        }
        self.scrolling.swap_window_in_direction(direction);
    }

    pub fn toggle_column_tabbed_display(&mut self)
        requires
            old(self).wf(),
        ensures
            final(self)@ == tabs_toggled(old(self)@),
            final(self).wf(),
            final(self).part() == old(self).part(),
    {
        if self.floating_is_active.get() {
            return;
        }
        self.scrolling.toggle_column_tabbed_display();
    }

    pub fn set_column_display(&mut self, display: ColumnDisplay)
        requires
            old(self).wf(),
        ensures
            final(self)@ == displayed_as(old(self)@, display),
            final(self).wf(),
            final(self).part() == old(self).part(),
    {
        if self.floating_is_active.get() {
            return;
        }
        self.scrolling.set_column_display(display);
    }

    pub fn center_visible_columns(&mut self)
        requires
            old(self).wf(),
        ensures
            final(self)@ == visible_columns_centered(old(self)@),
            final(self).wf(),
            final(self).part() == old(self).part(),
    {
        if self.floating_is_active.get() {
            return;
        }
        self.scrolling.request(Request::CenterVisible);
    }

    /// Removes the active column for a panel. The focus stays in its layer.
    pub fn carousel_remove_active_column(&mut self) -> (r: Option<Column>)
        requires
            old(self).wf(),
        ensures
            row_column_leaves(old(self)@, final(self)@, r),
            final(self).wf(),
            final(self).part() == old(self).part(),
    {
        self.scrolling.remove_active_column()
    }

    /// Adds a column from a panel and moves the focus to it.
    pub fn carousel_add_column_at(&mut self, idx: usize, column: Column)
        requires
            old(self).wf(),
            column@.wf(),
            idx <= old(self)@.row.columns.len(),
        ensures
            final(self)@ == row_column_added(old(self)@, idx, column),
            final(self).wf(),
            final(self).part() == old(self).part(),
    {
        self.scrolling.add_column(Some(idx), column, true);
    }

    /// Adds a column to the right of the active one.
    pub fn add_column(&mut self, column: Column, activate: bool)
        requires
            old(self).wf(),
            column@.wf(),
        ensures
            final(self)@ == column_arrived(old(self)@, column, activate),
            final(self).wf(),
            final(self).part() == old(self).part(),
    {
        self.enter_output_for_tiles(&column.tiles);
        self.scrolling.add_column(None, column, activate);
        if activate {
            self.floating_is_active = FloatingActive::No;
        }
    }

    fn enter_output_for_tiles(&mut self, tiles: &Vec<Tile>)
        requires
            old(self).wf(),
        ensures
            final(self)@ == each_entered(old(self)@, tiles@),
            final(self).wf(),
            final(self).part() == old(self).part(),
    {
        let ghost all = each_visible(tiles@, |id: u64| Effect::OutputEnter { window: id });
        if self.output.is_none() {
            return;
        }
        let mut i: usize = 0;
        assert(old(self)@.effects + all.take(0) =~= old(self)@.effects);
        while i < tiles.len()
            invariant
                i <= tiles@.len(),
                all == each_visible(tiles@, |id: u64| Effect::OutputEnter { window: id }),
                self@ == (WorkspaceState {
                    effects: old(self)@.effects + all.take(i as int),
                    ..old(self)@
                }),
                self.part() == old(self).part(),
            decreases tiles@.len() - i,
        {
            self.effects.push(Effect::OutputEnter { window: tiles[i].window.id });
            assert(self@.effects =~= old(self)@.effects + all.take(i + 1));
            i += 1;
        }
        assert(all.take(i as int) =~= all);
    }

    /// Removes the active column, unless the floating layer is active.
    pub fn remove_active_column(&mut self) -> (r: Option<Column>)
        requires
            old(self).wf(),
        ensures
            active_column_leaves(old(self)@, final(self)@, r),
            final(self).wf(),
            final(self).part() == old(self).part(),
    {
        if self.floating_is_active.get() {
            return None;
        }
        let column = match self.scrolling.remove_active_column() {
            Some(column) => column,
            None => {
                return None;
            },
        };
        self.leave_output_for_tiles(&column.tiles);
        self.update_focus_floating_tiling_after_removing(false);
        self.refit_carousel_grow_to_preferred(true);
        Some(column)
    }

    fn leave_output_for_tiles(&mut self, tiles: &Vec<Tile>)
        requires
            old(self).wf(),
        ensures
            final(self)@ == each_left(old(self)@, tiles@),
            final(self).wf(),
            final(self).part() == old(self).part(),
    {
        let output: u64 = match self.output {
            Some(output) => output,
            None => {
                return;
            },
        };
        let ghost all = each_visible(tiles@, |id: u64| Effect::OutputLeave { window: id, output });
        let mut i: usize = 0;
        assert(old(self)@.effects + all.take(0) =~= old(self)@.effects);
        while i < tiles.len()
            invariant
                i <= tiles@.len(),
                all == each_visible(
                    tiles@,
                    |id: u64| Effect::OutputLeave { window: id, output },
                ),
                self@ == (WorkspaceState {
                    effects: old(self)@.effects + all.take(i as int),
                    ..old(self)@
                }),
                self.part() == old(self).part(),
            decreases tiles@.len() - i,
        {
            self.effects.push(Effect::OutputLeave { window: tiles[i].window.id, output });
            assert(self@.effects =~= old(self)@.effects + all.take(i + 1));
            i += 1;
        }
        assert(all.take(i as int) =~= all);
    }

    pub fn center_column(&mut self)
        requires
            old(self).wf(),
        ensures
            final(self)@ == column_centered(old(self)@),
            final(self).wf(),
            final(self).part() == old(self).part(),
    {
        if self.floating_is_active.get() {
            self.center_floating(None);
        } else {
            self.scrolling.center_window(None);
        }
    }

    pub fn center_window(&mut self, id: Option<u64>)
        requires
            old(self).wf(),
            can_find(old(self)@, id),
        ensures
            final(self)@ == window_centered(old(self)@, id),
            final(self).wf(),
            final(self).part() == old(self).part(),
    {
        match self.layer_for(id) {
            WindowLayer::Floating => {
                self.center_floating(id);
            },
            _ => {
                self.scrolling.center_window(id);
            },
        }
    }

    fn center_floating(&mut self, id: Option<u64>)
        requires
            old(self).wf(),
        ensures
            final(self)@ == float_centered(old(self)@, id),
            final(self).wf(),
            final(self).part() == old(self).part(),
    {
        let target = match id {
            Some(id) => Some(id),
            None => self.floating.active_window_id(),
        };
        if let Some(window) = target {
            self.floating.request(FloatRequest::Center { window });
        }
    }

    fn request_float_width(&mut self, window: Option<u64>, request: SizeRequest)
        requires
            old(self).wf(),
        ensures
            final(self)@ == float_width_requested(old(self)@, window, request),
            final(self).wf(),
            final(self).part() == old(self).part(),
    {
        let target = match window {
            Some(id) => Some(id),
            None => self.floating.active_window_id(),
        };
        if let Some(window) = target {
            self.floating.request(FloatRequest::Width { window, request });
        }
    }

    fn request_float_height(&mut self, window: Option<u64>, request: SizeRequest)
        requires
            old(self).wf(),
        ensures
            final(self)@ == float_height_requested(old(self)@, window, request),
            final(self).wf(),
            final(self).part() == old(self).part(),
    {
        let target = match window {
            Some(id) => Some(id),
            None => self.floating.active_window_id(),
        };
        if let Some(window) = target {
            self.floating.request(FloatRequest::Height { window, request });
        }
    }

    fn request_width(&mut self, window: Option<u64>, request: SizeRequest)
        requires
            old(self).wf(),
            can_find(old(self)@, window),
        ensures
            final(self)@ == width_requested(old(self)@, window, request),
            final(self).wf(),
            final(self).part() == old(self).part(),
    {
        match self.layer_for(window) {
            WindowLayer::Floating => {
                self.request_float_width(window, request);
            },
            _ => {
                self.scrolling.request_width(window, request);
                self.refit_carousel(true);
                self.recenter();
            },
        }
    }

    /// Takes the next preset width for the active column, or the previous one.
    pub fn toggle_width(&mut self, forwards: bool)
        requires
            old(self).wf(),
        ensures
            final(self)@ == column_width_switched(old(self)@, forwards),
            final(self).wf(),
            final(self).part() == old(self).part(),
    {
        self.request_width(None, SizeRequest::Preset { forwards });
    }

    pub fn set_column_width(&mut self, change: SizeChange)
        requires
            old(self).wf(),
        ensures
            final(self)@ == column_width_changed(old(self)@, change),
            final(self).wf(),
            final(self).part() == old(self).part(),
    {
        self.request_width(None, SizeRequest::Change(change));
    }

    pub fn set_window_width(&mut self, window: Option<u64>, change: SizeChange)
        requires
            old(self).wf(),
            can_find(old(self)@, window),
        ensures
            final(self)@ == width_changed(old(self)@, window, change),
            final(self).wf(),
            final(self).part() == old(self).part(),
    {
        self.request_width(window, SizeRequest::Change(change));
    }

    pub fn toggle_window_width(&mut self, window: Option<u64>, forwards: bool)
        requires
            old(self).wf(),
            can_find(old(self)@, window),
        ensures
            final(self)@ == width_switched(old(self)@, window, forwards),
            final(self).wf(),
            final(self).part() == old(self).part(),
    {
        self.request_width(window, SizeRequest::Preset { forwards });
    }

    /// Makes the active column span the whole width, or not. Floating windows
    /// don't do that.
    pub fn toggle_full_width(&mut self)
        requires
            old(self).wf(),
        ensures
            final(self)@ == full_width_switched(old(self)@),
            final(self).wf(),
            final(self).part() == old(self).part(),
    {
        if self.floating_is_active.get() {
            return;
        }
        self.scrolling.toggle_full_width();
        self.refit_carousel(true);
        self.recenter();
    }

    /// The geometry gave a width to the column of a window.
    pub fn report_width(&mut self, window: u64, width: ColumnWidth, is_full_width: bool)
        requires
            old(self).wf(),
        ensures
            final(self)@ == width_taken(old(self)@, window, width, is_full_width),
            final(self).wf(),
            final(self).part() == old(self).part(),
    {
        self.scrolling.report_width(window, width, is_full_width);
    }

    pub fn expand_column_to_available_width(&mut self)
        requires
            old(self).wf(),
        ensures
            final(self)@ == column_expanded(old(self)@),
            final(self).wf(),
            final(self).part() == old(self).part(),
    {
        if self.floating_is_active.get() {
            return;
        }
        self.request_width(None, SizeRequest::Expand);
    }

    /// Resizes the active column by where it is: an arrow that points to the
    /// middle grows it and one that points away shrinks it. `left_of_center` tells
    /// in which half of the working area the active column is.
    pub fn resize_column_positional(
        &mut self,
        toward_right: bool,
        step: SizeChange,
        left_of_center: Option<bool>,
    )
        requires
            old(self).wf(),
            step matches SizeChange::AdjustFixed(n) ==> n > i32::MIN,
        ensures
            final(self)@ == resized_towards(old(self)@, toward_right, step, left_of_center),
            final(self).wf(),
            final(self).part() == old(self).part(),
    {
        let left_of_center = if self.floating_is_active.get() {
            true
        } else {
            match left_of_center {
                Some(left) => left,
                None => {
                    return;
                },
            }
        };
        let grow = left_of_center == toward_right;
        let change = if grow { step } else { negate_size_change(step) };
        self.set_column_width(change);
    }

    pub fn set_window_height(&mut self, window: Option<u64>, change: SizeChange)
        requires
            old(self).wf(),
            can_find(old(self)@, window),
        ensures
            final(self)@ == height_changed(old(self)@, window, change),
            final(self).wf(),
            final(self).part() == old(self).part(),
    {
        match self.layer_for(window) {
            WindowLayer::Floating => {
                self.request_float_height(window, SizeRequest::Change(change));
            },
            _ => {
                self.scrolling.request_height(window, SizeRequest::Change(change));
                self.refit_carousel(true);
                self.recenter();
            },
        }
    }

    pub fn reset_window_height(&mut self, window: Option<u64>)
        requires
            old(self).wf(),
            can_find(old(self)@, window),
        ensures
            final(self)@ == height_left_open(old(self)@, window),
            final(self).wf(),
            final(self).part() == old(self).part(),
    {
        match self.layer_for(window) {
            WindowLayer::Floating => {},
            _ => {
                self.scrolling.request_height(window, SizeRequest::Reset);
                self.recenter();
            },
        }
    }

    pub fn toggle_window_height(&mut self, window: Option<u64>, forwards: bool)
        requires
            old(self).wf(),
            can_find(old(self)@, window),
        ensures
            final(self)@ == height_switched(old(self)@, window, forwards),
            final(self).wf(),
            final(self).part() == old(self).part(),
    {
        match self.layer_for(window) {
            WindowLayer::Floating => {
                self.request_float_height(window, SizeRequest::Preset { forwards });
            },
            _ => {
                self.scrolling.request_height(window, SizeRequest::Preset { forwards });
                self.recenter();
            },
        }
    }

    /// Moves a floating window, or the active one. One among the columns keeps
    /// the place for when it floats; where it has none yet, as `has_stored` tells,
    /// a relative move has nothing to go by.
    pub fn move_floating_window(
        &mut self,
        id: Option<u64>,
        x: PositionChange,
        y: PositionChange,
        animate: bool,
        has_stored: bool,
    )
        requires
            old(self).wf(),
        ensures
            final(self)@ == position_moved(old(self)@, id, x, y, animate, has_stored),
            final(self).wf(),
            final(self).part() == old(self).part(),
    {
        match self.layer_for(id) {
            WindowLayer::Floating => {
                let target = match id {
                    Some(id) => Some(id),
                    None => self.floating.active_window_id(),
                };
                if let Some(window) = target {
                    self.floating.request(FloatRequest::Move { window, x, y, animate });
                }
            },
            _ => {
                let window: u64 = match id {
                    Some(id) => {
                        if !self.scrolling_shows(id) {
                            return;
                        }
                        id
                    },
                    None => match self.scrolling.active_window() {
                        Some(window) => window.id,
                        None => {
                            return;
                        },
                    },
                };
                if has_stored || (sets_position(x) && sets_position(y)) {
                    self.effects.push(Effect::StorePosition { window, x, y });
                }
            },
        }
    }

    /// Whether a tile among the columns shows a window.
    fn scrolling_shows(&self, id: u64) -> (r: bool)
        ensures
            r == shows(all_tiles(self@.row.columns), id),
    {
        let tiles = self.scrolling.tiles();
        let ghost all = all_tiles(self@.row.columns);
        let mut i: usize = 0;
        while i < tiles.len()
            invariant
                i <= tiles@.len(),
                all == all_tiles(self@.row.columns),
                tiles@.len() == all.len(),
                forall|j: int| 0 <= j < tiles@.len() ==> *(#[trigger] tiles@[j]) == all[j],
                forall|j: int| 0 <= j < i ==> (#[trigger] all[j]).window.id != id,
            decreases tiles@.len() - i,
        {
            assert(*tiles@[i as int] == all[i as int]);
            if tiles[i].window.id == id {
                return true;
            }
            i += 1;
        }
        false
    }
}

/// A layout section is put into effect.
pub open spec fn configured(s: WorkspaceState, area: RectBits) -> WorkspaceState {
    with_effect(reconfigured(s, area), Effect::ColorBackground)
}

/// The view changed: the layers learn about it, and so do the windows where its
/// scale or its transform did.
pub open spec fn viewed(
    s: WorkspaceState,
    scale: OutputScale,
    transform: Transform,
    size: SizeBits,
    working_area: RectBits,
    area: RectBits,
) -> WorkspaceState {
    let rescaled = s.frame.transform != transform || s.frame.scale.integer != scale.integer
        || !numbers_equal(s.frame.scale.fractional, scale.fractional);
    if !rescaled && sizes_equal(s.frame.view_size, size) && rects_equal(
        s.frame.working_area,
        working_area,
    ) {
        s
    } else {
        let next = WorkspaceState {
            frame: Frame { scale, transform, view_size: size, working_area, ..s.frame },
            ..s
        };
        let told = if !numbers_equal(s.frame.scale.fractional, scale.fractional) {
            configured(next, area)
        } else {
            reconfigured(next, area)
        };
        let sized = with_effect(told, Effect::ResizeBackground);
        if rescaled {
            WorkspaceState {
                effects: sized.effects + each_visible(
                    s.tiles(),
                    |id: u64| Effect::ScaleTransform { window: id },
                ),
                ..sized
            }
        } else {
            sized
        }
    }
}

/// The workspace moves to an output, or to none. It takes on the name of an
/// output that it belongs to, in place of the connector.
pub open spec fn output_set(
    s: WorkspaceState,
    output: Option<&Output>,
    area: RectBits,
) -> WorkspaceState {
    let number = match output {
        Some(o) => Some(o.id),
        None => None,
    };
    if s.frame.output == number {
        s
    } else {
        let gone = match s.frame.output {
            Some(old) => WorkspaceState {
                effects: s.effects + each_visible(
                    s.tiles(),
                    |id: u64| Effect::OutputLeave { window: id, output: old },
                ),
                ..s
            },
            None => s,
        };
        match output {
            None => WorkspaceState { frame: Frame { output: None, ..s.frame }, ..gone },
            Some(o) => {
                let named = WorkspaceState {
                    frame: Frame {
                        output: number,
                        original_output: if names_output(s.frame.original_output, *o) {
                            o.description@
                        } else {
                            s.frame.original_output
                        },
                        ..s.frame
                    },
                    ..gone
                };
                let sized = viewed(
                    named,
                    o.scale,
                    o.transform,
                    o.view_size,
                    o.working_area,
                    area,
                );
                WorkspaceState {
                    effects: sized.effects + each_visible(
                        s.tiles(),
                        |id: u64| Effect::OutputEnter { window: id },
                    ),
                    ..sized
                }
            },
        }
    }
}

impl Workspace {
    pub fn advance_animations(&mut self)
        requires
            old(self).wf(),
        ensures
            final(self)@ == animations_advanced(old(self)@),
            final(self).wf(),
            final(self).part() == old(self).part(),
    {
        self.scrolling.request(Request::Advance);
        self.floating.request(FloatRequest::Advance);
    }

    /// Lets the columns know what the panels leave free, if that changed.
    fn sync_carousel_parent_area(&mut self, area: RectBits)
        requires
            old(self).wf(),
        ensures
            final(self)@ == area_synced(old(self)@, area),
            final(self).wf(),
            final(self).part() == old(self).part(),
    {
        if !same_rect(area, self.scrolling.geometry().working_area) {
            self.scrolling.update_config(self.row_geometry(area));
            self.refit_carousel_grow_to_preferred(true);
            self.recenter();
        }
    }

    fn row_geometry(&self, area: RectBits) -> (r: ViewGeometry)
        ensures
            r == row_geometry(self@.frame, area),
    {
        ViewGeometry {
            view_size: self.view_size,
            working_area: area,
            scale: self.scale.fractional,
        }
    }

    fn float_geometry(&self) -> (r: ViewGeometry)
        ensures
            r == float_geometry(self@.frame),
    {
        ViewGeometry {
            view_size: self.view_size,
            working_area: self.working_area,
            scale: self.scale.fractional,
        }
    }

    /// Takes note of the widths of the panels. `area` is what they leave free of
    /// the working area.
    pub fn set_fixed_insets(&mut self, left: u64, right: u64, area: RectBits)
        requires
            old(self).wf(),
        ensures
            final(self)@ == insets_set(old(self)@, left, right, area),
            final(self).wf(),
            final(self).part() == old(self).part(),
    {
        if same_number(self.fixed_insets.0, left) && same_number(self.fixed_insets.1, right) {
            return;
        }
        self.fixed_insets = (left, right);
        self.sync_carousel_parent_area(area);
    }

    /// Prepares what is drawn. The columns show the focus only while neither the
    /// floating layer nor a panel has it.
    pub fn update_render_elements(
        &mut self,
        is_active: bool,
        panel_focus: Option<FixedSide>,
        area: RectBits,
    )
        requires
            old(self).wf(),
        ensures
            final(self)@ == prepared(old(self)@, is_active, panel_focus, area),
            final(self).wf(),
            final(self).part() == old(self).part(),
    {
        self.sync_carousel_parent_area(area);
        self.scrolling.request(Request::EnforceFit);
        let floating = self.floating_is_active.get();
        let tiling_active = is_active && !floating && panel_focus.is_none();
        self.scrolling.request(Request::Prepare { is_active: tiling_active });
        self.floating.request(FloatRequest::Prepare { is_active: is_active && floating });
        self.effects.push(Effect::PrepareShadow);
    }

    /// Tells the windows about their state. The columns have the focus only while
    /// neither the floating layer nor a panel has it.
    pub fn refresh(&mut self, is_active: bool, is_focused: bool, panel_focus: Option<FixedSide>)
        requires
            old(self).wf(),
        ensures
            final(self)@ == refreshed(old(self)@, is_active, is_focused, panel_focus),
            final(self).wf(),
            final(self).part() == old(self).part(),
    {
        let floating = self.floating_is_active.get();
        let tiling_active = is_active && !floating && panel_focus.is_none();
        self.scrolling.request(Request::Refresh { is_active: tiling_active, is_focused });
        self.floating.request(
            FloatRequest::Refresh { is_active: is_active && floating, is_focused },
        );
    }

    /// Puts another layout section for all workspaces into effect. `area` is
    /// what the panels leave free of the working area.
    pub fn update_config(&mut self, base_layout: Layout, area: RectBits)
        requires
            old(self)@.wf(),
        ensures
            final(self)@ == configured(
                WorkspaceState {
                    frame: Frame {
                        base_layout: base_layout@,
                        layout: workspace_layout(base_layout@, old(self).part()),
                        ..old(self)@.frame
                    },
                    ..old(self)@
                },
                area,
            ),
            final(self).wf(),
            final(self).part() == old(self).part(),
    {
        let layout = layout_for(&base_layout, &self.layout_config);
        self.scrolling.update_config(self.row_geometry(area));
        self.floating.update_config(self.float_geometry());
        self.effects.push(Effect::UpdateShadow);
        self.effects.push(Effect::ColorBackground);
        self.base_layout = base_layout;
        self.layout = layout;
    }

    /// Puts another layout section for this workspace into effect, unless it says
    /// the same.
    pub fn update_layout_config(&mut self, layout_config: Option<LayoutPart>, area: RectBits)
        requires
            old(self).wf(),
        ensures
            same_parts(old(self).part(), layout_config) ==> {
                &&& final(self)@ == old(self)@
                &&& final(self).part() == old(self).part()
            },
            !same_parts(old(self).part(), layout_config) ==> {
                &&& final(self).part() == layout_config
                &&& final(self)@ == configured(
                    WorkspaceState {
                        frame: Frame {
                            layout: workspace_layout(
                                old(self)@.frame.base_layout,
                                layout_config,
                            ),
                            ..old(self)@.frame
                        },
                        ..old(self)@
                    },
                    area,
                )
            },
            final(self).wf(),
    {
        let same = match (&self.layout_config, &layout_config) {
            (Some(a), Some(b)) => a.same(b),
            (None, None) => true,
            _ => false,
        };
        if same {
            return;
        }
        self.layout_config = layout_config;
        let base = self.base_layout.copy();
        self.update_config(base, area);
    }

    /// The view changed. `area` is what the panels leave free of the working area.
    fn set_view_size(
        &mut self,
        scale: OutputScale,
        transform: Transform,
        size: SizeBits,
        working_area: RectBits,
        area: RectBits,
    )
        requires
            old(self).wf(),
        ensures
            final(self)@ == viewed(old(self)@, scale, transform, size, working_area, area),
            final(self).wf(),
            final(self).part() == old(self).part(),
    {
        let fractional_scale_changed = !same_number(self.scale.fractional, scale.fractional);
        let scale_transform_changed = self.transform != transform || self.scale.integer
            != scale.integer || fractional_scale_changed;
        if !scale_transform_changed && same_size(self.view_size, size) && same_rect(
            self.working_area,
            working_area,
        ) {
            return;
        }
        self.scale = scale;
        self.transform = transform;
        self.view_size = size;
        self.working_area = working_area;
        if fractional_scale_changed {
            let base = self.base_layout.copy();
            self.update_config(base, area);
        } else {
            self.scrolling.update_config(self.row_geometry(area));
            self.floating.update_config(self.float_geometry());
            self.effects.push(Effect::UpdateShadow);
        }
        self.effects.push(Effect::ResizeBackground);
        if scale_transform_changed {
            self.tell_windows_scale();
        }
    }

    /// Tells the visible windows the scale and the transform.
    fn tell_windows_scale(&mut self)
        requires
            old(self)@.wf(),
        ensures
            final(self)@ == (WorkspaceState {
                effects: old(self)@.effects + each_visible(
                    old(self)@.tiles(),
                    |id: u64| Effect::ScaleTransform { window: id },
                ),
                ..old(self)@
            }),
            final(self).part() == old(self).part(),
    {
        let ghost all = each_visible(
            self@.tiles(),
            |id: u64| Effect::ScaleTransform { window: id },
        );
        let ids = self.visible_ids();
        let mut i: usize = 0;
        assert(old(self)@.effects + all.take(0) =~= old(self)@.effects);
        while i < ids.len()
            invariant
                i <= ids@.len(),
                ids@.len() == old(self)@.tiles().len(),
                forall|j: int|
                    0 <= j < ids@.len() ==> #[trigger] ids@[j] == old(self)@.tiles()[j].window.id,
                all == each_visible(
                    old(self)@.tiles(),
                    |id: u64| Effect::ScaleTransform { window: id },
                ),
                self@ == (WorkspaceState {
                    effects: old(self)@.effects + all.take(i as int),
                    ..old(self)@
                }),
                self.part() == old(self).part(),
            decreases ids@.len() - i,
        {
            self.effects.push(Effect::ScaleTransform { window: ids[i] });
            assert(self@.effects =~= old(self)@.effects + all.take(i + 1));
            i += 1;
        }
        assert(all.take(i as int) =~= all);
    }

    /// Tells the visible windows that they are on the output.
    fn tell_windows_enter(&mut self)
        requires
            old(self)@.wf(),
        ensures
            final(self)@ == (WorkspaceState {
                effects: old(self)@.effects + each_visible(
                    old(self)@.tiles(),
                    |id: u64| Effect::OutputEnter { window: id },
                ),
                ..old(self)@
            }),
            final(self).part() == old(self).part(),
    {
        let ghost all = each_visible(self@.tiles(), |id: u64| Effect::OutputEnter { window: id });
        let ids = self.visible_ids();
        let mut i: usize = 0;
        assert(old(self)@.effects + all.take(0) =~= old(self)@.effects);
        while i < ids.len()
            invariant
                i <= ids@.len(),
                ids@.len() == old(self)@.tiles().len(),
                forall|j: int|
                    0 <= j < ids@.len() ==> #[trigger] ids@[j] == old(self)@.tiles()[j].window.id,
                all == each_visible(
                    old(self)@.tiles(),
                    |id: u64| Effect::OutputEnter { window: id },
                ),
                self@ == (WorkspaceState {
                    effects: old(self)@.effects + all.take(i as int),
                    ..old(self)@
                }),
                self.part() == old(self).part(),
            decreases ids@.len() - i,
        {
            self.effects.push(Effect::OutputEnter { window: ids[i] });
            assert(self@.effects =~= old(self)@.effects + all.take(i + 1));
            i += 1;
        }
        assert(all.take(i as int) =~= all);
    }

    /// Tells the visible windows that they left an output.
    fn tell_windows_leave(&mut self, output: u64)
        requires
            old(self)@.wf(),
        ensures
            final(self)@ == (WorkspaceState {
                effects: old(self)@.effects + each_visible(
                    old(self)@.tiles(),
                    |id: u64| Effect::OutputLeave { window: id, output },
                ),
                ..old(self)@
            }),
            final(self).part() == old(self).part(),
    {
        let ghost all = each_visible(
            self@.tiles(),
            |id: u64| Effect::OutputLeave { window: id, output },
        );
        let ids = self.visible_ids();
        let mut i: usize = 0;
        assert(old(self)@.effects + all.take(0) =~= old(self)@.effects);
        while i < ids.len()
            invariant
                i <= ids@.len(),
                ids@.len() == old(self)@.tiles().len(),
                forall|j: int|
                    0 <= j < ids@.len() ==> #[trigger] ids@[j] == old(self)@.tiles()[j].window.id,
                all == each_visible(
                    old(self)@.tiles(),
                    |id: u64| Effect::OutputLeave { window: id, output },
                ),
                self@ == (WorkspaceState {
                    effects: old(self)@.effects + all.take(i as int),
                    ..old(self)@
                }),
                self.part() == old(self).part(),
            decreases ids@.len() - i,
        {
            self.effects.push(Effect::OutputLeave { window: ids[i], output });
            assert(self@.effects =~= old(self)@.effects + all.take(i + 1));
            i += 1;
        }
        assert(all.take(i as int) =~= all);
    }

    /// The ids of the visible windows.
    fn visible_ids(&self) -> (r: Vec<u64>)
        ensures
            r@.len() == self@.tiles().len(),
            forall|i: int| 0 <= i < r@.len() ==> #[trigger] r@[i] == self@.tiles()[i].window.id,
    {
        let tiles = self.tiles();
        let mut r: Vec<u64> = Vec::new();
        let mut i: usize = 0;
        while i < tiles.len()
            invariant
                i <= tiles@.len(),
                tiles@.len() == self@.tiles().len(),
                forall|j: int|
                    0 <= j < tiles@.len() ==> *(#[trigger] tiles@[j]) == self@.tiles()[j],
                r@.len() == i,
                forall|j: int| 0 <= j < i ==> #[trigger] r@[j] == self@.tiles()[j].window.id,
            decreases tiles@.len() - i,
        {
            assert(*tiles@[i as int] == self@.tiles()[i as int]);
            r.push(tiles[i].window.id);
            i += 1;
        }
        r
    }

    /// The output of the workspace changed its size or its working area. `area`
    /// is what the panels leave free of that.
    pub fn update_output_size(&mut self, output: &Output, area: RectBits)
        requires
            old(self).wf(),
            old(self)@.frame.output == Some(output.id),
        ensures
            final(self)@ == viewed(
                old(self)@,
                output.scale,
                output.transform,
                output.view_size,
                output.working_area,
                area,
            ),
            final(self).wf(),
            final(self).part() == old(self).part(),
    {
        self.set_view_size(
            output.scale,
            output.transform,
            output.view_size,
            output.working_area,
            area,
        );
    }

    /// Puts the workspace on an output, or on none. `area` is what the panels
    /// leave free of the working area there.
    pub fn set_output(&mut self, output: Option<&Output>, area: RectBits)
        requires
            old(self).wf(),
        ensures
            final(self)@ == output_set(old(self)@, output, area),
            final(self).wf(),
            final(self).part() == old(self).part(),
    {
        let same = match (self.output, output) {
            (Some(a), Some(b)) => a == b.id,
            (None, None) => true,
            _ => false,
        };
        if same {
            return;
        }
        if let Some(left) = self.output {
            self.tell_windows_leave(left);
        }
        match output {
            Some(output) => {
                self.output = Some(output.id);
                if self.original_output.matches(output) {
                    self.original_output = OutputId::new(output);
                }
                self.update_output_size(output, area);
                self.tell_windows_enter();
            },
            None => {
                self.output = None;
            },
        }
    }

    /// Passes on that the client acknowledged a configure. Where the columns don't
    /// scroll they are fitted to the width that the window now has; an interactive
    /// resize goes on.
    pub fn update_window(&mut self, window: u64, serial: Option<u32>)
        requires
            old(self).wf(),
            old(self)@.float.holds(window) || old(self)@.row.holds(window),
        ensures
            final(self)@ == window_updated(old(self)@, window, serial),
            final(self).wf(),
            final(self).part() == old(self).part(),
    {
        if self.floating.has_window(window) {
            self.floating.request(FloatRequest::Update { window, serial });
            return;
        }
        self.scrolling.update_window(window, serial);
        if self.layout.disable_carousel {
            if self.scrolling.is_interactive_resize_ongoing() {
                self.scrolling.request(Request::Fit { animate: false, keep_resize: true });
            } else {
                self.refit_carousel(false);
            }
            self.recenter();
        }
    }

    pub fn start_close_animation_for_window(&mut self, window: u64)
        requires
            old(self).wf(),
            old(self)@.float.holds(window) || old(self)@.row.holds(window),
        ensures
            final(self)@ == closing_shown(old(self)@, window),
            final(self).wf(),
            final(self).part() == old(self).part(),
    {
        if self.floating.has_window(window) {
            self.floating.request(FloatRequest::Close { window });
        } else {
            self.scrolling.request(Request::Close { window });
        }
    }

    /// Animates the appearance of a window, if it is on this workspace.
    pub fn start_open_animation(&mut self, id: u64) -> (r: bool)
        requires
            old(self).wf(),
        ensures
            (final(self)@, r) == opening_shown(old(self)@, id),
            final(self).wf(),
            final(self).part() == old(self).part(),
    {
        if self.scrolling.start_open_animation(id) {
            return true;
        }
        if self.floating.has_window(id) {
            self.floating.request(FloatRequest::Open { window: id });
            return true;
        }
        false
    }

    /// Brings the dialogs of a window up, if it floats.
    pub fn descendants_added(&mut self, id: u64) -> (r: bool)
        requires
            old(self).wf(),
        ensures
            (final(self)@, r) == dialogs_raised(old(self)@, id),
            final(self).wf(),
            final(self).part() == old(self).part(),
    {
        let r = self.floating.descendants_added(id);
        proof {
            if r {
                lemma_found(old(self)@.float, id);
                crate::layout::floating::dialogs_up_keeps_tiles(
                    old(self)@.float.tiles,
                    tile_of(old(self)@.float.tiles, id),
                );
            }
        }
        r
    }

    pub fn interactive_resize_begin(&mut self, window: u64, edges: ResizeEdge) -> (r: bool)
        requires
            old(self).wf(),
            old(self)@.float.holds(window) || old(self)@.row.holds(window),
        ensures
            (final(self)@, r) == drag_begun(old(self)@, window, edges),
            final(self).wf(),
            final(self).part() == old(self).part(),
    {
        match self.layer_for(Some(window)) {
            WindowLayer::Floating => self.floating.interactive_resize_begin(window, edges),
            _ => self.scrolling.interactive_resize_begin(window, edges),
        }
    }

    pub fn interactive_resize_update(&mut self, window: u64, dx: u64, dy: u64) -> (r: bool)
        requires
            old(self).wf(),
        ensures
            (final(self)@, r) == dragged(old(self)@, window, dx, dy),
            final(self).wf(),
            final(self).part() == old(self).part(),
    {
        match self.layer_for(Some(window)) {
            WindowLayer::Floating => self.floating.interactive_resize_update(window, dx, dy),
            _ => self.scrolling.interactive_resize_update(window, dx, dy),
        }
    }

    /// Ends the resize of a window, or any resize in both layers.
    pub fn interactive_resize_end(&mut self, window: Option<u64>)
        requires
            old(self).wf(),
        ensures
            final(self)@ == drag_ended(old(self)@, window),
            final(self).wf(),
            final(self).part() == old(self).part(),
    {
        match window {
            Some(id) => {
                match self.layer_for(Some(id)) {
                    WindowLayer::Floating => {
                        self.floating.interactive_resize_end(window);
                    },
                    _ => {
                        self.scrolling.interactive_resize_end(window);
                    },
                }
            },
            None => {
                self.floating.interactive_resize_end(None);
                self.scrolling.interactive_resize_end(None);
            },
        }
    }

    /// Begins to scroll the view with a gesture. Columns that don't scroll swallow
    /// it, so that no part of it is left over.
    ///
    /// This and the functions below return whether the geometry is asked, which
    /// finds out what the gesture comes to.
    pub fn view_offset_gesture_begin(&mut self, is_touchpad: bool) -> (r: bool)
        requires
            old(self).wf(),
        ensures
            (final(self)@, r) == scrolling_begun(old(self)@, is_touchpad),
            final(self).wf(),
            final(self).part() == old(self).part(),
    {
        if self.layout.disable_carousel {
            return false;
        }
        self.scrolling.request(Request::GestureBegin { is_touchpad });
        true
    }

    /// Scrolls the view with a gesture.
    pub fn view_offset_gesture_update(
        &mut self,
        delta: u64,
        time: u64,
        is_touchpad: bool,
    ) -> (r: bool)
        requires
            old(self).wf(),
        ensures
            (final(self)@, r) == scrolling_moved(old(self)@, delta, time, is_touchpad),
            final(self).wf(),
            final(self).part() == old(self).part(),
    {
        if self.layout.disable_carousel {
            return false;
        }
        self.scrolling.request(Request::GestureUpdate { delta, time, is_touchpad });
        true
    }

    /// Ends to scroll the view with a gesture.
    pub fn view_offset_gesture_end(&mut self, touchpad: Option<bool>) -> (r: bool)
        requires
            old(self).wf(),
        ensures
            (final(self)@, r) == scrolling_ended(old(self)@, touchpad),
            final(self).wf(),
            final(self).part() == old(self).part(),
    {
        if self.layout.disable_carousel {
            return false;
        }
        self.scrolling.request(Request::GestureEnd { touchpad });
        true
    }

    /// Begins to scroll the view with a drag near an edge.
    pub fn dnd_scroll_gesture_begin(&mut self) -> (r: bool)
        requires
            old(self).wf(),
        ensures
            (final(self)@, r) == edge_scrolling_begun(old(self)@),
            final(self).wf(),
            final(self).part() == old(self).part(),
    {
        if self.layout.disable_carousel {
            return false;
        }
        self.scrolling.request(Request::DndScrollBegin);
        true
    }

    /// Scrolls the view with a drag near an edge.
    pub fn dnd_scroll_gesture_scroll(&mut self, x: u64, y: u64, speed: u64) -> (r: bool)
        requires
            old(self).wf(),
        ensures
            (final(self)@, r) == edge_scrolling_moved(old(self)@, x, y, speed),
            final(self).wf(),
            final(self).part() == old(self).part(),
    {
        if self.layout.disable_carousel {
            return false;
        }
        self.scrolling.request(Request::DndScroll { x, y, speed });
        true
    }

    /// Ends to scroll the view with a drag.
    pub fn dnd_scroll_gesture_end(&mut self) -> (r: bool)
        requires
            old(self).wf(),
        ensures
            (final(self)@, r) == edge_scrolling_ended(old(self)@),
            final(self).wf(),
            final(self).part() == old(self).part(),
    {
        if self.layout.disable_carousel {
            return false;
        }
        self.scrolling.request(Request::DndScrollEnd);
        true
    }

    /// Hands the work over to the rest of the compositor, oldest first.
    pub fn take_effects(&mut self) -> (r: Vec<Effect>)
        requires
            old(self).wf(),
        ensures
            r@ == old(self)@.effects,
            final(self)@ == (WorkspaceState { effects: Seq::empty(), ..old(self)@ }),
            final(self).wf(),
            final(self).part() == old(self).part(),
    {
        let mut r: Vec<Effect> = Vec::new();
        std::mem::swap(&mut r, &mut self.effects);
        r
    }

    /// Hands the work over to the geometry of the columns, oldest first.
    pub fn take_scrolling_requests(&mut self) -> (r: Vec<Request>)
        requires
            old(self).wf(),
        ensures
            r@ == old(self)@.row.requests,
            final(self)@ == (WorkspaceState {
                row: SpaceState { requests: Seq::empty(), ..old(self)@.row },
                ..old(self)@
            }),
            final(self).wf(),
            final(self).part() == old(self).part(),
    {
        self.scrolling.take_requests()
    }

    /// Hands the work over to the geometry of the floating layer, oldest first.
    pub fn take_floating_requests(&mut self) -> (r: Vec<FloatRequest>)
        requires
            old(self).wf(),
        ensures
            r@ == old(self)@.float.requests,
            final(self)@ == (WorkspaceState {
                float: FloatState { requests: Seq::empty(), ..old(self)@.float },
                ..old(self)@
            }),
            final(self).wf(),
            final(self).part() == old(self).part(),
    {
        self.floating.take_requests()
    }

    /// Takes note of what the geometry has in motion.
    pub fn report_motion(&mut self, scrolling: Motion, floating: Motion)
        requires
            old(self).wf(),
        ensures
            final(self)@ == motion_reported(old(self)@, scrolling, floating),
            final(self).wf(),
            final(self).part() == old(self).part(),
    {
        self.scrolling.report_motion(scrolling);
        self.floating.report_motion(floating);
    }

    /// Whether both layers are in order and know the view, and an empty floating
    /// layer isn't active.
    pub fn verify_invariants(&self) -> (r: bool)
        ensures
            r == (self@.wf() && self@.mirrors()),
    {
        let row = self.scrolling.geometry();
        let knows_view = row.view_size == self.view_size && row.scale == self.scale.fractional
            && self.floating.geometry() == self.float_geometry();
        knows_view && self.scrolling.verify_invariants() && self.floating.verify_invariants() && !(
        self.floating.is_empty() && self.floating_is_active.get())
    }

    /// How to draw the columns. Without a panel, or where the columns don't
    /// scroll, nothing slides behind an edge; and without the means to fade it out
    /// there is no other way.
    pub fn render_scrolling(&self, focus_ring: bool, can_fade: bool) -> (r: CarouselRender)
        ensures
            r == drawn_row(self@, focus_ring, can_fade),
    {
        let focus_ring = focus_ring && !self.floating_is_active.get();
        let panels = positive(self.fixed_insets.0) || positive(self.fixed_insets.1);
        if !panels || self.layout.disable_carousel || !can_fade {
            CarouselRender::Direct { focus_ring }
        } else {
            CarouselRender::Collect { focus_ring }
        }
    }

    /// Which edges of the columns to fade, once what is to be drawn is known.
    pub fn fade_edges(
        &self,
        elements: &Vec<PixelRect>,
        left_band: PixelRect,
        right_band: PixelRect,
    ) -> (r: Option<FadeEdges>)
        ensures
            r == faded_edges(self@, elements@, left_band, right_band),
    {
        fade_edges(
            elements,
            positive(self.fixed_insets.0),
            positive(self.fixed_insets.1),
            left_band,
            right_band,
        )
    }

    /// Whether to draw the floating layer, and then whether with a focus ring.
    pub fn render_floating(&self, focus_ring: bool, above_top_layer: bool) -> (r: Option<bool>)
        ensures
            r == drawn_floats(self@, focus_ring, above_top_layer),
    {
        if !self.is_floating_visible(above_top_layer) {
            return None;
        }
        Some(focus_ring && self.floating_is_active.get())
    }

    /// The window under a point, given the floating window and the window among
    /// the columns that are there. A hidden floating layer is not in the way.
    pub fn window_under(
        &self,
        floating: Option<u64>,
        scrolling: Option<u64>,
        above_top_layer: bool,
    ) -> (r: Option<u64>)
        ensures
            r == window_at(self@, floating, scrolling, above_top_layer),
    {
        if self.is_floating_visible(above_top_layer) && floating.is_some() {
            return floating;
        }
        scrolling
    }
}

} // verus!
