//! The state of a workspace and what each operation does to it.

use vstd::prelude::*;
use crate::config::layout::LayoutState;
use crate::ipc::PositionChange;
use crate::layout::floating::{
    float_activate, float_focus, float_insert, float_remove, float_removed_window, float_target,
    float_with_request, shown_at, FloatPlacement, FloatRequest, FloatState, FocusDir,
};
use crate::layout::geometry::{rects_equal, RectBits, SizeBits, ViewGeometry};
use crate::layout::row::{
    activate_window, all_tiles, column_of, focus_down, focus_left, focus_right, focus_up,
    insert_column, next_column_idx, remove_window, removed_window, request_width, scrolled,
    set_fullscreen, set_maximized, target_position, tile_of, with_request, with_tile_of,
    without_guest, Request, SizeRequest, SpaceState,
};
use crate::layout::tile::{single_tile_column, ColumnState, ColumnWidth, Tile, Window};
use crate::text::option_view;

verus! {

/// Whether the floating layer is active.
#[derive(Debug, Clone, Copy, PartialEq, Eq, Structural)]
pub enum FloatingActive {
    /// The columns are active.
    No,
    /// The columns are active, but the floating layer is shown on top even of a
    /// fullscreen window, so that a window that got the focus without being
    /// raised does not hide the others.
    NoButRaised,
    /// The floating layer is active.
    Yes,
}

impl FloatingActive {
    pub fn get(self) -> (r: bool)
        ensures
            r == (self is Yes),
    {
        matches!(self, FloatingActive::Yes)
    }
}

/// The part of the layout that holds a window.
#[derive(Debug, Clone, Copy, PartialEq, Eq, Structural)]
pub enum WindowLayer {
    Floating,
    Scrolling,
    FixedLeft,
    FixedRight,
}

/// Where to put a new window.
#[derive(Debug, Clone, Copy, PartialEq, Eq, Structural)]
pub enum WorkspaceAddWindowTarget {
    /// Wherever new windows go.
    Auto,
    /// In a new column at this index.
    NewColumnAt(usize),
    /// Next to this window.
    NextTo(u64),
}

impl Default for WorkspaceAddWindowTarget {
    fn default() -> (r: Self)
        ensures
            r is Auto,
    {
        WorkspaceAddWindowTarget::Auto
    }
}

/// Whether a new window gets the focus.
#[derive(Debug, Clone, Copy, PartialEq, Eq, Structural)]
pub enum ActivateWindow {
    Yes,
    No,
    /// That depends on where the window goes.
    Smart,
}

/// Whether a new window gets the focus, where `smart` is the answer that depends
/// on where it goes.
pub open spec fn activates(activate: ActivateWindow, smart: bool) -> bool {
    match activate {
        ActivateWindow::Yes => true,
        ActivateWindow::No => false,
        ActivateWindow::Smart => smart,
    }
}

impl ActivateWindow {
    pub fn map_smart(self, smart: bool) -> (r: bool)
        ensures
            r == activates(self, smart),
    {
        match self {
            ActivateWindow::Yes => true,
            ActivateWindow::No => false,
            ActivateWindow::Smart => smart,
        }
    }
}

/// Work for the rest of the compositor.
#[derive(Debug, Clone, Copy, PartialEq, Eq, Structural)]
pub enum Effect {
    /// Tell the window that it is on the workspace's output, and with which
    /// scale and transform.
    OutputEnter { window: u64 },
    /// Tell the window that it left this output.
    OutputLeave { window: u64, output: u64 },
    /// Tell the window the scale and the transform of the output.
    ScaleTransform { window: u64 },
    /// Animate the window from where it was to where it is.
    AnimateMove { window: u64 },
    /// Change the place that the window takes when it floats.
    StorePosition { window: u64, x: PositionChange, y: PositionChange },
    /// Adapt the shadow of the workspace.
    UpdateShadow,
    /// Prepare the shadow to be drawn.
    PrepareShadow,
    /// Adapt the color of the background.
    ColorBackground,
    /// Adapt the size of the background.
    ResizeBackground,
}

/// The scale of an output.
#[derive(Debug, Clone, Copy, PartialEq, Eq, Structural)]
pub struct OutputScale {
    /// The next whole scale.
    pub integer: i32,
    /// The scale, as the bit pattern of a double.
    pub fractional: u64,
}

/// How an output is turned.
#[derive(Debug, Clone, Copy, PartialEq, Eq, Structural)]
pub enum Transform {
    Normal,
    Rotated90,
    Rotated180,
    Rotated270,
    Flipped,
    Flipped90,
    Flipped180,
    Flipped270,
}

/// What a workspace is besides its windows.
pub struct Frame {
    pub id: u64,
    pub name: Option<Seq<char>>,
    /// The output that the workspace belongs to, by name.
    pub original_output: Seq<char>,
    /// The output that the workspace is on, by number.
    pub output: Option<u64>,
    pub scale: OutputScale,
    pub transform: Transform,
    pub view_size: SizeBits,
    pub working_area: RectBits,
    /// The widths of the panels, as the bit patterns of doubles.
    pub insets: (u64, u64),
    /// The layout section for all workspaces.
    pub base_layout: LayoutState,
    /// The layout section for this workspace.
    pub layout: LayoutState,
}

/// The state of a workspace.
pub struct WorkspaceState {
    pub row: SpaceState,
    pub float: FloatState,
    pub active: FloatingActive,
    pub effects: Seq<Effect>,
    pub frame: Frame,
}

impl WorkspaceState {
    /// Both layers are in order, and an empty floating layer isn't active.
    pub open spec fn wf(self) -> bool {
        &&& self.row.wf()
        &&& self.float.wf()
        &&& self.float.tiles.len() == 0 ==> !(self.active is Yes)
    }

    /// Both layers know the view. How much of it the columns have depends on the
    /// panels; the floating layer has the whole working area.
    pub open spec fn mirrors(self) -> bool {
        &&& self.row.geometry.view_size == self.frame.view_size
        &&& self.row.geometry.scale == self.frame.scale.fractional
        &&& self.float.geometry == float_geometry(self.frame)
    }

    /// The active window, if there is one.
    pub open spec fn active_window(self) -> Option<Window> {
        if self.active is Yes {
            match self.float.active {
                Some(id) => Some(self.float.tiles[shown_at(self.float.tiles, id)].window),
                None => None,
            }
        } else if self.row.columns.len() > 0 {
            Some(self.row.active_tile().window)
        } else {
            None
        }
    }

    /// The tiles: those of the columns and then the floating ones.
    pub open spec fn tiles(self) -> Seq<Tile> {
        all_tiles(self.row.columns) + self.float.tiles
    }

    /// Whether the window is the visible one of the tile that it is found in.
    pub open spec fn shows(self, id: u64) -> bool {
        if self.float.holds(id) {
            self.float.tiles[tile_of(self.float.tiles, id)].window.id == id
        } else {
            self.row_shows(id)
        }
    }

    /// Whether the window is the visible one of the tile among the columns that
    /// it is found in.
    pub open spec fn row_shows(self, id: u64) -> bool {
        let (c, t) = target_position(self.row, Some(id));
        self.row.holds(id) && self.row.columns[c].tiles[t].window.id == id
    }

    /// The column that a window is found in.
    pub open spec fn column_with(self, id: u64) -> ColumnState {
        self.row.columns[column_of(self.row.columns, id)]
    }

    /// The tile among the columns that a window is found in.
    pub open spec fn tile_with(self, id: u64) -> Tile {
        self.column_with(id).tiles[tile_of(self.column_with(id).tiles, id)]
    }
}

/// The layer that an operation on a window applies to, or else on the active
/// one.
pub open spec fn layer_of(s: WorkspaceState, window: Option<u64>) -> WindowLayer {
    let floating = match window {
        Some(id) => s.float.holds(id),
        None => s.active is Yes,
    };
    if floating {
        WindowLayer::Floating
    } else {
        WindowLayer::Scrolling
    }
}

pub open spec fn with_effect(s: WorkspaceState, e: Effect) -> WorkspaceState {
    WorkspaceState { effects: s.effects.push(e), ..s }
}

/// A window is told that it is on the output, if there is one.
pub open spec fn entered(s: WorkspaceState, id: u64) -> WorkspaceState {
    if s.frame.output is Some {
        with_effect(s, Effect::OutputEnter { window: id })
    } else {
        s
    }
}

/// A window is told that it left the output, if there is one.
pub open spec fn left(s: WorkspaceState, id: u64) -> WorkspaceState {
    match s.frame.output {
        Some(output) => with_effect(s, Effect::OutputLeave { window: id, output }),
        None => s,
    }
}

/// The columns are fitted between the panels where they don't scroll.
pub open spec fn fitted(s: WorkspaceState, animate: bool) -> WorkspaceState {
    if s.frame.layout.disable_carousel {
        WorkspaceState {
            row: with_request(s.row, Request::Fit { animate, keep_resize: false }),
            ..s
        }
    } else {
        s
    }
}

/// The columns are fitted: where they don't scroll, between the panels, and
/// else several of them are widened to cover enough of the view.
pub open spec fn refitted(s: WorkspaceState, animate: bool) -> WorkspaceState {
    if s.frame.layout.disable_carousel {
        fitted(s, animate)
    } else if s.row.columns.len() > 1 {
        WorkspaceState { row: with_request(s.row, Request::GrowToMinSpan), ..s }
    } else {
        s
    }
}

/// The view is fitted or centered.
pub open spec fn recentered(s: WorkspaceState) -> WorkspaceState {
    WorkspaceState { row: with_request(s.row, Request::AutoFitOrCenter), ..s }
}

/// The first of the tiles at or after `i` whose visible window is the parent,
/// or their number.
pub open spec fn parent_from(tiles: Seq<Tile>, parent: Option<u64>, i: int) -> int
    decreases tiles.len() - i,
{
    if i >= tiles.len() {
        tiles.len() as int
    } else if parent == Some(tiles[i].window.id) {
        i
    } else {
        parent_from(tiles, parent, i + 1)
    }
}

/// The window that a dialog belongs to: the one that it names, or else the
/// active one where that is of the same application.
pub open spec fn owner_of(s: WorkspaceState, window: Window) -> Option<u64> {
    let at = parent_from(s.tiles(), window.parent, 0);
    if at < s.tiles().len() {
        Some(s.tiles()[at].window.id)
    } else {
        match s.active_window() {
            Some(active) => if active.id != window.id && window.app_id is Some && option_view(
                active.app_id,
            ) == option_view(window.app_id) {
                Some(active.id)
            } else {
                None
            },
            None => None,
        }
    }
}

/// A tile goes to the floating layer.
pub open spec fn float_added(
    s: WorkspaceState,
    idx: int,
    tile: Tile,
    activate: bool,
    placement: FloatPlacement,
) -> WorkspaceState {
    WorkspaceState {
        row: if activate {
            without_guest(s.row)
        } else {
            s.row
        },
        float: float_with_request(
            float_insert(s.float, idx, tile, activate),
            FloatRequest::Place { window: tile.window.id, placement },
        ),
        active: if activate || s.row.columns.len() == 0 {
            FloatingActive::Yes
        } else {
            s.active
        },
        ..s
    }
}

/// A column goes to the columns.
pub open spec fn column_added(
    s: WorkspaceState,
    idx: int,
    column: ColumnState,
    activate: bool,
) -> WorkspaceState {
    WorkspaceState {
        row: insert_column(s.row, idx, column, activate),
        active: if activate {
            FloatingActive::No
        } else {
            s.active
        },
        ..s
    }
}

/// Adds a new tile.
///
/// A floating one goes on top of its owner or next to the window that it was
/// opened from, and any other to a new column. A window that wants to cover the
/// screen goes to the columns, where it can do so.
pub open spec fn tile_added(
    s: WorkspaceState,
    tile: Tile,
    target: WorkspaceAddWindowTarget,
    activate: ActivateWindow,
    width: ColumnWidth,
    full_width: bool,
    floating: bool,
) -> WorkspaceState {
    let s = entered(s, tile.window.id);
    let tile = Tile { restore_to_floating: floating, ..tile };
    let floats = floating && tile.sizing is Normal;
    let column = single_tile_column(tile, width, full_width);
    match target {
        WorkspaceAddWindowTarget::Auto => {
            let covered = s.row.columns.len() > 0 && s.row.active_column().fullscreen;
            let activate = activates(activate, !covered);
            if floats {
                float_added(
                    s,
                    0,
                    tile,
                    activate,
                    FloatPlacement::Owner(owner_of(s, tile.window)),
                )
            } else {
                refitted(column_added(s, next_column_idx(s.row), column, activate), false)
            }
        },
        WorkspaceAddWindowTarget::NewColumnAt(idx) => {
            column_added(s, idx as int, column, activates(activate, false))
        },
        WorkspaceAddWindowTarget::NextTo(id) => {
            let activate = activates(
                activate,
                s.active_window() matches Some(w) && w.id == id,
            );
            if floats {
                let idx = if s.float.holds(id) {
                    tile_of(s.float.tiles, id)
                } else {
                    0
                };
                float_added(s, idx, tile, activate, FloatPlacement::Over(id))
            } else if s.float.holds(id) {
                column_added(s, next_column_idx(s.row), column, activate)
            } else {
                column_added(s, column_of(s.row.columns, id) + 1, column, activate)
            }
        },
    }
}

/// Moves the focus between the layers after a removal: away from an empty
/// floating layer, and to the floating layer when the columns become empty.
pub open spec fn refocused(s: WorkspaceState, from_floating: bool) -> WorkspaceState {
    if from_floating {
        if s.float.tiles.len() == 0 {
            WorkspaceState { active: FloatingActive::No, ..s }
        } else {
            s
        }
    } else if s.row.columns.len() == 0 && s.float.tiles.len() > 0 {
        WorkspaceState { active: FloatingActive::Yes, ..s }
    } else {
        s
    }
}

/// Removes a window.
pub open spec fn window_removed(s: WorkspaceState, id: u64) -> WorkspaceState {
    let floating = s.float.holds(id);
    let gone = if floating {
        WorkspaceState { float: float_remove(s.float, id), ..s }
    } else {
        WorkspaceState { row: remove_window(s.row, id), ..s }
    };
    fitted(refocused(left(gone, id), floating), true)
}

/// The window that an operation applies to: this one, or else the active one.
pub open spec fn operand(s: WorkspaceState, id: Option<u64>) -> Option<u64> {
    match id {
        Some(id) => Some(id),
        None => match s.active_window() {
            Some(window) => Some(window.id),
            None => None,
        },
    }
}

/// Moves a window between the columns and the floating layer. The focus goes
/// along with it.
pub open spec fn floating_toggled(s: WorkspaceState, id: Option<u64>) -> WorkspaceState {
    match operand(s, id) {
        None => s,
        Some(target) => {
            let focused = s.active_window() matches Some(w) && w.id == target;
            let moved = if s.float.holds(target) {
                let removed = float_removed_window(s.float, target);
                let column = single_tile_column(
                    removed.tile,
                    removed.width,
                    removed.is_full_width,
                );
                WorkspaceState {
                    row: insert_column(s.row, next_column_idx(s.row), column, focused),
                    float: float_remove(s.float, target),
                    active: if focused {
                        FloatingActive::No
                    } else {
                        s.active
                    },
                    ..s
                }
            } else {
                let removed = removed_window(s.row, target);
                let placement = FloatPlacement::NearTile {
                    offset: !(s.frame.layout.center_focused_column is Always),
                };
                WorkspaceState {
                    row: remove_window(s.row, target),
                    float: float_with_request(
                        float_insert(s.float, 0, removed.tile, focused),
                        FloatRequest::Place { window: target, placement },
                    ),
                    active: if focused {
                        FloatingActive::Yes
                    } else {
                        s.active
                    },
                    ..s
                }
            };
            with_effect(moved, Effect::AnimateMove { window: target })
        },
    }
}

/// Whether an operation on a window can find it: it is visible somewhere.
pub open spec fn can_toggle_floating(s: WorkspaceState, id: Option<u64>) -> bool {
    match operand(s, id) {
        Some(target) => s.shows(target),
        None => true,
    }
}

/// The tile of a window that starts to cover the screen remembers whether it
/// floated before.
pub open spec fn remembered(
    before: WorkspaceState,
    after: WorkspaceState,
    id: u64,
    floated: bool,
) -> WorkspaceState {
    if before.column_with(id).mode() is Normal && !(after.column_with(id).mode() is Normal) {
        WorkspaceState {
            row: with_tile_of(
                after.row,
                id,
                Tile { restore_to_floating: floated, ..after.tile_with(id) },
            ),
            ..after
        }
    } else {
        after
    }
}

/// Makes a window fullscreen or not. A floating window moves to the columns for
/// that, and goes back when it leaves fullscreen mode.
pub open spec fn fullscreen_set(s: WorkspaceState, id: u64, on: bool) -> WorkspaceState {
    if s.float.holds(id) {
        if on {
            let tiled = floating_toggled(s, Some(id));
            remembered(
                tiled,
                WorkspaceState { row: set_fullscreen(tiled.row, id, true), ..tiled },
                id,
                true,
            )
        } else {
            s
        }
    } else {
        let column = s.column_with(id);
        if !on && column.fullscreen && !column.maximized && s.tile_with(id).restore_to_floating {
            floating_toggled(s, Some(id))
        } else {
            remembered(
                s,
                WorkspaceState { row: set_fullscreen(s.row, id, on), ..s },
                id,
                false,
            )
        }
    }
}

/// Makes a window maximized or not. A floating window moves to the columns for
/// that, and goes back when it leaves maximized mode.
pub open spec fn maximized_set(s: WorkspaceState, id: u64, on: bool) -> WorkspaceState {
    if s.float.holds(id) {
        if on {
            let tiled = floating_toggled(s, Some(id));
            remembered(
                tiled,
                WorkspaceState { row: set_maximized(tiled.row, id, true), ..tiled },
                id,
                true,
            )
        } else {
            s
        }
    } else {
        let column = s.column_with(id);
        if !on && column.mode() is Maximized && s.tile_with(id).restore_to_floating {
            floating_toggled(s, Some(id))
        } else {
            remembered(
                s,
                WorkspaceState { row: set_maximized(s.row, id, on), ..s },
                id,
                false,
            )
        }
    }
}

/// Moves a window, or the active one, to one of the layers.
pub open spec fn layer_set(s: WorkspaceState, id: Option<u64>, floating: bool) -> WorkspaceState {
    if (layer_of(s, id) is Floating) == floating {
        s
    } else {
        floating_toggled(s, id)
    }
}

/// Makes a window fullscreen, or not where it is.
pub open spec fn fullscreen_toggled(s: WorkspaceState, id: u64) -> WorkspaceState {
    fullscreen_set(s, id, s.float.holds(id) || !s.column_with(id).fullscreen)
}

/// Makes a window maximized, or not where it is.
pub open spec fn maximized_toggled(s: WorkspaceState, id: u64) -> WorkspaceState {
    maximized_set(s, id, !(s.row.holds(id) && s.column_with(id).maximized))
}

/// Moves the focus to the floating layer, if both layers have windows.
pub open spec fn floating_focused(s: WorkspaceState) -> WorkspaceState {
    if s.active is Yes {
        s
    } else {
        layer_switched(s)
    }
}

/// Moves the focus to the columns, if both layers have windows.
pub open spec fn tiling_focused(s: WorkspaceState) -> WorkspaceState {
    if s.active is Yes {
        layer_switched(s)
    } else {
        s
    }
}

/// Moves the focus to the other layer, if both have windows.
pub open spec fn layer_switched(s: WorkspaceState) -> WorkspaceState {
    if s.float.tiles.len() == 0 || s.row.columns.len() == 0 {
        s
    } else {
        WorkspaceState {
            row: without_guest(s.row),
            active: if s.active is Yes {
                FloatingActive::No
            } else {
                FloatingActive::Yes
            },
            ..s
        }
    }
}

/// Moves the focus to a window and raises it.
pub open spec fn window_activated(s: WorkspaceState, id: u64) -> (WorkspaceState, bool) {
    if s.float.holds(id) {
        (
            WorkspaceState {
                row: without_guest(s.row),
                float: float_activate(s.float, id),
                active: FloatingActive::Yes,
                ..s
            },
            true,
        )
    } else if s.row.holds(id) {
        (
            WorkspaceState { row: activate_window(s.row, id), active: FloatingActive::No, ..s },
            true,
        )
    } else {
        (s, false)
    }
}

/// Moves the focus to a window without raising it, so that a floating layer
/// that was active stays on top.
pub open spec fn window_focused(s: WorkspaceState, id: u64) -> (WorkspaceState, bool) {
    if s.float.holds(id) {
        (
            WorkspaceState {
                row: without_guest(s.row),
                float: float_focus(s.float, id),
                active: FloatingActive::Yes,
                ..s
            },
            true,
        )
    } else if s.row.holds(id) {
        (
            WorkspaceState {
                row: activate_window(s.row, id),
                active: if s.active is No {
                    FloatingActive::No
                } else {
                    FloatingActive::NoButRaised
                },
                ..s
            },
            true,
        )
    } else {
        (s, false)
    }
}

/// Asks for another width of a window, or of the active one.
pub open spec fn width_requested(
    s: WorkspaceState,
    window: Option<u64>,
    request: SizeRequest,
) -> WorkspaceState {
    if layer_of(s, window) is Floating {
        float_width_requested(s, window, request)
    } else {
        recentered(
            refitted(
                WorkspaceState { row: request_width(s.row, window, request), ..s },
                true,
            ),
        )
    }
}

/// Asks for another width of a floating window, or of the active one.
pub open spec fn float_width_requested(
    s: WorkspaceState,
    window: Option<u64>,
    request: SizeRequest,
) -> WorkspaceState {
    match float_target(s.float, window) {
        Some(id) => WorkspaceState {
            float: float_with_request(s.float, FloatRequest::Width { window: id, request }),
            ..s
        },
        None => s,
    }
}

/// Asks for another height of a floating window, or of the active one.
pub open spec fn float_height_requested(
    s: WorkspaceState,
    window: Option<u64>,
    request: SizeRequest,
) -> WorkspaceState {
    match float_target(s.float, window) {
        Some(id) => WorkspaceState {
            float: float_with_request(s.float, FloatRequest::Height { window: id, request }),
            ..s
        },
        None => s,
    }
}

/// Whether a window, if one is given, can be found in the layer that it is
/// looked for in.
pub open spec fn can_find(s: WorkspaceState, window: Option<u64>) -> bool {
    window matches Some(id) ==> s.float.holds(id) || s.row.holds(id)
}

/// A visible window that the focus may go to in a direction.
#[derive(Debug, Clone, Copy, PartialEq, Eq, Structural)]
pub struct FocusCandidate {
    pub window: u64,
    /// How far the window is out of the way, less being better; `None` where it
    /// isn't in that direction.
    pub score: Option<i64>,
}

/// Whether a candidate is in the other layer, in the direction that is asked
/// for.
pub open spec fn is_eligible(s: WorkspaceState, c: FocusCandidate) -> bool {
    c.score is Some && s.float.holds(c.window) != (s.active is Yes)
}

/// Whether the candidate at `i` is the best: nothing before it is as good, and
/// nothing after it is better.
pub open spec fn is_best(s: WorkspaceState, candidates: Seq<FocusCandidate>, i: int) -> bool {
    &&& 0 <= i < candidates.len()
    &&& is_eligible(s, candidates[i])
    &&& forall|j: int|
        0 <= j < candidates.len() && is_eligible(s, #[trigger] candidates[j]) ==> {
            if j < i {
                candidates[j].score->0 > candidates[i].score->0
            } else {
                candidates[j].score->0 >= candidates[i].score->0
            }
        }
}

/// What the geometry finds for a move of the focus in a direction.
#[derive(Debug)]
pub struct FocusHint {
    /// The floating window that is next in that direction.
    pub in_layer: Option<u64>,
    /// The active window is on the screen.
    pub active_shown: bool,
    /// The other visible windows.
    pub candidates: Vec<FocusCandidate>,
}

/// Moves the focus to a floating window, if there is one.
pub open spec fn float_picked(s: WorkspaceState, pick: Option<u64>) -> (WorkspaceState, bool) {
    match pick {
        Some(id) => if s.float.holds(id) {
            (WorkspaceState { float: float_activate(s.float, id), ..s }, true)
        } else {
            (s, false)
        },
        None => (s, false),
    }
}

/// Moves the focus inside of the active layer.
pub open spec fn focused_in_layer(s: WorkspaceState, dir: FocusDir, pick: Option<u64>) -> (
    WorkspaceState,
    bool,
) {
    if s.active is Yes {
        float_picked(s, pick)
    } else {
        let (row, moved) = match dir {
            FocusDir::Left => focus_left(s.row),
            FocusDir::Right => focus_right(s.row),
            FocusDir::Up => focus_up(s.row),
            FocusDir::Down => focus_down(s.row),
        };
        (WorkspaceState { row, ..s }, moved)
    }
}

/// Whether `after` is what becomes of a move of the focus to the other layer:
/// the best of the windows there gets it, if there is any.
pub open spec fn crosses_layers(
    s: WorkspaceState,
    hint: FocusHint,
    after: WorkspaceState,
    moved: bool,
) -> bool {
    let candidates = hint.candidates@;
    if s.active_window() is None || !hint.active_shown || !exists|i: int|
        is_best(s, candidates, i) {
        !moved && after == s
    } else {
        moved && exists|i: int| #[trigger]
            is_best(s, candidates, i) && after == window_activated(s, candidates[i].window).0
    }
}

/// Whether `after` is what becomes of a move of the focus in a direction: inside
/// of the active layer, or else to the other one.
pub open spec fn focus_moves(
    s: WorkspaceState,
    dir: FocusDir,
    hint: FocusHint,
    after: WorkspaceState,
    moved: bool,
) -> bool {
    let (there, ok) = focused_in_layer(s, dir, hint.in_layer);
    if ok {
        moved && after == there
    } else {
        crosses_layers(s, hint, after, moved)
    }
}

/// The visible windows are told something.
pub open spec fn each_visible(tiles: Seq<Tile>, f: spec_fn(u64) -> Effect) -> Seq<Effect> {
    Seq::new(tiles.len(), |i: int| f(tiles[i].window.id))
}

/// The geometry of the columns.
pub open spec fn row_geometry(f: Frame, area: RectBits) -> ViewGeometry {
    ViewGeometry { view_size: f.view_size, working_area: area, scale: f.scale.fractional }
}

/// The geometry of the floating layer.
pub open spec fn float_geometry(f: Frame) -> ViewGeometry {
    ViewGeometry {
        view_size: f.view_size,
        working_area: f.working_area,
        scale: f.scale.fractional,
    }
}

/// Both layers learn about the view. `area` is what the panels leave free of the
/// working area.
pub open spec fn reconfigured(s: WorkspaceState, area: RectBits) -> WorkspaceState {
    with_effect(
        WorkspaceState {
            row: scrolled(SpaceState { geometry: row_geometry(s.frame, area), ..s.row }),
            float: FloatState { geometry: float_geometry(s.frame), ..s.float },
            ..s
        },
        Effect::UpdateShadow,
    )
}

/// The columns learn what the panels leave free, if that changed.
pub open spec fn area_synced(s: WorkspaceState, area: RectBits) -> WorkspaceState {
    if rects_equal(area, s.row.geometry.working_area) {
        s
    } else {
        recentered(
            fitted(
                WorkspaceState {
                    row: scrolled(SpaceState { geometry: row_geometry(s.frame, area), ..s.row }),
                    ..s
                },
                true,
            ),
        )
    }
}

} // verus!
