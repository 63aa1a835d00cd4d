//! The state of a row of columns and what each operation does to it.

use vstd::prelude::*;
use crate::ipc::{ColumnDisplay, SizeChange};
use crate::layout::geometry::{ResizeEdge, ViewGeometry};
use crate::layout::tile::{single_tile_column, ColumnState, ColumnWidth, RemovedTile, Tile, Window};

verus! {

/// Where the view over the columns rests.
#[derive(Debug, Clone, Copy, PartialEq, Eq, Structural)]
pub enum ViewAnchor {
    /// The view scrolls after the active column.
    Carousel,
    /// The block of columns is flush with the left edge.
    LeftEdge,
    /// The block of columns is flush with the right edge.
    RightEdge,
}

/// A direction along the row of columns.
#[derive(Debug, Clone, Copy, PartialEq, Eq, Structural)]
pub enum ScrollDirection {
    Left,
    Right,
}

/// A change to a width or a height, as asked for.
#[derive(Debug, Clone, Copy, PartialEq, Eq, Structural)]
pub enum SizeRequest {
    /// Apply this change.
    Change(SizeChange),
    /// Take the next preset size, or the previous one.
    Preset { forwards: bool },
    /// Go back to the automatic size.
    Reset,
    /// Take all the width that is left over.
    Expand,
}

/// Work for the geometry of a column container.
#[derive(Debug, Clone, Copy, PartialEq, Eq, Structural)]
pub enum Request {
    /// Resize the column that shows this window.
    Width { window: u64, request: SizeRequest },
    /// This window joined the column that shows it. Widen the column to the width
    /// of the one that the window came from, unless it is as wide already.
    Widen { window: u64, width: ColumnWidth, full_width: bool },
    /// Resize the tile that shows this window.
    Height { window: u64, request: SizeRequest },
    /// The pointer dragged a resized window by this much, in logical pixels
    /// as the bit patterns of doubles.
    Drag { window: u64, dx: u64, dy: u64 },
    /// The client acknowledged a configure.
    Update { window: u64, serial: Option<u32> },
    /// Play the animation of a window that appears.
    Open { window: u64 },
    /// Play the animation of a window that goes away.
    Close { window: u64 },
    /// Move animations forward to the current time.
    Advance,
    /// Prepare what is drawn.
    Prepare { is_active: bool },
    /// Tell the windows about their state.
    Refresh { is_active: bool, is_focused: bool },
    /// Scale the columns so that they fit between the panels.
    Fit { animate: bool, keep_resize: bool },
    /// Make sure that the columns fit before they are shown.
    EnforceFit,
    /// Widen a row of columns that covers too little of the view.
    GrowToMinSpan,
    /// Fit or center the view over the row.
    AutoFitOrCenter,
    /// Center the column that shows this window.
    Center { window: u64 },
    /// Center the columns that are visible.
    CenterVisible,
    /// A gesture that scrolls the view begins.
    GestureBegin { is_touchpad: bool },
    /// A gesture moved this far, as the bit pattern of a double, at this time in
    /// nanoseconds.
    GestureUpdate { delta: u64, time: u64, is_touchpad: bool },
    /// A gesture ends.
    GestureEnd { touchpad: Option<bool> },
    /// A drag begins that scrolls the view at the edges.
    DndScrollBegin,
    /// A drag is at a point near an edge, to be scrolled at a speed, all as the
    /// bit patterns of doubles.
    DndScroll { x: u64, y: u64, speed: u64 },
    /// A drag ends.
    DndScrollEnd,
}

/// What the geometry reports to be in motion.
#[derive(Debug, Clone, Copy, PartialEq, Eq, Structural)]
pub struct Motion {
    /// Anything is animated, also what repeats without an end.
    pub animations: bool,
    /// Something is on its way to a resting state.
    pub transitions: bool,
}

/// A window that moved into a column, and the width that the column had before,
/// which it gets back when the window moves on.
#[derive(Debug, Clone, Copy, PartialEq, Eq, Structural)]
pub struct Guest {
    pub window: u64,
    pub width: ColumnWidth,
    pub full_width: bool,
}

/// The state of a row of columns.
pub struct SpaceState {
    /// The columns, left to right.
    pub columns: Seq<ColumnState>,
    /// Index of the active column; zero when there is none.
    pub active: int,
    /// Whether the active column was opened next to the one on its left, which
    /// gets the focus back when the active column goes away.
    pub returns_left: bool,
    /// The window that is being resized interactively.
    pub resize: Option<(u64, ResizeEdge)>,
    /// The window that last moved into a column, until the focus changes.
    pub guest: Option<Guest>,
    pub anchor: ViewAnchor,
    /// Work for the geometry, oldest first.
    pub requests: Seq<Request>,
    pub geometry: ViewGeometry,
    /// What the geometry last reported to be in motion.
    pub motion: Motion,
}

impl SpaceState {
    /// The active column exists unless there is none at all.
    pub open spec fn wf(self) -> bool {
        &&& self.columns.len() == 0 ==> self.active == 0
        &&& self.columns.len() > 0 ==> 0 <= self.active < self.columns.len()
        &&& forall|i: int| 0 <= i < self.columns.len() ==> (#[trigger] self.columns[i]).wf()
    }

    /// Whether some column holds the window.
    pub open spec fn holds(self, id: u64) -> bool {
        exists|i: int| 0 <= i < self.columns.len() && (#[trigger] self.columns[i]).holds(id)
    }

    /// The active column.
    pub open spec fn active_column(self) -> ColumnState {
        self.columns[self.active]
    }

    /// The active tile of the active column.
    pub open spec fn active_tile(self) -> Tile {
        self.active_column().tiles[self.active_column().active]
    }
}

/// The first column at or after `i` that holds the window, or the number of
/// columns when there is none.
pub open spec fn column_from(columns: Seq<ColumnState>, id: u64, i: int) -> int
    decreases columns.len() - i,
{
    if i >= columns.len() {
        columns.len() as int
    } else if columns[i].holds(id) {
        i
    } else {
        column_from(columns, id, i + 1)
    }
}

/// The first column that holds the window, or the number of columns.
pub open spec fn column_of(columns: Seq<ColumnState>, id: u64) -> int {
    column_from(columns, id, 0)
}

/// The first tile at or after `i` that holds the window, or the number of tiles.
pub open spec fn tile_from(tiles: Seq<Tile>, id: u64, i: int) -> int
    decreases tiles.len() - i,
{
    if i >= tiles.len() {
        tiles.len() as int
    } else if tiles[i].holds(id) {
        i
    } else {
        tile_from(tiles, id, i + 1)
    }
}

/// The first tile that holds the window, or the number of tiles.
pub open spec fn tile_of(tiles: Seq<Tile>, id: u64) -> int {
    tile_from(tiles, id, 0)
}

proof fn lemma_column_from(columns: Seq<ColumnState>, id: u64, i: int)
    requires
        0 <= i <= columns.len(),
    ensures
        i <= column_from(columns, id, i) <= columns.len(),
        column_from(columns, id, i) < columns.len() ==> columns[column_from(
            columns,
            id,
            i,
        )].holds(id),
        forall|j: int| i <= j < column_from(columns, id, i) ==> !columns[j].holds(id),
    decreases columns.len() - i,
{
    if i < columns.len() && !columns[i].holds(id) {
        lemma_column_from(columns, id, i + 1);
    }
}

/// A window is found in the first column that holds it, and missed only where
/// no column holds it.
pub proof fn column_of_finds_the_first(s: SpaceState, id: u64)
    ensures
        0 <= column_of(s.columns, id) <= s.columns.len(),
        s.holds(id) <==> column_of(s.columns, id) < s.columns.len(),
        s.holds(id) ==> s.columns[column_of(s.columns, id)].holds(id),
        forall|j: int| 0 <= j < column_of(s.columns, id) ==> !s.columns[j].holds(id),
{
    lemma_column_from(s.columns, id, 0);
}

proof fn lemma_tile_from(tiles: Seq<Tile>, id: u64, i: int)
    requires
        0 <= i <= tiles.len(),
    ensures
        i <= tile_from(tiles, id, i) <= tiles.len(),
        tile_from(tiles, id, i) < tiles.len() ==> tiles[tile_from(tiles, id, i)].holds(id),
        forall|j: int| i <= j < tile_from(tiles, id, i) ==> !tiles[j].holds(id),
    decreases tiles.len() - i,
{
    if i < tiles.len() && !tiles[i].holds(id) {
        lemma_tile_from(tiles, id, i + 1);
    }
}

/// A window is found in the first tile of a column that holds it, and missed
/// only where no tile holds it.
pub proof fn tile_of_finds_the_first(c: ColumnState, id: u64)
    ensures
        0 <= tile_of(c.tiles, id) <= c.tiles.len(),
        c.holds(id) <==> tile_of(c.tiles, id) < c.tiles.len(),
        c.holds(id) ==> c.tiles[tile_of(c.tiles, id)].holds(id),
        forall|j: int| 0 <= j < tile_of(c.tiles, id) ==> !c.tiles[j].holds(id),
{
    lemma_tile_from(c.tiles, id, 0);
}

/// Makes the column at `idx` the active one.
pub open spec fn activate_column(s: SpaceState, idx: int) -> SpaceState {
    if s.active == idx {
        SpaceState { anchor: ViewAnchor::Carousel, ..s }
    } else {
        SpaceState {
            active: idx,
            returns_left: false,
            resize: None,
            guest: None,
            anchor: ViewAnchor::Carousel,
            ..s
        }
    }
}

/// The row without a guest.
pub open spec fn without_guest(s: SpaceState) -> SpaceState {
    SpaceState { guest: None, ..s }
}

/// The row after another column got the focus without being scrolled to.
pub open spec fn focused_statically(s: SpaceState, idx: int) -> SpaceState {
    SpaceState {
        active: idx,
        guest: if idx == s.active {
            s.guest
        } else {
            None
        },
        ..s
    }
}

/// Where a column goes that is opened without a place of its own: to the right
/// of the active one.
pub open spec fn next_column_idx(s: SpaceState) -> int {
    if s.columns.len() == 0 {
        0
    } else {
        s.active + 1
    }
}

/// Inserts a column, which becomes the active one if `activate`; otherwise the
/// active column stays the active one.
pub open spec fn insert_column(
    s: SpaceState,
    idx: int,
    column: ColumnState,
    activate: bool,
) -> SpaceState {
    let inserted = SpaceState {
        columns: s.columns.insert(idx, column),
        anchor: ViewAnchor::Carousel,
        ..s
    };
    if activate {
        SpaceState {
            returns_left: s.columns.len() > 0 && idx == s.active + 1,
            guest: None,
            ..activate_column(inserted, idx)
        }
    } else if s.columns.len() > 0 && idx <= s.active {
        SpaceState { active: s.active + 1, ..inserted }
    } else {
        inserted
    }
}

/// What becomes of an interactive resize when a column leaves.
pub open spec fn resize_without_column(s: SpaceState, column: ColumnState) -> Option<
    (u64, ResizeEdge),
> {
    match s.resize {
        Some(r) => if column.holds(r.0) {
            None
        } else {
            Some(r)
        },
        None => None,
    }
}

/// The guest that is left when a column leaves. The focus moves on where it was
/// the active one.
pub open spec fn guest_without_column(s: SpaceState, idx: int) -> Option<Guest> {
    match s.guest {
        Some(guest) => if idx == s.active || s.columns[idx].holds(guest.window) {
            None
        } else {
            Some(guest)
        },
        None => None,
    }
}

/// The guest that is left when a tile leaves. The focus moves on where it was the
/// active one.
pub open spec fn guest_without_tile(s: SpaceState, c: int, t: int) -> Option<Guest> {
    match s.guest {
        Some(guest) => if s.active == c && s.columns[c].active == t
            || s.columns[c].tiles[t].holds(guest.window) {
            None
        } else {
            Some(guest)
        },
        None => None,
    }
}

/// Removes the column at `idx`. A column that the focus returns to takes over
/// from the active one; else the column that moves into its place does, or the
/// last one.
pub open spec fn remove_column(s: SpaceState, idx: int) -> SpaceState {
    let columns = s.columns.remove(idx);
    let removed = SpaceState {
        columns,
        resize: resize_without_column(s, s.columns[idx]),
        guest: guest_without_column(s, idx),
        returns_left: s.returns_left && idx + 1 != s.active,
        anchor: ViewAnchor::Carousel,
        ..s
    };
    if columns.len() == 0 {
        SpaceState { active: 0, ..removed }
    } else if idx < s.active {
        SpaceState { active: s.active - 1, returns_left: false, ..removed }
    } else if idx == s.active && removed.returns_left {
        if idx > 0 {
            activate_column(removed, idx - 1)
        } else {
            removed
        }
    } else {
        activate_column(
            removed,
            if s.active < columns.len() {
                s.active
            } else {
                columns.len() - 1
            },
        )
    }
}

/// A column without the tile at `t`.
pub open spec fn column_without(c: ColumnState, t: int) -> ColumnState {
    ColumnState {
        tiles: c.tiles.remove(t),
        active: if t < c.active || c.active == c.tiles.len() - 1 {
            c.active - 1
        } else {
            c.active
        },
        ..c
    }
}

/// What becomes of an interactive resize when a tile leaves.
pub open spec fn resize_without_tile(s: SpaceState, tile: Tile) -> Option<(u64, ResizeEdge)> {
    match s.resize {
        Some(r) => if tile.holds(r.0) {
            None
        } else {
            Some(r)
        },
        None => None,
    }
}

/// Removes the tile at `t` from the column at `c`, and the column with it where
/// it is the last one.
pub open spec fn remove_tile_at(s: SpaceState, c: int, t: int) -> SpaceState {
    if s.columns[c].tiles.len() == 1 {
        remove_column(s, c)
    } else {
        SpaceState {
            columns: s.columns.update(c, column_without(s.columns[c], t)),
            resize: resize_without_tile(s, s.columns[c].tiles[t]),
            guest: guest_without_tile(s, c, t),
            anchor: ViewAnchor::Carousel,
            ..s
        }
    }
}

/// A tile on its way out of a column, which keeps the sizing mode that it had
/// there.
pub open spec fn leaving_tile(c: ColumnState, t: int) -> Tile {
    Tile { sizing: c.mode(), ..c.tiles[t] }
}

/// What the caller gets of the tile at `t` in the column at `c`.
pub open spec fn removed_tile(s: SpaceState, c: int, t: int) -> RemovedTile {
    RemovedTile {
        tile: leaving_tile(s.columns[c], t),
        width: s.columns[c].width,
        is_full_width: s.columns[c].full_width,
        is_floating: false,
    }
}

/// A column with `tile` inserted at `t`. Tiles that are all visible can't be
/// fullscreen or maximized together.
pub open spec fn column_with(c: ColumnState, t: int, tile: Tile, activate: bool) -> ColumnState {
    let tabbed = c.display is Tabbed;
    ColumnState {
        tiles: c.tiles.insert(t, tile),
        active: if activate {
            t
        } else if t <= c.active {
            c.active + 1
        } else {
            c.active
        },
        fullscreen: c.fullscreen && tabbed,
        maximized: c.maximized && tabbed,
        ..c
    }
}

/// Inserts a tile into the column at `c`.
pub open spec fn insert_tile(
    s: SpaceState,
    c: int,
    t: int,
    tile: Tile,
    activate: bool,
) -> SpaceState {
    let inserted = SpaceState {
        columns: s.columns.update(c, column_with(s.columns[c], t, tile, activate)),
        anchor: ViewAnchor::Carousel,
        ..s
    };
    if activate {
        activate_column(inserted, c)
    } else {
        inserted
    }
}

/// The state with one more piece of work for the geometry.
pub open spec fn with_request(s: SpaceState, r: Request) -> SpaceState {
    SpaceState { requests: s.requests.push(r), ..s }
}

/// The state after a change that lets the view scroll after the active column.
pub open spec fn scrolled(s: SpaceState) -> SpaceState {
    SpaceState { anchor: ViewAnchor::Carousel, ..s }
}

/// Replaces the column at `c`.
pub open spec fn with_column(s: SpaceState, c: int, column: ColumnState) -> SpaceState {
    SpaceState { columns: s.columns.update(c, column), anchor: ViewAnchor::Carousel, ..s }
}

/// Removes a window from the tile that holds it first, and the tile with it
/// where it is the only one there.
pub open spec fn remove_window(s: SpaceState, id: u64) -> SpaceState {
    let c = column_of(s.columns, id);
    let t = tile_of(s.columns[c].tiles, id);
    let column = s.columns[c];
    match column.tiles[t].without(id) {
        None => remove_tile_at(s, c, t),
        Some(rest) => SpaceState {
            resize: match s.resize {
                Some(r) => if r.0 == id {
                    None
                } else {
                    Some(r)
                },
                None => None,
            },
            guest: match s.guest {
                Some(guest) => if guest.window == id {
                    None
                } else {
                    Some(guest)
                },
                None => None,
            },
            ..with_column(s, c, ColumnState { tiles: column.tiles.update(t, rest), ..column })
        },
    }
}

/// The tile that a removed window goes into.
pub open spec fn removed_window(s: SpaceState, id: u64) -> RemovedTile {
    let c = column_of(s.columns, id);
    let t = tile_of(s.columns[c].tiles, id);
    let tile = s.columns[c].tiles[t];
    RemovedTile {
        tile: Tile { window: tile.window_with(id), below: None, ..leaving_tile(s.columns[c], t) },
        ..removed_tile(s, c, t)
    }
}

/// Makes the tile at `t` the active one of the column at `c`.
pub open spec fn activate_tile(s: SpaceState, c: int, t: int) -> SpaceState {
    SpaceState {
        guest: if t == s.columns[c].active {
            s.guest
        } else {
            None
        },
        ..with_column(s, c, ColumnState { active: t, ..s.columns[c] })
    }
}

/// Makes the window's column and tile the active ones.
pub open spec fn activate_window(s: SpaceState, id: u64) -> SpaceState {
    let c = column_of(s.columns, id);
    let t = tile_of(s.columns[c].tiles, id);
    activate_column(activate_tile(s, c, t), c)
}

/// Moves the focus one column to the left, if there is one.
pub open spec fn focus_left(s: SpaceState) -> (SpaceState, bool) {
    if s.active == 0 {
        (s, false)
    } else {
        (activate_column(s, s.active - 1), true)
    }
}

/// Moves the focus one column to the right, if there is one.
pub open spec fn focus_right(s: SpaceState) -> (SpaceState, bool) {
    if s.active + 1 >= s.columns.len() {
        (s, false)
    } else {
        (activate_column(s, s.active + 1), true)
    }
}

/// Moves the focus one row up in the active column, if there is one.
pub open spec fn focus_up(s: SpaceState) -> (SpaceState, bool) {
    if s.columns.len() == 0 || s.active_column().active == 0 {
        (s, false)
    } else {
        (activate_tile(s, s.active, s.active_column().active - 1), true)
    }
}

/// Moves the focus one row down in the active column, if there is one.
pub open spec fn focus_down(s: SpaceState) -> (SpaceState, bool) {
    if s.columns.len() == 0 || s.active_column().active + 1 >= s.active_column().tiles.len() {
        (s, false)
    } else {
        (activate_tile(s, s.active, s.active_column().active + 1), true)
    }
}

/// A one-based index into `len` items as a zero-based one; what is out of range
/// goes to the nearest end.
pub open spec fn clamped_index(index: int, len: nat) -> int {
    if index <= 1 {
        0
    } else if index > len {
        len - 1
    } else {
        index - 1
    }
}

/// Makes the column at this zero-based index active, if there is any column.
pub open spec fn focus_column_at(s: SpaceState, idx: int) -> SpaceState {
    if s.columns.len() == 0 {
        s
    } else {
        activate_column(s, idx)
    }
}

/// Makes the row at this zero-based index active in the active column.
pub open spec fn focus_row_at(s: SpaceState, idx: int) -> SpaceState {
    if s.columns.len() == 0 {
        s
    } else {
        activate_tile(s, s.active, idx)
    }
}

/// Moves the active column to `idx`; the focus stays with it.
pub open spec fn move_column_to(s: SpaceState, idx: int) -> SpaceState {
    if s.columns.len() == 0 || s.active == idx {
        s
    } else {
        SpaceState {
            guest: s.guest,
            ..activate_column(
                SpaceState {
                    columns: s.columns.remove(s.active).insert(idx, s.active_column()),
                    ..s
                },
                idx,
            )
        }
    }
}

/// A column whose active tile changed places with the one at `t`.
pub open spec fn swap_active_tile(c: ColumnState, t: int) -> ColumnState {
    ColumnState {
        tiles: c.tiles.update(c.active, c.tiles[t]).update(t, c.tiles[c.active]),
        active: t,
        ..c
    }
}

/// Moves the active tile one row up.
pub open spec fn move_up(s: SpaceState) -> (SpaceState, bool) {
    if s.columns.len() == 0 || s.active_column().active == 0 {
        (s, false)
    } else {
        (
            with_column(
                s,
                s.active,
                swap_active_tile(s.active_column(), s.active_column().active - 1),
            ),
            true,
        )
    }
}

/// Moves the active tile one row down.
pub open spec fn move_down(s: SpaceState) -> (SpaceState, bool) {
    if s.columns.len() == 0 || s.active_column().active + 1 >= s.active_column().tiles.len() {
        (s, false)
    } else {
        (
            with_column(
                s,
                s.active,
                swap_active_tile(s.active_column(), s.active_column().active + 1),
            ),
            true,
        )
    }
}

/// Where an operation on a window, or else on the active one, applies.
pub open spec fn target_position(s: SpaceState, window: Option<u64>) -> (int, int) {
    match window {
        Some(id) => {
            let c = column_of(s.columns, id);
            (c, tile_of(s.columns[c].tiles, id))
        },
        None => (s.active, s.active_column().active),
    }
}

/// Whether there is anything for an operation on a window, or else on the
/// active one, to apply to.
pub open spec fn has_target(s: SpaceState, window: Option<u64>) -> bool {
    match window {
        Some(id) => s.holds(id),
        None => s.columns.len() > 0,
    }
}

/// Puts the tile at `t` of the column at `c` into a column of its own at `to`,
/// which counts in the columns as they are before.
pub open spec fn expel_tile(s: SpaceState, c: int, t: int, to: int, activate: bool) -> SpaceState {
    let removed = removed_tile(s, c, t);
    insert_column(
        remove_tile_at(s, c, t),
        to,
        single_tile_column(removed.tile, removed.width, removed.is_full_width),
        activate,
    )
}

/// The rows of [`consume_or_expel_left`], with the widths that they had.
pub open spec fn regrouped_left(s: SpaceState, window: Option<u64>) -> SpaceState {
    let (c, t) = target_position(s, window);
    let column = s.columns[c];
    let was_active = s.active == c && column.active == t;
    if !has_target(s, window) {
        s
    } else if column.tiles.len() > 1 {
        let moved = expel_tile(s, c, t, c, was_active);
        if was_active {
            SpaceState { returns_left: false, ..moved }
        } else {
            moved
        }
    } else if c == 0 {
        s
    } else {
        let removed = remove_tile_at(s, c, t);
        insert_tile(
            removed,
            c - 1,
            removed.columns[c - 1].tiles.len() as int,
            leaving_tile(column, t),
            was_active,
        )
    }
}

/// The rows of [`consume_or_expel_right`], with the widths that they had.
pub open spec fn regrouped_right(s: SpaceState, window: Option<u64>) -> SpaceState {
    let (c, t) = target_position(s, window);
    let column = s.columns[c];
    let was_active = s.active == c && column.active == t;
    if !has_target(s, window) {
        s
    } else if column.tiles.len() > 1 {
        expel_tile(s, c, t, c + 1, was_active)
    } else if c + 1 >= s.columns.len() {
        s
    } else {
        let removed = remove_tile_at(s, c, t);
        insert_tile(
            removed,
            c,
            removed.columns[c].tiles.len() as int,
            leaving_tile(column, t),
            was_active,
        )
    }
}

/// The rows of [`consume_into_column`], with the widths that they had.
pub open spec fn consumed(s: SpaceState) -> SpaceState {
    if s.active + 1 >= s.columns.len() {
        s
    } else {
        let tile = leaving_tile(s.columns[s.active + 1], 0);
        let removed = remove_tile_at(s, s.active + 1, 0);
        insert_tile(
            removed,
            s.active,
            removed.columns[s.active].tiles.len() as int,
            tile,
            false,
        )
    }
}

/// The rows of [`expel_from_column`], with the widths that they had.
pub open spec fn expelled(s: SpaceState) -> SpaceState {
    if s.columns.len() == 0 || s.active_column().tiles.len() == 1 {
        s
    } else {
        expel_tile(s, s.active, s.active_column().tiles.len() - 1, s.active + 1, false)
    }
}

/// The neighbour of the active column in a direction.
pub open spec fn neighbor_idx(s: SpaceState, direction: ScrollDirection) -> int {
    match direction {
        ScrollDirection::Left => s.active - 1,
        ScrollDirection::Right => s.active + 1,
    }
}

/// The active tile and the active tile of the neighbouring column change
/// places, and the focus follows the window. Columns of one window each change
/// places as they are.
pub open spec fn swap_window(s: SpaceState, direction: ScrollDirection) -> SpaceState {
    let to = neighbor_idx(s, direction);
    if !(0 <= to < s.columns.len()) {
        s
    } else {
        let from = s.active;
        let a = s.columns[from];
        let b = s.columns[to];
        if a.tiles.len() == 1 && b.tiles.len() == 1 {
            move_column_to(s, to)
        } else {
            activate_column(
                SpaceState {
                    columns: s.columns.update(
                        from,
                        ColumnState { tiles: a.tiles.update(a.active, b.tiles[b.active]), ..a },
                    ).update(
                        to,
                        ColumnState { tiles: b.tiles.update(b.active, a.tiles[a.active]), ..b },
                    ),
                    ..s
                },
                to,
            )
        }
    }
}

/// The rows of [`move_to_neighbor_row`], with the widths that they had.
pub open spec fn moved_to_neighbor_row(s: SpaceState, to_left: bool) -> (SpaceState, bool) {
    let to = if to_left {
        s.active - 1
    } else {
        s.active + 1
    };
    if !(0 <= to < s.columns.len()) {
        (s, false)
    } else {
        let c = s.active;
        let t = s.active_column().active;
        let removed = remove_tile_at(s, c, t);
        let target = if !to_left && s.columns[c].tiles.len() == 1 {
            c
        } else {
            to
        };
        (
            insert_tile(
                removed,
                target,
                removed.columns[target].tiles.len() as int,
                leaving_tile(s.columns[c], t),
                true,
            ),
            true,
        )
    }
}

/// The rows of [`split_active_window`], with the widths that they had.
pub open spec fn split_off(s: SpaceState, to_left: bool) -> (SpaceState, bool) {
    let c = s.active;
    let column = s.active_column();
    if s.columns.len() == 0 || column.tiles.len() == 1 && s.active_tile().below is None {
        (s, false)
    } else {
        let tile = Tile { below: None, ..leaving_tile(column, column.active) };
        (
            insert_column(
                without_active_window(s),
                if to_left {
                    c
                } else {
                    c + 1
                },
                single_tile_column(tile, column.width, column.full_width),
                true,
            ),
            true,
        )
    }
}

/// Takes the visible window of the active tile out of the row.
pub open spec fn without_active_window(s: SpaceState) -> SpaceState {
    let column = s.active_column();
    match s.active_tile().without(s.active_tile().window.id) {
        None => remove_tile_at(s, s.active, column.active),
        Some(rest) => with_column(
            s,
            s.active,
            ColumnState { tiles: column.tiles.update(column.active, rest), ..column },
        ),
    }
}

/// Puts a window on top of a tile and moves the focus there.
pub open spec fn stack_onto(s: SpaceState, c: int, t: int, window: Window) -> SpaceState {
    let column = s.columns[c];
    activate_column(
        with_column(
            s,
            c,
            ColumnState {
                tiles: column.tiles.update(t, column.tiles[t].with_on_top(window)),
                active: t,
                ..column
            },
        ),
        c,
    )
}

/// The rows of [`overlap_neighbor_column`], with the widths that they had.
pub open spec fn overlapped(s: SpaceState, to_left: bool) -> (SpaceState, bool) {
    let to = if to_left {
        s.active - 1
    } else {
        s.active + 1
    };
    if !(0 <= to < s.columns.len()) {
        (s, false)
    } else {
        let rest = without_active_window(s);
        let target = if !to_left && rest.columns.len() < s.columns.len() {
            s.active
        } else {
            to
        };
        (
            stack_onto(rest, target, rest.columns[target].active, s.active_tile().window),
            true,
        )
    }
}

/// The column at `c` with another width.
pub open spec fn with_width(
    s: SpaceState,
    c: int,
    width: ColumnWidth,
    full_width: bool,
) -> SpaceState {
    SpaceState {
        columns: s.columns.update(c, ColumnState { width, full_width, ..s.columns[c] }),
        ..s
    }
}

/// The widths once a window moved on from the column that it came from.
///
/// `before` is the guest until then, and `left` is the column that the window
/// left, where that is still there. It gets back the width that it had before the
/// window joined it. The window is the new guest of the column that it joined, if
/// any, which the geometry widens where the window came from a wider one.
pub open spec fn moved_on(
    s: SpaceState,
    before: Option<Guest>,
    window: u64,
    from: (ColumnWidth, bool),
    left: Option<int>,
    joined: Option<int>,
) -> SpaceState {
    let was_guest = before matches Some(guest) && guest.window == window;
    let restored = if was_guest && left is Some {
        with_width(s, left->0, before->0.width, before->0.full_width)
    } else {
        s
    };
    match joined {
        Some(c) => SpaceState {
            guest: Some(
                Guest {
                    window,
                    width: restored.columns[c].width,
                    full_width: restored.columns[c].full_width,
                },
            ),
            requests: restored.requests.push(
                Request::Widen { window, width: from.0, full_width: from.1 },
            ),
            ..restored
        },
        None => if was_guest {
            without_guest(restored)
        } else {
            restored
        },
    }
}

/// The width that a column has.
pub open spec fn width_of(column: ColumnState) -> (ColumnWidth, bool) {
    (column.width, column.full_width)
}

/// A window that shares its column moves to a column of its own on the left; a
/// window alone in its column joins the bottom of the column to the left.
pub open spec fn consume_or_expel_left(s: SpaceState, window: Option<u64>) -> SpaceState {
    let (c, t) = target_position(s, window);
    let id = s.columns[c].tiles[t].window.id;
    let after = regrouped_left(s, window);
    if !has_target(s, window) {
        s
    } else if s.columns[c].tiles.len() > 1 {
        moved_on(after, s.guest, id, width_of(s.columns[c]), Some(c + 1), None)
    } else if c == 0 {
        s
    } else {
        moved_on(after, s.guest, id, width_of(s.columns[c]), None, Some(c - 1))
    }
}

/// A window that shares its column moves to a column of its own on the right; a
/// window alone in its column joins the bottom of the column to the right.
pub open spec fn consume_or_expel_right(s: SpaceState, window: Option<u64>) -> SpaceState {
    let (c, t) = target_position(s, window);
    let id = s.columns[c].tiles[t].window.id;
    let after = regrouped_right(s, window);
    if !has_target(s, window) {
        s
    } else if s.columns[c].tiles.len() > 1 {
        moved_on(after, s.guest, id, width_of(s.columns[c]), Some(c), None)
    } else if c + 1 >= s.columns.len() {
        s
    } else {
        moved_on(after, s.guest, id, width_of(s.columns[c]), None, Some(c))
    }
}

/// The first window of the column to the right joins the bottom of the active
/// column.
pub open spec fn consume_into_column(s: SpaceState) -> SpaceState {
    if s.active + 1 >= s.columns.len() {
        s
    } else {
        let from = s.columns[s.active + 1];
        moved_on(
            consumed(s),
            s.guest,
            from.tiles[0].window.id,
            width_of(from),
            if from.tiles.len() > 1 {
                Some(s.active + 1)
            } else {
                None
            },
            Some(s.active),
        )
    }
}

/// The bottom window of the active column moves to a column of its own on the
/// right.
pub open spec fn expel_from_column(s: SpaceState) -> SpaceState {
    if s.columns.len() == 0 || s.active_column().tiles.len() == 1 {
        s
    } else {
        let column = s.active_column();
        moved_on(
            expelled(s),
            s.guest,
            column.tiles.last().window.id,
            width_of(column),
            Some(s.active),
            None,
        )
    }
}

/// The active tile leaves its column and becomes the bottom row of the
/// neighbouring one.
pub open spec fn move_to_neighbor_row(s: SpaceState, to_left: bool) -> (SpaceState, bool) {
    let (after, moved) = moved_to_neighbor_row(s, to_left);
    if !moved {
        (s, false)
    } else {
        let stays = s.active_column().tiles.len() > 1;
        (
            moved_on(
                after,
                s.guest,
                s.active_tile().window.id,
                width_of(s.active_column()),
                if stays {
                    Some(s.active)
                } else {
                    None
                },
                Some(
                    if to_left {
                        s.active - 1
                    } else if stays {
                        s.active + 1
                    } else {
                        s.active
                    },
                ),
            ),
            true,
        )
    }
}

/// The active window leaves its tile and its column for a column of its own on
/// one side. Nothing happens where it is alone in its column already.
pub open spec fn split_active_window(s: SpaceState, to_left: bool) -> (SpaceState, bool) {
    let (after, moved) = split_off(s, to_left);
    if !moved {
        (s, false)
    } else {
        (
            moved_on(
                after,
                s.guest,
                s.active_tile().window.id,
                width_of(s.active_column()),
                Some(
                    if to_left {
                        s.active + 1
                    } else {
                        s.active
                    },
                ),
                None,
            ),
            true,
        )
    }
}

/// The active window leaves its tile and covers the active tile of the
/// neighbouring column.
pub open spec fn overlap_neighbor_column(s: SpaceState, to_left: bool) -> (SpaceState, bool) {
    let (after, moved) = overlapped(s, to_left);
    if !moved {
        (s, false)
    } else {
        let stays = after.columns.len() == s.columns.len();
        (
            moved_on(
                after,
                s.guest,
                s.active_tile().window.id,
                width_of(s.active_column()),
                if stays {
                    Some(s.active)
                } else {
                    None
                },
                Some(
                    if to_left {
                        s.active - 1
                    } else if stays {
                        s.active + 1
                    } else {
                        s.active
                    },
                ),
            ),
            true,
        )
    }
}

/// The active window leaves its tile and covers the tile above or below.
pub open spec fn overlap_neighbor_row(s: SpaceState, up: bool) -> (SpaceState, bool) {
    let column = s.active_column();
    let to = if up {
        column.active - 1
    } else {
        column.active + 1
    };
    if s.columns.len() == 0 || !(0 <= to < column.tiles.len()) {
        (s, false)
    } else {
        let rest = without_active_window(s);
        let target = if !up && rest.columns[s.active].tiles.len() < column.tiles.len() {
            column.active
        } else {
            to
        };
        (stack_onto(rest, s.active, target, s.active_tile().window), true)
    }
}

/// The active window leaves the windows beneath it for a row of its own above
/// or below them.
pub open spec fn split_active_row(s: SpaceState, up: bool) -> (SpaceState, bool) {
    if s.columns.len() == 0 || s.active_tile().below is None {
        (s, false)
    } else {
        let column = s.active_column();
        (
            insert_tile(
                without_active_window(s),
                s.active,
                if up {
                    column.active
                } else {
                    column.active + 1
                },
                Tile { below: None, ..leaving_tile(column, column.active) },
                true,
            ),
            true,
        )
    }
}

/// Sets how the active column shows its tiles. Tiles that become visible
/// together leave fullscreen and maximized mode.
pub open spec fn set_column_display(s: SpaceState, display: ColumnDisplay) -> SpaceState {
    if s.columns.len() == 0 || s.active_column().display == display {
        s
    } else {
        let column = s.active_column();
        let shared = display is Normal && column.tiles.len() > 1;
        SpaceState {
            resize: resize_without_column(s, column),
            ..with_column(
                s,
                s.active,
                ColumnState {
                    display,
                    fullscreen: column.fullscreen && !shared,
                    maximized: column.maximized && !shared,
                    ..column
                },
            )
        }
    }
}

/// Whether a window has to leave its column to be fullscreen or maximized.
pub open spec fn must_leave_to_cover(column: ColumnState) -> bool {
    column.tiles.len() > 1 && column.display is Normal
}

/// The row in which the column of a window can become fullscreen or maximized:
/// a window that shares its column with visible ones has moved to a column of
/// its own on the right.
pub open spec fn made_coverable(s: SpaceState, id: u64, cover: bool) -> SpaceState {
    let c = column_of(s.columns, id);
    let stopped = SpaceState { resize: resize_without_column(s, s.columns[c]), ..s };
    if cover && must_leave_to_cover(s.columns[c]) {
        consume_or_expel_right(stopped, Some(id))
    } else {
        stopped
    }
}

/// Where the column of a window is once it can be fullscreen or maximized.
pub open spec fn coverable_idx(s: SpaceState, id: u64, cover: bool) -> int {
    let c = column_of(s.columns, id);
    if cover && must_leave_to_cover(s.columns[c]) {
        c + 1
    } else {
        c
    }
}

/// Asks for a window to enter or leave fullscreen mode.
pub open spec fn set_fullscreen(s: SpaceState, id: u64, on: bool) -> SpaceState {
    if s.columns[column_of(s.columns, id)].fullscreen == on {
        s
    } else {
        let ready = made_coverable(s, id, on);
        let c = coverable_idx(s, id, on);
        with_column(ready, c, ColumnState { fullscreen: on, ..ready.columns[c] })
    }
}

/// Asks for a window to enter or leave maximized mode.
pub open spec fn set_maximized(s: SpaceState, id: u64, on: bool) -> SpaceState {
    if s.columns[column_of(s.columns, id)].maximized == on {
        s
    } else {
        let ready = made_coverable(s, id, on);
        let c = coverable_idx(s, id, on);
        with_column(ready, c, ColumnState { maximized: on, ..ready.columns[c] })
    }
}

/// The visible window of the tile that an operation applies to.
pub open spec fn target_window(s: SpaceState, window: Option<u64>) -> u64 {
    let (c, t) = target_position(s, window);
    s.columns[c].tiles[t].window.id
}

/// The width that the geometry gave to the column of a window.
pub open spec fn width_reported(
    s: SpaceState,
    window: u64,
    width: ColumnWidth,
    full_width: bool,
) -> SpaceState {
    if s.holds(window) {
        with_width(s, column_of(s.columns, window), width, full_width)
    } else {
        s
    }
}

/// Asks the geometry to change a width.
pub open spec fn request_width(
    s: SpaceState,
    window: Option<u64>,
    request: SizeRequest,
) -> SpaceState {
    if has_target(s, window) {
        scrolled(with_request(s, Request::Width { window: target_window(s, window), request }))
    } else {
        s
    }
}

/// Asks the geometry to change a height.
pub open spec fn request_height(
    s: SpaceState,
    window: Option<u64>,
    request: SizeRequest,
) -> SpaceState {
    if has_target(s, window) {
        scrolled(with_request(s, Request::Height { window: target_window(s, window), request }))
    } else {
        s
    }
}

/// Begins to resize a window, unless one is being resized already or the
/// window is fullscreen or maximized.
pub open spec fn resize_begin(s: SpaceState, id: u64, edges: ResizeEdge) -> (SpaceState, bool) {
    if s.resize is Some || !(s.columns[column_of(s.columns, id)].mode() is Normal) {
        (s, false)
    } else {
        (SpaceState { resize: Some((id, edges)), ..s }, true)
    }
}

/// The pointer moved while a window is being resized.
pub open spec fn resize_update(s: SpaceState, id: u64, dx: u64, dy: u64) -> (SpaceState, bool) {
    match s.resize {
        Some(r) => if r.0 == id {
            (scrolled(with_request(s, Request::Drag { window: id, dx, dy })), true)
        } else {
            (s, false)
        },
        None => (s, false),
    }
}

/// Ends the resize of a window, or any resize.
pub open spec fn resize_end(s: SpaceState, window: Option<u64>) -> SpaceState {
    match (s.resize, window) {
        (Some(r), Some(id)) => if r.0 == id {
            SpaceState { resize: None, ..s }
        } else {
            s
        },
        (Some(_), None) => SpaceState { resize: None, ..s },
        (None, _) => s,
    }
}

/// The tiles of all columns, left to right and top to bottom.
pub open spec fn all_tiles(columns: Seq<ColumnState>) -> Seq<Tile>
    decreases columns.len(),
{
    if columns.len() == 0 {
        Seq::empty()
    } else {
        all_tiles(columns.drop_last()) + columns.last().tiles
    }
}

/// The row with another tile at `t` in the column at `c`.
pub open spec fn with_tile_at(s: SpaceState, c: int, t: int, tile: Tile) -> SpaceState {
    let column = s.columns[c];
    SpaceState {
        columns: s.columns.update(
            c,
            ColumnState { tiles: column.tiles.update(t, tile), ..column },
        ),
        ..s
    }
}

/// Replaces the active tile.
pub open spec fn with_active_tile(s: SpaceState, tile: Tile) -> SpaceState {
    let column = s.active_column();
    SpaceState {
        columns: s.columns.update(
            s.active,
            ColumnState { tiles: column.tiles.update(column.active, tile), ..column },
        ),
        ..s
    }
}

/// Replaces the tile that holds a window.
pub open spec fn with_tile_of(s: SpaceState, id: u64, tile: Tile) -> SpaceState {
    let (c, t) = target_position(s, Some(id));
    let column = s.columns[c];
    SpaceState {
        columns: s.columns.update(
            c,
            ColumnState { tiles: column.tiles.update(t, tile), ..column },
        ),
        ..s
    }
}

/// Moves the focus down, or to the left from the bottom row.
pub open spec fn focus_down_or_left(s: SpaceState) -> SpaceState {
    if focus_down(s).1 {
        focus_down(s).0
    } else {
        focus_left(s).0
    }
}

/// Moves the focus down, or to the right from the bottom row.
pub open spec fn focus_down_or_right(s: SpaceState) -> SpaceState {
    if focus_down(s).1 {
        focus_down(s).0
    } else {
        focus_right(s).0
    }
}

/// Moves the focus up, or to the left from the top row.
pub open spec fn focus_up_or_left(s: SpaceState) -> SpaceState {
    if focus_up(s).1 {
        focus_up(s).0
    } else {
        focus_left(s).0
    }
}

/// Moves the focus up, or to the right from the top row.
pub open spec fn focus_up_or_right(s: SpaceState) -> SpaceState {
    if focus_up(s).1 {
        focus_up(s).0
    } else {
        focus_right(s).0
    }
}

/// Moves the focus to the first column.
pub open spec fn focus_first(s: SpaceState) -> SpaceState {
    focus_column_at(s, 0)
}

/// Moves the focus to the last column.
pub open spec fn focus_last(s: SpaceState) -> SpaceState {
    focus_column_at(s, s.columns.len() - 1)
}

/// Moves the focus to the column with a one-based index.
pub open spec fn focus_numbered(s: SpaceState, index: int) -> SpaceState {
    focus_column_at(s, clamped_index(index, s.columns.len()))
}

/// Moves the focus to the row with a one-based index.
pub open spec fn focus_numbered_row(s: SpaceState, index: int) -> SpaceState {
    focus_row_at(s, clamped_index(index, s.active_column().tiles.len()))
}

/// Moves the focus to the top row.
pub open spec fn focus_top(s: SpaceState) -> SpaceState {
    focus_row_at(s, 0)
}

/// Moves the focus to the bottom row.
pub open spec fn focus_bottom(s: SpaceState) -> SpaceState {
    focus_row_at(s, s.active_column().tiles.len() - 1)
}

/// Moves the active column one place to the left, if there is one.
pub open spec fn moved_left(s: SpaceState) -> (SpaceState, bool) {
    if s.active > 0 {
        (move_column_to(s, s.active - 1), true)
    } else {
        (s, false)
    }
}

/// Moves the active column one place to the right, if there is one.
pub open spec fn moved_right(s: SpaceState) -> (SpaceState, bool) {
    if s.active + 1 < s.columns.len() {
        (move_column_to(s, s.active + 1), true)
    } else {
        (s, false)
    }
}

/// Moves the active column to the first place.
pub open spec fn moved_to_first(s: SpaceState) -> SpaceState {
    move_column_to(s, 0)
}

/// Moves the active column to the last place.
pub open spec fn moved_to_last(s: SpaceState) -> SpaceState {
    move_column_to(s, s.columns.len() - 1)
}

/// Moves the active column to a one-based place.
pub open spec fn moved_to_place(s: SpaceState, index: int) -> SpaceState {
    move_column_to(s, clamped_index(index, s.columns.len()))
}

/// Moves the active window to a column of its own on the left.
pub open spec fn split_left(s: SpaceState) -> (SpaceState, bool) {
    split_active_window(s, true)
}

/// Moves the active window to a column of its own on the right.
pub open spec fn split_right(s: SpaceState) -> (SpaceState, bool) {
    split_active_window(s, false)
}

/// Moves the active window on top of the active tile of the left column.
pub open spec fn overlap_left(s: SpaceState) -> (SpaceState, bool) {
    overlap_neighbor_column(s, true)
}

/// Moves the active window on top of the active tile of the right column.
pub open spec fn overlap_right(s: SpaceState) -> (SpaceState, bool) {
    overlap_neighbor_column(s, false)
}

/// Moves the active window on top of the tile above.
pub open spec fn overlap_above(s: SpaceState) -> (SpaceState, bool) {
    overlap_neighbor_row(s, true)
}

/// Moves the active window on top of the tile below.
pub open spec fn overlap_below(s: SpaceState) -> (SpaceState, bool) {
    overlap_neighbor_row(s, false)
}

/// Moves the active window to a row of its own above its tile.
pub open spec fn split_above(s: SpaceState) -> (SpaceState, bool) {
    split_active_row(s, true)
}

/// Moves the active window to a row of its own below its tile.
pub open spec fn split_below(s: SpaceState) -> (SpaceState, bool) {
    split_active_row(s, false)
}

/// The active column shows its tiles the other way.
pub open spec fn tabbed_toggled(s: SpaceState) -> SpaceState {
    set_column_display(
        s,
        if s.active_column().display is Normal {
            ColumnDisplay::Tabbed
        } else {
            ColumnDisplay::Normal
        },
    )
}

/// The active column spans the whole width, or doesn't any more.
pub open spec fn width_toggled(s: SpaceState) -> SpaceState {
    if s.columns.len() == 0 {
        s
    } else {
        with_column(
            s,
            s.active,
            ColumnState { full_width: !s.active_column().full_width, ..s.active_column() },
        )
    }
}

/// Asks the geometry to center a window.
pub open spec fn center_requested(s: SpaceState, window: Option<u64>) -> SpaceState {
    if has_target(s, window) {
        scrolled(with_request(s, Request::Center { window: target_window(s, window) }))
    } else {
        s
    }
}

} // verus!
