//! Panels pinned to the left and right edges of the working area.
//!
//! A strip is a row of columns that never scrolls: after every change of its
//! contents or its focus the block of columns is put flush against the strip's
//! edge again. Its *inner edge* is the one that faces the carousel between the
//! panels: the last column of a left strip, the first one of a right strip.

use vstd::prelude::*;
use crate::ipc::SizeChange;
use crate::layout::geometry::{ResizeEdge, ViewGeometry};
use crate::layout::row::{
    activate_window, all_tiles, column_of, consume_into_column, consume_or_expel_left,
    consume_or_expel_right, expel_from_column, focus_down, focus_up, focused_statically,
    insert_column, move_to_neighbor_row, remove_column, remove_tile_at, remove_window, removed_tile,
    removed_window, request_height, request_width, resize_begin, resize_end, resize_update,
    set_fullscreen, set_maximized, swap_window, width_reported, with_active_tile, with_request,
    with_tile_at, Motion, Request, ScrollDirection, SizeRequest, SpaceState, ViewAnchor,
};
use crate::layout::scrolling::ScrollingSpace;
use crate::layout::tile::{
    single_tile_column, Column, ColumnState, ColumnWidth, RemovedTile, Tile, Window,
};

verus! {

/// The edge of the working area that a strip is anchored to.
#[derive(Debug, Clone, Copy, PartialEq, Eq, Structural)]
pub enum FixedSide {
    Left,
    Right,
}

/// How a strip is drawn.
#[derive(Debug, Clone, Copy, PartialEq, Eq, Structural)]
pub struct StripRender {
    /// The edge that the columns are flush with.
    pub anchor: ViewAnchor,
    /// Whether the active tile gets a focus ring.
    pub focus_ring: bool,
}

/// The state of a [`FixedStrip`].
pub struct StripState {
    pub side: FixedSide,
    pub row: SpaceState,
}

/// How the view of a strip rests.
pub open spec fn edge_anchor(side: FixedSide) -> ViewAnchor {
    match side {
        FixedSide::Left => ViewAnchor::LeftEdge,
        FixedSide::Right => ViewAnchor::RightEdge,
    }
}

/// A row with its view put flush against the edge.
pub open spec fn pinned(side: FixedSide, row: SpaceState) -> SpaceState {
    SpaceState { anchor: edge_anchor(side), ..row }
}

/// The column of a strip that faces the carousel, if there is one.
pub open spec fn inner_edge(s: StripState) -> Option<int> {
    if s.row.columns.len() == 0 {
        None
    } else {
        match s.side {
            FixedSide::Left => Some(s.row.columns.len() - 1),
            FixedSide::Right => Some(0),
        }
    }
}

/// Where a column goes that is to face the carousel.
pub open spec fn inner_edge_insert(s: StripState) -> int {
    match s.side {
        FixedSide::Left => s.row.columns.len() as int,
        FixedSide::Right => 0,
    }
}

impl StripState {
    /// The row is in order and flush with its edge.
    pub open spec fn wf(self) -> bool {
        &&& self.row.wf()
        &&& self.row.anchor == edge_anchor(self.side)
    }

    /// The strip after a change to its row.
    pub open spec fn with_row(self, row: SpaceState) -> StripState {
        StripState { row: pinned(self.side, row), ..self }
    }

    pub open spec fn holds(self, id: u64) -> bool {
        self.row.holds(id)
    }

    pub open spec fn is_empty(self) -> bool {
        self.row.columns.len() == 0
    }
}

/// Moves the focus one column over.
pub open spec fn strip_focus_left(s: StripState) -> (StripState, bool) {
    if s.row.active == 0 {
        (s, false)
    } else {
        (s.with_row(focused_statically(s.row, s.row.active - 1)), true)
    }
}

/// Moves the focus one column over.
pub open spec fn strip_focus_right(s: StripState) -> (StripState, bool) {
    if s.row.active + 1 >= s.row.columns.len() {
        (s, false)
    } else {
        (s.with_row(focused_statically(s.row, s.row.active + 1)), true)
    }
}

/// Moves the focus to the column that faces the carousel.
pub open spec fn strip_focus_innermost(s: StripState) -> (StripState, bool) {
    match inner_edge(s) {
        Some(idx) => (s.with_row(focused_statically(s.row, idx)), true),
        None => (s, false),
    }
}

/// Adds a column that faces the carousel and gets the focus.
pub open spec fn strip_add_column(s: StripState, column: ColumnState) -> StripState {
    let idx = inner_edge_insert(s);
    s.with_row(focused_statically(insert_column(s.row, idx, column, false), idx))
}

/// A strip of columns pinned to one edge of the working area.
#[derive(Debug)]
pub struct FixedStrip {
    side: FixedSide,
    inner: ScrollingSpace,
}

impl View for FixedStrip {
    type V = StripState;

    closed spec fn view(&self) -> StripState {
        StripState { side: self.side, row: self.inner@ }
    }
}

impl FixedStrip {
    pub fn new(side: FixedSide, geometry: ViewGeometry) -> (r: Self)
        ensures
            r@.wf(),
            r@.side == side,
            r@.row.columns == Seq::<ColumnState>::empty(),
            r@.row.requests == Seq::<Request>::empty(),
            r@.row.resize is None,
            r@.row.guest is None,
            r@.row.geometry == geometry,
            r@.row.motion == (Motion { animations: false, transitions: false }),
            !r@.row.returns_left,
    {
        let mut r = FixedStrip { side, inner: ScrollingSpace::new(geometry) };
        r.repin();
        r
    }

    /// Puts the block of columns flush against the strip's edge.
    fn repin(&mut self)
        ensures
            final(self)@ == old(self)@.with_row(old(self)@.row),
    {
        self.inner.pin_columns_to_edge(self.side == FixedSide::Right);
    }

    /// The strip is now shown on an output like this.
    pub fn update_config(&mut self, geometry: ViewGeometry)
        requires
            old(self)@.wf(),
        ensures
            final(self)@ == old(self)@.with_row(SpaceState { geometry, ..old(self)@.row }),
            final(self)@.wf(),
    {
        self.inner.update_config(geometry);
        self.repin();
    }

    pub fn side(&self) -> (r: FixedSide)
        ensures
            r == self@.side,
    {
        self.side
    }

    pub fn is_empty(&self) -> (r: bool)
        ensures
            r == self@.is_empty(),
    {
        self.inner.is_empty()
    }

    /// Index of the column at the inner edge.
    fn inner_edge_idx(&self) -> (r: Option<usize>)
        ensures
            match r {
                Some(i) => inner_edge(self@) == Some(i as int),
                None => inner_edge(self@) is None,
            },
    {
        let n: usize = self.inner.column_count();
        if n == 0 {
            return None;
        }
        Some(match self.side {
            FixedSide::Left => n - 1,
            FixedSide::Right => 0,
        })
    }

    /// Index at which a new column ends up at the inner edge.
    fn inner_edge_insert_idx(&self) -> (r: usize)
        ensures
            r == inner_edge_insert(self@),
    {
        match self.side {
            FixedSide::Left => self.inner.column_count(),
            FixedSide::Right => 0,
        }
    }

    /// Moves the focus one column to the left without scrolling.
    pub fn focus_left(&mut self) -> (r: bool)
        requires
            old(self)@.wf(),
        ensures
            (final(self)@, r) == strip_focus_left(old(self)@),
            final(self)@.wf(),
    {
        let idx: usize = self.inner.active_column_index();
        if idx == 0 {
            return false;
        }
        self.inner.set_active_column_idx_static(idx - 1);
        self.repin();
        true
    }

    /// Moves the focus one column to the right without scrolling.
    pub fn focus_right(&mut self) -> (r: bool)
        requires
            old(self)@.wf(),
        ensures
            (final(self)@, r) == strip_focus_right(old(self)@),
            final(self)@.wf(),
    {
        let idx: usize = self.inner.active_column_index();
        let n: usize = self.inner.column_count();
        if n == 0 || idx + 1 >= n {
            return false;
        }
        self.inner.set_active_column_idx_static(idx + 1);
        self.repin();
        true
    }

    /// Moves the focus one row up in the active column.
    pub fn focus_up(&mut self) -> (r: bool)
        requires
            old(self)@.wf(),
        ensures
            r == focus_up(old(self)@.row).1,
            final(self)@ == old(self)@.with_row(focus_up(old(self)@.row).0),
            final(self)@.wf(),
    {
        let moved = self.inner.focus_up();
        self.repin();
        moved
    }

    /// Moves the focus one row down in the active column.
    pub fn focus_down(&mut self) -> (r: bool)
        requires
            old(self)@.wf(),
        ensures
            r == focus_down(old(self)@.row).1,
            final(self)@ == old(self)@.with_row(focus_down(old(self)@.row).0),
            final(self)@.wf(),
    {
        let moved = self.inner.focus_down();
        self.repin();
        moved
    }

    /// The window under a point, which `hit` is for the columns of the strip.
    /// An empty strip has none.
    pub fn window_under(&self, hit: Option<u64>) -> (r: Option<u64>)
        ensures
            r == (if self@.is_empty() {
                None
            } else {
                hit
            }),
    {
        if self.is_empty() {
            return None;
        }
        hit
    }

    /// Moves the focus to the column at the inner edge.
    pub fn focus_innermost(&mut self) -> (r: bool)
        requires
            old(self)@.wf(),
        ensures
            (final(self)@, r) == strip_focus_innermost(old(self)@),
            final(self)@.wf(),
    {
        match self.inner_edge_idx() {
            Some(idx) => {
                self.inner.set_active_column_idx_static(idx);
                self.repin();
                true
            },
            None => false,
        }
    }

    pub fn active_window(&self) -> (r: Option<&Window>)
        requires
            self@.wf(),
        ensures
            r is None <==> self@.is_empty(),
            r matches Some(window) ==> *window == self@.row.active_tile().window,
    {
        self.inner.active_window()
    }

    pub fn active_tile_mut(&mut self) -> (r: Option<&mut Tile>)
        requires
            old(self)@.wf(),
        ensures
            match r {
                Some(tile) => {
                    &&& !old(self)@.is_empty()
                    &&& *tile == old(self)@.row.active_tile()
                    &&& final(self)@ == (StripState {
                        row: with_active_tile(old(self)@.row, *final(tile)),
                        ..old(self)@
                    })
                },
                None => old(self)@.is_empty() && final(self)@ == old(self)@,
            },
    {
        self.inner.active_tile_mut()
    }

    pub fn active_window_mut(&mut self) -> (r: Option<&mut Window>)
        requires
            old(self)@.wf(),
        ensures
            match r {
                Some(window) => {
                    &&& !old(self)@.is_empty()
                    &&& *window == old(self)@.row.active_tile().window
                    &&& final(self)@ == (StripState {
                        row: with_active_tile(
                            old(self)@.row,
                            Tile { window: *final(window), ..old(self)@.row.active_tile() },
                        ),
                        ..old(self)@
                    })
                },
                None => old(self)@.is_empty() && final(self)@ == old(self)@,
            },
    {
        match self.inner.active_tile_mut() {
            Some(tile) => Some(&mut tile.window),
            None => None,
        }
    }

    /// Moves the focus to a window, if it is in this strip.
    pub fn activate_window(&mut self, id: u64) -> (r: bool)
        requires
            old(self)@.wf(),
        ensures
            r == old(self)@.holds(id),
            final(self)@ == (if r {
                old(self)@.with_row(activate_window(old(self)@.row, id))
            } else {
                old(self)@
            }),
            final(self)@.wf(),
    {
        let success = self.inner.activate_window(id);
        if success {
            self.repin();
        }
        success
    }

    /// Whether the window is in this strip, visible or hidden beneath another.
    pub fn has_window(&self, id: u64) -> (r: bool)
        ensures
            r == self@.holds(id),
    {
        self.inner.column_with_window(id).is_some()
    }

    /// Removes a window that is in this strip.
    pub fn remove_tile(&mut self, id: u64) -> (r: RemovedTile)
        requires
            old(self)@.wf(),
            old(self)@.holds(id),
        ensures
            r == removed_window(old(self)@.row, id),
            final(self)@ == old(self)@.with_row(remove_window(old(self)@.row, id)),
            final(self)@.wf(),
    {
        let removed = self.inner.remove_tile(id);
        self.repin();
        removed
    }

    /// Removes the focused tile, if there is one.
    pub fn remove_active_tile(&mut self) -> (r: Option<RemovedTile>)
        requires
            old(self)@.wf(),
        ensures
            r is None <==> old(self)@.is_empty(),
            r is None ==> final(self)@ == old(self)@,
            r matches Some(removed) ==> {
                let c = old(self)@.row.active;
                let t = old(self)@.row.active_column().active;
                &&& removed == removed_tile(old(self)@.row, c, t)
                &&& final(self)@ == old(self)@.with_row(remove_tile_at(old(self)@.row, c, t))
            },
            final(self)@.wf(),
    {
        let removed = self.inner.remove_active_tile();
        if removed.is_some() {
            self.repin();
        }
        removed
    }

    /// Removes the focused column, if there is one.
    pub fn remove_active_column(&mut self) -> (r: Option<Column>)
        requires
            old(self)@.wf(),
        ensures
            r is None <==> old(self)@.is_empty(),
            r is None ==> final(self)@ == old(self)@,
            r matches Some(column) ==> {
                &&& column@ == old(self)@.row.active_column()
                &&& final(self)@ == old(self)@.with_row(
                    remove_column(old(self)@.row, old(self)@.row.active),
                )
            },
            final(self)@.wf(),
    {
        let column = self.inner.remove_active_column();
        if column.is_some() {
            self.repin();
        }
        column
    }

    /// Passes on that the client acknowledged a configure, if the window is in
    /// this strip.
    pub fn update_window(&mut self, id: u64, serial: Option<u32>) -> (r: bool)
        requires
            old(self)@.wf(),
        ensures
            r == old(self)@.holds(id),
            final(self)@ == (if r {
                old(self)@.with_row(
                    with_request(old(self)@.row, Request::Update { window: id, serial }),
                )
            } else {
                old(self)@
            }),
            final(self)@.wf(),
    {
        if !self.has_window(id) {
            return false;
        }
        self.inner.update_window(id, serial);
        self.repin();
        true
    }

    pub fn set_window_width(&mut self, window: Option<u64>, change: SizeChange)
        requires
            old(self)@.wf(),
            window matches Some(id) ==> old(self)@.holds(id),
        ensures
            final(self)@ == old(self)@.with_row(
                request_width(old(self)@.row, window, SizeRequest::Change(change)),
            ),
            final(self)@.wf(),
    {
        self.inner.request_width(window, SizeRequest::Change(change));
        self.repin();
    }

    pub fn set_window_height(&mut self, window: Option<u64>, change: SizeChange)
        requires
            old(self)@.wf(),
            window matches Some(id) ==> old(self)@.holds(id),
        ensures
            final(self)@ == old(self)@.with_row(
                request_height(old(self)@.row, window, SizeRequest::Change(change)),
            ),
            final(self)@.wf(),
    {
        self.inner.request_height(window, SizeRequest::Change(change));
        self.repin();
    }

    pub fn reset_window_height(&mut self, window: Option<u64>)
        requires
            old(self)@.wf(),
            window matches Some(id) ==> old(self)@.holds(id),
        ensures
            final(self)@ == old(self)@.with_row(
                request_height(old(self)@.row, window, SizeRequest::Reset),
            ),
            final(self)@.wf(),
    {
        self.inner.request_height(window, SizeRequest::Reset);
        self.repin();
    }

    pub fn toggle_window_width(&mut self, window: Option<u64>, forwards: bool)
        requires
            old(self)@.wf(),
            window matches Some(id) ==> old(self)@.holds(id),
        ensures
            final(self)@ == old(self)@.with_row(
                request_width(old(self)@.row, window, SizeRequest::Preset { forwards }),
            ),
            final(self)@.wf(),
    {
        self.inner.request_width(window, SizeRequest::Preset { forwards });
        self.repin();
    }

    pub fn toggle_window_height(&mut self, window: Option<u64>, forwards: bool)
        requires
            old(self)@.wf(),
            window matches Some(id) ==> old(self)@.holds(id),
        ensures
            final(self)@ == old(self)@.with_row(
                request_height(old(self)@.row, window, SizeRequest::Preset { forwards }),
            ),
            final(self)@.wf(),
    {
        self.inner.request_height(window, SizeRequest::Preset { forwards });
        self.repin();
    }

    pub fn set_fullscreen(&mut self, id: u64, is_fullscreen: bool) -> (r: bool)
        requires
            old(self)@.wf(),
            old(self)@.holds(id),
        ensures
            r == (old(self)@.row.columns[column_of(old(self)@.row.columns, id)].fullscreen
                != is_fullscreen),
            final(self)@ == old(self)@.with_row(
                set_fullscreen(old(self)@.row, id, is_fullscreen),
            ),
            final(self)@.wf(),
    {
        let rv = self.inner.set_fullscreen(id, is_fullscreen);
        self.repin();
        rv
    }

    pub fn set_maximized(&mut self, id: u64, maximize: bool) -> (r: bool)
        requires
            old(self)@.wf(),
            old(self)@.holds(id),
        ensures
            r == (old(self)@.row.columns[column_of(old(self)@.row.columns, id)].maximized
                != maximize),
            final(self)@ == old(self)@.with_row(set_maximized(old(self)@.row, id, maximize)),
            final(self)@.wf(),
    {
        let rv = self.inner.set_maximized(id, maximize);
        self.repin();
        rv
    }

    pub fn interactive_resize_begin(&mut self, id: u64, edges: ResizeEdge) -> (r: bool)
        requires
            old(self)@.wf(),
            old(self)@.holds(id),
        ensures
            r == resize_begin(old(self)@.row, id, edges).1,
            final(self)@ == (StripState {
                row: resize_begin(old(self)@.row, id, edges).0,
                ..old(self)@
            }),
            final(self)@.wf(),
    {
        self.inner.interactive_resize_begin(id, edges)
    }

    pub fn interactive_resize_update(&mut self, id: u64, dx: u64, dy: u64) -> (r: bool)
        requires
            old(self)@.wf(),
        ensures
            r == resize_update(old(self)@.row, id, dx, dy).1,
            final(self)@ == (if r {
                old(self)@.with_row(resize_update(old(self)@.row, id, dx, dy).0)
            } else {
                old(self)@
            }),
            final(self)@.wf(),
    {
        let rv = self.inner.interactive_resize_update(id, dx, dy);
        if rv {
            self.repin();
        }
        rv
    }

    pub fn interactive_resize_end(&mut self, window: Option<u64>)
        requires
            old(self)@.wf(),
        ensures
            final(self)@ == old(self)@.with_row(resize_end(old(self)@.row, window)),
            final(self)@.wf(),
    {
        self.inner.interactive_resize_end(window);
        self.repin();
    }

    /// Animates the disappearance of a window that is in this strip.
    pub fn start_close_animation_for_window(&mut self, id: u64)
        requires
            old(self)@.wf(),
            old(self)@.holds(id),
        ensures
            final(self)@ == old(self)@.with_row(
                with_request(old(self)@.row, Request::Close { window: id }),
            ),
            final(self)@.wf(),
    {
        self.inner.request(Request::Close { window: id });
        self.repin();
    }

    /// Animates the appearance of a window, if it is in this strip.
    pub fn start_open_animation(&mut self, id: u64) -> (r: bool)
        requires
            old(self)@.wf(),
        ensures
            r == old(self)@.holds(id),
            final(self)@ == (if r {
                StripState {
                    row: with_request(old(self)@.row, Request::Open { window: id }),
                    ..old(self)@
                }
            } else {
                old(self)@
            }),
            final(self)@.wf(),
    {
        self.inner.start_open_animation(id)
    }

    /// Adds a tile in a column of its own to the right of the one that holds
    /// `right_of`, which is in this strip.
    pub fn add_tile_right_of(
        &mut self,
        right_of: u64,
        tile: Tile,
        activate: bool,
        width: ColumnWidth,
        is_full_width: bool,
    )
        requires
            old(self)@.wf(),
            old(self)@.holds(right_of),
        ensures
            final(self)@ == old(self)@.with_row(
                insert_column(
                    old(self)@.row,
                    column_of(old(self)@.row.columns, right_of) + 1,
                    single_tile_column(tile, width, is_full_width),
                    activate,
                ),
            ),
            final(self)@.wf(),
    {
        self.inner.add_tile_right_of(right_of, tile, activate, width, is_full_width);
        self.repin();
    }

    pub fn consume_or_expel_window_left(&mut self, window: Option<u64>)
        requires
            old(self)@.wf(),
            window matches Some(id) ==> old(self)@.holds(id),
        ensures
            final(self)@ == old(self)@.with_row(consume_or_expel_left(old(self)@.row, window)),
            final(self)@.wf(),
    {
        self.inner.consume_or_expel_window_left(window);
        self.repin();
    }

    pub fn consume_or_expel_window_right(&mut self, window: Option<u64>)
        requires
            old(self)@.wf(),
            window matches Some(id) ==> old(self)@.holds(id),
        ensures
            final(self)@ == old(self)@.with_row(consume_or_expel_right(old(self)@.row, window)),
            final(self)@.wf(),
    {
        self.inner.consume_or_expel_window_right(window);
        self.repin();
    }

    pub fn consume_into_column(&mut self)
        requires
            old(self)@.wf(),
        ensures
            final(self)@ == old(self)@.with_row(consume_into_column(old(self)@.row)),
            final(self)@.wf(),
    {
        self.inner.consume_into_column();
        self.repin();
    }

    pub fn expel_from_column(&mut self)
        requires
            old(self)@.wf(),
        ensures
            final(self)@ == old(self)@.with_row(expel_from_column(old(self)@.row)),
            final(self)@.wf(),
    {
        self.inner.expel_from_column();
        self.repin();
    }

    pub fn swap_window_in_direction(&mut self, direction: ScrollDirection)
        requires
            old(self)@.wf(),
        ensures
            final(self)@ == old(self)@.with_row(swap_window(old(self)@.row, direction)),
            final(self)@.wf(),
    {
        self.inner.swap_window_in_direction(direction);
        self.repin();
    }

    /// Moves the focused tile to the bottom of the neighbouring column. Returns
    /// false where there is none on that side.
    pub fn move_active_neighbor_as_new_row(&mut self, to_left: bool) -> (r: bool)
        requires
            old(self)@.wf(),
        ensures
            r == move_to_neighbor_row(old(self)@.row, to_left).1,
            final(self)@ == old(self)@.with_row(
                move_to_neighbor_row(old(self)@.row, to_left).0,
            ),
            final(self)@.wf(),
    {
        let result = self.inner.move_active_window_to_neighbor_column_as_new_row(to_left);
        self.repin();
        result
    }

    /// Whether the focused column is the one that faces the carousel.
    pub fn focused_column_is_at_inner_edge(&self) -> (r: bool)
        ensures
            r == (inner_edge(self@) == Some(self@.row.active)),
    {
        match self.inner_edge_idx() {
            Some(idx) => idx == self.inner.active_column_index(),
            None => false,
        }
    }

    /// Adds a column at the inner edge and moves the focus to it.
    pub fn add_column_at_inner_edge(&mut self, column: Column)
        requires
            old(self)@.wf(),
            column@.wf(),
        ensures
            final(self)@ == strip_add_column(old(self)@, column@),
            final(self)@.wf(),
    {
        let insert_idx: usize = self.inner_edge_insert_idx();
        self.inner.add_column(Some(insert_idx), column, false);
        self.inner.set_active_column_idx_static(insert_idx);
        self.repin();
    }

    /// Adds a tile in a column of its own at the inner edge and moves the focus
    /// to it.
    pub fn add_tile_at_inner_edge(&mut self, tile: Tile, width: ColumnWidth, is_full_width: bool)
        requires
            old(self)@.wf(),
        ensures
            final(self)@ == strip_add_column(
                old(self)@,
                single_tile_column(tile, width, is_full_width),
            ),
            final(self)@.wf(),
    {
        let insert_idx: usize = self.inner_edge_insert_idx();
        self.inner.add_tile(Some(insert_idx), tile, false, width, is_full_width);
        self.inner.set_active_column_idx_static(insert_idx);
        self.repin();
    }

    /// Removes the column at the inner edge, if there is one.
    pub fn remove_innermost_column(&mut self) -> (r: Option<Column>)
        requires
            old(self)@.wf(),
        ensures
            r is None <==> old(self)@.is_empty(),
            r is None ==> final(self)@ == old(self)@,
            r matches Some(column) ==> {
                let idx = inner_edge(old(self)@)->0;
                &&& column@ == old(self)@.row.columns[idx]
                &&& final(self)@ == old(self)@.with_row(remove_column(old(self)@.row, idx))
            },
            final(self)@.wf(),
    {
        match self.inner_edge_idx() {
            Some(idx) => {
                let column = self.inner.remove_column_by_idx(idx);
                self.repin();
                Some(column)
            },
            None => None,
        }
    }

    /// The columns, left to right.
    pub fn columns(&self) -> (r: &Vec<Column>)
        ensures
            r@.len() == self@.row.columns.len(),
            forall|i: int| 0 <= i < r@.len() ==> (#[trigger] r@[i])@ == self@.row.columns[i],
    {
        self.inner.columns()
    }

    /// The tiles, left to right and top to bottom.
    pub fn tiles(&self) -> (r: Vec<&Tile>)
        ensures
            r@.len() == all_tiles(self@.row.columns).len(),
            forall|i: int| 0 <= i < r@.len() ==> *(#[trigger] r@[i]) == all_tiles(
                self@.row.columns,
            )[i],
    {
        self.inner.tiles()
    }

    /// The tile at `t` in the column at `c`, if there is one.
    pub fn tiles_mut(&mut self, c: usize, t: usize) -> (r: Option<&mut Tile>)
        requires
            old(self)@.wf(),
        ensures
            match r {
                Some(tile) => {
                    &&& c < old(self)@.row.columns.len()
                    &&& t < old(self)@.row.columns[c as int].tiles.len()
                    &&& *tile == old(self)@.row.columns[c as int].tiles[t as int]
                    &&& final(self)@ == (StripState {
                        row: with_tile_at(old(self)@.row, c as int, t as int, *final(tile)),
                        ..old(self)@
                    })
                },
                None => {
                    &&& c >= old(self)@.row.columns.len() || t >= old(
                        self,
                    )@.row.columns[c as int].tiles.len()
                    &&& final(self)@ == old(self)@
                },
            },
    {
        self.inner.tiles_mut(c, t)
    }

    pub fn advance_animations(&mut self)
        requires
            old(self)@.wf(),
        ensures
            final(self)@ == (StripState {
                row: with_request(old(self)@.row, Request::Advance),
                ..old(self)@
            }),
            final(self)@.wf(),
    {
        self.inner.request(Request::Advance);
    }

    /// Whether anything in the strip was last reported to be animated.
    pub fn are_animations_ongoing(&self) -> (r: bool)
        ensures
            r == self@.row.motion.animations,
    {
        self.inner.motion().animations
    }

    pub fn update_render_elements(&mut self, is_active: bool)
        requires
            old(self)@.wf(),
        ensures
            final(self)@ == (StripState {
                row: with_request(old(self)@.row, Request::Prepare { is_active }),
                ..old(self)@
            }),
            final(self)@.wf(),
    {
        self.inner.request(Request::Prepare { is_active });
    }

    /// Tells the windows about their state.
    pub fn refresh(&mut self, is_active: bool, is_focused: bool)
        requires
            old(self)@.wf(),
        ensures
            final(self)@ == (StripState {
                row: with_request(old(self)@.row, Request::Refresh { is_active, is_focused }),
                ..old(self)@
            }),
            final(self)@.wf(),
    {
        self.inner.request(Request::Refresh { is_active, is_focused });
    }

    /// How to draw the strip; an empty one is not drawn.
    pub fn render(&self, focus_ring: bool) -> (r: Option<StripRender>)
        requires
            self@.wf(),
        ensures
            r == (if self@.is_empty() {
                None
            } else {
                Some(StripRender { anchor: edge_anchor(self@.side), focus_ring })
            }),
    {
        if self.is_empty() {
            return None;
        }
        Some(StripRender { anchor: self.inner.anchor(), focus_ring })
    }

    /// The geometry gave a width to the column of a window.
    pub fn report_width(&mut self, window: u64, width: ColumnWidth, is_full_width: bool)
        requires
            old(self)@.wf(),
        ensures
            final(self)@ == (StripState {
                row: width_reported(old(self)@.row, window, width, is_full_width),
                ..old(self)@
            }),
            final(self)@.wf(),
    {
        self.inner.report_width(window, width, is_full_width);
    }

    /// Takes note of what the geometry has in motion.
    pub fn report_motion(&mut self, motion: Motion)
        requires
            old(self)@.wf(),
        ensures
            final(self)@ == (StripState {
                row: (SpaceState { motion, ..old(self)@.row }),
                ..old(self)@
            }),
            final(self)@.wf(),
    {
        self.inner.report_motion(motion);
    }

    /// Hands the work over to the geometry, oldest first.
    pub fn take_requests(&mut self) -> (r: Vec<Request>)
        requires
            old(self)@.wf(),
        ensures
            r@ == old(self)@.row.requests,
            final(self)@ == (StripState {
                row: (SpaceState { requests: Seq::empty(), ..old(self)@.row }),
                ..old(self)@
            }),
            final(self)@.wf(),
    {
        self.inner.take_requests()
    }

    /// Whether the row is in order and flush with the strip's edge.
    pub fn verify_invariants(&self) -> (r: bool)
        ensures
            r == self@.wf(),
    {
        let edge = match self.side {
            FixedSide::Left => ViewAnchor::LeftEdge,
            FixedSide::Right => ViewAnchor::RightEdge,
        };
        self.inner.verify_invariants() && self.inner.anchor() == edge
    }
}

} // verus!
