//! Columns side by side, one of them active.

use vstd::prelude::*;
use crate::ipc::ColumnDisplay;
use crate::layout::geometry::{ResizeEdge, ViewGeometry};
use crate::layout::reorder::{
    exchanged_keeps_items, in_order, is_first, is_listed, listed_moved, place_in, rank, reordered,
};
use crate::layout::row::{
    activate_column, activate_tile, activate_window, all_tiles, center_requested, clamped_index,
    column_from, column_of, column_of_finds_the_first, column_with, column_without,
    consume_into_column, consume_or_expel_left, consume_or_expel_right, coverable_idx,
    expel_from_column, expel_tile, focus_bottom, focus_down, focus_down_or_left,
    focus_down_or_right, focus_first, focus_last, focus_left, focus_numbered, focus_numbered_row,
    focus_right, focus_top, focus_up, focus_up_or_left, focus_up_or_right, focused_statically,
    has_target, insert_column, insert_tile, leaving_tile, made_coverable, move_column_to, move_down,
    move_to_neighbor_row, move_up, moved_left, moved_on, moved_right, moved_to_first, moved_to_last,
    moved_to_place, must_leave_to_cover, next_column_idx, overlap_above, overlap_below,
    overlap_left, overlap_neighbor_column, overlap_neighbor_row, overlap_right, overlapped,
    remove_column, remove_tile_at, remove_window, removed_tile, removed_window, request_height,
    request_width, resize_begin, resize_end, resize_update, resize_without_column, scrolled,
    set_column_display, set_fullscreen, set_maximized, split_above, split_active_row,
    split_active_window, split_below, split_left, split_right, stack_onto, swap_active_tile,
    swap_window, tabbed_toggled, target_position, target_window, tile_from, tile_of,
    tile_of_finds_the_first, width_reported, width_toggled, with_active_tile, with_column,
    with_request, with_tile_at, with_tile_of, with_width, without_active_window, without_guest,
    Guest, Motion, Request, ScrollDirection, SizeRequest, SpaceState, ViewAnchor,
};
use crate::layout::tile::{
    single_tile_column, Column, ColumnState, ColumnWidth, RemovedTile, Tile, Window,
};

verus! {

/// A row of columns with a focus.
#[derive(Debug)]
pub struct ScrollingSpace {
    columns: Vec<Column>,
    active_column_idx: usize,
    activate_prev_column_on_removal: bool,
    interactive_resize: Option<(u64, ResizeEdge)>,
    guest: Option<Guest>,
    anchor: ViewAnchor,
    requests: Vec<Request>,
    geometry: ViewGeometry,
    motion: Motion,
}

spec fn column_states(columns: Seq<Column>) -> Seq<ColumnState> {
    Seq::new(columns.len(), |i: int| columns[i]@)
}

proof fn lemma_update_states(columns: Seq<Column>, c: int)
    requires
        0 <= c < columns.len(),
    ensures
        forall|column: Column| column_states(#[trigger] columns.update(c, column))
            == column_states(columns).update(c, column@),
{
    assert forall|column: Column| column_states(#[trigger] columns.update(c, column))
        == column_states(columns).update(c, column@) by {
        assert(column_states(columns.update(c, column)) =~= column_states(columns).update(
            c,
            column@,
        ));
    }
}

/// Covering a neighbour leaves the columns, or all of them but the active one.
proof fn lemma_overlapped_columns(s: SpaceState, to_left: bool)
    requires
        s.wf(),
        overlapped(s, to_left).1,
    ensures
        ({
            let n = overlapped(s, to_left).0.columns.len();
            n == s.columns.len() || n == s.columns.len() - 1
        }),
        to_left ==> s.active > 0,
        !to_left ==> s.active + 1 < s.columns.len(),
{
}

/// An index in place of a number.
spec fn as_index(i: Option<usize>) -> Option<int> {
    match i {
        Some(i) => Some(i as int),
        None => None,
    }
}

impl View for ScrollingSpace {
    type V = SpaceState;

    closed spec fn view(&self) -> SpaceState {
        SpaceState {
            columns: column_states(self.columns@),
            active: self.active_column_idx as int,
            returns_left: self.activate_prev_column_on_removal,
            resize: self.interactive_resize,
            guest: self.guest,
            anchor: self.anchor,
            requests: self.requests@,
            geometry: self.geometry,
            motion: self.motion,
        }
    }
}

impl ScrollingSpace {
    pub fn new(geometry: ViewGeometry) -> (r: Self)
        ensures
            r@ == (SpaceState {
                columns: Seq::empty(),
                active: 0,
                returns_left: false,
                resize: None,
                guest: None,
                anchor: ViewAnchor::Carousel,
                requests: Seq::empty(),
                geometry,
                motion: Motion { animations: false, transitions: false },
            }),
            r@.wf(),
    {
        let r = ScrollingSpace {
            columns: Vec::new(),
            active_column_idx: 0,
            activate_prev_column_on_removal: false,
            interactive_resize: None,
            guest: None,
            anchor: ViewAnchor::Carousel,
            requests: Vec::new(),
            geometry,
            motion: Motion { animations: false, transitions: false },
        };
        assert(r@.columns =~= Seq::empty());
        r
    }

    pub fn is_empty(&self) -> (r: bool)
        ensures
            r == (self@.columns.len() == 0),
    {
        self.columns.len() == 0
    }

    pub fn column_count(&self) -> (r: usize)
        ensures
            r == self@.columns.len(),
    {
        self.columns.len()
    }

    pub fn active_column_index(&self) -> (r: usize)
        ensures
            r == self@.active,
    {
        self.active_column_idx
    }

    /// Index of the first column that holds the window, or `None`.
    pub fn column_with_window(&self, id: u64) -> (r: Option<usize>)
        ensures
            match r {
                Some(i) => self@.holds(id) && i == column_of(self@.columns, id),
                None => !self@.holds(id),
            },
    {
        let mut i: usize = 0;
        while i < self.columns.len()
            invariant
                i <= self.columns@.len(),
                forall|j: int| 0 <= j < i ==> !(#[trigger] self@.columns[j]).holds(id),
                column_of(self@.columns, id) == column_from(self@.columns, id, i as int),
            decreases self.columns@.len() - i,
        {
            assert(self@.columns[i as int] == self.columns@[i as int]@);
            if self.columns[i].contains(id) {
                return Some(i);
            }
            i += 1;
        }
        None
    }

    /// Shows the block of columns flush with one edge.
    pub fn pin_columns_to_edge(&mut self, right: bool)
        ensures
            final(self)@ == (SpaceState {
                anchor: if right {
                    ViewAnchor::RightEdge
                } else {
                    ViewAnchor::LeftEdge
                },
                ..old(self)@
            }),
    {
        self.anchor = if right {
            ViewAnchor::RightEdge
        } else {
            ViewAnchor::LeftEdge
        };
    }

    /// Makes a column active without scrolling to it.
    pub fn set_active_column_idx_static(&mut self, idx: usize)
        ensures
            final(self)@ == focused_statically(old(self)@, idx as int),
    {
        if self.active_column_idx != idx {
            self.guest = None;
        }
        self.active_column_idx = idx;
    }

    fn activate_column(&mut self, idx: usize)
        ensures
            final(self)@ == activate_column(old(self)@, idx as int),
    {
        self.anchor = ViewAnchor::Carousel;
        if self.active_column_idx != idx {
            self.active_column_idx = idx;
            self.activate_prev_column_on_removal = false;
            self.interactive_resize = None;
            self.guest = None;
        }
    }

    /// Ends to keep track of the window that moved into a column.
    pub fn forget_guest(&mut self)
        ensures
            final(self)@ == without_guest(old(self)@),
    {
        self.guest = None;
    }

    /// The geometry gave a width to the column of a window.
    pub fn report_width(&mut self, window: u64, width: ColumnWidth, is_full_width: bool)
        requires
            old(self)@.wf(),
        ensures
            final(self)@ == width_reported(old(self)@, window, width, is_full_width),
            final(self)@.wf(),
    {
        proof {
            column_of_finds_the_first(self@, window);
        }
        if let Some(c) = self.column_with_window(window) {
            self.set_width(c, width, is_full_width);
        }
    }

    fn set_width(&mut self, c: usize, width: ColumnWidth, is_full_width: bool)
        requires
            old(self)@.wf(),
            c < old(self)@.columns.len(),
        ensures
            final(self)@ == with_width(old(self)@, c as int, width, is_full_width),
            final(self)@.wf(),
    {
        assert(self@.columns[c as int].wf());
        self.columns[c].width = width;
        self.columns[c].is_full_width = is_full_width;
        proof {
            let before = old(self)@.columns;
            assert(self@.columns =~= before.update(
                c as int,
                ColumnState { width, full_width: is_full_width, ..before[c as int] },
            ));
        }
    }

    /// Settles the widths once a window moved on from the column that it came
    /// from.
    fn settle_move(
        &mut self,
        before: Option<Guest>,
        window: u64,
        from: (ColumnWidth, bool),
        left: Option<usize>,
        joined: Option<usize>,
    )
        requires
            old(self)@.wf(),
            left matches Some(c) ==> c < old(self)@.columns.len(),
            joined matches Some(c) ==> c < old(self)@.columns.len(),
        ensures
            final(self)@ == moved_on(
                old(self)@,
                before,
                window,
                from,
                as_index(left),
                as_index(joined),
            ),
            final(self)@.wf(),
    {
        let mut was_guest = false;
        if let Some(guest) = before {
            if guest.window == window {
                was_guest = true;
                if let Some(c) = left {
                    self.set_width(c, guest.width, guest.full_width);
                }
            }
        }
        match joined {
            Some(c) => {
                self.guest = Some(
                    Guest {
                        window,
                        width: self.columns[c].width,
                        full_width: self.columns[c].is_full_width,
                    },
                );
                self.requests.push(Request::Widen { window, width: from.0, full_width: from.1 });
            },
            None => {
                if was_guest {
                    self.guest = None;
                }
            },
        }
    }

    /// Adds a column at `idx`, or to the right of the active one.
    pub fn add_column(&mut self, idx: Option<usize>, column: Column, activate: bool)
        requires
            old(self)@.wf(),
            column@.wf(),
            idx matches Some(i) ==> i <= old(self)@.columns.len(),
        ensures
            final(self)@ == insert_column(
                old(self)@,
                match idx {
                    Some(i) => i as int,
                    None => next_column_idx(old(self)@),
                },
                column@,
                activate,
            ),
            final(self)@.wf(),
    {
        let was_empty = self.columns.len() == 0;
        let prev: usize = self.active_column_idx;
        let at: usize = match idx {
            Some(i) => i,
            None => if was_empty {
                0
            } else {
                prev + 1
            },
        };
        let ghost state = column@;
        self.columns.insert(at, column);
        proof {
            assert(self@.columns =~= old(self)@.columns.insert(at as int, state));
        }
        self.anchor = ViewAnchor::Carousel;
        if activate {
            self.activate_column(at);
            self.activate_prev_column_on_removal = !was_empty && at == prev + 1;
            self.guest = None;
        } else if !was_empty && at <= prev {
            self.active_column_idx = prev + 1;
        }
    }

    /// Adds a tile in a column of its own, at `idx` or to the right of the
    /// active column.
    pub fn add_tile(
        &mut self,
        idx: Option<usize>,
        tile: Tile,
        activate: bool,
        width: ColumnWidth,
        is_full_width: bool,
    )
        requires
            old(self)@.wf(),
            idx matches Some(i) ==> i <= old(self)@.columns.len(),
        ensures
            final(self)@ == insert_column(
                old(self)@,
                match idx {
                    Some(i) => i as int,
                    None => next_column_idx(old(self)@),
                },
                single_tile_column(tile, width, is_full_width),
                activate,
            ),
            final(self)@.wf(),
    {
        let column = Column::new_with_tile(tile, width, is_full_width);
        self.add_column(idx, column, activate);
    }

    /// Removes the column at `idx`.
    pub fn remove_column_by_idx(&mut self, idx: usize) -> (r: Column)
        requires
            old(self)@.wf(),
            idx < old(self)@.columns.len(),
        ensures
            r@ == old(self)@.columns[idx as int],
            final(self)@ == remove_column(old(self)@, idx as int),
            final(self)@.wf(),
    {
        let column = self.columns.remove(idx);
        proof {
            assert(self@.columns =~= old(self)@.columns.remove(idx as int));
        }
        self.anchor = ViewAnchor::Carousel;
        if let Some(resize) = self.interactive_resize {
            if column.contains(resize.0) {
                self.interactive_resize = None;
            }
        }
        let active: usize = self.active_column_idx;
        if let Some(guest) = self.guest {
            if idx == active || column.contains(guest.window) {
                self.guest = None;
            }
        }
        if idx < active {
            self.activate_prev_column_on_removal = false;
        }
        let n: usize = self.columns.len();
        if n == 0 {
            self.active_column_idx = 0;
        } else if idx < active {
            self.active_column_idx = active - 1;
        } else if idx == active && self.activate_prev_column_on_removal {
            if idx > 0 {
                self.activate_column(idx - 1);
            }
        } else {
            self.activate_column(if active < n { active } else { n - 1 });
        }
        column
    }

    /// Index of the first tile of the column at `c` that holds the window.
    fn tile_with_window(&self, c: usize, id: u64) -> (r: usize)
        requires
            c < self@.columns.len(),
            self@.columns[c as int].holds(id),
        ensures
            r == tile_of(self@.columns[c as int].tiles, id),
            r < self@.columns[c as int].tiles.len(),
    {
        let ghost tiles = self@.columns[c as int].tiles;
        let column = &self.columns[c];
        let n: usize = column.tiles.len();
        let mut i: usize = 0;
        proof {
            tile_of_finds_the_first(self@.columns[c as int], id);
        }
        while i < n
            invariant
                c < self@.columns.len(),
                column@ == self@.columns[c as int],
                tiles == column@.tiles,
                n == tiles.len(),
                i <= n,
                tile_of(tiles, id) < n,
                tile_of(tiles, id) == tile_from(tiles, id, i as int),
            decreases n - i,
        {
            if column.tiles[i].contains(id) {
                return i;
            }
            i += 1;
        }
        assert(false);
        0
    }

    /// Column and tile of the window, which must be in this row.
    fn position_of(&self, id: u64) -> (r: (usize, usize))
        requires
            self@.holds(id),
        ensures
            (r.0 as int, r.1 as int) == target_position(self@, Some(id)),
            r.0 < self@.columns.len(),
            r.1 < self@.columns[r.0 as int].tiles.len(),
            self@.columns[r.0 as int].tiles[r.1 as int].holds(id),
    {
        proof {
            column_of_finds_the_first(self@, id);
        }
        match self.column_with_window(id) {
            Some(c) => {
                let t: usize = self.tile_with_window(c, id);
                proof {
                    tile_of_finds_the_first(self@.columns[c as int], id);
                }
                (c, t)
            },
            None => {
                assert(false);
                (0, 0)
            },
        }
    }

    /// Column and tile of the window, or of the active one.
    fn target(&self, window: Option<u64>) -> (r: (usize, usize))
        requires
            self@.wf(),
            has_target(self@, window),
        ensures
            (r.0 as int, r.1 as int) == target_position(self@, window),
            r.0 < self@.columns.len(),
            r.1 < self@.columns[r.0 as int].tiles.len(),
    {
        match window {
            Some(id) => self.position_of(id),
            None => {
                let c: usize = self.active_column_idx;
                assert(self@.columns[c as int].wf());
                (c, self.columns[c].active_tile_idx)
            },
        }
    }

    /// Removes a tile, and its column with it where it is the last one.
    fn remove_tile_by_idx(&mut self, c: usize, t: usize) -> (r: RemovedTile)
        requires
            old(self)@.wf(),
            c < old(self)@.columns.len(),
            t < old(self)@.columns[c as int].tiles.len(),
        ensures
            r == removed_tile(old(self)@, c as int, t as int),
            final(self)@ == remove_tile_at(old(self)@, c as int, t as int),
            final(self)@.wf(),
    {
        assert(self@.columns[c as int].wf());
        if self.columns[c].tiles.len() == 1 {
            let mut column = self.remove_column_by_idx(c);
            let sizing = column.pending_sizing_mode();
            let mut tile = column.tiles.remove(t);
            tile.sizing = sizing;
            return RemovedTile {
                tile,
                width: column.width,
                is_full_width: column.is_full_width,
                is_floating: false,
            };
        }
        let sizing = self.columns[c].pending_sizing_mode();
        let width = self.columns[c].width;
        let is_full_width = self.columns[c].is_full_width;
        let active: usize = self.columns[c].active_tile_idx;
        let n: usize = self.columns[c].tiles.len();
        let mut tile = self.columns[c].tiles.remove(t);
        if t < active || active == n - 1 {
            self.columns[c].active_tile_idx = active - 1;
        }
        proof {
            assert(self@.columns[c as int] =~= column_without(
                old(self)@.columns[c as int],
                t as int,
            ));
            assert(self@.columns =~= old(self)@.columns.update(
                c as int,
                column_without(old(self)@.columns[c as int], t as int),
            ));
        }
        self.anchor = ViewAnchor::Carousel;
        if let Some(resize) = self.interactive_resize {
            if tile.contains(resize.0) {
                self.interactive_resize = None;
            }
        }
        if let Some(guest) = self.guest {
            if (self.active_column_idx == c && active == t) || tile.contains(guest.window) {
                self.guest = None;
            }
        }
        tile.sizing = sizing;
        RemovedTile { tile, width, is_full_width, is_floating: false }
    }

    /// Inserts a tile into the column at `c`, at row `t` or at the bottom.
    pub fn add_tile_to_column(&mut self, c: usize, t: Option<usize>, tile: Tile, activate: bool)
        requires
            old(self)@.wf(),
            c < old(self)@.columns.len(),
            t matches Some(i) ==> i <= old(self)@.columns[c as int].tiles.len(),
        ensures
            final(self)@ == insert_tile(
                old(self)@,
                c as int,
                match t {
                    Some(i) => i as int,
                    None => old(self)@.columns[c as int].tiles.len() as int,
                },
                tile,
                activate,
            ),
            final(self)@.wf(),
    {
        assert(self@.columns[c as int].wf());
        let n: usize = self.columns[c].tiles.len();
        let at: usize = match t {
            Some(i) => i,
            None => n,
        };
        let active: usize = self.columns[c].active_tile_idx;
        assert(active < n);
        let tabbed = self.columns[c].display == ColumnDisplay::Tabbed;
        self.columns[c].tiles.insert(at, tile);
        if activate {
            self.columns[c].active_tile_idx = at;
        } else if at <= active {
            self.columns[c].active_tile_idx = active + 1;
        }
        if !tabbed {
            self.columns[c].is_pending_fullscreen = false;
            self.columns[c].is_pending_maximized = false;
        }
        proof {
            let before = old(self)@.columns;
            assert(self@.columns[c as int] =~= column_with(
                before[c as int],
                at as int,
                tile,
                activate,
            ));
            assert(self@.columns =~= before.update(
                c as int,
                column_with(before[c as int], at as int, tile, activate),
            ));
        }
        self.anchor = ViewAnchor::Carousel;
        if activate {
            self.activate_column(c);
        }
    }

    /// Adds a tile in a column of its own to the right of the one that holds
    /// `right_of`.
    pub fn add_tile_right_of(
        &mut self,
        right_of: u64,
        tile: Tile,
        activate: bool,
        width: ColumnWidth,
        is_full_width: bool,
    )
        requires
            old(self)@.wf(),
            old(self)@.holds(right_of),
        ensures
            final(self)@ == insert_column(
                old(self)@,
                column_of(old(self)@.columns, right_of) + 1,
                single_tile_column(tile, width, is_full_width),
                activate,
            ),
            final(self)@.wf(),
    {
        let (c, _t) = self.position_of(right_of);
        assert(c < self.columns.len());
        self.add_tile(Some(c + 1), tile, activate, width, is_full_width);
    }

    /// Removes a window from the row.
    pub fn remove_tile(&mut self, id: u64) -> (r: RemovedTile)
        requires
            old(self)@.wf(),
            old(self)@.holds(id),
        ensures
            r == removed_window(old(self)@, id),
            final(self)@ == remove_window(old(self)@, id),
            final(self)@.wf(),
    {
        let (c, t) = self.position_of(id);
        assert(self@.columns[c as int].wf());
        let alone = self.columns[c].tiles[t].window.id == id
            && self.columns[c].tiles[t].below.is_none();
        if alone {
            return self.remove_tile_by_idx(c, t);
        }
        let sizing = self.columns[c].pending_sizing_mode();
        let width = self.columns[c].width;
        let is_full_width = self.columns[c].is_full_width;
        let tile = self.columns[c].tiles.remove(t);
        let restore_to_floating = tile.restore_to_floating;
        let shown_width: u64 = tile.width;
        let ghost whole = tile;
        let (window, rest) = tile.take_window(id);
        match rest {
            Some(rest) => {
                self.columns[c].tiles.insert(t, rest);
                proof {
                    let before = old(self)@.columns;
                    let column = before[c as int];
                    assert(whole == column.tiles[t as int]);
                    let after = ColumnState {
                        tiles: column.tiles.update(t as int, rest),
                        ..column
                    };
                    assert(self@.columns[c as int].tiles =~= after.tiles);
                    assert(self@.columns =~= before.update(c as int, after));
                }
            },
            None => {
                assert(false);
            },
        }
        self.anchor = ViewAnchor::Carousel;
        if let Some(resize) = self.interactive_resize {
            if resize.0 == id {
                self.interactive_resize = None;
            }
        }
        if let Some(guest) = self.guest {
            if guest.window == id {
                self.guest = None;
            }
        }
        RemovedTile {
            tile: Tile { window, below: None, sizing, restore_to_floating, width: shown_width },
            width,
            is_full_width,
            is_floating: false,
        }
    }

    /// Removes the active tile with all of its windows.
    pub fn remove_active_tile(&mut self) -> (r: Option<RemovedTile>)
        requires
            old(self)@.wf(),
        ensures
            r is None <==> old(self)@.columns.len() == 0,
            r is None ==> final(self)@ == old(self)@,
            r matches Some(removed) ==> {
                let c = old(self)@.active;
                let t = old(self)@.active_column().active;
                &&& removed == removed_tile(old(self)@, c, t)
                &&& final(self)@ == remove_tile_at(old(self)@, c, t)
            },
            final(self)@.wf(),
    {
        if self.is_empty() {
            return None;
        }
        let (c, t) = self.target(None);
        Some(self.remove_tile_by_idx(c, t))
    }

    /// Removes the active column.
    pub fn remove_active_column(&mut self) -> (r: Option<Column>)
        requires
            old(self)@.wf(),
        ensures
            r is None <==> old(self)@.columns.len() == 0,
            r is None ==> final(self)@ == old(self)@,
            r matches Some(column) ==> {
                &&& column@ == old(self)@.active_column()
                &&& final(self)@ == remove_column(old(self)@, old(self)@.active)
            },
            final(self)@.wf(),
    {
        if self.is_empty() {
            return None;
        }
        Some(self.remove_column_by_idx(self.active_column_idx))
    }

    fn activate_tile(&mut self, c: usize, t: usize)
        requires
            old(self)@.wf(),
            c < old(self)@.columns.len(),
            t < old(self)@.columns[c as int].tiles.len(),
        ensures
            final(self)@ == activate_tile(old(self)@, c as int, t as int),
            final(self)@.wf(),
    {
        assert(self@.columns[c as int].wf());
        if self.columns[c].active_tile_idx != t {
            self.guest = None;
        }
        self.columns[c].active_tile_idx = t;
        self.anchor = ViewAnchor::Carousel;
        proof {
            let before = old(self)@.columns;
            assert(self@.columns =~= before.update(
                c as int,
                ColumnState { active: t as int, ..before[c as int] },
            ));
        }
    }

    /// Moves the focus to a window, if it is in the row.
    pub fn activate_window(&mut self, id: u64) -> (r: bool)
        requires
            old(self)@.wf(),
        ensures
            r == old(self)@.holds(id),
            final(self)@ == (if r {
                activate_window(old(self)@, id)
            } else {
                old(self)@
            }),
            final(self)@.wf(),
    {
        if self.column_with_window(id).is_none() {
            return false;
        }
        let (c, t) = self.position_of(id);
        self.activate_tile(c, t);
        self.activate_column(c);
        true
    }

    pub fn focus_left(&mut self) -> (r: bool)
        requires
            old(self)@.wf(),
        ensures
            (final(self)@, r) == focus_left(old(self)@),
            final(self)@.wf(),
    {
        if self.active_column_idx == 0 {
            return false;
        }
        self.activate_column(self.active_column_idx - 1);
        true
    }

    pub fn focus_right(&mut self) -> (r: bool)
        requires
            old(self)@.wf(),
        ensures
            (final(self)@, r) == focus_right(old(self)@),
            final(self)@.wf(),
    {
        let n: usize = self.columns.len();
        if n == 0 || self.active_column_idx + 1 >= n {
            return false;
        }
        self.activate_column(self.active_column_idx + 1);
        true
    }

    pub fn focus_up(&mut self) -> (r: bool)
        requires
            old(self)@.wf(),
        ensures
            (final(self)@, r) == focus_up(old(self)@),
            final(self)@.wf(),
    {
        if self.is_empty() {
            return false;
        }
        let (c, t) = self.target(None);
        if t == 0 {
            return false;
        }
        self.activate_tile(c, t - 1);
        true
    }

    pub fn focus_down(&mut self) -> (r: bool)
        requires
            old(self)@.wf(),
        ensures
            (final(self)@, r) == focus_down(old(self)@),
            final(self)@.wf(),
    {
        if self.is_empty() {
            return false;
        }
        let (c, t) = self.target(None);
        let n: usize = self.columns[c].tiles.len();
        if t + 1 >= n {
            return false;
        }
        self.activate_tile(c, t + 1);
        true
    }

    /// Moves the focus down, or to the left from the bottom row.
    pub fn focus_down_or_left(&mut self)
        requires
            old(self)@.wf(),
        ensures
            final(self)@ == focus_down_or_left(old(self)@),
            final(self)@.wf(),
    {
        if !self.focus_down() {
            self.focus_left();
        }
    }

    /// Moves the focus down, or to the right from the bottom row.
    pub fn focus_down_or_right(&mut self)
        requires
            old(self)@.wf(),
        ensures
            final(self)@ == focus_down_or_right(old(self)@),
            final(self)@.wf(),
    {
        if !self.focus_down() {
            self.focus_right();
        }
    }

    /// Moves the focus up, or to the left from the top row.
    pub fn focus_up_or_left(&mut self)
        requires
            old(self)@.wf(),
        ensures
            final(self)@ == focus_up_or_left(old(self)@),
            final(self)@.wf(),
    {
        if !self.focus_up() {
            self.focus_left();
        }
    }

    /// Moves the focus up, or to the right from the top row.
    pub fn focus_up_or_right(&mut self)
        requires
            old(self)@.wf(),
        ensures
            final(self)@ == focus_up_or_right(old(self)@),
            final(self)@.wf(),
    {
        if !self.focus_up() {
            self.focus_right();
        }
    }

    pub fn focus_column_first(&mut self)
        requires
            old(self)@.wf(),
        ensures
            final(self)@ == focus_first(old(self)@),
            final(self)@.wf(),
    {
        if !self.is_empty() {
            self.activate_column(0);
        }
    }

    pub fn focus_column_last(&mut self)
        requires
            old(self)@.wf(),
        ensures
            final(self)@ == focus_last(old(self)@),
            final(self)@.wf(),
    {
        let n: usize = self.columns.len();
        if n > 0 {
            self.activate_column(n - 1);
        }
    }

    /// Moves the focus to the column with this one-based index.
    pub fn focus_column(&mut self, index: usize)
        requires
            old(self)@.wf(),
        ensures
            final(self)@ == focus_numbered(old(self)@, index as int),
            final(self)@.wf(),
    {
        let n: usize = self.columns.len();
        if n > 0 {
            self.activate_column(clamp_index(index, n));
        }
    }

    /// Moves the focus to the row with this one-based index.
    pub fn focus_window_in_column(&mut self, index: u8)
        requires
            old(self)@.wf(),
        ensures
            final(self)@ == focus_numbered_row(old(self)@, index as int),
            final(self)@.wf(),
    {
        if !self.is_empty() {
            let (c, _t) = self.target(None);
            let n: usize = self.columns[c].tiles.len();
            self.activate_tile(c, clamp_index(index as usize, n));
        }
    }

    pub fn focus_top(&mut self)
        requires
            old(self)@.wf(),
        ensures
            final(self)@ == focus_top(old(self)@),
            final(self)@.wf(),
    {
        if !self.is_empty() {
            let (c, _t) = self.target(None);
            self.activate_tile(c, 0);
        }
    }

    pub fn focus_bottom(&mut self)
        requires
            old(self)@.wf(),
        ensures
            final(self)@ == focus_bottom(old(self)@),
            final(self)@.wf(),
    {
        if !self.is_empty() {
            let (c, _t) = self.target(None);
            let n: usize = self.columns[c].tiles.len();
            self.activate_tile(c, n - 1);
        }
    }

    /// Moves the active column to a zero-based index.
    fn move_column_to(&mut self, idx: usize)
        requires
            old(self)@.wf(),
            old(self)@.columns.len() > 0 ==> idx < old(self)@.columns.len(),
        ensures
            final(self)@ == move_column_to(old(self)@, idx as int),
            final(self)@.wf(),
    {
        let active: usize = self.active_column_idx;
        if self.columns.len() == 0 || active == idx {
            return;
        }
        let column = self.columns.remove(active);
        let ghost state = column@;
        self.columns.insert(idx, column);
        proof {
            assert(state == old(self)@.columns[active as int]);
            assert(self@.columns =~= old(self)@.columns.remove(active as int).insert(
                idx as int,
                state,
            ));
            assert forall|i: int| 0 <= i < self@.columns.len() implies (
            #[trigger] self@.columns[i]).wf() by {
                let before = old(self)@.columns;
                let rest = before.remove(active as int);
                assert(before[active as int].wf());
                if i < idx {
                    assert(before[if i < active { i } else { i + 1 }].wf());
                } else if i > idx {
                    assert(before[if i - 1 < active { i - 1 } else { i }].wf());
                }
            }
        }
        let guest = self.guest;
        self.activate_column(idx);
        self.guest = guest;
    }

    pub fn move_left(&mut self) -> (r: bool)
        requires
            old(self)@.wf(),
        ensures
            (final(self)@, r) == moved_left(old(self)@),
            final(self)@.wf(),
    {
        let active: usize = self.active_column_idx;
        if active == 0 {
            return false;
        }
        self.move_column_to(active - 1);
        true
    }

    pub fn move_right(&mut self) -> (r: bool)
        requires
            old(self)@.wf(),
        ensures
            (final(self)@, r) == moved_right(old(self)@),
            final(self)@.wf(),
    {
        let active: usize = self.active_column_idx;
        let n: usize = self.columns.len();
        if n == 0 || active + 1 >= n {
            return false;
        }
        self.move_column_to(active + 1);
        true
    }

    pub fn move_column_to_first(&mut self)
        requires
            old(self)@.wf(),
        ensures
            final(self)@ == moved_to_first(old(self)@),
            final(self)@.wf(),
    {
        self.move_column_to(0);
    }

    pub fn move_column_to_last(&mut self)
        requires
            old(self)@.wf(),
        ensures
            final(self)@ == moved_to_last(old(self)@),
            final(self)@.wf(),
    {
        let n: usize = self.columns.len();
        if n > 0 {
            self.move_column_to(n - 1);
        }
    }

    /// Moves the active column to a one-based index.
    pub fn move_column_to_index(&mut self, index: usize)
        requires
            old(self)@.wf(),
        ensures
            final(self)@ == moved_to_place(old(self)@, index as int),
            final(self)@.wf(),
    {
        let n: usize = self.columns.len();
        if n > 0 {
            self.move_column_to(clamp_index(index, n));
        }
    }

    /// The place in a list of the window of a column, if the column consists of
    /// that one window.
    fn listed_place(&self, c: usize, ids: &[u64]) -> (r: Option<usize>)
        requires
            c < self@.columns.len(),
        ensures
            r is Some <==> is_listed(self@.columns[c as int], ids@),
            r matches Some(k) ==> k == rank(self@.columns[c as int], ids@),
    {
        let column = &self.columns[c];
        if column.tiles.len() != 1 || column.tiles[0].below.is_some() {
            return None;
        }
        let id: u64 = column.tiles[0].window.id;
        let r = place_in(ids, id);
        proof {
            if let Some(k) = r {
                let first = rank(self@.columns[c as int], ids@);
                assert(is_first(ids@, id, k as int));
                assert(is_first(ids@, id, first));
                assert(first == k);
            }
        }
        r
    }

    /// The listed column at or behind index `i` whose window comes first in the
    /// list.
    fn first_listed(&self, i: usize, ids: &[u64]) -> (r: usize)
        requires
            i < self@.columns.len(),
            is_listed(self@.columns[i as int], ids@),
        ensures
            i <= r < self@.columns.len(),
            is_listed(self@.columns[r as int], ids@),
            r > i ==> rank(self@.columns[r as int], ids@) < rank(self@.columns[i as int], ids@),
            forall|j: int|
                i <= j < self@.columns.len() && is_listed(#[trigger] self@.columns[j], ids@)
                    ==> rank(self@.columns[r as int], ids@) <= rank(self@.columns[j], ids@),
    {
        let mut best: usize = i;
        let mut least: usize = match self.listed_place(i, ids) {
            Some(k) => k,
            None => {
                assert(false);
                0
            },
        };
        let n: usize = self.columns.len();
        assert(i < n);
        let mut j: usize = i + 1;
        while j < n
            invariant
                i <= best < j <= n == self@.columns.len(),
                is_listed(self@.columns[best as int], ids@),
                least == rank(self@.columns[best as int], ids@),
                best > i ==> least < rank(self@.columns[i as int], ids@),
                forall|k: int|
                    i <= k < j && is_listed(#[trigger] self@.columns[k], ids@) ==> least <= rank(
                        self@.columns[k],
                        ids@,
                    ),
            decreases self@.columns.len() - j,
        {
            if let Some(k) = self.listed_place(j, ids) {
                if k < least {
                    best = j;
                    least = k;
                }
            }
            j += 1;
        }
        best
    }

    /// Exchanges two columns. The active column stays active.
    fn exchange_columns(&mut self, i: usize, j: usize)
        requires
            old(self)@.wf(),
            i < j < old(self)@.columns.len(),
        ensures
            final(self)@ == (SpaceState {
                columns: old(self)@.columns.update(
                    i as int,
                    old(self)@.columns[j as int],
                ).update(j as int, old(self)@.columns[i as int]),
                active: if old(self)@.active == i {
                    j as int
                } else if old(self)@.active == j {
                    i as int
                } else {
                    old(self)@.active
                },
                ..old(self)@
            }),
            final(self)@.wf(),
    {
        let right = self.columns.remove(j);
        let left = self.columns.remove(i);
        self.columns.insert(i, right);
        self.columns.insert(j, left);
        if self.active_column_idx == i {
            self.active_column_idx = j;
        } else if self.active_column_idx == j {
            self.active_column_idx = i;
        }
        proof {
            let before = old(self)@.columns;
            assert(self@.columns =~= before.update(i as int, before[j as int]).update(
                j as int,
                before[i as int],
            ));
            assert(before[i as int].wf() && before[j as int].wf());
            assert forall|k: int| 0 <= k < self@.columns.len() implies (
            #[trigger] self@.columns[k]).wf() by {
                assert(before[k].wf());
            }
        }
    }

    /// Puts the columns of one window each, whose window is in the list, into the
    /// order of the list. Columns that aren't listed stay where they are. Returns
    /// whether anything moved.
    pub fn reorder_single_window_columns(&mut self, ordered_ids: &[u64]) -> (r: bool)
        requires
            old(self)@.wf(),
        ensures
            r == !in_order(old(self)@.columns, ordered_ids@),
            reordered(old(self)@, final(self)@, ordered_ids@),
            !r ==> final(self)@ == old(self)@,
            final(self)@.wf(),
    {
        let ghost before = old(self)@;
        let ghost ids = ordered_ids@;
        let mut moved = false;
        let n: usize = self.columns.len();
        let mut i: usize = 0;
        while i < n
            invariant
                before == old(self)@,
                ids == ordered_ids@,
                i <= n == before.columns.len(),
                self@.wf(),
                self@ == (SpaceState { columns: self@.columns, active: self@.active, ..before }),
                listed_moved(before.columns, self@.columns, ids),
                before.columns.len() > 0 ==> self@.columns[self@.active]
                    == before.columns[before.active],
                before.columns.len() > 0 && !is_listed(before.columns[before.active], ids)
                    ==> self@.active == before.active,
                forall|a: int, b: int|
                    0 <= a < i && a < b < n && is_listed(#[trigger] self@.columns[a], ids)
                        && is_listed(#[trigger] self@.columns[b], ids) ==> rank(
                        self@.columns[a],
                        ids,
                    ) <= rank(self@.columns[b], ids),
                moved ==> !in_order(before.columns, ids),
                !moved ==> self@ == before,
            decreases n - i,
        {
            if self.listed_place(i, ordered_ids).is_some() {
                let j: usize = self.first_listed(i, ordered_ids);
                if j != i {
                    let ghost columns = self@.columns;
                    self.exchange_columns(i, j);
                    moved = true;
                    proof {
                        exchanged_keeps_items(columns, i as int, j as int);
                        assert forall|a: int, b: int|
                            0 <= a < i + 1 && a < b < n && is_listed(
                                #[trigger] self@.columns[a],
                                ids,
                            ) && is_listed(#[trigger] self@.columns[b], ids) implies rank(
                            self@.columns[a],
                            ids,
                        ) <= rank(self@.columns[b], ids) by {
                            let from = if b == i {
                                j as int
                            } else if b == j {
                                i as int
                            } else {
                                b
                            };
                            assert(self@.columns[b] == columns[from]);
                            if a < i {
                                assert(self@.columns[a] == columns[a]);
                            } else {
                                assert(self@.columns[a] == columns[j as int]);
                            }
                        }
                    }
                }
            }
            i += 1;
        }
        moved
    }

    /// Exchanges the active tile with the one at row `t`.
    fn swap_active_tile(&mut self, t: usize)
        requires
            old(self)@.wf(),
            old(self)@.columns.len() > 0,
            t < old(self)@.active_column().tiles.len(),
            t != old(self)@.active_column().active,
        ensures
            final(self)@ == with_column(
                old(self)@,
                old(self)@.active,
                swap_active_tile(old(self)@.active_column(), t as int),
            ),
            final(self)@.wf(),
    {
        let (c, a) = self.target(None);
        assert(self@.columns[c as int].wf());
        if a < t {
            self.columns[c].swap_tiles(a, t);
        } else {
            self.columns[c].swap_tiles(t, a);
        }
        self.columns[c].active_tile_idx = t;
        self.anchor = ViewAnchor::Carousel;
        proof {
            let before = old(self)@.columns;
            let after = swap_active_tile(before[c as int], t as int);
            assert(self@.columns[c as int].tiles =~= after.tiles);
            assert(self@.columns =~= before.update(c as int, after));
        }
    }

    pub fn move_up(&mut self) -> (r: bool)
        requires
            old(self)@.wf(),
        ensures
            (final(self)@, r) == move_up(old(self)@),
            final(self)@.wf(),
    {
        if self.is_empty() {
            return false;
        }
        let (_c, t) = self.target(None);
        if t == 0 {
            return false;
        }
        self.swap_active_tile(t - 1);
        true
    }

    pub fn move_down(&mut self) -> (r: bool)
        requires
            old(self)@.wf(),
        ensures
            (final(self)@, r) == move_down(old(self)@),
            final(self)@.wf(),
    {
        if self.is_empty() {
            return false;
        }
        let (c, t) = self.target(None);
        let n: usize = self.columns[c].tiles.len();
        if t + 1 >= n {
            return false;
        }
        self.swap_active_tile(t + 1);
        true
    }

    /// Puts a tile into a column of its own.
    fn expel_tile(&mut self, c: usize, t: usize, to: usize, activate: bool)
        requires
            old(self)@.wf(),
            c < old(self)@.columns.len(),
            t < old(self)@.columns[c as int].tiles.len(),
            old(self)@.columns[c as int].tiles.len() > 1,
            to <= old(self)@.columns.len(),
        ensures
            final(self)@ == expel_tile(old(self)@, c as int, t as int, to as int, activate),
            final(self)@.wf(),
    {
        let removed = self.remove_tile_by_idx(c, t);
        self.add_tile(Some(to), removed.tile, activate, removed.width, removed.is_full_width);
    }

    pub fn consume_or_expel_window_left(&mut self, window: Option<u64>)
        requires
            old(self)@.wf(),
            window matches Some(id) ==> old(self)@.holds(id),
        ensures
            final(self)@ == consume_or_expel_left(old(self)@, window),
            final(self)@.wf(),
    {
        if self.is_empty() {
            return;
        }
        let (c, t) = self.target(window);
        let n: usize = self.columns.len();
        assert(c < n);
        let was_active = self.active_column_idx == c && self.columns[c].active_tile_idx == t;
        let guest = self.guest;
        let id: u64 = self.columns[c].tiles[t].window.id;
        let from = (self.columns[c].width, self.columns[c].is_full_width);
        if self.columns[c].tiles.len() > 1 {
            self.expel_tile(c, t, c, was_active);
            if was_active {
                self.activate_prev_column_on_removal = false;
            }
            self.settle_move(guest, id, from, Some(c + 1), None);
        } else if c > 0 {
            let removed = self.remove_tile_by_idx(c, t);
            self.add_tile_to_column(c - 1, None, removed.tile, was_active);
            self.settle_move(guest, id, from, None, Some(c - 1));
        }
    }

    pub fn consume_or_expel_window_right(&mut self, window: Option<u64>)
        requires
            old(self)@.wf(),
            window matches Some(id) ==> old(self)@.holds(id),
        ensures
            final(self)@ == consume_or_expel_right(old(self)@, window),
            final(self)@.wf(),
    {
        if self.is_empty() {
            return;
        }
        let (c, t) = self.target(window);
        let n: usize = self.columns.len();
        assert(c < n);
        let was_active = self.active_column_idx == c && self.columns[c].active_tile_idx == t;
        let guest = self.guest;
        let id: u64 = self.columns[c].tiles[t].window.id;
        let from = (self.columns[c].width, self.columns[c].is_full_width);
        if self.columns[c].tiles.len() > 1 {
            self.expel_tile(c, t, c + 1, was_active);
            self.settle_move(guest, id, from, Some(c), None);
        } else if c + 1 < n {
            let removed = self.remove_tile_by_idx(c, t);
            self.add_tile_to_column(c, None, removed.tile, was_active);
            self.settle_move(guest, id, from, None, Some(c));
        }
    }

    pub fn consume_into_column(&mut self)
        requires
            old(self)@.wf(),
        ensures
            final(self)@ == consume_into_column(old(self)@),
            final(self)@.wf(),
    {
        let n: usize = self.columns.len();
        let active: usize = self.active_column_idx;
        if n == 0 || active + 1 >= n {
            return;
        }
        assert(self@.columns[active + 1].wf());
        let guest = self.guest;
        let id: u64 = self.columns[active + 1].tiles[0].window.id;
        let from = (self.columns[active + 1].width, self.columns[active + 1].is_full_width);
        let left: Option<usize> = if self.columns[active + 1].tiles.len() > 1 {
            Some(active + 1)
        } else {
            None
        };
        let removed = self.remove_tile_by_idx(active + 1, 0);
        self.add_tile_to_column(active, None, removed.tile, false);
        self.settle_move(guest, id, from, left, Some(active));
    }

    pub fn expel_from_column(&mut self)
        requires
            old(self)@.wf(),
        ensures
            final(self)@ == expel_from_column(old(self)@),
            final(self)@.wf(),
    {
        if self.is_empty() {
            return;
        }
        let (c, _t) = self.target(None);
        assert(c < self.columns.len());
        let n: usize = self.columns[c].tiles.len();
        if n == 1 {
            return;
        }
        let guest = self.guest;
        let id: u64 = self.columns[c].tiles[n - 1].window.id;
        let from = (self.columns[c].width, self.columns[c].is_full_width);
        self.expel_tile(c, n - 1, c + 1, false);
        self.settle_move(guest, id, from, Some(c), None);
    }

    /// Moves the active tile to the bottom of the neighbouring column.
    pub fn move_active_window_to_neighbor_column_as_new_row(&mut self, to_left: bool) -> (r: bool)
        requires
            old(self)@.wf(),
        ensures
            (final(self)@, r) == move_to_neighbor_row(old(self)@, to_left),
            final(self)@.wf(),
    {
        let n: usize = self.columns.len();
        let active: usize = self.active_column_idx;
        if n == 0 || (to_left && active == 0) || (!to_left && active + 1 >= n) {
            return false;
        }
        let (c, t) = self.target(None);
        let to: usize = if to_left {
            active - 1
        } else if self.columns[c].tiles.len() == 1 {
            active
        } else {
            active + 1
        };
        let guest = self.guest;
        let id: u64 = self.columns[c].tiles[t].window.id;
        let from = (self.columns[c].width, self.columns[c].is_full_width);
        let left: Option<usize> = if self.columns[c].tiles.len() > 1 { Some(c) } else { None };
        let removed = self.remove_tile_by_idx(c, t);
        self.add_tile_to_column(to, None, removed.tile, true);
        self.settle_move(guest, id, from, left, Some(to));
        true
    }

    /// Exchanges the active window with the one in the neighbouring column.
    pub fn swap_window_in_direction(&mut self, direction: ScrollDirection)
        requires
            old(self)@.wf(),
        ensures
            final(self)@ == swap_window(old(self)@, direction),
            final(self)@.wf(),
    {
        let n: usize = self.columns.len();
        let from: usize = self.active_column_idx;
        if n == 0 {
            return;
        }
        let to: usize = match direction {
            ScrollDirection::Left => {
                if from == 0 {
                    return;
                }
                from - 1
            },
            ScrollDirection::Right => {
                if from + 1 >= n {
                    return;
                }
                from + 1
            },
        };
        if self.columns[from].tiles.len() == 1 && self.columns[to].tiles.len() == 1 {
            self.move_column_to(to);
            return;
        }
        assert(self@.columns[from as int].wf());
        assert(self@.columns[to as int].wf());
        let a: usize = self.columns[from].active_tile_idx;
        let b: usize = self.columns[to].active_tile_idx;
        let source = self.columns[from].tiles.remove(a);
        let target = self.columns[to].replace_tile(b, source);
        self.columns[from].tiles.insert(a, target);
        proof {
            let before = old(self)@.columns;
            let ca = before[from as int];
            let cb = before[to as int];
            let after_a = ColumnState {
                tiles: ca.tiles.update(ca.active, cb.tiles[cb.active]),
                ..ca
            };
            let after_b = ColumnState {
                tiles: cb.tiles.update(cb.active, ca.tiles[ca.active]),
                ..cb
            };
            assert(self@.columns[from as int].tiles =~= after_a.tiles);
            assert(self@.columns[to as int].tiles =~= after_b.tiles);
            assert(self@.columns =~= before.update(from as int, after_a).update(
                to as int,
                after_b,
            ));
        }
        self.activate_column(to);
    }

    /// Takes the visible window of the active tile out of the row.
    fn take_active_window(&mut self) -> (r: Tile)
        requires
            old(self)@.wf(),
            old(self)@.columns.len() > 0,
        ensures
            r == (Tile {
                below: None,
                ..leaving_tile(old(self)@.active_column(), old(self)@.active_column().active)
            }),
            final(self)@ == without_active_window(old(self)@),
            final(self)@.wf(),
    {
        let (c, t) = self.target(None);
        assert(self@.columns[c as int].wf());
        if self.columns[c].tiles[t].below.is_none() {
            return self.remove_tile_by_idx(c, t).tile;
        }
        let id: u64 = self.columns[c].tiles[t].window.id;
        let sizing = self.columns[c].pending_sizing_mode();
        let tile = self.columns[c].tiles.remove(t);
        let restore_to_floating = tile.restore_to_floating;
        let shown_width: u64 = tile.width;
        let (window, rest) = tile.take_window(id);
        match rest {
            Some(rest) => {
                self.columns[c].tiles.insert(t, rest);
                proof {
                    let before = old(self)@.columns;
                    let column = before[c as int];
                    let after = ColumnState {
                        tiles: column.tiles.update(t as int, rest),
                        ..column
                    };
                    assert(self@.columns[c as int].tiles =~= after.tiles);
                    assert(self@.columns =~= before.update(c as int, after));
                }
            },
            None => {
                assert(false);
            },
        }
        self.anchor = ViewAnchor::Carousel;
        Tile { window, below: None, sizing, restore_to_floating, width: shown_width }
    }

    fn split_active_window(&mut self, to_left: bool) -> (r: bool)
        requires
            old(self)@.wf(),
        ensures
            (final(self)@, r) == split_active_window(old(self)@, to_left),
            final(self)@.wf(),
    {
        if self.is_empty() {
            return false;
        }
        let (c, t) = self.target(None);
        assert(c < self.columns.len());
        if self.columns[c].tiles.len() == 1 && self.columns[c].tiles[t].below.is_none() {
            return false;
        }
        let guest = self.guest;
        let id: u64 = self.columns[c].tiles[t].window.id;
        let width = self.columns[c].width;
        let is_full_width = self.columns[c].is_full_width;
        let tile = self.take_active_window();
        let to: usize = if to_left { c } else { c + 1 };
        self.add_tile(Some(to), tile, true, width, is_full_width);
        let left: usize = if to_left { c + 1 } else { c };
        self.settle_move(guest, id, (width, is_full_width), Some(left), None);
        true
    }

    /// Moves the active window to a column of its own on the left.
    pub fn move_active_window_to_new_column_left(&mut self) -> (r: bool)
        requires
            old(self)@.wf(),
        ensures
            (final(self)@, r) == split_left(old(self)@),
            final(self)@.wf(),
    {
        self.split_active_window(true)
    }

    /// Moves the active window to a column of its own on the right.
    pub fn move_active_window_to_new_column_right(&mut self) -> (r: bool)
        requires
            old(self)@.wf(),
        ensures
            (final(self)@, r) == split_right(old(self)@),
            final(self)@.wf(),
    {
        self.split_active_window(false)
    }

    fn stack_onto(&mut self, c: usize, t: usize, window: Window)
        requires
            old(self)@.wf(),
            c < old(self)@.columns.len(),
            t < old(self)@.columns[c as int].tiles.len(),
        ensures
            final(self)@ == stack_onto(old(self)@, c as int, t as int, window),
            final(self)@.wf(),
    {
        assert(self@.columns[c as int].wf());
        let tile = self.columns[c].tiles.remove(t);
        let tile = tile.put_on_top(window);
        self.columns[c].tiles.insert(t, tile);
        self.columns[c].active_tile_idx = t;
        self.anchor = ViewAnchor::Carousel;
        proof {
            let before = old(self)@.columns;
            let column = before[c as int];
            let after = ColumnState {
                tiles: column.tiles.update(t as int, column.tiles[t as int].with_on_top(window)),
                active: t as int,
                ..column
            };
            assert(self@.columns[c as int].tiles =~= after.tiles);
            assert(self@.columns =~= before.update(c as int, after));
        }
        self.activate_column(c);
    }

    fn overlap_column(&mut self, to_left: bool) -> (r: bool)
        requires
            old(self)@.wf(),
        ensures
            (final(self)@, r) == overlapped(old(self)@, to_left),
            final(self)@.wf(),
    {
        let n: usize = self.columns.len();
        let active: usize = self.active_column_idx;
        if n == 0 || (to_left && active == 0) || (!to_left && active + 1 >= n) {
            return false;
        }
        assert(self@.columns[active as int].wf());
        assert(self@.columns[if to_left { active - 1 } else { active + 1 }].wf());
        let tile = self.take_active_window();
        let to: usize = if to_left {
            active - 1
        } else if self.columns.len() < n {
            active
        } else {
            active + 1
        };
        assert(self@.columns[to as int].wf());
        let t: usize = self.columns[to].active_tile_idx;
        self.stack_onto(to, t, tile.window);
        true
    }

    fn overlap_neighbor_column(&mut self, to_left: bool) -> (r: bool)
        requires
            old(self)@.wf(),
        ensures
            (final(self)@, r) == overlap_neighbor_column(old(self)@, to_left),
            final(self)@.wf(),
    {
        let n: usize = self.columns.len();
        if n == 0 {
            return false;
        }
        let (active, t) = self.target(None);
        let guest = self.guest;
        let id: u64 = self.columns[active].tiles[t].window.id;
        let from = (self.columns[active].width, self.columns[active].is_full_width);
        if !self.overlap_column(to_left) {
            return false;
        }
        let stays = self.columns.len() == n;
        proof {
            lemma_overlapped_columns(old(self)@, to_left);
        }
        let left: Option<usize> = if stays { Some(active) } else { None };
        let to: usize = if to_left {
            active - 1
        } else if stays {
            active + 1
        } else {
            active
        };
        self.settle_move(guest, id, from, left, Some(to));
        true
    }

    /// Moves the active window on top of the active tile of the left column.
    pub fn move_active_window_to_left_neighbor_overlap(&mut self) -> (r: bool)
        requires
            old(self)@.wf(),
        ensures
            (final(self)@, r) == overlap_left(old(self)@),
            final(self)@.wf(),
    {
        self.overlap_neighbor_column(true)
    }

    /// Moves the active window on top of the active tile of the right column.
    pub fn move_active_window_to_right_neighbor_overlap(&mut self) -> (r: bool)
        requires
            old(self)@.wf(),
        ensures
            (final(self)@, r) == overlap_right(old(self)@),
            final(self)@.wf(),
    {
        self.overlap_neighbor_column(false)
    }

    fn overlap_neighbor_row(&mut self, up: bool) -> (r: bool)
        requires
            old(self)@.wf(),
        ensures
            (final(self)@, r) == overlap_neighbor_row(old(self)@, up),
            final(self)@.wf(),
    {
        if self.is_empty() {
            return false;
        }
        let (c, t) = self.target(None);
        assert(self@.columns[c as int].wf());
        let n: usize = self.columns[c].tiles.len();
        if (up && t == 0) || (!up && t + 1 >= n) {
            return false;
        }
        let tile = self.take_active_window();
        let to: usize = if up {
            t - 1
        } else if self.columns[c].tiles.len() < n {
            t
        } else {
            t + 1
        };
        self.stack_onto(c, to, tile.window);
        true
    }

    /// Moves the active window on top of the tile above it.
    pub fn move_active_window_to_above_neighbor_overlap(&mut self) -> (r: bool)
        requires
            old(self)@.wf(),
        ensures
            (final(self)@, r) == overlap_above(old(self)@),
            final(self)@.wf(),
    {
        self.overlap_neighbor_row(true)
    }

    /// Moves the active window on top of the tile below it.
    pub fn move_active_window_to_below_neighbor_overlap(&mut self) -> (r: bool)
        requires
            old(self)@.wf(),
        ensures
            (final(self)@, r) == overlap_below(old(self)@),
            final(self)@.wf(),
    {
        self.overlap_neighbor_row(false)
    }

    fn split_active_row(&mut self, up: bool) -> (r: bool)
        requires
            old(self)@.wf(),
        ensures
            (final(self)@, r) == split_active_row(old(self)@, up),
            final(self)@.wf(),
    {
        if self.is_empty() {
            return false;
        }
        let (c, t) = self.target(None);
        assert(self@.columns[c as int].wf());
        let n: usize = self.columns[c].tiles.len();
        if self.columns[c].tiles[t].below.is_none() {
            return false;
        }
        let tile = self.take_active_window();
        let to: usize = if up { t } else { t + 1 };
        self.add_tile_to_column(c, Some(to), tile, true);
        true
    }

    /// Moves the active window to a row of its own above its tile.
    pub fn move_active_window_to_new_row_above(&mut self) -> (r: bool)
        requires
            old(self)@.wf(),
        ensures
            (final(self)@, r) == split_above(old(self)@),
            final(self)@.wf(),
    {
        self.split_active_row(true)
    }

    /// Moves the active window to a row of its own below its tile.
    pub fn move_active_window_to_new_row_below(&mut self) -> (r: bool)
        requires
            old(self)@.wf(),
        ensures
            (final(self)@, r) == split_below(old(self)@),
            final(self)@.wf(),
    {
        self.split_active_row(false)
    }

    /// Ends the interactive resize of a window in the column at `c`.
    fn cancel_resize_for_column(&mut self, c: usize)
        requires
            c < old(self)@.columns.len(),
        ensures
            final(self)@ == (SpaceState {
                resize: resize_without_column(old(self)@, old(self)@.columns[c as int]),
                ..old(self)@
            }),
    {
        if let Some(resize) = self.interactive_resize {
            if self.columns[c].contains(resize.0) {
                self.interactive_resize = None;
            }
        }
    }

    pub fn set_column_display(&mut self, display: ColumnDisplay)
        requires
            old(self)@.wf(),
        ensures
            final(self)@ == set_column_display(old(self)@, display),
            final(self)@.wf(),
    {
        if self.is_empty() {
            return;
        }
        let (c, _t) = self.target(None);
        assert(self@.columns[c as int].wf());
        if self.columns[c].display == display {
            return;
        }
        self.cancel_resize_for_column(c);
        let shared = display == ColumnDisplay::Normal && self.columns[c].tiles.len() > 1;
        self.columns[c].display = display;
        if shared {
            self.columns[c].is_pending_fullscreen = false;
            self.columns[c].is_pending_maximized = false;
        }
        self.anchor = ViewAnchor::Carousel;
        proof {
            let before = old(self)@.columns;
            let column = before[c as int];
            let after = ColumnState {
                display,
                fullscreen: column.fullscreen && !shared,
                maximized: column.maximized && !shared,
                ..column
            };
            assert(self@.columns[c as int] == after);
            assert(self@.columns =~= before.update(c as int, after));
        }
    }

    pub fn toggle_column_tabbed_display(&mut self)
        requires
            old(self)@.wf(),
        ensures
            final(self)@ == tabbed_toggled(old(self)@),
            final(self)@.wf(),
    {
        if self.is_empty() {
            return;
        }
        let (c, _t) = self.target(None);
        let display = match self.columns[c].display {
            ColumnDisplay::Normal => ColumnDisplay::Tabbed,
            ColumnDisplay::Tabbed => ColumnDisplay::Normal,
        };
        self.set_column_display(display);
    }

    /// Makes the active column span the whole width, or not.
    pub fn toggle_full_width(&mut self)
        requires
            old(self)@.wf(),
        ensures
            final(self)@ == width_toggled(old(self)@),
            final(self)@.wf(),
    {
        if self.is_empty() {
            return;
        }
        let (c, _t) = self.target(None);
        assert(self@.columns[c as int].wf());
        let full: bool = self.columns[c].is_full_width;
        self.columns[c].is_full_width = !full;
        self.anchor = ViewAnchor::Carousel;
        proof {
            let before = old(self)@.columns;
            let after = ColumnState { full_width: !full, ..before[c as int] };
            assert(self@.columns[c as int] == after);
            assert(self@.columns =~= before.update(c as int, after));
        }
    }

    /// Moves a window out of a shared column where it has to leave it to be
    /// fullscreen or maximized, and returns where its column is then.
    fn make_coverable(&mut self, id: u64, cover: bool) -> (r: usize)
        requires
            old(self)@.wf(),
            old(self)@.holds(id),
        ensures
            r == coverable_idx(old(self)@, id, cover),
            final(self)@ == made_coverable(old(self)@, id, cover),
            final(self)@.wf(),
            r < final(self)@.columns.len(),
            cover ==> !must_leave_to_cover(final(self)@.columns[r as int]),
    {
        let (c, t) = self.position_of(id);
        assert(self@.columns[c as int].wf());
        self.cancel_resize_for_column(c);
        if cover && self.columns[c].tiles.len() > 1 && self.columns[c].display
            == ColumnDisplay::Normal {
            assert(c < self.columns.len());
            self.consume_or_expel_window_right(Some(id));
            assert(self@.columns[c + 1].tiles.len() == 1);
            c + 1
        } else {
            c
        }
    }

    /// Asks for a window to enter or leave fullscreen mode. Returns whether
    /// that is a change.
    pub fn set_fullscreen(&mut self, id: u64, is_fullscreen: bool) -> (r: bool)
        requires
            old(self)@.wf(),
            old(self)@.holds(id),
        ensures
            r == (old(self)@.columns[column_of(old(self)@.columns, id)].fullscreen
                != is_fullscreen),
            final(self)@ == set_fullscreen(old(self)@, id, is_fullscreen),
            final(self)@.wf(),
    {
        let (c, _t) = self.position_of(id);
        if self.columns[c].is_pending_fullscreen == is_fullscreen {
            return false;
        }
        let c: usize = self.make_coverable(id, is_fullscreen);
        let ghost ready = self@;
        assert(self@.columns[c as int].wf());
        self.columns[c].is_pending_fullscreen = is_fullscreen;
        self.anchor = ViewAnchor::Carousel;
        proof {
            let after = ColumnState { fullscreen: is_fullscreen, ..ready.columns[c as int] };
            assert(self@.columns[c as int] == after);
            assert(self@.columns =~= ready.columns.update(c as int, after));
        }
        true
    }

    /// Asks for a window to enter or leave maximized mode. Returns whether that
    /// is a change.
    pub fn set_maximized(&mut self, id: u64, maximize: bool) -> (r: bool)
        requires
            old(self)@.wf(),
            old(self)@.holds(id),
        ensures
            r == (old(self)@.columns[column_of(old(self)@.columns, id)].maximized != maximize),
            final(self)@ == set_maximized(old(self)@, id, maximize),
            final(self)@.wf(),
    {
        let (c, _t) = self.position_of(id);
        if self.columns[c].is_pending_maximized == maximize {
            return false;
        }
        let c: usize = self.make_coverable(id, maximize);
        let ghost ready = self@;
        assert(self@.columns[c as int].wf());
        self.columns[c].is_pending_maximized = maximize;
        self.anchor = ViewAnchor::Carousel;
        proof {
            let after = ColumnState { maximized: maximize, ..ready.columns[c as int] };
            assert(self@.columns[c as int] == after);
            assert(self@.columns =~= ready.columns.update(c as int, after));
        }
        true
    }

    /// Leaves a piece of work to the geometry.
    pub fn request(&mut self, request: Request)
        ensures
            final(self)@ == with_request(old(self)@, request),
    {
        self.requests.push(request);
    }

    /// Hands the work over to the geometry, oldest first.
    pub fn take_requests(&mut self) -> (r: Vec<Request>)
        ensures
            r@ == old(self)@.requests,
            final(self)@ == (SpaceState { requests: Seq::empty(), ..old(self)@ }),
    {
        let mut r: Vec<Request> = Vec::new();
        std::mem::swap(&mut r, &mut self.requests);
        r
    }

    /// Takes note of what the geometry has in motion.
    pub fn report_motion(&mut self, motion: Motion)
        ensures
            final(self)@ == (SpaceState { motion, ..old(self)@ }),
    {
        self.motion = motion;
    }

    pub fn motion(&self) -> (r: Motion)
        ensures
            r == self@.motion,
    {
        self.motion
    }

    pub fn geometry(&self) -> (r: ViewGeometry)
        ensures
            r == self@.geometry,
    {
        self.geometry
    }

    pub fn anchor(&self) -> (r: ViewAnchor)
        ensures
            r == self@.anchor,
    {
        self.anchor
    }

    /// The row is now shown on an output like this.
    pub fn update_config(&mut self, geometry: ViewGeometry)
        ensures
            final(self)@ == scrolled(SpaceState { geometry, ..old(self)@ }),
    {
        self.geometry = geometry;
        self.anchor = ViewAnchor::Carousel;
    }

    fn target_window(&self, window: Option<u64>) -> (r: u64)
        requires
            self@.wf(),
            has_target(self@, window),
        ensures
            r == target_window(self@, window),
    {
        let (c, t) = self.target(window);
        self.columns[c].tiles[t].window.id
    }

    /// Asks for another width of a window's column, or of the active one.
    pub fn request_width(&mut self, window: Option<u64>, request: SizeRequest)
        requires
            old(self)@.wf(),
            window matches Some(id) ==> old(self)@.holds(id),
        ensures
            final(self)@ == request_width(old(self)@, window, request),
            final(self)@.wf(),
    {
        if self.is_empty() {
            return;
        }
        let window: u64 = self.target_window(window);
        self.requests.push(Request::Width { window, request });
        self.anchor = ViewAnchor::Carousel;
    }

    /// Asks for another height of a window's tile, or of the active one.
    pub fn request_height(&mut self, window: Option<u64>, request: SizeRequest)
        requires
            old(self)@.wf(),
            window matches Some(id) ==> old(self)@.holds(id),
        ensures
            final(self)@ == request_height(old(self)@, window, request),
            final(self)@.wf(),
    {
        if self.is_empty() {
            return;
        }
        let window: u64 = self.target_window(window);
        self.requests.push(Request::Height { window, request });
        self.anchor = ViewAnchor::Carousel;
    }

    /// Passes on that the client acknowledged a configure of a window.
    pub fn update_window(&mut self, id: u64, serial: Option<u32>)
        requires
            old(self)@.holds(id),
        ensures
            final(self)@ == scrolled(
                with_request(old(self)@, Request::Update { window: id, serial }),
            ),
    {
        self.requests.push(Request::Update { window: id, serial });
        self.anchor = ViewAnchor::Carousel;
    }

    /// Animates the appearance of a window, if it is in the row.
    pub fn start_open_animation(&mut self, id: u64) -> (r: bool)
        ensures
            r == old(self)@.holds(id),
            final(self)@ == (if r {
                with_request(old(self)@, Request::Open { window: id })
            } else {
                old(self)@
            }),
    {
        if self.column_with_window(id).is_none() {
            return false;
        }
        self.requests.push(Request::Open { window: id });
        true
    }

    /// Centers the view on a window, or on the active one.
    pub fn center_window(&mut self, window: Option<u64>)
        requires
            old(self)@.wf(),
            window matches Some(id) ==> old(self)@.holds(id),
        ensures
            final(self)@ == center_requested(old(self)@, window),
    {
        if self.is_empty() {
            return;
        }
        let window: u64 = self.target_window(window);
        self.requests.push(Request::Center { window });
        self.anchor = ViewAnchor::Carousel;
    }

    pub fn interactive_resize_begin(&mut self, id: u64, edges: ResizeEdge) -> (r: bool)
        requires
            old(self)@.wf(),
            old(self)@.holds(id),
        ensures
            (final(self)@, r) == resize_begin(old(self)@, id, edges),
            final(self)@.wf(),
    {
        let (c, _t) = self.position_of(id);
        if self.interactive_resize.is_some() || !self.columns[c].pending_sizing_mode().is_normal() {
            return false;
        }
        self.interactive_resize = Some((id, edges));
        true
    }

    /// Passes on a pointer motion, as the bit patterns of doubles, of the
    /// resize of this window.
    pub fn interactive_resize_update(&mut self, id: u64, dx: u64, dy: u64) -> (r: bool)
        ensures
            (final(self)@, r) == resize_update(old(self)@, id, dx, dy),
    {
        if let Some(resize) = self.interactive_resize {
            if resize.0 == id {
                self.requests.push(Request::Drag { window: id, dx, dy });
                self.anchor = ViewAnchor::Carousel;
                return true;
            }
        }
        false
    }

    pub fn interactive_resize_end(&mut self, window: Option<u64>)
        ensures
            final(self)@ == resize_end(old(self)@, window),
    {
        if let Some(resize) = self.interactive_resize {
            match window {
                Some(id) => {
                    if resize.0 == id {
                        self.interactive_resize = None;
                    }
                },
                None => {
                    self.interactive_resize = None;
                },
            }
        }
    }

    pub fn is_interactive_resize_ongoing(&self) -> (r: bool)
        ensures
            r == (self@.resize is Some),
    {
        self.interactive_resize.is_some()
    }

    pub fn active_tile(&self) -> (r: Option<&Tile>)
        requires
            self@.wf(),
        ensures
            r is None <==> self@.columns.len() == 0,
            r matches Some(tile) ==> *tile == self@.active_tile(),
    {
        if self.is_empty() {
            return None;
        }
        let (c, t) = self.target(None);
        Some(&self.columns[c].tiles[t])
    }

    pub fn active_window(&self) -> (r: Option<&Window>)
        requires
            self@.wf(),
        ensures
            r is None <==> self@.columns.len() == 0,
            r matches Some(window) ==> *window == self@.active_tile().window,
    {
        match self.active_tile() {
            Some(tile) => Some(&tile.window),
            None => None,
        }
    }

    pub fn active_tile_mut(&mut self) -> (r: Option<&mut Tile>)
        requires
            old(self)@.wf(),
        ensures
            match r {
                Some(tile) => {
                    &&& old(self)@.columns.len() > 0
                    &&& *tile == old(self)@.active_tile()
                    &&& final(self)@ == with_active_tile(old(self)@, *final(tile))
                },
                None => old(self)@.columns.len() == 0 && final(self)@ == old(self)@,
            },
    {
        if self.is_empty() {
            return None;
        }
        let (c, t) = self.target(None);
        proof {
            lemma_update_states(self.columns@, c as int);
        }
        Some(&mut self.columns[c].tiles[t])
    }

    /// The tile at `t` in the column at `c`, if there is one.
    pub fn tiles_mut(&mut self, c: usize, t: usize) -> (r: Option<&mut Tile>)
        requires
            old(self)@.wf(),
        ensures
            match r {
                Some(tile) => {
                    &&& c < old(self)@.columns.len()
                    &&& t < old(self)@.columns[c as int].tiles.len()
                    &&& *tile == old(self)@.columns[c as int].tiles[t as int]
                    &&& final(self)@ == with_tile_at(
                        old(self)@,
                        c as int,
                        t as int,
                        *final(tile),
                    )
                },
                None => {
                    &&& c >= old(self)@.columns.len() || t >= old(
                        self,
                    )@.columns[c as int].tiles.len()
                    &&& final(self)@ == old(self)@
                },
            },
    {
        if c >= self.columns.len() || t >= self.columns[c].tiles.len() {
            return None;
        }
        proof {
            lemma_update_states(self.columns@, c as int);
        }
        Some(&mut self.columns[c].tiles[t])
    }

    /// Number of tiles in the active column.
    pub fn active_column_tile_count(&self) -> (r: Option<usize>)
        requires
            self@.wf(),
        ensures
            match r {
                Some(n) => self@.columns.len() > 0 && n == self@.active_column().tiles.len(),
                None => self@.columns.len() == 0,
            },
    {
        if self.is_empty() {
            return None;
        }
        let (c, _t) = self.target(None);
        Some(self.columns[c].tiles.len())
    }

    /// Whether the active column is asked to be fullscreen.
    pub fn is_active_pending_fullscreen(&self) -> (r: bool)
        requires
            self@.wf(),
        ensures
            r == (self@.columns.len() > 0 && self@.active_column().fullscreen),
    {
        if self.is_empty() {
            return false;
        }
        let (c, _t) = self.target(None);
        self.columns[c].is_pending_fullscreen
    }

    /// The columns, left to right.
    pub fn columns(&self) -> (r: &Vec<Column>)
        ensures
            r@.len() == self@.columns.len(),
            forall|i: int| 0 <= i < r@.len() ==> (#[trigger] r@[i])@ == self@.columns[i],
    {
        &self.columns
    }

    /// The tiles of all columns.
    pub fn tiles(&self) -> (r: Vec<&Tile>)
        ensures
            r@.len() == all_tiles(self@.columns).len(),
            forall|i: int| 0 <= i < r@.len() ==> *(#[trigger] r@[i]) == all_tiles(
                self@.columns,
            )[i],
    {
        let mut r: Vec<&Tile> = Vec::new();
        let mut c: usize = 0;
        proof {
            assert(self@.columns.take(0) =~= Seq::empty());
        }
        while c < self.columns.len()
            invariant
                c <= self.columns@.len(),
                r@.len() == all_tiles(self@.columns.take(c as int)).len(),
                forall|i: int| 0 <= i < r@.len() ==> *(#[trigger] r@[i]) == all_tiles(
                    self@.columns.take(c as int),
                )[i],
            decreases self.columns@.len() - c,
        {
            let column = &self.columns[c];
            let ghost done = all_tiles(self@.columns.take(c as int));
            let mut t: usize = 0;
            while t < column.tiles.len()
                invariant
                    t <= column.tiles@.len(),
                    r@.len() == done.len() + t,
                    forall|i: int| 0 <= i < done.len() ==> *(#[trigger] r@[i]) == done[i],
                    forall|i: int| 0 <= i < t ==> *(#[trigger] r@[done.len() + i])
                        == column.tiles@[i],
                decreases column.tiles@.len() - t,
            {
                r.push(&column.tiles[t]);
                t += 1;
            }
            proof {
                let next = self@.columns.take(c + 1);
                assert(next.drop_last() =~= self@.columns.take(c as int));
                assert(next.last() == column@);
                assert forall|i: int| 0 <= i < r@.len() implies *(#[trigger] r@[i]) == all_tiles(
                    next,
                )[i] by {
                    if i >= done.len() {
                        assert(r@[i] == r@[done.len() + (i - done.len())]);
                    }
                }
            }
            c += 1;
        }
        proof {
            assert(self@.columns.take(c as int) =~= self@.columns);
        }
        r
    }

    /// The tile that holds a window, which must be in the row.
    pub fn tile_of_window(&self, id: u64) -> (r: &Tile)
        requires
            self@.holds(id),
        ensures
            ({
                let (c, t) = target_position(self@, Some(id));
                *r == self@.columns[c].tiles[t]
            }),
            r.holds(id),
    {
        let (c, t) = self.position_of(id);
        &self.columns[c].tiles[t]
    }

    /// The tile that holds a window, which must be in the row.
    pub fn tile_of_window_mut(&mut self, id: u64) -> (r: &mut Tile)
        requires
            old(self)@.holds(id),
        ensures
            ({
                let (c, t) = target_position(old(self)@, Some(id));
                *r == old(self)@.columns[c].tiles[t]
            }),
            final(self)@ == with_tile_of(old(self)@, id, *final(r)),
    {
        let (c, t) = self.position_of(id);
        proof {
            lemma_update_states(self.columns@, c as int);
        }
        &mut self.columns[c].tiles[t]
    }

    /// Whether every column holds a tile and the active ones exist.
    pub fn verify_invariants(&self) -> (r: bool)
        ensures
            r == self@.wf(),
    {
        let n: usize = self.columns.len();
        if n == 0 {
            return self.active_column_idx == 0;
        }
        if self.active_column_idx >= n {
            return false;
        }
        let mut i: usize = 0;
        while i < n
            invariant
                n == self.columns@.len(),
                i <= n,
                forall|j: int| 0 <= j < i ==> (#[trigger] self@.columns[j]).wf(),
            decreases n - i,
        {
            assert(self@.columns[i as int] == self.columns@[i as int]@);
            if !self.columns[i].verify_invariants() {
                return false;
            }
            i += 1;
        }
        true
    }
}

/// A one-based index as a zero-based one, moved into range.
fn clamp_index(index: usize, len: usize) -> (r: usize)
    requires
        len > 0,
    ensures
        r == clamped_index(index as int, len as nat),
        r < len,
{
    if index <= 1 {
        0
    } else if index > len {
        len - 1
    } else {
        index - 1
    }
}

} // verus!
