//! The two panels of an output and the focus between them.
//!
//! Panels belong to the output and not to a workspace: they stay where they are
//! when the workspace is switched, and so does the focus inside of them.

use vstd::prelude::*;
use crate::ipc::SizeChange;
use crate::layout::fixed_strip::{inner_edge, FixedSide, FixedStrip, StripRender, StripState};
use crate::layout::geometry::{ResizeEdge, ViewGeometry};
use crate::layout::panel_moves::{
    focused_column_leaves, focused_tile_leaves, innermost_column_leaves, innermost_focused,
    panel_closing_shown, panel_column_added, panel_consumed, panel_drag_begins, panel_drag_ended,
    panel_drags, panel_expelled, panel_focuses_down, panel_focuses_left, panel_focuses_right,
    panel_focuses_up, panel_fullscreen_set, panel_height_changed, panel_height_left_open,
    panel_height_switched, panel_maximized_set, panel_moved_over, panel_opening_shown,
    panel_regrouped_left, panel_regrouped_right, panel_swapped, panel_tile_added,
    panel_tile_added_next_to, panel_width_changed, panel_width_switched, panel_window_activated,
    panel_window_leaves, panel_window_updated, panels_configured, panels_prepared, panels_refreshed,
};
use crate::layout::row::{
    all_tiles, width_reported, with_active_tile, with_request, with_tile_at, Motion, Request,
    ScrollDirection, SpaceState,
};
use crate::layout::tile::{Column, ColumnState, ColumnWidth, RemovedTile, Tile, Window};

verus! {

/// The state of [`FixedPanels`].
pub struct PanelsState {
    pub left: StripState,
    pub right: StripState,
    /// The panel that owns the keyboard focus.
    pub active: Option<FixedSide>,
    pub geometry: ViewGeometry,
}

impl PanelsState {
    /// Each strip is in order and on its side.
    pub open spec fn wf(self) -> bool {
        &&& self.left.wf()
        &&& self.right.wf()
        &&& self.left.side is Left
        &&& self.right.side is Right
    }

    pub open spec fn strip(self, side: FixedSide) -> StripState {
        match side {
            FixedSide::Left => self.left,
            FixedSide::Right => self.right,
        }
    }

    pub open spec fn with_strip(self, side: FixedSide, strip: StripState) -> PanelsState {
        match side {
            FixedSide::Left => PanelsState { left: strip, ..self },
            FixedSide::Right => PanelsState { right: strip, ..self },
        }
    }

    /// The panels after a change to the row of one of them.
    pub open spec fn with_row(self, side: FixedSide, row: SpaceState) -> PanelsState {
        self.with_strip(side, self.strip(side).with_row(row))
    }

    pub open spec fn holds(self, id: u64) -> bool {
        self.left.holds(id) || self.right.holds(id)
    }

    /// The side of a window; the left one where both hold it.
    pub open spec fn side_of(self, id: u64) -> Option<FixedSide> {
        if self.left.holds(id) {
            Some(FixedSide::Left)
        } else if self.right.holds(id) {
            Some(FixedSide::Right)
        } else {
            None
        }
    }

    /// The side that an operation on a window applies to, or else on the
    /// focused panel.
    pub open spec fn target(self, window: Option<u64>) -> Option<FixedSide> {
        match window {
            Some(id) => self.side_of(id),
            None => self.active,
        }
    }

    /// A panel that owns the focus has a window to focus.
    pub open spec fn focus_valid(self) -> bool {
        match self.active {
            Some(side) => !self.strip(side).is_empty(),
            None => true,
        }
    }

    /// The panels without a focus in a panel that became empty.
    pub open spec fn unfocused_if_empty(self) -> PanelsState {
        if self.focus_valid() {
            self
        } else {
            PanelsState { active: None, ..self }
        }
    }
}

/// Where the tiles of a panel are: column and row, both counted from zero.
pub open spec fn placed_tiles(side: FixedSide, columns: Seq<ColumnState>) -> Seq<
    (FixedSide, int, int, Tile),
>
    decreases columns.len(),
{
    if columns.len() == 0 {
        Seq::empty()
    } else {
        let last = columns.last();
        placed_tiles(side, columns.drop_last()) + Seq::new(
            last.tiles.len(),
            |t: int| (side, columns.len() - 1, t, last.tiles[t]),
        )
    }
}

/// Whether a listing says the same as `placed`.
pub open spec fn lists(
    listing: Seq<(FixedSide, usize, usize, &Tile)>,
    placed: Seq<(FixedSide, int, int, Tile)>,
) -> bool {
    &&& listing.len() == placed.len()
    &&& forall|i: int|
        0 <= i < placed.len() ==> {
            let e = #[trigger] listing[i];
            placed[i] == (e.0, e.1 as int, e.2 as int, *e.3)
        }
}

/// Appends the tiles of a panel to a listing.
fn list_placed<'a>(
    listing: &mut Vec<(FixedSide, usize, usize, &'a Tile)>,
    side: FixedSide,
    columns: &'a Vec<Column>,
    Ghost(state): Ghost<Seq<ColumnState>>,
    Ghost(done): Ghost<Seq<(FixedSide, int, int, Tile)>>,
)
    requires
        lists(old(listing)@, done),
        columns@.len() == state.len(),
        forall|i: int| 0 <= i < state.len() ==> (#[trigger] columns@[i])@ == state[i],
    ensures
        lists(final(listing)@, done + placed_tiles(side, state)),
{
    let mut c: usize = 0;
    proof {
        assert(done + placed_tiles(side, state.take(0)) =~= done);
    }
    while c < columns.len()
        invariant
            c <= columns@.len(),
            columns@.len() == state.len(),
            forall|i: int| 0 <= i < state.len() ==> (#[trigger] columns@[i])@ == state[i],
            lists(listing@, done + placed_tiles(side, state.take(c as int))),
        decreases columns@.len() - c,
    {
        let column = &columns[c];
        let ghost before = done + placed_tiles(side, state.take(c as int));
        let ghost next = Seq::new(
            column.tiles@.len(),
            |t: int| (side, c as int, t, column.tiles@[t]),
        );
        let mut t: usize = 0;
        while t < column.tiles.len()
            invariant
                t <= column.tiles@.len(),
                next == Seq::new(
                    column.tiles@.len(),
                    |t: int| (side, c as int, t, column.tiles@[t]),
                ),
                lists(listing@, before + next.take(t as int)),
            decreases column.tiles@.len() - t,
        {
            listing.push((side, c, t, &column.tiles[t]));
            proof {
                assert(before + next.take(t + 1) =~= (before + next.take(t as int)).push(
                    next[t as int],
                ));
            }
            t += 1;
        }
        proof {
            let columns_next = state.take(c + 1);
            assert(columns_next.drop_last() =~= state.take(c as int));
            assert(columns_next.last() == column@);
            assert(next.take(t as int) =~= next);
            assert(done + placed_tiles(side, columns_next) =~= before + next);
        }
        c += 1;
    }
    proof {
        assert(state.take(c as int) =~= state);
    }
}

/// Both fixed panels of one output.
#[derive(Debug)]
pub struct FixedPanels {
    fixed_left: FixedStrip,
    fixed_right: FixedStrip,
    active_fixed_side: Option<FixedSide>,
    geometry: ViewGeometry,
}

impl View for FixedPanels {
    type V = PanelsState;

    closed spec fn view(&self) -> PanelsState {
        PanelsState {
            left: self.fixed_left@,
            right: self.fixed_right@,
            active: self.active_fixed_side,
            geometry: self.geometry,
        }
    }
}

impl FixedPanels {
    pub fn new(geometry: ViewGeometry) -> (r: Self)
        ensures
            r@.wf(),
            r@.left.is_empty(),
            r@.right.is_empty(),
            r@.active is None,
            r@.geometry == geometry,
            r@.left.row.geometry == geometry,
            r@.right.row.geometry == geometry,
            r@.left.row.requests == Seq::<Request>::empty(),
            r@.right.row.requests == Seq::<Request>::empty(),
            r@.left.row.resize is None && r@.right.row.resize is None,
    {
        FixedPanels {
            fixed_left: FixedStrip::new(FixedSide::Left, geometry),
            fixed_right: FixedStrip::new(FixedSide::Right, geometry),
            active_fixed_side: None,
            geometry,
        }
    }

    fn strip(&self, side: FixedSide) -> (r: &FixedStrip)
        ensures
            r@ == self@.strip(side),
    {
        match side {
            FixedSide::Left => &self.fixed_left,
            FixedSide::Right => &self.fixed_right,
        }
    }

    fn strip_mut(&mut self, side: FixedSide) -> (r: &mut FixedStrip)
        ensures
            (*r)@ == old(self)@.strip(side),
            final(self)@ == old(self)@.with_strip(side, (*final(r))@),
    {
        match side {
            FixedSide::Left => &mut self.fixed_left,
            FixedSide::Right => &mut self.fixed_right,
        }
    }

    pub fn advance_animations(&mut self)
        requires
            old(self)@.wf(),
        ensures
            final(self)@ == (PanelsState {
                left: (StripState {
                    row: with_request(old(self)@.left.row, Request::Advance),
                    ..old(self)@.left
                }),
                right: (StripState {
                    row: with_request(old(self)@.right.row, Request::Advance),
                    ..old(self)@.right
                }),
                ..old(self)@
            }),
            final(self)@.wf(),
    {
        self.fixed_left.advance_animations();
        self.fixed_right.advance_animations();
    }

    pub fn are_animations_ongoing(&self) -> (r: bool)
        ensures
            r == (self@.left.row.motion.animations || self@.right.row.motion.animations),
    {
        self.fixed_left.are_animations_ongoing() || self.fixed_right.are_animations_ongoing()
    }

    /// Prepares what is drawn; only the panel that owns the focus shows it.
    pub fn update_render_elements(&mut self, focus: Option<FixedSide>)
        requires
            old(self)@.wf(),
        ensures
            final(self)@ == panels_prepared(old(self)@, focus),
            final(self)@.wf(),
    {
        self.fixed_left.update_render_elements(is_side(focus, FixedSide::Left));
        self.fixed_right.update_render_elements(is_side(focus, FixedSide::Right));
    }

    /// The panels are now shown on an output like this.
    pub fn update_config(&mut self, geometry: ViewGeometry)
        requires
            old(self)@.wf(),
        ensures
            final(self)@ == panels_configured(old(self)@, geometry),
            final(self)@.wf(),
    {
        self.geometry = geometry;
        self.fixed_left.update_config(geometry);
        self.fixed_right.update_config(geometry);
    }

    /// The output changed its size or its working area.
    pub fn update_output_size(&mut self, geometry: ViewGeometry)
        requires
            old(self)@.wf(),
        ensures
            final(self)@ == (PanelsState {
                left: old(self)@.left.with_row(SpaceState { geometry, ..old(self)@.left.row }),
                right: old(self)@.right.with_row(SpaceState { geometry, ..old(self)@.right.row }),
                geometry,
                ..old(self)@
            }),
            final(self)@.wf(),
    {
        self.update_config(geometry);
    }

    pub fn has_window(&self, id: u64) -> (r: bool)
        ensures
            r == self@.holds(id),
    {
        self.fixed_left.has_window(id) || self.fixed_right.has_window(id)
    }

    pub fn side_with_window(&self, id: u64) -> (r: Option<FixedSide>)
        ensures
            r == self@.side_of(id),
    {
        if self.fixed_left.has_window(id) {
            Some(FixedSide::Left)
        } else if self.fixed_right.has_window(id) {
            Some(FixedSide::Right)
        } else {
            None
        }
    }

    pub fn is_empty(&self, side: FixedSide) -> (r: bool)
        ensures
            r == self@.strip(side).is_empty(),
    {
        self.strip(side).is_empty()
    }

    pub fn active_fixed_side(&self) -> (r: Option<FixedSide>)
        ensures
            r == self@.active,
    {
        self.active_fixed_side
    }

    pub fn set_active_fixed_side(&mut self, side: Option<FixedSide>)
        ensures
            final(self)@ == (PanelsState { active: side, ..old(self)@ }),
    {
        self.active_fixed_side = side;
    }

    fn target(&self, window: Option<u64>) -> (r: Option<FixedSide>)
        ensures
            r == self@.target(window),
    {
        match window {
            Some(id) => self.side_with_window(id),
            None => self.active_fixed_side,
        }
    }

    /// The tiles of the left panel, then those of the right one.
    pub fn tiles(&self) -> (r: Vec<&Tile>)
        ensures
            r@.len() == (all_tiles(self@.left.row.columns) + all_tiles(
                self@.right.row.columns,
            )).len(),
            forall|i: int| 0 <= i < r@.len() ==> *(#[trigger] r@[i]) == (all_tiles(
                self@.left.row.columns,
            ) + all_tiles(self@.right.row.columns))[i],
    {
        let mut r = self.fixed_left.tiles();
        let mut right = self.fixed_right.tiles();
        r.append(&mut right);
        r
    }

    /// The columns of the left panel, then those of the right one.
    pub fn columns(&self) -> (r: Vec<&Column>)
        ensures
            r@.len() == (self@.left.row.columns + self@.right.row.columns).len(),
            forall|i: int| 0 <= i < r@.len() ==> (#[trigger] r@[i])@ == (self@.left.row.columns
                + self@.right.row.columns)[i],
    {
        let mut r: Vec<&Column> = Vec::new();
        let left = self.fixed_left.columns();
        let right = self.fixed_right.columns();
        let mut i: usize = 0;
        while i < left.len()
            invariant
                i <= left@.len(),
                r@.len() == i,
                forall|j: int| 0 <= j < i ==> *(#[trigger] r@[j]) == left@[j],
            decreases left@.len() - i,
        {
            r.push(&left[i]);
            i += 1;
        }
        let mut k: usize = 0;
        while k < right.len()
            invariant
                k <= right@.len(),
                r@.len() == left@.len() + k,
                forall|j: int| 0 <= j < left@.len() ==> *(#[trigger] r@[j]) == left@[j],
                forall|j: int|
                    left@.len() <= j < left@.len() + k ==> *(#[trigger] r@[j]) == right@[j
                        - left@.len()],
            decreases right@.len() - k,
        {
            r.push(&right[k]);
            k += 1;
        }
        r
    }

    /// The tiles of both panels with their places, for a session to remember.
    pub fn fixed_side_tiles(&self) -> (r: Vec<(FixedSide, usize, usize, &Tile)>)
        ensures
            lists(
                r@,
                placed_tiles(FixedSide::Left, self@.left.row.columns) + placed_tiles(
                    FixedSide::Right,
                    self@.right.row.columns,
                ),
            ),
    {
        let mut r: Vec<(FixedSide, usize, usize, &Tile)> = Vec::new();
        list_placed(
            &mut r,
            FixedSide::Left,
            self.fixed_left.columns(),
            Ghost(self@.left.row.columns),
            Ghost(Seq::empty()),
        );
        proof {
            let left = placed_tiles(FixedSide::Left, self@.left.row.columns);
            assert(Seq::<(FixedSide, int, int, Tile)>::empty() + left =~= left);
        }
        list_placed(
            &mut r,
            FixedSide::Right,
            self.fixed_right.columns(),
            Ghost(self@.right.row.columns),
            Ghost(placed_tiles(FixedSide::Left, self@.left.row.columns)),
        );
        r
    }

    /// The active window of the panel that owns the focus.
    pub fn active_window(&self) -> (r: Option<&Window>)
        requires
            self@.wf(),
        ensures
            match self@.active {
                Some(side) => {
                    &&& r is None <==> self@.strip(side).is_empty()
                    &&& r matches Some(window) ==> *window == self@.strip(
                        side,
                    ).row.active_tile().window
                },
                None => r is None,
            },
    {
        match self.active_fixed_side {
            Some(side) => self.strip(side).active_window(),
            None => None,
        }
    }

    pub fn active_window_mut(&mut self) -> (r: Option<&mut Window>)
        requires
            old(self)@.wf(),
        ensures
            match (old(self)@.active, r) {
                (Some(side), Some(window)) => {
                    let strip = old(self)@.strip(side);
                    &&& !strip.is_empty()
                    &&& *window == strip.row.active_tile().window
                    &&& final(self)@ == old(self)@.with_strip(
                        side,
                        (StripState {
                            row: with_active_tile(
                                strip.row,
                                Tile { window: *final(window), ..strip.row.active_tile() },
                            ),
                            ..strip
                        }),
                    )
                },
                (Some(side), None) => old(self)@.strip(side).is_empty() && final(self)@ == old(
                    self,
                )@,
                (None, _) => r is None && final(self)@ == old(self)@,
            },
    {
        match self.active_fixed_side {
            Some(side) => self.strip_mut(side).active_window_mut(),
            None => None,
        }
    }

    pub fn active_tile_mut(&mut self) -> (r: Option<&mut Tile>)
        requires
            old(self)@.wf(),
        ensures
            match (old(self)@.active, r) {
                (Some(side), Some(tile)) => {
                    let strip = old(self)@.strip(side);
                    &&& !strip.is_empty()
                    &&& *tile == strip.row.active_tile()
                    &&& final(self)@ == old(self)@.with_strip(
                        side,
                        (StripState { row: with_active_tile(strip.row, *final(tile)), ..strip }),
                    )
                },
                (Some(side), None) => old(self)@.strip(side).is_empty() && final(self)@ == old(
                    self,
                )@,
                (None, _) => r is None && final(self)@ == old(self)@,
            },
    {
        match self.active_fixed_side {
            Some(side) => self.strip_mut(side).active_tile_mut(),
            None => None,
        }
    }

    /// The tile at `t` in the column at `c` of a panel, if there is one.
    pub fn tiles_mut(&mut self, side: FixedSide, c: usize, t: usize) -> (r: Option<&mut Tile>)
        requires
            old(self)@.wf(),
        ensures
            ({
                let strip = old(self)@.strip(side);
                match r {
                    Some(tile) => {
                        &&& c < strip.row.columns.len()
                        &&& t < strip.row.columns[c as int].tiles.len()
                        &&& *tile == strip.row.columns[c as int].tiles[t as int]
                        &&& final(self)@ == old(self)@.with_strip(
                            side,
                            (StripState {
                                row: with_tile_at(strip.row, c as int, t as int, *final(tile)),
                                ..strip
                            }),
                        )
                    },
                    None => {
                        &&& c >= strip.row.columns.len() || t
                            >= strip.row.columns[c as int].tiles.len()
                        &&& final(self)@ == old(self)@
                    },
                }
            }),
    {
        self.strip_mut(side).tiles_mut(c, t)
    }

    /// The window under a point, given what the point hits among the columns of
    /// each panel.
    pub fn window_under(&self, left: Option<u64>, right: Option<u64>) -> (r: Option<u64>)
        ensures
            r == (if !self@.left.is_empty() && left is Some {
                left
            } else if !self@.right.is_empty() {
                right
            } else {
                None
            }),
    {
        let hit = self.fixed_left.window_under(left);
        if hit.is_some() {
            return hit;
        }
        self.fixed_right.window_under(right)
    }

    /// Passes on that the client acknowledged a configure, if a panel holds the
    /// window.
    pub fn update_window(&mut self, id: u64, serial: Option<u32>) -> (r: bool)
        requires
            old(self)@.wf(),
        ensures
            (final(self)@, r) == panel_window_updated(old(self)@, id, serial),
            final(self)@.wf(),
    {
        self.fixed_left.update_window(id, serial) || self.fixed_right.update_window(id, serial)
    }

    /// Tells the windows about their state.
    pub fn refresh(&mut self, focus: Option<FixedSide>, is_focused: bool)
        requires
            old(self)@.wf(),
        ensures
            final(self)@ == panels_refreshed(old(self)@, focus, is_focused),
            final(self)@.wf(),
    {
        self.fixed_left.refresh(is_side(focus, FixedSide::Left), is_focused);
        self.fixed_right.refresh(is_side(focus, FixedSide::Right), is_focused);
    }

    /// Animates the appearance of a window, if a panel holds it.
    pub fn start_open_animation(&mut self, id: u64) -> (r: bool)
        requires
            old(self)@.wf(),
        ensures
            (final(self)@, r) == panel_opening_shown(old(self)@, id),
            final(self)@.wf(),
    {
        self.fixed_left.start_open_animation(id) || self.fixed_right.start_open_animation(id)
    }

    /// Animates the disappearance of a window, if a panel holds it.
    pub fn start_close_animation_for_window(&mut self, id: u64)
        requires
            old(self)@.wf(),
        ensures
            final(self)@ == panel_closing_shown(old(self)@, id),
            final(self)@.wf(),
    {
        if self.fixed_left.has_window(id) {
            self.fixed_left.start_close_animation_for_window(id);
        } else if self.fixed_right.has_window(id) {
            self.fixed_right.start_close_animation_for_window(id);
        }
    }

    /// Moves the focus to a window, if a panel holds it; that panel then owns
    /// the focus.
    pub fn activate_window(&mut self, id: u64) -> (r: bool)
        requires
            old(self)@.wf(),
        ensures
            (final(self)@, r) == panel_window_activated(old(self)@, id),
            final(self)@.wf(),
            old(self)@.focus_valid() ==> final(self)@.focus_valid(),
    {
        if self.fixed_left.activate_window(id) {
            self.active_fixed_side = Some(FixedSide::Left);
            true
        } else if self.fixed_right.activate_window(id) {
            self.active_fixed_side = Some(FixedSide::Right);
            true
        } else {
            false
        }
    }

    /// Removes a window, if a panel holds it. A panel that becomes empty gives
    /// up the focus.
    pub fn remove_tile(&mut self, id: u64) -> (r: Option<RemovedTile>)
        requires
            old(self)@.wf(),
        ensures
            panel_window_leaves(old(self)@, id, final(self)@, r),
            final(self)@.wf(),
            old(self)@.focus_valid() ==> final(self)@.focus_valid(),
    {
        match self.side_with_window(id) {
            Some(side) => {
                let removed = self.strip_mut(side).remove_tile(id);
                self.unfocus_if_empty(side);
                Some(removed)
            },
            None => None,
        }
    }

    /// Takes the focus from a panel that is empty.
    fn unfocus_if_empty(&mut self, side: FixedSide)
        ensures
            final(self)@ == (if old(self)@.active == Some(side) {
                old(self)@.unfocused_if_empty()
            } else {
                old(self)@
            }),
    {
        if is_side(self.active_fixed_side, side) && self.strip(side).is_empty() {
            self.active_fixed_side = None;
        }
    }

    /// Removes the focused tile of the panel that owns the focus.
    pub fn remove_active_tile(&mut self) -> (r: Option<RemovedTile>)
        requires
            old(self)@.wf(),
        ensures
            focused_tile_leaves(old(self)@, final(self)@, r),
            final(self)@.wf(),
            old(self)@.focus_valid() ==> final(self)@.focus_valid(),
    {
        match self.active_fixed_side {
            Some(side) => {
                let removed = self.strip_mut(side).remove_active_tile();
                if removed.is_some() {
                    self.unfocus_if_empty(side);
                }
                removed
            },
            None => None,
        }
    }

    /// Removes the focused column of the panel that owns the focus.
    pub fn remove_active_column(&mut self) -> (r: Option<Column>)
        requires
            old(self)@.wf(),
        ensures
            focused_column_leaves(old(self)@, final(self)@, r),
            final(self)@.wf(),
            old(self)@.focus_valid() ==> final(self)@.focus_valid(),
    {
        match self.active_fixed_side {
            Some(side) => {
                let column = self.strip_mut(side).remove_active_column();
                if column.is_some() {
                    self.unfocus_if_empty(side);
                }
                column
            },
            None => None,
        }
    }

    /// Asks for a window to enter or leave fullscreen mode, if a panel holds
    /// it. Returns whether one does.
    pub fn set_fullscreen(&mut self, id: u64, is_fullscreen: bool) -> (r: bool)
        requires
            old(self)@.wf(),
        ensures
            (final(self)@, r) == panel_fullscreen_set(old(self)@, id, is_fullscreen),
            final(self)@.wf(),
    {
        match self.side_with_window(id) {
            Some(side) => {
                self.strip_mut(side).set_fullscreen(id, is_fullscreen);
                true
            },
            None => false,
        }
    }

    /// Asks for a window to enter or leave maximized mode, if a panel holds it.
    /// Returns whether one does.
    pub fn set_maximized(&mut self, id: u64, maximize: bool) -> (r: bool)
        requires
            old(self)@.wf(),
        ensures
            (final(self)@, r) == panel_maximized_set(old(self)@, id, maximize),
            final(self)@.wf(),
    {
        match self.side_with_window(id) {
            Some(side) => {
                self.strip_mut(side).set_maximized(id, maximize);
                true
            },
            None => false,
        }
    }

    /// Asks for another width of a window's column, or of the focused one.
    pub fn set_window_width(&mut self, window: Option<u64>, change: SizeChange)
        requires
            old(self)@.wf(),
        ensures
            final(self)@ == panel_width_changed(old(self)@, window, change),
            final(self)@.wf(),
    {
        if let Some(side) = self.target(window) {
            self.strip_mut(side).set_window_width(window, change);
        }
    }

    /// Asks for another height of a window's tile, or of the focused one.
    pub fn set_window_height(&mut self, window: Option<u64>, change: SizeChange)
        requires
            old(self)@.wf(),
        ensures
            final(self)@ == panel_height_changed(old(self)@, window, change),
            final(self)@.wf(),
    {
        if let Some(side) = self.target(window) {
            self.strip_mut(side).set_window_height(window, change);
        }
    }

    pub fn reset_window_height(&mut self, window: Option<u64>)
        requires
            old(self)@.wf(),
        ensures
            final(self)@ == panel_height_left_open(old(self)@, window),
            final(self)@.wf(),
    {
        if let Some(side) = self.target(window) {
            self.strip_mut(side).reset_window_height(window);
        }
    }

    pub fn toggle_window_width(&mut self, window: Option<u64>, forwards: bool)
        requires
            old(self)@.wf(),
        ensures
            final(self)@ == panel_width_switched(old(self)@, window, forwards),
            final(self)@.wf(),
    {
        if let Some(side) = self.target(window) {
            self.strip_mut(side).toggle_window_width(window, forwards);
        }
    }

    pub fn toggle_window_height(&mut self, window: Option<u64>, forwards: bool)
        requires
            old(self)@.wf(),
        ensures
            final(self)@ == panel_height_switched(old(self)@, window, forwards),
            final(self)@.wf(),
    {
        if let Some(side) = self.target(window) {
            self.strip_mut(side).toggle_window_height(window, forwards);
        }
    }

    pub fn consume_or_expel_window_left(&mut self, window: Option<u64>)
        requires
            old(self)@.wf(),
        ensures
            final(self)@ == panel_regrouped_left(old(self)@, window),
            final(self)@.wf(),
    {
        if let Some(side) = self.target(window) {
            self.strip_mut(side).consume_or_expel_window_left(window);
        }
    }

    pub fn consume_or_expel_window_right(&mut self, window: Option<u64>)
        requires
            old(self)@.wf(),
        ensures
            final(self)@ == panel_regrouped_right(old(self)@, window),
            final(self)@.wf(),
    {
        if let Some(side) = self.target(window) {
            self.strip_mut(side).consume_or_expel_window_right(window);
        }
    }

    pub fn consume_into_column(&mut self)
        requires
            old(self)@.wf(),
        ensures
            final(self)@ == panel_consumed(old(self)@),
            final(self)@.wf(),
    {
        if let Some(side) = self.target(None) {
            self.strip_mut(side).consume_into_column();
        }
    }

    pub fn expel_from_column(&mut self)
        requires
            old(self)@.wf(),
        ensures
            final(self)@ == panel_expelled(old(self)@),
            final(self)@.wf(),
    {
        if let Some(side) = self.target(None) {
            self.strip_mut(side).expel_from_column();
        }
    }

    pub fn swap_window_in_direction(&mut self, direction: ScrollDirection)
        requires
            old(self)@.wf(),
        ensures
            final(self)@ == panel_swapped(old(self)@, direction),
            final(self)@.wf(),
    {
        if let Some(side) = self.target(None) {
            self.strip_mut(side).swap_window_in_direction(direction);
        }
    }

    /// Begins to resize a window. Returns whether a panel holds it and began.
    pub fn interactive_resize_begin(&mut self, id: u64, edges: ResizeEdge) -> (r: bool)
        requires
            old(self)@.wf(),
        ensures
            panel_drag_begins(old(self)@, id, edges, final(self)@, r),
            final(self)@.wf(),
    {
        match self.side_with_window(id) {
            Some(side) => self.strip_mut(side).interactive_resize_begin(id, edges),
            None => false,
        }
    }

    /// Passes on a pointer motion of the resize of a window.
    pub fn interactive_resize_update(&mut self, id: u64, dx: u64, dy: u64) -> (r: bool)
        requires
            old(self)@.wf(),
        ensures
            panel_drags(old(self)@, id, dx, dy, final(self)@, r),
            final(self)@.wf(),
    {
        match self.side_with_window(id) {
            Some(side) => self.strip_mut(side).interactive_resize_update(id, dx, dy),
            None => false,
        }
    }

    /// Ends the resize of a window, or any resize in both panels.
    pub fn interactive_resize_end(&mut self, window: Option<u64>)
        requires
            old(self)@.wf(),
        ensures
            final(self)@ == panel_drag_ended(old(self)@, window),
            final(self)@.wf(),
    {
        match window {
            Some(id) => {
                if let Some(side) = self.side_with_window(id) {
                    self.strip_mut(side).interactive_resize_end(window);
                }
            },
            None => {
                self.fixed_left.interactive_resize_end(None);
                self.fixed_right.interactive_resize_end(None);
            },
        }
    }

    /// Moves the focus one column to the left in the panel that owns it.
    pub fn focus_left_in_active(&mut self) -> (r: bool)
        requires
            old(self)@.wf(),
        ensures
            panel_focuses_left(old(self)@, final(self)@, r),
            final(self)@.wf(),
    {
        match self.active_fixed_side {
            Some(side) => self.strip_mut(side).focus_left(),
            None => false,
        }
    }

    /// Moves the focus one column to the right in the panel that owns it.
    pub fn focus_right_in_active(&mut self) -> (r: bool)
        requires
            old(self)@.wf(),
        ensures
            panel_focuses_right(old(self)@, final(self)@, r),
            final(self)@.wf(),
    {
        match self.active_fixed_side {
            Some(side) => self.strip_mut(side).focus_right(),
            None => false,
        }
    }

    /// Moves the focus one row up in the panel that owns it.
    pub fn focus_up_in_active(&mut self) -> (r: bool)
        requires
            old(self)@.wf(),
        ensures
            panel_focuses_up(old(self)@, final(self)@, r),
            final(self)@.wf(),
    {
        match self.active_fixed_side {
            Some(side) => self.strip_mut(side).focus_up(),
            None => false,
        }
    }

    /// Moves the focus one row down in the panel that owns it.
    pub fn focus_down_in_active(&mut self) -> (r: bool)
        requires
            old(self)@.wf(),
        ensures
            panel_focuses_down(old(self)@, final(self)@, r),
            final(self)@.wf(),
    {
        match self.active_fixed_side {
            Some(side) => self.strip_mut(side).focus_down(),
            None => false,
        }
    }

    /// Moves the focus inside of a panel to its column at the inner edge. Which
    /// panel owns the focus stays as it is.
    pub fn focus_innermost(&mut self, side: FixedSide) -> (r: bool)
        requires
            old(self)@.wf(),
        ensures
            (final(self)@, r) == innermost_focused(old(self)@, side),
            final(self)@.wf(),
    {
        self.strip_mut(side).focus_innermost()
    }

    pub fn add_column_at_inner_edge(&mut self, side: FixedSide, column: Column)
        requires
            old(self)@.wf(),
            column@.wf(),
        ensures
            final(self)@ == panel_column_added(old(self)@, side, column),
            final(self)@.wf(),
    {
        self.strip_mut(side).add_column_at_inner_edge(column);
    }

    /// Removes the column at the inner edge of a panel. Which panel owns the
    /// focus stays as it is, also where the panel becomes empty.
    pub fn remove_innermost_column(&mut self, side: FixedSide) -> (r: Option<Column>)
        requires
            old(self)@.wf(),
        ensures
            innermost_column_leaves(old(self)@, side, final(self)@, r),
            final(self)@.wf(),
    {
        self.strip_mut(side).remove_innermost_column()
    }

    pub fn focused_column_is_at_inner_edge(&self, side: FixedSide) -> (r: bool)
        ensures
            r == (inner_edge(self@.strip(side)) == Some(self@.strip(side).row.active)),
    {
        self.strip(side).focused_column_is_at_inner_edge()
    }

    pub fn add_tile_at_inner_edge(
        &mut self,
        side: FixedSide,
        tile: Tile,
        width: ColumnWidth,
        is_full_width: bool,
    )
        requires
            old(self)@.wf(),
        ensures
            final(self)@ == panel_tile_added(old(self)@, side, tile, width, is_full_width),
            final(self)@.wf(),
    {
        self.strip_mut(side).add_tile_at_inner_edge(tile, width, is_full_width);
    }

    pub fn add_tile_right_of(
        &mut self,
        side: FixedSide,
        right_of: u64,
        tile: Tile,
        activate: bool,
        width: ColumnWidth,
        is_full_width: bool,
    )
        requires
            old(self)@.wf(),
            old(self)@.strip(side).holds(right_of),
        ensures
            final(self)@ == panel_tile_added_next_to(
                old(self)@,
                side,
                right_of,
                tile,
                activate,
                width,
                is_full_width,
            ),
            final(self)@.wf(),
    {
        self.strip_mut(side).add_tile_right_of(right_of, tile, activate, width, is_full_width);
    }

    pub fn move_active_neighbor_as_new_row(&mut self, side: FixedSide, to_left: bool) -> (r: bool)
        requires
            old(self)@.wf(),
        ensures
            (final(self)@, r) == panel_moved_over(old(self)@, side, to_left),
            final(self)@.wf(),
    {
        self.strip_mut(side).move_active_neighbor_as_new_row(to_left)
    }

    /// How to draw the left panel.
    pub fn render_left(&self, focus_ring: bool) -> (r: Option<StripRender>)
        requires
            self@.wf(),
        ensures
            r is Some <==> !self@.left.is_empty(),
            r matches Some(render) ==> render.anchor is LeftEdge && render.focus_ring
                == focus_ring,
    {
        self.fixed_left.render(focus_ring)
    }

    /// How to draw the right panel.
    pub fn render_right(&self, focus_ring: bool) -> (r: Option<StripRender>)
        requires
            self@.wf(),
        ensures
            r is Some <==> !self@.right.is_empty(),
            r matches Some(render) ==> render.anchor is RightEdge && render.focus_ring
                == focus_ring,
    {
        self.fixed_right.render(focus_ring)
    }

    /// Whether the strips are in order and a panel that owns the focus has a
    /// window.
    pub fn verify_invariants(&self) -> (r: bool)
        ensures
            r == (self@.wf() && self@.focus_valid()),
    {
        let focus_valid = match self.active_fixed_side {
            Some(side) => !self.strip(side).is_empty(),
            None => true,
        };
        self.fixed_left.verify_invariants() && self.fixed_right.verify_invariants()
            && self.fixed_left.side() == FixedSide::Left && self.fixed_right.side()
            == FixedSide::Right && focus_valid
    }

    /// The geometry gave a width to the column of a window.
    pub fn report_width(&mut self, window: u64, width: ColumnWidth, is_full_width: bool)
        requires
            old(self)@.wf(),
        ensures
            final(self)@ == (match old(self)@.side_of(window) {
                Some(side) => old(self)@.with_row(
                    side,
                    width_reported(
                        old(self)@.strip(side).row,
                        window,
                        width,
                        is_full_width,
                    ),
                ),
                None => old(self)@,
            }),
            final(self)@.wf(),
    {
        if let Some(side) = self.side_with_window(window) {
            self.strip_mut(side).report_width(window, width, is_full_width);
        }
    }

    /// Takes note of what the geometry of a panel has in motion.
    pub fn report_motion(&mut self, side: FixedSide, motion: Motion)
        requires
            old(self)@.wf(),
        ensures
            final(self)@ == old(self)@.with_strip(
                side,
                (StripState {
                    row: (SpaceState { motion, ..old(self)@.strip(side).row }),
                    ..old(self)@.strip(side)
                }),
            ),
            final(self)@.wf(),
    {
        self.strip_mut(side).report_motion(motion);
    }

    /// Hands the work over to the geometry of a panel, oldest first.
    pub fn take_requests(&mut self, side: FixedSide) -> (r: Vec<Request>)
        requires
            old(self)@.wf(),
        ensures
            r@ == old(self)@.strip(side).row.requests,
            final(self)@ == old(self)@.with_strip(
                side,
                (StripState {
                    row: (SpaceState { requests: Seq::empty(), ..old(self)@.strip(side).row }),
                    ..old(self)@.strip(side)
                }),
            ),
            final(self)@.wf(),
    {
        self.strip_mut(side).take_requests()
    }
}

/// Whether `focus` is on this side.
fn is_side(focus: Option<FixedSide>, side: FixedSide) -> (r: bool)
    ensures
        r == (focus == Some(side)),
{
    match focus {
        Some(s) => s == side,
        None => false,
    }
}

} // verus!
