//! Windows on top of the columns, stacked over one another.

use vstd::prelude::*;
use crate::ipc::PositionChange;
use crate::layout::geometry::{ResizeEdge, ViewGeometry};
use crate::layout::row::{tile_from, tile_of, Motion, SizeRequest};
use crate::layout::tile::{ColumnWidth, RemovedTile, SizingMode, Tile, Window};

verus! {

/// A direction on the screen.
#[derive(Debug, Clone, Copy, PartialEq, Eq, Structural)]
pub enum FocusDir {
    Left,
    Right,
    Up,
    Down,
}

/// Where a window that starts to float is put.
#[derive(Debug, Clone, Copy, PartialEq, Eq, Structural)]
pub enum FloatPlacement {
    /// Where the window was when it floated before, else where its rules say,
    /// else centered on its owner, else in the middle.
    Owner(Option<u64>),
    /// Centered over this window.
    Over(u64),
    /// Where the window was when it floated before, else close to where its
    /// tile was: a little off that place, or right there.
    NearTile { offset: bool },
}

/// Work for the geometry of the floating layer.
#[derive(Debug, Clone, Copy, PartialEq, Eq, Structural)]
pub enum FloatRequest {
    Place { window: u64, placement: FloatPlacement },
    Width { window: u64, request: SizeRequest },
    Height { window: u64, request: SizeRequest },
    /// Move the window a step.
    Step { window: u64, direction: FocusDir },
    /// Move the window.
    Move { window: u64, x: PositionChange, y: PositionChange, animate: bool },
    Center { window: u64 },
    /// The pointer dragged a resized window by this much, in logical pixels as
    /// the bit patterns of doubles.
    Drag { window: u64, dx: u64, dy: u64 },
    /// The client acknowledged a configure.
    Update { window: u64, serial: Option<u32> },
    Open { window: u64 },
    Close { window: u64 },
    Advance,
    Prepare { is_active: bool },
    Refresh { is_active: bool, is_focused: bool },
}

/// The state of a [`FloatingSpace`].
pub struct FloatState {
    /// The tiles, topmost first.
    pub tiles: Seq<Tile>,
    /// The visible window of the active tile.
    pub active: Option<u64>,
    pub resize: Option<(u64, ResizeEdge)>,
    /// Work for the geometry, oldest first.
    pub requests: Seq<FloatRequest>,
    pub geometry: ViewGeometry,
    pub motion: Motion,
}

/// Whether a tile shows this window.
pub open spec fn shows(tiles: Seq<Tile>, id: u64) -> bool {
    exists|i: int| 0 <= i < tiles.len() && (#[trigger] tiles[i]).window.id == id
}

impl FloatState {
    /// There is an active tile unless there is none at all.
    pub open spec fn wf(self) -> bool {
        match self.active {
            Some(id) => shows(self.tiles, id),
            None => self.tiles.len() == 0,
        }
    }

    pub open spec fn holds(self, id: u64) -> bool {
        exists|i: int| 0 <= i < self.tiles.len() && (#[trigger] self.tiles[i]).holds(id)
    }
}

/// The floating layer with another window in the tile at `idx`.
pub open spec fn with_float_window(s: FloatState, idx: int, window: Window) -> FloatState {
    FloatState { tiles: s.tiles.update(idx, Tile { window, ..s.tiles[idx] }), ..s }
}

/// The dialogs of a window among the tiles.
pub open spec fn dialogs_of(tiles: Seq<Tile>, id: u64) -> Seq<Tile>
    decreases tiles.len(),
{
    if tiles.len() == 0 {
        seq![]
    } else {
        let rest = dialogs_of(tiles.drop_last(), id);
        if tiles.last().window.parent == Some(id) {
            rest.push(tiles.last())
        } else {
            rest
        }
    }
}

/// The tiles that aren't dialogs of a window.
pub open spec fn others_of(tiles: Seq<Tile>, id: u64) -> Seq<Tile>
    decreases tiles.len(),
{
    if tiles.len() == 0 {
        seq![]
    } else {
        let rest = others_of(tiles.drop_last(), id);
        if tiles.last().window.parent == Some(id) {
            rest
        } else {
            rest.push(tiles.last())
        }
    }
}

/// The tiles with the dialogs of the window at `idx` brought right above it.
pub open spec fn with_dialogs_up(tiles: Seq<Tile>, idx: int) -> Seq<Tile> {
    let id = tiles[idx].window.id;
    let tail = tiles.skip(idx + 1);
    tiles.take(idx) + dialogs_of(tail, id) + seq![tiles[idx]] + others_of(tail, id)
}

/// Adds a tile at `idx`, which becomes active if `activate` or if there is no
/// other.
pub open spec fn float_insert(s: FloatState, idx: int, tile: Tile, activate: bool) -> FloatState {
    let tile = Tile { sizing: SizingMode::Normal, ..tile };
    FloatState {
        tiles: with_dialogs_up(s.tiles.insert(idx, tile), idx),
        active: if activate || s.tiles.len() == 0 {
            Some(tile.window.id)
        } else {
            s.active
        },
        ..s
    }
}

/// The active window once a tile that shows `gone` is gone from the tiles: the
/// topmost one where that was the active one.
pub open spec fn active_without(s: FloatState, gone: u64, tiles: Seq<Tile>) -> Option<u64> {
    if tiles.len() == 0 {
        None
    } else if s.active == Some(gone) {
        Some(tiles[0].window.id)
    } else {
        s.active
    }
}

/// What becomes of an interactive resize when a window leaves.
pub open spec fn float_resize_without(s: FloatState, id: u64) -> Option<(u64, ResizeEdge)> {
    match s.resize {
        Some(r) => if r.0 == id {
            None
        } else {
            Some(r)
        },
        None => None,
    }
}

/// Removes the tile at `idx` with all of its windows.
pub open spec fn float_remove_at(s: FloatState, idx: int) -> FloatState {
    let tiles = s.tiles.remove(idx);
    let gone = s.tiles[idx].window.id;
    FloatState {
        tiles,
        active: active_without(s, gone, tiles),
        resize: float_resize_without(s, gone),
        ..s
    }
}

/// What the caller gets of a tile that leaves.
pub open spec fn float_removed(tile: Tile) -> RemovedTile {
    RemovedTile {
        tile,
        width: ColumnWidth::Fixed(tile.width),
        is_full_width: false,
        is_floating: true,
    }
}

/// Removes a window, and its tile with it where it is the only one there.
pub open spec fn float_remove(s: FloatState, id: u64) -> FloatState {
    let idx = tile_of(s.tiles, id);
    match s.tiles[idx].without(id) {
        None => float_remove_at(s, idx),
        Some(rest) => FloatState {
            tiles: s.tiles.update(idx, rest),
            active: if s.active == Some(id) && s.tiles[idx].window.id == id {
                Some(rest.window.id)
            } else {
                s.active
            },
            resize: float_resize_without(s, id),
            ..s
        },
    }
}

/// The tile that a removed window goes into.
pub open spec fn float_removed_window(s: FloatState, id: u64) -> RemovedTile {
    let tile = s.tiles[tile_of(s.tiles, id)];
    float_removed(Tile { window: tile.window_with(id), below: None, ..tile })
}

/// Brings a window to the top and moves the focus there.
pub open spec fn float_activate(s: FloatState, id: u64) -> FloatState {
    let idx = tile_of(s.tiles, id);
    let tile = s.tiles[idx];
    FloatState {
        tiles: with_dialogs_up(s.tiles.remove(idx).insert(0, tile), 0),
        active: Some(tile.window.id),
        ..s
    }
}

/// Moves the focus to a window where it is.
pub open spec fn float_focus(s: FloatState, id: u64) -> FloatState {
    FloatState { active: Some(s.tiles[tile_of(s.tiles, id)].window.id), ..s }
}

pub open spec fn float_with_request(s: FloatState, r: FloatRequest) -> FloatState {
    FloatState { requests: s.requests.push(r), ..s }
}

/// The window that an operation applies to: this one, or else the active one.
pub open spec fn float_target(s: FloatState, window: Option<u64>) -> Option<u64> {
    match window {
        Some(id) => Some(id),
        None => s.active,
    }
}

/// Begins to resize a window, unless one is being resized already.
pub open spec fn float_resize_begin(s: FloatState, id: u64, edges: ResizeEdge) -> (
    FloatState,
    bool,
) {
    if s.resize is Some {
        (s, false)
    } else {
        (FloatState { resize: Some((id, edges)), ..s }, true)
    }
}

/// The pointer moved while a window is being resized.
pub open spec fn float_resize_update(s: FloatState, id: u64, dx: u64, dy: u64) -> (
    FloatState,
    bool,
) {
    match s.resize {
        Some(r) => if r.0 == id {
            (float_with_request(s, FloatRequest::Drag { window: id, dx, dy }), true)
        } else {
            (s, false)
        },
        None => (s, false),
    }
}

/// Ends the resize of a window, or any resize.
pub open spec fn float_resize_end(s: FloatState, window: Option<u64>) -> FloatState {
    match (s.resize, window) {
        (Some(r), Some(id)) => if r.0 == id {
            FloatState { resize: None, ..s }
        } else {
            s
        },
        (Some(_), None) => FloatState { resize: None, ..s },
        (None, _) => s,
    }
}

proof fn lemma_float_tile_from(tiles: Seq<Tile>, id: u64, i: int)
    requires
        0 <= i <= tiles.len(),
    ensures
        i <= tile_from(tiles, id, i) <= tiles.len(),
        tile_from(tiles, id, i) < tiles.len() ==> tiles[tile_from(tiles, id, i)].holds(id),
        forall|j: int| i <= j < tile_from(tiles, id, i) ==> !tiles[j].holds(id),
    decreases tiles.len() - i,
{
    if i < tiles.len() && !tiles[i].holds(id) {
        lemma_float_tile_from(tiles, id, i + 1);
    }
}

/// A tile is among the dialogs or among the others exactly if it is among the
/// tiles.
proof fn lemma_split_by_parent(tiles: Seq<Tile>, id: u64)
    ensures
        dialogs_of(tiles, id).len() + others_of(tiles, id).len() == tiles.len(),
        forall|t: Tile|
            #![trigger tiles.contains(t)]
            tiles.contains(t) <==> dialogs_of(tiles, id).contains(t) || others_of(
                tiles,
                id,
            ).contains(t),
    decreases tiles.len(),
{
    if tiles.len() > 0 {
        let front = tiles.drop_last();
        lemma_split_by_parent(front, id);
        let last = tiles.last();
        let d0 = dialogs_of(front, id);
        let o0 = others_of(front, id);
        let d1 = dialogs_of(tiles, id);
        let o1 = others_of(tiles, id);
        assert forall|t: Tile|
            #![trigger tiles.contains(t)]
            tiles.contains(t) <==> d1.contains(t) || o1.contains(t) by {
            if tiles.contains(t) {
                let i = choose|i: int| 0 <= i < tiles.len() && tiles[i] == t;
                if i < front.len() {
                    assert(front[i] == t);
                    assert(front.contains(t));
                    if d0.contains(t) {
                        let k = choose|k: int| 0 <= k < d0.len() && d0[k] == t;
                        assert(d1[k] == t);
                    } else {
                        let k = choose|k: int| 0 <= k < o0.len() && o0[k] == t;
                        assert(o1[k] == t);
                    }
                } else if last.window.parent == Some(id) {
                    assert(d1[d1.len() - 1] == t);
                } else {
                    assert(o1[o1.len() - 1] == t);
                }
            }
            if d1.contains(t) {
                let k = choose|k: int| 0 <= k < d1.len() && d1[k] == t;
                if k < d0.len() {
                    assert(d0[k] == t);
                    assert(front.contains(t));
                    let i = choose|i: int| 0 <= i < front.len() && front[i] == t;
                    assert(tiles[i] == t);
                } else {
                    assert(tiles[tiles.len() - 1] == t);
                }
            }
            if o1.contains(t) {
                let k = choose|k: int| 0 <= k < o1.len() && o1[k] == t;
                if k < o0.len() {
                    assert(o0[k] == t);
                    assert(front.contains(t));
                    let i = choose|i: int| 0 <= i < front.len() && front[i] == t;
                    assert(tiles[i] == t);
                } else {
                    assert(tiles[tiles.len() - 1] == t);
                }
            }
        }
    }
}

/// Bringing dialogs up neither loses nor adds a tile.
pub proof fn dialogs_up_keeps_tiles(tiles: Seq<Tile>, idx: int)
    requires
        0 <= idx < tiles.len(),
    ensures
        with_dialogs_up(tiles, idx).len() == tiles.len(),
        forall|t: Tile|
            #![trigger tiles.contains(t)]
            #![trigger with_dialogs_up(tiles, idx).contains(t)]
            tiles.contains(t) <==> with_dialogs_up(tiles, idx).contains(t),
{
    let id = tiles[idx].window.id;
    let tail = tiles.skip(idx + 1);
    let head = tiles.take(idx);
    let d = dialogs_of(tail, id);
    let o = others_of(tail, id);
    let up = with_dialogs_up(tiles, idx);
    lemma_split_by_parent(tail, id);
    assert forall|t: Tile|
        #![trigger tiles.contains(t)]
        #![trigger up.contains(t)]
        tiles.contains(t) <==> up.contains(t) by {
        if tiles.contains(t) {
            let i = choose|i: int| 0 <= i < tiles.len() && tiles[i] == t;
            if i < idx {
                assert(up[i] == t);
            } else if i == idx {
                assert(up[idx + d.len()] == t);
            } else {
                assert(tail[i - idx - 1] == t);
                assert(tail.contains(t));
                if d.contains(t) {
                    let k = choose|k: int| 0 <= k < d.len() && d[k] == t;
                    assert(up[idx + k] == t);
                } else {
                    let k = choose|k: int| 0 <= k < o.len() && o[k] == t;
                    assert(up[idx + d.len() + 1 + k] == t);
                }
            }
        }
        if up.contains(t) {
            let i = choose|i: int| 0 <= i < up.len() && up[i] == t;
            if i < idx {
                assert(tiles[i] == t);
            } else if i < idx + d.len() {
                assert(d[i - idx] == t);
                assert(tail.contains(t));
                let k = choose|k: int| 0 <= k < tail.len() && tail[k] == t;
                assert(tiles[idx + 1 + k] == t);
            } else if i == idx + d.len() {
                assert(tiles[idx] == t);
            } else {
                assert(o[i - idx - d.len() - 1] == t);
                assert(tail.contains(t));
                let k = choose|k: int| 0 <= k < tail.len() && tail[k] == t;
                assert(tiles[idx + 1 + k] == t);
            }
        }
    }
}

proof fn lemma_shows_dialogs_up(tiles: Seq<Tile>, idx: int, id: u64)
    requires
        0 <= idx < tiles.len(),
        shows(tiles, id),
    ensures
        shows(with_dialogs_up(tiles, idx), id),
{
    dialogs_up_keeps_tiles(tiles, idx);
    let i = choose|i: int| 0 <= i < tiles.len() && (#[trigger] tiles[i]).window.id == id;
    let t = tiles[i];
    let up = with_dialogs_up(tiles, idx);
    assert(tiles.contains(t));
    assert(up.contains(t));
    let k = choose|k: int| 0 <= k < up.len() && up[k] == t;
    assert(up[k].window.id == id);
}

/// The floating layer.
#[derive(Debug)]
pub struct FloatingSpace {
    tiles: Vec<Tile>,
    active_window_id: Option<u64>,
    interactive_resize: Option<(u64, ResizeEdge)>,
    requests: Vec<FloatRequest>,
    geometry: ViewGeometry,
    motion: Motion,
}

impl View for FloatingSpace {
    type V = FloatState;

    closed spec fn view(&self) -> FloatState {
        FloatState {
            tiles: self.tiles@,
            active: self.active_window_id,
            resize: self.interactive_resize,
            requests: self.requests@,
            geometry: self.geometry,
            motion: self.motion,
        }
    }
}

impl FloatingSpace {
    pub fn new(geometry: ViewGeometry) -> (r: Self)
        ensures
            r@ == (FloatState {
                tiles: seq![],
                active: None,
                resize: None,
                requests: seq![],
                geometry,
                motion: Motion { animations: false, transitions: false },
            }),
            r@.wf(),
    {
        let r = FloatingSpace {
            tiles: Vec::new(),
            active_window_id: None,
            interactive_resize: None,
            requests: Vec::new(),
            geometry,
            motion: Motion { animations: false, transitions: false },
        };
        assert(r@.tiles =~= seq![]);
        assert(r@.requests =~= seq![]);
        r
    }

    pub fn is_empty(&self) -> (r: bool)
        ensures
            r == (self@.tiles.len() == 0),
    {
        self.tiles.len() == 0
    }

    /// Index of the tile that holds a window, or the number of tiles.
    fn index_of(&self, id: u64) -> (r: usize)
        ensures
            r == tile_of(self@.tiles, id),
            r <= self@.tiles.len(),
            self@.holds(id) <==> r < self@.tiles.len(),
            r < self@.tiles.len() ==> self@.tiles[r as int].holds(id),
    {
        proof {
            lemma_float_tile_from(self@.tiles, id, 0);
        }
        let mut i: usize = 0;
        while i < self.tiles.len()
            invariant
                i <= self.tiles@.len(),
                tile_of(self.tiles@, id) == tile_from(self.tiles@, id, i as int),
            decreases self.tiles@.len() - i,
        {
            if self.tiles[i].contains(id) {
                return i;
            }
            i += 1;
        }
        i
    }

    pub fn has_window(&self, id: u64) -> (r: bool)
        ensures
            r == self@.holds(id),
    {
        self.index_of(id) < self.tiles.len()
    }

    /// The tiles, topmost first.
    pub fn tiles(&self) -> (r: &Vec<Tile>)
        ensures
            r@ == self@.tiles,
    {
        &self.tiles
    }

    /// The tile at `idx`, counted from the topmost one, if there is one.
    pub fn tiles_mut(&mut self, idx: usize) -> (r: Option<&mut Tile>)
        ensures
            match r {
                Some(tile) => {
                    &&& idx < old(self)@.tiles.len()
                    &&& *tile == old(self)@.tiles[idx as int]
                    &&& final(self)@ == (FloatState {
                        tiles: old(self)@.tiles.update(idx as int, *final(tile)),
                        ..old(self)@
                    })
                },
                None => idx >= old(self)@.tiles.len() && final(self)@ == old(self)@,
            },
    {
        if idx >= self.tiles.len() {
            return None;
        }
        Some(&mut self.tiles[idx])
    }

    pub fn active_window_id(&self) -> (r: Option<u64>)
        ensures
            r == self@.active,
    {
        self.active_window_id
    }

    pub fn active_window(&self) -> (r: Option<&Window>)
        requires
            self@.wf(),
        ensures
            r is None <==> self@.active is None,
            r matches Some(window) ==> {
                &&& *window == self@.tiles[shown_at(self@.tiles, self@.active->0)].window
                &&& self@.active == Some(window.id)
            },
    {
        if self.active_window_id.is_none() {
            return None;
        }
        let idx: usize = self.active_index();
        proof {
            lemma_shown_at(self@.tiles, self@.active->0, idx as int);
        }
        Some(&self.tiles[idx].window)
    }

    pub fn active_window_mut(&mut self) -> (r: Option<&mut Window>)
        requires
            old(self)@.wf(),
        ensures
            match r {
                Some(window) => {
                    let at = shown_at(old(self)@.tiles, old(self)@.active->0);
                    &&& old(self)@.active is Some
                    &&& 0 <= at < old(self)@.tiles.len()
                    &&& *window == old(self)@.tiles[at].window
                    &&& final(self)@ == with_float_window(old(self)@, at, *final(window))
                },
                None => old(self)@.active is None && final(self)@ == old(self)@,
            },
    {
        if self.active_window_id.is_none() {
            return None;
        }
        let idx: usize = self.active_index();
        proof {
            lemma_shown_at(self@.tiles, self@.active->0, idx as int);
        }
        Some(&mut self.tiles[idx].window)
    }

    /// Brings the dialogs of the window at `idx` right above it.
    fn bring_up_dialogs(&mut self, idx: usize)
        requires
            idx < old(self)@.tiles.len(),
        ensures
            final(self)@ == (FloatState {
                tiles: with_dialogs_up(old(self)@.tiles, idx as int),
                ..old(self)@
            }),
    {
        let ghost all = self.tiles@;
        let id: u64 = self.tiles[idx].window.id;
        assert(idx < self.tiles.len());
        let mut rest = self.tiles.split_off(idx + 1);
        let mut parent = self.tiles.split_off(idx);
        let ghost tail = rest@;
        assert(tail =~= all.skip(idx + 1));
        assert(parent@ =~= seq![all[idx as int]]);
        let mut others: Vec<Tile> = Vec::new();
        let n: usize = rest.len();
        let mut i: usize = 0;
        assert(tail.take(0) =~= seq![]);
        assert(tail.skip(0) =~= tail);
        let ghost head = self.tiles@;
        assert(head =~= all.take(idx as int));
        while i < n
            invariant
                i <= n,
                n == tail.len(),
                rest@ == tail.skip(i as int),
                self.tiles@ == head + dialogs_of(tail.take(i as int), id),
                others@ == others_of(tail.take(i as int), id),
                self@ == (FloatState { tiles: self.tiles@, ..old(self)@ }),
            decreases n - i,
        {
            let tile = rest.remove(0);
            proof {
                assert(tile == tail[i as int]);
                assert(rest@ =~= tail.skip(i + 1));
                assert(tail.take(i + 1).drop_last() =~= tail.take(i as int));
                assert(tail.take(i + 1).last() == tile);
            }
            let is_dialog = match tile.window.parent {
                Some(p) => p == id,
                None => false,
            };
            if is_dialog {
                self.tiles.push(tile);
                assert(self.tiles@ =~= head + dialogs_of(tail.take(i + 1), id));
            } else {
                others.push(tile);
            }
            i += 1;
        }
        assert(tail.take(i as int) =~= tail);
        self.tiles.append(&mut parent);
        self.tiles.append(&mut others);
        assert(self.tiles@ =~= with_dialogs_up(all, idx as int));
    }

    /// Adds a tile at a place in the stack.
    fn add_tile_at(&mut self, idx: usize, tile: Tile, activate: bool)
        requires
            old(self)@.wf(),
            idx <= old(self)@.tiles.len(),
        ensures
            final(self)@ == float_insert(old(self)@, idx as int, tile, activate),
            final(self)@.wf(),
    {
        let mut tile = tile;
        tile.sizing = SizingMode::Normal;
        let ghost added = tile;
        let id: u64 = tile.window.id;
        let was_empty = self.tiles.len() == 0;
        self.tiles.insert(idx, tile);
        let ghost inserted = self.tiles@;
        if activate || was_empty {
            self.active_window_id = Some(id);
        }
        self.bring_up_dialogs(idx);
        proof {
            assert(inserted[idx as int] == added);
            if activate || was_empty {
                assert(shows(inserted, id));
                lemma_shows_dialogs_up(inserted, idx as int, id);
            } else {
                let active = old(self)@.active->0;
                let before = old(self)@.tiles;
                let i = choose|i: int|
                    0 <= i < before.len() && (#[trigger] before[i]).window.id == active;
                assert(inserted[if i < idx { i } else { i + 1 }].window.id == active);
                lemma_shows_dialogs_up(inserted, idx as int, active);
            }
        }
    }

    /// Adds a tile on top.
    pub fn add_tile(&mut self, tile: Tile, activate: bool, placement: FloatPlacement)
        requires
            old(self)@.wf(),
        ensures
            final(self)@ == float_with_request(
                float_insert(old(self)@, 0, tile, activate),
                FloatRequest::Place { window: tile.window.id, placement },
            ),
            final(self)@.wf(),
    {
        let window: u64 = tile.window.id;
        self.add_tile_at(0, tile, activate);
        self.requests.push(FloatRequest::Place { window, placement });
    }

    /// Adds a tile right above the one that holds `above`.
    pub fn add_tile_above(&mut self, above: u64, tile: Tile, activate: bool)
        requires
            old(self)@.wf(),
            old(self)@.holds(above),
        ensures
            final(self)@ == float_with_request(
                float_insert(old(self)@, tile_of(old(self)@.tiles, above), tile, activate),
                FloatRequest::Place {
                    window: tile.window.id,
                    placement: FloatPlacement::Over(above),
                },
            ),
            final(self)@.wf(),
    {
        let window: u64 = tile.window.id;
        let idx: usize = self.index_of(above);
        self.add_tile_at(idx, tile, activate);
        self.requests.push(
            FloatRequest::Place { window, placement: FloatPlacement::Over(above) },
        );
    }

    fn forget_resize(&mut self, id: u64)
        ensures
            final(self)@ == (FloatState {
                resize: float_resize_without(old(self)@, id),
                ..old(self)@
            }),
    {
        if let Some(resize) = self.interactive_resize {
            if resize.0 == id {
                self.interactive_resize = None;
            }
        }
    }

    fn remove_tile_at(&mut self, idx: usize) -> (r: RemovedTile)
        requires
            old(self)@.wf(),
            idx < old(self)@.tiles.len(),
        ensures
            r == float_removed(old(self)@.tiles[idx as int]),
            final(self)@ == float_remove_at(old(self)@, idx as int),
            final(self)@.wf(),
    {
        let tile = self.tiles.remove(idx);
        let id: u64 = tile.window.id;
        let was_active = match self.active_window_id {
            Some(active) => active == id,
            None => false,
        };
        if self.tiles.len() == 0 {
            self.active_window_id = None;
        } else if was_active {
            self.active_window_id = Some(self.tiles[0].window.id);
        }
        self.forget_resize(id);
        proof {
            let rest = self.tiles@;
            if rest.len() > 0 {
                if was_active {
                    assert(rest[0].window.id == self@.active->0);
                } else {
                    let active = old(self)@.active->0;
                    let before = old(self)@.tiles;
                    let i = choose|i: int|
                        0 <= i < before.len() && (#[trigger] before[i]).window.id == active;
                    assert(rest[if i < idx { i } else { i - 1 }].window.id == active);
                }
            }
        }
        let width = ColumnWidth::Fixed(tile.width);
        RemovedTile { tile, width, is_full_width: false, is_floating: true }
    }

    /// Removes a window.
    pub fn remove_tile(&mut self, id: u64) -> (r: RemovedTile)
        requires
            old(self)@.wf(),
            old(self)@.holds(id),
        ensures
            r == float_removed_window(old(self)@, id),
            final(self)@ == float_remove(old(self)@, id),
            final(self)@.wf(),
    {
        let idx: usize = self.index_of(id);
        let visible: u64 = self.tiles[idx].window.id;
        if visible == id && self.tiles[idx].below.is_none() {
            return self.remove_tile_at(idx);
        }
        let tile = self.tiles.remove(idx);
        let ghost whole = tile;
        let sizing = tile.sizing;
        let restore_to_floating = tile.restore_to_floating;
        let width: u64 = tile.width;
        let (window, rest) = tile.take_window(id);
        let was_active = match self.active_window_id {
            Some(active) => active == id,
            None => false,
        };
        match rest {
            Some(rest) => {
                if was_active && visible == id {
                    self.active_window_id = Some(rest.window.id);
                }
                self.tiles.insert(idx, rest);
                proof {
                    let before = old(self)@.tiles;
                    assert(self.tiles@ =~= before.update(idx as int, rest));
                    if was_active && visible == id {
                        assert(self.tiles@[idx as int].window.id == rest.window.id);
                    } else {
                        let active = old(self)@.active->0;
                        let i = choose|i: int|
                            0 <= i < before.len() && (#[trigger] before[i]).window.id == active;
                        assert(self.tiles@[i].window.id == active);
                    }
                }
            },
            None => {
                assert(false);
            },
        }
        self.forget_resize(id);
        let tile = Tile { window, below: None, sizing, restore_to_floating, width };
        RemovedTile {
            tile,
            width: ColumnWidth::Fixed(width),
            is_full_width: false,
            is_floating: true,
        }
    }

    /// Index of the first tile that shows the active window.
    fn active_index(&self) -> (r: usize)
        requires
            self@.wf(),
            self@.active is Some,
        ensures
            r < self@.tiles.len(),
            self@.tiles[r as int].window.id == self@.active->0,
            forall|j: int| 0 <= j < r ==> (#[trigger] self@.tiles[j]).window.id != self@.active->0,
    {
        let id: u64 = match self.active_window_id {
            Some(id) => id,
            None => 0,
        };
        let mut i: usize = 0;
        while i < self.tiles.len()
            invariant
                i <= self.tiles@.len(),
                self@.active == Some(id),
                forall|j: int| 0 <= j < i ==> (#[trigger] self.tiles@[j]).window.id != id,
            decreases self.tiles@.len() - i,
        {
            if self.tiles[i].window.id == id {
                return i;
            }
            i += 1;
        }
        assert(false) by {
            assert(shows(self@.tiles, id));
        }
        0
    }

    /// Removes the active tile with all of its windows.
    pub fn remove_active_tile(&mut self) -> (r: Option<RemovedTile>)
        requires
            old(self)@.wf(),
        ensures
            r is None <==> old(self)@.tiles.len() == 0,
            r is None ==> final(self)@ == old(self)@,
            r is Some ==> {
                let idx = shown_at(old(self)@.tiles, old(self)@.active->0);
                &&& r->0 == float_removed(old(self)@.tiles[idx])
                &&& final(self)@ == float_remove_at(old(self)@, idx)
            },
            final(self)@.wf(),
    {
        if self.active_window_id.is_none() {
            return None;
        }
        let idx: usize = self.active_index();
        proof {
            lemma_shown_at(self@.tiles, self@.active->0, idx as int);
        }
        Some(self.remove_tile_at(idx))
    }

    /// Brings a window to the top and moves the focus there, if it floats.
    pub fn activate_window(&mut self, id: u64) -> (r: bool)
        requires
            old(self)@.wf(),
        ensures
            r == old(self)@.holds(id),
            final(self)@ == (if r {
                float_activate(old(self)@, id)
            } else {
                old(self)@
            }),
            final(self)@.wf(),
    {
        let idx: usize = self.index_of(id);
        if idx >= self.tiles.len() {
            return false;
        }
        let tile = self.tiles.remove(idx);
        let shown: u64 = tile.window.id;
        self.tiles.insert(0, tile);
        self.active_window_id = Some(shown);
        let ghost raised = self.tiles@;
        self.bring_up_dialogs(0);
        proof {
            assert(raised[0].window.id == shown);
            lemma_shows_dialogs_up(raised, 0, shown);
        }
        true
    }

    /// Moves the focus to a window where it is, if it floats.
    pub fn activate_window_without_raising(&mut self, id: u64) -> (r: bool)
        requires
            old(self)@.wf(),
        ensures
            r == old(self)@.holds(id),
            final(self)@ == (if r {
                float_focus(old(self)@, id)
            } else {
                old(self)@
            }),
            final(self)@.wf(),
    {
        let idx: usize = self.index_of(id);
        if idx >= self.tiles.len() {
            return false;
        }
        let shown: u64 = self.tiles[idx].window.id;
        assert(self.tiles@[idx as int].window.id == shown);
        self.active_window_id = Some(shown);
        true
    }

    /// Brings the dialogs of a window up, if it floats.
    pub fn descendants_added(&mut self, id: u64) -> (r: bool)
        requires
            old(self)@.wf(),
        ensures
            r == old(self)@.holds(id),
            final(self)@ == (if r {
                FloatState {
                    tiles: with_dialogs_up(old(self)@.tiles, tile_of(old(self)@.tiles, id)),
                    ..old(self)@
                }
            } else {
                old(self)@
            }),
            final(self)@.wf(),
    {
        let idx: usize = self.index_of(id);
        if idx >= self.tiles.len() {
            return false;
        }
        proof {
            lemma_shows_dialogs_up(self@.tiles, idx as int, self@.active->0);
        }
        self.bring_up_dialogs(idx);
        true
    }

    /// Leaves a piece of work to the geometry.
    pub fn request(&mut self, request: FloatRequest)
        ensures
            final(self)@ == float_with_request(old(self)@, request),
    {
        self.requests.push(request);
    }

    /// Hands the work over to the geometry, oldest first.
    pub fn take_requests(&mut self) -> (r: Vec<FloatRequest>)
        ensures
            r@ == old(self)@.requests,
            final(self)@ == (FloatState { requests: Seq::empty(), ..old(self)@ }),
    {
        let mut r: Vec<FloatRequest> = Vec::new();
        std::mem::swap(&mut r, &mut self.requests);
        r
    }

    /// Takes note of what the geometry has in motion.
    pub fn report_motion(&mut self, motion: Motion)
        ensures
            final(self)@ == (FloatState { motion, ..old(self)@ }),
    {
        self.motion = motion;
    }

    pub fn motion(&self) -> (r: Motion)
        ensures
            r == self@.motion,
    {
        self.motion
    }

    pub fn geometry(&self) -> (r: ViewGeometry)
        ensures
            r == self@.geometry,
    {
        self.geometry
    }

    /// The layer is now shown on an output like this.
    pub fn update_config(&mut self, geometry: ViewGeometry)
        ensures
            final(self)@ == (FloatState { geometry, ..old(self)@ }),
    {
        self.geometry = geometry;
    }

    pub fn interactive_resize_begin(&mut self, id: u64, edges: ResizeEdge) -> (r: bool)
        ensures
            (final(self)@, r) == float_resize_begin(old(self)@, id, edges),
    {
        if self.interactive_resize.is_some() {
            return false;
        }
        self.interactive_resize = Some((id, edges));
        true
    }

    pub fn interactive_resize_update(&mut self, id: u64, dx: u64, dy: u64) -> (r: bool)
        ensures
            (final(self)@, r) == float_resize_update(old(self)@, id, dx, dy),
    {
        if let Some(resize) = self.interactive_resize {
            if resize.0 == id {
                self.requests.push(FloatRequest::Drag { window: id, dx, dy });
                return true;
            }
        }
        false
    }

    pub fn interactive_resize_end(&mut self, window: Option<u64>)
        ensures
            final(self)@ == float_resize_end(old(self)@, window),
    {
        if let Some(resize) = self.interactive_resize {
            match window {
                Some(id) => {
                    if resize.0 == id {
                        self.interactive_resize = None;
                    }
                },
                None => {
                    self.interactive_resize = None;
                },
            }
        }
    }

    /// Whether there is an active tile unless there is none at all.
    pub fn verify_invariants(&self) -> (r: bool)
        ensures
            r == self@.wf(),
    {
        match self.active_window_id {
            None => self.tiles.len() == 0,
            Some(id) => {
                let mut i: usize = 0;
                while i < self.tiles.len()
                    invariant
                        self@.active == Some(id),
                        i <= self.tiles@.len(),
                        forall|j: int| 0 <= j < i ==> (#[trigger] self.tiles@[j]).window.id != id,
                    decreases self.tiles@.len() - i,
                {
                    if self.tiles[i].window.id == id {
                        assert(self@.tiles[i as int].window.id == id);
                        return true;
                    }
                    i += 1;
                }
                false
            },
        }
    }
}

/// The first tile at or after `i` that shows a window, or the number of tiles.
pub open spec fn shown_from(tiles: Seq<Tile>, id: u64, i: int) -> int
    decreases tiles.len() - i,
{
    if i >= tiles.len() {
        tiles.len() as int
    } else if tiles[i].window.id == id {
        i
    } else {
        shown_from(tiles, id, i + 1)
    }
}

/// The first tile that shows a window, or the number of tiles.
pub open spec fn shown_at(tiles: Seq<Tile>, id: u64) -> int {
    shown_from(tiles, id, 0)
}

proof fn lemma_shown_from(tiles: Seq<Tile>, id: u64, i: int, at: int)
    requires
        0 <= i <= at < tiles.len(),
        tiles[at].window.id == id,
        forall|j: int| i <= j < at ==> (#[trigger] tiles[j]).window.id != id,
    ensures
        shown_from(tiles, id, i) == at,
    decreases tiles.len() - i,
{
    if i < at {
        lemma_shown_from(tiles, id, i + 1, at);
    }
}

proof fn lemma_shown_at(tiles: Seq<Tile>, id: u64, at: int)
    requires
        0 <= at < tiles.len(),
        tiles[at].window.id == id,
        forall|j: int| 0 <= j < at ==> (#[trigger] tiles[j]).window.id != id,
    ensures
        shown_at(tiles, id) == at,
{
    lemma_shown_from(tiles, id, 0, at);
}

} // verus!
