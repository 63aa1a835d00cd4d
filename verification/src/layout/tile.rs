//! Windows, the tiles that show them and the columns that stack tiles.

use vstd::prelude::*;
use crate::ipc::ColumnDisplay;

verus! {

/// How much of the screen a window asks to cover.
#[derive(Debug, Clone, Copy, PartialEq, Eq, Structural)]
pub enum SizingMode {
    Normal,
    Maximized,
    Fullscreen,
}

impl SizingMode {
    pub fn is_normal(self) -> (r: bool)
        ensures
            r == (self is Normal),
    {
        matches!(self, SizingMode::Normal)
    }

    pub fn is_maximized(self) -> (r: bool)
        ensures
            r == (self is Maximized),
    {
        matches!(self, SizingMode::Maximized)
    }

    pub fn is_fullscreen(self) -> (r: bool)
        ensures
            r == (self is Fullscreen),
    {
        matches!(self, SizingMode::Fullscreen)
    }
}

/// The width of a column, as the bit pattern of a double.
#[derive(Debug, Clone, Copy, PartialEq, Eq, Structural)]
pub enum ColumnWidth {
    /// Proportion of the current view width.
    Proportion(u64),
    /// Fixed width in logical pixels.
    Fixed(u64),
}

/// What the layout knows of a window.
#[derive(Debug)]
pub struct Window {
    /// Identifies the window.
    pub id: u64,
    /// The application that the window belongs to, once it has said so.
    pub app_id: Option<String>,
    /// The window that this one is a dialog of.
    pub parent: Option<u64>,
    /// Whether the window asks for attention.
    pub is_urgent: bool,
}

/// Windows hidden beneath the visible window of a tile.
#[derive(Debug)]
pub struct Stack {
    pub window: Window,
    pub below: Option<Box<Stack>>,
}

/// Whether `id` is one of the windows in `stack`.
pub open spec fn stack_holds(stack: Option<Box<Stack>>, id: u64) -> bool
    decreases stack,
{
    match stack {
        None => false,
        Some(s) => s.window.id == id || stack_holds(s.below, id),
    }
}

fn stack_contains(stack: &Option<Box<Stack>>, id: u64) -> (r: bool)
    ensures
        r == stack_holds(*stack, id),
    decreases *stack,
{
    match stack {
        None => false,
        Some(s) => s.window.id == id || stack_contains(&s.below, id),
    }
}

/// What is left of `stack` without its topmost window with this id.
pub open spec fn stack_without(stack: Option<Box<Stack>>, id: u64) -> Option<Box<Stack>>
    decreases stack,
{
    match stack {
        None => None,
        Some(s) => if s.window.id == id {
            s.below
        } else {
            Some(Box::new(Stack { window: s.window, below: stack_without(s.below, id) }))
        },
    }
}

/// The topmost window with this id in a `stack` that holds one.
pub open spec fn stack_window(stack: Option<Box<Stack>>, id: u64) -> Window
    decreases stack,
{
    match stack {
        None => arbitrary(),
        Some(s) => if s.window.id == id {
            s.window
        } else {
            stack_window(s.below, id)
        },
    }
}

fn stack_take(stack: Box<Stack>, id: u64) -> (r: (Window, Option<Box<Stack>>))
    requires
        stack_holds(Some(stack), id),
    ensures
        r.0 == stack_window(Some(stack), id),
        r.1 == stack_without(Some(stack), id),
    decreases stack,
{
    let s = *stack;
    let Stack { window, below } = s;
    if window.id == id {
        return (window, below);
    }
    assert(stack_holds(below, id));
    match below {
        Some(b) => {
            let (taken, rest) = stack_take(b, id);
            (taken, Some(Box::new(Stack { window, below: rest })))
        },
        None => {
            assert(false);
            (window, None)
        },
    }
}

/// A place in the layout that shows one window and may hide others beneath it.
#[derive(Debug)]
pub struct Tile {
    /// The window on top.
    pub window: Window,
    /// The windows hidden beneath it, topmost first.
    pub below: Option<Box<Stack>>,
    /// The sizing mode that the window was last asked to take while it was
    /// outside of a column; inside of a column the column decides.
    pub sizing: SizingMode,
    /// Whether leaving fullscreen or maximized puts the window back to the
    /// floating layer.
    pub restore_to_floating: bool,
    /// The width that the tile was last shown with, in logical pixels as the
    /// bit pattern of a double.
    pub width: u64,
}

impl Tile {
    /// Whether `id` is the visible window or one of the hidden ones.
    pub open spec fn holds(&self, id: u64) -> bool {
        self.window.id == id || stack_holds(self.below, id)
    }

    pub fn contains(&self, id: u64) -> (r: bool)
        ensures
            r == self.holds(id),
    {
        self.window.id == id || stack_contains(&self.below, id)
    }

    /// The window with this id in a tile that holds one.
    pub open spec fn window_with(self, id: u64) -> Window {
        if self.window.id == id {
            self.window
        } else {
            stack_window(self.below, id)
        }
    }

    /// What is left without the window: nothing where it is the only one. The
    /// window beneath a removed visible one comes up.
    pub open spec fn without(self, id: u64) -> Option<Tile> {
        if self.window.id == id {
            match self.below {
                None => None,
                Some(s) => Some(Tile { window: s.window, below: s.below, ..self }),
            }
        } else {
            Some(Tile { below: stack_without(self.below, id), ..self })
        }
    }

    /// This tile with `window` put on top of it.
    pub open spec fn with_on_top(self, window: Window) -> Tile {
        Tile {
            window,
            below: Some(Box::new(Stack { window: self.window, below: self.below })),
            ..self
        }
    }

    /// Takes one window out of the tile.
    pub fn take_window(self, id: u64) -> (r: (Window, Option<Tile>))
        requires
            self.holds(id),
        ensures
            r.0 == self.window_with(id),
            r.1 == self.without(id),
    {
        let Tile { window, below, sizing, restore_to_floating, width } = self;
        if window.id == id {
            match below {
                None => (window, None),
                Some(stack) => {
                    let Stack { window: next, below } = *stack;
                    (
                        window,
                        Some(Tile { window: next, below, sizing, restore_to_floating, width }),
                    )
                },
            }
        } else {
            match below {
                Some(stack) => {
                    let (taken, rest) = stack_take(stack, id);
                    (taken, Some(Tile { window, below: rest, sizing, restore_to_floating, width }))
                },
                None => {
                    assert(false);
                    (window, None)
                },
            }
        }
    }

    /// Puts a window on top of the tile.
    pub fn put_on_top(self, window: Window) -> (r: Tile)
        ensures
            r == self.with_on_top(window),
    {
        let Tile { window: prev, below, sizing, restore_to_floating, width } = self;
        Tile {
            window,
            below: Some(Box::new(Stack { window: prev, below })),
            sizing,
            restore_to_floating,
            width,
        }
    }
}

/// A tile taken out of the layout, with what is needed to put it back.
#[derive(Debug)]
pub struct RemovedTile {
    pub tile: Tile,
    pub width: ColumnWidth,
    pub is_full_width: bool,
    pub is_floating: bool,
}

/// Tiles stacked vertically.
#[derive(Debug)]
pub struct Column {
    pub tiles: Vec<Tile>,
    pub active_tile_idx: usize,
    pub width: ColumnWidth,
    pub is_full_width: bool,
    pub is_pending_fullscreen: bool,
    pub is_pending_maximized: bool,
    pub display: ColumnDisplay,
}

/// The contents of a [`Column`].
pub struct ColumnState {
    pub tiles: Seq<Tile>,
    pub active: int,
    pub width: ColumnWidth,
    pub full_width: bool,
    pub fullscreen: bool,
    pub maximized: bool,
    pub display: ColumnDisplay,
}

impl ColumnState {
    /// A column holds a tile, and its active tile is one of them. Only the
    /// tiles of a tabbed column can share fullscreen or maximized mode.
    pub open spec fn wf(self) -> bool {
        &&& self.tiles.len() > 0
        &&& 0 <= self.active < self.tiles.len()
        &&& self.tiles.len() > 1 && !(self.display is Tabbed) ==> !self.fullscreen
            && !self.maximized
    }

    pub open spec fn holds(self, id: u64) -> bool {
        exists|i: int| 0 <= i < self.tiles.len() && (#[trigger] self.tiles[i]).holds(id)
    }

    /// The sizing mode that the column's windows are asked to take.
    pub open spec fn mode(self) -> SizingMode {
        if self.fullscreen {
            SizingMode::Fullscreen
        } else if self.maximized {
            SizingMode::Maximized
        } else {
            SizingMode::Normal
        }
    }
}

impl View for Column {
    type V = ColumnState;

    open spec fn view(&self) -> ColumnState {
        ColumnState {
            tiles: self.tiles@,
            active: self.active_tile_idx as int,
            width: self.width,
            full_width: self.is_full_width,
            fullscreen: self.is_pending_fullscreen,
            maximized: self.is_pending_maximized,
            display: self.display,
        }
    }
}

/// A column of one tile.
pub open spec fn single_tile_column(
    tile: Tile,
    width: ColumnWidth,
    full_width: bool,
) -> ColumnState {
    ColumnState {
        tiles: seq![tile],
        active: 0,
        width,
        full_width,
        fullscreen: tile.sizing is Fullscreen,
        maximized: tile.sizing is Maximized,
        display: ColumnDisplay::Normal,
    }
}

impl Column {
    /// Wraps `tile` in a column, which takes over the sizing mode that the
    /// window was asked to take.
    pub fn new_with_tile(tile: Tile, width: ColumnWidth, is_full_width: bool) -> (r: Column)
        ensures
            r@ == single_tile_column(tile, width, is_full_width),
            r@.wf(),
    {
        let is_pending_fullscreen = tile.sizing.is_fullscreen();
        let is_pending_maximized = tile.sizing.is_maximized();
        let mut tiles: Vec<Tile> = Vec::new();
        tiles.push(tile);
        Column {
            tiles,
            active_tile_idx: 0,
            width,
            is_full_width,
            is_pending_fullscreen,
            is_pending_maximized,
            display: ColumnDisplay::Normal,
        }
    }

    pub fn contains(&self, id: u64) -> (r: bool)
        ensures
            r == self@.holds(id),
    {
        let mut i: usize = 0;
        while i < self.tiles.len()
            invariant
                i <= self.tiles@.len(),
                forall|j: int| 0 <= j < i ==> !(#[trigger] self.tiles@[j]).holds(id),
            decreases self.tiles@.len() - i,
        {
            if self.tiles[i].contains(id) {
                assert(self@.tiles[i as int].holds(id));
                return true;
            }
            i += 1;
        }
        false
    }

    /// Exchanges two tiles.
    pub fn swap_tiles(&mut self, a: usize, b: usize)
        requires
            a < b < old(self)@.tiles.len(),
        ensures
            final(self)@ == (ColumnState {
                tiles: old(self)@.tiles.update(a as int, old(self)@.tiles[b as int]).update(
                    b as int,
                    old(self)@.tiles[a as int],
                ),
                ..old(self)@
            }),
    {
        let lower = self.tiles.remove(b);
        let upper = self.tiles.remove(a);
        self.tiles.insert(a, lower);
        self.tiles.insert(b, upper);
        assert(self.tiles@ =~= old(self)@.tiles.update(
            a as int,
            old(self)@.tiles[b as int],
        ).update(b as int, old(self)@.tiles[a as int]));
    }

    /// Puts another tile in place of the one at `t`.
    pub fn replace_tile(&mut self, t: usize, tile: Tile) -> (r: Tile)
        requires
            t < old(self)@.tiles.len(),
        ensures
            r == old(self)@.tiles[t as int],
            final(self)@ == (ColumnState {
                tiles: old(self)@.tiles.update(t as int, tile),
                ..old(self)@
            }),
    {
        let r = self.tiles.remove(t);
        self.tiles.insert(t, tile);
        assert(self.tiles@ =~= old(self)@.tiles.update(t as int, tile));
        r
    }

    /// Whether the column holds a tile, its active tile exists, and only tiles
    /// that are shown one at a time share fullscreen or maximized mode.
    pub fn verify_invariants(&self) -> (r: bool)
        ensures
            r == self@.wf(),
    {
        let shared = self.tiles.len() > 1 && self.display == ColumnDisplay::Normal;
        self.active_tile_idx < self.tiles.len() && !(shared && (self.is_pending_fullscreen
            || self.is_pending_maximized))
    }

    pub fn pending_sizing_mode(&self) -> (r: SizingMode)
        ensures
            r == self@.mode(),
    {
        if self.is_pending_fullscreen {
            SizingMode::Fullscreen
        } else if self.is_pending_maximized {
            SizingMode::Maximized
        } else {
            SizingMode::Normal
        }
    }
}

/// A window that is put on top of a tile hides what was there, and what was there is there
/// again without it.
pub proof fn what_is_hidden_comes_up_again(tile: Tile, window: Window)
    ensures
        tile.with_on_top(window).window == window,
        tile.with_on_top(window).without(window.id) == Some(tile),
        forall|id: u64| #[trigger]
            tile.with_on_top(window).holds(id) <==> id == window.id || tile.holds(id),
{
}

/// A tile without its only window is gone, and without its visible window shows the next one.
pub proof fn the_next_window_comes_up(tile: Tile)
    ensures
        tile.without(tile.window.id) is None <==> tile.below is None,
        tile.below is Some ==> tile.without(tile.window.id)->0.window == tile.below->0.window,
{
}

} // verus!
