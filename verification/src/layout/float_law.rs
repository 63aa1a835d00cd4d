//! The order of floating windows, and their focus.

use vstd::prelude::*;
use crate::layout::floating::{
    dialogs_of, float_insert, float_remove_at, float_resize_begin, float_resize_end,
    float_resize_update, others_of, with_dialogs_up, FloatRequest, FloatState,
};
use crate::layout::geometry::ResizeEdge;
use crate::layout::tile::{SizingMode, Tile};

verus! {

proof fn lemma_dialogs(tiles: Seq<Tile>, id: u64)
    ensures
        forall|i: int|
            0 <= i < dialogs_of(tiles, id).len() ==> (#[trigger] dialogs_of(
                tiles,
                id,
            )[i]).window.parent == Some(id),
        forall|i: int|
            0 <= i < others_of(tiles, id).len() ==> (#[trigger] others_of(
                tiles,
                id,
            )[i]).window.parent != Some(id),
        dialogs_of(tiles, id).len() + others_of(tiles, id).len() == tiles.len(),
    decreases tiles.len(),
{
    if tiles.len() > 0 {
        lemma_dialogs(tiles.drop_last(), id);
    }
}

proof fn lemma_parts(front: Seq<Tile>, up: Seq<Tile>, tile: Tile, others: Seq<Tile>)
    ensures
        ({
            let all = front + up + seq![tile] + others;
            let at = front.len() + up.len();
            &&& all.len() == at + 1 + others.len()
            &&& all.take(front.len() as int) == front
            &&& all[at as int] == tile
            &&& forall|i: int| front.len() <= i < at ==> #[trigger] all[i] == up[i - front.len()]
            &&& forall|i: int| at < i < all.len() ==> #[trigger] all[i] == others[i - at - 1]
        }),
{
    let all = front + up + seq![tile] + others;
    assert(all.take(front.len() as int) =~= front);
}

/// The dialogs of a window that are behind it come right in front of it. What is in front of
/// it already stays, and no dialog is behind it any more.
pub proof fn dialogs_come_in_front(tiles: Seq<Tile>, idx: int)
    requires
        0 <= idx < tiles.len(),
    ensures
        ({
            let after = with_dialogs_up(tiles, idx);
            let id = tiles[idx].window.id;
            let at = idx + dialogs_of(tiles.skip(idx + 1), id).len();
            &&& after.len() == tiles.len()
            &&& after[at] == tiles[idx]
            &&& after.take(idx) == tiles.take(idx)
            &&& forall|i: int| idx <= i < at ==> (#[trigger] after[i]).window.parent == Some(id)
            &&& forall|i: int|
                at < i < after.len() ==> (#[trigger] after[i]).window.parent != Some(id)
        }),
{
    let after = with_dialogs_up(tiles, idx);
    let id = tiles[idx].window.id;
    let tail = tiles.skip(idx + 1);
    lemma_dialogs(tail, id);
    let up = dialogs_of(tail, id);
    let others = others_of(tail, id);
    let at = idx + up.len();
    lemma_parts(tiles.take(idx), up, tiles[idx], others);
    assert(after[at] == tiles[idx]);
    assert forall|i: int| idx <= i < at implies (#[trigger] after[i]).window.parent == Some(id) by {
        assert(after[i] == up[i - idx]);
    }
    assert forall|i: int| at < i < after.len() implies (#[trigger] after[i]).window.parent != Some(
        id,
    ) by {
        assert(after[i] == others[i - at - 1]);
    }
}

/// A window without dialogs behind it stays where it is among the others.
pub proof fn windows_without_dialogs_stay(tiles: Seq<Tile>, idx: int)
    requires
        0 <= idx < tiles.len(),
        forall|i: int|
            idx < i < tiles.len() ==> (#[trigger] tiles[i]).window.parent != Some(
                tiles[idx].window.id,
            ),
    ensures
        with_dialogs_up(tiles, idx) == tiles,
{
    let id = tiles[idx].window.id;
    let tail = tiles.skip(idx + 1);
    assert forall|i: int| 0 <= i < tail.len() implies (#[trigger] tail[i]).window.parent != Some(
        id,
    ) by {
        assert(tail[i] == tiles[idx + 1 + i]);
    }
    lemma_no_dialogs(tail, id);
    assert(with_dialogs_up(tiles, idx) =~= tiles);
}

proof fn lemma_no_dialogs(tiles: Seq<Tile>, id: u64)
    requires
        forall|i: int| 0 <= i < tiles.len() ==> (#[trigger] tiles[i]).window.parent != Some(id),
    ensures
        dialogs_of(tiles, id) == Seq::<Tile>::empty(),
        others_of(tiles, id) == tiles,
    decreases tiles.len(),
{
    if tiles.len() > 0 {
        let front = tiles.drop_last();
        assert forall|i: int| 0 <= i < front.len() implies (
        #[trigger] front[i]).window.parent != Some(id) by {
            assert(front[i] == tiles[i]);
        }
        lemma_no_dialogs(front, id);
        assert(front.push(tiles.last()) =~= tiles);
    }
}

/// A new floating window has the focus if it asks for it or is the first one, and else the
/// focus stays. It is never fullscreen or maximized.
pub proof fn new_floats_get_the_focus_they_ask_for(
    s: FloatState,
    idx: int,
    tile: Tile,
    activate: bool,
)
    requires
        s.wf(),
        0 <= idx <= s.tiles.len(),
    ensures
        ({
            let after = float_insert(s, idx, tile, activate);
            &&& activate || s.tiles.len() == 0 ==> after.active == Some(tile.window.id)
            &&& !activate && s.tiles.len() > 0 ==> after.active == s.active
            &&& after.tiles.len() == s.tiles.len() + 1
            &&& exists|i: int|
                {
                    &&& 0 <= i < after.tiles.len()
                    &&& (#[trigger] after.tiles[i]).window == tile.window
                    &&& after.tiles[i].below == tile.below
                    &&& after.tiles[i].sizing is Normal
                }
        }),
{
    let placed = Tile { sizing: SizingMode::Normal, ..tile };
    let tiles = s.tiles.insert(idx, placed);
    dialogs_come_in_front(tiles, idx);
    assert(tiles[idx] == placed);
    let at = idx + dialogs_of(tiles.skip(idx + 1), placed.window.id).len();
    let after = float_insert(s, idx, tile, activate);
    lemma_dialogs(tiles.skip(idx + 1), placed.window.id);
    assert(after.tiles[at].window == tile.window);
}

/// When a floating window goes, the focus stays, or goes to the topmost one if it was there.
pub proof fn focus_survives_a_float(s: FloatState, idx: int)
    requires
        s.wf(),
        0 <= idx < s.tiles.len(),
    ensures
        ({
            let after = float_remove_at(s, idx);
            &&& after.tiles == s.tiles.remove(idx)
            &&& s.tiles.len() == 1 ==> after.active is None
            &&& s.tiles.len() > 1 && s.active == Some(s.tiles[idx].window.id) ==> after.active
                == Some(after.tiles[0].window.id)
            &&& s.tiles.len() > 1 && s.active != Some(s.tiles[idx].window.id) ==> after.active
                == s.active
            &&& s.resize matches Some(r) ==> (after.resize is None <==> r.0
                == s.tiles[idx].window.id)
        }),
{
}

/// One floating window is resized at a time, and only that one follows the pointer.
pub proof fn one_float_is_resized_at_a_time(
    s: FloatState,
    id: u64,
    edges: ResizeEdge,
    dx: u64,
    dy: u64,
)
    ensures
        float_resize_begin(s, id, edges).1 <==> s.resize is None,
        float_resize_begin(s, id, edges).1 ==> float_resize_begin(s, id, edges).0.resize == Some(
            (id, edges),
        ),
        s.resize is Some ==> float_resize_begin(s, id, edges).0 == s,
        float_resize_update(s, id, dx, dy).1 <==> s.resize is Some && (s.resize->0).0 == id,
        float_resize_update(s, id, dx, dy).1 ==> float_resize_update(
            s,
            id,
            dx,
            dy,
        ).0.requests == s.requests.push(FloatRequest::Drag { window: id, dx, dy }),
        !float_resize_update(s, id, dx, dy).1 ==> float_resize_update(s, id, dx, dy).0 == s,
        float_resize_end(s, None).resize is None,
        s.resize matches Some(r) ==> (float_resize_end(s, Some(id)).resize is None <==> r.0 == id),
{
}

} // verus!
