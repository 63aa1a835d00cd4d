//! A window that moves through columns keeps its width, and the columns that it
//! leaves get theirs back.

use vstd::prelude::*;
use crate::layout::row::{
    activate_window, column_of, column_of_finds_the_first, column_with, consume_or_expel_right,
    has_target, leaving_tile, target_position, tile_of_finds_the_first, width_of, width_reported,
    Guest, Request, SpaceState,
};
use crate::layout::tile::{ColumnState, ColumnWidth};

verus! {

/// Whether a window is alone in a column, next to one on the right that it could
/// join.
pub open spec fn can_join_right(s: SpaceState, id: u64) -> bool {
    let c = column_of(s.columns, id);
    &&& s.wf()
    &&& s.holds(id)
    &&& s.columns[c].tiles.len() == 1
    &&& s.columns[c].tiles[0].window.id == id
    &&& c + 1 < s.columns.len()
    &&& !s.columns[c + 1].holds(id)
}

/// A window that joins the column to the right asks for that to be as wide as the
/// one that it came from. The column that it joins keeps its width until then,
/// and remembers it.
pub proof fn joining_window_asks_for_its_width(s: SpaceState, id: u64)
    requires
        can_join_right(s, id),
    ensures
        ({
            let c = column_of(s.columns, id);
            let (from, to) = (s.columns[c], s.columns[c + 1]);
            let after = consume_or_expel_right(s, Some(id));
            &&& after.requests == s.requests.push(
                Request::Widen { window: id, width: from.width, full_width: from.full_width },
            )
            &&& after.guest == Some(
                Guest { window: id, width: to.width, full_width: to.full_width },
            )
            &&& width_of(after.columns[c]) == width_of(to)
            &&& after.columns[c].tiles == to.tiles.push(leaving_tile(from, 0))
        }),
{
    column_of_finds_the_first(s, id);
    let c = column_of(s.columns, id);
    tile_of_finds_the_first(s.columns[c], id);
    let after = consume_or_expel_right(s, Some(id));
    let to = s.columns[c + 1];
    let tile = leaving_tile(s.columns[c], 0);
    let was_active = s.active == c && s.columns[c].active == 0;
    let both = column_with(to, to.tiles.len() as int, tile, was_active);
    assert(s.columns.remove(c)[c] == to);
    assert(after.columns == s.columns.remove(c).update(c, both));
    assert(both.tiles =~= to.tiles.push(tile));
}

/// A window that joined the column to the right and moves on to the right has a
/// column of its own again, with the width that the shared one had in between,
/// and the column that it leaves gets back the width that it had before.
pub proof fn left_behind_column_gets_its_width_back(
    s: SpaceState,
    id: u64,
    width: ColumnWidth,
    full_width: bool,
)
    requires
        can_join_right(s, id),
    ensures
        ({
            let c = column_of(s.columns, id);
            let joined = consume_or_expel_right(s, Some(id));
            let grown = width_reported(joined, id, width, full_width);
            let after = consume_or_expel_right(grown, Some(id));
            &&& after.columns.len() == s.columns.len()
            &&& after.columns[c].tiles == s.columns[c + 1].tiles
            &&& width_of(after.columns[c]) == width_of(s.columns[c + 1])
            &&& after.columns[c + 1].tiles.len() == 1
            &&& after.columns[c + 1].tiles[0].window.id == id
            &&& width_of(after.columns[c + 1]) == (width, full_width)
        }),
{
    column_of_finds_the_first(s, id);
    let c = column_of(s.columns, id);
    tile_of_finds_the_first(s.columns[c], id);
    joining_window_asks_for_its_width(s, id);
    let to = s.columns[c + 1];
    let n = to.tiles.len() as int;
    let joined = consume_or_expel_right(s, Some(id));
    assert(joined.columns.len() == s.columns.len() - 1);
    let shared = joined.columns[c];
    assert(shared.tiles[n].window.id == id);
    assert(shared.tiles[n].holds(id));
    assert(shared.holds(id));
    assert(joined.holds(id));
    column_of_finds_the_first(joined, id);
    assert(column_of(joined.columns, id) == c) by {
        let d = column_of(joined.columns, id);
        if d < c {
            assert(joined.columns[d] == s.columns[d]);
        }
    }
    let grown = width_reported(joined, id, width, full_width);
    let wide = ColumnState { width, full_width, ..shared };
    assert(grown.columns == joined.columns.update(c, wide));
    assert(wide.tiles[n].holds(id));
    assert(wide.holds(id));
    assert(grown.columns[c] == wide);
    assert(grown.holds(id));
    column_of_finds_the_first(grown, id);
    assert(column_of(grown.columns, id) == c) by {
        let d = column_of(grown.columns, id);
        if d < c {
            assert(grown.columns[d] == s.columns[d]);
        }
    }
    tile_of_finds_the_first(wide, id);
    assert(target_position(grown, Some(id)) == (c, n)) by {
        let t = target_position(grown, Some(id)).1;
        if t < n {
            assert(wide.tiles[t] == to.tiles[t]);
            assert(to.holds(id));
        }
    }
    assert(has_target(grown, Some(id)));
    assert(s.columns[c + 1].wf());
    let after = consume_or_expel_right(grown, Some(id));
    assert(wide.tiles.remove(n) =~= to.tiles);
    assert(after.columns.len() == s.columns.len());
    assert(after.columns[c].tiles == to.tiles);
}

/// Moving the focus to another window ends that columns get their widths back.
pub proof fn focus_change_ends_the_tracking(s: SpaceState, id: u64)
    requires
        s.wf(),
        s.holds(id),
        !s.active_tile().holds(id),
    ensures
        activate_window(s, id).guest is None,
{
    column_of_finds_the_first(s, id);
    let c = column_of(s.columns, id);
    tile_of_finds_the_first(s.columns[c], id);
}

/// What the geometry reports of a width changes the width of the column that shows
/// the window, and nothing else.
pub proof fn reported_width_is_kept(
    s: SpaceState,
    window: u64,
    width: ColumnWidth,
    full_width: bool,
)
    requires
        s.wf(),
        s.holds(window),
    ensures
        ({
            let after = width_reported(s, window, width, full_width);
            let c = column_of(s.columns, window);
            &&& width_of(after.columns[c]) == (width, full_width)
            &&& after.columns[c].tiles == s.columns[c].tiles
            &&& after.columns.remove(c) == s.columns.remove(c)
            &&& after == (SpaceState { columns: after.columns, ..s })
        }),
{
    column_of_finds_the_first(s, window);
    let c = column_of(s.columns, window);
    assert(width_reported(s, window, width, full_width).columns.remove(c)
        =~= s.columns.remove(c));
}

} // verus!
