use naru::config::layout::{BorderRule, Layout, LayoutPart, PresetSize};
use naru::config::utils::Flag;
use naru::ipc::{ColumnDisplay, PositionChange, SizeChange};
use naru::layout::fixed_panels::FixedPanels;
use naru::layout::fixed_strip::FixedSide;
use naru::layout::floating::FloatRequest;
use naru::layout::geometry::{same_number, RectBits, ResizeEdge, SizeBits, ViewGeometry};
use naru::layout::render::{fade_edges, positive, share_area, CarouselRender, FadeEdges, PixelRect};
use naru::layout::row::{Motion, Request, ScrollDirection, SizeRequest, ViewAnchor};
use naru::layout::sizing::{
    ensure_min_max_size, ensure_min_max_size_maybe_zero, negate_size_change, new_window_size,
    resolve_default_height, resolve_scrolling_width, ultrawide_default_column_width, ConfiguredSize,
    ScrollingWidth, Size,
};
use naru::layout::tile::{ColumnWidth, SizingMode, Tile, Window};
use naru::layout::workspace::{
    IdCounter, Output, OutputId, TilePlace, Workspace, WorkspaceConfig, WorkspaceId,
};
use naru::layout::workspace_state::{
    ActivateWindow, Effect, FocusCandidate, FocusHint, OutputScale, Transform, WindowLayer,
    WorkspaceAddWindowTarget,
};

const HALF: ColumnWidth = ColumnWidth::Proportion(0x3FE0_0000_0000_0000);

fn bits(x: f64) -> u64 {
    x.to_bits()
}

fn rect(x: f64, y: f64, w: f64, h: f64) -> RectBits {
    RectBits { x: bits(x), y: bits(y), size: SizeBits { w: bits(w), h: bits(h) } }
}

fn output(id: u64, connector: &str, description: &str) -> Output {
    Output {
        id,
        connector: connector.into(),
        description: description.into(),
        scale: OutputScale { integer: 1, fractional: bits(1.) },
        transform: Transform::Normal,
        view_size: SizeBits { w: bits(1280.), h: bits(720.) },
        working_area: rect(0., 0., 1280., 720.),
    }
}

fn area() -> RectBits {
    rect(0., 0., 1280., 720.)
}

fn new_workspace() -> Workspace {
    Workspace::new(&output(1, "DP-1", "Maker Model 1"), Layout::default(), &mut IdCounter::new())
}

fn window(id: u64) -> Window {
    Window { id, app_id: Some(format!("app{id}")), parent: None, is_urgent: false }
}

fn tile_of(window: Window) -> Tile {
    Tile {
        window,
        below: None,
        sizing: SizingMode::Normal,
        restore_to_floating: false,
        width: bits(100.),
    }
}

fn add(ws: &mut Workspace, id: u64) {
    let target = WorkspaceAddWindowTarget::Auto;
    ws.add_tile(tile_of(window(id)), target, ActivateWindow::Yes, HALF, false, false);
    assert!(ws.verify_invariants());
}

fn add_floating(ws: &mut Workspace, id: u64) {
    let target = WorkspaceAddWindowTarget::Auto;
    ws.add_tile(tile_of(window(id)), target, ActivateWindow::Yes, HALF, false, true);
    assert!(ws.verify_invariants());
}

/// A workspace with the windows 1 to `n` in columns of their own.
fn row_of(n: u64) -> Workspace {
    let mut ws = new_workspace();
    for id in 1..=n {
        add(&mut ws, id);
    }
    ws
}

fn columns(ws: &Workspace) -> Vec<Vec<u64>> {
    ws.scrolling()
        .columns()
        .iter()
        .map(|c| c.tiles.iter().map(|t| t.window.id).collect())
        .collect()
}

fn floats(ws: &Workspace) -> Vec<u64> {
    ws.floating().tiles().iter().map(|t| t.window.id).collect()
}

fn active(ws: &Workspace) -> Option<u64> {
    ws.active_window().map(|w| w.id)
}

fn nowhere() -> FocusHint {
    FocusHint { in_layer: None, active_shown: true, candidates: Vec::new() }
}

#[test]
fn a_new_window_resizes_no_other() {
    let mut ws = row_of(2);
    let before: Vec<ColumnWidth> = ws.scrolling().columns().iter().map(|c| c.width).collect();
    let wide = ColumnWidth::Fixed(bits(900.));
    let target = WorkspaceAddWindowTarget::Auto;
    ws.add_tile(tile_of(window(3)), target, ActivateWindow::Yes, wide, true, false);
    let after: Vec<ColumnWidth> = ws.scrolling().columns().iter().map(|c| c.width).collect();
    assert_eq!(after[..2], before[..]);
    assert_eq!(after[2], wide);
    assert!(ws.scrolling().columns()[2].is_full_width);
}

#[test]
fn a_new_window_opens_next_to_the_active_one() {
    let mut ws = row_of(3);
    ws.activate_window(1);
    add(&mut ws, 4);
    assert_eq!(columns(&ws), vec![vec![1], vec![4], vec![2], vec![3]]);
    assert_eq!(active(&ws), Some(4));
}

#[test]
fn targets_of_new_windows() {
    let mut ws = row_of(3);
    let at = WorkspaceAddWindowTarget::NewColumnAt(0);
    ws.add_tile(tile_of(window(4)), at, ActivateWindow::No, HALF, false, false);
    assert_eq!(columns(&ws), vec![vec![4], vec![1], vec![2], vec![3]]);
    assert_eq!(active(&ws), Some(3));
    let next = WorkspaceAddWindowTarget::NextTo(1);
    ws.add_tile(tile_of(window(5)), next, ActivateWindow::No, HALF, false, false);
    assert_eq!(columns(&ws), vec![vec![4], vec![1], vec![5], vec![2], vec![3]]);
    // Smart: a window next to one that isn't active stays in the background.
    ws.add_tile(tile_of(window(6)), next, ActivateWindow::Smart, HALF, false, false);
    assert_eq!(active(&ws), Some(3));
    let next = WorkspaceAddWindowTarget::NextTo(3);
    ws.add_tile(tile_of(window(7)), next, ActivateWindow::Smart, HALF, false, false);
    assert_eq!(active(&ws), Some(7));
    assert_eq!(WorkspaceAddWindowTarget::default(), WorkspaceAddWindowTarget::Auto);
    assert!(ActivateWindow::Smart.map_smart(true));
    assert!(!ActivateWindow::No.map_smart(true));
}

#[test]
fn a_fullscreen_window_keeps_its_focus() {
    let mut ws = row_of(1);
    ws.set_fullscreen(1, true);
    assert!(ws.is_active_pending_fullscreen());
    let target = WorkspaceAddWindowTarget::Auto;
    ws.add_tile(tile_of(window(2)), target, ActivateWindow::Smart, HALF, false, false);
    assert_eq!(active(&ws), Some(1));
    ws.add_tile(tile_of(window(3)), target, ActivateWindow::Yes, HALF, false, false);
    assert_eq!(active(&ws), Some(3));
}

#[test]
fn fullscreen_moves_a_floating_window_and_back() {
    let mut ws = row_of(1);
    add_floating(&mut ws, 2);
    ws.set_fullscreen(2, true);
    assert!(!ws.is_floating(2));
    assert!(ws.is_active_pending_fullscreen());
    assert!(ws.verify_invariants());
    ws.toggle_fullscreen(2);
    assert!(ws.is_floating(2));
    assert_eq!(floats(&ws), vec![2]);
    assert!(ws.verify_invariants());
    // A floating window that isn't fullscreen has nothing to leave.
    ws.set_fullscreen(2, false);
    assert!(ws.is_floating(2));
}

#[test]
fn maximized_windows() {
    let mut ws = row_of(2);
    ws.consume_or_expel_window_left(None);
    assert_eq!(columns(&ws), vec![vec![1, 2]]);
    ws.set_maximized(2, true);
    // A window takes a column of its own to be maximized.
    assert_eq!(ws.carousel_column_count(), 2);
    let column = &ws.scrolling().columns()[ws.carousel_active_column_index().unwrap()];
    assert!(column.is_pending_maximized);
    assert_eq!(column.pending_sizing_mode(), SizingMode::Maximized);
    ws.toggle_maximized(2);
    let column = &ws.scrolling().columns()[ws.carousel_active_column_index().unwrap()];
    assert_eq!(column.pending_sizing_mode(), SizingMode::Normal);
}

#[test]
fn removing_a_window_keeps_the_others() {
    let mut ws = row_of(3);
    let removed = ws.remove_tile(2);
    assert_eq!(removed.tile.window.id, 2);
    assert!(!removed.is_floating);
    assert_eq!(removed.width, HALF);
    assert_eq!(columns(&ws), vec![vec![1], vec![3]]);
    assert!(ws.has_window(1) && ws.has_window(3) && !ws.has_window(2));
    assert_eq!(active(&ws), Some(3));
    assert_eq!(ws.remove_active_tile().unwrap().tile.window.id, 3);
    assert_eq!(ws.remove_active_tile().unwrap().tile.window.id, 1);
    assert!(ws.remove_active_tile().is_none());
    assert!(!ws.has_windows());
    assert_eq!(active(&ws), None);
}

#[test]
fn removing_the_last_floating_window_activates_the_columns() {
    let mut ws = row_of(1);
    add_floating(&mut ws, 2);
    assert!(ws.floating_is_active());
    assert!(ws.remove_tile(2).is_floating);
    assert!(!ws.floating_is_active());
    assert_eq!(active(&ws), Some(1));
}

#[test]
fn toggling_a_window_moves_it_to_the_other_layer() {
    let mut ws = row_of(2);
    assert_eq!(ws.window_slot(2), Some(WindowLayer::Scrolling));
    ws.toggle_window_floating(None);
    assert_eq!(ws.window_slot(2), Some(WindowLayer::Floating));
    assert_eq!(columns(&ws), vec![vec![1]]);
    assert_eq!(active(&ws), Some(2));
    ws.set_window_floating(Some(2), true);
    assert!(ws.is_floating(2));
    ws.set_window_floating(Some(2), false);
    assert_eq!(ws.window_slot(2), Some(WindowLayer::Scrolling));
    assert_eq!(ws.window_slot(9), None);
}

#[test]
fn switching_layers() {
    let mut ws = row_of(1);
    // There is nothing to switch to.
    ws.switch_focus_floating_tiling();
    assert_eq!(active(&ws), Some(1));
    add_floating(&mut ws, 2);
    ws.switch_focus_floating_tiling();
    assert_eq!(active(&ws), Some(1));
    ws.switch_focus_floating_tiling();
    assert_eq!(active(&ws), Some(2));
    ws.focus_tiling();
    assert!(!ws.floating_is_active());
    ws.focus_floating();
    assert!(ws.floating_is_active());
}

#[test]
fn hidden_floating_layer_is_not_in_the_way() {
    let mut ws = row_of(1);
    add_floating(&mut ws, 2);
    assert_eq!(ws.window_under(Some(2), Some(1), true), Some(2));
    ws.focus_tiling();
    assert_eq!(ws.window_under(Some(2), Some(1), true), Some(1));
    assert_eq!(ws.window_under(Some(2), Some(1), false), Some(2));
    assert_eq!(ws.window_under(None, Some(1), false), Some(1));
    assert_eq!(ws.render_floating(true, true), None);
    assert_eq!(ws.render_floating(true, false), Some(false));
    // A window that gets the focus without being raised doesn't hide the others.
    ws.focus_floating();
    assert!(ws.activate_window_without_raising(1));
    assert!(!ws.floating_is_active());
    assert!(ws.is_floating_visible(true));
    assert!(ws.activate_window(1));
    assert!(!ws.is_floating_visible(true));
    assert!(!ws.activate_window(9));
}

#[test]
fn focus_along_the_row() {
    let mut ws = row_of(3);
    assert!(!ws.focus_right(&nowhere()));
    assert!(ws.focus_left(&nowhere()));
    assert_eq!(active(&ws), Some(2));
    ws.focus_column_first(None);
    assert_eq!(active(&ws), Some(1));
    assert!(!ws.focus_left(&nowhere()));
    ws.focus_column_left_or_last(&nowhere(), None);
    assert_eq!(active(&ws), Some(3));
    ws.focus_column_right_or_first(&nowhere(), None);
    assert_eq!(active(&ws), Some(1));
    ws.focus_column(2);
    assert_eq!(active(&ws), Some(2));
    ws.focus_column(99);
    assert_eq!(active(&ws), Some(3));
    ws.focus_column(0);
    assert_eq!(active(&ws), Some(1));
}

#[test]
fn focus_inside_a_column() {
    let mut ws = row_of(3);
    ws.consume_or_expel_window_left(Some(3));
    assert_eq!(columns(&ws), vec![vec![1], vec![2, 3]]);
    ws.consume_or_expel_window_left(Some(2));
    assert_eq!(columns(&ws), vec![vec![1], vec![2], vec![3]]);
    ws.consume_or_expel_window_left(Some(2));
    ws.consume_or_expel_window_left(Some(3));
    assert_eq!(columns(&ws), vec![vec![1, 2, 3]]);
    ws.focus_window_top(None);
    assert_eq!(active(&ws), Some(1));
    assert!(ws.focus_down(&nowhere()));
    assert_eq!(active(&ws), Some(2));
    ws.focus_window_bottom(None);
    assert_eq!(active(&ws), Some(3));
    assert!(!ws.focus_down(&nowhere()));
    ws.focus_window_down_or_top(&nowhere(), None);
    assert_eq!(active(&ws), Some(1));
    ws.focus_window_up_or_bottom(&nowhere(), None);
    assert_eq!(active(&ws), Some(3));
    ws.focus_window_in_column(2);
    assert_eq!(active(&ws), Some(2));
    assert_eq!(ws.active_scrolling_column_tile_count(), Some(3));
}

#[test]
fn focus_goes_to_the_best_window_of_the_other_layer() {
    let mut ws = row_of(1);
    add_floating(&mut ws, 2);
    add_floating(&mut ws, 3);
    ws.focus_tiling();
    let candidate = |window, score| FocusCandidate { window, score };
    let hint = FocusHint {
        in_layer: None,
        active_shown: true,
        candidates: vec![candidate(2, Some(7)), candidate(3, Some(5)), candidate(1, Some(1))],
    };
    assert!(ws.focus_right(&hint));
    assert_eq!(active(&ws), Some(3));
    // Of two that are as good the first one wins, and one that isn't in the
    // direction doesn't count.
    ws.focus_tiling();
    let hint = FocusHint {
        in_layer: None,
        active_shown: true,
        candidates: vec![candidate(3, None), candidate(2, Some(5)), candidate(3, Some(5))],
    };
    assert!(ws.focus_up(&hint));
    assert_eq!(active(&ws), Some(2));
    // A window that isn't shown has no place to start from.
    ws.focus_tiling();
    let hidden = FocusHint { in_layer: None, active_shown: false, candidates: hint.candidates };
    assert!(!ws.focus_down(&hidden));
    assert_eq!(active(&ws), Some(1));
}

#[test]
fn columns_move() {
    let mut ws = row_of(3);
    assert!(!ws.move_right());
    assert!(ws.move_left());
    assert_eq!(columns(&ws), vec![vec![1], vec![3], vec![2]]);
    ws.move_column_to_first();
    assert_eq!(columns(&ws), vec![vec![3], vec![1], vec![2]]);
    ws.move_column_to_last();
    assert_eq!(columns(&ws), vec![vec![1], vec![2], vec![3]]);
    ws.move_column_to_index(0);
    assert_eq!(columns(&ws), vec![vec![3], vec![1], vec![2]]);
    assert_eq!(active(&ws), Some(3));
}

#[test]
fn tiles_move_inside_a_column() {
    let mut ws = row_of(2);
    ws.consume_or_expel_window_left(None);
    assert_eq!(columns(&ws), vec![vec![1, 2]]);
    assert!(ws.move_up());
    assert_eq!(columns(&ws), vec![vec![2, 1]]);
    assert!(!ws.move_up());
    assert!(ws.move_down());
    assert_eq!(columns(&ws), vec![vec![1, 2]]);
    assert!(!ws.move_down());
}

#[test]
fn windows_join_and_leave_columns() {
    let mut ws = row_of(3);
    ws.activate_window(1);
    ws.consume_into_column();
    assert_eq!(columns(&ws), vec![vec![1, 2], vec![3]]);
    ws.expel_from_column();
    assert_eq!(columns(&ws), vec![vec![1], vec![2], vec![3]]);
    ws.consume_or_expel_window_right(Some(2));
    assert_eq!(columns(&ws)[1].len(), 2);
    ws.consume_or_expel_window_right(Some(2));
    assert!(columns(&ws).contains(&vec![2]));
    assert!(ws.verify_invariants());
}

#[test]
fn swapping_windows_undoes_itself() {
    let mut ws = row_of(3);
    ws.activate_window(2);
    ws.swap_window_in_direction(ScrollDirection::Left);
    assert_eq!(columns(&ws), vec![vec![2], vec![1], vec![3]]);
    assert_eq!(active(&ws), Some(2));
    ws.swap_window_in_direction(ScrollDirection::Right);
    assert_eq!(columns(&ws), vec![vec![1], vec![2], vec![3]]);
    assert_eq!(active(&ws), Some(2));
}

#[test]
fn windows_stack_on_one_another() {
    let mut ws = row_of(2);
    assert!(ws.move_active_window_to_left_neighbor_overlap());
    assert_eq!(columns(&ws), vec![vec![2]]);
    assert!(ws.has_window(1) || ws.scrolling().columns()[0].tiles[0].contains(1));
    assert!(ws.verify_invariants());
    assert!(!ws.move_active_window_to_left_neighbor_overlap());
    // And apart again.
    assert!(ws.move_active_window_to_new_column_right());
    assert_eq!(columns(&ws), vec![vec![1], vec![2]]);
    assert!(ws.move_active_window_to_left_neighbor_overlap());
    assert!(ws.move_active_window_to_new_row_above());
    assert_eq!(columns(&ws), vec![vec![2, 1]]);
    assert!(ws.move_active_window_to_below_neighbor_overlap());
    assert_eq!(columns(&ws), vec![vec![2]]);
    assert!(ws.move_active_window_to_new_row_below());
    assert_eq!(columns(&ws), vec![vec![1, 2]]);
    assert!(ws.move_active_window_to_above_neighbor_overlap());
    assert_eq!(ws.remove_tile(2).tile.window.id, 2);
    assert_eq!(columns(&ws), vec![vec![1]]);
}

#[test]
fn moves_at_the_edge_do_nothing() {
    let mut ws = row_of(2);
    assert!(!ws.move_active_window_to_new_column_right());
    assert!(!ws.move_active_window_to_new_neighbor_column(false));
    assert!(!ws.move_active_window_to_neighbor_column_as_new_row(false));
    assert_eq!(columns(&ws), vec![vec![1], vec![2]]);
    assert!(ws.move_active_window_to_neighbor_column_as_new_row(true));
    assert_eq!(ws.carousel_column_count(), 1);
    assert!(!ws.move_active_window_to_new_neighbor_column(true));
    // None of this applies to floating windows.
    add_floating(&mut ws, 3);
    assert!(!ws.move_active_window_to_new_column_left());
    assert!(!ws.move_active_window_to_new_row_above());
}

#[test]
fn columns_are_shown_as_tabs() {
    let mut ws = row_of(1);
    ws.toggle_column_tabbed_display();
    assert_eq!(ws.scrolling().columns()[0].display, ColumnDisplay::Tabbed);
    ws.set_column_display(ColumnDisplay::Normal);
    assert_eq!(ws.scrolling().columns()[0].display, ColumnDisplay::Normal);
    ws.toggle_full_width();
    assert!(ws.scrolling().columns()[0].is_full_width);
}

#[test]
fn widths_go_by_where_the_column_is() {
    let mut ws = row_of(1);
    let step = SizeChange::AdjustProportion(bits(10.));
    let back = SizeChange::AdjustProportion(bits(-10.));
    let mut ask = |toward_right, left| {
        ws.take_scrolling_requests();
        ws.resize_column_positional(toward_right, step, left);
        let requests = ws.take_scrolling_requests();
        requests.iter().find_map(|r| match r {
            Request::Width { window: 1, request: SizeRequest::Change(change) } => Some(*change),
            _ => None,
        })
    };
    assert_eq!(ask(true, Some(true)), Some(step));
    assert_eq!(ask(false, Some(true)), Some(back));
    assert_eq!(ask(true, Some(false)), Some(back));
    assert_eq!(ask(false, Some(false)), Some(step));
    assert_eq!(ask(true, None), None);
}

#[test]
fn size_requests_go_to_the_right_layer() {
    let mut ws = row_of(1);
    add_floating(&mut ws, 2);
    ws.take_scrolling_requests();
    ws.take_floating_requests();
    let change = SizeChange::SetFixed(300);
    let request = SizeRequest::Change(change);
    ws.set_window_width(Some(1), change);
    ws.set_window_height(Some(2), change);
    ws.set_column_width(change);
    ws.toggle_window_height(Some(1), false);
    ws.reset_window_height(Some(1));
    ws.expand_column_to_available_width();
    let rows = ws.take_scrolling_requests();
    assert!(rows.contains(&Request::Width { window: 1, request }));
    let preset = SizeRequest::Preset { forwards: false };
    assert!(rows.contains(&Request::Height { window: 1, request: preset }));
    assert!(rows.contains(&Request::Height { window: 1, request: SizeRequest::Reset }));
    let floating = ws.take_floating_requests();
    assert!(floating.contains(&FloatRequest::Height { window: 2, request }));
    assert!(floating.contains(&FloatRequest::Width { window: 2, request }));
    assert!(ws.take_scrolling_requests().is_empty());
}

#[test]
fn floating_windows_move() {
    let mut ws = row_of(1);
    add_floating(&mut ws, 2);
    ws.take_floating_requests();
    ws.take_effects();
    let x = PositionChange::AdjustFixed(bits(10.));
    let y = PositionChange::SetFixed(bits(20.));
    ws.move_floating_window(None, x, y, true, false);
    assert_eq!(
        ws.take_floating_requests(),
        vec![FloatRequest::Move { window: 2, x, y, animate: true }],
    );
    // A relative move needs a place to go by.
    ws.move_floating_window(Some(1), x, y, true, false);
    assert!(ws.take_effects().is_empty());
    ws.move_floating_window(Some(1), x, y, true, true);
    assert_eq!(ws.take_effects(), vec![Effect::StorePosition { window: 1, x, y }]);
    ws.move_floating_window(Some(1), y, y, true, false);
    assert_eq!(ws.take_effects(), vec![Effect::StorePosition { window: 1, x: y, y }]);
}

#[test]
fn dialogs_float_above_their_parents() {
    let mut ws = new_workspace();
    add_floating(&mut ws, 1);
    add_floating(&mut ws, 2);
    let mut dialog = window(3);
    dialog.parent = Some(1);
    let target = WorkspaceAddWindowTarget::Auto;
    ws.add_tile(tile_of(dialog), target, ActivateWindow::Yes, HALF, false, true);
    ws.activate_window(1);
    let order = floats(&ws);
    let place = |id| order.iter().position(|x| *x == id).unwrap();
    assert!(place(3) < place(1));
    assert!(place(1) < place(2));
    assert!(ws.descendants_added(1));
    assert!(!ws.descendants_added(9));
    assert!(ws.verify_invariants());
}

#[test]
fn resizing_with_the_pointer() {
    let mut ws = row_of(1);
    let edges = ResizeEdge { top: false, bottom: false, left: true, right: false };
    assert!(ws.interactive_resize_begin(1, edges));
    assert!(!ws.interactive_resize_begin(1, edges));
    assert!(ws.scrolling().is_interactive_resize_ongoing());
    assert!(ws.interactive_resize_update(1, bits(5.), bits(0.)));
    ws.interactive_resize_end(Some(1));
    assert!(!ws.interactive_resize_update(1, bits(5.), bits(0.)));
}

#[test]
fn gestures_scroll_unless_everything_fits() {
    let mut ws = row_of(1);
    ws.take_scrolling_requests();
    assert!(ws.view_offset_gesture_begin(true));
    assert!(ws.view_offset_gesture_update(bits(3.), 7, true));
    assert!(ws.view_offset_gesture_end(Some(true)));
    assert_eq!(
        ws.take_scrolling_requests(),
        vec![
            Request::GestureBegin { is_touchpad: true },
            Request::GestureUpdate { delta: bits(3.), time: 7, is_touchpad: true },
            Request::GestureEnd { touchpad: Some(true) },
        ],
    );
    let part = LayoutPart { disable_carousel: Some(Flag(true)), ..LayoutPart::default() };
    ws.update_layout_config(Some(part), area());
    ws.take_scrolling_requests();
    assert!(!ws.view_offset_gesture_begin(true));
    assert!(!ws.view_offset_gesture_update(bits(3.), 7, true));
    assert!(!ws.view_offset_gesture_end(None));
    assert!(!ws.dnd_scroll_gesture_begin());
    assert!(!ws.dnd_scroll_gesture_scroll(bits(0.), bits(0.), bits(1.)));
    assert!(!ws.dnd_scroll_gesture_end());
    assert!(ws.take_scrolling_requests().is_empty());
}

#[test]
fn motion_of_either_layer_counts() {
    let mut ws = row_of(1);
    let still = Motion { animations: false, transitions: false };
    ws.report_motion(still, Motion { animations: true, transitions: false });
    assert!(ws.are_animations_ongoing());
    assert!(!ws.are_transitions_ongoing());
    ws.report_motion(Motion { animations: false, transitions: true }, still);
    assert!(ws.are_transitions_ongoing());
    ws.report_motion(still, still);
    assert!(!ws.are_animations_ongoing());
}

#[test]
fn a_workspace_remembers_its_output() {
    let mut ws = new_workspace();
    add(&mut ws, 1);
    ws.take_effects();
    assert_eq!(ws.current_output(), Some(1));
    ws.set_output(None, area());
    assert_eq!(ws.current_output(), None);
    assert_eq!(ws.take_effects(), vec![Effect::OutputLeave { window: 1, output: 1 }]);
    // Plugged in elsewhere.
    ws.set_output(Some(&output(2, "HDMI-1", "maker MODEL 1")), area());
    assert_eq!(ws.current_output(), Some(2));
    assert!(ws.take_effects().contains(&Effect::OutputEnter { window: 1 }));
    // The same output once more changes nothing.
    ws.set_output(Some(&output(2, "HDMI-1", "maker MODEL 1")), area());
    assert!(ws.take_effects().is_empty());
}

#[test]
fn outputs_are_known_by_two_names() {
    let here = output(1, "DP-1", "Maker Model 1");
    let id = OutputId::new(&here);
    assert!(id.matches(&here));
    assert!(id.matches(&output(5, "DP-7", "MAKER model 1")));
    assert!(id.matches(&output(5, "maker model 1", "x")));
    assert!(!id.matches(&output(5, "DP-1", "x")));
}

#[test]
fn workspaces_are_numbered_and_named() {
    let mut ids = IdCounter::new();
    let config = WorkspaceConfig {
        name: "web".into(),
        open_on_output: Some("DP-9".into()),
        layout: Some(LayoutPart { disable_carousel: Some(Flag(true)), ..LayoutPart::default() }),
    };
    let here = output(1, "DP-1", "Maker Model 1");
    let a = Workspace::new_no_outputs(Layout::default(), &mut ids);
    let mut b = Workspace::new_with_config(&here, Some(config), Layout::default(), &mut ids);
    assert_ne!(a.id(), b.id());
    assert_eq!(a.id().get(), 1);
    assert_eq!(b.id(), WorkspaceId::specific(2));
    assert_eq!(a.name(), None);
    assert_eq!(a.current_output(), None);
    assert_eq!(a.view_size(), SizeBits { w: bits(1280.), h: bits(720.) });
    assert_eq!(a.working_area(), rect(0., 0., 1280., 720.));
    assert_eq!(b.name().map(|n| n.as_str()), Some("web"));
    assert!(b.has_windows_or_name());
    assert!(b.layout_config().is_some());
    b.unname();
    assert!(!b.has_windows_or_name());
}

#[test]
fn a_change_of_appearance_alone_is_put_into_effect() {
    let mut ws = row_of(1);
    let shadow = |number| LayoutPart { shadow: Some(number), ..LayoutPart::default() };
    ws.update_layout_config(Some(shadow(1)), area());
    ws.take_scrolling_requests();
    let other = rect(1., 1., 1., 1.);
    ws.update_layout_config(Some(shadow(1)), other);
    assert_eq!(ws.scrolling().geometry().working_area, area());
    ws.update_layout_config(Some(shadow(2)), other);
    assert_eq!(ws.layout_config().unwrap().shadow, Some(2));
    assert_eq!(ws.scrolling().geometry().working_area, other);
}

#[test]
fn urgent_windows_and_applications() {
    let mut ws = row_of(1);
    assert!(!ws.is_urgent());
    assert!(ws.has_window_with_app_id("app1"));
    assert!(!ws.has_window_with_app_id("app"));
    let mut urgent = window(2);
    urgent.is_urgent = true;
    let target = WorkspaceAddWindowTarget::Auto;
    ws.add_tile(tile_of(urgent), target, ActivateWindow::No, HALF, false, true);
    assert!(ws.is_urgent());
    assert_eq!(ws.tiles().len(), 2);
    assert_eq!(ws.windows().len(), 2);
}

#[test]
fn the_active_window_can_be_changed() {
    let mut ws = new_workspace();
    assert!(ws.active_window_mut().is_none());
    assert!(ws.active_scrolling_tile_mut().is_none());
    add(&mut ws, 1);
    add_floating(&mut ws, 2);
    ws.active_window_mut().unwrap().is_urgent = true;
    assert!(ws.floating().tiles()[0].window.is_urgent);
    ws.active_scrolling_tile_mut().unwrap().width = bits(5.);
    assert_eq!(ws.scrolling().columns()[0].tiles[0].width, bits(5.));
    ws.focus_tiling();
    ws.active_window_mut().unwrap().is_urgent = true;
    assert!(ws.scrolling().columns()[0].tiles[0].window.is_urgent);
}

#[test]
fn tiles_can_be_changed_in_their_places() {
    let mut ws = row_of(2);
    add_floating(&mut ws, 3);
    let second = TilePlace::Column { column: 1, tile: 0 };
    ws.tiles_mut(second).unwrap().width = bits(7.);
    assert_eq!(ws.scrolling().columns()[1].tiles[0].width, bits(7.));
    assert_eq!(ws.scrolling().columns()[0].tiles[0].width, bits(100.));
    ws.windows_mut(TilePlace::Floating(0)).unwrap().is_urgent = true;
    assert!(ws.floating().tiles()[0].window.is_urgent);
    assert!(ws.tiles_mut(TilePlace::Column { column: 2, tile: 0 }).is_none());
    assert!(ws.tiles_mut(TilePlace::Column { column: 1, tile: 1 }).is_none());
    assert!(ws.windows_mut(TilePlace::Floating(1)).is_none());
    let mut p = panels();
    p.add_tile_at_inner_edge(FixedSide::Right, tile_of(window(4)), HALF, false);
    p.tiles_mut(FixedSide::Right, 0, 0).unwrap().window.is_urgent = true;
    assert!(p.tiles()[0].window.is_urgent);
    assert!(p.tiles_mut(FixedSide::Left, 0, 0).is_none());
}

#[test]
fn a_panel_takes_note_of_reported_widths() {
    let mut p = panels();
    p.add_tile_at_inner_edge(FixedSide::Right, tile_of(window(4)), HALF, false);
    let wide = ColumnWidth::Fixed(bits(700.));
    p.report_width(5, wide, true);
    p.report_width(4, wide, false);
    let removed = p.remove_tile(4).unwrap();
    assert_eq!((removed.width, removed.is_full_width), (wide, false));
}

#[test]
fn widths_of_panels_are_compared_as_numbers() {
    let mut ws = row_of(1);
    ws.take_scrolling_requests();
    let elsewhere = rect(1., 1., 1., 1.);
    ws.set_fixed_insets(bits(-0.0), bits(0.), elsewhere);
    assert_eq!(ws.scrolling().geometry().working_area, area());
    ws.set_fixed_insets(bits(1.0), bits(0.), elsewhere);
    assert_eq!(ws.scrolling().geometry().working_area, elsewhere);
    for (a, b, same) in
        [(1., 1., true), (0., -0., true), (f64::NAN, f64::NAN, false), (1., -1., false)]
    {
        assert_eq!(same_number(bits(a), bits(b)), same);
    }
}

#[test]
fn default_widths() {
    let ws = new_workspace();
    let half = Some(PresetSize::Proportion(bits(0.5)));
    assert_eq!(ws.resolve_default_width(None, false, Some("a"), true), half);
    assert_eq!(ws.resolve_default_width(None, true, Some("a"), true), None);
    assert_eq!(ws.resolve_default_width(Some(None), false, None, false), None);
    let fixed = Some(PresetSize::Fixed(9));
    assert_eq!(ws.resolve_default_width(Some(fixed), true, None, false), fixed);
    assert_eq!(resolve_default_height(Some(fixed), true), fixed);
    assert_eq!(resolve_default_height(Some(None), false), None);
    assert_eq!(resolve_default_height(None, false), None);
    let terminals = vec!["foot".to_owned()];
    let width = |ultrawide, app_id| {
        let (others, terminal) = (PresetSize::Fixed(1), PresetSize::Fixed(2));
        ultrawide_default_column_width(ultrawide, app_id, &terminals, others, terminal)
    };
    assert_eq!(width(false, Some("foot")), None);
    assert_eq!(width(true, Some("foot")), Some(PresetSize::Fixed(2)));
    assert_eq!(width(true, Some("Foot")), Some(PresetSize::Fixed(1)));
    assert_eq!(width(true, None), Some(PresetSize::Fixed(1)));
}

#[test]
fn size_changes_are_turned_around() {
    let negated = |c| negate_size_change(c);
    assert_eq!(negated(SizeChange::AdjustFixed(7)), SizeChange::AdjustFixed(-7));
    assert_eq!(
        negated(SizeChange::AdjustProportion(bits(2.5))),
        SizeChange::AdjustProportion(bits(-2.5)),
    );
    assert_eq!(negated(SizeChange::SetFixed(7)), SizeChange::SetFixed(7));
    assert_eq!(negated(SizeChange::SetProportion(3)), SizeChange::SetProportion(3));
    let change = SizeChange::AdjustProportion(bits(-0.0));
    assert_eq!(negated(negated(change)), change);
}

#[test]
fn sizes_stay_between_their_bounds() {
    assert_eq!(ensure_min_max_size(50, 100, 200), 100);
    assert_eq!(ensure_min_max_size(250, 100, 200), 200);
    assert_eq!(ensure_min_max_size(250, 0, 0), 250);
    assert_eq!(ensure_min_max_size(250, 300, 200), 300);
    assert_eq!(ensure_min_max_size_maybe_zero(0, 100, 200), 0);
    assert_eq!(ensure_min_max_size_maybe_zero(0, 100, 100), 100);
    assert_eq!(ensure_min_max_size_maybe_zero(50, 100, 0), 100);
    let size = |w, h| Size { w, h };
    assert_eq!(new_window_size(size(50, 60), size(100, 100), size(0, 0)), size(100, 100));
    assert_eq!(new_window_size(size(0, 0), size(100, 100), size(0, 0)), size(0, 0));
    assert_eq!(new_window_size(size(50, 60), size(0, 40), size(0, 40)), size(50, 40));
    let ws = new_workspace();
    let configured = |fullscreen, maximized| {
        ws.configure_new_window(fullscreen, maximized, size(50, 60), size(0, 0), size(0, 0))
    };
    assert_eq!(configured(true, true), ConfiguredSize::Rounded(ws.view_size()));
    assert_eq!(configured(false, true), ConfiguredSize::Rounded(ws.working_area().size));
    assert_eq!(configured(false, false), ConfiguredSize::Exact(size(50, 60)));
    assert_eq!(ws.new_window_size(size(0, 9), size(5, 20), size(5, 0)), size(5, 20));
    assert_eq!(
        ws.resolve_default_height(Some(Some(PresetSize::Fixed(4))), true),
        Some(PresetSize::Fixed(4)),
    );
    // Borders are off unless a rule turns them on.
    let rule = |on, off| BorderRule { on, off };
    let width = |border| ws.resolve_scrolling_width(300, None, border);
    assert_eq!(
        width(rule(false, false)),
        ScrollingWidth::Content { width: 300, with_border: false },
    );
    assert_eq!(width(rule(true, false)), ScrollingWidth::Content { width: 300, with_border: true });
    assert!(matches!(
        resolve_scrolling_width(300, None, true),
        ScrollingWidth::Content { width: 300, with_border: false }
    ));
    assert!(matches!(
        resolve_scrolling_width(300, Some(PresetSize::Fixed(5)), false),
        ScrollingWidth::Content { width: 5, with_border: true }
    ));
    assert!(matches!(
        resolve_scrolling_width(300, Some(PresetSize::Proportion(5)), false),
        ScrollingWidth::Proportion(5)
    ));
}

#[test]
fn columns_fade_next_to_panels() {
    let r = |x, w| PixelRect { x, y: 0, w, h: 100 };
    assert!(share_area(r(0, 10), r(9, 10)));
    assert!(!share_area(r(0, 10), r(10, 10)));
    assert!(!share_area(r(5, 0), r(0, 10)));
    let (left, right) = (r(0, 24), r(976, 24));
    let all = vec![r(20, 50), r(100, 100)];
    assert_eq!(
        fade_edges(&all, true, true, left, right),
        Some(FadeEdges { left: true, right: false }),
    );
    assert_eq!(fade_edges(&all, false, true, left, right), None);
    assert_eq!(
        fade_edges(&vec![r(0, 1000)], true, true, left, right),
        Some(FadeEdges { left: true, right: true }),
    );
    for (x, expected) in [(0.0, false), (-0.0, false), (1e-300, true), (-3., false)] {
        assert_eq!(positive(bits(x)), expected);
    }
    assert!(positive(bits(f64::INFINITY)));
    assert!(!positive(bits(f64::NAN)));
}

#[test]
fn panels_take_room_from_the_columns() {
    let mut ws = row_of(1);
    assert_eq!(ws.render_scrolling(true, true), CarouselRender::Direct { focus_ring: true });
    ws.take_scrolling_requests();
    ws.set_fixed_insets(bits(200.), bits(0.), rect(216., 0., 1064., 720.));
    assert_eq!(ws.scrolling().geometry().working_area, rect(216., 0., 1064., 720.));
    assert_eq!(ws.render_scrolling(true, true), CarouselRender::Collect { focus_ring: true });
    assert_eq!(ws.render_scrolling(true, false), CarouselRender::Direct { focus_ring: true });
    let r = |x, w| PixelRect { x, y: 0, w, h: 100 };
    assert_eq!(
        ws.fade_edges(&vec![r(0, 1000)], r(0, 24), r(976, 24)),
        Some(FadeEdges { left: true, right: false }),
    );
    // The same widths again change nothing.
    ws.take_scrolling_requests();
    ws.set_fixed_insets(bits(200.), bits(0.), rect(0., 0., 0., 0.));
    assert!(ws.take_scrolling_requests().is_empty());
    assert_eq!(ws.scrolling().geometry().working_area, rect(216., 0., 1064., 720.));
}

fn panels() -> FixedPanels {
    FixedPanels::new(ViewGeometry {
        view_size: SizeBits { w: bits(1280.), h: bits(720.) },
        working_area: area(),
        scale: bits(1.),
    })
}

#[test]
fn a_panel_gives_back_what_it_took() {
    let mut p = panels();
    let mut ws = row_of(2);
    let column = ws.carousel_remove_active_column().unwrap();
    p.add_column_at_inner_edge(FixedSide::Right, column);
    let column = ws.carousel_remove_active_column().unwrap();
    p.add_column_at_inner_edge(FixedSide::Right, column);
    assert!(ws.scrolling_is_empty());
    let order: Vec<u64> = p.tiles().iter().map(|t| t.window.id).collect();
    assert_eq!(order, vec![1, 2]);
    assert!(p.verify_invariants());
    let back = p.remove_innermost_column(FixedSide::Right).unwrap();
    assert_eq!(back.tiles[0].window.id, 1);
    ws.carousel_add_column_at(0, back);
    assert_eq!(columns(&ws), vec![vec![1]]);
    p.remove_innermost_column(FixedSide::Right).unwrap();
    assert!(p.is_empty(FixedSide::Right));
    assert!(p.remove_innermost_column(FixedSide::Right).is_none());
}

#[test]
fn panels_do_not_touch_each_other() {
    let mut p = panels();
    p.add_tile_at_inner_edge(FixedSide::Left, tile_of(window(1)), HALF, false);
    p.add_tile_at_inner_edge(FixedSide::Right, tile_of(window(2)), HALF, false);
    assert_eq!(p.side_with_window(1), Some(FixedSide::Left));
    assert_eq!(p.side_with_window(2), Some(FixedSide::Right));
    assert_eq!(p.side_with_window(3), None);
    assert!(p.activate_window(1));
    assert!(!p.activate_window(3));
    assert_eq!(p.active_fixed_side(), Some(FixedSide::Left));
    assert_eq!(p.remove_tile(2).unwrap().tile.window.id, 2);
    assert_eq!(p.active_fixed_side(), Some(FixedSide::Left));
    assert!(p.remove_tile(2).is_none());
    assert_eq!(p.remove_active_tile().unwrap().tile.window.id, 1);
    // An empty panel has no focus.
    assert_eq!(p.active_fixed_side(), None);
    assert!(p.active_window().is_none());
}

#[test]
fn panels_are_flush_with_their_edges() {
    let mut p = panels();
    assert!(p.render_left(true).is_none());
    p.add_tile_at_inner_edge(FixedSide::Left, tile_of(window(1)), HALF, false);
    p.add_tile_at_inner_edge(FixedSide::Right, tile_of(window(2)), HALF, false);
    p.activate_window(1);
    let left = p.render_left(true).unwrap();
    let right = p.render_right(true).unwrap();
    assert_eq!(left.anchor, ViewAnchor::LeftEdge);
    assert_eq!(right.anchor, ViewAnchor::RightEdge);
    assert!(left.focus_ring);
    assert!(!p.render_left(false).unwrap().focus_ring);
}

#[test]
fn focus_moves_along_a_panel_and_stops_at_its_ends() {
    let mut p = panels();
    for id in 1..=2 {
        p.add_tile_at_inner_edge(FixedSide::Left, tile_of(window(id)), HALF, false);
    }
    assert!(p.activate_window(2));
    assert!(p.focused_column_is_at_inner_edge(FixedSide::Left));
    assert!(!p.focus_right_in_active());
    assert!(p.focus_left_in_active());
    assert_eq!(p.active_window().unwrap().id, 1);
    assert!(!p.focused_column_is_at_inner_edge(FixedSide::Left));
    assert!(!p.focus_left_in_active());
    assert!(p.focus_right_in_active());
    assert_eq!(p.active_window().unwrap().id, 2);
    assert!(!p.focus_up_in_active());
    p.set_active_fixed_side(None);
    assert!(p.focus_innermost(FixedSide::Left));
    // That doesn't take the focus from the columns.
    assert_eq!(p.active_fixed_side(), None);
    assert!(!p.focus_innermost(FixedSide::Right));
}

#[test]
fn panel_windows_are_listed_with_their_places() {
    let mut p = panels();
    p.add_tile_at_inner_edge(FixedSide::Left, tile_of(window(1)), HALF, false);
    p.add_tile_right_of(FixedSide::Left, 1, tile_of(window(2)), true, HALF, false);
    p.add_tile_at_inner_edge(FixedSide::Right, tile_of(window(3)), HALF, false);
    let places: Vec<(FixedSide, usize, usize, u64)> = p
        .fixed_side_tiles()
        .iter()
        .map(|(side, column, row, tile)| (*side, *column, *row, tile.window.id))
        .collect();
    assert_eq!(
        places,
        vec![(FixedSide::Left, 0, 0, 1), (FixedSide::Left, 1, 0, 2), (FixedSide::Right, 0, 0, 3)],
    );
    assert_eq!(p.window_under(Some(1), Some(3)), Some(1));
    assert_eq!(p.window_under(None, Some(3)), Some(3));
    p.activate_window(2);
    p.set_window_width(None, SizeChange::SetFixed(80));
    let request = SizeRequest::Change(SizeChange::SetFixed(80));
    assert!(p.take_requests(FixedSide::Left).contains(&Request::Width { window: 2, request }));
    assert!(p.set_fullscreen(2, true));
    assert!(!p.set_fullscreen(9, true));
    p.active_window_mut().unwrap().is_urgent = true;
    assert!(p.active_window().unwrap().is_urgent);
}
