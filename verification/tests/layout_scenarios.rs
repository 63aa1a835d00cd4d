use naru::compositor::{restore_window_size, RestoredSize};
use naru::config::layout::{Layout, PresetSize};
use naru::ipc::{OpenInFixedSide, SizeChange};
use naru::layout::fixed_panels::FixedPanels;
use naru::layout::fixed_strip::FixedSide;
use naru::layout::geometry::{RectBits, SizeBits, ViewGeometry};
use naru::layout::row::{Request, SizeRequest};
use naru::layout::sizing::media_player_default_column_width;
use naru::layout::tile::{ColumnWidth, SizingMode, Tile, Window};
use naru::layout::workspace::{IdCounter, Output, Workspace};
use naru::layout::workspace_state::{
    ActivateWindow, FocusCandidate, FocusHint, OutputScale, Transform, WindowLayer,
    WorkspaceAddWindowTarget,
};

const HALF: ColumnWidth = ColumnWidth::Proportion(0x3FE0_0000_0000_0000);

fn size(w: f64, h: f64) -> SizeBits {
    SizeBits { w: w.to_bits(), h: h.to_bits() }
}

fn rect(x: f64, y: f64, w: f64, h: f64) -> RectBits {
    RectBits { x: x.to_bits(), y: y.to_bits(), size: size(w, h) }
}

fn tile(id: u64) -> Tile {
    Tile {
        window: Window { id, app_id: None, parent: None, is_urgent: false },
        below: None,
        sizing: SizingMode::Normal,
        restore_to_floating: false,
        width: 100f64.to_bits(),
    }
}

/// A workspace between two side panels.
struct Sim {
    workspace: Workspace,
    panels: FixedPanels,
    next_id: u64,
}

impl Sim {
    /// On an output of 1280 by 720 pixels.
    fn new() -> Sim {
        Sim::with_layout(Layout::default())
    }

    fn with_layout(layout: Layout) -> Sim {
        let output = Output {
            id: 1,
            connector: "output1".into(),
            description: "output1".into(),
            scale: OutputScale { integer: 1, fractional: 1f64.to_bits() },
            transform: Transform::Normal,
            view_size: size(1280., 720.),
            working_area: rect(0., 0., 1280., 720.),
        };
        let geometry = ViewGeometry {
            view_size: output.view_size,
            working_area: output.working_area,
            scale: output.scale.fractional,
        };
        let mut ids = IdCounter::new();
        Sim {
            workspace: Workspace::new(&output, layout, &mut ids),
            panels: FixedPanels::new(geometry),
            next_id: 0,
        }
    }

    fn verify(&self) {
        assert!(self.workspace.verify_invariants());
        assert!(self.panels.verify_invariants());
    }

    fn add(&mut self, floating: bool) -> u64 {
        let id = self.next_id;
        self.next_id += 1;
        let target = WorkspaceAddWindowTarget::Auto;
        self.workspace.add_tile(tile(id), target, ActivateWindow::Smart, HALF, false, floating);
        self.panels.set_active_fixed_side(None);
        self.verify();
        id
    }

    fn add_window(&mut self) -> u64 {
        self.add(false)
    }

    fn add_floating_window(&mut self) -> u64 {
        self.add(true)
    }

    fn add_window_in_fixed_side(&mut self, side: OpenInFixedSide) -> u64 {
        let id = self.next_id;
        self.next_id += 1;
        let side = match side {
            OpenInFixedSide::Left => FixedSide::Left,
            OpenInFixedSide::Right => FixedSide::Right,
        };
        self.panels.add_tile_at_inner_edge(side, tile(id), HALF, false);
        self.verify();
        id
    }

    fn close_window(&mut self, id: u64) {
        if self.panels.has_window(id) {
            self.panels.remove_tile(id);
        } else if self.workspace.has_window(id) {
            self.workspace.remove_tile(id);
        }
        self.verify();
    }

    /// The width in pixels of the column that a window is in.
    fn width(&self, id: u64) -> f64 {
        let columns = self.workspace.scrolling().columns();
        let column = columns.iter().find(|c| c.tiles.iter().any(|t| t.window.id == id)).unwrap();
        match column.width {
            ColumnWidth::Proportion(bits) => f64::from_bits(bits) * 1280.,
            ColumnWidth::Fixed(bits) => f64::from_bits(bits),
        }
    }

    fn report_width(&mut self, id: u64, width: f64) {
        self.workspace.report_width(id, ColumnWidth::Fixed(width.to_bits()), false);
    }

    /// Whether a window is in the left half of the row.
    fn is_left_of_center(&self, id: u64) -> bool {
        let mut total = 0.;
        let mut center = 0.;
        for column in self.workspace.scrolling().columns() {
            let first = column.tiles[0].window.id;
            let width = self.width(first);
            if column.tiles.iter().any(|t| t.window.id == id) {
                center = total + width / 2.;
            }
            total += width;
        }
        center < total / 2.
    }

    /// Does what the row asks for about the widths of its columns.
    fn settle(&mut self) {
        for request in self.workspace.take_scrolling_requests() {
            match request {
                Request::Width { window, request: SizeRequest::Change(change) } => {
                    let before = self.width(window);
                    let after = match change {
                        SizeChange::SetFixed(n) => f64::from(n),
                        SizeChange::AdjustFixed(n) => before + f64::from(n),
                        SizeChange::SetProportion(p) => f64::from_bits(p) / 100. * 1280.,
                        SizeChange::AdjustProportion(p) => {
                            before + f64::from_bits(p) / 100. * 1280.
                        }
                    };
                    self.report_width(window, after);
                }
                Request::Widen { window, width: ColumnWidth::Fixed(width), .. } => {
                    let before = self.width(window);
                    self.report_width(window, before.max(f64::from_bits(width)));
                }
                Request::GrowToMinSpan => {
                    let firsts: Vec<u64> = self
                        .workspace
                        .scrolling()
                        .columns()
                        .iter()
                        .map(|c| c.tiles[0].window.id)
                        .collect();
                    let span: f64 = firsts.iter().map(|id| self.width(*id)).sum();
                    if firsts.len() > 1 && span < 640. {
                        for id in firsts {
                            let width = self.width(id) * 640. / span;
                            self.report_width(id, width);
                        }
                    }
                }
                _ => {}
            }
        }
        self.verify();
    }

    fn set_window_width(&mut self, id: u64, change: SizeChange) {
        self.workspace.set_window_width(Some(id), change);
        self.verify();
    }

    fn resize_column_positional(&mut self, toward_right: bool, step: SizeChange) {
        let left = self.workspace.active_window().map(|w| w.id);
        let left = left.map(|id| self.is_left_of_center(id));
        self.workspace.resize_column_positional(toward_right, step, left);
        self.verify();
    }

    fn communicate(&mut self, id: u64) {
        if !self.panels.update_window(id, None) {
            self.workspace.update_window(id, None);
        }
        self.verify();
    }

    fn slot(&self, id: u64) -> Option<WindowLayer> {
        match self.panels.side_with_window(id) {
            Some(FixedSide::Left) => Some(WindowLayer::FixedLeft),
            Some(FixedSide::Right) => Some(WindowLayer::FixedRight),
            None => self.workspace.window_slot(id),
        }
    }

    fn assert_slot(&self, id: u64, slot: WindowLayer) {
        assert_eq!(self.slot(id), Some(slot));
    }

    fn active(&self) -> Option<u64> {
        let window = match self.panels.active_fixed_side() {
            Some(_) => self.panels.active_window(),
            None => self.workspace.active_window(),
        };
        window.map(|w| w.id)
    }

    fn window_ids(&self) -> Vec<u64> {
        let mut ids: Vec<u64> = self.workspace.windows().iter().map(|w| w.id).collect();
        ids.extend(self.panels.tiles().iter().map(|t| t.window.id));
        ids
    }

    fn focus_window(&mut self, id: u64) {
        if !self.panels.activate_window(id) {
            self.workspace.activate_window(id);
            self.panels.set_active_fixed_side(None);
        }
        self.verify();
    }

    fn focus_column_first(&mut self) {
        self.panels.set_active_fixed_side(None);
        self.workspace.focus_column_first(None);
        self.verify();
    }

    fn move_stacked(&mut self, to_left: bool) {
        let toward = if to_left { FixedSide::Left } else { FixedSide::Right };
        let at_edge = if to_left { 0 } else { self.workspace.carousel_column_count().max(1) - 1 };
        match self.panels.active_fixed_side() {
            Some(side) => {
                if side != toward && self.panels.focused_column_is_at_inner_edge(side) {
                    let column = self.panels.remove_innermost_column(side).unwrap();
                    let count = self.workspace.carousel_column_count();
                    let idx = if side == FixedSide::Left { 0 } else { count };
                    self.workspace.carousel_add_column_at(idx, column);
                    self.panels.set_active_fixed_side(None);
                } else {
                    self.panels.move_active_neighbor_as_new_row(side, to_left);
                }
            }
            None if self.workspace.floating_is_active() => {
                self.workspace.toggle_window_floating(None);
            }
            None => match self.workspace.active_scrolling_column_tile_count() {
                None => {}
                Some(1) => {
                    if self.workspace.carousel_active_column_index() == Some(at_edge) {
                        let column = self.workspace.carousel_remove_active_column().unwrap();
                        self.panels.add_column_at_inner_edge(toward, column);
                        self.panels.set_active_fixed_side(Some(toward));
                    } else {
                        self.workspace.move_active_window_to_neighbor_column_as_new_row(to_left);
                    }
                }
                Some(_) => {
                    if !self.workspace.move_active_window_to_new_neighbor_column(to_left) {
                        if to_left {
                            self.workspace.move_active_window_to_new_column_left();
                        } else {
                            self.workspace.move_active_window_to_new_column_right();
                        }
                    }
                }
            },
        }
        self.verify();
    }

    fn move_window_left_stacked(&mut self) {
        self.move_stacked(true);
    }

    fn move_window_right_stacked(&mut self) {
        self.move_stacked(false);
    }

    fn columns(&self) -> Vec<Vec<u64>> {
        self.workspace
            .scrolling()
            .columns()
            .iter()
            .map(|c| c.tiles.iter().map(|t| t.window.id).collect())
            .collect()
    }

    fn column_index(&self, id: u64) -> usize {
        self.columns().iter().position(|c| c.contains(&id)).unwrap()
    }

    fn column_occupancy(&self, id: u64) -> usize {
        self.columns()[self.column_index(id)].len()
    }
}

fn nowhere() -> FocusHint {
    FocusHint { in_layer: None, active_shown: true, candidates: Vec::new() }
}

#[test]
fn stack_move_into_right_strip_and_back() {
    let mut sim = Sim::new();
    let a = sim.add_window();
    let b = sim.add_window();

    sim.move_window_right_stacked();
    sim.assert_slot(b, WindowLayer::FixedRight);
    sim.assert_slot(a, WindowLayer::Scrolling);
    assert_eq!(sim.panels.active_fixed_side(), Some(FixedSide::Right));
    assert_eq!(sim.active(), Some(b));

    sim.communicate(b);
    sim.assert_slot(b, WindowLayer::FixedRight);

    sim.move_window_left_stacked();
    sim.assert_slot(b, WindowLayer::Scrolling);
    assert_eq!(sim.panels.active_fixed_side(), None);
}

#[test]
fn stack_move_into_left_strip_and_back() {
    let mut sim = Sim::new();
    let a = sim.add_window();
    let b = sim.add_window();

    sim.focus_column_first();
    sim.move_window_left_stacked();
    sim.assert_slot(a, WindowLayer::FixedLeft);
    sim.assert_slot(b, WindowLayer::Scrolling);
    assert_eq!(sim.panels.active_fixed_side(), Some(FixedSide::Left));

    sim.communicate(a);
    sim.move_window_right_stacked();
    sim.assert_slot(a, WindowLayer::Scrolling);
    assert_eq!(sim.panels.active_fixed_side(), None);
}

#[test]
fn closing_a_fixed_strip_window_does_not_panic() {
    let mut sim = Sim::new();
    let only = sim.add_window();

    sim.move_window_left_stacked();
    sim.assert_slot(only, WindowLayer::FixedLeft);

    sim.close_window(only);
    assert!(sim.window_ids().is_empty(), "window should be gone");
    assert_eq!(sim.panels.active_fixed_side(), None);
}

#[test]
fn consume_then_stack_move_down_keeps_tile_data_consistent() {
    let mut sim = Sim::new();
    let a = sim.add_window();
    let b = sim.add_window();

    sim.workspace.consume_or_expel_window_left(None);
    sim.verify();
    sim.workspace.focus_up_or_left(None);
    sim.verify();
    sim.workspace.move_down();
    sim.verify();
    assert_eq!(sim.columns(), vec![vec![b, a]]);
}

#[test]
fn mouse_click_focuses_fixed_strip_window() {
    let mut sim = Sim::new();
    let a = sim.add_window();
    let b = sim.add_window();

    sim.move_window_right_stacked();
    sim.assert_slot(b, WindowLayer::FixedRight);
    sim.assert_slot(a, WindowLayer::Scrolling);

    // The click is on both windows; the panel is in front.
    let hit = sim.panels.window_under(None, Some(b));
    let hit = hit.or_else(|| sim.workspace.window_under(None, Some(a), false));
    assert_eq!(hit, Some(b));
    sim.focus_window(b);
    assert_eq!(sim.active(), Some(b));
    assert_eq!(sim.panels.active_fixed_side(), Some(FixedSide::Right));
}

#[test]
fn vertical_focus_moves_within_fixed_strip() {
    let mut sim = Sim::new();
    let a = sim.add_window();
    let b = sim.add_window();

    sim.move_window_right_stacked();
    sim.assert_slot(b, WindowLayer::FixedRight);
    sim.focus_window(a);
    sim.move_window_right_stacked();
    sim.assert_slot(a, WindowLayer::FixedRight);
    sim.assert_slot(b, WindowLayer::FixedRight);
    assert_eq!(sim.panels.active_fixed_side(), Some(FixedSide::Right));
    sim.panels.consume_into_column();
    sim.verify();

    let before = sim.active().expect("a window is focused");
    assert!(sim.panels.focus_down_in_active());
    let after_down = sim.active().expect("a window is focused");
    assert_ne!(before, after_down);
    assert_eq!(sim.panels.active_fixed_side(), Some(FixedSide::Right));
    sim.assert_slot(after_down, WindowLayer::FixedRight);

    assert!(sim.panels.focus_up_in_active());
    assert_eq!(sim.active(), Some(before));
}

#[test]
fn stack_move_on_floating_window_tiles_it() {
    let mut sim = Sim::new();
    let f = sim.add_floating_window();
    sim.assert_slot(f, WindowLayer::Floating);

    sim.move_window_right_stacked();
    sim.assert_slot(f, WindowLayer::Scrolling);
    assert_eq!(sim.panels.active_fixed_side(), None);
    assert_eq!(sim.active(), Some(f));
}

#[test]
fn directional_focus_crosses_floating_tiling_boundary() {
    let mut sim = Sim::new();
    let t = sim.add_window();
    let f = sim.add_floating_window();

    sim.focus_window(t);
    sim.assert_slot(t, WindowLayer::Scrolling);
    let toward = |window: u64| FocusHint {
        in_layer: None,
        active_shown: true,
        candidates: vec![FocusCandidate { window, score: Some(1) }],
    };
    assert!(sim.workspace.focus_right(&toward(f)));
    assert_eq!(sim.active(), Some(f));
    sim.assert_slot(f, WindowLayer::Floating);
    assert!(sim.workspace.focus_left(&toward(t)));
    assert_eq!(sim.active(), Some(t));
}

#[test]
fn stack_move_right_from_multi_window_column_splits_into_new_column() {
    let mut sim = Sim::new();
    let a = sim.add_window();
    let b = sim.add_window();
    let c = sim.add_window();

    sim.focus_column_first();
    sim.workspace.consume_into_column();
    sim.focus_window(b);
    assert_eq!(sim.column_occupancy(b), 2);

    sim.move_window_right_stacked();
    sim.assert_slot(b, WindowLayer::Scrolling);
    assert_eq!(sim.active(), Some(b));
    assert_eq!(sim.column_occupancy(b), 1);
    assert_ne!(sim.column_index(b), sim.column_index(c));
    assert_eq!(sim.column_occupancy(a), 1);
    assert_eq!(sim.columns(), vec![vec![a], vec![b], vec![c]]);
}

#[test]
fn stack_move_left_from_multi_window_column_splits_into_new_column() {
    let mut sim = Sim::new();
    let a = sim.add_window();
    let b = sim.add_window();
    let c = sim.add_window();

    sim.focus_column_first();
    assert!(sim.workspace.focus_right(&nowhere()));
    sim.workspace.consume_into_column();
    sim.focus_window(c);
    assert_eq!(sim.column_occupancy(c), 2);

    sim.move_window_left_stacked();
    sim.assert_slot(c, WindowLayer::Scrolling);
    assert_eq!(sim.active(), Some(c));
    assert_eq!(sim.column_occupancy(c), 1);
    assert_ne!(sim.column_index(c), sim.column_index(a));
    assert_eq!(sim.column_occupancy(b), 1);
    assert_eq!(sim.columns(), vec![vec![a], vec![c], vec![b]]);
}

#[test]
fn multi_window_column_splits_before_entering_right_strip() {
    let mut sim = Sim::new();
    let a = sim.add_window();
    let b = sim.add_window();

    sim.workspace.consume_or_expel_window_left(None);
    let active = sim.active().expect("a window is focused");
    assert_eq!(sim.column_occupancy(active), 2, "precondition: 2-tile column");

    sim.move_window_right_stacked();
    sim.assert_slot(active, WindowLayer::Scrolling);
    assert_eq!(sim.panels.active_fixed_side(), None, "must not have entered the panel");
    assert_eq!(sim.column_occupancy(active), 1);

    sim.move_window_right_stacked();
    sim.assert_slot(active, WindowLayer::FixedRight);
    assert_eq!(sim.panels.active_fixed_side(), Some(FixedSide::Right));
    let other = if active == a { b } else { a };
    sim.assert_slot(other, WindowLayer::Scrolling);
}

#[test]
fn multi_window_column_splits_before_entering_left_strip() {
    let mut sim = Sim::new();
    sim.add_window();
    sim.add_window();

    sim.workspace.consume_or_expel_window_left(None);
    sim.focus_column_first();
    let active = sim.active().expect("a window is focused");
    assert_eq!(sim.column_occupancy(active), 2, "precondition: 2-tile column");

    sim.move_window_left_stacked();
    sim.assert_slot(active, WindowLayer::Scrolling);
    assert_eq!(sim.panels.active_fixed_side(), None, "must not have entered the panel");
    assert_eq!(sim.column_occupancy(active), 1, "split into its own column");

    sim.move_window_left_stacked();
    sim.assert_slot(active, WindowLayer::FixedLeft);
    assert_eq!(sim.panels.active_fixed_side(), Some(FixedSide::Left));
}

#[test]
fn new_placement_opens_new_window_in_new_column() {
    let mut sim = Sim::new();
    let a = sim.add_window();
    let b = sim.add_window();
    assert_ne!(sim.column_index(a), sim.column_index(b));
    assert_eq!(sim.columns(), vec![vec![a], vec![b]]);
}

#[test]
fn move_column_to_index_reorders_carousel_columns() {
    let mut sim = Sim::new();
    let a = sim.add_window();
    let b = sim.add_window();
    let c = sim.add_window();
    assert_eq!(sim.columns(), vec![vec![a], vec![b], vec![c]]);

    sim.focus_window(a);
    sim.workspace.move_column_to_index(3);
    sim.verify();
    assert_eq!(sim.column_index(b), 0);
    assert_eq!(sim.column_index(c), 1);
    assert_eq!(sim.column_index(a), 2);
}

#[test]
fn move_column_to_index_clamps_out_of_range() {
    let mut sim = Sim::new();
    let a = sim.add_window();
    let b = sim.add_window();

    sim.focus_window(a);
    sim.workspace.move_column_to_index(99);
    sim.verify();
    assert_eq!(sim.column_index(b), 0);
    assert_eq!(sim.column_index(a), 1);
}

fn saved(length: f64) -> Option<i32> {
    if length > 0. {
        Some(length.round() as i32)
    } else {
        None
    }
}

fn give_back_size(sim: &mut Sim, id: u64, width: f64, height: f64) {
    for change in restore_window_size(saved(width), saved(height)) {
        match change {
            RestoredSize::Width(change) => sim.workspace.set_window_width(Some(id), change),
            RestoredSize::Height(change) => sim.workspace.set_window_height(Some(id), change),
        }
    }
    sim.verify();
}

fn is_width(request: &Request) -> bool {
    matches!(request, Request::Width { .. })
}

fn is_height(request: &Request) -> bool {
    matches!(request, Request::Height { .. })
}

#[test]
fn restore_window_size_sets_exact_fixed_geometry() {
    let mut sim = Sim::new();
    let a = sim.add_window();
    sim.workspace.take_scrolling_requests();

    give_back_size(&mut sim, a, 500.0, 400.0);
    let requests = sim.workspace.take_scrolling_requests();
    let request = SizeRequest::Change(SizeChange::SetFixed(500));
    assert!(requests.contains(&Request::Width { window: a, request }));
    let request = SizeRequest::Change(SizeChange::SetFixed(400));
    assert!(requests.contains(&Request::Height { window: a, request }));
}

#[test]
fn restore_window_size_skips_zero_dimensions() {
    let mut sim = Sim::new();
    let a = sim.add_window();
    sim.workspace.take_scrolling_requests();

    give_back_size(&mut sim, a, 0.0, 350.0);
    let requests = sim.workspace.take_scrolling_requests();
    assert!(!requests.iter().any(is_width), "zero width must leave the natural width untouched");
    assert!(requests.iter().any(is_height));
    let request = SizeRequest::Change(SizeChange::SetFixed(350));
    assert!(requests.contains(&Request::Height { window: a, request }));
}

#[test]
fn open_in_fixed_side_rule_parks_window_in_panel() {
    let mut sim = Sim::new();
    let carousel = sim.add_window();
    let right = sim.add_window_in_fixed_side(OpenInFixedSide::Right);
    let left = sim.add_window_in_fixed_side(OpenInFixedSide::Left);

    sim.assert_slot(carousel, WindowLayer::Scrolling);
    sim.assert_slot(right, WindowLayer::FixedRight);
    sim.assert_slot(left, WindowLayer::FixedLeft);
}

#[test]
fn session_restore_replay_places_windows_in_saved_columns() {
    let mut sim = Sim::new();
    let saved_cols = [2usize, 0, 1];

    let mut ids = Vec::new();
    for &col in &saved_cols {
        let id = sim.add_window();
        sim.communicate(id);
        sim.focus_window(id);
        sim.workspace.move_column_to_index(col + 1);
        give_back_size(&mut sim, id, 0.0, 0.0);
        ids.push(id);
    }

    for (&id, &col) in ids.iter().zip(&saved_cols) {
        assert_eq!(sim.column_index(id), col);
    }
}

const NORMAL: PresetSize = PresetSize::Proportion(0x3FD5_5555_5555_5555);
const ULTRA: PresetSize = PresetSize::Proportion(0x3FC9_9999_9999_999A);

#[test]
fn move_window_preserves_width_growing_narrow_target() {
    let mut sim = Sim::new();
    let a = sim.add_window();
    sim.set_window_width(a, SizeChange::SetFixed(700));
    let b = sim.add_window();
    sim.set_window_width(b, SizeChange::SetFixed(290));
    sim.settle();
    assert!((sim.width(a) - 700.0).abs() < 2.0);

    // The wide window moves right, into the narrow column.
    sim.focus_window(a);
    sim.workspace.consume_or_expel_window_right(None);
    sim.settle();
    assert_eq!(sim.workspace.scrolling().columns().len(), 1);
    assert!((sim.width(a) - 700.0).abs() < 5.0);
    assert!((sim.width(b) - 700.0).abs() < 5.0);
}

#[test]
fn move_window_into_wider_column_does_not_shrink_it() {
    let mut sim = Sim::new();
    let a = sim.add_window();
    let b = sim.add_window();
    sim.settle();
    sim.set_window_width(a, SizeChange::SetFixed(300));
    sim.set_window_width(b, SizeChange::SetFixed(800));
    sim.settle();

    sim.focus_window(a);
    sim.workspace.consume_or_expel_window_right(None);
    sim.settle();
    assert!((sim.width(b) - 800.0).abs() < 5.0);
}

#[test]
fn moving_window_on_restores_left_behind_column() {
    let mut sim = Sim::new();
    let a = sim.add_window();
    let b = sim.add_window();
    let _c = sim.add_window();
    sim.settle();
    sim.set_window_width(a, SizeChange::SetFixed(700));
    sim.set_window_width(b, SizeChange::SetFixed(300));
    sim.settle();

    // Into the column of b, which grows.
    sim.focus_window(a);
    sim.workspace.consume_or_expel_window_right(None);
    sim.settle();
    assert!((sim.width(b) - 700.0).abs() < 5.0);

    // On into a column of its own.
    sim.workspace.consume_or_expel_window_right(None);
    sim.settle();
    assert!((sim.width(a) - 700.0).abs() < 5.0);
    assert!((sim.width(b) - 300.0).abs() < 5.0);
}

#[test]
fn focus_change_stops_size_tracking() {
    let mut sim = Sim::new();
    let a = sim.add_window();
    let b = sim.add_window();
    let c = sim.add_window();
    sim.settle();
    sim.set_window_width(a, SizeChange::SetFixed(700));
    sim.set_window_width(b, SizeChange::SetFixed(300));
    sim.settle();

    sim.focus_window(a);
    sim.workspace.consume_or_expel_window_right(None);
    sim.settle();

    sim.focus_window(c);
    sim.settle();

    // The column stays as wide as it grew.
    sim.focus_window(a);
    sim.workspace.consume_or_expel_window_right(None);
    sim.settle();
    assert!((sim.width(b) - 700.0).abs() < 5.0);
}

#[test]
fn closing_window_does_not_grow_survivors_via_min_span() {
    let mut sim = Sim::new();
    let a = sim.add_window();
    let b = sim.add_window();
    let c = sim.add_window();
    for id in [a, b, c] {
        sim.report_width(id, 300.);
    }
    sim.settle();
    let (a_before, b_before) = (sim.width(a), sim.width(b));
    assert_eq!((a_before, b_before), (300., 300.));

    // The two that stay cover less than half of the view, and stay as they are.
    sim.close_window(c);
    sim.settle();
    assert!(sim.width(a) <= a_before + 1.0 && sim.width(b) <= b_before + 1.0);
}

/// A row that doesn't scroll.
fn fixed_row() -> Sim {
    Sim::with_layout(Layout { disable_carousel: true, ..Layout::default() })
}

#[test]
fn disable_carousel_positional_resize_right_side_window() {
    let mut sim = fixed_row();
    let twenty = 20f64.to_bits();
    let a = sim.add_window();
    sim.set_window_width(a, SizeChange::SetProportion(twenty));
    let b = sim.add_window();
    sim.set_window_width(b, SizeChange::SetProportion(twenty));
    sim.settle();
    let before = sim.width(b);

    sim.resize_column_positional(false, SizeChange::AdjustProportion(twenty));
    sim.settle();
    let grown = sim.width(b);
    assert!(grown > before + 1.0);

    sim.resize_column_positional(true, SizeChange::AdjustProportion(twenty));
    sim.settle();
    assert!(sim.width(b) < grown - 1.0);
}

#[test]
fn disable_carousel_positional_resize_left_side_window() {
    let mut sim = fixed_row();
    let twenty = 20f64.to_bits();
    let a = sim.add_window();
    sim.set_window_width(a, SizeChange::SetProportion(twenty));
    let b = sim.add_window();
    sim.set_window_width(b, SizeChange::SetProportion(twenty));
    sim.workspace.focus_left(&nowhere());
    sim.settle();
    let before = sim.width(a);

    sim.resize_column_positional(true, SizeChange::AdjustProportion(twenty));
    sim.settle();
    let grown = sim.width(a);
    assert!(grown > before + 1.0);

    sim.resize_column_positional(false, SizeChange::AdjustProportion(twenty));
    sim.settle();
    assert!(sim.width(a) < grown - 1.0);
}

#[test]
fn a_removed_tile_takes_the_width_of_its_column_along() {
    let mut sim = Sim::new();
    let a = sim.add_window();
    sim.add_window();
    sim.set_window_width(a, SizeChange::SetFixed(700));
    sim.settle();
    let removed = sim.workspace.remove_tile(a);
    assert_eq!(removed.width, ColumnWidth::Fixed(700f64.to_bits()));
}

#[test]
fn columns_are_put_into_the_order_of_a_list() {
    let mut sim = Sim::new();
    let ids: Vec<u64> = (0..5).map(|_| sim.add_window()).collect();
    let (a, b, c, d, e) = (ids[0], ids[1], ids[2], ids[3], ids[4]);
    let order = |sim: &Sim| -> Vec<u64> {
        sim.workspace.scrolling().columns().iter().map(|x| x.tiles[0].window.id).collect()
    };
    // Two windows in the third column, so that it isn't listed.
    sim.focus_window(d);
    sim.workspace.consume_or_expel_window_left(None);
    assert_eq!(order(&sim), vec![a, b, c, e]);
    sim.focus_window(b);
    assert!(sim.workspace.reorder_single_window_columns(&vec![e, d, b, 77, a]));
    assert_eq!(order(&sim), vec![e, b, c, a]);
    assert_eq!(sim.active(), Some(b));
    sim.verify();
    // Once more changes nothing.
    assert!(!sim.workspace.reorder_single_window_columns(&vec![e, d, b, 77, a]));
    assert_eq!(order(&sim), vec![e, b, c, a]);
    assert!(sim.workspace.reorder_single_window_columns(&vec![a, e]));
    assert_eq!(order(&sim), vec![a, b, c, e]);
    assert!(!sim.workspace.reorder_single_window_columns(&Vec::new()));
}

fn ids() -> Vec<String> {
    vec!["mpv".to_owned(), "org.videolan.VLC".to_owned()]
}

fn is_ultrawide(w: f64, h: f64) -> bool {
    w / h.max(1.) >= 21. / 9.
}

#[test]
fn non_media_player_falls_through() {
    let wide = is_ultrawide(3440., 1440.);
    assert_eq!(
        media_player_default_column_width(wide, Some("firefox"), &ids(), NORMAL, ULTRA),
        None
    );
    let hd = is_ultrawide(1920., 1080.);
    assert_eq!(media_player_default_column_width(hd, Some("firefox"), &ids(), NORMAL, ULTRA), None);
    assert_eq!(media_player_default_column_width(hd, None, &ids(), NORMAL, ULTRA), None);
}

#[test]
fn media_player_narrow_on_normal_wide_on_ultrawide() {
    let hd = is_ultrawide(1920., 1080.);
    assert_eq!(
        media_player_default_column_width(hd, Some("mpv"), &ids(), NORMAL, ULTRA),
        Some(NORMAL)
    );
    let uw = is_ultrawide(3440., 1440.);
    assert_eq!(
        media_player_default_column_width(uw, Some("mpv"), &ids(), NORMAL, ULTRA),
        Some(ULTRA)
    );
    let superuw = is_ultrawide(5120., 1440.);
    assert_eq!(
        media_player_default_column_width(superuw, Some("org.videolan.VLC"), &ids(), NORMAL, ULTRA),
        Some(ULTRA)
    );
}
