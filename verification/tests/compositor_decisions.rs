use std::collections::HashMap;

use naru::compositor::{
    after_layer_shell, after_map, after_popup, commit, commit_steps, opens_with_same_app,
    placement_steps, plan_map, restore_window_size, AddWindowTarget, CommitAction, CommitStep,
    ConfiguredFacts, MapFacts, OtherFacts, ParentFacts, PlaceStep, RestoredSize, SavedFacts,
    SurfaceFacts, SurfaceStep, SurfaceTable, ToplevelFacts, UnmappedFacts,
};
use naru::config::layout::{Layout, PresetSize};
use naru::introspect::{
    after_receive, after_send, get_windows, IntrospectError, IntrospectStep, IntrospectToNaru,
    NaruToIntrospect, WindowProperties,
};
use naru::ipc::{OpenInFixedSide, SizeChange};
use naru::layout::tile::{ColumnWidth, SizingMode, Tile, Window};
use naru::layout::workspace::{IdCounter, Workspace};
use naru::layout::workspace_state::{ActivateWindow, WorkspaceAddWindowTarget};
use naru::session::{PanelSide, Placement};

fn surface() -> SurfaceFacts {
    SurfaceFacts {
        is_sync_subsurface: false,
        is_root: true,
        unmapped: None,
        toplevel: None,
        root_window: None,
    }
}

#[test]
fn subsurfaces_wait_for_their_parents() {
    let f = SurfaceFacts {
        is_sync_subsurface: true,
        unmapped: Some(UnmappedFacts { has_buffer: true, needs_initial_configure: false }),
        ..surface()
    };
    assert_eq!(commit(f), CommitAction::Ignore);
}

#[test]
fn unmapped_windows_are_configured_and_then_mapped() {
    let unmapped = |has_buffer, needs_initial_configure| SurfaceFacts {
        unmapped: Some(UnmappedFacts { has_buffer, needs_initial_configure }),
        ..surface()
    };
    assert_eq!(commit(unmapped(false, true)), CommitAction::InitialConfigure);
    assert_eq!(commit(unmapped(true, true)), CommitAction::MapWindow);
    assert_eq!(commit(unmapped(false, false)), CommitAction::Ignore);
}

#[test]
fn mapped_windows_are_updated_or_unmapped() {
    let mapped = ToplevelFacts {
        has_buffer: true,
        serial: Some(4),
        buffer_delta: Some((1, 2)),
        is_focused: true,
        on_output: true,
    };
    let f = SurfaceFacts { toplevel: Some(mapped), ..surface() };
    assert_eq!(
        commit(f),
        CommitAction::Update { serial: Some(4), move_by: Some((1, 2)), redraw: true },
    );
    let gone = ToplevelFacts { has_buffer: false, on_output: false, ..mapped };
    assert!(matches!(
        commit(SurfaceFacts { toplevel: Some(gone), ..surface() }),
        CommitAction::Unmap { warp_cursor: true, redraw: false }
    ));
}

#[test]
fn other_surfaces_are_looked_up_in_turn() {
    let part = SurfaceFacts { is_root: false, root_window: Some(true), ..surface() };
    assert_eq!(commit(part), CommitAction::UpdateDescendant { redraw: true });
    assert_eq!(commit(surface()), CommitAction::TryPopup);
    assert_eq!(after_popup(Some(true)), SurfaceStep::Done { redraw: true });
    assert_eq!(after_popup(None), SurfaceStep::TryLayerShell);
    let nothing = OtherFacts {
        is_layer_surface: false,
        is_root: true,
        is_cursor: false,
        is_dnd_icon: false,
        is_lock_surface: false,
        is_waiting_for_lock: false,
    };
    assert_eq!(after_layer_shell(nothing), SurfaceStep::Unrecognized);
    let layer = OtherFacts { is_layer_surface: true, is_cursor: true, ..nothing };
    assert_eq!(after_layer_shell(layer), SurfaceStep::Done { redraw: false });
    let cursor = OtherFacts { is_cursor: true, ..nothing };
    assert_eq!(after_layer_shell(cursor), SurfaceStep::Cursor { move_hotspot: true });
    let icon = OtherFacts { is_dnd_icon: true, is_root: false, ..nothing };
    assert_eq!(after_layer_shell(icon), SurfaceStep::DndIcon { move_offset: false });
    let lock = OtherFacts { is_lock_surface: true, ..nothing };
    assert_eq!(after_layer_shell(lock), SurfaceStep::RedrawLocked);
    let waiting = OtherFacts { is_waiting_for_lock: true, ..lock };
    assert_eq!(after_layer_shell(waiting), SurfaceStep::ContinueLocking);
}

#[test]
fn windows_of_one_application_open_together() {
    let mut ids = IdCounter::new();
    let mut here = Workspace::new_no_outputs(Layout::default(), &mut ids);
    let elsewhere = Workspace::new_no_outputs(Layout::default(), &mut ids);
    let window = Window { id: 1, app_id: Some("a".into()), parent: None, is_urgent: false };
    let tile = Tile {
        window,
        below: None,
        sizing: SizingMode::Normal,
        restore_to_floating: false,
        width: 0,
    };
    let width = ColumnWidth::Fixed(0);
    let target = WorkspaceAddWindowTarget::Auto;
    here.add_tile(tile, target, ActivateWindow::Yes, width, false, false);
    assert!(opens_with_same_app(Some("a"), None, Some(&here)));
    assert!(!opens_with_same_app(Some("b"), None, Some(&here)));
    assert!(!opens_with_same_app(None, None, Some(&here)));
    // The workspace that the window was configured for goes first.
    assert!(!opens_with_same_app(Some("a"), Some(&elsewhere), Some(&here)));
    assert!(opens_with_same_app(Some("a"), Some(&here), Some(&elsewhere)));
    assert!(!opens_with_same_app(Some("a"), None, None));
}

fn facts() -> MapFacts {
    MapFacts {
        configured: None,
        would_float: false,
        open_floating: None,
        is_web_app: false,
        open_focused: None,
        has_token: false,
        strict_focus: false,
        parent: None,
        saved: None,
    }
}

fn configured(output: Option<(u64, bool)>, workspace: Option<u64>) -> Option<ConfiguredFacts> {
    Some(ConfiguredFacts {
        output,
        workspace,
        width: Some(PresetSize::Fixed(640)),
        height: None,
        is_full_width: true,
        is_pending_maximized: false,
    })
}

#[test]
fn windows_go_where_they_were_configured_for() {
    assert_eq!(plan_map(&facts()).target, AddWindowTarget::Auto);
    let on = |output, workspace| {
        plan_map(&MapFacts { configured: configured(output, workspace), ..facts() })
    };
    assert_eq!(on(Some((3, true)), None).target, AddWindowTarget::Output(3));
    assert_eq!(on(Some((3, false)), None).target, AddWindowTarget::Auto);
    assert_eq!(on(Some((3, true)), Some(7)).target, AddWindowTarget::Workspace(7));
    assert!(on(None, None).is_full_width);
    assert_eq!(on(None, None).width, Some(PresetSize::Fixed(640)));
    assert_eq!(on(None, None).height, None);
    assert_eq!(plan_map(&facts()).width, None);
}

#[test]
fn dialogs_open_next_to_their_parents() {
    let with = |parent_output, output| {
        plan_map(&MapFacts {
            configured: configured(output, None),
            parent: Some(ParentFacts { window: 5, output: parent_output }),
            ..facts()
        })
        .target
    };
    assert_eq!(with(Some(3), Some((3, true))), AddWindowTarget::NextTo(5));
    assert_eq!(with(Some(3), None), AddWindowTarget::NextTo(5));
    assert_eq!(with(None, Some((3, true))), AddWindowTarget::NextTo(5));
    assert_eq!(with(Some(4), Some((3, true))), AddWindowTarget::Output(3));
}

#[test]
fn focus_of_mapped_windows() {
    let plan = |open_focused, has_token, strict_focus| {
        plan_map(&MapFacts { open_focused, has_token, strict_focus, ..facts() }).activate
    };
    assert_eq!(plan(None, false, false), ActivateWindow::Smart);
    assert_eq!(plan(None, false, true), ActivateWindow::No);
    assert_eq!(plan(None, true, true), ActivateWindow::Yes);
    assert_eq!(plan(Some(false), true, false), ActivateWindow::No);
    assert_eq!(plan(Some(true), false, true), ActivateWindow::Yes);
}

#[test]
fn web_applications_float_only_by_rule() {
    let plan = |open_floating, is_web_app| {
        plan_map(&MapFacts { would_float: true, open_floating, is_web_app, ..facts() }).is_floating
    };
    assert!(plan(None, false));
    assert!(!plan(None, true));
    assert!(plan(Some(true), true));
}

fn saved(placement: Placement) -> Option<SavedFacts> {
    Some(SavedFacts { placement, output: Some(3), workspace: Some(7), was_last: true })
}

#[test]
fn windows_go_back_to_their_panels() {
    let placement =
        Placement::SidePanel { side: PanelSide::Right, width: Some(200), height: None };
    let plan = plan_map(&MapFacts {
        saved: saved(placement),
        parent: Some(ParentFacts { window: 5, output: Some(3) }),
        would_float: true,
        ..facts()
    });
    assert_eq!(plan.fixed_side, Some(OpenInFixedSide::Right));
    assert_eq!(plan.target, AddWindowTarget::Output(3));
    assert!(!plan.is_floating);
    assert_eq!(plan.restore_size, Some((Some(200), None)));
    assert_eq!(plan.restore_pos, None);
    assert!(plan.restore_drained);
}

#[test]
fn windows_go_back_to_their_columns() {
    let placement =
        Placement::Tiled { column_index: 2, tile_index: 1, width: None, height: Some(9) };
    let plan = plan_map(&MapFacts {
        saved: saved(placement),
        would_float: true,
        strict_focus: true,
        ..facts()
    });
    assert_eq!(plan.target, AddWindowTarget::Workspace(7));
    assert_eq!(plan.activate, ActivateWindow::Yes);
    assert_eq!(plan.restore_pos, Some((2, 1)));
    assert!(!plan.is_floating);
    let plan = plan_map(&MapFacts { saved: saved(Placement::Floating), ..facts() });
    assert!(plan.is_floating);
    assert_eq!(plan.restore_size, None);
}

#[test]
fn follow_up_of_mapping() {
    let f = after_map(true, true, true, false);
    assert!(f.set_maximized && f.animate && !f.take_focus);
    let f = after_map(true, false, false, true);
    assert!(!f.set_maximized && !f.animate && !f.take_focus);
    assert!(after_map(false, true, true, true).take_focus);
}

#[test]
fn only_captured_sizes_are_given_back() {
    assert!(restore_window_size(None, None).is_empty());
    assert_eq!(
        restore_window_size(Some(500), Some(400)),
        vec![
            RestoredSize::Width(SizeChange::SetFixed(500)),
            RestoredSize::Height(SizeChange::SetFixed(400)),
        ],
    );
}

#[test]
fn surface_tables() {
    let mut table = SurfaceTable::new();
    assert_eq!(table.get(1), None);
    assert_eq!(table.insert(1, 10), None);
    assert_eq!(table.insert(1, 11), Some(10));
    assert_eq!(table.insert(2, 1), None);
    assert_eq!(table.insert(3, 12), None);
    assert_eq!(table.get(1), Some(11));
    // A surface that is gone leaves no trace as a key nor as a root.
    table.forget(1);
    assert_eq!(table.get(1), None);
    assert_eq!(table.get(2), None);
    assert_eq!(table.get(3), Some(12));
    assert_eq!(table.remove(3), Some(12));
    assert_eq!(table.remove(3), None);
}

#[test]
fn questions_about_windows_are_passed_on() {
    assert_eq!(get_windows(), IntrospectToNaru::GetWindows);
    assert_eq!(after_send(true), IntrospectStep::Receive);
    assert_eq!(after_send(false), IntrospectStep::Fail(IntrospectError::Internal));
    let mut windows = HashMap::new();
    windows.insert(4, WindowProperties { title: "t".into(), app_id: "a".into() });
    let answer = after_receive(Some(NaruToIntrospect::Windows(windows))).unwrap();
    assert_eq!(answer[&4].title, "t");
    assert_eq!(answer[&4].app_id, "a");
    assert_eq!(after_receive(None).unwrap_err(), IntrospectError::Internal);
}

#[test]
fn steps_of_commits_are_in_order() {
    assert!(commit_steps(CommitAction::Ignore).is_empty());
    assert!(commit_steps(CommitAction::TryPopup).is_empty());
    assert_eq!(commit_steps(CommitAction::MapWindow), vec![CommitStep::TakeOver]);
    assert_eq!(
        commit_steps(CommitAction::InitialConfigure),
        vec![CommitStep::QueueInitialConfigure],
    );
    assert_eq!(
        commit_steps(CommitAction::Unmap { warp_cursor: true, redraw: true }),
        vec![
            CommitStep::StartCloseAnimation,
            CommitStep::TakeOver,
            CommitStep::StopCasts,
            CommitStep::LeaveSwitcher,
            CommitStep::RemoveWindow,
            CommitStep::MarkSessionDirty,
            CommitStep::AddBufferHook,
            CommitStep::SetDeadline,
            CommitStep::WarpCursor,
            CommitStep::KeepUnmapped,
            CommitStep::Redraw,
        ],
    );
    assert_eq!(
        commit_steps(CommitAction::Update {
            serial: Some(3),
            move_by: Some((1, -1)),
            redraw: false,
        }),
        vec![
            CommitStep::TakeOver,
            CommitStep::UpdateSwitcher,
            CommitStep::UpdateWindow { serial: Some(3) },
            CommitStep::MoveBy { x: 1, y: -1 },
            CommitStep::UpdatePopups,
        ],
    );
    assert_eq!(
        commit_steps(CommitAction::UpdateDescendant { redraw: true }),
        vec![
            CommitStep::TakeOver,
            CommitStep::UpdateSwitcher,
            CommitStep::UpdateWindow { serial: None },
            CommitStep::Redraw,
        ],
    );
}

#[test]
fn steps_of_placement_are_in_order() {
    let slots = vec![(0, 0), (0, 1)];
    // A window that wasn't there before only changes the session.
    let plan = plan_map(&facts());
    let dirty = vec![PlaceStep::MarkSessionDirty];
    assert_eq!(placement_steps(&plan, &slots), dirty);
    // The last window of a session.
    let placement =
        Placement::Tiled { column_index: 0, tile_index: 1, width: Some(5), height: None };
    let plan = plan_map(&MapFacts { saved: saved(placement), ..facts() });
    assert_eq!(
        placement_steps(&plan, &slots),
        vec![
            PlaceStep::MoveColumnTo(2),
            PlaceStep::SetSize(RestoredSize::Width(SizeChange::SetFixed(5))),
            PlaceStep::EndRestore,
            PlaceStep::StackColumns,
            PlaceStep::RestoreActiveWorkspace,
            PlaceStep::MarkSessionDirty,
        ],
    );
}
