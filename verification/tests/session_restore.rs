use naru::config::layout::Layout;
use naru::config::session_restore::{LaunchCommandPart, SessionRestore, SessionRestorePart};
use naru::config::utils::MergeWith;
use naru::layout::tile::{ColumnWidth, SizingMode, Tile, Window};
use naru::layout::workspace::{IdCounter, Workspace};
use naru::layout::workspace_state::{ActivateWindow, WorkspaceAddWindowTarget};
use naru::session::{restored_column_index, stack_restored_columns, RestoredWindow};

fn part(off: bool, on: bool) -> SessionRestorePart {
    SessionRestorePart { off, on, state_path: None, launch_commands: Vec::new() }
}

fn window(id: u64, column: usize, tile: usize) -> RestoredWindow {
    RestoredWindow { id, column, tile }
}

#[test]
fn defaults_include_dolphin_and_konsole() {
    let sr = SessionRestore::default();
    assert!(sr.off, "feature is off by default");
    assert!(sr.launch_command_for("org.kde.dolphin").is_some());
    assert!(sr.launch_command_for("org.kde.konsole").is_some());
    assert!(sr.launch_command_for("does.not.exist").is_none());
}

#[test]
fn user_launch_commands_replace_builtins() {
    let mut sr = SessionRestore::default();
    let part = SessionRestorePart {
        off: false,
        on: true,
        state_path: None,
        launch_commands: vec![LaunchCommandPart {
            app_id: "firefox".into(),
            cwd_from_child: false,
            command: vec!["firefox".into(), "--new-window".into()],
        }],
    };
    sr.merge_with(&part);
    assert!(!sr.off);
    assert_eq!(sr.launch_commands.len(), 1);
    assert_eq!(sr.launch_commands[0].app_id, "firefox");
    // Built-ins are gone once the user defines any launch-command.
    assert!(sr.launch_command_for("org.kde.dolphin").is_none());
}

#[test]
fn empty_user_block_keeps_builtins() {
    let mut sr = SessionRestore::default();
    let part = SessionRestorePart::default();
    sr.merge_with(&part);
    assert!(sr.launch_command_for("org.kde.dolphin").is_some());
}

#[test]
fn builtin_commands_are_exact() {
    let sr = SessionRestore::default();
    let dolphin = sr.launch_command_for("org.kde.dolphin").unwrap();
    assert_eq!(dolphin.command, vec!["dolphin", "%s"]);
    assert!(!dolphin.cwd_from_child);
    let konsole = sr.launch_command_for("org.kde.konsole").unwrap();
    assert_eq!(konsole.command, vec!["konsole", "--workdir", "%s"]);
    assert!(konsole.cwd_from_child);
    assert_eq!(sr.state_path, None);
}

#[test]
fn on_and_off_toggle_the_feature() {
    let mut sr = SessionRestore::default();
    sr.merge_with(&part(false, true));
    assert!(!sr.off);
    sr.merge_with(&part(true, false));
    assert!(sr.off);
    // Where one file says both, `off` wins.
    sr.merge_with(&part(true, true));
    assert!(sr.off);
    sr.merge_with(&part(false, true));
    assert!(!sr.off);
    sr.merge_with(&part(true, true));
    assert!(sr.off);
    let mut with_path = part(false, false);
    with_path.state_path = Some("/tmp/state".into());
    sr.merge_with(&with_path);
    assert_eq!(sr.state_path.as_deref(), Some("/tmp/state"));
    sr.merge_with(&part(false, false));
    assert_eq!(sr.state_path.as_deref(), Some("/tmp/state"));
}

#[test]
fn launch_command_is_the_first_match() {
    let mut sr = SessionRestore::default();
    let mut p = part(false, false);
    for arg in ["one", "two"] {
        p.launch_commands.push(LaunchCommandPart {
            app_id: "app".into(),
            cwd_from_child: arg == "two",
            command: vec![arg.into()],
        });
    }
    sr.merge_with(&p);
    assert_eq!(sr.launch_command_for("app").unwrap().command, vec!["one"]);
}

#[test]
fn restored_index_counts_the_slots_before() {
    assert_eq!(restored_column_index(&vec![], (0, 0)), 1);
    let slots = vec![(2, 0), (0, 1), (0, 0), (1, 5)];
    assert_eq!(restored_column_index(&slots, (0, 0)), 1);
    assert_eq!(restored_column_index(&slots, (0, 1)), 2);
    assert_eq!(restored_column_index(&slots, (1, 5)), 3);
    assert_eq!(restored_column_index(&slots, (2, 0)), 4);
    assert_eq!(restored_column_index(&slots, (9, 9)), 5);
}

#[test]
fn windows_of_a_saved_column_join_their_leader() {
    // Two workspaces; the first one had columns of two and of one window.
    let first = vec![window(3, 1, 0), window(2, 0, 1), window(1, 0, 0)];
    let second = vec![window(4, 0, 0)];
    assert_eq!(stack_restored_columns(&vec![first, second]), vec![2]);
}

#[test]
fn windows_of_different_workspaces_never_join() {
    let a = vec![window(1, 0, 0)];
    let b = vec![window(2, 0, 1)];
    assert!(stack_restored_columns(&vec![a, b]).is_empty());
}

#[test]
fn joining_goes_by_row_in_the_saved_column() {
    let ws = vec![window(7, 4, 2), window(5, 4, 0), window(6, 4, 1)];
    assert_eq!(stack_restored_columns(&vec![ws]), vec![6, 7]);
}

/// Lets windows come back in the given order and then puts the columns together.
fn restored(order: &[RestoredWindow]) -> Vec<Vec<u64>> {
    let mut ws = Workspace::new_no_outputs(Layout::default(), &mut IdCounter::new());
    let mut slots = Vec::new();
    for w in order {
        let tile = Tile {
            window: Window { id: w.id, app_id: None, parent: None, is_urgent: false },
            below: None,
            sizing: SizingMode::Normal,
            restore_to_floating: false,
            width: 0,
        };
        let target = WorkspaceAddWindowTarget::Auto;
        let width = ColumnWidth::Fixed(0);
        ws.add_tile(tile, target, ActivateWindow::Yes, width, false, false);
        let key = (w.column, w.tile);
        ws.move_column_to_index(restored_column_index(&slots, key));
        slots.push(key);
    }
    for id in stack_restored_columns(&vec![order.to_vec()]) {
        ws.consume_or_expel_window_left(Some(id));
    }
    assert!(ws.verify_invariants());
    ws.scrolling()
        .columns()
        .iter()
        .map(|c| c.tiles.iter().map(|t| t.window.id).collect())
        .collect()
}

#[test]
fn a_session_comes_back_in_whatever_order() {
    let a = window(1, 0, 0);
    let b = window(2, 0, 1);
    let c = window(3, 1, 0);
    let d = window(4, 5, 0);
    let e = window(5, 5, 1);
    let f = window(6, 5, 2);
    let saved = vec![vec![1, 2], vec![3], vec![4, 5, 6]];
    assert_eq!(restored(&[a, b, c, d, e, f]), saved);
    assert_eq!(restored(&[f, e, d, c, b, a]), saved);
    assert_eq!(restored(&[c, f, a, e, b, d]), saved);
}
