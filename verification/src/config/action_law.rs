//! The requests of clients and the actions that they become.

use vstd::prelude::*;
use crate::config::action::{action_of, workspace_reference_of, Action, WorkspaceReference};
use crate::ipc;
use crate::ipc::{
    ColumnDisplay, LayoutSwitchTarget, PositionChange, SizeChange, WorkspaceReferenceArg,
};

verus! {

/// A workspace, by its number, its place or its name.
pub struct Reference {
    pub id: Option<u64>,
    pub index: Option<u8>,
    pub name: Option<String>,
}

/// What a client or a key bind says besides the name of what is to be done.
pub struct Arguments {
    /// The window that is meant; `None` is the active one.
    pub window: Option<u64>,
    /// The workspace that is meant; `None` is the active one.
    pub workspace: Option<Reference>,
    pub output: Option<String>,
    pub name: Option<String>,
    pub path: Option<String>,
    pub command: Option<Vec<String>>,
    pub line: Option<String>,
    pub index: Option<int>,
    pub session: Option<u64>,
    pub delay_ms: Option<u16>,
    pub skip_confirmation: Option<bool>,
    pub write_to_disk: Option<bool>,
    pub show_pointer: Option<bool>,
    pub focus: Option<bool>,
    pub display: Option<ColumnDisplay>,
    pub change: Option<SizeChange>,
    pub layout: Option<LayoutSwitchTarget>,
    pub x: Option<PositionChange>,
    pub y: Option<PositionChange>,
}

/// The workspace that a client means.
pub open spec fn meant_by(arg: WorkspaceReferenceArg) -> Reference {
    Reference {
        id: match arg {
            WorkspaceReferenceArg::Id(id) => Some(id),
            _ => None,
        },
        index: match arg {
            WorkspaceReferenceArg::Index(index) => Some(index),
            _ => None,
        },
        name: match arg {
            WorkspaceReferenceArg::Name(name) => Some(name),
            _ => None,
        },
    }
}

/// The workspace that an action names.
pub open spec fn named_by(reference: WorkspaceReference) -> Reference {
    Reference {
        id: match reference {
            WorkspaceReference::Id(id) => Some(id),
            _ => None,
        },
        index: match reference {
            WorkspaceReference::Index(index) => Some(index),
            _ => None,
        },
        name: match reference {
            WorkspaceReference::Name(name) => Some(name),
            _ => None,
        },
    }
}

/// The command that a client gives to send a request.
pub open spec fn request_name(request: ipc::Action) -> Seq<char> {
    match request {
        ipc::Action::Quit { .. } => "quit"@,
        ipc::Action::PowerOffMonitors => "power-off-monitors"@,
        ipc::Action::PowerOnMonitors => "power-on-monitors"@,
        ipc::Action::Spawn { .. } => "spawn"@,
        ipc::Action::SpawnSh { .. } => "spawn-sh"@,
        ipc::Action::DoScreenTransition { .. } => "do-screen-transition"@,
        ipc::Action::Screenshot { .. } => "screenshot"@,
        ipc::Action::ScreenshotScreen { .. } => "screenshot-screen"@,
        ipc::Action::ScreenshotWindow { .. } => "screenshot-window"@,
        ipc::Action::ToggleKeyboardShortcutsInhibit => "toggle-keyboard-shortcuts-inhibit"@,
        ipc::Action::CloseWindow { .. } => "close-window"@,
        ipc::Action::FullscreenWindow { .. } => "fullscreen-window"@,
        ipc::Action::ToggleWindowedFullscreen { .. } => "toggle-windowed-fullscreen"@,
        ipc::Action::FocusWindow { .. } => "focus-window"@,
        ipc::Action::FocusWindowInColumn { .. } => "focus-window-in-column"@,
        ipc::Action::FocusWindowPrevious => "focus-window-previous"@,
        ipc::Action::FocusColumnLeft => "focus-column-left"@,
        ipc::Action::FocusColumnRight => "focus-column-right"@,
        ipc::Action::FocusColumnFirst => "focus-column-first"@,
        ipc::Action::FocusColumnLast => "focus-column-last"@,
        ipc::Action::FocusColumnRightOrFirst => "focus-column-right-or-first"@,
        ipc::Action::FocusColumnLeftOrLast => "focus-column-left-or-last"@,
        ipc::Action::FocusColumn { .. } => "focus-column"@,
        ipc::Action::FocusWindowOrMonitorUp => "focus-window-or-monitor-up"@,
        ipc::Action::FocusWindowOrMonitorDown => "focus-window-or-monitor-down"@,
        ipc::Action::FocusColumnOrMonitorLeft => "focus-column-or-monitor-left"@,
        ipc::Action::FocusColumnOrMonitorRight => "focus-column-or-monitor-right"@,
        ipc::Action::FocusWindowDown => "focus-window-down"@,
        ipc::Action::FocusWindowUp => "focus-window-up"@,
        ipc::Action::FocusWindowDownOrColumnLeft => "focus-window-down-or-column-left"@,
        ipc::Action::FocusWindowDownOrColumnRight => "focus-window-down-or-column-right"@,
        ipc::Action::FocusWindowUpOrColumnLeft => "focus-window-up-or-column-left"@,
        ipc::Action::FocusWindowUpOrColumnRight => "focus-window-up-or-column-right"@,
        ipc::Action::FocusWindowOrWorkspaceDown => "focus-window-or-workspace-down"@,
        ipc::Action::FocusWindowOrWorkspaceUp => "focus-window-or-workspace-up"@,
        ipc::Action::FocusWindowTop => "focus-window-top"@,
        ipc::Action::FocusWindowBottom => "focus-window-bottom"@,
        ipc::Action::FocusWindowDownOrTop => "focus-window-down-or-top"@,
        ipc::Action::FocusWindowUpOrBottom => "focus-window-up-or-bottom"@,
        ipc::Action::MoveColumnLeft => "move-column-left"@,
        ipc::Action::MoveColumnRight => "move-column-right"@,
        ipc::Action::MoveWindowLeftStacked => "move-window-left-stacked"@,
        ipc::Action::MoveWindowRightStacked => "move-window-right-stacked"@,
        ipc::Action::MoveWindowUpStacked => "move-window-up-stacked"@,
        ipc::Action::MoveWindowDownStacked => "move-window-down-stacked"@,
        ipc::Action::FocusWindowInTileNext => "focus-window-in-tile-next"@,
        ipc::Action::FocusWindowInTilePrev => "focus-window-in-tile-prev"@,
        ipc::Action::MoveColumnToFirst => "move-column-to-first"@,
        ipc::Action::MoveColumnToLast => "move-column-to-last"@,
        ipc::Action::MoveColumnToIndex { .. } => "move-column-to-index"@,
        ipc::Action::MoveColumnLeftOrToMonitorLeft => "move-column-left-or-to-monitor-left"@,
        ipc::Action::MoveColumnRightOrToMonitorRight => "move-column-right-or-to-monitor-right"@,
        ipc::Action::MoveWindowDown => "move-window-down"@,
        ipc::Action::MoveWindowUp => "move-window-up"@,
        ipc::Action::MoveWindowDownOrToWorkspaceDown => "move-window-down-or-to-workspace-down"@,
        ipc::Action::MoveWindowUpOrToWorkspaceUp => "move-window-up-or-to-workspace-up"@,
        ipc::Action::ConsumeOrExpelWindowLeft { .. } => "consume-or-expel-window-left"@,
        ipc::Action::ConsumeOrExpelWindowRight { .. } => "consume-or-expel-window-right"@,
        ipc::Action::ConsumeWindowIntoColumn => "consume-window-into-column"@,
        ipc::Action::ExpelWindowFromColumn => "expel-window-from-column"@,
        ipc::Action::SwapWindowRight => "swap-window-right"@,
        ipc::Action::SwapWindowLeft => "swap-window-left"@,
        ipc::Action::ToggleColumnTabbedDisplay => "toggle-column-tabbed-display"@,
        ipc::Action::SetColumnDisplay { .. } => "set-column-display"@,
        ipc::Action::CenterColumn => "center-column"@,
        ipc::Action::CenterWindow { .. } => "center-window"@,
        ipc::Action::CenterVisibleColumns => "center-visible-columns"@,
        ipc::Action::FocusWorkspaceDown => "focus-workspace-down"@,
        ipc::Action::FocusWorkspaceUp => "focus-workspace-up"@,
        ipc::Action::FocusWorkspace { .. } => "focus-workspace"@,
        ipc::Action::FocusWorkspacePrevious => "focus-workspace-previous"@,
        ipc::Action::MoveWindowToWorkspaceDown { .. } => "move-window-to-workspace-down"@,
        ipc::Action::MoveWindowToWorkspaceUp { .. } => "move-window-to-workspace-up"@,
        ipc::Action::MoveWindowToWorkspace { .. } => "move-window-to-workspace"@,
        ipc::Action::MoveColumnToWorkspaceDown { .. } => "move-column-to-workspace-down"@,
        ipc::Action::MoveColumnToWorkspaceUp { .. } => "move-column-to-workspace-up"@,
        ipc::Action::MoveColumnToWorkspace { .. } => "move-column-to-workspace"@,
        ipc::Action::MoveWorkspaceDown => "move-workspace-down"@,
        ipc::Action::MoveWorkspaceUp => "move-workspace-up"@,
        ipc::Action::SetWorkspaceName { .. } => "set-workspace-name"@,
        ipc::Action::UnsetWorkspaceName { .. } => "unset-workspace-name"@,
        ipc::Action::FocusMonitorLeft => "focus-monitor-left"@,
        ipc::Action::FocusMonitorRight => "focus-monitor-right"@,
        ipc::Action::FocusMonitorDown => "focus-monitor-down"@,
        ipc::Action::FocusMonitorUp => "focus-monitor-up"@,
        ipc::Action::FocusMonitorPrevious => "focus-monitor-previous"@,
        ipc::Action::FocusMonitorNext => "focus-monitor-next"@,
        ipc::Action::FocusMonitor { .. } => "focus-monitor"@,
        ipc::Action::MoveWindowToMonitorLeft => "move-window-to-monitor-left"@,
        ipc::Action::MoveWindowToMonitorRight => "move-window-to-monitor-right"@,
        ipc::Action::MoveWindowToMonitorDown => "move-window-to-monitor-down"@,
        ipc::Action::MoveWindowToMonitorUp => "move-window-to-monitor-up"@,
        ipc::Action::MoveWindowToMonitorPrevious => "move-window-to-monitor-previous"@,
        ipc::Action::MoveWindowToMonitorNext => "move-window-to-monitor-next"@,
        ipc::Action::MoveWindowToMonitor { .. } => "move-window-to-monitor"@,
        ipc::Action::MoveColumnToMonitorLeft => "move-column-to-monitor-left"@,
        ipc::Action::MoveColumnToMonitorRight => "move-column-to-monitor-right"@,
        ipc::Action::MoveColumnToMonitorDown => "move-column-to-monitor-down"@,
        ipc::Action::MoveColumnToMonitorUp => "move-column-to-monitor-up"@,
        ipc::Action::MoveColumnToMonitorPrevious => "move-column-to-monitor-previous"@,
        ipc::Action::MoveColumnToMonitorNext => "move-column-to-monitor-next"@,
        ipc::Action::MoveColumnToMonitor { .. } => "move-column-to-monitor"@,
        ipc::Action::SetWindowWidth { .. } => "set-window-width"@,
        ipc::Action::SetWindowHeight { .. } => "set-window-height"@,
        ipc::Action::ResetWindowHeight { .. } => "reset-window-height"@,
        ipc::Action::SwitchPresetColumnWidth => "switch-preset-column-width"@,
        ipc::Action::SwitchPresetColumnWidthBack => "switch-preset-column-width-back"@,
        ipc::Action::SwitchPresetWindowWidth { .. } => "switch-preset-window-width"@,
        ipc::Action::SwitchPresetWindowWidthBack { .. } => "switch-preset-window-width-back"@,
        ipc::Action::SwitchPresetWindowHeight { .. } => "switch-preset-window-height"@,
        ipc::Action::SwitchPresetWindowHeightBack { .. } => "switch-preset-window-height-back"@,
        ipc::Action::MaximizeColumn => "maximize-column"@,
        ipc::Action::MaximizeWindowToEdges { .. } => "maximize-window-to-edges"@,
        ipc::Action::SetColumnWidth { .. } => "set-column-width"@,
        ipc::Action::ExpandColumnToAvailableWidth => "expand-column-to-available-width"@,
        ipc::Action::SwitchLayout { .. } => "switch-layout"@,
        ipc::Action::ShowHotkeyOverlay => "show-hotkey-overlay"@,
        ipc::Action::MoveWorkspaceToMonitorLeft => "move-workspace-to-monitor-left"@,
        ipc::Action::MoveWorkspaceToMonitorRight => "move-workspace-to-monitor-right"@,
        ipc::Action::MoveWorkspaceToMonitorDown => "move-workspace-to-monitor-down"@,
        ipc::Action::MoveWorkspaceToMonitorUp => "move-workspace-to-monitor-up"@,
        ipc::Action::MoveWorkspaceToMonitorPrevious => "move-workspace-to-monitor-previous"@,
        ipc::Action::MoveWorkspaceToIndex { .. } => "move-workspace-to-index"@,
        ipc::Action::MoveWorkspaceToMonitor { .. } => "move-workspace-to-monitor"@,
        ipc::Action::MoveWorkspaceToMonitorNext => "move-workspace-to-monitor-next"@,
        ipc::Action::ToggleDebugTint => "toggle-debug-tint"@,
        ipc::Action::DebugToggleOpaqueRegions => "debug-toggle-opaque-regions"@,
        ipc::Action::DebugToggleDamage => "debug-toggle-damage"@,
        ipc::Action::ToggleWindowFloating { .. } => "toggle-window-floating"@,
        ipc::Action::MoveWindowToFloating { .. } => "move-window-to-floating"@,
        ipc::Action::MoveWindowToTiling { .. } => "move-window-to-tiling"@,
        ipc::Action::FocusFloating => "focus-floating"@,
        ipc::Action::FocusTiling => "focus-tiling"@,
        ipc::Action::SwitchFocusBetweenFloatingAndTiling => {
            "switch-focus-between-floating-and-tiling"@
        },
        ipc::Action::MoveFloatingWindow { .. } => "move-floating-window"@,
        ipc::Action::ToggleWindowRuleOpacity { .. } => "toggle-window-rule-opacity"@,
        ipc::Action::SetDynamicCastWindow { .. } => "set-dynamic-cast-window"@,
        ipc::Action::SetDynamicCastMonitor { .. } => "set-dynamic-cast-monitor"@,
        ipc::Action::ClearDynamicCastTarget => "clear-dynamic-cast-target"@,
        ipc::Action::StopCast { .. } => "stop-cast"@,
        ipc::Action::ToggleOverview => "toggle-overview"@,
        ipc::Action::OpenOverview => "open-overview"@,
        ipc::Action::CloseOverview => "close-overview"@,
        ipc::Action::ToggleWindowUrgent { .. } => "toggle-window-urgent"@,
        ipc::Action::SetWindowUrgent { .. } => "set-window-urgent"@,
        ipc::Action::UnsetWindowUrgent { .. } => "unset-window-urgent"@,
        ipc::Action::LoadConfigFile { .. } => "load-config-file"@,
    }
}

/// The name of an action in a configuration. An action on a given window or
/// workspace has the name of the one on the active window or workspace.
pub open spec fn action_name(action: Action) -> Seq<char> {
    match action {
        Action::Quit(..) => "quit"@,
        Action::ChangeVt(..) => "change-vt"@,
        Action::Suspend => "suspend"@,
        Action::PowerOffMonitors => "power-off-monitors"@,
        Action::PowerOnMonitors => "power-on-monitors"@,
        Action::ToggleDebugTint => "toggle-debug-tint"@,
        Action::DebugToggleOpaqueRegions => "debug-toggle-opaque-regions"@,
        Action::DebugToggleDamage => "debug-toggle-damage"@,
        Action::Spawn(..) => "spawn"@,
        Action::SpawnSh(..) => "spawn-sh"@,
        Action::DoScreenTransition(..) => "do-screen-transition"@,
        Action::ConfirmScreenshot { .. } => "confirm-screenshot"@,
        Action::CancelScreenshot => "cancel-screenshot"@,
        Action::ScreenshotTogglePointer => "screenshot-toggle-pointer"@,
        Action::Screenshot(..) => "screenshot"@,
        Action::ScreenshotScreen(..) => "screenshot-screen"@,
        Action::ScreenshotWindow(..) => "screenshot-window"@,
        Action::ScreenshotWindowById { .. } => "screenshot-window"@,
        Action::ToggleKeyboardShortcutsInhibit => "toggle-keyboard-shortcuts-inhibit"@,
        Action::CloseWindow => "close-window"@,
        Action::CloseWindowById(..) => "close-window"@,
        Action::FullscreenWindow => "fullscreen-window"@,
        Action::FullscreenWindowById(..) => "fullscreen-window"@,
        Action::ToggleWindowedFullscreen => "toggle-windowed-fullscreen"@,
        Action::ToggleWindowedFullscreenById(..) => "toggle-windowed-fullscreen"@,
        Action::FocusWindow(..) => "focus-window"@,
        Action::FocusWindowInColumn(..) => "focus-window-in-column"@,
        Action::FocusWindowPrevious => "focus-window-previous"@,
        Action::FocusColumnLeft => "focus-column-left"@,
        Action::FocusColumnLeftUnderMouse => "focus-column-left-under-mouse"@,
        Action::FocusColumnRight => "focus-column-right"@,
        Action::FocusColumnRightUnderMouse => "focus-column-right-under-mouse"@,
        Action::FocusColumnFirst => "focus-column-first"@,
        Action::FocusColumnLast => "focus-column-last"@,
        Action::FocusColumnRightOrFirst => "focus-column-right-or-first"@,
        Action::FocusColumnLeftOrLast => "focus-column-left-or-last"@,
        Action::FocusColumn(..) => "focus-column"@,
        Action::FocusWindowOrMonitorUp => "focus-window-or-monitor-up"@,
        Action::FocusWindowOrMonitorDown => "focus-window-or-monitor-down"@,
        Action::FocusColumnOrMonitorLeft => "focus-column-or-monitor-left"@,
        Action::FocusColumnOrMonitorRight => "focus-column-or-monitor-right"@,
        Action::FocusWindowDown => "focus-window-down"@,
        Action::FocusWindowUp => "focus-window-up"@,
        Action::FocusWindowDownOrColumnLeft => "focus-window-down-or-column-left"@,
        Action::FocusWindowDownOrColumnRight => "focus-window-down-or-column-right"@,
        Action::FocusWindowUpOrColumnLeft => "focus-window-up-or-column-left"@,
        Action::FocusWindowUpOrColumnRight => "focus-window-up-or-column-right"@,
        Action::FocusWindowOrWorkspaceDown => "focus-window-or-workspace-down"@,
        Action::FocusWindowOrWorkspaceUp => "focus-window-or-workspace-up"@,
        Action::FocusWindowTop => "focus-window-top"@,
        Action::FocusWindowBottom => "focus-window-bottom"@,
        Action::FocusWindowDownOrTop => "focus-window-down-or-top"@,
        Action::FocusWindowUpOrBottom => "focus-window-up-or-bottom"@,
        Action::MoveColumnLeft => "move-column-left"@,
        Action::MoveColumnRight => "move-column-right"@,
        Action::MoveColumnToFirst => "move-column-to-first"@,
        Action::MoveColumnToLast => "move-column-to-last"@,
        Action::MoveColumnLeftOrToMonitorLeft => "move-column-left-or-to-monitor-left"@,
        Action::MoveColumnRightOrToMonitorRight => "move-column-right-or-to-monitor-right"@,
        Action::MoveColumnToIndex(..) => "move-column-to-index"@,
        Action::MoveWindowDown => "move-window-down"@,
        Action::MoveWindowUp => "move-window-up"@,
        Action::MoveWindowDownOrToWorkspaceDown => "move-window-down-or-to-workspace-down"@,
        Action::MoveWindowUpOrToWorkspaceUp => "move-window-up-or-to-workspace-up"@,
        Action::MoveWindowLeftStacked => "move-window-left-stacked"@,
        Action::MoveWindowRightStacked => "move-window-right-stacked"@,
        Action::MoveWindowUpStacked => "move-window-up-stacked"@,
        Action::MoveWindowDownStacked => "move-window-down-stacked"@,
        Action::FocusWindowInTileNext => "focus-window-in-tile-next"@,
        Action::FocusWindowInTilePrev => "focus-window-in-tile-prev"@,
        Action::ConsumeOrExpelWindowLeft => "consume-or-expel-window-left"@,
        Action::ConsumeOrExpelWindowLeftById(..) => "consume-or-expel-window-left"@,
        Action::ConsumeOrExpelWindowRight => "consume-or-expel-window-right"@,
        Action::ConsumeOrExpelWindowRightById(..) => "consume-or-expel-window-right"@,
        Action::ConsumeWindowIntoColumn => "consume-window-into-column"@,
        Action::ExpelWindowFromColumn => "expel-window-from-column"@,
        Action::SwapWindowLeft => "swap-window-left"@,
        Action::SwapWindowRight => "swap-window-right"@,
        Action::ToggleColumnTabbedDisplay => "toggle-column-tabbed-display"@,
        Action::SetColumnDisplay(..) => "set-column-display"@,
        Action::CenterColumn => "center-column"@,
        Action::CenterWindow => "center-window"@,
        Action::CenterWindowById(..) => "center-window"@,
        Action::CenterVisibleColumns => "center-visible-columns"@,
        Action::FocusWorkspaceDown => "focus-workspace-down"@,
        Action::FocusWorkspaceDownUnderMouse => "focus-workspace-down-under-mouse"@,
        Action::FocusWorkspaceUp => "focus-workspace-up"@,
        Action::FocusWorkspaceUpUnderMouse => "focus-workspace-up-under-mouse"@,
        Action::FocusWorkspace(..) => "focus-workspace"@,
        Action::FocusWorkspacePrevious => "focus-workspace-previous"@,
        Action::MoveWindowToWorkspaceDown(..) => "move-window-to-workspace-down"@,
        Action::MoveWindowToWorkspaceUp(..) => "move-window-to-workspace-up"@,
        Action::MoveWindowToWorkspace(..) => "move-window-to-workspace"@,
        Action::MoveWindowToWorkspaceById { .. } => "move-window-to-workspace"@,
        Action::MoveColumnToWorkspaceDown(..) => "move-column-to-workspace-down"@,
        Action::MoveColumnToWorkspaceUp(..) => "move-column-to-workspace-up"@,
        Action::MoveColumnToWorkspace(..) => "move-column-to-workspace"@,
        Action::MoveWorkspaceDown => "move-workspace-down"@,
        Action::MoveWorkspaceUp => "move-workspace-up"@,
        Action::MoveWorkspaceToIndex(..) => "move-workspace-to-index"@,
        Action::MoveWorkspaceToIndexByRef { .. } => "move-workspace-to-index"@,
        Action::MoveWorkspaceToMonitorByRef { .. } => "move-workspace-to-monitor"@,
        Action::MoveWorkspaceToMonitor(..) => "move-workspace-to-monitor"@,
        Action::SetWorkspaceName(..) => "set-workspace-name"@,
        Action::SetWorkspaceNameByRef { .. } => "set-workspace-name"@,
        Action::UnsetWorkspaceName => "unset-workspace-name"@,
        Action::UnsetWorkSpaceNameByRef(..) => "unset-workspace-name"@,
        Action::FocusMonitorLeft => "focus-monitor-left"@,
        Action::FocusMonitorRight => "focus-monitor-right"@,
        Action::FocusMonitorDown => "focus-monitor-down"@,
        Action::FocusMonitorUp => "focus-monitor-up"@,
        Action::FocusMonitorPrevious => "focus-monitor-previous"@,
        Action::FocusMonitorNext => "focus-monitor-next"@,
        Action::FocusMonitor(..) => "focus-monitor"@,
        Action::MoveWindowToMonitorLeft => "move-window-to-monitor-left"@,
        Action::MoveWindowToMonitorRight => "move-window-to-monitor-right"@,
        Action::MoveWindowToMonitorDown => "move-window-to-monitor-down"@,
        Action::MoveWindowToMonitorUp => "move-window-to-monitor-up"@,
        Action::MoveWindowToMonitorPrevious => "move-window-to-monitor-previous"@,
        Action::MoveWindowToMonitorNext => "move-window-to-monitor-next"@,
        Action::MoveWindowToMonitor(..) => "move-window-to-monitor"@,
        Action::MoveWindowToMonitorById { .. } => "move-window-to-monitor"@,
        Action::MoveColumnToMonitorLeft => "move-column-to-monitor-left"@,
        Action::MoveColumnToMonitorRight => "move-column-to-monitor-right"@,
        Action::MoveColumnToMonitorDown => "move-column-to-monitor-down"@,
        Action::MoveColumnToMonitorUp => "move-column-to-monitor-up"@,
        Action::MoveColumnToMonitorPrevious => "move-column-to-monitor-previous"@,
        Action::MoveColumnToMonitorNext => "move-column-to-monitor-next"@,
        Action::MoveColumnToMonitor(..) => "move-column-to-monitor"@,
        Action::SetWindowWidth(..) => "set-window-width"@,
        Action::SetWindowWidthById { .. } => "set-window-width"@,
        Action::SetWindowHeight(..) => "set-window-height"@,
        Action::SetWindowHeightById { .. } => "set-window-height"@,
        Action::ResetWindowHeight => "reset-window-height"@,
        Action::ResetWindowHeightById(..) => "reset-window-height"@,
        Action::SwitchPresetColumnWidth => "switch-preset-column-width"@,
        Action::SwitchPresetColumnWidthBack => "switch-preset-column-width-back"@,
        Action::SwitchPresetWindowWidth => "switch-preset-window-width"@,
        Action::SwitchPresetWindowWidthBack => "switch-preset-window-width-back"@,
        Action::SwitchPresetWindowWidthById(..) => "switch-preset-window-width"@,
        Action::SwitchPresetWindowWidthBackById(..) => "switch-preset-window-width-back"@,
        Action::SwitchPresetWindowHeight => "switch-preset-window-height"@,
        Action::SwitchPresetWindowHeightBack => "switch-preset-window-height-back"@,
        Action::SwitchPresetWindowHeightById(..) => "switch-preset-window-height"@,
        Action::SwitchPresetWindowHeightBackById(..) => "switch-preset-window-height-back"@,
        Action::MaximizeColumn => "maximize-column"@,
        Action::MaximizeWindowToEdges => "maximize-window-to-edges"@,
        Action::MaximizeWindowToEdgesById(..) => "maximize-window-to-edges"@,
        Action::SetColumnWidth(..) => "set-column-width"@,
        Action::ExpandColumnToAvailableWidth => "expand-column-to-available-width"@,
        Action::SwitchLayout(..) => "switch-layout"@,
        Action::ShowHotkeyOverlay => "show-hotkey-overlay"@,
        Action::MoveWorkspaceToMonitorLeft => "move-workspace-to-monitor-left"@,
        Action::MoveWorkspaceToMonitorRight => "move-workspace-to-monitor-right"@,
        Action::MoveWorkspaceToMonitorDown => "move-workspace-to-monitor-down"@,
        Action::MoveWorkspaceToMonitorUp => "move-workspace-to-monitor-up"@,
        Action::MoveWorkspaceToMonitorPrevious => "move-workspace-to-monitor-previous"@,
        Action::MoveWorkspaceToMonitorNext => "move-workspace-to-monitor-next"@,
        Action::ToggleWindowFloating => "toggle-window-floating"@,
        Action::ToggleWindowFloatingById(..) => "toggle-window-floating"@,
        Action::MoveWindowToFloating => "move-window-to-floating"@,
        Action::MoveWindowToFloatingById(..) => "move-window-to-floating"@,
        Action::MoveWindowToTiling => "move-window-to-tiling"@,
        Action::MoveWindowToTilingById(..) => "move-window-to-tiling"@,
        Action::FocusFloating => "focus-floating"@,
        Action::FocusTiling => "focus-tiling"@,
        Action::SwitchFocusBetweenFloatingAndTiling => "switch-focus-between-floating-and-tiling"@,
        Action::MoveFloatingWindowById { .. } => "move-floating-window"@,
        Action::ToggleWindowRuleOpacity => "toggle-window-rule-opacity"@,
        Action::ToggleWindowRuleOpacityById(..) => "toggle-window-rule-opacity"@,
        Action::SetDynamicCastWindow => "set-dynamic-cast-window"@,
        Action::SetDynamicCastWindowById(..) => "set-dynamic-cast-window"@,
        Action::SetDynamicCastMonitor(..) => "set-dynamic-cast-monitor"@,
        Action::ClearDynamicCastTarget => "clear-dynamic-cast-target"@,
        Action::StopCast(..) => "stop-cast"@,
        Action::ToggleOverview => "toggle-overview"@,
        Action::OpenOverview => "open-overview"@,
        Action::CloseOverview => "close-overview"@,
        Action::ToggleWindowUrgent(..) => "toggle-window-urgent"@,
        Action::SetWindowUrgent(..) => "set-window-urgent"@,
        Action::UnsetWindowUrgent(..) => "unset-window-urgent"@,
        Action::LoadConfigFile(..) => "load-config-file"@,
        Action::MruAdvance { .. } => "mru-advance"@,
        Action::MruConfirm => "mru-confirm"@,
        Action::MruCancel => "mru-cancel"@,
        Action::MruCloseCurrentWindow => "mru-close-current-window"@,
        Action::MruFirst => "mru-first"@,
        Action::MruLast => "mru-last"@,
        Action::MruSetScope(..) => "mru-set-scope"@,
        Action::MruCycleScope => "mru-cycle-scope"@,
    }
}

/// The argument `window` of a request.
pub open spec fn request_window(request: ipc::Action) -> Option<u64> {
    match request {
        ipc::Action::ScreenshotWindow { id, .. } => id,
        ipc::Action::CloseWindow { id } => id,
        ipc::Action::FullscreenWindow { id } => id,
        ipc::Action::ToggleWindowedFullscreen { id } => id,
        ipc::Action::FocusWindow { id } => Some(id),
        ipc::Action::ConsumeOrExpelWindowLeft { id } => id,
        ipc::Action::ConsumeOrExpelWindowRight { id } => id,
        ipc::Action::CenterWindow { id } => id,
        ipc::Action::MoveWindowToWorkspace { window_id, .. } => window_id,
        ipc::Action::MoveWindowToMonitor { id, .. } => id,
        ipc::Action::SetWindowWidth { id, .. } => id,
        ipc::Action::SetWindowHeight { id, .. } => id,
        ipc::Action::ResetWindowHeight { id } => id,
        ipc::Action::SwitchPresetWindowWidth { id } => id,
        ipc::Action::SwitchPresetWindowWidthBack { id } => id,
        ipc::Action::SwitchPresetWindowHeight { id } => id,
        ipc::Action::SwitchPresetWindowHeightBack { id } => id,
        ipc::Action::MaximizeWindowToEdges { id } => id,
        ipc::Action::ToggleWindowFloating { id } => id,
        ipc::Action::MoveWindowToFloating { id } => id,
        ipc::Action::MoveWindowToTiling { id } => id,
        ipc::Action::MoveFloatingWindow { id, .. } => id,
        ipc::Action::ToggleWindowRuleOpacity { id } => id,
        ipc::Action::SetDynamicCastWindow { id } => id,
        ipc::Action::ToggleWindowUrgent { id } => Some(id),
        ipc::Action::SetWindowUrgent { id } => Some(id),
        ipc::Action::UnsetWindowUrgent { id } => Some(id),
        _ => None,
    }
}

/// The argument `window` of an action.
pub open spec fn action_window(action: Action) -> Option<u64> {
    match action {
        Action::ScreenshotWindowById { id, .. } => Some(id),
        Action::CloseWindowById(id) => Some(id),
        Action::FullscreenWindowById(id) => Some(id),
        Action::ToggleWindowedFullscreenById(id) => Some(id),
        Action::FocusWindow(id) => Some(id),
        Action::ConsumeOrExpelWindowLeftById(id) => Some(id),
        Action::ConsumeOrExpelWindowRightById(id) => Some(id),
        Action::CenterWindowById(id) => Some(id),
        Action::MoveWindowToWorkspaceById { window_id, .. } => Some(window_id),
        Action::MoveWindowToMonitorById { id, .. } => Some(id),
        Action::SetWindowWidthById { id, .. } => Some(id),
        Action::SetWindowHeightById { id, .. } => Some(id),
        Action::ResetWindowHeightById(id) => Some(id),
        Action::SwitchPresetWindowWidthById(id) => Some(id),
        Action::SwitchPresetWindowWidthBackById(id) => Some(id),
        Action::SwitchPresetWindowHeightById(id) => Some(id),
        Action::SwitchPresetWindowHeightBackById(id) => Some(id),
        Action::MaximizeWindowToEdgesById(id) => Some(id),
        Action::ToggleWindowFloatingById(id) => Some(id),
        Action::MoveWindowToFloatingById(id) => Some(id),
        Action::MoveWindowToTilingById(id) => Some(id),
        Action::MoveFloatingWindowById { id, .. } => id,
        Action::ToggleWindowRuleOpacityById(id) => Some(id),
        Action::SetDynamicCastWindowById(id) => Some(id),
        Action::ToggleWindowUrgent(id) => Some(id),
        Action::SetWindowUrgent(id) => Some(id),
        Action::UnsetWindowUrgent(id) => Some(id),
        _ => None,
    }
}

/// The argument `workspace` of a request.
pub open spec fn request_workspace(request: ipc::Action) -> Option<Reference> {
    match request {
        ipc::Action::FocusWorkspace { reference } => Some(meant_by(reference)),
        ipc::Action::MoveWindowToWorkspace { reference, .. } => Some(meant_by(reference)),
        ipc::Action::MoveColumnToWorkspace { reference, .. } => Some(meant_by(reference)),
        ipc::Action::SetWorkspaceName { workspace, .. } => match workspace {
            Some(arg) => Some(meant_by(arg)),
            None => None,
        },
        ipc::Action::UnsetWorkspaceName { reference } => match reference {
            Some(arg) => Some(meant_by(arg)),
            None => None,
        },
        ipc::Action::MoveWorkspaceToIndex { reference, .. } => match reference {
            Some(arg) => Some(meant_by(arg)),
            None => None,
        },
        ipc::Action::MoveWorkspaceToMonitor { reference, .. } => match reference {
            Some(arg) => Some(meant_by(arg)),
            None => None,
        },
        _ => None,
    }
}

/// The argument `workspace` of an action.
pub open spec fn action_workspace(action: Action) -> Option<Reference> {
    match action {
        Action::FocusWorkspace(reference) => Some(named_by(reference)),
        Action::MoveWindowToWorkspace(reference, _) => Some(named_by(reference)),
        Action::MoveWindowToWorkspaceById { reference, .. } => Some(named_by(reference)),
        Action::MoveColumnToWorkspace(reference, _) => Some(named_by(reference)),
        Action::MoveWorkspaceToIndexByRef { reference, .. } => Some(named_by(reference)),
        Action::MoveWorkspaceToMonitorByRef { reference, .. } => Some(named_by(reference)),
        Action::SetWorkspaceNameByRef { reference, .. } => Some(named_by(reference)),
        Action::UnsetWorkSpaceNameByRef(reference) => Some(named_by(reference)),
        _ => None,
    }
}

/// The argument `output` of a request.
pub open spec fn request_output(request: ipc::Action) -> Option<String> {
    match request {
        ipc::Action::FocusMonitor { output } => Some(output),
        ipc::Action::MoveWindowToMonitor { output, .. } => Some(output),
        ipc::Action::MoveColumnToMonitor { output } => Some(output),
        ipc::Action::MoveWorkspaceToMonitor { output, .. } => Some(output),
        ipc::Action::SetDynamicCastMonitor { output } => output,
        _ => None,
    }
}

/// The argument `output` of an action.
pub open spec fn action_output(action: Action) -> Option<String> {
    match action {
        Action::MoveWorkspaceToMonitorByRef { output_name, .. } => Some(output_name),
        Action::MoveWorkspaceToMonitor(output) => Some(output),
        Action::FocusMonitor(output) => Some(output),
        Action::MoveWindowToMonitor(output) => Some(output),
        Action::MoveWindowToMonitorById { output, .. } => Some(output),
        Action::MoveColumnToMonitor(output) => Some(output),
        Action::SetDynamicCastMonitor(output) => output,
        _ => None,
    }
}

/// The argument `name` of a request.
pub open spec fn request_new_name(request: ipc::Action) -> Option<String> {
    match request {
        ipc::Action::SetWorkspaceName { name, .. } => Some(name),
        _ => None,
    }
}

/// The argument `name` of an action.
pub open spec fn action_new_name(action: Action) -> Option<String> {
    match action {
        Action::SetWorkspaceName(name) => Some(name),
        Action::SetWorkspaceNameByRef { name, .. } => Some(name),
        _ => None,
    }
}

/// The argument `path` of a request.
pub open spec fn request_path(request: ipc::Action) -> Option<String> {
    match request {
        ipc::Action::Screenshot { path, .. } => path,
        ipc::Action::ScreenshotScreen { path, .. } => path,
        ipc::Action::ScreenshotWindow { path, .. } => path,
        ipc::Action::LoadConfigFile { path } => path,
        _ => None,
    }
}

/// The argument `path` of an action.
pub open spec fn action_path(action: Action) -> Option<String> {
    match action {
        Action::Screenshot(_, path) => path,
        Action::ScreenshotScreen(_, _, path) => path,
        Action::ScreenshotWindow(_, _, path) => path,
        Action::ScreenshotWindowById { path, .. } => path,
        Action::LoadConfigFile(path) => path,
        _ => None,
    }
}

/// The argument `command` of a request.
pub open spec fn request_command(request: ipc::Action) -> Option<Vec<String>> {
    match request {
        ipc::Action::Spawn { command } => Some(command),
        _ => None,
    }
}

/// The argument `command` of an action.
pub open spec fn action_command(action: Action) -> Option<Vec<String>> {
    match action {
        Action::Spawn(command) => Some(command),
        _ => None,
    }
}

/// The argument `line` of a request.
pub open spec fn request_line(request: ipc::Action) -> Option<String> {
    match request {
        ipc::Action::SpawnSh { command } => Some(command),
        _ => None,
    }
}

/// The argument `line` of an action.
pub open spec fn action_line(action: Action) -> Option<String> {
    match action {
        Action::SpawnSh(line) => Some(line),
        _ => None,
    }
}

/// The argument `index` of a request.
pub open spec fn request_index(request: ipc::Action) -> Option<int> {
    match request {
        ipc::Action::FocusWindowInColumn { index } => Some(index as int),
        ipc::Action::FocusColumn { index } => Some(index as int),
        ipc::Action::MoveColumnToIndex { index } => Some(index as int),
        ipc::Action::MoveWorkspaceToIndex { index, .. } => Some(index as int),
        _ => None,
    }
}

/// The argument `index` of an action.
pub open spec fn action_index(action: Action) -> Option<int> {
    match action {
        Action::FocusWindowInColumn(index) => Some(index as int),
        Action::FocusColumn(index) => Some(index as int),
        Action::MoveColumnToIndex(index) => Some(index as int),
        Action::MoveWorkspaceToIndex(index) => Some(index as int),
        Action::MoveWorkspaceToIndexByRef { new_idx, .. } => Some(new_idx as int),
        _ => None,
    }
}

/// The argument `session` of a request.
pub open spec fn request_session(request: ipc::Action) -> Option<u64> {
    match request {
        ipc::Action::StopCast { session_id } => Some(session_id),
        _ => None,
    }
}

/// The argument `session` of an action.
pub open spec fn action_session(action: Action) -> Option<u64> {
    match action {
        Action::StopCast(session_id) => Some(session_id),
        _ => None,
    }
}

/// The argument `delay_ms` of a request.
pub open spec fn request_delay_ms(request: ipc::Action) -> Option<u16> {
    match request {
        ipc::Action::DoScreenTransition { delay_ms } => delay_ms,
        _ => None,
    }
}

/// The argument `delay_ms` of an action.
pub open spec fn action_delay_ms(action: Action) -> Option<u16> {
    match action {
        Action::DoScreenTransition(delay_ms) => delay_ms,
        _ => None,
    }
}

/// The argument `skip_confirmation` of a request.
pub open spec fn request_skip_confirmation(request: ipc::Action) -> Option<bool> {
    match request {
        ipc::Action::Quit { skip_confirmation } => Some(skip_confirmation),
        _ => None,
    }
}

/// The argument `skip_confirmation` of an action.
pub open spec fn action_skip_confirmation(action: Action) -> Option<bool> {
    match action {
        Action::Quit(skip_confirmation) => Some(skip_confirmation),
        _ => None,
    }
}

/// The argument `write_to_disk` of a request.
pub open spec fn request_write_to_disk(request: ipc::Action) -> Option<bool> {
    match request {
        ipc::Action::ScreenshotScreen { write_to_disk, .. } => Some(write_to_disk),
        ipc::Action::ScreenshotWindow { write_to_disk, .. } => Some(write_to_disk),
        _ => None,
    }
}

/// The argument `write_to_disk` of an action.
pub open spec fn action_write_to_disk(action: Action) -> Option<bool> {
    match action {
        Action::ScreenshotScreen(write_to_disk, _, _) => Some(write_to_disk),
        Action::ScreenshotWindow(write_to_disk, _, _) => Some(write_to_disk),
        Action::ScreenshotWindowById { write_to_disk, .. } => Some(write_to_disk),
        _ => None,
    }
}

/// The argument `show_pointer` of a request.
pub open spec fn request_show_pointer(request: ipc::Action) -> Option<bool> {
    match request {
        ipc::Action::Screenshot { show_pointer, .. } => Some(show_pointer),
        ipc::Action::ScreenshotScreen { show_pointer, .. } => Some(show_pointer),
        ipc::Action::ScreenshotWindow { show_pointer, .. } => Some(show_pointer),
        _ => None,
    }
}

/// The argument `show_pointer` of an action.
pub open spec fn action_show_pointer(action: Action) -> Option<bool> {
    match action {
        Action::Screenshot(show_pointer, _) => Some(show_pointer),
        Action::ScreenshotScreen(_, show_pointer, _) => Some(show_pointer),
        Action::ScreenshotWindow(_, show_pointer, _) => Some(show_pointer),
        Action::ScreenshotWindowById { show_pointer, .. } => Some(show_pointer),
        _ => None,
    }
}

/// The argument `focus` of a request.
pub open spec fn request_focus(request: ipc::Action) -> Option<bool> {
    match request {
        ipc::Action::MoveWindowToWorkspaceDown { focus } => Some(focus),
        ipc::Action::MoveWindowToWorkspaceUp { focus } => Some(focus),
        ipc::Action::MoveWindowToWorkspace { focus, .. } => Some(focus),
        ipc::Action::MoveColumnToWorkspaceDown { focus } => Some(focus),
        ipc::Action::MoveColumnToWorkspaceUp { focus } => Some(focus),
        ipc::Action::MoveColumnToWorkspace { focus, .. } => Some(focus),
        _ => None,
    }
}

/// The argument `focus` of an action.
pub open spec fn action_focus(action: Action) -> Option<bool> {
    match action {
        Action::MoveWindowToWorkspaceDown(focus) => Some(focus),
        Action::MoveWindowToWorkspaceUp(focus) => Some(focus),
        Action::MoveWindowToWorkspace(_, focus) => Some(focus),
        Action::MoveWindowToWorkspaceById { focus, .. } => Some(focus),
        Action::MoveColumnToWorkspaceDown(focus) => Some(focus),
        Action::MoveColumnToWorkspaceUp(focus) => Some(focus),
        Action::MoveColumnToWorkspace(_, focus) => Some(focus),
        _ => None,
    }
}

/// The argument `display` of a request.
pub open spec fn request_display(request: ipc::Action) -> Option<ColumnDisplay> {
    match request {
        ipc::Action::SetColumnDisplay { display } => Some(display),
        _ => None,
    }
}

/// The argument `display` of an action.
pub open spec fn action_display(action: Action) -> Option<ColumnDisplay> {
    match action {
        Action::SetColumnDisplay(display) => Some(display),
        _ => None,
    }
}

/// The argument `change` of a request.
pub open spec fn request_change(request: ipc::Action) -> Option<SizeChange> {
    match request {
        ipc::Action::SetWindowWidth { change, .. } => Some(change),
        ipc::Action::SetWindowHeight { change, .. } => Some(change),
        ipc::Action::SetColumnWidth { change } => Some(change),
        _ => None,
    }
}

/// The argument `change` of an action.
pub open spec fn action_change(action: Action) -> Option<SizeChange> {
    match action {
        Action::SetWindowWidth(change) => Some(change),
        Action::SetWindowWidthById { change, .. } => Some(change),
        Action::SetWindowHeight(change) => Some(change),
        Action::SetWindowHeightById { change, .. } => Some(change),
        Action::SetColumnWidth(change) => Some(change),
        _ => None,
    }
}

/// The argument `layout` of a request.
pub open spec fn request_layout(request: ipc::Action) -> Option<LayoutSwitchTarget> {
    match request {
        ipc::Action::SwitchLayout { layout } => Some(layout),
        _ => None,
    }
}

/// The argument `layout` of an action.
pub open spec fn action_layout(action: Action) -> Option<LayoutSwitchTarget> {
    match action {
        Action::SwitchLayout(layout) => Some(layout),
        _ => None,
    }
}

/// The argument `x` of a request.
pub open spec fn request_x(request: ipc::Action) -> Option<PositionChange> {
    match request {
        ipc::Action::MoveFloatingWindow { x, .. } => Some(x),
        _ => None,
    }
}

/// The argument `x` of an action.
pub open spec fn action_x(action: Action) -> Option<PositionChange> {
    match action {
        Action::MoveFloatingWindowById { x, .. } => Some(x),
        _ => None,
    }
}

/// The argument `y` of a request.
pub open spec fn request_y(request: ipc::Action) -> Option<PositionChange> {
    match request {
        ipc::Action::MoveFloatingWindow { y, .. } => Some(y),
        _ => None,
    }
}

/// The argument `y` of an action.
pub open spec fn action_y(action: Action) -> Option<PositionChange> {
    match action {
        Action::MoveFloatingWindowById { y, .. } => Some(y),
        _ => None,
    }
}

/// What a request says besides its name.
pub open spec fn request_arguments(request: ipc::Action) -> Arguments {
    Arguments {
        window: request_window(request),
        workspace: request_workspace(request),
        output: request_output(request),
        name: request_new_name(request),
        path: request_path(request),
        command: request_command(request),
        line: request_line(request),
        index: request_index(request),
        session: request_session(request),
        delay_ms: request_delay_ms(request),
        skip_confirmation: request_skip_confirmation(request),
        write_to_disk: request_write_to_disk(request),
        show_pointer: request_show_pointer(request),
        focus: request_focus(request),
        display: request_display(request),
        change: request_change(request),
        layout: request_layout(request),
        x: request_x(request),
        y: request_y(request),
    }
}

/// What an action says besides its name.
pub open spec fn action_arguments(action: Action) -> Arguments {
    Arguments {
        window: action_window(action),
        workspace: action_workspace(action),
        output: action_output(action),
        name: action_new_name(action),
        path: action_path(action),
        command: action_command(action),
        line: action_line(action),
        index: action_index(action),
        session: action_session(action),
        delay_ms: action_delay_ms(action),
        skip_confirmation: action_skip_confirmation(action),
        write_to_disk: action_write_to_disk(action),
        show_pointer: action_show_pointer(action),
        focus: action_focus(action),
        display: action_display(action),
        change: action_change(action),
        layout: action_layout(action),
        x: action_x(action),
        y: action_y(action),
    }
}

spec fn arg_of(reference: WorkspaceReference) -> WorkspaceReferenceArg {
    match reference {
        WorkspaceReference::Id(id) => WorkspaceReferenceArg::Id(id),
        WorkspaceReference::Index(index) => WorkspaceReferenceArg::Index(index),
        WorkspaceReference::Name(name) => WorkspaceReferenceArg::Name(name),
    }
}

/// The request that becomes an action, where there is one.
spec fn asked_by(action: Action) -> Option<ipc::Action> {
    match action {
        Action::Quit(skip_confirmation) => Some(ipc::Action::Quit { skip_confirmation }),
        Action::PowerOffMonitors => Some(ipc::Action::PowerOffMonitors),
        Action::PowerOnMonitors => Some(ipc::Action::PowerOnMonitors),
        Action::ToggleDebugTint => Some(ipc::Action::ToggleDebugTint),
        Action::DebugToggleOpaqueRegions => Some(ipc::Action::DebugToggleOpaqueRegions),
        Action::DebugToggleDamage => Some(ipc::Action::DebugToggleDamage),
        Action::Spawn(command) => Some(ipc::Action::Spawn { command }),
        Action::SpawnSh(line) => Some(ipc::Action::SpawnSh { command: line }),
        Action::DoScreenTransition(delay_ms) => Some(ipc::Action::DoScreenTransition { delay_ms }),
        Action::Screenshot(show_pointer, path) => Some(
            ipc::Action::Screenshot { show_pointer, path },
        ),
        Action::ScreenshotScreen(write_to_disk, show_pointer, path) => Some(
            ipc::Action::ScreenshotScreen { write_to_disk, show_pointer, path },
        ),
        Action::ScreenshotWindow(write_to_disk, show_pointer, path) => Some(
            ipc::Action::ScreenshotWindow { id: None, write_to_disk, show_pointer, path },
        ),
        Action::ScreenshotWindowById { id, write_to_disk, show_pointer, path } => Some(
            ipc::Action::ScreenshotWindow { id: Some(id), write_to_disk, show_pointer, path },
        ),
        Action::ToggleKeyboardShortcutsInhibit => Some(ipc::Action::ToggleKeyboardShortcutsInhibit),
        Action::CloseWindow => Some(ipc::Action::CloseWindow { id: None }),
        Action::CloseWindowById(id) => Some(ipc::Action::CloseWindow { id: Some(id) }),
        Action::FullscreenWindow => Some(ipc::Action::FullscreenWindow { id: None }),
        Action::FullscreenWindowById(id) => Some(ipc::Action::FullscreenWindow { id: Some(id) }),
        Action::ToggleWindowedFullscreen => Some(
            ipc::Action::ToggleWindowedFullscreen { id: None },
        ),
        Action::ToggleWindowedFullscreenById(id) => Some(
            ipc::Action::ToggleWindowedFullscreen { id: Some(id) },
        ),
        Action::FocusWindow(id) => Some(ipc::Action::FocusWindow { id }),
        Action::FocusWindowInColumn(index) => Some(ipc::Action::FocusWindowInColumn { index }),
        Action::FocusWindowPrevious => Some(ipc::Action::FocusWindowPrevious),
        Action::FocusColumnLeft => Some(ipc::Action::FocusColumnLeft),
        Action::FocusColumnRight => Some(ipc::Action::FocusColumnRight),
        Action::FocusColumnFirst => Some(ipc::Action::FocusColumnFirst),
        Action::FocusColumnLast => Some(ipc::Action::FocusColumnLast),
        Action::FocusColumnRightOrFirst => Some(ipc::Action::FocusColumnRightOrFirst),
        Action::FocusColumnLeftOrLast => Some(ipc::Action::FocusColumnLeftOrLast),
        Action::FocusColumn(index) => Some(ipc::Action::FocusColumn { index }),
        Action::FocusWindowOrMonitorUp => Some(ipc::Action::FocusWindowOrMonitorUp),
        Action::FocusWindowOrMonitorDown => Some(ipc::Action::FocusWindowOrMonitorDown),
        Action::FocusColumnOrMonitorLeft => Some(ipc::Action::FocusColumnOrMonitorLeft),
        Action::FocusColumnOrMonitorRight => Some(ipc::Action::FocusColumnOrMonitorRight),
        Action::FocusWindowDown => Some(ipc::Action::FocusWindowDown),
        Action::FocusWindowUp => Some(ipc::Action::FocusWindowUp),
        Action::FocusWindowDownOrColumnLeft => Some(ipc::Action::FocusWindowDownOrColumnLeft),
        Action::FocusWindowDownOrColumnRight => Some(ipc::Action::FocusWindowDownOrColumnRight),
        Action::FocusWindowUpOrColumnLeft => Some(ipc::Action::FocusWindowUpOrColumnLeft),
        Action::FocusWindowUpOrColumnRight => Some(ipc::Action::FocusWindowUpOrColumnRight),
        Action::FocusWindowOrWorkspaceDown => Some(ipc::Action::FocusWindowOrWorkspaceDown),
        Action::FocusWindowOrWorkspaceUp => Some(ipc::Action::FocusWindowOrWorkspaceUp),
        Action::FocusWindowTop => Some(ipc::Action::FocusWindowTop),
        Action::FocusWindowBottom => Some(ipc::Action::FocusWindowBottom),
        Action::FocusWindowDownOrTop => Some(ipc::Action::FocusWindowDownOrTop),
        Action::FocusWindowUpOrBottom => Some(ipc::Action::FocusWindowUpOrBottom),
        Action::MoveColumnLeft => Some(ipc::Action::MoveColumnLeft),
        Action::MoveColumnRight => Some(ipc::Action::MoveColumnRight),
        Action::MoveColumnToFirst => Some(ipc::Action::MoveColumnToFirst),
        Action::MoveColumnToLast => Some(ipc::Action::MoveColumnToLast),
        Action::MoveColumnLeftOrToMonitorLeft => Some(ipc::Action::MoveColumnLeftOrToMonitorLeft),
        Action::MoveColumnRightOrToMonitorRight => Some(
            ipc::Action::MoveColumnRightOrToMonitorRight,
        ),
        Action::MoveColumnToIndex(index) => Some(ipc::Action::MoveColumnToIndex { index }),
        Action::MoveWindowDown => Some(ipc::Action::MoveWindowDown),
        Action::MoveWindowUp => Some(ipc::Action::MoveWindowUp),
        Action::MoveWindowDownOrToWorkspaceDown => Some(
            ipc::Action::MoveWindowDownOrToWorkspaceDown,
        ),
        Action::MoveWindowUpOrToWorkspaceUp => Some(ipc::Action::MoveWindowUpOrToWorkspaceUp),
        Action::MoveWindowLeftStacked => Some(ipc::Action::MoveWindowLeftStacked),
        Action::MoveWindowRightStacked => Some(ipc::Action::MoveWindowRightStacked),
        Action::MoveWindowUpStacked => Some(ipc::Action::MoveWindowUpStacked),
        Action::MoveWindowDownStacked => Some(ipc::Action::MoveWindowDownStacked),
        Action::FocusWindowInTileNext => Some(ipc::Action::FocusWindowInTileNext),
        Action::FocusWindowInTilePrev => Some(ipc::Action::FocusWindowInTilePrev),
        Action::ConsumeOrExpelWindowLeft => Some(
            ipc::Action::ConsumeOrExpelWindowLeft { id: None },
        ),
        Action::ConsumeOrExpelWindowLeftById(id) => Some(
            ipc::Action::ConsumeOrExpelWindowLeft { id: Some(id) },
        ),
        Action::ConsumeOrExpelWindowRight => Some(
            ipc::Action::ConsumeOrExpelWindowRight { id: None },
        ),
        Action::ConsumeOrExpelWindowRightById(id) => Some(
            ipc::Action::ConsumeOrExpelWindowRight { id: Some(id) },
        ),
        Action::ConsumeWindowIntoColumn => Some(ipc::Action::ConsumeWindowIntoColumn),
        Action::ExpelWindowFromColumn => Some(ipc::Action::ExpelWindowFromColumn),
        Action::SwapWindowLeft => Some(ipc::Action::SwapWindowLeft),
        Action::SwapWindowRight => Some(ipc::Action::SwapWindowRight),
        Action::ToggleColumnTabbedDisplay => Some(ipc::Action::ToggleColumnTabbedDisplay),
        Action::SetColumnDisplay(display) => Some(ipc::Action::SetColumnDisplay { display }),
        Action::CenterColumn => Some(ipc::Action::CenterColumn),
        Action::CenterWindow => Some(ipc::Action::CenterWindow { id: None }),
        Action::CenterWindowById(id) => Some(ipc::Action::CenterWindow { id: Some(id) }),
        Action::CenterVisibleColumns => Some(ipc::Action::CenterVisibleColumns),
        Action::FocusWorkspaceDown => Some(ipc::Action::FocusWorkspaceDown),
        Action::FocusWorkspaceUp => Some(ipc::Action::FocusWorkspaceUp),
        Action::FocusWorkspace(reference) => Some(
            ipc::Action::FocusWorkspace { reference: arg_of(reference) },
        ),
        Action::FocusWorkspacePrevious => Some(ipc::Action::FocusWorkspacePrevious),
        Action::MoveWindowToWorkspaceDown(focus) => Some(
            ipc::Action::MoveWindowToWorkspaceDown { focus },
        ),
        Action::MoveWindowToWorkspaceUp(focus) => Some(
            ipc::Action::MoveWindowToWorkspaceUp { focus },
        ),
        Action::MoveWindowToWorkspace(reference, focus) => Some(
            ipc::Action::MoveWindowToWorkspace {
                window_id: None,
                reference: arg_of(reference),
                focus,
            },
        ),
        Action::MoveWindowToWorkspaceById { window_id, reference, focus } => Some(
            ipc::Action::MoveWindowToWorkspace {
                window_id: Some(window_id),
                reference: arg_of(reference),
                focus,
            },
        ),
        Action::MoveColumnToWorkspaceDown(focus) => Some(
            ipc::Action::MoveColumnToWorkspaceDown { focus },
        ),
        Action::MoveColumnToWorkspaceUp(focus) => Some(
            ipc::Action::MoveColumnToWorkspaceUp { focus },
        ),
        Action::MoveColumnToWorkspace(reference, focus) => Some(
            ipc::Action::MoveColumnToWorkspace { reference: arg_of(reference), focus },
        ),
        Action::MoveWorkspaceDown => Some(ipc::Action::MoveWorkspaceDown),
        Action::MoveWorkspaceUp => Some(ipc::Action::MoveWorkspaceUp),
        Action::MoveWorkspaceToIndex(index) => Some(
            ipc::Action::MoveWorkspaceToIndex { index, reference: None },
        ),
        Action::MoveWorkspaceToIndexByRef { new_idx, reference } => Some(
            ipc::Action::MoveWorkspaceToIndex {
                index: new_idx,
                reference: Some(arg_of(reference)),
            },
        ),
        Action::MoveWorkspaceToMonitorByRef { output_name, reference } => Some(
            ipc::Action::MoveWorkspaceToMonitor {
                output: output_name,
                reference: Some(arg_of(reference)),
            },
        ),
        Action::MoveWorkspaceToMonitor(output) => Some(
            ipc::Action::MoveWorkspaceToMonitor { output, reference: None },
        ),
        Action::SetWorkspaceName(name) => Some(
            ipc::Action::SetWorkspaceName { name, workspace: None },
        ),
        Action::SetWorkspaceNameByRef { name, reference } => Some(
            ipc::Action::SetWorkspaceName { name, workspace: Some(arg_of(reference)) },
        ),
        Action::UnsetWorkspaceName => Some(ipc::Action::UnsetWorkspaceName { reference: None }),
        Action::UnsetWorkSpaceNameByRef(reference) => Some(
            ipc::Action::UnsetWorkspaceName { reference: Some(arg_of(reference)) },
        ),
        Action::FocusMonitorLeft => Some(ipc::Action::FocusMonitorLeft),
        Action::FocusMonitorRight => Some(ipc::Action::FocusMonitorRight),
        Action::FocusMonitorDown => Some(ipc::Action::FocusMonitorDown),
        Action::FocusMonitorUp => Some(ipc::Action::FocusMonitorUp),
        Action::FocusMonitorPrevious => Some(ipc::Action::FocusMonitorPrevious),
        Action::FocusMonitorNext => Some(ipc::Action::FocusMonitorNext),
        Action::FocusMonitor(output) => Some(ipc::Action::FocusMonitor { output }),
        Action::MoveWindowToMonitorLeft => Some(ipc::Action::MoveWindowToMonitorLeft),
        Action::MoveWindowToMonitorRight => Some(ipc::Action::MoveWindowToMonitorRight),
        Action::MoveWindowToMonitorDown => Some(ipc::Action::MoveWindowToMonitorDown),
        Action::MoveWindowToMonitorUp => Some(ipc::Action::MoveWindowToMonitorUp),
        Action::MoveWindowToMonitorPrevious => Some(ipc::Action::MoveWindowToMonitorPrevious),
        Action::MoveWindowToMonitorNext => Some(ipc::Action::MoveWindowToMonitorNext),
        Action::MoveWindowToMonitor(output) => Some(
            ipc::Action::MoveWindowToMonitor { id: None, output },
        ),
        Action::MoveWindowToMonitorById { id, output } => Some(
            ipc::Action::MoveWindowToMonitor { id: Some(id), output },
        ),
        Action::MoveColumnToMonitorLeft => Some(ipc::Action::MoveColumnToMonitorLeft),
        Action::MoveColumnToMonitorRight => Some(ipc::Action::MoveColumnToMonitorRight),
        Action::MoveColumnToMonitorDown => Some(ipc::Action::MoveColumnToMonitorDown),
        Action::MoveColumnToMonitorUp => Some(ipc::Action::MoveColumnToMonitorUp),
        Action::MoveColumnToMonitorPrevious => Some(ipc::Action::MoveColumnToMonitorPrevious),
        Action::MoveColumnToMonitorNext => Some(ipc::Action::MoveColumnToMonitorNext),
        Action::MoveColumnToMonitor(output) => Some(ipc::Action::MoveColumnToMonitor { output }),
        Action::SetWindowWidth(change) => Some(ipc::Action::SetWindowWidth { id: None, change }),
        Action::SetWindowWidthById { id, change } => Some(
            ipc::Action::SetWindowWidth { id: Some(id), change },
        ),
        Action::SetWindowHeight(change) => Some(ipc::Action::SetWindowHeight { id: None, change }),
        Action::SetWindowHeightById { id, change } => Some(
            ipc::Action::SetWindowHeight { id: Some(id), change },
        ),
        Action::ResetWindowHeight => Some(ipc::Action::ResetWindowHeight { id: None }),
        Action::ResetWindowHeightById(id) => Some(ipc::Action::ResetWindowHeight { id: Some(id) }),
        Action::SwitchPresetColumnWidth => Some(ipc::Action::SwitchPresetColumnWidth),
        Action::SwitchPresetColumnWidthBack => Some(ipc::Action::SwitchPresetColumnWidthBack),
        Action::SwitchPresetWindowWidth => Some(ipc::Action::SwitchPresetWindowWidth { id: None }),
        Action::SwitchPresetWindowWidthBack => Some(
            ipc::Action::SwitchPresetWindowWidthBack { id: None },
        ),
        Action::SwitchPresetWindowWidthById(id) => Some(
            ipc::Action::SwitchPresetWindowWidth { id: Some(id) },
        ),
        Action::SwitchPresetWindowWidthBackById(id) => Some(
            ipc::Action::SwitchPresetWindowWidthBack { id: Some(id) },
        ),
        Action::SwitchPresetWindowHeight => Some(
            ipc::Action::SwitchPresetWindowHeight { id: None },
        ),
        Action::SwitchPresetWindowHeightBack => Some(
            ipc::Action::SwitchPresetWindowHeightBack { id: None },
        ),
        Action::SwitchPresetWindowHeightById(id) => Some(
            ipc::Action::SwitchPresetWindowHeight { id: Some(id) },
        ),
        Action::SwitchPresetWindowHeightBackById(id) => Some(
            ipc::Action::SwitchPresetWindowHeightBack { id: Some(id) },
        ),
        Action::MaximizeColumn => Some(ipc::Action::MaximizeColumn),
        Action::MaximizeWindowToEdges => Some(ipc::Action::MaximizeWindowToEdges { id: None }),
        Action::MaximizeWindowToEdgesById(id) => Some(
            ipc::Action::MaximizeWindowToEdges { id: Some(id) },
        ),
        Action::SetColumnWidth(change) => Some(ipc::Action::SetColumnWidth { change }),
        Action::ExpandColumnToAvailableWidth => Some(ipc::Action::ExpandColumnToAvailableWidth),
        Action::SwitchLayout(layout) => Some(ipc::Action::SwitchLayout { layout }),
        Action::ShowHotkeyOverlay => Some(ipc::Action::ShowHotkeyOverlay),
        Action::MoveWorkspaceToMonitorLeft => Some(ipc::Action::MoveWorkspaceToMonitorLeft),
        Action::MoveWorkspaceToMonitorRight => Some(ipc::Action::MoveWorkspaceToMonitorRight),
        Action::MoveWorkspaceToMonitorDown => Some(ipc::Action::MoveWorkspaceToMonitorDown),
        Action::MoveWorkspaceToMonitorUp => Some(ipc::Action::MoveWorkspaceToMonitorUp),
        Action::MoveWorkspaceToMonitorPrevious => Some(ipc::Action::MoveWorkspaceToMonitorPrevious),
        Action::MoveWorkspaceToMonitorNext => Some(ipc::Action::MoveWorkspaceToMonitorNext),
        Action::ToggleWindowFloating => Some(ipc::Action::ToggleWindowFloating { id: None }),
        Action::ToggleWindowFloatingById(id) => Some(
            ipc::Action::ToggleWindowFloating { id: Some(id) },
        ),
        Action::MoveWindowToFloating => Some(ipc::Action::MoveWindowToFloating { id: None }),
        Action::MoveWindowToFloatingById(id) => Some(
            ipc::Action::MoveWindowToFloating { id: Some(id) },
        ),
        Action::MoveWindowToTiling => Some(ipc::Action::MoveWindowToTiling { id: None }),
        Action::MoveWindowToTilingById(id) => Some(
            ipc::Action::MoveWindowToTiling { id: Some(id) },
        ),
        Action::FocusFloating => Some(ipc::Action::FocusFloating),
        Action::FocusTiling => Some(ipc::Action::FocusTiling),
        Action::SwitchFocusBetweenFloatingAndTiling => Some(
            ipc::Action::SwitchFocusBetweenFloatingAndTiling,
        ),
        Action::MoveFloatingWindowById { id, x, y } => Some(
            ipc::Action::MoveFloatingWindow { id, x, y },
        ),
        Action::ToggleWindowRuleOpacity => Some(ipc::Action::ToggleWindowRuleOpacity { id: None }),
        Action::ToggleWindowRuleOpacityById(id) => Some(
            ipc::Action::ToggleWindowRuleOpacity { id: Some(id) },
        ),
        Action::SetDynamicCastWindow => Some(ipc::Action::SetDynamicCastWindow { id: None }),
        Action::SetDynamicCastWindowById(id) => Some(
            ipc::Action::SetDynamicCastWindow { id: Some(id) },
        ),
        Action::SetDynamicCastMonitor(output) => Some(
            ipc::Action::SetDynamicCastMonitor { output },
        ),
        Action::ClearDynamicCastTarget => Some(ipc::Action::ClearDynamicCastTarget),
        Action::StopCast(session_id) => Some(ipc::Action::StopCast { session_id }),
        Action::ToggleOverview => Some(ipc::Action::ToggleOverview),
        Action::OpenOverview => Some(ipc::Action::OpenOverview),
        Action::CloseOverview => Some(ipc::Action::CloseOverview),
        Action::ToggleWindowUrgent(id) => Some(ipc::Action::ToggleWindowUrgent { id }),
        Action::SetWindowUrgent(id) => Some(ipc::Action::SetWindowUrgent { id }),
        Action::UnsetWindowUrgent(id) => Some(ipc::Action::UnsetWindowUrgent { id }),
        Action::LoadConfigFile(path) => Some(ipc::Action::LoadConfigFile { path }),
        _ => None,
    }
}

proof fn lemma_asked_by(request: ipc::Action)
    ensures
        asked_by(action_of(request)) == Some(request),
{
}

/// A reference to a workspace means the same one to a client and in an action.
pub proof fn references_keep_their_meaning(arg: WorkspaceReferenceArg)
    ensures
        named_by(workspace_reference_of(arg)) == meant_by(arg),
{
}

/// A request becomes the action that has its name.
pub proof fn requests_keep_their_name(request: ipc::Action)
    ensures
        action_name(action_of(request)) == request_name(request),
{
}

proof fn lemma_window(request: ipc::Action)
    ensures
        action_window(action_of(request)) == request_window(request),
{
}

proof fn lemma_workspace(request: ipc::Action)
    ensures
        action_workspace(action_of(request)) == request_workspace(request),
{
}

proof fn lemma_output(request: ipc::Action)
    ensures
        action_output(action_of(request)) == request_output(request),
{
}

proof fn lemma_new_name(request: ipc::Action)
    ensures
        action_new_name(action_of(request)) == request_new_name(request),
{
}

proof fn lemma_path(request: ipc::Action)
    ensures
        action_path(action_of(request)) == request_path(request),
{
}

proof fn lemma_command(request: ipc::Action)
    ensures
        action_command(action_of(request)) == request_command(request),
{
}

proof fn lemma_line(request: ipc::Action)
    ensures
        action_line(action_of(request)) == request_line(request),
{
}

proof fn lemma_index(request: ipc::Action)
    ensures
        action_index(action_of(request)) == request_index(request),
{
}

proof fn lemma_session(request: ipc::Action)
    ensures
        action_session(action_of(request)) == request_session(request),
{
}

proof fn lemma_delay_ms(request: ipc::Action)
    ensures
        action_delay_ms(action_of(request)) == request_delay_ms(request),
{
}

proof fn lemma_skip_confirmation(request: ipc::Action)
    ensures
        action_skip_confirmation(action_of(request)) == request_skip_confirmation(request),
{
}

proof fn lemma_write_to_disk(request: ipc::Action)
    ensures
        action_write_to_disk(action_of(request)) == request_write_to_disk(request),
{
}

proof fn lemma_show_pointer(request: ipc::Action)
    ensures
        action_show_pointer(action_of(request)) == request_show_pointer(request),
{
}

proof fn lemma_focus(request: ipc::Action)
    ensures
        action_focus(action_of(request)) == request_focus(request),
{
}

proof fn lemma_display(request: ipc::Action)
    ensures
        action_display(action_of(request)) == request_display(request),
{
}

proof fn lemma_change(request: ipc::Action)
    ensures
        action_change(action_of(request)) == request_change(request),
{
}

proof fn lemma_layout(request: ipc::Action)
    ensures
        action_layout(action_of(request)) == request_layout(request),
{
}

proof fn lemma_x(request: ipc::Action)
    ensures
        action_x(action_of(request)) == request_x(request),
{
}

proof fn lemma_y(request: ipc::Action)
    ensures
        action_y(action_of(request)) == request_y(request),
{
}

/// An action is about the window, the workspace and all else that the request was
/// about.
pub proof fn requests_keep_their_arguments(request: ipc::Action)
    ensures
        action_arguments(action_of(request)) == request_arguments(request),
{
    lemma_window(request);
    lemma_workspace(request);
    lemma_output(request);
    lemma_new_name(request);
    lemma_path(request);
    lemma_command(request);
    lemma_line(request);
    lemma_index(request);
    lemma_session(request);
    lemma_delay_ms(request);
    lemma_skip_confirmation(request);
    lemma_write_to_disk(request);
    lemma_show_pointer(request);
    lemma_focus(request);
    lemma_display(request);
    lemma_change(request);
    lemma_layout(request);
    lemma_x(request);
    lemma_y(request);
}

/// Different requests become different actions.
pub proof fn requests_are_told_apart(a: ipc::Action, b: ipc::Action)
    requires
        action_of(a) == action_of(b),
    ensures
        a == b,
{
    lemma_asked_by(a);
    lemma_asked_by(b);
}

} // verus!
