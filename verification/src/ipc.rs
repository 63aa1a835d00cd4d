//! Values that clients and the configuration use to ask for changes.

use vstd::prelude::*;

verus! {

/// How the tiles of a column are shown.
#[derive(Debug, Clone, Copy, PartialEq, Eq, Structural)]
pub enum ColumnDisplay {
    /// All tiles are visible, stacked vertically.
    Normal,
    /// One tile is visible at a time, behind a row of tabs.
    Tabbed,
}

/// The panel that a window opens in.
#[derive(Debug, Clone, Copy, PartialEq, Eq, Structural)]
pub enum OpenInFixedSide {
    Left,
    Right,
}

/// A requested change to a width or a height.
///
/// A proportion is a percentage carried as the bit pattern of an IEEE 754
/// double.
#[derive(Debug, Clone, Copy, PartialEq, Eq, Structural)]
pub enum SizeChange {
    /// Set the size in logical pixels.
    SetFixed(i32),
    /// Set the size as a proportion of the working area.
    SetProportion(u64),
    /// Add to the size in logical pixels.
    AdjustFixed(i32),
    /// Add to the size as a proportion of the working area.
    AdjustProportion(u64),
}

/// A requested change to a position, as the bit pattern of a double. A
/// proportion is a percentage of the working area.
#[derive(Debug, Clone, Copy, PartialEq, Eq, Structural)]
pub enum PositionChange {
    SetFixed(u64),
    SetProportion(u64),
    AdjustFixed(u64),
    AdjustProportion(u64),
}

/// The keyboard layout to switch to.
#[derive(Debug, Clone, Copy, PartialEq, Eq, Structural)]
pub enum LayoutSwitchTarget {
    Next,
    Prev,
    Index(u8),
}

/// A workspace that a client refers to.
#[derive(Debug)]
pub enum WorkspaceReferenceArg {
    Id(u64),
    Index(u8),
    Name(String),
}

/// An action that a client asks for.
#[allow(inconsistent_fields)]
#[derive(Debug)]
pub enum Action {
    Quit { skip_confirmation: bool },
    PowerOffMonitors,
    PowerOnMonitors,
    Spawn { command: Vec<String> },
    SpawnSh { command: String },
    DoScreenTransition { delay_ms: Option<u16> },
    Screenshot { show_pointer: bool, path: Option<String> },
    ScreenshotScreen { write_to_disk: bool, show_pointer: bool, path: Option<String> },
    ScreenshotWindow {
        id: Option<u64>,
        write_to_disk: bool,
        show_pointer: bool,
        path: Option<String>,
    },
    ToggleKeyboardShortcutsInhibit,
    CloseWindow { id: Option<u64> },
    FullscreenWindow { id: Option<u64> },
    ToggleWindowedFullscreen { id: Option<u64> },
    FocusWindow { id: u64 },
    FocusWindowInColumn { index: u8 },
    FocusWindowPrevious,
    FocusColumnLeft,
    FocusColumnRight,
    FocusColumnFirst,
    FocusColumnLast,
    FocusColumnRightOrFirst,
    FocusColumnLeftOrLast,
    FocusColumn { index: usize },
    FocusWindowOrMonitorUp,
    FocusWindowOrMonitorDown,
    FocusColumnOrMonitorLeft,
    FocusColumnOrMonitorRight,
    FocusWindowDown,
    FocusWindowUp,
    FocusWindowDownOrColumnLeft,
    FocusWindowDownOrColumnRight,
    FocusWindowUpOrColumnLeft,
    FocusWindowUpOrColumnRight,
    FocusWindowOrWorkspaceDown,
    FocusWindowOrWorkspaceUp,
    FocusWindowTop,
    FocusWindowBottom,
    FocusWindowDownOrTop,
    FocusWindowUpOrBottom,
    MoveColumnLeft,
    MoveColumnRight,
    MoveWindowLeftStacked,
    MoveWindowRightStacked,
    MoveWindowUpStacked,
    MoveWindowDownStacked,
    FocusWindowInTileNext,
    FocusWindowInTilePrev,
    MoveColumnToFirst,
    MoveColumnToLast,
    MoveColumnToIndex { index: usize },
    MoveColumnLeftOrToMonitorLeft,
    MoveColumnRightOrToMonitorRight,
    MoveWindowDown,
    MoveWindowUp,
    MoveWindowDownOrToWorkspaceDown,
    MoveWindowUpOrToWorkspaceUp,
    ConsumeOrExpelWindowLeft { id: Option<u64> },
    ConsumeOrExpelWindowRight { id: Option<u64> },
    ConsumeWindowIntoColumn,
    ExpelWindowFromColumn,
    SwapWindowRight,
    SwapWindowLeft,
    ToggleColumnTabbedDisplay,
    SetColumnDisplay { display: ColumnDisplay },
    CenterColumn,
    CenterWindow { id: Option<u64> },
    CenterVisibleColumns,
    FocusWorkspaceDown,
    FocusWorkspaceUp,
    FocusWorkspace { reference: WorkspaceReferenceArg },
    FocusWorkspacePrevious,
    MoveWindowToWorkspaceDown { focus: bool },
    MoveWindowToWorkspaceUp { focus: bool },
    MoveWindowToWorkspace { window_id: Option<u64>, reference: WorkspaceReferenceArg, focus: bool },
    MoveColumnToWorkspaceDown { focus: bool },
    MoveColumnToWorkspaceUp { focus: bool },
    MoveColumnToWorkspace { reference: WorkspaceReferenceArg, focus: bool },
    MoveWorkspaceDown,
    MoveWorkspaceUp,
    SetWorkspaceName { name: String, workspace: Option<WorkspaceReferenceArg> },
    UnsetWorkspaceName { reference: Option<WorkspaceReferenceArg> },
    FocusMonitorLeft,
    FocusMonitorRight,
    FocusMonitorDown,
    FocusMonitorUp,
    FocusMonitorPrevious,
    FocusMonitorNext,
    FocusMonitor { output: String },
    MoveWindowToMonitorLeft,
    MoveWindowToMonitorRight,
    MoveWindowToMonitorDown,
    MoveWindowToMonitorUp,
    MoveWindowToMonitorPrevious,
    MoveWindowToMonitorNext,
    MoveWindowToMonitor { id: Option<u64>, output: String },
    MoveColumnToMonitorLeft,
    MoveColumnToMonitorRight,
    MoveColumnToMonitorDown,
    MoveColumnToMonitorUp,
    MoveColumnToMonitorPrevious,
    MoveColumnToMonitorNext,
    MoveColumnToMonitor { output: String },
    SetWindowWidth { id: Option<u64>, change: SizeChange },
    SetWindowHeight { id: Option<u64>, change: SizeChange },
    ResetWindowHeight { id: Option<u64> },
    SwitchPresetColumnWidth,
    SwitchPresetColumnWidthBack,
    SwitchPresetWindowWidth { id: Option<u64> },
    SwitchPresetWindowWidthBack { id: Option<u64> },
    SwitchPresetWindowHeight { id: Option<u64> },
    SwitchPresetWindowHeightBack { id: Option<u64> },
    MaximizeColumn,
    MaximizeWindowToEdges { id: Option<u64> },
    SetColumnWidth { change: SizeChange },
    ExpandColumnToAvailableWidth,
    SwitchLayout { layout: LayoutSwitchTarget },
    ShowHotkeyOverlay,
    MoveWorkspaceToMonitorLeft,
    MoveWorkspaceToMonitorRight,
    MoveWorkspaceToMonitorDown,
    MoveWorkspaceToMonitorUp,
    MoveWorkspaceToMonitorPrevious,
    MoveWorkspaceToIndex { index: usize, reference: Option<WorkspaceReferenceArg> },
    MoveWorkspaceToMonitor { output: String, reference: Option<WorkspaceReferenceArg> },
    MoveWorkspaceToMonitorNext,
    ToggleDebugTint,
    DebugToggleOpaqueRegions,
    DebugToggleDamage,
    ToggleWindowFloating { id: Option<u64> },
    MoveWindowToFloating { id: Option<u64> },
    MoveWindowToTiling { id: Option<u64> },
    FocusFloating,
    FocusTiling,
    SwitchFocusBetweenFloatingAndTiling,
    MoveFloatingWindow { id: Option<u64>, x: PositionChange, y: PositionChange },
    ToggleWindowRuleOpacity { id: Option<u64> },
    SetDynamicCastWindow { id: Option<u64> },
    SetDynamicCastMonitor { output: Option<String> },
    ClearDynamicCastTarget,
    StopCast { session_id: u64 },
    ToggleOverview,
    OpenOverview,
    CloseOverview,
    ToggleWindowUrgent { id: u64 },
    SetWindowUrgent { id: u64 },
    UnsetWindowUrgent { id: u64 },
    LoadConfigFile { path: Option<String> },
}

} // verus!
