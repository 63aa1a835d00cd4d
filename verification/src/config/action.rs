//! What a key bind or a client can ask the compositor to do.

use vstd::prelude::*;
use crate::config::node::{expect_no_type, untyped_errors, DecodeError};
use crate::config::recent_windows::{MruDirection, MruFilter, MruScope};
use crate::config::utils::Literal;
use crate::ipc;
use crate::ipc::{
    ColumnDisplay, LayoutSwitchTarget, PositionChange, SizeChange, WorkspaceReferenceArg,
};

verus! {

/// A workspace that an action is about.
#[derive(Debug)]
pub enum WorkspaceReference {
    Id(u64),
    Index(u8),
    Name(String),
}

/// The workspace that a client refers to.
pub open spec fn workspace_reference_of(reference: WorkspaceReferenceArg) -> WorkspaceReference {
    match reference {
        WorkspaceReferenceArg::Id(id) => WorkspaceReference::Id(id),
        WorkspaceReferenceArg::Index(i) => WorkspaceReference::Index(i),
        WorkspaceReferenceArg::Name(n) => WorkspaceReference::Name(n),
    }
}

impl From<WorkspaceReferenceArg> for WorkspaceReference {
    fn from(reference: WorkspaceReferenceArg) -> (r: WorkspaceReference) {
        match reference {
            WorkspaceReferenceArg::Id(id) => WorkspaceReference::Id(id),
            WorkspaceReferenceArg::Index(i) => WorkspaceReference::Index(i),
            WorkspaceReferenceArg::Name(n) => WorkspaceReference::Name(n),
        }
    }
}

impl vstd::std_specs::convert::FromSpecImpl<WorkspaceReferenceArg> for WorkspaceReference {
    open spec fn obeys_from_spec() -> bool {
        true
    }

    open spec fn from_spec(reference: WorkspaceReferenceArg) -> WorkspaceReference {
        workspace_reference_of(reference)
    }
}

/// The workspace that a value stands for, or what is wrong with the value.
pub open spec fn decoded_reference(val: Literal) -> Result<WorkspaceReference, DecodeError> {
    match val {
        Literal::String(name) => Ok(WorkspaceReference::Name(name)),
        Literal::Int(Some(v)) => if 0 <= v <= u8::MAX {
            Ok(WorkspaceReference::Index(v as u8))
        } else {
            Err(DecodeError::Conversion)
        },
        Literal::Int(None) => Err(DecodeError::Conversion),
        _ => Err(DecodeError::Unsupported),
    }
}

impl WorkspaceReference {
    /// Reports a type name, as there shouldn't be any.
    pub fn type_check(type_tag: &Option<String>, errors: &mut Vec<DecodeError>)
        ensures
            final(errors)@ == old(errors)@ + untyped_errors(*type_tag),
    {
        expect_no_type(type_tag, errors);
    }

    /// Reads a reference to a workspace: a text is its name, and a number its
    /// index. An unacceptable value is reported and read as the index zero.
    pub fn raw_decode(val: &Literal, errors: &mut Vec<DecodeError>) -> (r: WorkspaceReference)
        ensures
            match decoded_reference(*val) {
                Ok(reference) => r == reference && final(errors)@ == old(errors)@,
                Err(e) => r == WorkspaceReference::Index(0) && final(errors)@ == old(
                    errors,
                )@.push(e),
            },
    {
        match val {
            Literal::String(name) => WorkspaceReference::Name(name.clone()),
            Literal::Int(Some(v)) if 0 <= *v && *v <= u8::MAX as i128 => {
                WorkspaceReference::Index(*v as u8)
            },
            Literal::Int(_) => {
                errors.push(DecodeError::Conversion);
                WorkspaceReference::Index(0)
            },
            _ => {
                errors.push(DecodeError::Unsupported);
                WorkspaceReference::Index(0)
            },
        }
    }
}

/// What the compositor can be asked to do.
///
/// Where an action applies to a window, the variant whose name ends in `ById`
/// applies to that window and the other one to the active window.
#[allow(inconsistent_fields)]
#[derive(Debug)]
pub enum Action {
    Quit(bool),
    ChangeVt(i32),
    Suspend,
    PowerOffMonitors,
    PowerOnMonitors,
    ToggleDebugTint,
    DebugToggleOpaqueRegions,
    DebugToggleDamage,
    Spawn(Vec<String>),
    SpawnSh(String),
    DoScreenTransition(Option<u16>),
    ConfirmScreenshot {
        write_to_disk: bool,
    },
    CancelScreenshot,
    ScreenshotTogglePointer,
    Screenshot(
        bool,
        Option<String>,
    ),
    ScreenshotScreen(
        bool,
        bool,
        Option<String>,
    ),
    ScreenshotWindow(
        bool,
        bool,
        Option<String>,
    ),
    ScreenshotWindowById {
        id: u64,
        write_to_disk: bool,
        show_pointer: bool,
        path: Option<String>,
    },
    ToggleKeyboardShortcutsInhibit,
    CloseWindow,
    CloseWindowById(u64),
    FullscreenWindow,
    FullscreenWindowById(u64),
    ToggleWindowedFullscreen,
    ToggleWindowedFullscreenById(u64),
    FocusWindow(u64),
    FocusWindowInColumn(u8),
    FocusWindowPrevious,
    FocusColumnLeft,
    FocusColumnLeftUnderMouse,
    FocusColumnRight,
    FocusColumnRightUnderMouse,
    FocusColumnFirst,
    FocusColumnLast,
    FocusColumnRightOrFirst,
    FocusColumnLeftOrLast,
    FocusColumn(usize),
    FocusWindowOrMonitorUp,
    FocusWindowOrMonitorDown,
    FocusColumnOrMonitorLeft,
    FocusColumnOrMonitorRight,
    FocusWindowDown,
    FocusWindowUp,
    FocusWindowDownOrColumnLeft,
    FocusWindowDownOrColumnRight,
    FocusWindowUpOrColumnLeft,
    FocusWindowUpOrColumnRight,
    FocusWindowOrWorkspaceDown,
    FocusWindowOrWorkspaceUp,
    FocusWindowTop,
    FocusWindowBottom,
    FocusWindowDownOrTop,
    FocusWindowUpOrBottom,
    MoveColumnLeft,
    MoveColumnRight,
    MoveColumnToFirst,
    MoveColumnToLast,
    MoveColumnLeftOrToMonitorLeft,
    MoveColumnRightOrToMonitorRight,
    MoveColumnToIndex(usize),
    MoveWindowDown,
    MoveWindowUp,
    MoveWindowDownOrToWorkspaceDown,
    MoveWindowUpOrToWorkspaceUp,
    MoveWindowLeftStacked,
    MoveWindowRightStacked,
    MoveWindowUpStacked,
    MoveWindowDownStacked,
    FocusWindowInTileNext,
    FocusWindowInTilePrev,
    ConsumeOrExpelWindowLeft,
    ConsumeOrExpelWindowLeftById(u64),
    ConsumeOrExpelWindowRight,
    ConsumeOrExpelWindowRightById(u64),
    ConsumeWindowIntoColumn,
    ExpelWindowFromColumn,
    SwapWindowLeft,
    SwapWindowRight,
    ToggleColumnTabbedDisplay,
    SetColumnDisplay(ColumnDisplay),
    CenterColumn,
    CenterWindow,
    CenterWindowById(u64),
    CenterVisibleColumns,
    FocusWorkspaceDown,
    FocusWorkspaceDownUnderMouse,
    FocusWorkspaceUp,
    FocusWorkspaceUpUnderMouse,
    FocusWorkspace(WorkspaceReference),
    FocusWorkspacePrevious,
    MoveWindowToWorkspaceDown(bool),
    MoveWindowToWorkspaceUp(bool),
    MoveWindowToWorkspace(
        WorkspaceReference,
        bool,
    ),
    MoveWindowToWorkspaceById {
        window_id: u64,
        reference: WorkspaceReference,
        focus: bool,
    },
    MoveColumnToWorkspaceDown(bool),
    MoveColumnToWorkspaceUp(bool),
    MoveColumnToWorkspace(
        WorkspaceReference,
        bool,
    ),
    MoveWorkspaceDown,
    MoveWorkspaceUp,
    MoveWorkspaceToIndex(usize),
    MoveWorkspaceToIndexByRef {
        new_idx: usize,
        reference: WorkspaceReference,
    },
    MoveWorkspaceToMonitorByRef {
        output_name: String,
        reference: WorkspaceReference,
    },
    MoveWorkspaceToMonitor(String),
    SetWorkspaceName(String),
    SetWorkspaceNameByRef {
        name: String,
        reference: WorkspaceReference,
    },
    UnsetWorkspaceName,
    UnsetWorkSpaceNameByRef(WorkspaceReference),
    FocusMonitorLeft,
    FocusMonitorRight,
    FocusMonitorDown,
    FocusMonitorUp,
    FocusMonitorPrevious,
    FocusMonitorNext,
    FocusMonitor(String),
    MoveWindowToMonitorLeft,
    MoveWindowToMonitorRight,
    MoveWindowToMonitorDown,
    MoveWindowToMonitorUp,
    MoveWindowToMonitorPrevious,
    MoveWindowToMonitorNext,
    MoveWindowToMonitor(String),
    MoveWindowToMonitorById {
        id: u64,
        output: String,
    },
    MoveColumnToMonitorLeft,
    MoveColumnToMonitorRight,
    MoveColumnToMonitorDown,
    MoveColumnToMonitorUp,
    MoveColumnToMonitorPrevious,
    MoveColumnToMonitorNext,
    MoveColumnToMonitor(String),
    SetWindowWidth(SizeChange),
    SetWindowWidthById {
        id: u64,
        change: SizeChange,
    },
    SetWindowHeight(SizeChange),
    SetWindowHeightById {
        id: u64,
        change: SizeChange,
    },
    ResetWindowHeight,
    ResetWindowHeightById(u64),
    SwitchPresetColumnWidth,
    SwitchPresetColumnWidthBack,
    SwitchPresetWindowWidth,
    SwitchPresetWindowWidthBack,
    SwitchPresetWindowWidthById(u64),
    SwitchPresetWindowWidthBackById(u64),
    SwitchPresetWindowHeight,
    SwitchPresetWindowHeightBack,
    SwitchPresetWindowHeightById(u64),
    SwitchPresetWindowHeightBackById(u64),
    MaximizeColumn,
    MaximizeWindowToEdges,
    MaximizeWindowToEdgesById(u64),
    SetColumnWidth(SizeChange),
    ExpandColumnToAvailableWidth,
    SwitchLayout(LayoutSwitchTarget),
    ShowHotkeyOverlay,
    MoveWorkspaceToMonitorLeft,
    MoveWorkspaceToMonitorRight,
    MoveWorkspaceToMonitorDown,
    MoveWorkspaceToMonitorUp,
    MoveWorkspaceToMonitorPrevious,
    MoveWorkspaceToMonitorNext,
    ToggleWindowFloating,
    ToggleWindowFloatingById(u64),
    MoveWindowToFloating,
    MoveWindowToFloatingById(u64),
    MoveWindowToTiling,
    MoveWindowToTilingById(u64),
    FocusFloating,
    FocusTiling,
    SwitchFocusBetweenFloatingAndTiling,
    MoveFloatingWindowById {
        id: Option<u64>,
        x: PositionChange,
        y: PositionChange,
    },
    ToggleWindowRuleOpacity,
    ToggleWindowRuleOpacityById(u64),
    SetDynamicCastWindow,
    SetDynamicCastWindowById(u64),
    SetDynamicCastMonitor(Option<String>),
    ClearDynamicCastTarget,
    StopCast(u64),
    ToggleOverview,
    OpenOverview,
    CloseOverview,
    ToggleWindowUrgent(u64),
    SetWindowUrgent(u64),
    UnsetWindowUrgent(u64),
    LoadConfigFile(Option<String>),
    MruAdvance {
        direction: MruDirection,
        scope: Option<MruScope>,
        filter: Option<MruFilter>,
    },
    MruConfirm,
    MruCancel,
    MruCloseCurrentWindow,
    MruFirst,
    MruLast,
    MruSetScope(MruScope),
    MruCycleScope,
}

/// The action that a client asks for.
pub open spec fn action_of(value: ipc::Action) -> Action {
    match value {
        ipc::Action::Quit { skip_confirmation } => Action::Quit(skip_confirmation),
        ipc::Action::PowerOffMonitors => Action::PowerOffMonitors,
        ipc::Action::PowerOnMonitors => Action::PowerOnMonitors,
        ipc::Action::Spawn { command } => Action::Spawn(command),
        ipc::Action::SpawnSh { command } => Action::SpawnSh(command),
        ipc::Action::DoScreenTransition { delay_ms } => Action::DoScreenTransition(delay_ms),
        ipc::Action::Screenshot { show_pointer, path } => Action::Screenshot(show_pointer, path),
        ipc::Action::ScreenshotScreen { write_to_disk, show_pointer, path } => {
            Action::ScreenshotScreen(write_to_disk, show_pointer, path)
        },
        ipc::Action::ScreenshotWindow { id: None, write_to_disk, show_pointer, path } => {
            Action::ScreenshotWindow(write_to_disk, show_pointer, path)
        },
        ipc::Action::ScreenshotWindow { id: Some(id), write_to_disk, show_pointer, path } => {
            Action::ScreenshotWindowById { id, write_to_disk, show_pointer, path, }
        },
        ipc::Action::ToggleKeyboardShortcutsInhibit => Action::ToggleKeyboardShortcutsInhibit,
        ipc::Action::CloseWindow { id: None } => Action::CloseWindow,
        ipc::Action::CloseWindow { id: Some(id) } => Action::CloseWindowById(id),
        ipc::Action::FullscreenWindow { id: None } => Action::FullscreenWindow,
        ipc::Action::FullscreenWindow { id: Some(id) } => Action::FullscreenWindowById(id),
        ipc::Action::ToggleWindowedFullscreen { id: None } => Action::ToggleWindowedFullscreen,
        ipc::Action::ToggleWindowedFullscreen { id: Some(id) } => {
            Action::ToggleWindowedFullscreenById(id)
        },
        ipc::Action::FocusWindow { id } => Action::FocusWindow(id),
        ipc::Action::FocusWindowInColumn { index } => Action::FocusWindowInColumn(index),
        ipc::Action::FocusWindowPrevious => Action::FocusWindowPrevious,
        ipc::Action::FocusColumnLeft => Action::FocusColumnLeft,
        ipc::Action::FocusColumnRight => Action::FocusColumnRight,
        ipc::Action::FocusColumnFirst => Action::FocusColumnFirst,
        ipc::Action::FocusColumnLast => Action::FocusColumnLast,
        ipc::Action::FocusColumnRightOrFirst => Action::FocusColumnRightOrFirst,
        ipc::Action::FocusColumnLeftOrLast => Action::FocusColumnLeftOrLast,
        ipc::Action::FocusColumn { index } => Action::FocusColumn(index),
        ipc::Action::FocusWindowOrMonitorUp => Action::FocusWindowOrMonitorUp,
        ipc::Action::FocusWindowOrMonitorDown => Action::FocusWindowOrMonitorDown,
        ipc::Action::FocusColumnOrMonitorLeft => Action::FocusColumnOrMonitorLeft,
        ipc::Action::FocusColumnOrMonitorRight => Action::FocusColumnOrMonitorRight,
        ipc::Action::FocusWindowDown => Action::FocusWindowDown,
        ipc::Action::FocusWindowUp => Action::FocusWindowUp,
        ipc::Action::FocusWindowDownOrColumnLeft => Action::FocusWindowDownOrColumnLeft,
        ipc::Action::FocusWindowDownOrColumnRight => Action::FocusWindowDownOrColumnRight,
        ipc::Action::FocusWindowUpOrColumnLeft => Action::FocusWindowUpOrColumnLeft,
        ipc::Action::FocusWindowUpOrColumnRight => Action::FocusWindowUpOrColumnRight,
        ipc::Action::FocusWindowOrWorkspaceDown => Action::FocusWindowOrWorkspaceDown,
        ipc::Action::FocusWindowOrWorkspaceUp => Action::FocusWindowOrWorkspaceUp,
        ipc::Action::FocusWindowTop => Action::FocusWindowTop,
        ipc::Action::FocusWindowBottom => Action::FocusWindowBottom,
        ipc::Action::FocusWindowDownOrTop => Action::FocusWindowDownOrTop,
        ipc::Action::FocusWindowUpOrBottom => Action::FocusWindowUpOrBottom,
        ipc::Action::MoveColumnLeft => Action::MoveColumnLeft,
        ipc::Action::MoveColumnRight => Action::MoveColumnRight,
        ipc::Action::MoveWindowLeftStacked => Action::MoveWindowLeftStacked,
        ipc::Action::MoveWindowRightStacked => Action::MoveWindowRightStacked,
        ipc::Action::MoveWindowUpStacked => Action::MoveWindowUpStacked,
        ipc::Action::MoveWindowDownStacked => Action::MoveWindowDownStacked,
        ipc::Action::FocusWindowInTileNext => Action::FocusWindowInTileNext,
        ipc::Action::FocusWindowInTilePrev => Action::FocusWindowInTilePrev,
        ipc::Action::MoveColumnToFirst => Action::MoveColumnToFirst,
        ipc::Action::MoveColumnToLast => Action::MoveColumnToLast,
        ipc::Action::MoveColumnToIndex { index } => Action::MoveColumnToIndex(index),
        ipc::Action::MoveColumnLeftOrToMonitorLeft => Action::MoveColumnLeftOrToMonitorLeft,
        ipc::Action::MoveColumnRightOrToMonitorRight => Action::MoveColumnRightOrToMonitorRight,
        ipc::Action::MoveWindowDown => Action::MoveWindowDown,
        ipc::Action::MoveWindowUp => Action::MoveWindowUp,
        ipc::Action::MoveWindowDownOrToWorkspaceDown => Action::MoveWindowDownOrToWorkspaceDown,
        ipc::Action::MoveWindowUpOrToWorkspaceUp => Action::MoveWindowUpOrToWorkspaceUp,
        ipc::Action::ConsumeOrExpelWindowLeft { id: None } => Action::ConsumeOrExpelWindowLeft,
        ipc::Action::ConsumeOrExpelWindowLeft { id: Some(id) } => {
            Action::ConsumeOrExpelWindowLeftById(id)
        },
        ipc::Action::ConsumeOrExpelWindowRight { id: None } => Action::ConsumeOrExpelWindowRight,
        ipc::Action::ConsumeOrExpelWindowRight { id: Some(id) } => {
            Action::ConsumeOrExpelWindowRightById(id)
        },
        ipc::Action::ConsumeWindowIntoColumn => Action::ConsumeWindowIntoColumn,
        ipc::Action::ExpelWindowFromColumn => Action::ExpelWindowFromColumn,
        ipc::Action::SwapWindowRight => Action::SwapWindowRight,
        ipc::Action::SwapWindowLeft => Action::SwapWindowLeft,
        ipc::Action::ToggleColumnTabbedDisplay => Action::ToggleColumnTabbedDisplay,
        ipc::Action::SetColumnDisplay { display } => Action::SetColumnDisplay(display),
        ipc::Action::CenterColumn => Action::CenterColumn,
        ipc::Action::CenterWindow { id: None } => Action::CenterWindow,
        ipc::Action::CenterWindow { id: Some(id) } => Action::CenterWindowById(id),
        ipc::Action::CenterVisibleColumns => Action::CenterVisibleColumns,
        ipc::Action::FocusWorkspaceDown => Action::FocusWorkspaceDown,
        ipc::Action::FocusWorkspaceUp => Action::FocusWorkspaceUp,
        ipc::Action::FocusWorkspace { reference } => {
            Action::FocusWorkspace(workspace_reference_of(reference))
        },
        ipc::Action::FocusWorkspacePrevious => Action::FocusWorkspacePrevious,
        ipc::Action::MoveWindowToWorkspaceDown { focus } => {
            Action::MoveWindowToWorkspaceDown(focus)
        },
        ipc::Action::MoveWindowToWorkspaceUp { focus } => Action::MoveWindowToWorkspaceUp(focus),
        ipc::Action::MoveWindowToWorkspace { window_id: None, reference, focus } => {
            Action::MoveWindowToWorkspace(workspace_reference_of(reference), focus)
        },
        ipc::Action::MoveWindowToWorkspace { window_id: Some(window_id), reference, focus } => {
            Action::MoveWindowToWorkspaceById {
                window_id,
                reference: workspace_reference_of(reference),
                focus,
            }
        },
        ipc::Action::MoveColumnToWorkspaceDown { focus } => {
            Action::MoveColumnToWorkspaceDown(focus)
        },
        ipc::Action::MoveColumnToWorkspaceUp { focus } => Action::MoveColumnToWorkspaceUp(focus),
        ipc::Action::MoveColumnToWorkspace { reference, focus } => {
            Action::MoveColumnToWorkspace(workspace_reference_of(reference), focus)
        },
        ipc::Action::MoveWorkspaceDown => Action::MoveWorkspaceDown,
        ipc::Action::MoveWorkspaceUp => Action::MoveWorkspaceUp,
        ipc::Action::SetWorkspaceName { name, workspace: None } => Action::SetWorkspaceName(name),
        ipc::Action::SetWorkspaceName { name, workspace: Some(reference) } => {
            Action::SetWorkspaceNameByRef { name, reference: workspace_reference_of(reference), }
        },
        ipc::Action::UnsetWorkspaceName { reference: None } => Action::UnsetWorkspaceName,
        ipc::Action::UnsetWorkspaceName { reference: Some(reference) } => {
            Action::UnsetWorkSpaceNameByRef(workspace_reference_of(reference))
        },
        ipc::Action::FocusMonitorLeft => Action::FocusMonitorLeft,
        ipc::Action::FocusMonitorRight => Action::FocusMonitorRight,
        ipc::Action::FocusMonitorDown => Action::FocusMonitorDown,
        ipc::Action::FocusMonitorUp => Action::FocusMonitorUp,
        ipc::Action::FocusMonitorPrevious => Action::FocusMonitorPrevious,
        ipc::Action::FocusMonitorNext => Action::FocusMonitorNext,
        ipc::Action::FocusMonitor { output } => Action::FocusMonitor(output),
        ipc::Action::MoveWindowToMonitorLeft => Action::MoveWindowToMonitorLeft,
        ipc::Action::MoveWindowToMonitorRight => Action::MoveWindowToMonitorRight,
        ipc::Action::MoveWindowToMonitorDown => Action::MoveWindowToMonitorDown,
        ipc::Action::MoveWindowToMonitorUp => Action::MoveWindowToMonitorUp,
        ipc::Action::MoveWindowToMonitorPrevious => Action::MoveWindowToMonitorPrevious,
        ipc::Action::MoveWindowToMonitorNext => Action::MoveWindowToMonitorNext,
        ipc::Action::MoveWindowToMonitor { id: None, output } => {
            Action::MoveWindowToMonitor(output)
        },
        ipc::Action::MoveWindowToMonitor { id: Some(id), output } => {
            Action::MoveWindowToMonitorById { id, output }
        },
        ipc::Action::MoveColumnToMonitorLeft => Action::MoveColumnToMonitorLeft,
        ipc::Action::MoveColumnToMonitorRight => Action::MoveColumnToMonitorRight,
        ipc::Action::MoveColumnToMonitorDown => Action::MoveColumnToMonitorDown,
        ipc::Action::MoveColumnToMonitorUp => Action::MoveColumnToMonitorUp,
        ipc::Action::MoveColumnToMonitorPrevious => Action::MoveColumnToMonitorPrevious,
        ipc::Action::MoveColumnToMonitorNext => Action::MoveColumnToMonitorNext,
        ipc::Action::MoveColumnToMonitor { output } => Action::MoveColumnToMonitor(output),
        ipc::Action::SetWindowWidth { id: None, change } => Action::SetWindowWidth(change),
        ipc::Action::SetWindowWidth { id: Some(id), change } => {
            Action::SetWindowWidthById { id, change }
        },
        ipc::Action::SetWindowHeight { id: None, change } => Action::SetWindowHeight(change),
        ipc::Action::SetWindowHeight { id: Some(id), change } => {
            Action::SetWindowHeightById { id, change }
        },
        ipc::Action::ResetWindowHeight { id: None } => Action::ResetWindowHeight,
        ipc::Action::ResetWindowHeight { id: Some(id) } => Action::ResetWindowHeightById(id),
        ipc::Action::SwitchPresetColumnWidth => Action::SwitchPresetColumnWidth,
        ipc::Action::SwitchPresetColumnWidthBack => Action::SwitchPresetColumnWidthBack,
        ipc::Action::SwitchPresetWindowWidth { id: None } => Action::SwitchPresetWindowWidth,
        ipc::Action::SwitchPresetWindowWidthBack { id: None } => {
            Action::SwitchPresetWindowWidthBack
        },
        ipc::Action::SwitchPresetWindowWidth { id: Some(id) } => {
            Action::SwitchPresetWindowWidthById(id)
        },
        ipc::Action::SwitchPresetWindowWidthBack { id: Some(id) } => {
            Action::SwitchPresetWindowWidthBackById(id)
        },
        ipc::Action::SwitchPresetWindowHeight { id: None } => Action::SwitchPresetWindowHeight,
        ipc::Action::SwitchPresetWindowHeightBack { id: None } => {
            Action::SwitchPresetWindowHeightBack
        },
        ipc::Action::SwitchPresetWindowHeight { id: Some(id) } => {
            Action::SwitchPresetWindowHeightById(id)
        },
        ipc::Action::SwitchPresetWindowHeightBack { id: Some(id) } => {
            Action::SwitchPresetWindowHeightBackById(id)
        },
        ipc::Action::MaximizeColumn => Action::MaximizeColumn,
        ipc::Action::MaximizeWindowToEdges { id: None } => Action::MaximizeWindowToEdges,
        ipc::Action::MaximizeWindowToEdges { id: Some(id) } => {
            Action::MaximizeWindowToEdgesById(id)
        },
        ipc::Action::SetColumnWidth { change } => Action::SetColumnWidth(change),
        ipc::Action::ExpandColumnToAvailableWidth => Action::ExpandColumnToAvailableWidth,
        ipc::Action::SwitchLayout { layout } => Action::SwitchLayout(layout),
        ipc::Action::ShowHotkeyOverlay => Action::ShowHotkeyOverlay,
        ipc::Action::MoveWorkspaceToMonitorLeft => Action::MoveWorkspaceToMonitorLeft,
        ipc::Action::MoveWorkspaceToMonitorRight => Action::MoveWorkspaceToMonitorRight,
        ipc::Action::MoveWorkspaceToMonitorDown => Action::MoveWorkspaceToMonitorDown,
        ipc::Action::MoveWorkspaceToMonitorUp => Action::MoveWorkspaceToMonitorUp,
        ipc::Action::MoveWorkspaceToMonitorPrevious => Action::MoveWorkspaceToMonitorPrevious,
        ipc::Action::MoveWorkspaceToIndex { index, reference: Some(reference) } => {
            Action::MoveWorkspaceToIndexByRef {
                new_idx: index,
                reference: workspace_reference_of(reference),
            }
        },
        ipc::Action::MoveWorkspaceToIndex { index, reference: None } => {
            Action::MoveWorkspaceToIndex(index)
        },
        ipc::Action::MoveWorkspaceToMonitor { output, reference: Some(reference) } => {
            Action::MoveWorkspaceToMonitorByRef {
                output_name: output,
                reference: workspace_reference_of(reference),
            }
        },
        ipc::Action::MoveWorkspaceToMonitor { output, reference: None } => {
            Action::MoveWorkspaceToMonitor(output)
        },
        ipc::Action::MoveWorkspaceToMonitorNext => Action::MoveWorkspaceToMonitorNext,
        ipc::Action::ToggleDebugTint => Action::ToggleDebugTint,
        ipc::Action::DebugToggleOpaqueRegions => Action::DebugToggleOpaqueRegions,
        ipc::Action::DebugToggleDamage => Action::DebugToggleDamage,
        ipc::Action::ToggleWindowFloating { id: None } => Action::ToggleWindowFloating,
        ipc::Action::ToggleWindowFloating { id: Some(id) } => Action::ToggleWindowFloatingById(id),
        ipc::Action::MoveWindowToFloating { id: None } => Action::MoveWindowToFloating,
        ipc::Action::MoveWindowToFloating { id: Some(id) } => Action::MoveWindowToFloatingById(id),
        ipc::Action::MoveWindowToTiling { id: None } => Action::MoveWindowToTiling,
        ipc::Action::MoveWindowToTiling { id: Some(id) } => Action::MoveWindowToTilingById(id),
        ipc::Action::FocusFloating => Action::FocusFloating,
        ipc::Action::FocusTiling => Action::FocusTiling,
        ipc::Action::SwitchFocusBetweenFloatingAndTiling => {
            Action::SwitchFocusBetweenFloatingAndTiling
        },
        ipc::Action::MoveFloatingWindow { id, x, y } => Action::MoveFloatingWindowById { id, x, y },
        ipc::Action::ToggleWindowRuleOpacity { id: None } => Action::ToggleWindowRuleOpacity,
        ipc::Action::ToggleWindowRuleOpacity { id: Some(id) } => {
            Action::ToggleWindowRuleOpacityById(id)
        },
        ipc::Action::SetDynamicCastWindow { id: None } => Action::SetDynamicCastWindow,
        ipc::Action::SetDynamicCastWindow { id: Some(id) } => Action::SetDynamicCastWindowById(id),
        ipc::Action::SetDynamicCastMonitor { output } => Action::SetDynamicCastMonitor(output),
        ipc::Action::ClearDynamicCastTarget => Action::ClearDynamicCastTarget,
        ipc::Action::StopCast { session_id } => Action::StopCast(session_id),
        ipc::Action::ToggleOverview => Action::ToggleOverview,
        ipc::Action::OpenOverview => Action::OpenOverview,
        ipc::Action::CloseOverview => Action::CloseOverview,
        ipc::Action::ToggleWindowUrgent { id } => Action::ToggleWindowUrgent(id),
        ipc::Action::SetWindowUrgent { id } => Action::SetWindowUrgent(id),
        ipc::Action::UnsetWindowUrgent { id } => Action::UnsetWindowUrgent(id),
        ipc::Action::LoadConfigFile { path } => Action::LoadConfigFile(path),
    }
}

impl From<ipc::Action> for Action {
    fn from(value: ipc::Action) -> (r: Action) {
        match value {
            ipc::Action::Quit { skip_confirmation } => Action::Quit(skip_confirmation),
            ipc::Action::PowerOffMonitors => Action::PowerOffMonitors,
            ipc::Action::PowerOnMonitors => Action::PowerOnMonitors,
            ipc::Action::Spawn { command } => Action::Spawn(command),
            ipc::Action::SpawnSh { command } => Action::SpawnSh(command),
            ipc::Action::DoScreenTransition { delay_ms } => Action::DoScreenTransition(delay_ms),
            ipc::Action::Screenshot { show_pointer, path } => {
                Action::Screenshot(show_pointer, path)
            },
            ipc::Action::ScreenshotScreen { write_to_disk, show_pointer, path } => {
                Action::ScreenshotScreen(write_to_disk, show_pointer, path)
            },
            ipc::Action::ScreenshotWindow { id: None, write_to_disk, show_pointer, path } => {
                Action::ScreenshotWindow(write_to_disk, show_pointer, path)
            },
            ipc::Action::ScreenshotWindow { id: Some(id), write_to_disk, show_pointer, path } => {
                Action::ScreenshotWindowById { id, write_to_disk, show_pointer, path, }
            },
            ipc::Action::ToggleKeyboardShortcutsInhibit => Action::ToggleKeyboardShortcutsInhibit,
            ipc::Action::CloseWindow { id: None } => Action::CloseWindow,
            ipc::Action::CloseWindow { id: Some(id) } => Action::CloseWindowById(id),
            ipc::Action::FullscreenWindow { id: None } => Action::FullscreenWindow,
            ipc::Action::FullscreenWindow { id: Some(id) } => Action::FullscreenWindowById(id),
            ipc::Action::ToggleWindowedFullscreen { id: None } => Action::ToggleWindowedFullscreen,
            ipc::Action::ToggleWindowedFullscreen { id: Some(id) } => {
                Action::ToggleWindowedFullscreenById(id)
            },
            ipc::Action::FocusWindow { id } => Action::FocusWindow(id),
            ipc::Action::FocusWindowInColumn { index } => Action::FocusWindowInColumn(index),
            ipc::Action::FocusWindowPrevious => Action::FocusWindowPrevious,
            ipc::Action::FocusColumnLeft => Action::FocusColumnLeft,
            ipc::Action::FocusColumnRight => Action::FocusColumnRight,
            ipc::Action::FocusColumnFirst => Action::FocusColumnFirst,
            ipc::Action::FocusColumnLast => Action::FocusColumnLast,
            ipc::Action::FocusColumnRightOrFirst => Action::FocusColumnRightOrFirst,
            ipc::Action::FocusColumnLeftOrLast => Action::FocusColumnLeftOrLast,
            ipc::Action::FocusColumn { index } => Action::FocusColumn(index),
            ipc::Action::FocusWindowOrMonitorUp => Action::FocusWindowOrMonitorUp,
            ipc::Action::FocusWindowOrMonitorDown => Action::FocusWindowOrMonitorDown,
            ipc::Action::FocusColumnOrMonitorLeft => Action::FocusColumnOrMonitorLeft,
            ipc::Action::FocusColumnOrMonitorRight => Action::FocusColumnOrMonitorRight,
            ipc::Action::FocusWindowDown => Action::FocusWindowDown,
            ipc::Action::FocusWindowUp => Action::FocusWindowUp,
            ipc::Action::FocusWindowDownOrColumnLeft => Action::FocusWindowDownOrColumnLeft,
            ipc::Action::FocusWindowDownOrColumnRight => Action::FocusWindowDownOrColumnRight,
            ipc::Action::FocusWindowUpOrColumnLeft => Action::FocusWindowUpOrColumnLeft,
            ipc::Action::FocusWindowUpOrColumnRight => Action::FocusWindowUpOrColumnRight,
            ipc::Action::FocusWindowOrWorkspaceDown => Action::FocusWindowOrWorkspaceDown,
            ipc::Action::FocusWindowOrWorkspaceUp => Action::FocusWindowOrWorkspaceUp,
            ipc::Action::FocusWindowTop => Action::FocusWindowTop,
            ipc::Action::FocusWindowBottom => Action::FocusWindowBottom,
            ipc::Action::FocusWindowDownOrTop => Action::FocusWindowDownOrTop,
            ipc::Action::FocusWindowUpOrBottom => Action::FocusWindowUpOrBottom,
            ipc::Action::MoveColumnLeft => Action::MoveColumnLeft,
            ipc::Action::MoveColumnRight => Action::MoveColumnRight,
            ipc::Action::MoveWindowLeftStacked => Action::MoveWindowLeftStacked,
            ipc::Action::MoveWindowRightStacked => Action::MoveWindowRightStacked,
            ipc::Action::MoveWindowUpStacked => Action::MoveWindowUpStacked,
            ipc::Action::MoveWindowDownStacked => Action::MoveWindowDownStacked,
            ipc::Action::FocusWindowInTileNext => Action::FocusWindowInTileNext,
            ipc::Action::FocusWindowInTilePrev => Action::FocusWindowInTilePrev,
            ipc::Action::MoveColumnToFirst => Action::MoveColumnToFirst,
            ipc::Action::MoveColumnToLast => Action::MoveColumnToLast,
            ipc::Action::MoveColumnToIndex { index } => Action::MoveColumnToIndex(index),
            ipc::Action::MoveColumnLeftOrToMonitorLeft => Action::MoveColumnLeftOrToMonitorLeft,
            ipc::Action::MoveColumnRightOrToMonitorRight => Action::MoveColumnRightOrToMonitorRight,
            ipc::Action::MoveWindowDown => Action::MoveWindowDown,
            ipc::Action::MoveWindowUp => Action::MoveWindowUp,
            ipc::Action::MoveWindowDownOrToWorkspaceDown => Action::MoveWindowDownOrToWorkspaceDown,
            ipc::Action::MoveWindowUpOrToWorkspaceUp => Action::MoveWindowUpOrToWorkspaceUp,
            ipc::Action::ConsumeOrExpelWindowLeft { id: None } => Action::ConsumeOrExpelWindowLeft,
            ipc::Action::ConsumeOrExpelWindowLeft { id: Some(id) } => {
                Action::ConsumeOrExpelWindowLeftById(id)
            },
            ipc::Action::ConsumeOrExpelWindowRight { id: None } => {
                Action::ConsumeOrExpelWindowRight
            },
            ipc::Action::ConsumeOrExpelWindowRight { id: Some(id) } => {
                Action::ConsumeOrExpelWindowRightById(id)
            },
            ipc::Action::ConsumeWindowIntoColumn => Action::ConsumeWindowIntoColumn,
            ipc::Action::ExpelWindowFromColumn => Action::ExpelWindowFromColumn,
            ipc::Action::SwapWindowRight => Action::SwapWindowRight,
            ipc::Action::SwapWindowLeft => Action::SwapWindowLeft,
            ipc::Action::ToggleColumnTabbedDisplay => Action::ToggleColumnTabbedDisplay,
            ipc::Action::SetColumnDisplay { display } => Action::SetColumnDisplay(display),
            ipc::Action::CenterColumn => Action::CenterColumn,
            ipc::Action::CenterWindow { id: None } => Action::CenterWindow,
            ipc::Action::CenterWindow { id: Some(id) } => Action::CenterWindowById(id),
            ipc::Action::CenterVisibleColumns => Action::CenterVisibleColumns,
            ipc::Action::FocusWorkspaceDown => Action::FocusWorkspaceDown,
            ipc::Action::FocusWorkspaceUp => Action::FocusWorkspaceUp,
            ipc::Action::FocusWorkspace { reference } => {
                Action::FocusWorkspace(WorkspaceReference::from(reference))
            },
            ipc::Action::FocusWorkspacePrevious => Action::FocusWorkspacePrevious,
            ipc::Action::MoveWindowToWorkspaceDown { focus } => {
                Action::MoveWindowToWorkspaceDown(focus)
            },
            ipc::Action::MoveWindowToWorkspaceUp { focus } => {
                Action::MoveWindowToWorkspaceUp(focus)
            },
            ipc::Action::MoveWindowToWorkspace { window_id: None, reference, focus } => {
                Action::MoveWindowToWorkspace(WorkspaceReference::from(reference), focus)
            },
            ipc::Action::MoveWindowToWorkspace { window_id: Some(window_id), reference, focus } => {
                Action::MoveWindowToWorkspaceById {
                    window_id,
                    reference: WorkspaceReference::from(reference),
                    focus,
                }
            },
            ipc::Action::MoveColumnToWorkspaceDown { focus } => {
                Action::MoveColumnToWorkspaceDown(focus)
            },
            ipc::Action::MoveColumnToWorkspaceUp { focus } => {
                Action::MoveColumnToWorkspaceUp(focus)
            },
            ipc::Action::MoveColumnToWorkspace { reference, focus } => {
                Action::MoveColumnToWorkspace(WorkspaceReference::from(reference), focus)
            },
            ipc::Action::MoveWorkspaceDown => Action::MoveWorkspaceDown,
            ipc::Action::MoveWorkspaceUp => Action::MoveWorkspaceUp,
            ipc::Action::SetWorkspaceName { name, workspace: None } => {
                Action::SetWorkspaceName(name)
            },
            ipc::Action::SetWorkspaceName { name, workspace: Some(reference) } => {
                Action::SetWorkspaceNameByRef {
                    name,
                    reference: WorkspaceReference::from(reference),
                }
            },
            ipc::Action::UnsetWorkspaceName { reference: None } => Action::UnsetWorkspaceName,
            ipc::Action::UnsetWorkspaceName { reference: Some(reference) } => {
                Action::UnsetWorkSpaceNameByRef(WorkspaceReference::from(reference))
            },
            ipc::Action::FocusMonitorLeft => Action::FocusMonitorLeft,
            ipc::Action::FocusMonitorRight => Action::FocusMonitorRight,
            ipc::Action::FocusMonitorDown => Action::FocusMonitorDown,
            ipc::Action::FocusMonitorUp => Action::FocusMonitorUp,
            ipc::Action::FocusMonitorPrevious => Action::FocusMonitorPrevious,
            ipc::Action::FocusMonitorNext => Action::FocusMonitorNext,
            ipc::Action::FocusMonitor { output } => Action::FocusMonitor(output),
            ipc::Action::MoveWindowToMonitorLeft => Action::MoveWindowToMonitorLeft,
            ipc::Action::MoveWindowToMonitorRight => Action::MoveWindowToMonitorRight,
            ipc::Action::MoveWindowToMonitorDown => Action::MoveWindowToMonitorDown,
            ipc::Action::MoveWindowToMonitorUp => Action::MoveWindowToMonitorUp,
            ipc::Action::MoveWindowToMonitorPrevious => Action::MoveWindowToMonitorPrevious,
            ipc::Action::MoveWindowToMonitorNext => Action::MoveWindowToMonitorNext,
            ipc::Action::MoveWindowToMonitor { id: None, output } => {
                Action::MoveWindowToMonitor(output)
            },
            ipc::Action::MoveWindowToMonitor { id: Some(id), output } => {
                Action::MoveWindowToMonitorById { id, output }
            },
            ipc::Action::MoveColumnToMonitorLeft => Action::MoveColumnToMonitorLeft,
            ipc::Action::MoveColumnToMonitorRight => Action::MoveColumnToMonitorRight,
            ipc::Action::MoveColumnToMonitorDown => Action::MoveColumnToMonitorDown,
            ipc::Action::MoveColumnToMonitorUp => Action::MoveColumnToMonitorUp,
            ipc::Action::MoveColumnToMonitorPrevious => Action::MoveColumnToMonitorPrevious,
            ipc::Action::MoveColumnToMonitorNext => Action::MoveColumnToMonitorNext,
            ipc::Action::MoveColumnToMonitor { output } => Action::MoveColumnToMonitor(output),
            ipc::Action::SetWindowWidth { id: None, change } => Action::SetWindowWidth(change),
            ipc::Action::SetWindowWidth { id: Some(id), change } => {
                Action::SetWindowWidthById { id, change }
            },
            ipc::Action::SetWindowHeight { id: None, change } => Action::SetWindowHeight(change),
            ipc::Action::SetWindowHeight { id: Some(id), change } => {
                Action::SetWindowHeightById { id, change }
            },
            ipc::Action::ResetWindowHeight { id: None } => Action::ResetWindowHeight,
            ipc::Action::ResetWindowHeight { id: Some(id) } => Action::ResetWindowHeightById(id),
            ipc::Action::SwitchPresetColumnWidth => Action::SwitchPresetColumnWidth,
            ipc::Action::SwitchPresetColumnWidthBack => Action::SwitchPresetColumnWidthBack,
            ipc::Action::SwitchPresetWindowWidth { id: None } => Action::SwitchPresetWindowWidth,
            ipc::Action::SwitchPresetWindowWidthBack { id: None } => {
                Action::SwitchPresetWindowWidthBack
            },
            ipc::Action::SwitchPresetWindowWidth { id: Some(id) } => {
                Action::SwitchPresetWindowWidthById(id)
            },
            ipc::Action::SwitchPresetWindowWidthBack { id: Some(id) } => {
                Action::SwitchPresetWindowWidthBackById(id)
            },
            ipc::Action::SwitchPresetWindowHeight { id: None } => Action::SwitchPresetWindowHeight,
            ipc::Action::SwitchPresetWindowHeightBack { id: None } => {
                Action::SwitchPresetWindowHeightBack
            },
            ipc::Action::SwitchPresetWindowHeight { id: Some(id) } => {
                Action::SwitchPresetWindowHeightById(id)
            },
            ipc::Action::SwitchPresetWindowHeightBack { id: Some(id) } => {
                Action::SwitchPresetWindowHeightBackById(id)
            },
            ipc::Action::MaximizeColumn => Action::MaximizeColumn,
            ipc::Action::MaximizeWindowToEdges { id: None } => Action::MaximizeWindowToEdges,
            ipc::Action::MaximizeWindowToEdges { id: Some(id) } => {
                Action::MaximizeWindowToEdgesById(id)
            },
            ipc::Action::SetColumnWidth { change } => Action::SetColumnWidth(change),
            ipc::Action::ExpandColumnToAvailableWidth => Action::ExpandColumnToAvailableWidth,
            ipc::Action::SwitchLayout { layout } => Action::SwitchLayout(layout),
            ipc::Action::ShowHotkeyOverlay => Action::ShowHotkeyOverlay,
            ipc::Action::MoveWorkspaceToMonitorLeft => Action::MoveWorkspaceToMonitorLeft,
            ipc::Action::MoveWorkspaceToMonitorRight => Action::MoveWorkspaceToMonitorRight,
            ipc::Action::MoveWorkspaceToMonitorDown => Action::MoveWorkspaceToMonitorDown,
            ipc::Action::MoveWorkspaceToMonitorUp => Action::MoveWorkspaceToMonitorUp,
            ipc::Action::MoveWorkspaceToMonitorPrevious => Action::MoveWorkspaceToMonitorPrevious,
            ipc::Action::MoveWorkspaceToIndex { index, reference: Some(reference) } => {
                Action::MoveWorkspaceToIndexByRef {
                    new_idx: index,
                    reference: WorkspaceReference::from(reference),
                }
            },
            ipc::Action::MoveWorkspaceToIndex { index, reference: None } => {
                Action::MoveWorkspaceToIndex(index)
            },
            ipc::Action::MoveWorkspaceToMonitor { output, reference: Some(reference) } => {
                Action::MoveWorkspaceToMonitorByRef {
                    output_name: output,
                    reference: WorkspaceReference::from(reference),
                }
            },
            ipc::Action::MoveWorkspaceToMonitor { output, reference: None } => {
                Action::MoveWorkspaceToMonitor(output)
            },
            ipc::Action::MoveWorkspaceToMonitorNext => Action::MoveWorkspaceToMonitorNext,
            ipc::Action::ToggleDebugTint => Action::ToggleDebugTint,
            ipc::Action::DebugToggleOpaqueRegions => Action::DebugToggleOpaqueRegions,
            ipc::Action::DebugToggleDamage => Action::DebugToggleDamage,
            ipc::Action::ToggleWindowFloating { id: None } => Action::ToggleWindowFloating,
            ipc::Action::ToggleWindowFloating { id: Some(id) } => {
                Action::ToggleWindowFloatingById(id)
            },
            ipc::Action::MoveWindowToFloating { id: None } => Action::MoveWindowToFloating,
            ipc::Action::MoveWindowToFloating { id: Some(id) } => {
                Action::MoveWindowToFloatingById(id)
            },
            ipc::Action::MoveWindowToTiling { id: None } => Action::MoveWindowToTiling,
            ipc::Action::MoveWindowToTiling { id: Some(id) } => Action::MoveWindowToTilingById(id),
            ipc::Action::FocusFloating => Action::FocusFloating,
            ipc::Action::FocusTiling => Action::FocusTiling,
            ipc::Action::SwitchFocusBetweenFloatingAndTiling => {
                Action::SwitchFocusBetweenFloatingAndTiling
            },
            ipc::Action::MoveFloatingWindow { id, x, y } => {
                Action::MoveFloatingWindowById { id, x, y }
            },
            ipc::Action::ToggleWindowRuleOpacity { id: None } => Action::ToggleWindowRuleOpacity,
            ipc::Action::ToggleWindowRuleOpacity { id: Some(id) } => {
                Action::ToggleWindowRuleOpacityById(id)
            },
            ipc::Action::SetDynamicCastWindow { id: None } => Action::SetDynamicCastWindow,
            ipc::Action::SetDynamicCastWindow { id: Some(id) } => {
                Action::SetDynamicCastWindowById(id)
            },
            ipc::Action::SetDynamicCastMonitor { output } => Action::SetDynamicCastMonitor(output),
            ipc::Action::ClearDynamicCastTarget => Action::ClearDynamicCastTarget,
            ipc::Action::StopCast { session_id } => Action::StopCast(session_id),
            ipc::Action::ToggleOverview => Action::ToggleOverview,
            ipc::Action::OpenOverview => Action::OpenOverview,
            ipc::Action::CloseOverview => Action::CloseOverview,
            ipc::Action::ToggleWindowUrgent { id } => Action::ToggleWindowUrgent(id),
            ipc::Action::SetWindowUrgent { id } => Action::SetWindowUrgent(id),
            ipc::Action::UnsetWindowUrgent { id } => Action::UnsetWindowUrgent(id),
            ipc::Action::LoadConfigFile { path } => Action::LoadConfigFile(path),
        }
    }
}

impl vstd::std_specs::convert::FromSpecImpl<ipc::Action> for Action {
    open spec fn obeys_from_spec() -> bool {
        true
    }

    open spec fn from_spec(value: ipc::Action) -> Action {
        action_of(value)
    }
}

/// A text is the name of a workspace, and a number that fits its place. Nothing else is
/// accepted.
pub proof fn references_are_names_and_places(val: Literal)
    ensures
        decoded_reference(val) is Ok <==> val is String || val is Int && val->Int_0 is Some && 0
            <= val->Int_0->0 <= 255,
        decoded_reference(val) matches Ok(WorkspaceReference::Name(name)) ==> val
            == Literal::String(name),
        decoded_reference(val) matches Ok(WorkspaceReference::Index(index)) ==> val
            == Literal::Int(Some(index as i128)),
        !(decoded_reference(val) matches Ok(WorkspaceReference::Id(_))),
        val is Int && decoded_reference(val) is Err ==> decoded_reference(val)->Err_0
            == DecodeError::Conversion,
        !(val is Int) && decoded_reference(val) is Err ==> decoded_reference(val)->Err_0
            == DecodeError::Unsupported,
{
}

} // verus!
