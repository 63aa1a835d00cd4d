//! What happens when a client commits a surface.
//!
//! Surfaces, outputs and workspaces are known by numbers. The compositor finds
//! out what a commit is about and does what is decided here.

use vstd::prelude::*;
use crate::config::layout::PresetSize;
use crate::ipc::{OpenInFixedSide, SizeChange};
use crate::layout::sizing::str_view;
use crate::layout::workspace::{Output, Workspace};
use crate::layout::workspace_state::{ActivateWindow, WorkspaceState};
use crate::session::{count_before, restored_column_index, PanelSide, Placement};
use crate::text::option_view;

verus! {

/// What is found out about a committed surface.
#[derive(Debug, Clone, Copy, PartialEq, Eq)]
pub struct SurfaceFacts {
    /// The commit takes effect together with one of the parent.
    pub is_sync_subsurface: bool,
    /// The surface has no parent.
    pub is_root: bool,
    /// The surface belongs to a window that isn't mapped yet.
    pub unmapped: Option<UnmappedFacts>,
    /// The surface belongs to a window in the layout.
    pub toplevel: Option<ToplevelFacts>,
    /// The root of the surface belongs to a window in the layout, which is on an
    /// output or not.
    pub root_window: Option<bool>,
}

/// What is found out about a window that isn't mapped yet.
#[derive(Debug, Clone, Copy, PartialEq, Eq, Structural)]
pub struct UnmappedFacts {
    /// The surface has a buffer.
    pub has_buffer: bool,
    pub needs_initial_configure: bool,
}

/// What is found out about a window in the layout.
#[derive(Debug, Clone, Copy, PartialEq, Eq)]
pub struct ToplevelFacts {
    /// The surface has a buffer.
    pub has_buffer: bool,
    /// The configure that the client acknowledged last.
    pub serial: Option<u32>,
    /// How far the new buffer is moved.
    pub buffer_delta: Option<(i32, i32)>,
    pub is_focused: bool,
    pub on_output: bool,
}

/// What to do about a commit.
#[derive(Debug, Clone, Copy, PartialEq, Eq)]
pub enum CommitAction {
    /// Nothing.
    Ignore,
    /// Put the window into the layout.
    MapWindow,
    /// Send the window its first configure.
    InitialConfigure,
    /// Take the window out of the layout again.
    Unmap { warp_cursor: bool, redraw: bool },
    /// Take note of what the window committed, and move it where the buffer
    /// was moved.
    Update { serial: Option<u32>, move_by: Option<(i32, i32)>, redraw: bool },
    /// Take note of a change to a part of a window.
    UpdateDescendant { redraw: bool },
    /// See whether it is a popup.
    TryPopup,
}

/// What a commit is about.
pub open spec fn commit_action(f: SurfaceFacts) -> CommitAction {
    let descendant = match f.root_window {
        Some(on_output) => CommitAction::UpdateDescendant { redraw: on_output },
        None => CommitAction::TryPopup,
    };
    if f.is_sync_subsurface {
        CommitAction::Ignore
    } else if !f.is_root {
        descendant
    } else {
        match (f.unmapped, f.toplevel) {
            (Some(u), _) => if u.has_buffer {
                CommitAction::MapWindow
            } else if u.needs_initial_configure {
                CommitAction::InitialConfigure
            } else {
                CommitAction::Ignore
            },
            (None, Some(t)) => if !t.has_buffer {
                CommitAction::Unmap { warp_cursor: t.is_focused, redraw: t.on_output }
            } else {
                CommitAction::Update {
                    serial: t.serial,
                    move_by: match t.buffer_delta {
                        Some(d) => if d.0 != 0 || d.1 != 0 {
                            Some(d)
                        } else {
                            None
                        },
                        None => None,
                    },
                    redraw: t.on_output,
                }
            },
            (None, None) => descendant,
        }
    }
}

/// Decides what a commit is about.
pub fn commit(f: SurfaceFacts) -> (r: CommitAction)
    ensures
        r == commit_action(f),
{
    if f.is_sync_subsurface {
        return CommitAction::Ignore;
    }
    if f.is_root {
        if let Some(unmapped) = f.unmapped {
            return if unmapped.has_buffer {
                CommitAction::MapWindow
            } else if unmapped.needs_initial_configure {
                CommitAction::InitialConfigure
            } else {
                CommitAction::Ignore
            };
        }
        if let Some(toplevel) = f.toplevel {
            if !toplevel.has_buffer {
                return CommitAction::Unmap {
                    warp_cursor: toplevel.is_focused,
                    redraw: toplevel.on_output,
                };
            }
            let move_by = match toplevel.buffer_delta {
                Some(delta) => {
                    if delta.0 != 0 || delta.1 != 0 {
                        Some(delta)
                    } else {
                        None
                    }
                },
                None => None,
            };
            return CommitAction::Update {
                serial: toplevel.serial,
                move_by,
                redraw: toplevel.on_output,
            };
        }
    }
    match f.root_window {
        Some(on_output) => CommitAction::UpdateDescendant { redraw: on_output },
        None => CommitAction::TryPopup,
    }
}

/// A step of what to do about a commit.
#[derive(Debug, Clone, Copy, PartialEq, Eq)]
pub enum CommitStep {
    /// Begin to animate the disappearance of the window.
    StartCloseAnimation,
    /// Let the window take over what was committed.
    TakeOver,
    /// Stop the screencasts of the window.
    StopCasts,
    /// Take the window out of the switcher between recent windows.
    LeaveSwitcher,
    /// Take the window out of the layout.
    RemoveWindow,
    /// What would be saved of the session changed.
    MarkSessionDirty,
    /// Let commits of the surface wait for its buffer.
    AddBufferHook,
    /// Don't wait forever for the other windows that change together with this
    /// one, if there are any.
    SetDeadline,
    /// Move the cursor to the window that has the focus now.
    WarpCursor,
    /// Keep the window as one that isn't mapped.
    KeepUnmapped,
    /// Draw the window anew in the switcher between recent windows.
    UpdateSwitcher,
    /// Tell the layout about the commit.
    UpdateWindow { serial: Option<u32> },
    /// Move the window, without an animation, if it floats.
    MoveBy { x: i32, y: i32 },
    /// Place the popups of the window anew.
    UpdatePopups,
    /// Draw the output of the window anew, and the one that shows the switcher.
    Redraw,
    /// Send the window its first configure.
    QueueInitialConfigure,
}

/// The step that draws a window anew, if it is on an output.
pub open spec fn redraw_step(redraw: bool) -> Seq<CommitStep> {
    if redraw {
        seq![CommitStep::Redraw]
    } else {
        seq![]
    }
}

/// The steps of what to do about a commit. Mapping a window goes on after them,
/// and so does looking for what else a surface may be.
pub open spec fn steps_of(action: CommitAction) -> Seq<CommitStep> {
    match action {
        CommitAction::Ignore => seq![],
        CommitAction::MapWindow => seq![CommitStep::TakeOver],
        CommitAction::InitialConfigure => seq![CommitStep::QueueInitialConfigure],
        CommitAction::Unmap { warp_cursor, redraw } => seq![
            CommitStep::StartCloseAnimation,
            CommitStep::TakeOver,
            CommitStep::StopCasts,
            CommitStep::LeaveSwitcher,
            CommitStep::RemoveWindow,
            CommitStep::MarkSessionDirty,
            CommitStep::AddBufferHook,
            CommitStep::SetDeadline,
        ] + (if warp_cursor {
            seq![CommitStep::WarpCursor]
        } else {
            seq![]
        }) + seq![CommitStep::KeepUnmapped] + redraw_step(redraw),
        CommitAction::Update { serial, move_by, redraw } => seq![
            CommitStep::TakeOver,
            CommitStep::UpdateSwitcher,
            CommitStep::UpdateWindow { serial },
        ] + (match move_by {
            Some((x, y)) => seq![CommitStep::MoveBy { x, y }],
            None => seq![],
        }) + seq![CommitStep::UpdatePopups] + redraw_step(redraw),
        CommitAction::UpdateDescendant { redraw } => seq![
            CommitStep::TakeOver,
            CommitStep::UpdateSwitcher,
            CommitStep::UpdateWindow { serial: None },
        ] + redraw_step(redraw),
        CommitAction::TryPopup => seq![],
    }
}

/// The steps of what to do about a commit, in order.
pub fn commit_steps(action: CommitAction) -> (r: Vec<CommitStep>)
    ensures
        r@ == steps_of(action),
{
    let mut r: Vec<CommitStep> = Vec::new();
    let mut draws = false;
    match action {
        CommitAction::Ignore | CommitAction::TryPopup => {},
        CommitAction::MapWindow => {
            r.push(CommitStep::TakeOver);
        },
        CommitAction::InitialConfigure => {
            r.push(CommitStep::QueueInitialConfigure);
        },
        CommitAction::Unmap { warp_cursor, redraw } => {
            r.push(CommitStep::StartCloseAnimation);
            r.push(CommitStep::TakeOver);
            r.push(CommitStep::StopCasts);
            r.push(CommitStep::LeaveSwitcher);
            r.push(CommitStep::RemoveWindow);
            r.push(CommitStep::MarkSessionDirty);
            r.push(CommitStep::AddBufferHook);
            r.push(CommitStep::SetDeadline);
            if warp_cursor {
                r.push(CommitStep::WarpCursor);
            }
            r.push(CommitStep::KeepUnmapped);
            draws = redraw;
        },
        CommitAction::Update { serial, move_by, redraw } => {
            r.push(CommitStep::TakeOver);
            r.push(CommitStep::UpdateSwitcher);
            r.push(CommitStep::UpdateWindow { serial });
            if let Some((x, y)) = move_by {
                r.push(CommitStep::MoveBy { x, y });
            }
            r.push(CommitStep::UpdatePopups);
            draws = redraw;
        },
        CommitAction::UpdateDescendant { redraw } => {
            r.push(CommitStep::TakeOver);
            r.push(CommitStep::UpdateSwitcher);
            r.push(CommitStep::UpdateWindow { serial: None });
            draws = redraw;
        },
    }
    if draws {
        r.push(CommitStep::Redraw);
    }
    assert(r@ =~= steps_of(action));
    r
}

/// A window that goes away is animated from the picture that it had before the
/// commit took effect, and is out of the layout before it counts as not mapped.
pub proof fn closing_begins_before_the_commit(warp_cursor: bool, redraw: bool, i: int, j: int)
    requires
        0 <= i < steps_of(CommitAction::Unmap { warp_cursor, redraw }).len(),
        0 <= j < steps_of(CommitAction::Unmap { warp_cursor, redraw }).len(),
    ensures
        ({
            let steps = steps_of(CommitAction::Unmap { warp_cursor, redraw });
            &&& steps[i] is StartCloseAnimation && steps[j] is TakeOver ==> i < j
            &&& steps[i] is RemoveWindow && steps[j] is KeepUnmapped ==> i < j
        }),
{
}

/// How a commit goes on that isn't about a window.
#[derive(Debug, Clone, Copy, PartialEq, Eq, Structural)]
pub enum SurfaceStep {
    /// Nothing more is to be done; redraw the output, if there is one.
    Done { redraw: bool },
    /// See whether it is a layer surface.
    TryLayerShell,
    /// It is the cursor; move its hotspot along with the buffer, if it is the
    /// surface itself, and redraw everything.
    Cursor { move_hotspot: bool },
    /// It is what is dragged; move it along with the buffer, if it is the surface
    /// itself, and redraw everything.
    DndIcon { move_offset: bool },
    /// It is the lock screen, which may be complete now.
    ContinueLocking,
    /// It is the lock screen.
    RedrawLocked,
    /// It isn't known.
    Unrecognized,
}

/// How a commit goes on once it is known whether the surface is a popup.
pub open spec fn popup_step(popup: Option<bool>) -> SurfaceStep {
    match popup {
        Some(on_output) => SurfaceStep::Done { redraw: on_output },
        None => SurfaceStep::TryLayerShell,
    }
}

/// Goes on once it is known whether the surface is a popup, and then whether
/// that is on an output.
pub fn after_popup(popup: Option<bool>) -> (r: SurfaceStep)
    ensures
        r == popup_step(popup),
{
    match popup {
        Some(on_output) => SurfaceStep::Done { redraw: on_output },
        None => SurfaceStep::TryLayerShell,
    }
}

/// What is found out about a surface that is neither a window nor a popup.
#[derive(Debug, Clone, Copy, PartialEq, Eq, Structural)]
pub struct OtherFacts {
    /// It was handled as a layer surface.
    pub is_layer_surface: bool,
    pub is_root: bool,
    /// The root is the cursor.
    pub is_cursor: bool,
    /// The root is what is dragged.
    pub is_dnd_icon: bool,
    /// The root is the lock screen of an output.
    pub is_lock_surface: bool,
    /// The session waits for lock screens.
    pub is_waiting_for_lock: bool,
}

/// How a commit goes on once it is known what else the surface is.
pub open spec fn other_step(f: OtherFacts) -> SurfaceStep {
    if f.is_layer_surface {
        SurfaceStep::Done { redraw: false }
    } else if f.is_cursor {
        SurfaceStep::Cursor { move_hotspot: f.is_root }
    } else if f.is_dnd_icon {
        SurfaceStep::DndIcon { move_offset: f.is_root }
    } else if !f.is_lock_surface {
        SurfaceStep::Unrecognized
    } else if f.is_waiting_for_lock {
        SurfaceStep::ContinueLocking
    } else {
        SurfaceStep::RedrawLocked
    }
}

/// Goes on once it is known what else the surface is.
pub fn after_layer_shell(f: OtherFacts) -> (r: SurfaceStep)
    ensures
        r == other_step(f),
{
    if f.is_layer_surface {
        SurfaceStep::Done { redraw: false }
    } else if f.is_cursor {
        SurfaceStep::Cursor { move_hotspot: f.is_root }
    } else if f.is_dnd_icon {
        SurfaceStep::DndIcon { move_offset: f.is_root }
    } else if f.is_lock_surface {
        if f.is_waiting_for_lock {
            SurfaceStep::ContinueLocking
        } else {
            SurfaceStep::RedrawLocked
        }
    } else {
        SurfaceStep::Unrecognized
    }
}

/// Where to put a new window.
#[derive(Debug, Clone, Copy, PartialEq, Eq, Structural)]
pub enum AddWindowTarget {
    /// Wherever new windows go.
    Auto,
    /// On this output.
    Output(u64),
    /// On this workspace.
    Workspace(u64),
    /// Next to this window.
    NextTo(u64),
}

/// The window that a new one is a dialog of.
#[derive(Debug, Clone, Copy, PartialEq, Eq, Structural)]
pub struct ParentFacts {
    pub window: u64,
    /// The output that it is on.
    pub output: Option<u64>,
}

/// What a window was configured with before it is mapped.
#[derive(Debug, Clone, Copy, PartialEq, Eq)]
pub struct ConfiguredFacts {
    /// The output that was asked for, and whether it is still connected.
    pub output: Option<(u64, bool)>,
    /// The workspace that was asked for, where it still exists.
    pub workspace: Option<u64>,
    /// The sizes that the window was given.
    pub width: Option<PresetSize>,
    pub height: Option<PresetSize>,
    pub is_full_width: bool,
    pub is_pending_maximized: bool,
}

/// An entry of the last session for a new window.
#[derive(Debug, Clone, Copy, PartialEq, Eq, Structural)]
pub struct SavedFacts {
    pub placement: Placement,
    /// The output that the window was on, where it is connected.
    pub output: Option<u64>,
    /// The workspace that the window was on, where there is one like it.
    pub workspace: Option<u64>,
    /// No other entry is left.
    pub was_last: bool,
}

/// What is found out about a window that is mapped.
#[derive(Debug, Clone, Copy, PartialEq, Eq)]
pub struct MapFacts {
    /// `None` for a window that is mapped without a proper first configure.
    pub configured: Option<ConfiguredFacts>,
    /// The window would float, by its rules, its size or its application.
    pub would_float: bool,
    /// A rule decides whether the window floats.
    pub open_floating: Option<bool>,
    /// The window is that of a web application.
    pub is_web_app: bool,
    /// A rule decides whether the window gets the focus.
    pub open_focused: Option<bool>,
    /// The window has an activation token that is recent enough.
    pub has_token: bool,
    /// New windows don't get the focus without a token.
    pub strict_focus: bool,
    pub parent: Option<ParentFacts>,
    pub saved: Option<SavedFacts>,
}

/// Whether a workspace shows a window of an application.
pub open spec fn shows_app(s: WorkspaceState, app_id: Seq<char>) -> bool {
    exists|i: int|
        0 <= i < s.tiles().len() && option_view((#[trigger] s.tiles()[i]).window.app_id) == Some(
            app_id,
        )
}

/// The state of a workspace that may be missing.
pub open spec fn workspace_view(workspace: Option<&Workspace>) -> Option<WorkspaceState> {
    match workspace {
        Some(workspace) => Some(workspace@),
        None => None,
    }
}

/// Whether a workspace where a window opens shows its application already.
pub open spec fn shown_already(
    app_id: Option<Seq<char>>,
    configured: Option<WorkspaceState>,
    active: Option<WorkspaceState>,
) -> bool {
    match app_id {
        Some(app_id) => match configured {
            Some(workspace) => shows_app(workspace, app_id),
            None => active matches Some(workspace) && shows_app(workspace, app_id),
        },
        None => false,
    }
}

/// Whether a window opens on a workspace that shows another one of its
/// application: the workspace that it was configured for, where that still
/// exists, or else the active one. Such a window floats unless a rule says
/// otherwise.
pub fn opens_with_same_app(
    app_id: Option<&str>,
    configured: Option<&Workspace>,
    active: Option<&Workspace>,
) -> (r: bool)
    ensures
        r == shown_already(str_view(app_id), workspace_view(configured), workspace_view(active)),
{
    let app_id = match app_id {
        Some(app_id) => app_id,
        None => {
            return false;
        },
    };
    match (configured, active) {
        (Some(workspace), _) => workspace.has_window_with_app_id(app_id),
        (None, Some(workspace)) => workspace.has_window_with_app_id(app_id),
        (None, None) => false,
    }
}

/// What to do with a window that is mapped.
#[derive(Debug, Clone, Copy, PartialEq, Eq)]
pub struct MapPlan {
    pub target: AddWindowTarget,
    pub activate: ActivateWindow,
    pub is_floating: bool,
    /// The sizes that the window was given before it is mapped.
    pub width: Option<PresetSize>,
    pub height: Option<PresetSize>,
    pub is_full_width: bool,
    /// The window is also maximized where it turns out to be fullscreen.
    pub is_pending_maximized: bool,
    /// The panel that the window goes to, in place of what its rules say.
    pub fixed_side: Option<OpenInFixedSide>,
    /// The slot that the window had in the last session.
    pub restore_pos: Option<(usize, usize)>,
    /// The sizes to give back to the window once it is in the layout.
    pub restore_size: Option<(Option<i32>, Option<i32>)>,
    /// The last session is restored.
    pub restore_drained: bool,
}

/// The output that a window was configured for, if it is still connected.
pub open spec fn configured_output(f: MapFacts) -> Option<u64> {
    match f.configured {
        Some(c) => match c.output {
            Some((output, true)) => Some(output),
            _ => None,
        },
        None => None,
    }
}

/// The workspace that a window was configured for, if it still exists.
pub open spec fn configured_workspace(f: MapFacts) -> Option<u64> {
    match f.configured {
        Some(c) => c.workspace,
        None => None,
    }
}

/// Whether a window floats without regard to the last session. Web applications
/// open among the columns unless a rule says otherwise.
pub open spec fn opens_floating(f: MapFacts) -> bool {
    f.would_float && !(f.open_floating is None && f.is_web_app)
}

/// Whether a window gets the focus without regard to the last session: as a rule
/// says, or else with a token, or else as the policy is.
pub open spec fn opens_focused(f: MapFacts) -> ActivateWindow {
    match f.open_focused {
        Some(focus) => if focus {
            ActivateWindow::Yes
        } else {
            ActivateWindow::No
        },
        None => if f.has_token {
            ActivateWindow::Yes
        } else if f.strict_focus {
            ActivateWindow::No
        } else {
            ActivateWindow::Smart
        },
    }
}

/// The window that a dialog opens next to: its parent, unless it was configured
/// for another output than the parent is on.
pub open spec fn followed_parent(f: MapFacts) -> Option<u64> {
    match f.parent {
        Some(p) => if p.output is None || configured_output(f) is None || configured_output(f)
            == p.output {
            Some(p.window)
        } else {
            None
        },
        None => None,
    }
}

/// Where a window goes without regard to the last session.
pub open spec fn configured_target(f: MapFacts) -> AddWindowTarget {
    match followed_parent(f) {
        Some(window) => AddWindowTarget::NextTo(window),
        None => match configured_workspace(f) {
            Some(id) => AddWindowTarget::Workspace(id),
            None => match configured_output(f) {
                Some(output) => AddWindowTarget::Output(output),
                None => AddWindowTarget::Auto,
            },
        },
    }
}

/// Where a window goes. A panel belongs to an output, so a window that was in
/// one goes to its output; any other goes to its workspace.
pub open spec fn map_target(f: MapFacts) -> AddWindowTarget {
    match f.saved {
        Some(saved) => if saved.placement is SidePanel {
            match saved.output {
                Some(output) => AddWindowTarget::Output(output),
                None => AddWindowTarget::Auto,
            }
        } else {
            match saved.workspace {
                Some(id) => AddWindowTarget::Workspace(id),
                None => configured_target(f),
            }
        },
        None => configured_target(f),
    }
}

/// What to do with a window that is mapped.
pub open spec fn map_plan(f: MapFacts) -> MapPlan {
    let placement = match f.saved {
        Some(saved) => Some(saved.placement),
        None => None,
    };
    MapPlan {
        target: map_target(f),
        activate: if placement matches Some(p) && p is Tiled {
            ActivateWindow::Yes
        } else {
            opens_focused(f)
        },
        is_floating: match placement {
            Some(p) => p is Floating,
            None => opens_floating(f),
        },
        width: match f.configured {
            Some(c) => c.width,
            None => None,
        },
        height: match f.configured {
            Some(c) => c.height,
            None => None,
        },
        is_full_width: match f.configured {
            Some(c) => c.is_full_width,
            None => false,
        },
        is_pending_maximized: match f.configured {
            Some(c) => c.is_pending_maximized,
            None => false,
        },
        fixed_side: match placement {
            Some(Placement::SidePanel { side, .. }) => Some(
                match side {
                    PanelSide::Left => OpenInFixedSide::Left,
                    PanelSide::Right => OpenInFixedSide::Right,
                },
            ),
            _ => None,
        },
        restore_pos: match placement {
            Some(Placement::Tiled { column_index, tile_index, .. }) => Some(
                (column_index, tile_index),
            ),
            _ => None,
        },
        restore_size: match placement {
            Some(Placement::Tiled { width, height, .. }) => Some((width, height)),
            Some(Placement::SidePanel { width, height, .. }) => Some((width, height)),
            _ => None,
        },
        restore_drained: f.saved matches Some(saved) && saved.was_last,
    }
}

fn plan_target(f: &MapFacts) -> (r: AddWindowTarget)
    ensures
        r == map_target(*f),
{
    let output = match f.configured {
        Some(configured) => match configured.output {
            Some((output, true)) => Some(output),
            _ => None,
        },
        None => None,
    };
    if let Some(saved) = f.saved {
        if matches!(saved.placement, Placement::SidePanel { .. }) {
            return match saved.output {
                Some(output) => AddWindowTarget::Output(output),
                None => AddWindowTarget::Auto,
            };
        }
        if let Some(id) = saved.workspace {
            return AddWindowTarget::Workspace(id);
        }
    }
    if let Some(parent) = f.parent {
        let follows = match (parent.output, output) {
            (Some(a), Some(b)) => a == b,
            _ => true,
        };
        if follows {
            return AddWindowTarget::NextTo(parent.window);
        }
    }
    if let Some(configured) = f.configured {
        if let Some(id) = configured.workspace {
            return AddWindowTarget::Workspace(id);
        }
    }
    match output {
        Some(output) => AddWindowTarget::Output(output),
        None => AddWindowTarget::Auto,
    }
}

/// Plans what to do with a window that is mapped.
pub fn plan_map(f: &MapFacts) -> (r: MapPlan)
    ensures
        r == map_plan(*f),
{
    let mut is_floating = f.would_float && !(f.open_floating.is_none() && f.is_web_app);
    let mut activate = match f.open_focused {
        Some(focus) => {
            if focus {
                ActivateWindow::Yes
            } else {
                ActivateWindow::No
            }
        },
        None => {
            if f.has_token {
                ActivateWindow::Yes
            } else if f.strict_focus {
                ActivateWindow::No
            } else {
                ActivateWindow::Smart
            }
        },
    };
    let mut fixed_side: Option<OpenInFixedSide> = None;
    let mut restore_pos: Option<(usize, usize)> = None;
    let mut restore_size: Option<(Option<i32>, Option<i32>)> = None;
    let mut restore_drained = false;
    if let Some(saved) = f.saved {
        restore_drained = saved.was_last;
        match saved.placement {
            Placement::SidePanel { side, width, height } => {
                is_floating = false;
                fixed_side = Some(
                    match side {
                        PanelSide::Left => OpenInFixedSide::Left,
                        PanelSide::Right => OpenInFixedSide::Right,
                    },
                );
                restore_size = Some((width, height));
            },
            Placement::Tiled { column_index, tile_index, width, height } => {
                is_floating = false;
                activate = ActivateWindow::Yes;
                restore_pos = Some((column_index, tile_index));
                restore_size = Some((width, height));
            },
            Placement::Floating => {
                is_floating = true;
            },
        }
    }
    let (width, height) = match f.configured {
        Some(configured) => (configured.width, configured.height),
        None => (None, None),
    };
    let (is_full_width, is_pending_maximized) = match f.configured {
        Some(configured) => (configured.is_full_width, configured.is_pending_maximized),
        None => (false, false),
    };
    MapPlan {
        target: plan_target(f),
        activate,
        is_floating,
        width,
        height,
        is_full_width,
        is_pending_maximized,
        fixed_side,
        restore_pos,
        restore_size,
        restore_drained,
    }
}

/// A window that was in a panel goes back to it and never to a workspace or next
/// to another window, where it would end up among the columns.
pub proof fn panel_windows_go_back_to_their_panel(f: MapFacts)
    requires
        f.saved matches Some(saved) && saved.placement is SidePanel,
    ensures
        map_plan(f).fixed_side is Some,
        map_plan(f).target is Auto || map_plan(f).target is Output,
        !map_plan(f).is_floating,
{
}

/// A window that was among the columns gets the focus when it comes back, so
/// that its column can be moved.
pub proof fn tiled_windows_come_back_focused(f: MapFacts)
    requires
        f.saved matches Some(saved) && saved.placement is Tiled,
    ensures
        map_plan(f).activate is Yes,
        map_plan(f).restore_pos is Some,
        !map_plan(f).is_floating,
{
}

/// What remains to be done once a window is in the layout.
#[derive(Debug, Clone, Copy, PartialEq, Eq, Structural)]
pub struct MapFollowUp {
    /// Tell the layout that the window is maximized beneath being fullscreen.
    pub set_maximized: bool,
    /// Animate the appearance of the window and redraw its output.
    pub animate: bool,
    /// The window got the focus: move the cursor there and take the focus from
    /// layer surfaces.
    pub take_focus: bool,
}

/// What remains to be done once a window is in the layout.
pub open spec fn follow_up(
    is_pending_maximized: bool,
    is_fullscreen: bool,
    on_output: bool,
    is_focused: bool,
) -> MapFollowUp {
    MapFollowUp {
        set_maximized: is_fullscreen && is_pending_maximized,
        animate: on_output,
        take_focus: on_output && is_focused,
    }
}

/// Decides what remains to be done once a window is in the layout. A window
/// can't ask to be fullscreen and maximized at once, so that it is both is known
/// from its first configure only.
pub fn after_map(
    is_pending_maximized: bool,
    is_fullscreen: bool,
    on_output: bool,
    is_focused: bool,
) -> (r: MapFollowUp)
    ensures
        r == follow_up(is_pending_maximized, is_fullscreen, on_output, is_focused),
{
    MapFollowUp {
        set_maximized: is_fullscreen && is_pending_maximized,
        animate: on_output,
        take_focus: on_output && is_focused,
    }
}

/// A change of one of the sizes of a window.
#[derive(Debug, Clone, Copy, PartialEq, Eq, Structural)]
pub enum RestoredSize {
    Width(SizeChange),
    Height(SizeChange),
}

/// The changes that give a window its sizes back. One that wasn't captured is
/// left to the layout.
pub fn restore_window_size(width: Option<i32>, height: Option<i32>) -> (r: Vec<RestoredSize>)
    ensures
        r@ == restored_sizes(width, height),
{
    let mut r: Vec<RestoredSize> = Vec::new();
    if let Some(w) = width {
        r.push(RestoredSize::Width(SizeChange::SetFixed(w)));
    }
    if let Some(h) = height {
        r.push(RestoredSize::Height(SizeChange::SetFixed(h)));
    }
    assert(r@ =~= (match width {
        Some(w) => seq![RestoredSize::Width(SizeChange::SetFixed(w))],
        None => seq![],
    }) + (match height {
        Some(h) => seq![RestoredSize::Height(SizeChange::SetFixed(h))],
        None => seq![],
    }));
    r
}

/// The changes that give a window its sizes back, as [`restore_window_size`]
/// lists them.
pub open spec fn restored_sizes(width: Option<i32>, height: Option<i32>) -> Seq<RestoredSize> {
    (match width {
        Some(w) => seq![RestoredSize::Width(SizeChange::SetFixed(w))],
        None => seq![],
    }) + (match height {
        Some(h) => seq![RestoredSize::Height(SizeChange::SetFixed(h))],
        None => seq![],
    })
}

/// A step of putting a window back to where it was, once it is in the layout.
#[derive(Debug, Clone, Copy, PartialEq, Eq)]
pub enum PlaceStep {
    /// Move the active column to this place, counted from one.
    MoveColumnTo(usize),
    SetSize(RestoredSize),
    /// Give up the workspaces that were kept for windows to come back.
    EndRestore,
    /// Let the windows that shared a column join it again, as
    /// [`stack_restored_columns`](crate::session::stack_restored_columns) lists
    /// them for the restored windows as they are now.
    StackColumns,
    /// Go back to the workspace that was active.
    RestoreActiveWorkspace,
    /// What would be saved of the session changed.
    MarkSessionDirty,
}

/// The steps of putting a window back to where it was. `slots` are the slots of
/// the restored windows on its workspace.
///
/// A window that was among the columns moves to its place there. After the last
/// window of a session has its place, those that shared a column join it again.
pub open spec fn placement_of(plan: MapPlan, slots: Seq<(usize, usize)>) -> Seq<PlaceStep> {
    (match plan.restore_pos {
        Some(slot) => seq![
            PlaceStep::MoveColumnTo((1 + count_before(slots, slot, slots.len() as int)) as usize),
        ],
        None => seq![],
    }) + (match plan.restore_size {
        Some((width, height)) => restored_sizes(width, height).map_values(
            |size: RestoredSize| PlaceStep::SetSize(size),
        ),
        None => seq![],
    }) + (if plan.restore_drained {
        seq![PlaceStep::EndRestore, PlaceStep::StackColumns, PlaceStep::RestoreActiveWorkspace]
    } else {
        seq![]
    }) + seq![PlaceStep::MarkSessionDirty]
}

/// The steps of putting a window back to where it was, in order.
pub fn placement_steps(plan: &MapPlan, slots: &Vec<(usize, usize)>) -> (r: Vec<PlaceStep>)
    requires
        slots@.len() < usize::MAX,
    ensures
        r@ == placement_of(*plan, slots@),
{
    let mut r: Vec<PlaceStep> = Vec::new();
    if let Some(slot) = plan.restore_pos {
        r.push(PlaceStep::MoveColumnTo(restored_column_index(slots, slot)));
    }
    let ghost moved = r@;
    if let Some((width, height)) = plan.restore_size {
        if let Some(w) = width {
            r.push(PlaceStep::SetSize(RestoredSize::Width(SizeChange::SetFixed(w))));
        }
        if let Some(h) = height {
            r.push(PlaceStep::SetSize(RestoredSize::Height(SizeChange::SetFixed(h))));
        }
        assert(r@ =~= moved + restored_sizes(width, height).map_values(
            |size: RestoredSize| PlaceStep::SetSize(size),
        ));
    }
    if plan.restore_drained {
        r.push(PlaceStep::EndRestore);
        r.push(PlaceStep::StackColumns);
        r.push(PlaceStep::RestoreActiveWorkspace);
    }
    r.push(PlaceStep::MarkSessionDirty);
    assert(r@ =~= placement_of(*plan, slots@));
    r
}

/// Windows are stacked only once the last one of the session is in its place.
pub proof fn columns_are_stacked_after_the_move(
    plan: MapPlan,
    slots: Seq<(usize, usize)>,
    i: int,
    j: int,
)
    requires
        0 <= i < placement_of(plan, slots).len(),
        0 <= j < placement_of(plan, slots).len(),
    ensures
        placement_of(plan, slots)[i] is MoveColumnTo && placement_of(plan, slots)[j] is StackColumns
            ==> i < j,
{
}

/// Something known of surfaces: their roots, or the hooks that were put on them.
#[derive(Debug)]
pub struct SurfaceTable {
    entries: Vec<(u64, u64)>,
}

spec fn entry_map(entries: Seq<(u64, u64)>) -> Map<u64, u64>
    decreases entries.len(),
{
    if entries.len() == 0 {
        Map::empty()
    } else {
        entry_map(entries.drop_last()).insert(entries.last().0, entries.last().1)
    }
}

spec fn keys_unique(entries: Seq<(u64, u64)>) -> bool {
    forall|i: int, j: int|
        0 <= i < j < entries.len() ==> (#[trigger] entries[i]).0 != (#[trigger] entries[j]).0
}

proof fn lemma_entry_map(entries: Seq<(u64, u64)>)
    requires
        keys_unique(entries),
    ensures
        forall|i: int|
            0 <= i < entries.len() ==> {
                &&& entry_map(entries).contains_key((#[trigger] entries[i]).0)
                &&& entry_map(entries)[entries[i].0] == entries[i].1
            },
        forall|k: u64|
            #![trigger entry_map(entries).contains_key(k)]
            entry_map(entries).contains_key(k) ==> exists|i: int|
                0 <= i < entries.len() && (#[trigger] entries[i]).0 == k,
    decreases entries.len(),
{
    if entries.len() > 0 {
        let front = entries.drop_last();
        assert(keys_unique(front)) by {
            assert forall|i: int, j: int| 0 <= i < j < front.len() implies (
            #[trigger] front[i]).0 != (#[trigger] front[j]).0 by {
                assert(entries[i].0 != entries[j].0);
            }
        }
        lemma_entry_map(front);
        assert forall|i: int| 0 <= i < entries.len() implies entry_map(entries).contains_key(
            (#[trigger] entries[i]).0,
        ) && entry_map(entries)[entries[i].0] == entries[i].1 by {
            if i < front.len() {
                assert(front[i] == entries[i]);
                assert(entries[i].0 != entries[entries.len() - 1].0);
            }
        }
        assert forall|k: u64|
            #![trigger entry_map(entries).contains_key(k)]
            entry_map(entries).contains_key(k) implies exists|i: int|
            0 <= i < entries.len() && (#[trigger] entries[i]).0 == k by {
            if k != entries.last().0 {
                assert(entry_map(front).contains_key(k));
                let i = choose|i: int| 0 <= i < front.len() && (#[trigger] front[i]).0 == k;
                assert(entries[i].0 == k);
            } else {
                assert(entries[entries.len() - 1].0 == k);
            }
        }
    }
}

impl View for SurfaceTable {
    type V = Map<u64, u64>;

    closed spec fn view(&self) -> Map<u64, u64> {
        entry_map(self.entries@)
    }
}

/// Whether a surface is forgotten: what is listed for it, and each surface that it is listed
/// for. The rest stays.
pub open spec fn is_forgotten(before: Map<u64, u64>, surface: u64, after: Map<u64, u64>) -> bool {
    &&& forall|k: u64|
        #![trigger after.contains_key(k)]
        after.contains_key(k) == (before.contains_key(k) && k != surface && before[k] != surface)
    &&& forall|k: u64| #[trigger] after.contains_key(k) ==> after[k] == before[k]
}

impl SurfaceTable {
    /// No surface is listed twice.
    pub closed spec fn wf(self) -> bool {
        keys_unique(self.entries@)
    }

    pub fn new() -> (r: Self)
        ensures
            r@ == Map::<u64, u64>::empty(),
            r.wf(),
    {
        SurfaceTable { entries: Vec::new() }
    }

    fn index_of(&self, surface: u64) -> (r: Option<usize>)
        requires
            self.wf(),
        ensures
            match r {
                Some(i) => {
                    &&& i < self.entries@.len()
                    &&& self.entries@[i as int].0 == surface
                    &&& self@.contains_key(surface)
                    &&& self@[surface] == self.entries@[i as int].1
                },
                None => {
                    &&& !self@.contains_key(surface)
                    &&& forall|j: int|
                        0 <= j < self.entries@.len() ==> (#[trigger] self.entries@[j]).0 != surface
                },
            },
    {
        proof {
            lemma_entry_map(self.entries@);
        }
        let mut i: usize = 0;
        while i < self.entries.len()
            invariant
                self.wf(),
                i <= self.entries@.len(),
                forall|j: int| 0 <= j < i ==> (#[trigger] self.entries@[j]).0 != surface,
            decreases self.entries@.len() - i,
        {
            if self.entries[i].0 == surface {
                proof {
                    lemma_entry_map(self.entries@);
                }
                return Some(i);
            }
            i += 1;
        }
        None
    }

    pub fn get(&self, surface: u64) -> (r: Option<u64>)
        requires
            self.wf(),
        ensures
            r == (if self@.contains_key(surface) {
                Some(self@[surface])
            } else {
                None
            }),
    {
        match self.index_of(surface) {
            Some(i) => Some(self.entries[i].1),
            None => None,
        }
    }

    /// Lists something for a surface, and returns what was listed for it before.
    pub fn insert(&mut self, surface: u64, value: u64) -> (r: Option<u64>)
        requires
            old(self).wf(),
        ensures
            final(self)@ == old(self)@.insert(surface, value),
            final(self).wf(),
            r == (if old(self)@.contains_key(surface) {
                Some(old(self)@[surface])
            } else {
                None
            }),
    {
        let prev = self.remove(surface);
        let ghost rest = self.entries@;
        proof {
            lemma_entry_map(rest);
        }
        self.entries.push((surface, value));
        proof {
            assert(self.entries@.drop_last() =~= rest);
            assert(self@ =~= old(self)@.insert(surface, value));
            assert forall|i: int, j: int| 0 <= i < j < self.entries@.len() implies (
            #[trigger] self.entries@[i]).0 != (#[trigger] self.entries@[j]).0 by {
                if j == rest.len() {
                    assert(entry_map(rest).contains_key(rest[i].0));
                } else {
                    assert(rest[i].0 != rest[j].0);
                }
            }
        }
        prev
    }

    /// Takes a surface off the list, and returns what was listed for it.
    pub fn remove(&mut self, surface: u64) -> (r: Option<u64>)
        requires
            old(self).wf(),
        ensures
            final(self)@ == old(self)@.remove(surface),
            final(self).wf(),
            r == (if old(self)@.contains_key(surface) {
                Some(old(self)@[surface])
            } else {
                None
            }),
    {
        match self.index_of(surface) {
            Some(i) => {
                let ghost before = self.entries@;
                let (_, value) = self.entries.remove(i);
                proof {
                    let rest = self.entries@;
                    assert(keys_unique(rest)) by {
                        assert forall|a: int, b: int| 0 <= a < b < rest.len() implies (
                        #[trigger] rest[a]).0 != (#[trigger] rest[b]).0 by {
                            let x = if a < i {
                                a
                            } else {
                                a + 1
                            };
                            let y = if b < i {
                                b
                            } else {
                                b + 1
                            };
                            assert(before[x].0 != before[y].0);
                        }
                    }
                    lemma_entry_map(before);
                    lemma_entry_map(rest);
                    assert forall|k: u64| entry_map(rest).contains_key(k) == old(self)@.remove(
                        surface,
                    ).contains_key(k) by {
                        if entry_map(rest).contains_key(k) {
                            let a = choose|a: int|
                                0 <= a < rest.len() && (#[trigger] rest[a]).0 == k;
                            let x = if a < i {
                                a
                            } else {
                                a + 1
                            };
                            assert(before[x] == rest[a]);
                            if x < i {
                                assert(before[x].0 != before[i as int].0);
                            } else {
                                assert(before[i as int].0 != before[x].0);
                            }
                        }
                        if old(self)@.remove(surface).contains_key(k) {
                            assert(entry_map(before).contains_key(k));
                            let x = choose|x: int|
                                0 <= x < before.len() && (#[trigger] before[x]).0 == k;
                            let a = if x < i {
                                x
                            } else {
                                x - 1
                            };
                            assert(rest[a] == before[x]);
                        }
                    }
                    assert forall|k: u64| entry_map(rest).contains_key(k) implies entry_map(rest)[k]
                        == old(self)@.remove(surface)[k] by {
                        let a = choose|a: int| 0 <= a < rest.len() && (#[trigger] rest[a]).0 == k;
                        let x = if a < i {
                            a
                        } else {
                            a + 1
                        };
                        assert(before[x] == rest[a]);
                        assert(old(self)@.remove(surface).contains_key(k));
                    }
                    assert(self@ =~= old(self)@.remove(surface));
                }
                Some(value)
            },
            None => {
                assert(self@ =~= old(self)@.remove(surface));
                None
            },
        }
    }

    /// Forgets a surface that is gone: what is listed for it, and each surface
    /// that it is listed for.
    pub fn forget(&mut self, surface: u64)
        requires
            old(self).wf(),
        ensures
            is_forgotten(old(self)@, surface, final(self)@),
            final(self).wf(),
    {
        let ghost before = self.entries@;
        proof {
            lemma_entry_map(before);
        }
        let mut kept: Vec<(u64, u64)> = Vec::new();
        let mut i: usize = 0;
        while i < self.entries.len()
            invariant
                self.entries@ == before,
                keys_unique(before),
                i <= before.len(),
                keys_unique(kept@),
                forall|a: int|
                    0 <= a < kept@.len() ==> {
                        let e = #[trigger] kept@[a];
                        &&& e.0 != surface
                        &&& e.1 != surface
                        &&& exists|x: int| 0 <= x < i && #[trigger] before[x] == e
                    },
                forall|x: int|
                    0 <= x < i && (#[trigger] before[x]).0 != surface && before[x].1 != surface
                        ==> kept@.contains(before[x]),
            decreases before.len() - i,
        {
            let entry = self.entries[i];
            let ghost prev = kept@;
            if entry.0 != surface && entry.1 != surface {
                kept.push(entry);
                proof {
                    assert forall|a: int, b: int| 0 <= a < b < kept@.len() implies (
                    #[trigger] kept@[a]).0 != (#[trigger] kept@[b]).0 by {
                        if b == prev.len() {
                            let x = choose|x: int| 0 <= x < i && #[trigger] before[x] == prev[a];
                            assert(before[x].0 != before[i as int].0);
                        } else {
                            assert(prev[a].0 != prev[b].0);
                        }
                    }
                    assert forall|a: int| 0 <= a < kept@.len() implies {
                        let e = #[trigger] kept@[a];
                        &&& e.0 != surface
                        &&& e.1 != surface
                        &&& exists|x: int| 0 <= x < i + 1 && #[trigger] before[x] == e
                    } by {
                        if a < prev.len() {
                            assert(kept@[a] == prev[a]);
                        } else {
                            assert(before[i as int] == kept@[a]);
                        }
                    }
                }
            }
            proof {
                assert forall|x: int|
                    0 <= x < i + 1 && (#[trigger] before[x]).0 != surface && before[x].1 != surface
                    implies kept@.contains(before[x]) by {
                    if x < i {
                        let a = choose|a: int| 0 <= a < prev.len() && prev[a] == before[x];
                        assert(kept@[a] == before[x]);
                    } else {
                        assert(kept@[kept@.len() - 1] == before[x]);
                    }
                }
            }
            i += 1;
        }
        self.entries = kept;
        proof {
            let after = self.entries@;
            lemma_entry_map(after);
            assert forall|k: u64|
                #![trigger entry_map(after).contains_key(k)]
                entry_map(after).contains_key(k) == (entry_map(before).contains_key(k) && k
                    != surface && entry_map(before)[k] != surface) by {
                if entry_map(after).contains_key(k) {
                    let a = choose|a: int| 0 <= a < after.len() && (#[trigger] after[a]).0 == k;
                    let x = choose|x: int|
                        0 <= x < before.len() && #[trigger] before[x] == after[a];
                    assert(before[x].0 == k);
                }
                if entry_map(before).contains_key(k) && k != surface && entry_map(before)[k]
                    != surface {
                    let x = choose|x: int| 0 <= x < before.len() && (#[trigger] before[x]).0 == k;
                    assert(after.contains(before[x]));
                    let a = choose|a: int| 0 <= a < after.len() && after[a] == before[x];
                    assert(after[a].0 == k);
                }
            }
            assert forall|k: u64| #[trigger] entry_map(after).contains_key(k) implies entry_map(
                after,
            )[k] == entry_map(before)[k] by {
                let a = choose|a: int| 0 <= a < after.len() && (#[trigger] after[a]).0 == k;
                let x = choose|x: int| 0 <= x < before.len() && #[trigger] before[x] == after[a];
                assert(before[x].0 == k);
            }
        }
    }
}

} // verus!
