//! What holds of every commit and of every window that is mapped.

use vstd::prelude::*;
use crate::compositor::{
    commit_action, follow_up, is_forgotten, map_plan, other_step, placement_of, popup_step,
    restored_sizes, shown_already, steps_of, CommitAction, CommitStep, MapFacts, MapPlan,
    OtherFacts, PlaceStep, RestoredSize, SurfaceFacts, SurfaceStep,
};
use crate::ipc::SizeChange;
use crate::layout::workspace::{Output, Workspace};
use crate::layout::workspace_state::WorkspaceState;
use crate::session::{count_before, Placement};
use crate::text::option_view;

verus! {

/// The steps that a commit leads to.
pub open spec fn committed(f: SurfaceFacts) -> Seq<CommitStep> {
    steps_of(commit_action(f))
}

/// Whether a commit is one of a window in the layout itself.
pub open spec fn is_of_window(f: SurfaceFacts) -> bool {
    !f.is_sync_subsurface && f.is_root && f.unmapped is None && f.toplevel is Some
}

/// Whether a commit is one of a window in the layout that keeps its picture.
pub open spec fn keeps_window(f: SurfaceFacts) -> bool {
    is_of_window(f) && f.toplevel->0.has_buffer
}

/// Whether a commit is one of a window in the layout that goes away.
pub open spec fn ends_window(f: SurfaceFacts) -> bool {
    is_of_window(f) && !f.toplevel->0.has_buffer
}

/// Whether a commit is one of a part of a window in the layout.
pub open spec fn is_of_part(f: SurfaceFacts) -> bool {
    &&& !f.is_sync_subsurface
    &&& !f.is_root || f.unmapped is None && f.toplevel is None
    &&& f.root_window is Some
}

/// Whether a commit is one of a window that isn't mapped yet.
pub open spec fn is_of_unmapped(f: SurfaceFacts) -> bool {
    !f.is_sync_subsurface && f.is_root && f.unmapped is Some
}

proof fn lemma_steps(action: CommitAction, step: CommitStep)
    ensures
        steps_of(action).contains(step) == (match action {
            CommitAction::Ignore | CommitAction::TryPopup => false,
            CommitAction::MapWindow => step is TakeOver,
            CommitAction::InitialConfigure => step is QueueInitialConfigure,
            CommitAction::Unmap { warp_cursor, redraw } => {
                ||| step is StartCloseAnimation
                ||| step is TakeOver
                ||| step is StopCasts
                ||| step is LeaveSwitcher
                ||| step is RemoveWindow
                ||| step is MarkSessionDirty
                ||| step is AddBufferHook
                ||| step is SetDeadline
                ||| step is WarpCursor && warp_cursor
                ||| step is KeepUnmapped
                ||| step is Redraw && redraw
            },
            CommitAction::Update { serial, move_by, redraw } => {
                ||| step is TakeOver
                ||| step is UpdateSwitcher
                ||| step == (CommitStep::UpdateWindow { serial })
                ||| move_by is Some && step == (CommitStep::MoveBy {
                    x: (move_by->0).0,
                    y: (move_by->0).1,
                })
                ||| step is UpdatePopups
                ||| step is Redraw && redraw
            },
            CommitAction::UpdateDescendant { redraw } => {
                ||| step is TakeOver
                ||| step is UpdateSwitcher
                ||| step == (CommitStep::UpdateWindow { serial: None })
                ||| step is Redraw && redraw
            },
        }),
{
    let steps = steps_of(action);
    match action {
        CommitAction::Unmap { warp_cursor, redraw } => {
            let w: int = if warp_cursor {
                1
            } else {
                0
            };
            assert(steps[0] is StartCloseAnimation);
            assert(steps[1] is TakeOver);
            assert(steps[2] is StopCasts);
            assert(steps[3] is LeaveSwitcher);
            assert(steps[4] is RemoveWindow);
            assert(steps[5] is MarkSessionDirty);
            assert(steps[6] is AddBufferHook);
            assert(steps[7] is SetDeadline);
            assert(warp_cursor ==> steps[8] is WarpCursor);
            assert(steps[8 + w] is KeepUnmapped);
            assert(redraw ==> steps[9 + w] is Redraw);
        },
        CommitAction::Update { serial, move_by, redraw } => {
            let m: int = if move_by is Some {
                1
            } else {
                0
            };
            assert(steps[0] is TakeOver);
            assert(steps[1] is UpdateSwitcher);
            assert(steps[2] == (CommitStep::UpdateWindow { serial }));
            assert(move_by is Some ==> steps[3] == (CommitStep::MoveBy {
                x: (move_by->0).0,
                y: (move_by->0).1,
            }));
            assert(steps[3 + m] is UpdatePopups);
            assert(redraw ==> steps[4 + m] is Redraw);
        },
        CommitAction::UpdateDescendant { redraw } => {
            assert(steps[0] is TakeOver);
            assert(steps[1] is UpdateSwitcher);
            assert(steps[2] == (CommitStep::UpdateWindow { serial: None }));
            assert(redraw ==> steps[3] is Redraw);
        },
        CommitAction::MapWindow => {
            assert(steps[0] is TakeOver);
        },
        CommitAction::InitialConfigure => {
            assert(steps[0] is QueueInitialConfigure);
        },
        _ => {},
    }
}

/// A commit of a window, or of a part of one, is shown if and only if the window is
/// on an output.
pub proof fn what_is_shown_is_drawn_anew(f: SurfaceFacts)
    ensures
        is_of_window(f) ==> (committed(f).contains(CommitStep::Redraw)
            <==> f.toplevel->0.on_output),
        is_of_part(f) ==> (committed(f).contains(CommitStep::Redraw) <==> f.root_window->0),
        !is_of_window(f) && !is_of_part(f) ==> !committed(f).contains(CommitStep::Redraw),
{
    lemma_steps(commit_action(f), CommitStep::Redraw);
}

/// Whether a commit is shown doesn't depend on what the client acknowledged, on how
/// far the buffer is moved or on the focus.
pub proof fn drawing_anew_depends_on_the_output_alone(f: SurfaceFacts, g: SurfaceFacts)
    requires
        keeps_window(f),
        keeps_window(g),
        f.toplevel->0.on_output == g.toplevel->0.on_output,
    ensures
        committed(f).contains(CommitStep::Redraw) == committed(g).contains(CommitStep::Redraw),
{
    lemma_steps(commit_action(f), CommitStep::Redraw);
    lemma_steps(commit_action(g), CommitStep::Redraw);
}

/// A part of a window that is committed together with its parent leads to nothing by
/// itself.
pub proof fn synchronized_parts_wait(f: SurfaceFacts)
    requires
        f.is_sync_subsurface,
    ensures
        committed(f).len() == 0,
        !(commit_action(f) is MapWindow),
        !(commit_action(f) is TryPopup),
{
}

/// The layout hears of a commit of a window in it with what the client acknowledged,
/// and of one of a part of a window without.
pub proof fn layout_hears_of_commits(f: SurfaceFacts, serial: Option<u32>)
    ensures
        committed(f).contains(CommitStep::UpdateWindow { serial }) <==> {
            ||| keeps_window(f) && serial == f.toplevel->0.serial
            ||| is_of_part(f) && serial is None
        },
        committed(f).contains(CommitStep::UpdateSwitcher) <==> keeps_window(f) || is_of_part(f),
        committed(f).contains(CommitStep::UpdatePopups) <==> keeps_window(f),
{
    lemma_steps(commit_action(f), CommitStep::UpdateWindow { serial });
    lemma_steps(commit_action(f), CommitStep::UpdateSwitcher);
    lemma_steps(commit_action(f), CommitStep::UpdatePopups);
}

/// A window is moved exactly as far as its buffer was moved, if it was.
pub proof fn windows_move_with_their_buffer(f: SurfaceFacts, x: i32, y: i32)
    ensures
        committed(f).contains(CommitStep::MoveBy { x, y }) <==> {
            &&& keeps_window(f)
            &&& f.toplevel->0.buffer_delta == Some((x, y))
            &&& x != 0 || y != 0
        },
{
    lemma_steps(commit_action(f), CommitStep::MoveBy { x, y });
}

/// A window that commits no picture any more goes away, and nothing else does. It is
/// animated, taken out of the layout, of the switcher and of screencasts, and kept as
/// one that isn't mapped.
pub proof fn windows_without_a_buffer_go_away(f: SurfaceFacts)
    ensures
        committed(f).contains(CommitStep::StartCloseAnimation) <==> ends_window(f),
        committed(f).contains(CommitStep::StopCasts) <==> ends_window(f),
        committed(f).contains(CommitStep::LeaveSwitcher) <==> ends_window(f),
        committed(f).contains(CommitStep::RemoveWindow) <==> ends_window(f),
        committed(f).contains(CommitStep::MarkSessionDirty) <==> ends_window(f),
        committed(f).contains(CommitStep::AddBufferHook) <==> ends_window(f),
        committed(f).contains(CommitStep::SetDeadline) <==> ends_window(f),
        committed(f).contains(CommitStep::KeepUnmapped) <==> ends_window(f),
{
    lemma_steps(commit_action(f), CommitStep::StartCloseAnimation);
    lemma_steps(commit_action(f), CommitStep::StopCasts);
    lemma_steps(commit_action(f), CommitStep::LeaveSwitcher);
    lemma_steps(commit_action(f), CommitStep::RemoveWindow);
    lemma_steps(commit_action(f), CommitStep::MarkSessionDirty);
    lemma_steps(commit_action(f), CommitStep::AddBufferHook);
    lemma_steps(commit_action(f), CommitStep::SetDeadline);
    lemma_steps(commit_action(f), CommitStep::KeepUnmapped);
}

/// The cursor goes to the next window if and only if the one that goes away had the
/// focus.
pub proof fn cursor_follows_the_focus(f: SurfaceFacts)
    ensures
        committed(f).contains(CommitStep::WarpCursor) <==> ends_window(f)
            && f.toplevel->0.is_focused,
{
    lemma_steps(commit_action(f), CommitStep::WarpCursor);
}

/// A window takes over what was committed, whether it is mapped by that, stays or goes
/// away, and so does one of which a part was committed.
pub proof fn windows_take_over_commits(f: SurfaceFacts)
    ensures
        committed(f).contains(CommitStep::TakeOver) <==> {
            ||| is_of_unmapped(f) && f.unmapped->0.has_buffer
            ||| is_of_window(f)
            ||| is_of_part(f)
        },
{
    lemma_steps(commit_action(f), CommitStep::TakeOver);
}

/// A window is mapped by its first picture. Until then it is sent its first configure
/// where it needs one.
pub proof fn windows_are_mapped_by_a_buffer(f: SurfaceFacts)
    ensures
        commit_action(f) is MapWindow <==> is_of_unmapped(f) && f.unmapped->0.has_buffer,
        committed(f).contains(CommitStep::QueueInitialConfigure) <==> is_of_unmapped(f)
            && !f.unmapped->0.has_buffer && f.unmapped->0.needs_initial_configure,
{
    lemma_steps(commit_action(f), CommitStep::QueueInitialConfigure);
}

/// What isn't about a window may be a popup, and nothing else may.
pub proof fn what_is_no_window_may_be_a_popup(f: SurfaceFacts)
    ensures
        commit_action(f) is TryPopup <==> {
            &&& !f.is_sync_subsurface
            &&& !is_of_window(f)
            &&& !is_of_part(f)
            &&& !is_of_unmapped(f)
        },
{
}

/// The order in which the steps of a commit are taken: a lower rank comes first.
///
/// A window that goes away is animated from what it showed before the commit, and is
/// out of the layout before anything is done about the others. The layout hears of a
/// commit once the window took it over, and popups are placed once the window is.
pub open spec fn rank_of(step: CommitStep) -> int {
    match step {
        CommitStep::StartCloseAnimation => 0,
        CommitStep::TakeOver => 1,
        CommitStep::QueueInitialConfigure => 1,
        CommitStep::StopCasts => 2,
        CommitStep::LeaveSwitcher => 3,
        CommitStep::UpdateSwitcher => 3,
        CommitStep::RemoveWindow => 4,
        CommitStep::UpdateWindow { .. } => 4,
        CommitStep::MarkSessionDirty => 5,
        CommitStep::MoveBy { .. } => 5,
        CommitStep::AddBufferHook => 6,
        CommitStep::UpdatePopups => 6,
        CommitStep::SetDeadline => 7,
        CommitStep::WarpCursor => 8,
        CommitStep::KeepUnmapped => 9,
        CommitStep::Redraw => 10,
    }
}

/// The steps of a commit are taken in order, and none of them twice.
pub proof fn steps_are_in_order(f: SurfaceFacts, i: int, j: int)
    requires
        0 <= i < j < committed(f).len(),
    ensures
        rank_of(committed(f)[i]) < rank_of(committed(f)[j]),
{
}

/// A popup is drawn anew if and only if it is on an output, and is nothing else.
pub proof fn popups_are_popups(popup: Option<bool>)
    ensures
        popup_step(popup) == (SurfaceStep::Done { redraw: true }) <==> popup == Some(true),
        popup_step(popup) is Done <==> popup is Some,
        popup_step(popup) is TryLayerShell <==> popup is None,
{
}

/// Each surface that is neither a window nor a popup is taken for what it is. What is
/// several things is taken for the first of them: a layer surface, the cursor, what is
/// dragged, a lock screen.
pub proof fn other_surfaces_are_what_they_are(f: OtherFacts)
    ensures
        other_step(f) is Done <==> f.is_layer_surface,
        other_step(f) is Done ==> !other_step(f)->redraw,
        other_step(f) is Cursor <==> f.is_cursor && !f.is_layer_surface,
        other_step(f) is Cursor ==> other_step(f)->move_hotspot == f.is_root,
        other_step(f) is DndIcon <==> f.is_dnd_icon && !f.is_layer_surface && !f.is_cursor,
        other_step(f) is DndIcon ==> other_step(f)->move_offset == f.is_root,
        other_step(f) is ContinueLocking || other_step(f) is RedrawLocked <==> f.is_lock_surface
            && !f.is_layer_surface && !f.is_cursor && !f.is_dnd_icon,
        other_step(f) is ContinueLocking ==> f.is_waiting_for_lock,
        other_step(f) is RedrawLocked ==> !f.is_waiting_for_lock,
        !(other_step(f) is TryLayerShell),
{
}

/// Where a window was in the last session, if it was there.
pub open spec fn saved_place(f: MapFacts) -> Option<Placement> {
    match f.saved {
        Some(saved) => Some(saved.placement),
        None => None,
    }
}

/// A window goes to the very panel that it was in, and a window that wasn't in one goes
/// to none on that account.
pub proof fn panel_windows_go_back_to_their_side(f: MapFacts)
    ensures
        map_plan(f).fixed_side is Some
            <==> saved_place(f) is Some && saved_place(f)->0 is SidePanel,
        saved_place(f) matches Some(Placement::SidePanel { side, .. }) ==> {
            &&& map_plan(f).fixed_side is Some
            &&& map_plan(f).fixed_side->0 is Left <==> side is Left
            &&& map_plan(f).fixed_side->0 is Right <==> side is Right
        },
{
}

/// Windows that were in different panels go to different panels.
pub proof fn panels_are_kept_apart(f: MapFacts, g: MapFacts)
    requires
        saved_place(f) is Some && saved_place(f)->0 is SidePanel,
        saved_place(g) is Some && saved_place(g)->0 is SidePanel,
    ensures
        map_plan(f).fixed_side == map_plan(g).fixed_side <==> saved_place(f)->0->side
            == saved_place(g)->0->side,
{
}

/// A window gets back the slot and the sizes that it had, and one that had none gets
/// none.
pub proof fn windows_get_back_slot_and_size(f: MapFacts)
    ensures
        match saved_place(f) {
            Some(Placement::Tiled { column_index, tile_index, width, height }) => {
                &&& map_plan(f).restore_pos is Some
                &&& (map_plan(f).restore_pos->0).0 == column_index
                &&& (map_plan(f).restore_pos->0).1 == tile_index
                &&& map_plan(f).restore_size is Some
                &&& (map_plan(f).restore_size->0).0 == width
                &&& (map_plan(f).restore_size->0).1 == height
            },
            Some(Placement::SidePanel { width, height, .. }) => {
                &&& map_plan(f).restore_pos is None
                &&& map_plan(f).restore_size is Some
                &&& (map_plan(f).restore_size->0).0 == width
                &&& (map_plan(f).restore_size->0).1 == height
            },
            Some(Placement::Floating) | None => {
                &&& map_plan(f).restore_pos is None
                &&& map_plan(f).restore_size is None
            },
        },
{
}

/// A window of the last session floats if and only if it floated then, whatever its rules
/// say. Another one floats if it would by itself, except that web applications do so only
/// by a rule.
pub proof fn windows_float_as_they_did(f: MapFacts)
    ensures
        f.saved is Some ==> (map_plan(f).is_floating <==> saved_place(f)->0 is Floating),
        f.saved is None && !f.would_float ==> !map_plan(f).is_floating,
        f.saved is None && f.would_float && f.open_floating is Some ==> map_plan(f).is_floating,
        f.saved is None && f.would_float && f.open_floating is None ==> map_plan(f).is_floating
            == !f.is_web_app,
{
}

/// Whether a new window gets the focus: a window of the columns of the last session does, a
/// rule decides for any other, then a token, and then the policy.
pub proof fn focus_goes_by_session_rule_token_and_policy(f: MapFacts)
    ensures
        saved_place(f) is Some && saved_place(f)->0 is Tiled ==> map_plan(f).activate is Yes,
        !(saved_place(f) is Some && saved_place(f)->0 is Tiled) ==> {
            &&& f.open_focused == Some(true) ==> map_plan(f).activate is Yes
            &&& f.open_focused == Some(false) ==> map_plan(f).activate is No
            &&& f.open_focused is None && f.has_token ==> map_plan(f).activate is Yes
            &&& f.open_focused is None && !f.has_token && f.strict_focus
                ==> map_plan(f).activate is No
            &&& f.open_focused is None && !f.has_token && !f.strict_focus
                ==> map_plan(f).activate is Smart
        },
{
}

/// A window that was in a panel goes to the output that it was on, and any other window of
/// the last session to its workspace, where that is there.
pub proof fn windows_go_back_to_output_and_workspace(f: MapFacts)
    requires
        f.saved is Some,
    ensures
        ({
            let saved = f.saved->0;
            let target = map_plan(f).target;
            &&& saved.placement is SidePanel && saved.output is Some ==> {
                &&& target is Output
                &&& target->Output_0 == saved.output->0
            }
            &&& saved.placement is SidePanel && saved.output is None ==> target is Auto
            &&& !(saved.placement is SidePanel) && saved.workspace is Some ==> {
                &&& target is Workspace
                &&& target->Workspace_0 == saved.workspace->0
            }
        }),
{
}

/// A saved place that isn't there any more doesn't change where a window goes.
pub proof fn missing_workspace_changes_no_target(f: MapFacts)
    requires
        f.saved is Some,
        !(f.saved->0.placement is SidePanel),
        f.saved->0.workspace is None,
    ensures
        map_plan(f).target == map_plan(MapFacts { saved: None, ..f }).target,
{
}

/// A dialog goes next to its parent unless it was asked for on another output. Without a
/// parent to follow, a window goes to the workspace that it was asked for on, then to the
/// output, and else wherever windows go. What is gone isn't gone to.
pub proof fn new_windows_go_where_they_are_asked_for(f: MapFacts)
    requires
        f.saved is None,
    ensures
        ({
            let target = map_plan(f).target;
            let elsewhere = f.parent is Some && f.parent->0.output is Some && f.configured is Some
                && f.configured->0.output is Some && (f.configured->0.output->0).1
                && (f.configured->0.output->0).0 != f.parent->0.output->0;
            let follows = f.parent is Some && !elsewhere;
            &&& target is NextTo <==> follows
            &&& target is NextTo ==> target->NextTo_0 == f.parent->0.window
            &&& target is Workspace <==> !follows && f.configured is Some
                && f.configured->0.workspace is Some
            &&& target is Workspace ==> target->Workspace_0 == f.configured->0.workspace->0
            &&& target is Output <==> !follows && f.configured is Some
                && f.configured->0.workspace is None && f.configured->0.output is Some
                && (f.configured->0.output->0).1
            &&& target is Output ==> target->Output_0 == (f.configured->0.output->0).0
        }),
{
}

/// A window is opened with what it was configured with, and one without a proper first
/// configure with nothing.
pub proof fn windows_open_as_configured(f: MapFacts)
    ensures
        f.configured matches Some(c) ==> {
            &&& map_plan(f).width == c.width
            &&& map_plan(f).height == c.height
            &&& map_plan(f).is_full_width == c.is_full_width
            &&& map_plan(f).is_pending_maximized == c.is_pending_maximized
        },
        f.configured is None ==> {
            &&& map_plan(f).width is None
            &&& map_plan(f).height is None
            &&& !map_plan(f).is_full_width
            &&& !map_plan(f).is_pending_maximized
        },
{
}

/// The session is restored with the last of its windows, and with no other.
pub proof fn last_window_ends_the_restore(f: MapFacts)
    ensures
        map_plan(f).restore_drained <==> f.saved is Some && f.saved->0.was_last,
{
}

/// The sizes that a window gets back are those that were saved, each as it was, and none
/// that wasn't saved.
pub proof fn saved_sizes_come_back(width: Option<i32>, height: Option<i32>, size: RestoredSize)
    ensures
        restored_sizes(width, height).contains(size) <==> (match size {
            RestoredSize::Width(change) => width is Some && change == SizeChange::SetFixed(
                width->0,
            ),
            RestoredSize::Height(change) => height is Some && change == SizeChange::SetFixed(
                height->0,
            ),
        }),
{
    let sizes = restored_sizes(width, height);
    let w: int = if width is Some {
        1
    } else {
        0
    };
    assert(width is Some ==> sizes[0] == RestoredSize::Width(SizeChange::SetFixed(width->0)));
    assert(height is Some ==> sizes[w] == RestoredSize::Height(SizeChange::SetFixed(height->0)));
}

/// What is done once a window is in the layout: it is maximized beneath being fullscreen only
/// where it is fullscreen and was asked to be maximized, it is animated where it can be seen,
/// and only a window that is seen and has the focus gets the cursor.
pub proof fn only_what_is_seen_is_animated(
    is_pending_maximized: bool,
    is_fullscreen: bool,
    on_output: bool,
    is_focused: bool,
)
    ensures
        ({
            let r = follow_up(is_pending_maximized, is_fullscreen, on_output, is_focused);
            &&& r.set_maximized <==> is_pending_maximized && is_fullscreen
            &&& r.animate <==> on_output
            &&& r.take_focus ==> r.animate && is_focused
            &&& r.animate && is_focused ==> r.take_focus
        }),
{
}

/// Whether a list of steps holds a step.
pub open spec fn has_step(steps: Seq<PlaceStep>, step: PlaceStep) -> bool {
    exists|i: int| 0 <= i < steps.len() && #[trigger] steps[i] == step
}

/// A window that was among the columns moves to the place behind the restored windows that
/// come before it, and no other one moves. What would be saved has changed in any case, and
/// that comes last.
pub proof fn restored_windows_move_to_their_place(plan: MapPlan, slots: Seq<(usize, usize)>)
    requires
        slots.len() < usize::MAX,
    ensures
        ({
            let steps = placement_of(plan, slots);
            &&& steps.len() > 0
            &&& steps.last() is MarkSessionDirty
            &&& plan.restore_pos matches Some(slot) ==> steps[0] is MoveColumnTo
                && steps[0]->MoveColumnTo_0 == 1 + count_before(slots, slot, slots.len() as int)
            &&& plan.restore_pos is None ==> forall|i: int|
                0 <= i < steps.len() ==> !(#[trigger] steps[i] is MoveColumnTo)
        }),
{
    if let Some(slot) = plan.restore_pos {
        lemma_count_is_bounded(slots, slot, slots.len() as int);
    }
}

proof fn lemma_count_is_bounded(slots: Seq<(usize, usize)>, key: (usize, usize), n: int)
    requires
        0 <= n <= slots.len(),
    ensures
        0 <= count_before(slots, key, n) <= n,
    decreases n,
{
    if n > 0 {
        lemma_count_is_bounded(slots, key, n - 1);
    }
}

/// The columns are put together again, and the workspace that was active is so again, exactly
/// once the last window of the session is back.
pub proof fn session_ends_with_its_last_window(plan: MapPlan, slots: Seq<(usize, usize)>)
    ensures
        ({
            let steps = placement_of(plan, slots);
            &&& has_step(steps, PlaceStep::EndRestore) <==> plan.restore_drained
            &&& has_step(steps, PlaceStep::StackColumns) <==> plan.restore_drained
            &&& has_step(steps, PlaceStep::RestoreActiveWorkspace) <==> plan.restore_drained
            &&& plan.restore_drained ==> {
                let n = steps.len();
                &&& n >= 4
                &&& steps[n - 4] is EndRestore
                &&& steps[n - 3] is StackColumns
                &&& steps[n - 2] is RestoreActiveWorkspace
            }
        }),
{
    let steps = placement_of(plan, slots);
    let n = steps.len() as int;
    if plan.restore_drained {
        assert(steps[n - 4] == PlaceStep::EndRestore);
        assert(steps[n - 3] == PlaceStep::StackColumns);
        assert(steps[n - 2] == PlaceStep::RestoreActiveWorkspace);
    }
}

/// A window gets back the width and the height that were captured, and none that wasn't.
pub proof fn restored_windows_get_their_size(plan: MapPlan, slots: Seq<(usize, usize)>, n: i32)
    ensures
        ({
            let steps = placement_of(plan, slots);
            let width = PlaceStep::SetSize(RestoredSize::Width(SizeChange::SetFixed(n)));
            let height = PlaceStep::SetSize(RestoredSize::Height(SizeChange::SetFixed(n)));
            &&& has_step(steps, width) <==> plan.restore_size is Some && (plan.restore_size->0).0
                == Some(n)
            &&& has_step(steps, height) <==> plan.restore_size is Some && (plan.restore_size->0).1
                == Some(n)
        }),
{
    let steps = placement_of(plan, slots);
    let at: int = if plan.restore_pos is Some {
        1
    } else {
        0
    };
    if let Some((width, height)) = plan.restore_size {
        if let Some(w) = width {
            assert(steps[at] == PlaceStep::SetSize(RestoredSize::Width(SizeChange::SetFixed(w))));
        }
        if let Some(h) = height {
            let k: int = if width is Some {
                at + 1
            } else {
                at
            };
            assert(steps[k] == PlaceStep::SetSize(RestoredSize::Height(SizeChange::SetFixed(h))));
        }
    }
}

/// The workspace that a window is configured for decides alone whether its application is
/// there already, and only where there is none does the active one. A window without an
/// application is like no other.
pub proof fn configured_workspace_decides(
    app_id: Seq<char>,
    configured: WorkspaceState,
    active: Option<WorkspaceState>,
    other: Option<WorkspaceState>,
)
    ensures
        shown_already(Some(app_id), Some(configured), active) == shown_already(
            Some(app_id),
            Some(configured),
            other,
        ),
        shown_already(Some(app_id), None, Some(configured)) == shown_already(
            Some(app_id),
            Some(configured),
            active,
        ),
        !shown_already(None, Some(configured), active),
        !shown_already(Some(app_id), None, None),
        shown_already(Some(app_id), Some(configured), active) <==> exists|i: int|
            0 <= i < configured.tiles().len() && option_view(
                (#[trigger] configured.tiles()[i]).window.app_id,
            ) == Some(app_id),
{
}

/// A surface that is forgotten isn't listed and nothing is listed for it, nothing else is
/// lost, and forgetting it again changes nothing.
pub proof fn forgotten_surfaces_are_gone(
    before: Map<u64, u64>,
    surface: u64,
    after: Map<u64, u64>,
    again: Map<u64, u64>,
)
    requires
        is_forgotten(before, surface, after),
        is_forgotten(after, surface, again),
    ensures
        !after.contains_key(surface),
        forall|k: u64| #[trigger] after.contains_key(k) ==> after[k] != surface,
        forall|k: u64|
            before.contains_key(k) && k != surface && before[k] != surface
                ==> #[trigger] after.contains_key(k) && after[k] == before[k],
        again == after,
{
    assert(again =~= after);
}

} // verus!
