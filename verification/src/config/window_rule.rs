//! Rules for windows.

use vstd::prelude::*;
use crate::config::layout::DefaultPresetSize;
use crate::config::utils::{FloatOrInt, MergeWith, RegexEq};
use crate::ipc::ColumnDisplay;

verus! {

/// The corner or edge of the working area that a position counts from.
#[derive(Debug, Clone, Copy, PartialEq, Eq, Structural)]
pub enum RelativeTo {
    TopLeft,
    TopRight,
    BottomLeft,
    BottomRight,
    Top,
    Bottom,
    Left,
    Right,
}

impl Default for RelativeTo {
    fn default() -> (r: Self)
        ensures
            r is TopLeft,
    {
        RelativeTo::TopLeft
    }
}

/// Where a floating window opens.
#[derive(Debug, Clone, Copy, PartialEq, Eq, Structural)]
pub struct FloatingPosition {
    pub x: FloatOrInt,
    pub y: FloatOrInt,
    pub relative_to: RelativeTo,
}

/// What a window has to be like for a rule to apply.
#[derive(Debug)]
pub struct Match {
    pub app_id: Option<RegexEq>,
    pub title: Option<RegexEq>,
    pub is_active: Option<bool>,
    pub is_focused: Option<bool>,
    pub is_active_in_column: Option<bool>,
    pub is_floating: Option<bool>,
    pub is_window_cast_target: Option<bool>,
    pub is_urgent: Option<bool>,
    pub at_startup: Option<bool>,
}

/// The radius of each corner, as the bit patterns of floats.
#[derive(Debug, Clone, Copy, PartialEq, Eq, Structural)]
pub struct CornerRadius {
    pub top_left: u32,
    pub top_right: u32,
    pub bottom_right: u32,
    pub bottom_left: u32,
}

/// A rule for the popups of a window.
#[derive(Debug, Clone, Copy, PartialEq, Eq, Structural)]
pub struct PopupsRule {
    /// The opacity, as the bit pattern of a float.
    pub opacity: Option<u32>,
    pub geometry_corner_radius: Option<CornerRadius>,
    /// The number of the rule for what is behind the popups.
    pub background_effect: u64,
}

/// A rule for windows: how a window opens, and how it looks and behaves.
///
/// What a rule says of an appearance is held as a number; `None` says nothing.
#[derive(Debug)]
pub struct WindowRule {
    /// The rule applies to windows that are like one of these.
    pub matches: Vec<Match>,
    /// The rule doesn't apply to windows that are like one of these.
    pub excludes: Vec<Match>,
    pub default_column_width: Option<DefaultPresetSize>,
    pub default_window_height: Option<DefaultPresetSize>,
    pub open_on_output: Option<String>,
    pub open_on_workspace: Option<String>,
    pub open_maximized: Option<bool>,
    pub open_maximized_to_edges: Option<bool>,
    pub open_fullscreen: Option<bool>,
    pub open_floating: Option<bool>,
    pub open_focused: Option<bool>,
    /// The window opens in the column of the active window, where that one is
    /// under such a rule too.
    pub open_in_same_column: Option<bool>,
    /// How many windows may share a column that way.
    pub max_windows_per_column: Option<u16>,
    pub min_width: Option<u16>,
    pub min_height: Option<u16>,
    pub max_width: Option<u16>,
    pub max_height: Option<u16>,
    pub focus_ring: Option<u64>,
    pub border: Option<u64>,
    pub shadow: Option<u64>,
    pub tab_indicator: Option<u64>,
    pub draw_border_with_background: Option<bool>,
    /// The opacity, as the bit pattern of a float.
    pub opacity: Option<u32>,
    pub geometry_corner_radius: Option<CornerRadius>,
    pub clip_to_geometry: Option<bool>,
    pub baba_is_float: Option<bool>,
    pub block_out_from: Option<u64>,
    pub variable_refresh_rate: Option<bool>,
    pub default_column_display: Option<ColumnDisplay>,
    pub default_floating_position: Option<FloatingPosition>,
    pub scroll_factor: Option<FloatOrInt>,
    pub tiled_state: Option<bool>,
    pub background_effect: Option<u64>,
    pub popups: Option<PopupsRule>,
}

/// Whether a rule says nothing of how windows look and behave.
pub open spec fn looks_and_behaves_as_usual(rule: WindowRule) -> bool {
    &&& rule.min_width is None
    &&& rule.min_height is None
    &&& rule.max_width is None
    &&& rule.max_height is None
    &&& rule.focus_ring is None
    &&& rule.border is None
    &&& rule.shadow is None
    &&& rule.tab_indicator is None
    &&& rule.draw_border_with_background is None
    &&& rule.opacity is None
    &&& rule.geometry_corner_radius is None
    &&& rule.clip_to_geometry is None
    &&& rule.baba_is_float is None
    &&& rule.block_out_from is None
    &&& rule.variable_refresh_rate is None
    &&& rule.default_column_display is None
    &&& rule.default_floating_position is None
    &&& rule.scroll_factor is None
    &&& rule.tiled_state is None
    &&& rule.background_effect is None
    &&& rule.popups is None
}

/// Whether a rule says nothing of how windows open.
pub open spec fn opens_as_usual(rule: WindowRule) -> bool {
    &&& rule.default_column_width is None
    &&& rule.default_window_height is None
    &&& rule.open_on_output is None
    &&& rule.open_on_workspace is None
    &&& rule.open_maximized is None
    &&& rule.open_maximized_to_edges is None
    &&& rule.open_fullscreen is None
    &&& rule.open_floating is None
    &&& rule.open_focused is None
    &&& rule.open_in_same_column is None
    &&& rule.max_windows_per_column is None
}

impl Default for WindowRule {
    /// A rule that says nothing.
    fn default() -> (r: Self)
        ensures
            r.matches@.len() == 0,
            r.excludes@.len() == 0,
            opens_as_usual(r),
            looks_and_behaves_as_usual(r),
    {
        WindowRule {
            matches: Vec::new(),
            excludes: Vec::new(),
            default_column_width: None,
            default_window_height: None,
            open_on_output: None,
            open_on_workspace: None,
            open_maximized: None,
            open_maximized_to_edges: None,
            open_fullscreen: None,
            open_floating: None,
            open_focused: None,
            open_in_same_column: None,
            max_windows_per_column: None,
            min_width: None,
            min_height: None,
            max_width: None,
            max_height: None,
            focus_ring: None,
            border: None,
            shadow: None,
            tab_indicator: None,
            draw_border_with_background: None,
            opacity: None,
            geometry_corner_radius: None,
            clip_to_geometry: None,
            baba_is_float: None,
            block_out_from: None,
            variable_refresh_rate: None,
            default_column_display: None,
            default_floating_position: None,
            scroll_factor: None,
            tiled_state: None,
            background_effect: None,
            popups: None,
        }
    }
}

/// The rules that apply to the popups of a window.
#[derive(Debug)]
pub struct ResolvedPopupsRules {
    pub opacity: Option<u32>,
    pub geometry_corner_radius: Option<CornerRadius>,
    /// The rules for what is behind the popups, in order.
    pub background_effects: Vec<u64>,
}

impl Default for ResolvedPopupsRules {
    fn default() -> (r: Self)
        ensures
            r.opacity is None,
            r.geometry_corner_radius is None,
            r.background_effects@.len() == 0,
    {
        ResolvedPopupsRules {
            opacity: None,
            geometry_corner_radius: None,
            background_effects: Vec::new(),
        }
    }
}

impl MergeWith<PopupsRule> for ResolvedPopupsRules {
    open spec fn merges_to(&self, part: &PopupsRule, after: &Self) -> bool {
        &&& after.opacity == (if part.opacity is Some {
            part.opacity
        } else {
            self.opacity
        })
        &&& after.geometry_corner_radius == (if part.geometry_corner_radius is Some {
            part.geometry_corner_radius
        } else {
            self.geometry_corner_radius
        })
        &&& after.background_effects@ == self.background_effects@.push(part.background_effect)
    }

    fn merge_with(&mut self, part: &PopupsRule) {
        if part.opacity.is_some() {
            self.opacity = part.opacity;
        }
        if part.geometry_corner_radius.is_some() {
            self.geometry_corner_radius = part.geometry_corner_radius;
        }
        self.background_effects.push(part.background_effect);
    }
}

/// A rule for popups sets what it gives and leaves the rest, and its effects are added to
/// those that there are.
pub proof fn rules_for_popups_add_up(
    before: ResolvedPopupsRules,
    part: PopupsRule,
    after: ResolvedPopupsRules,
)
    requires
        before.merges_to(&part, &after),
    ensures
        part.opacity is Some ==> after.opacity == part.opacity,
        part.opacity is None ==> after.opacity == before.opacity,
        part.geometry_corner_radius is Some ==> after.geometry_corner_radius
            == part.geometry_corner_radius,
        part.geometry_corner_radius is None ==> after.geometry_corner_radius
            == before.geometry_corner_radius,
        after.background_effects@.len() == before.background_effects@.len() + 1,
        after.background_effects@.last() == part.background_effect,
        after.background_effects@.drop_last() == before.background_effects@,
{
    assert(before.background_effects@.push(part.background_effect).drop_last()
        =~= before.background_effects@);
}

} // verus!
