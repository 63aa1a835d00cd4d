//! Workspaces, their layers of windows and the fixed side panels.

pub mod fixed_panels;
pub mod fixed_strip;
pub mod float_law;
pub mod floating;
pub mod focus_law;
pub mod geometry;
pub mod moves_law;
pub mod panel_focus_law;
pub mod panel_law;
pub mod panel_moves;
pub mod regroup_law;
pub mod render;
pub mod reorder;
pub mod restore_law;
pub mod row;
pub mod scene_law;
pub mod scrolling;
pub mod sizing;
pub mod tile;
pub mod widths_law;
pub mod windows_law;
pub mod workspace;
pub mod workspace_law;
pub mod workspace_moves;
pub mod workspace_state;
