//! The configuration and how its parts are put together.

pub mod action;
pub mod action_law;
pub mod binds;
pub mod binds_law;
pub mod config_law;
pub mod decode;
pub mod layout;
pub mod load;
pub mod node;
pub mod path;
pub mod recent_windows;
pub mod session_restore;
pub mod utils;
pub mod window_rule;
