//! The window-management core of a scrolling compositor.

pub mod compositor;
pub mod compositor_law;
pub mod config;
pub mod introspect;
pub mod ipc;
pub mod layout;
pub mod session;
pub mod text;
