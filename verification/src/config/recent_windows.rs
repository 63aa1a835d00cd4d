//! Values of the switcher between recently used windows.

use vstd::prelude::*;

verus! {

/// Which way to go through the windows.
#[derive(Debug, Clone, Copy, PartialEq, Eq, Structural)]
pub enum MruDirection {
    Forward,
    Backward,
}

/// The windows to go through.
#[derive(Debug, Clone, Copy, PartialEq, Eq, Structural)]
pub enum MruScope {
    All,
    Output,
    Workspace,
}

/// The windows to leave out.
#[derive(Debug, Clone, Copy, PartialEq, Eq, Structural)]
pub enum MruFilter {
    All,
    AppId,
}

} // verus!
