//! Stashing and restoring the windows of a workspace, a monitor or a whole
//! session of a tiling window manager, and resolving the workspaces that a
//! launcher fills onto the monitors at hand.
//!
//! The library decides which windows move where; the caller talks to the
//! window manager, performs the moves and stores the records.
use vstd::prelude::*;

pub mod data;
pub mod error;
pub mod everything;
pub mod fill;
pub mod monitor;
pub mod state;
pub mod util;
pub mod workspace;

verus! {

/// Identifier of a workspace, as the window manager numbers them.
pub type WorkspaceId = i32;

/// Identifier of a monitor.
pub type MonitorId = i128;

} // verus!
