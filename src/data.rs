use vstd::prelude::*;

use crate::error::StashError;
use crate::{MonitorId, WorkspaceId};

verus! {

/// A monitor as the window manager reports it.
#[derive(Debug, Clone)]
pub struct Monitor {
    pub id: MonitorId,
    pub name: String,
    pub description: String,
    pub focused: bool,
    pub active_workspace: WorkspaceId,
}

/// A workspace and the monitor that it is assigned to.
#[derive(Debug, Clone)]
pub struct Workspace {
    pub id: WorkspaceId,
    pub monitor_id: Option<MonitorId>,
}

/// A window: its address and the workspace that holds it.
#[derive(Debug, Clone)]
pub struct Client {
    pub address: String,
    pub workspace: WorkspaceId,
}

/// One point-in-time view of the window manager.
#[derive(Debug, Clone)]
pub struct Data {
    pub monitors: Vec<Monitor>,
    pub clients: Vec<Client>,
    pub workspaces: Vec<Workspace>,
    pub active_workspace: WorkspaceId,
    pub active_monitor: MonitorId,
}

/// `i` is the first focused monitor of `ms`.
pub open spec fn first_focused(ms: Seq<Monitor>, i: int) -> bool {
    &&& 0 <= i < ms.len()
    &&& ms[i].focused
    &&& forall|j: int| 0 <= j < i ==> !(#[trigger] ms[j]).focused
}

/// Some monitor of `ms` has the id `id`.
pub open spec fn has_monitor(ms: Seq<Monitor>, id: MonitorId) -> bool {
    exists|i: int| 0 <= i < ms.len() && (#[trigger] ms[i]).id == id
}

impl Data {
    /// Assembles a snapshot; the focused monitor and its active workspace
    /// become the active pair.
    pub fn new(monitors: Vec<Monitor>, clients: Vec<Client>, workspaces: Vec<Workspace>) -> (r:
        Result<Data, StashError>)
        ensures
            (forall|j: int| 0 <= j < monitors@.len() ==> !(#[trigger] monitors@[j]).focused)
                <==> r == Err::<Data, StashError>(StashError::NoActiveMonitorWorkspace),
            (exists|i: int| 0 <= i < monitors@.len() && (#[trigger] monitors@[i]).focused)
                ==> r is Ok,
            r is Err ==> r == Err::<Data, StashError>(StashError::NoActiveMonitorWorkspace),
            r is Ok ==> exists|i: int|
                first_focused(monitors@, i) && r->Ok_0.active_monitor == #[trigger] monitors@[i].id
                    && r->Ok_0.active_workspace == monitors@[i].active_workspace,
            r is Ok ==> r->Ok_0.monitors == monitors && r->Ok_0.clients == clients
                && r->Ok_0.workspaces == workspaces,
    {
        let mut i: usize = 0;
        while i < monitors.len()
            invariant
                i <= monitors@.len(),
                forall|j: int| 0 <= j < i ==> !(#[trigger] monitors@[j]).focused,
            decreases monitors@.len() - i,
        {
            if monitors[i].focused {
                let active_monitor = monitors[i].id;
                let active_workspace = monitors[i].active_workspace;
                assert(first_focused(monitors@, i as int));
                return Ok(Data { monitors, clients, workspaces, active_workspace, active_monitor });
            }
            i = i + 1;
        }
        Err(StashError::NoActiveMonitorWorkspace)
    }
}

} // verus!
